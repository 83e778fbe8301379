use vstd::prelude::*;

verus! {

/// A shoe, by size and style.
#[derive(PartialEq, Debug)]
pub struct Shoe {
    pub size: u32,
    pub style: String,
}

/// Whether a shoe has the given size.
pub open spec fn has_size(s: Shoe, shoe_size: u32) -> bool {
    s.size == shoe_size
}

/// Keeps the shoes of the given size, in their original order.
pub fn _shoes_in_size(shoes: Vec<Shoe>, shoe_size: u32) -> (r: Vec<Shoe>)
    ensures
        r@ == shoes@.filter(|s: Shoe| has_size(s, shoe_size)),
{
    let ghost all = shoes@;
    let mut kept: Vec<Shoe> = Vec::new();
    for shoe in it: shoes.into_iter()
        invariant
            it.seq() == all,
            kept@ == all.take(it.index() as int).filter(|s: Shoe| has_size(s, shoe_size)),
    {
        proof {
            reveal(Seq::filter);
            assert(all.take(it.index() + 1).drop_last() =~= all.take(it.index() as int));
        }
        if shoe.size == shoe_size {
            kept.push(shoe);
        }
    }
    proof {
        assert(all.take(all.len() as int) =~= all);
    }
    kept
}

} // verus!
