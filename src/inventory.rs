use vstd::prelude::*;

verus! {

/// The two colours a shirt may have.
#[derive(Debug, PartialEq, Eq, Clone, Copy, Structural)]
pub enum ShirtColor {
    Red,
    Blue,
}

/// The shirts in stock, in the order they were stocked.
pub struct Inventory {
    pub shirts: Vec<ShirtColor>,
}

/// How many entries of `s` equal `c`.
pub open spec fn count_of(s: Seq<ShirtColor>, c: ShirtColor) -> nat
    decreases s.len(),
{
    if s.len() == 0 {
        0
    } else {
        count_of(s.drop_last(), c) + if s.last() == c { 1nat } else { 0nat }
    }
}

/// The majority colour of `s`: red only when strictly more red than blue,
/// blue otherwise (ties and the empty stock included).
pub open spec fn most_stocked_of(s: Seq<ShirtColor>) -> ShirtColor {
    if count_of(s, ShirtColor::Red) > count_of(s, ShirtColor::Blue) {
        ShirtColor::Red
    } else {
        ShirtColor::Blue
    }
}

/// The colour handed out: the preference when there is one, else the
/// majority colour of the stock.
pub open spec fn giveaway_of(preference: Option<ShirtColor>, s: Seq<ShirtColor>) -> ShirtColor {
    match preference {
        Some(c) => c,
        None => most_stocked_of(s),
    }
}

/// Every entry is one of the two colours, so the two counts add up to the length.
pub proof fn lemma_counts_cover(s: Seq<ShirtColor>)
    ensures
        count_of(s, ShirtColor::Red) + count_of(s, ShirtColor::Blue) == s.len(),
    decreases s.len(),
{
    if s.len() > 0 {
        lemma_counts_cover(s.drop_last());
    }
}

impl Inventory {
    /// The colour for a user: the preference if given, and only otherwise the
    /// majority colour of the stock.
    pub fn giveaway(&self, user_preference: Option<ShirtColor>) -> (r: ShirtColor)
        ensures
            r == giveaway_of(user_preference, self.shirts@),
    {
        match user_preference {
            Some(c) => c,
            None => self.most_stocked(),
        }
    }

    /// Tallies both colours in one pass; red wins only when strictly ahead.
    pub fn most_stocked(&self) -> (r: ShirtColor)
        ensures
            r == most_stocked_of(self.shirts@),
    {
        let mut red_count: usize = 0;
        let mut blue_count: usize = 0;
        let mut i: usize = 0;
        while i < self.shirts.len()
            invariant
                i <= self.shirts@.len(),
                red_count == count_of(self.shirts@.take(i as int), ShirtColor::Red),
                blue_count == count_of(self.shirts@.take(i as int), ShirtColor::Blue),
            decreases self.shirts@.len() - i,
        {
            let ghost before = self.shirts@.take(i as int);
            proof {
                lemma_counts_cover(before);
                assert(self.shirts@.take(i + 1).drop_last() =~= before);
            }
            match self.shirts[i] {
                ShirtColor::Red => red_count += 1,
                ShirtColor::Blue => blue_count += 1,
            }
            i += 1;
        }
        proof {
            assert(self.shirts@.take(i as int) =~= self.shirts@);
        }
        if red_count > blue_count {
            ShirtColor::Red
        } else {
            ShirtColor::Blue
        }
    }
}

/// A stated preference is handed out whatever the stock holds.
pub proof fn lemma_preference_wins(c: ShirtColor, reference: Seq<ShirtColor>)
    ensures
        giveaway_of(Some(c), reference) == c,
{
}

/// Without a preference, red is handed out when the stock holds strictly more
/// red shirts than blue ones.
pub proof fn lemma_red_when_ahead(reference: Seq<ShirtColor>)
    requires
        count_of(reference, ShirtColor::Red) > count_of(reference, ShirtColor::Blue),
    ensures
        giveaway_of(None, reference) == ShirtColor::Red,
{
}

/// Without a preference, blue is handed out when red is not strictly ahead,
/// a tie and the empty stock included.
pub proof fn lemma_blue_otherwise(reference: Seq<ShirtColor>)
    requires
        count_of(reference, ShirtColor::Red) <= count_of(reference, ShirtColor::Blue),
    ensures
        giveaway_of(None, reference) == ShirtColor::Blue,
{
}

} // verus!
