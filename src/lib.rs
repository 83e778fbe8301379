//! Shirt giveaway selection: a stated preference wins, otherwise the colour
//! with the most shirts in stock is chosen; plus a small shoe filter.

pub mod inventory;
pub mod iterators;
