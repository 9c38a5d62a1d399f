//! How urgent an item is.
use vstd::prelude::*;

verus! {

#[derive(Debug, PartialEq, Eq, Clone, Copy, Structural)]
pub enum ItemPriority {
    Low,
    Medium,
    High,
}

} // verus!
