//! Values ordered by a comparison function chosen per value, and an adapter
//! that attaches one such function to every item of an iterator.
use vstd::prelude::*;

pub mod adapter;
pub mod wrapper;

pub use adapter::{OrdByIter, OrdByIterTrait};
pub use wrapper::OrdBy;

verus! {

} // verus!
