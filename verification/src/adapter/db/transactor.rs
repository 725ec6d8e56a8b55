//! A transactor that does nothing: a stand-in where no database is at hand.
use vstd::prelude::*;

verus! {

/// A transactor whose steps do nothing.
#[derive(Clone, Copy, Default)]
pub struct Transactor {}

impl Transactor {
    pub fn new() -> (r: Self) {
        Transactor {}
    }

    pub fn begin(&self) {
    }

    pub fn commit(&self) {
    }

    pub fn rollback(&self) {
    }
}

} // verus!
