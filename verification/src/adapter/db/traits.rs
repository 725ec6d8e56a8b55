//! The table name and column list that every table describes itself with.
use vstd::prelude::*;

verus! {

/// A table's name and the columns a `SELECT` of it reads.
pub trait NameAndFields {
    spec fn spec_name(&self) -> Seq<char>;

    spec fn spec_fields(&self) -> Seq<Seq<char>>;

    fn get_name(&self) -> (r: &str)
        ensures
            r@ == self.spec_name(),
    ;

    fn get_fields(&self) -> (r: &[&str])
        ensures
            r@.map_values(|f: &str| f@) == self.spec_fields(),
    ;
}

} // verus!
