use vstd::prelude::*;

pub mod handlers;
pub mod middleware;

verus! {
}
