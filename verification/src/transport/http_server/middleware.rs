use vstd::prelude::*;

pub mod auth;

verus! {
}
