use vstd::prelude::*;

pub mod config;
pub mod db;
pub mod email;
pub mod helpers;
pub mod jwt;
pub mod logger;

verus! {

} // verus!
