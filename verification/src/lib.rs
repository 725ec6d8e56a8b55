use vstd::prelude::*;

pub mod adapter;
pub mod consts;
pub mod custom_error;
pub mod err_msg;
pub mod status;
pub mod text;
pub mod transport;
pub mod types;
pub mod usecase;

verus! {

} // verus!
