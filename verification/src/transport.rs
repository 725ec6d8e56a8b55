use vstd::prelude::*;

pub mod http_server;
pub mod mapper;
pub mod models;

verus! {
}
