//! Dispatch, rendering and handshake logic of a database tool server.
use vstd::prelude::*;

pub mod tools;
pub mod dispatch;
pub mod render;
pub mod server;

verus! {

} // verus!
