//! WebSocket message type constants.
use vstd::prelude::*;

verus! {

pub const TEXT: &'static str = "text";
pub const BINARY: &'static str = "binary";
pub const CLOSE: &'static str = "close";

} // verus!
