//! Values of the type field of a Stream ID.

use vstd::prelude::*;

verus! {

pub const STREAM: &'static str = "stream";

pub const FILE: &'static str = "file";

pub const AUTH: &'static str = "auth";

} // verus!
