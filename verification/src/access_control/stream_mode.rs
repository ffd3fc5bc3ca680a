//! Values of the mode field of a Stream ID.

use vstd::prelude::*;

verus! {

pub const REQUEST: &'static str = "request";

pub const PUBLISH: &'static str = "publish";

pub const BIDIRECTIONAL: &'static str = "bidirectional";

} // verus!
