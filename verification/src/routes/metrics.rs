//! The metrics exposition.

use vstd::prelude::*;

verus! {

/// The content type of the plain-text metrics exposition.
pub const CONTENT_TYPE: &'static str = "text/plain; version=0.0.4";

} // verus!
