//! Errors shared by the request handlers.

use vstd::prelude::*;

verus! {

/// A request refused with a message.
#[derive(Debug)]
pub struct SimpleRejection(pub String);

} // verus!
