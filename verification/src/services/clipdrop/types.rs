//! The wire shape of the text-to-image call.
use vstd::prelude::*;

verus! {

pub struct ImageCreationRequest {
    pub prompt: String,
}

} // verus!
