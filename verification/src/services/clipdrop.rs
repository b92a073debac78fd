//! The image-generation provider's endpoint table and request shape.
pub mod types;

use vstd::prelude::*;

verus! {

#[derive(Clone)]
pub enum ClipdropEndpoints {
    ImageCreation,
}

impl ClipdropEndpoints {
    /// The upstream path of the endpoint.
    pub fn path(&self) -> (r: &'static str)
        ensures
            r@ == "/text-to-image/v1"@,
    {
        match self {
            ClipdropEndpoints::ImageCreation => "/text-to-image/v1",
        }
    }

    /// The price of one call, in the smallest payable unit.
    pub fn pricing(&self) -> (r: u64)
        ensures
            r == 1000u64,
    {
        match self {
            ClipdropEndpoints::ImageCreation => 1000,
        }
    }
}

} // verus!
