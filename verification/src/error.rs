//! The process-level failures: configuration and router setup.
use vstd::prelude::*;

verus! {

pub type Result<T> = core::result::Result<T, Error>;

#[derive(Debug)]
pub enum Error {
    ConfigMissingEnv(&'static str),
    ConfigWrongFormat(&'static str),
    RouterFailToSetRoutes(&'static str),
}

} // verus!
