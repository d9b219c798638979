use vstd::prelude::*;
use crate::error::Error;

verus! {

/// What the library's fallible functions return.
pub type Result<T> = core::result::Result<T, Error>;

/// A wrapper around a value of another type, for conversions between types
/// that neither side owns.
pub struct W<T>(pub T);

} // verus!
