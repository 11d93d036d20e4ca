//! The one type this library takes from the `serde_urlencoded` crate.

use vstd::prelude::*;

verus! {

/// `serde_urlencoded::ser::Error`, why form parameters do not encode.
#[verifier::external_type_specification]
#[verifier::external_body]
pub struct ExFormError(serde_urlencoded::ser::Error);

} // verus!
