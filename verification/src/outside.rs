//! Declaration of the MessagePack crate's value type, which the bridge to the
//! encoder and decoder hands on.

use vstd::prelude::*;

verus! {

#[verifier::external_type_specification]
#[verifier::external_body]
pub struct ExOutsideValue(rmpv::Value);

} // verus!
