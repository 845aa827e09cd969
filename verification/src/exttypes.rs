//! Scalar types of outside crates that take part in the conversion
//! capability as primitives. The types are declared so that Verus can carry
//! their values through; their conversion is the identity, as for every
//! primitive.

use vstd::prelude::*;
use crate::convert::Primitive;

verus! {

/// Declares `uuid::Uuid` to Verus; values pass through opaquely.
#[verifier::external_type_specification]
#[verifier::external_body]
pub struct ExUuid(uuid::Uuid);

impl Primitive for uuid::Uuid {}

} // verus!
