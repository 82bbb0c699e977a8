use vstd::prelude::*;

verus! {

/// Marker for a signing algorithm family.
///
/// An algorithm is a type, not a runtime value: each family is a unit type of
/// its own, so a signer for one family cannot be handed where another is
/// expected.
pub trait Algorithm: std::fmt::Debug {}

/// The RSA family, currently the only one required.
///
/// Further families are added as new marker types beside this one, without
/// touching it or the implementers for it.
#[derive(Debug, Clone, Copy)]
#[allow(non_camel_case_types)]
pub struct RSA;

impl Algorithm for RSA {}

} // verus!
