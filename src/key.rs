use vstd::prelude::*;

verus! {

/// Marker for the role a key plays.
///
/// Roles annotate key holders at call sites; the capability traits do not
/// take them as parameters, and which role a holder has shows in which of
/// `Signing` and `Verifying` it implements.
pub trait KeyType: std::fmt::Debug + Copy {}

/// A secret key that should not be shared with any other party
/// under any circumstance.
#[derive(Debug, Clone, Copy)]
pub struct Secret;

/// A key publishable to the public.
#[derive(Debug, Clone, Copy)]
pub struct Public;

impl KeyType for Secret {}

impl KeyType for Public {}

} // verus!
