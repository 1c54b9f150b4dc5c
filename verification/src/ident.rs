//! Identities of rows.

use vstd::prelude::*;

verus! {

/// A 128-bit universally unique identifier, held as its big-endian number.
#[derive(Clone, Copy, Debug, PartialEq, Eq, Hash, Structural)]
pub struct Uuid(pub u128);

impl Uuid {
    /// The version nibble of the identifier.
    pub open spec fn version(self) -> u128 {
        (self.0 >> 76) & 0xf
    }

    /// The two variant bits of the identifier.
    pub open spec fn variant(self) -> u128 {
        (self.0 >> 62) & 0x3
    }

    /// The identifier is a version 7 (time-ordered) one of the RFC 4122 layout.
    pub open spec fn is_v7(self) -> bool {
        self.version() == 7 && self.variant() == 2
    }

    /// The identifier of the given number.
    pub fn from_u128(bits: u128) -> (r: Uuid)
        ensures
            r == Uuid(bits),
    {
        Uuid(bits)
    }

    /// The identifier's number.
    pub fn as_u128(&self) -> (r: u128)
        ensures
            r == self.0,
    {
        self.0
    }

    /// Whether the identifier is a version 7 one of the RFC 4122 layout.
    pub fn is_version_7(&self) -> (r: bool)
        ensures
            r == self.is_v7(),
    {
        ((self.0 >> 76) & 0xf) == 7 && ((self.0 >> 62) & 0x3) == 2
    }
}

/// `uuid::Uuid::now_v7`, with the result taken as its number by `as_u128`.
///
/// Trusted: whatever the clock and the random source give, the identifier
/// carries version 7 and the RFC 4122 variant. Nothing is claimed of the
/// other bits; two calls may return anything.
#[verifier::external_body]
pub(crate) fn fresh_v7() -> (id: Uuid)
    ensures
        id.is_v7(),
{
    Uuid(uuid::Uuid::now_v7().as_u128())
}

} // verus!
