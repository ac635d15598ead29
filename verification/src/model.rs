use vstd::prelude::*;
use core::marker::PhantomData;

verus! {

/// A 128-bit value that has the bit layout of a random (version 4, RFC 4122
/// variant) UUID: the version nibble is `4` and the two top variant bits are `10`.
pub open spec fn is_v4_uuid(v: u128) -> bool {
    v & 0xF000_C000_0000_0000_0000u128 == 0x4000_8000_0000_0000_0000u128
}

/// Calls `uuid::Uuid::new_v4` and hands back the 128 bits of the new UUID
/// (`Uuid::as_u128`). The contract promises only the version and variant
/// bits of a version 4 UUID; the other 122 bits are random and nothing is
/// promised of them.
#[verifier::external_body]
pub(crate) fn random_uuid_bits() -> (bits: u128)
    ensures
        is_v4_uuid(bits),
{
    uuid::Uuid::new_v4().as_u128()
}

/// A typed identifier: the 128 bits of a UUID, tagged with the kind of
/// entity `T` it identifies.
#[derive(Debug)]
pub struct Id<T> {
    pub id: u128,
    pub _marker: PhantomData<T>,
}

impl<T> Clone for Id<T> {
    fn clone(&self) -> (r: Self)
        ensures
            r == *self,
    {
        Id { id: self.id, _marker: PhantomData }
    }
}

impl<T> Copy for Id<T> {
}

impl<T> Id<T> {
    /// Wraps the given UUID bits.
    pub fn new(id: u128) -> (r: Self)
        ensures
            r.id == id,
    {
        Id { id, _marker: PhantomData }
    }

    /// A fresh identifier from a randomly generated version 4 UUID.
    pub fn gen() -> (r: Self)
        ensures
            is_v4_uuid(r.id),
    {
        let id = random_uuid_bits();
        Id::new(id)
    }
}

/// The tag of user identifiers. A `User` cannot carry an `Id<User>` of its
/// own, since a datatype that mentions itself through a phantom parameter has
/// no well-founded base case, so user identifiers are tagged by this marker.
#[derive(Debug, Clone, Copy)]
pub struct UserTag;

/// A registered user of the chat.
#[derive(Debug, Clone)]
pub struct User {
    pub id: Id<UserTag>,
    pub name: String,
}

/// A user as the client sees it: id and name.
#[derive(Debug, Clone)]
pub struct JsonUserView {
    pub id: u128,
    pub name: String,
}

} // verus!
