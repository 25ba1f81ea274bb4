//! Entity and identifier linked in both directions.
//!
//! Each entity kind names its identifier type, and the identifier type names
//! its entity kind back. An identifier type therefore serves one entity kind
//! only: using it for another fails to type-check.

use std::fmt::Debug;
use std::hash::Hash;
use vstd::prelude::*;

verus! {

/// An identifier for an [Entity].
/// Identifiers are value types and implement the `Copy` trait.
///
/// `EntityType` names the one entity kind that the identifier belongs to.
/// That kind's [Entity] declaration must name this identifier type back.
pub trait EntityId: Copy + Clone + Debug + PartialEq + Eq + Hash + Sized {
    type EntityType;
}

/// A domain entity.
pub trait Entity {
    type Id: EntityId<EntityType = Self>;

    /// Unique identifier for this entity.
    fn id(&self) -> Self::Id;
}

/// The identifier of a [Foo]: a raw 64-bit value.
///
/// It names `Foo` as its entity kind, so no other entity kind can take it as
/// its identifier type:
///
/// ```compile_fail
/// use type_system::bidirectional::{Entity, FooId};
/// struct Baz {
///     id: FooId,
/// }
/// impl Entity for Baz {
///     type Id = FooId;
///     fn id(&self) -> FooId {
///         self.id
///     }
/// }
/// ```
#[derive(Copy, Clone, Debug, PartialEq, Eq, Structural, Hash)]
pub struct FooId(i64);

impl FooId {
    /// The identifier of the raw value `raw`.
    pub closed spec fn spec_new(raw: i64) -> FooId {
        FooId(raw)
    }

    /// The raw value that this identifier wraps.
    pub closed spec fn spec_raw(self) -> i64 {
        self.0
    }

    /// Makes the identifier of the raw value `raw`.
    pub fn new(raw: i64) -> (r: FooId)
        ensures
            r == FooId::spec_new(raw),
            r.spec_raw() == raw,
    {
        FooId(raw)
    }

    /// Reads back the raw value.
    pub fn raw(&self) -> (r: i64)
        ensures
            r == self.spec_raw(),
    {
        self.0
    }
}

impl EntityId for FooId {
    type EntityType = Foo;
}

/// A domain entity identified by a [FooId].
pub struct Foo {
    id: FooId,
}

impl Foo {
    /// The entity with the identifier `id`.
    pub closed spec fn spec_new(id: FooId) -> Foo {
        Foo { id }
    }

    /// The identifier that this entity holds.
    pub closed spec fn spec_id(&self) -> FooId {
        self.id
    }

    /// Makes an entity with the identifier `id`.
    pub fn new(id: FooId) -> (r: Foo)
        ensures
            r == Foo::spec_new(id),
            r.spec_id() == id,
    {
        Foo { id }
    }
}

impl Entity for Foo {
    type Id = FooId;

    fn id(&self) -> (r: FooId)
        ensures
            r == self.spec_id(),
    {
        self.id
    }
}

/// Identifiers made from a raw value give that value back, are equal to
/// themselves, and are unequal when made from different raw values.
pub proof fn lemma_id_equality(x: FooId, v1: i64, v2: i64)
    ensures
        x == x,
        FooId::spec_new(v1).spec_raw() == v1,
        v1 != v2 ==> FooId::spec_new(v1) != FooId::spec_new(v2),
{
}

/// An entity's accessor gives back the identifier that the entity was made
/// with. No operation changes an entity, so this holds for its whole life.
pub proof fn lemma_accessor_stable(id: FooId)
    ensures
        Foo::spec_new(id).spec_id() == id,
{
}

} // verus!
