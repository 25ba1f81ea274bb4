//! Entity and identifier linked in both directions, with one generic
//! identifier type shared by every entity kind.
//!
//! `Identifier<E>` holds the raw value and a zero-sized marker for the entity
//! kind `E`. The marker makes the identifiers of different kinds different
//! types, and plays no part in equality, hashing or formatting: those are
//! written by hand over the raw value alone, so that `E` itself need not be
//! `Copy`, `Eq`, `Hash` or `Debug`.

use std::fmt::{Debug, Formatter};
use std::collections::hash_map::DefaultHasher;
use std::hash::{Hash, Hasher};
use std::marker::PhantomData;
use vstd::bytes::{spec_u64_to_le_bytes, u64_to_le_bytes};
use vstd::prelude::*;
use vstd::std_specs::cmp::PartialEqSpec;
use vstd::std_specs::hash::DefaultHasherAdditionalSpecFns;

verus! {

/// std's formatter, carried through [Identifier]'s `Debug` without being read.
#[verifier::external_type_specification]
#[verifier::external_body]
pub struct ExFormatter<'a>(Formatter<'a>);

/// std's formatting error, carried through [Identifier]'s `Debug` without
/// being read.
#[verifier::external_type_specification]
#[verifier::external_body]
pub struct ExFmtError(std::fmt::Error);

/// An identifier for an [Entity].
/// Identifiers are value types and implement the `Copy` trait.
///
/// `EntityType` names the one entity kind that the identifier belongs to.
/// That kind's [Entity] declaration must name this identifier type back.
pub trait EntityId: Copy + Clone + Debug + PartialEq + Eq + Hash + Sized {
    type EntityType;
}

/// A domain entity.
pub trait Entity {
    type Id: EntityId<EntityType = Self>;

    /// Unique identifier for this entity.
    fn id(&self) -> Self::Id;
}

/// The identifier of an entity of kind `TEntity`.
///
/// The bound that links `TEntity` back to this type (`TEntity: Entity<Id =
/// Identifier<TEntity>>`) stands on each impl rather than on the struct:
/// an identifier can only be made, read, copied, compared, hashed or
/// formatted for an entity kind whose declared identifier type is this one.
/// Its `Debug` form is `Identifier(<raw value>)`.
pub struct Identifier<TEntity>(i64, PhantomData<TEntity>);

/// The bytes that an identifier with raw value `raw` feeds to a hasher: the
/// little-endian bytes of the value.
pub open spec fn spec_hash_bytes(raw: i64) -> Seq<u8> {
    spec_u64_to_le_bytes(raw as u64)
}

/// The hash code of an identifier with raw value `raw`: what a fresh
/// `DefaultHasher` gives after being fed [spec_hash_bytes].
pub open spec fn spec_hash_code(raw: i64) -> u64 {
    DefaultHasher::spec_finish(seq![spec_hash_bytes(raw)])
}

impl<T> Identifier<T> where T: Entity<Id = Self> {
    /// The identifier of the raw value `raw`.
    pub closed spec fn spec_new(raw: i64) -> Self {
        Identifier(raw, PhantomData)
    }

    /// The raw value that this identifier wraps.
    pub closed spec fn spec_raw(self) -> i64 {
        self.0
    }

    /// Makes the identifier of the raw value `raw`.
    pub fn new(raw: i64) -> (r: Self)
        ensures
            r == Self::spec_new(raw),
            r.spec_raw() == raw,
    {
        Identifier(raw, PhantomData)
    }

    /// The hash code of this identifier, computed from the raw value alone
    /// with std's `DefaultHasher`. It is what hashing the identifier through
    /// its `Hash` impl into a fresh `DefaultHasher` gives.
    pub fn hash_code(&self) -> (r: u64)
        ensures
            r == spec_hash_code(self.spec_raw()),
    {
        let bytes = u64_to_le_bytes(self.0 as u64);
        let mut hasher = DefaultHasher::new();
        hasher.write(bytes.as_slice());
        hasher.finish()
    }

    /// Reads back the raw value.
    pub fn raw(&self) -> (r: i64)
        ensures
            r == self.spec_raw(),
    {
        self.0
    }
}

impl<T> Copy for Identifier<T> where T: Entity<Id = Self> {

}

impl<T> Clone for Identifier<T> where T: Entity<Id = Self> {
    fn clone(&self) -> (r: Self)
        ensures
            r == *self,
            r.eq_spec(self),
    {
        Identifier(self.0, PhantomData)
    }
}

impl<T> PartialEq for Identifier<T> where T: Entity<Id = Self> {
    fn eq(&self, other: &Self) -> (r: bool) {
        self.0 == other.0
    }
}

impl<T> vstd::std_specs::cmp::PartialEqSpecImpl for Identifier<T> where T: Entity<Id = Self> {
    open spec fn obeys_eq_spec() -> bool {
        true
    }

    open spec fn eq_spec(&self, other: &Self) -> bool {
        self.spec_raw() == other.spec_raw()
    }
}

impl<T> Eq for Identifier<T> where T: Entity<Id = Self> {

}

impl<T> Hash for Identifier<T> where T: Entity<Id = Self> {
    /// Relies on `Hasher::write`: the little-endian bytes of the raw value
    /// alone are fed to the hasher, as [spec_hash_bytes] says.
    #[verifier::external_body]
    fn hash<H: Hasher>(&self, state: &mut H) {
        state.write(&(self.0 as u64).to_le_bytes());
    }
}

impl<T> Debug for Identifier<T> where T: Entity<Id = Self> {
    /// Relies on `write!`: writes the raw value alone.
    #[verifier::external_body]
    fn fmt(&self, f: &mut Formatter<'_>) -> std::fmt::Result {
        write!(f, "Identifier({})", self.0)
    }
}

impl<T> EntityId for Identifier<T> where T: Entity<Id = Self> {
    type EntityType = T;
}

/// A domain entity of kind `Foo`.
///
/// It keeps the raw value of its identifier, which is all that an
/// `Identifier<Foo>` holds at run time.
///
/// The identifier of a `Bar` is another type, and is refused:
///
/// ```compile_fail
/// use type_system::phantom::{Bar, Foo, Identifier};
/// let bar_id = Identifier::<Bar>::new(1);
/// let foo = Foo::new(bar_id);
/// ```
pub struct Foo {
    id: i64,
}

impl Foo {
    /// The entity with the identifier `id`.
    pub closed spec fn spec_new(id: Identifier<Foo>) -> Foo {
        Foo { id: id.spec_raw() }
    }

    /// The identifier that this entity holds.
    pub closed spec fn spec_id(&self) -> Identifier<Foo> {
        Identifier(self.id, PhantomData)
    }

    /// Makes an entity with the identifier `id`.
    pub fn new(id: Identifier<Foo>) -> (r: Foo)
        ensures
            r == Foo::spec_new(id),
            r.spec_id() == id,
    {
        Foo { id: id.raw() }
    }
}

impl Entity for Foo {
    type Id = Identifier<Foo>;

    fn id(&self) -> (r: Identifier<Foo>)
        ensures
            r == self.spec_id(),
    {
        Identifier(self.id, PhantomData)
    }
}

/// A domain entity of kind `Bar`.
///
/// It keeps the raw value of its identifier, which is all that an
/// `Identifier<Bar>` holds at run time.
pub struct Bar {
    id: i64,
}

impl Bar {
    /// The entity with the identifier `id`.
    pub closed spec fn spec_new(id: Identifier<Bar>) -> Bar {
        Bar { id: id.spec_raw() }
    }

    /// The identifier that this entity holds.
    pub closed spec fn spec_id(&self) -> Identifier<Bar> {
        Identifier(self.id, PhantomData)
    }

    /// Makes an entity with the identifier `id`.
    pub fn new(id: Identifier<Bar>) -> (r: Bar)
        ensures
            r == Bar::spec_new(id),
            r.spec_id() == id,
    {
        Bar { id: id.raw() }
    }
}

impl Entity for Bar {
    type Id = Identifier<Bar>;

    fn id(&self) -> (r: Identifier<Bar>)
        ensures
            r == self.spec_id(),
    {
        Identifier(self.id, PhantomData)
    }
}

/// Identifiers made from a raw value give that value back, are equal to
/// themselves, and are unequal when made from different raw values.
pub proof fn lemma_identifier_equality<T>(x: Identifier<T>, v1: i64, v2: i64) where
    T: Entity<Id = Identifier<T>>,

    ensures
        x.eq_spec(&x),
        Identifier::<T>::spec_new(v1).spec_raw() == v1,
        v1 != v2 ==> !Identifier::<T>::spec_new(v1).eq_spec(&Identifier::<T>::spec_new(v2)),
{
}

/// Equal identifiers have equal hash codes.
pub proof fn lemma_hash_consistent<T>(a: Identifier<T>, b: Identifier<T>) where
    T: Entity<Id = Identifier<T>>,

    requires
        a.eq_spec(&b),
    ensures
        spec_hash_code(a.spec_raw()) == spec_hash_code(b.spec_raw()),
{
}

/// An entity's accessor gives back the identifier that the entity was made
/// with. No operation changes an entity, so this holds for its whole life.
pub proof fn lemma_accessor_stable(foo_id: Identifier<Foo>, bar_id: Identifier<Bar>)
    ensures
        Foo::spec_new(foo_id).spec_id() == foo_id,
        Bar::spec_new(bar_id).spec_id() == bar_id,
{
}

} // verus!
