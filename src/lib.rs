//! Strongly typed entity identifiers, in three variants, together with a
//! collection of small verified examples of everyday Rust.
//!
//! The identifier variants differ in how an entity kind and its identifier
//! type are linked:
//! - [unidirectional]: the entity names its identifier type only;
//! - [bidirectional]: the identifier type names its entity kind back;
//! - [phantom]: one generic identifier type serves every entity kind.

pub mod bidirectional;
pub mod phantom;
pub mod unidirectional;

pub mod closures;
pub mod enums;
pub mod errors;
pub mod functions;
pub mod generics;
pub mod guessing;
pub mod iterators;
pub mod ownership;
pub mod restaurant;
pub mod structs;
pub mod testing;
