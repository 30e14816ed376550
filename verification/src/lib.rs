//! Structural diffing of record types.
//!
//! Comparing two instances of a record type yields a [`algebra::Diff`]
//! value that tells, field by field and recursively, what changed.
//! The [`capability::Diffable`] trait is the contract a comparable type
//! implements; equality-based leaf types get it through
//! [`capability::LeafEq`], while record types carry a companion shape
//! holding one diff per field, as the examples in [`records`] show.
//! The [`codegen`] module derives that companion code from a record's
//! field list.

pub mod algebra;
pub mod capability;
pub mod codegen;
pub mod records;

pub use algebra::Diff;
pub use capability::Diffable;
pub use capability::LeafEq;
