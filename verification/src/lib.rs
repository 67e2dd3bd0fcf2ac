//! Typed-value core of a compiler front end for a language whose programs are
//! compiled into arithmetic constraint systems.
//!
//! Semantic analysis resolves every expression of a source program to one
//! in-memory value.  This library provides that value model — a closed sum
//! type covering fixed-width integers, a prime-field constant, a group
//! constant, booleans, arrays, instantiated records, function references,
//! returns, transparent binding wrappers, and deferred literals — together
//! with the recursive type-compatibility check, the literal-to-value
//! resolver, primitive type extraction, and a stable textual rendering.

pub mod error;
pub mod integer;
pub mod laws;
pub mod text;
pub mod types;
pub mod value;
