//! A non-null, mutable-semantics address handle.
//!
//! `NonNullMut<T>` models a raw memory address that is statically guaranteed
//! to be non-zero.  It carries no ownership, lifetime, or liveness
//! information: it is a bare, freely copyable value on which address
//! inspection, rewriting, and pointer-style arithmetic are verified.

pub mod handle;
pub mod laws;
pub mod render;

pub use handle::Metadata;
pub use handle::NonNullMut;
