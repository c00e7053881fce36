//! A code generator for bit-packed record types.
//!
//! Given a schema of named boolean fields, this library plans a compact
//! storage layout (one bit per field, packed into machine words) and emits
//! the source text of a record type together with one getter/setter pair per
//! field. Two smaller generators accompany it: a single-word bitfield
//! accessor generator for a caller-owned wrapper type, and a lazily
//! initialized global-value generator with exactly-once initialization.
//!
//! The bit arithmetic that the emitted accessors perform is modelled and
//! proved here as well: [`record::BitRecord`] gives the packed record's
//! semantics, [`bitfield`] the single-word accessors', and [`lazy::LazyCell`]
//! the initialize-once cell's.

pub mod bitfield;
pub mod emit;
pub mod layout;
pub mod lazy;
pub mod parser;
pub mod record;
pub mod token;
