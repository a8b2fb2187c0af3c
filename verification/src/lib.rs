//! Two small, independent utilities for intent-revealing code:
//!
//! - a pair of conversion traits ([`CastFrom`], [`CastInto`]) together with the
//!   [`Cast`] entry point, declaring an explicit, enumerated table of numeric
//!   conversions with the semantics of the native `as` operator; and
//! - an assertion trait ([`Assert`]) that unwraps container-like values
//!   (booleans, optional values, fallible results, and their by-reference
//!   forms) that the caller knows to be in their expected state.
//!
//! Every declared conversion pair carries a proved round-trip law
//! ([`CastLossless`]), and the narrowing lemmas ([`lemma_narrow_u16_truncates`]
//! and its siblings) relate lossy casts to two's-complement arithmetic.

mod assertions;
mod cast;
mod cast_table;

pub use assertions::Assert;
pub use cast::Cast;
pub use cast::CastFrom;
pub use cast::CastInto;
pub use cast::CastLossless;
pub use cast::lemma_narrow_u16_truncates;
pub use cast::lemma_narrow_i16_truncates;
pub use cast::lemma_narrow_u32_truncates;
