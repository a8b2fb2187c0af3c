use vstd::prelude::*;

verus! {

/// A trait for casting a type to another type with the semantics of the
/// native `as` operator.
///
/// `CastInto` is derived mechanically from [`CastFrom`] by a single blanket
/// implementation and is never implemented independently, so the two
/// directions of a conversion pair cannot drift apart.
pub trait CastInto<To>: Sized {
    /// The exact value that `cast_into` returns.
    spec fn cast_into_spec(self) -> To;

    /// Returns `self as To`.
    fn cast_into(self) -> (r: To)
        ensures
            r == self.cast_into_spec(),
    ;
}

/// A trait for casting a type from another type with the semantics of the
/// native `as` operator.
///
/// A conversion is available only for the ordered pairs of types that carry an
/// implementation; every type converts to itself, and every ordered pair of
/// the primitive integer types (8, 16, 32, 64 and 128 bits wide, signed and
/// unsigned, and the two pointer-sized types) is declared. Requesting any other
/// pair fails to build.
pub trait CastFrom<Src>: Sized {
    /// The exact value that `from_cast` returns: `from as Self`.
    spec fn from_cast_spec(from: Src) -> Self;

    /// Whether `from` is exactly representable in `Self`, so that the
    /// conversion loses nothing.
    spec fn is_exact(from: Src) -> bool;

    /// Returns `from as Self`.
    fn from_cast(from: Src) -> (r: Self)
        ensures
            r == Self::from_cast_spec(from),
    ;
}

/// The round-trip law of a conversion pair whose inverse pair is also
/// declared, proved for every such pair: converting a value that is exactly
/// representable in the target type and converting the result back
/// reproduces the original value.
pub trait CastLossless<Src>: CastFrom<Src> where Src: CastFrom<Self> {
    /// Law: for every `from` that [`CastFrom::is_exact`] admits, the
    /// conversion `Src` to `Self` followed by `Self` back to `Src` is the
    /// identity.
    proof fn lemma_exact_round_trip(from: Src)
        requires
            Self::is_exact(from),
        ensures
            Src::from_cast_spec(Self::from_cast_spec(from)) == from,
    ;
}

impl<A, B> CastInto<A> for B where A: CastFrom<B> {
    open spec fn cast_into_spec(self) -> A {
        A::from_cast_spec(self)
    }

    fn cast_into(self) -> (r: A) {
        A::from_cast(self)
    }
}

impl<A> CastFrom<A> for A {
    open spec fn from_cast_spec(from: A) -> A {
        from
    }

    open spec fn is_exact(from: A) -> bool {
        true
    }

    fn from_cast(from: A) -> (r: A)
        ensures
            r == from,
    {
        from
    }
}

impl<A> CastLossless<A> for A {
    proof fn lemma_exact_round_trip(from: A) {
    }
}

/// Allows casting from this type to other types using
/// [`CastFrom`]/[`CastInto`].
pub trait Cast: Sized {
    /// Casts `self` to the `To` type. This may be a lossy operation.
    fn cast<To: CastFrom<Self>>(self) -> (r: To)
        ensures
            r == To::from_cast_spec(self),
    ;
}

impl<A> Cast for A {
    fn cast<To: CastFrom<Self>>(self) -> (r: To)
        ensures
            r == To::from_cast_spec(self),
    {
        To::from_cast(self)
    }
}

/// Law: narrowing a 16-bit value to 8 bits keeps exactly the low-order 8
/// bits, whether the target reads them as unsigned or as two's-complement
/// signed: the unsigned result is the value modulo 256, the signed result
/// reinterprets the same bits, with values of 128 and above wrapping to
/// negatives.
pub proof fn lemma_narrow_u16_truncates(x: u16)
    ensures
        x as u8 == x % 256,
        (x as i8) as u8 == x as u8,
        x as i8 == (if x % 256 < 128 {
            (x % 256) as int
        } else {
            x % 256 - 256
        }),
{
    assert(x as u8 == x % 256) by (bit_vector);
    assert((x as i8) as u8 == x as u8) by (bit_vector);
    assert(x as i8 == (if x % 256 < 128 {
        (x % 256) as int
    } else {
        x % 256 - 256
    })) by (bit_vector);
}

/// Law: narrowing a signed 16-bit value to 8 bits also keeps exactly the
/// low-order 8 bits of the two's-complement representation: the unsigned
/// result is the value modulo 256 (the Euclidean remainder, so a negative
/// value wraps upward), and the signed result reinterprets the same bits.
pub proof fn lemma_narrow_i16_truncates(x: i16)
    ensures
        x as u8 == x % 256,
        (x as i8) as u8 == x as u8,
        x as i8 == (if x % 256 < 128 {
            (x % 256) as int
        } else {
            x % 256 - 256
        }),
{
    assert(x as u8 == x % 256) by (bit_vector);
    assert((x as i8) as u8 == x as u8) by (bit_vector);
    assert(x as i8 == (if x % 256 < 128 {
        (x % 256) as int
    } else {
        x % 256 - 256
    })) by (bit_vector);
}

/// Law: narrowing a 32-bit value to 16 bits keeps exactly the low-order 16
/// bits, whether the target reads them as unsigned or as two's-complement
/// signed: the unsigned result is the value modulo 65536, the signed result
/// reinterprets the same bits, with values of 32768 and above wrapping to
/// negatives.
pub proof fn lemma_narrow_u32_truncates(x: u32)
    ensures
        x as u16 == x % 0x10000,
        (x as i16) as u16 == x as u16,
        x as i16 == (if x % 0x10000 < 0x8000 {
            (x % 0x10000) as int
        } else {
            x % 0x10000 - 0x10000
        }),
{
    assert(x as u16 == x % 0x10000) by (bit_vector);
    assert((x as i16) as u16 == x as u16) by (bit_vector);
    assert(x as i16 == (if x % 0x10000 < 0x8000 {
        (x % 0x10000) as int
    } else {
        x % 0x10000 - 0x10000
    })) by (bit_vector);
}

} // verus!
