//! The declared conversion table: every ordered pair of the primitive
//! integer types (8, 16, 32, 64 and 128 bits wide, signed and unsigned, and
//! the two pointer-sized types) carries a [`CastFrom`] implementation with
//! the semantics of the native `as` operator, and a [`CastLossless`]
//! implementation proving the pair's round-trip law. The identity pair of
//! every type is declared once, by the blanket implementations beside the
//! traits.

use vstd::prelude::*;

use crate::cast::CastFrom;
use crate::cast::CastLossless;

verus! {

impl CastFrom<i8> for u8 {
    open spec fn from_cast_spec(from: i8) -> u8 {
        from as u8
    }

    open spec fn is_exact(from: i8) -> bool {
        from >= 0
    }

    fn from_cast(from: i8) -> (r: u8)
        ensures
            r == from as u8,
    {
        #[verifier::truncate] (from as u8)
    }
}

impl CastLossless<i8> for u8 {
    proof fn lemma_exact_round_trip(from: i8) {
    }
}

impl CastFrom<u16> for u8 {
    open spec fn from_cast_spec(from: u16) -> u8 {
        from as u8
    }

    open spec fn is_exact(from: u16) -> bool {
        from <= 0xff
    }

    fn from_cast(from: u16) -> (r: u8)
        ensures
            r == from as u8,
    {
        #[verifier::truncate] (from as u8)
    }
}

impl CastLossless<u16> for u8 {
    proof fn lemma_exact_round_trip(from: u16) {
    }
}

impl CastFrom<i16> for u8 {
    open spec fn from_cast_spec(from: i16) -> u8 {
        from as u8
    }

    open spec fn is_exact(from: i16) -> bool {
        from >= 0 && from <= 0xff
    }

    fn from_cast(from: i16) -> (r: u8)
        ensures
            r == from as u8,
    {
        #[verifier::truncate] (from as u8)
    }
}

impl CastLossless<i16> for u8 {
    proof fn lemma_exact_round_trip(from: i16) {
    }
}

impl CastFrom<u32> for u8 {
    open spec fn from_cast_spec(from: u32) -> u8 {
        from as u8
    }

    open spec fn is_exact(from: u32) -> bool {
        from <= 0xff
    }

    fn from_cast(from: u32) -> (r: u8)
        ensures
            r == from as u8,
    {
        #[verifier::truncate] (from as u8)
    }
}

impl CastLossless<u32> for u8 {
    proof fn lemma_exact_round_trip(from: u32) {
    }
}

impl CastFrom<i32> for u8 {
    open spec fn from_cast_spec(from: i32) -> u8 {
        from as u8
    }

    open spec fn is_exact(from: i32) -> bool {
        from >= 0 && from <= 0xff
    }

    fn from_cast(from: i32) -> (r: u8)
        ensures
            r == from as u8,
    {
        #[verifier::truncate] (from as u8)
    }
}

impl CastLossless<i32> for u8 {
    proof fn lemma_exact_round_trip(from: i32) {
    }
}

impl CastFrom<u64> for u8 {
    open spec fn from_cast_spec(from: u64) -> u8 {
        from as u8
    }

    open spec fn is_exact(from: u64) -> bool {
        from <= 0xff
    }

    fn from_cast(from: u64) -> (r: u8)
        ensures
            r == from as u8,
    {
        #[verifier::truncate] (from as u8)
    }
}

impl CastLossless<u64> for u8 {
    proof fn lemma_exact_round_trip(from: u64) {
    }
}

impl CastFrom<i64> for u8 {
    open spec fn from_cast_spec(from: i64) -> u8 {
        from as u8
    }

    open spec fn is_exact(from: i64) -> bool {
        from >= 0 && from <= 0xff
    }

    fn from_cast(from: i64) -> (r: u8)
        ensures
            r == from as u8,
    {
        #[verifier::truncate] (from as u8)
    }
}

impl CastLossless<i64> for u8 {
    proof fn lemma_exact_round_trip(from: i64) {
    }
}

impl CastFrom<u128> for u8 {
    open spec fn from_cast_spec(from: u128) -> u8 {
        from as u8
    }

    open spec fn is_exact(from: u128) -> bool {
        from <= 0xff
    }

    fn from_cast(from: u128) -> (r: u8)
        ensures
            r == from as u8,
    {
        #[verifier::truncate] (from as u8)
    }
}

impl CastLossless<u128> for u8 {
    proof fn lemma_exact_round_trip(from: u128) {
    }
}

impl CastFrom<i128> for u8 {
    open spec fn from_cast_spec(from: i128) -> u8 {
        from as u8
    }

    open spec fn is_exact(from: i128) -> bool {
        from >= 0 && from <= 0xff
    }

    fn from_cast(from: i128) -> (r: u8)
        ensures
            r == from as u8,
    {
        #[verifier::truncate] (from as u8)
    }
}

impl CastLossless<i128> for u8 {
    proof fn lemma_exact_round_trip(from: i128) {
    }
}

impl CastFrom<usize> for u8 {
    open spec fn from_cast_spec(from: usize) -> u8 {
        from as u8
    }

    open spec fn is_exact(from: usize) -> bool {
        from <= 0xff
    }

    fn from_cast(from: usize) -> (r: u8)
        ensures
            r == from as u8,
    {
        #[verifier::truncate] (from as u8)
    }
}

impl CastLossless<usize> for u8 {
    proof fn lemma_exact_round_trip(from: usize) {
    }
}

impl CastFrom<isize> for u8 {
    open spec fn from_cast_spec(from: isize) -> u8 {
        from as u8
    }

    open spec fn is_exact(from: isize) -> bool {
        from >= 0 && from <= 0xff
    }

    fn from_cast(from: isize) -> (r: u8)
        ensures
            r == from as u8,
    {
        #[verifier::truncate] (from as u8)
    }
}

impl CastLossless<isize> for u8 {
    proof fn lemma_exact_round_trip(from: isize) {
    }
}

impl CastFrom<u8> for i8 {
    open spec fn from_cast_spec(from: u8) -> i8 {
        from as i8
    }

    open spec fn is_exact(from: u8) -> bool {
        from <= 0x7f
    }

    fn from_cast(from: u8) -> (r: i8)
        ensures
            r == from as i8,
    {
        #[verifier::truncate] (from as i8)
    }
}

impl CastLossless<u8> for i8 {
    proof fn lemma_exact_round_trip(from: u8) {
    }
}

impl CastFrom<u16> for i8 {
    open spec fn from_cast_spec(from: u16) -> i8 {
        from as i8
    }

    open spec fn is_exact(from: u16) -> bool {
        from <= 0x7f
    }

    fn from_cast(from: u16) -> (r: i8)
        ensures
            r == from as i8,
    {
        #[verifier::truncate] (from as i8)
    }
}

impl CastLossless<u16> for i8 {
    proof fn lemma_exact_round_trip(from: u16) {
    }
}

impl CastFrom<i16> for i8 {
    open spec fn from_cast_spec(from: i16) -> i8 {
        from as i8
    }

    open spec fn is_exact(from: i16) -> bool {
        -0x80 <= from && from <= 0x7f
    }

    fn from_cast(from: i16) -> (r: i8)
        ensures
            r == from as i8,
    {
        #[verifier::truncate] (from as i8)
    }
}

impl CastLossless<i16> for i8 {
    proof fn lemma_exact_round_trip(from: i16) {
    }
}

impl CastFrom<u32> for i8 {
    open spec fn from_cast_spec(from: u32) -> i8 {
        from as i8
    }

    open spec fn is_exact(from: u32) -> bool {
        from <= 0x7f
    }

    fn from_cast(from: u32) -> (r: i8)
        ensures
            r == from as i8,
    {
        #[verifier::truncate] (from as i8)
    }
}

impl CastLossless<u32> for i8 {
    proof fn lemma_exact_round_trip(from: u32) {
    }
}

impl CastFrom<i32> for i8 {
    open spec fn from_cast_spec(from: i32) -> i8 {
        from as i8
    }

    open spec fn is_exact(from: i32) -> bool {
        -0x80 <= from && from <= 0x7f
    }

    fn from_cast(from: i32) -> (r: i8)
        ensures
            r == from as i8,
    {
        #[verifier::truncate] (from as i8)
    }
}

impl CastLossless<i32> for i8 {
    proof fn lemma_exact_round_trip(from: i32) {
    }
}

impl CastFrom<u64> for i8 {
    open spec fn from_cast_spec(from: u64) -> i8 {
        from as i8
    }

    open spec fn is_exact(from: u64) -> bool {
        from <= 0x7f
    }

    fn from_cast(from: u64) -> (r: i8)
        ensures
            r == from as i8,
    {
        #[verifier::truncate] (from as i8)
    }
}

impl CastLossless<u64> for i8 {
    proof fn lemma_exact_round_trip(from: u64) {
    }
}

impl CastFrom<i64> for i8 {
    open spec fn from_cast_spec(from: i64) -> i8 {
        from as i8
    }

    open spec fn is_exact(from: i64) -> bool {
        -0x80 <= from && from <= 0x7f
    }

    fn from_cast(from: i64) -> (r: i8)
        ensures
            r == from as i8,
    {
        #[verifier::truncate] (from as i8)
    }
}

impl CastLossless<i64> for i8 {
    proof fn lemma_exact_round_trip(from: i64) {
    }
}

impl CastFrom<u128> for i8 {
    open spec fn from_cast_spec(from: u128) -> i8 {
        from as i8
    }

    open spec fn is_exact(from: u128) -> bool {
        from <= 0x7f
    }

    fn from_cast(from: u128) -> (r: i8)
        ensures
            r == from as i8,
    {
        #[verifier::truncate] (from as i8)
    }
}

impl CastLossless<u128> for i8 {
    proof fn lemma_exact_round_trip(from: u128) {
    }
}

impl CastFrom<i128> for i8 {
    open spec fn from_cast_spec(from: i128) -> i8 {
        from as i8
    }

    open spec fn is_exact(from: i128) -> bool {
        -0x80 <= from && from <= 0x7f
    }

    fn from_cast(from: i128) -> (r: i8)
        ensures
            r == from as i8,
    {
        #[verifier::truncate] (from as i8)
    }
}

impl CastLossless<i128> for i8 {
    proof fn lemma_exact_round_trip(from: i128) {
    }
}

impl CastFrom<usize> for i8 {
    open spec fn from_cast_spec(from: usize) -> i8 {
        from as i8
    }

    open spec fn is_exact(from: usize) -> bool {
        from <= 0x7f
    }

    fn from_cast(from: usize) -> (r: i8)
        ensures
            r == from as i8,
    {
        #[verifier::truncate] (from as i8)
    }
}

impl CastLossless<usize> for i8 {
    proof fn lemma_exact_round_trip(from: usize) {
    }
}

impl CastFrom<isize> for i8 {
    open spec fn from_cast_spec(from: isize) -> i8 {
        from as i8
    }

    open spec fn is_exact(from: isize) -> bool {
        -0x80 <= from && from <= 0x7f
    }

    fn from_cast(from: isize) -> (r: i8)
        ensures
            r == from as i8,
    {
        #[verifier::truncate] (from as i8)
    }
}

impl CastLossless<isize> for i8 {
    proof fn lemma_exact_round_trip(from: isize) {
    }
}

impl CastFrom<u8> for u16 {
    open spec fn from_cast_spec(from: u8) -> u16 {
        from as u16
    }

    open spec fn is_exact(from: u8) -> bool {
        true
    }

    fn from_cast(from: u8) -> (r: u16)
        ensures
            r == from as u16,
    {
        from as u16
    }
}

impl CastLossless<u8> for u16 {
    proof fn lemma_exact_round_trip(from: u8) {
    }
}

impl CastFrom<i8> for u16 {
    open spec fn from_cast_spec(from: i8) -> u16 {
        from as u16
    }

    open spec fn is_exact(from: i8) -> bool {
        from >= 0
    }

    fn from_cast(from: i8) -> (r: u16)
        ensures
            r == from as u16,
    {
        #[verifier::truncate] (from as u16)
    }
}

impl CastLossless<i8> for u16 {
    proof fn lemma_exact_round_trip(from: i8) {
    }
}

impl CastFrom<i16> for u16 {
    open spec fn from_cast_spec(from: i16) -> u16 {
        from as u16
    }

    open spec fn is_exact(from: i16) -> bool {
        from >= 0
    }

    fn from_cast(from: i16) -> (r: u16)
        ensures
            r == from as u16,
    {
        #[verifier::truncate] (from as u16)
    }
}

impl CastLossless<i16> for u16 {
    proof fn lemma_exact_round_trip(from: i16) {
    }
}

impl CastFrom<u32> for u16 {
    open spec fn from_cast_spec(from: u32) -> u16 {
        from as u16
    }

    open spec fn is_exact(from: u32) -> bool {
        from <= 0xffff
    }

    fn from_cast(from: u32) -> (r: u16)
        ensures
            r == from as u16,
    {
        #[verifier::truncate] (from as u16)
    }
}

impl CastLossless<u32> for u16 {
    proof fn lemma_exact_round_trip(from: u32) {
    }
}

impl CastFrom<i32> for u16 {
    open spec fn from_cast_spec(from: i32) -> u16 {
        from as u16
    }

    open spec fn is_exact(from: i32) -> bool {
        from >= 0 && from <= 0xffff
    }

    fn from_cast(from: i32) -> (r: u16)
        ensures
            r == from as u16,
    {
        #[verifier::truncate] (from as u16)
    }
}

impl CastLossless<i32> for u16 {
    proof fn lemma_exact_round_trip(from: i32) {
    }
}

impl CastFrom<u64> for u16 {
    open spec fn from_cast_spec(from: u64) -> u16 {
        from as u16
    }

    open spec fn is_exact(from: u64) -> bool {
        from <= 0xffff
    }

    fn from_cast(from: u64) -> (r: u16)
        ensures
            r == from as u16,
    {
        #[verifier::truncate] (from as u16)
    }
}

impl CastLossless<u64> for u16 {
    proof fn lemma_exact_round_trip(from: u64) {
    }
}

impl CastFrom<i64> for u16 {
    open spec fn from_cast_spec(from: i64) -> u16 {
        from as u16
    }

    open spec fn is_exact(from: i64) -> bool {
        from >= 0 && from <= 0xffff
    }

    fn from_cast(from: i64) -> (r: u16)
        ensures
            r == from as u16,
    {
        #[verifier::truncate] (from as u16)
    }
}

impl CastLossless<i64> for u16 {
    proof fn lemma_exact_round_trip(from: i64) {
    }
}

impl CastFrom<u128> for u16 {
    open spec fn from_cast_spec(from: u128) -> u16 {
        from as u16
    }

    open spec fn is_exact(from: u128) -> bool {
        from <= 0xffff
    }

    fn from_cast(from: u128) -> (r: u16)
        ensures
            r == from as u16,
    {
        #[verifier::truncate] (from as u16)
    }
}

impl CastLossless<u128> for u16 {
    proof fn lemma_exact_round_trip(from: u128) {
    }
}

impl CastFrom<i128> for u16 {
    open spec fn from_cast_spec(from: i128) -> u16 {
        from as u16
    }

    open spec fn is_exact(from: i128) -> bool {
        from >= 0 && from <= 0xffff
    }

    fn from_cast(from: i128) -> (r: u16)
        ensures
            r == from as u16,
    {
        #[verifier::truncate] (from as u16)
    }
}

impl CastLossless<i128> for u16 {
    proof fn lemma_exact_round_trip(from: i128) {
    }
}

impl CastFrom<usize> for u16 {
    open spec fn from_cast_spec(from: usize) -> u16 {
        from as u16
    }

    open spec fn is_exact(from: usize) -> bool {
        from <= 0xffff
    }

    fn from_cast(from: usize) -> (r: u16)
        ensures
            r == from as u16,
    {
        #[verifier::truncate] (from as u16)
    }
}

impl CastLossless<usize> for u16 {
    proof fn lemma_exact_round_trip(from: usize) {
    }
}

impl CastFrom<isize> for u16 {
    open spec fn from_cast_spec(from: isize) -> u16 {
        from as u16
    }

    open spec fn is_exact(from: isize) -> bool {
        from >= 0 && from <= 0xffff
    }

    fn from_cast(from: isize) -> (r: u16)
        ensures
            r == from as u16,
    {
        #[verifier::truncate] (from as u16)
    }
}

impl CastLossless<isize> for u16 {
    proof fn lemma_exact_round_trip(from: isize) {
    }
}

impl CastFrom<u8> for i16 {
    open spec fn from_cast_spec(from: u8) -> i16 {
        from as i16
    }

    open spec fn is_exact(from: u8) -> bool {
        true
    }

    fn from_cast(from: u8) -> (r: i16)
        ensures
            r == from as i16,
    {
        from as i16
    }
}

impl CastLossless<u8> for i16 {
    proof fn lemma_exact_round_trip(from: u8) {
    }
}

impl CastFrom<i8> for i16 {
    open spec fn from_cast_spec(from: i8) -> i16 {
        from as i16
    }

    open spec fn is_exact(from: i8) -> bool {
        true
    }

    fn from_cast(from: i8) -> (r: i16)
        ensures
            r == from as i16,
    {
        from as i16
    }
}

impl CastLossless<i8> for i16 {
    proof fn lemma_exact_round_trip(from: i8) {
    }
}

impl CastFrom<u16> for i16 {
    open spec fn from_cast_spec(from: u16) -> i16 {
        from as i16
    }

    open spec fn is_exact(from: u16) -> bool {
        from <= 0x7fff
    }

    fn from_cast(from: u16) -> (r: i16)
        ensures
            r == from as i16,
    {
        #[verifier::truncate] (from as i16)
    }
}

impl CastLossless<u16> for i16 {
    proof fn lemma_exact_round_trip(from: u16) {
    }
}

impl CastFrom<u32> for i16 {
    open spec fn from_cast_spec(from: u32) -> i16 {
        from as i16
    }

    open spec fn is_exact(from: u32) -> bool {
        from <= 0x7fff
    }

    fn from_cast(from: u32) -> (r: i16)
        ensures
            r == from as i16,
    {
        #[verifier::truncate] (from as i16)
    }
}

impl CastLossless<u32> for i16 {
    proof fn lemma_exact_round_trip(from: u32) {
    }
}

impl CastFrom<i32> for i16 {
    open spec fn from_cast_spec(from: i32) -> i16 {
        from as i16
    }

    open spec fn is_exact(from: i32) -> bool {
        -0x8000 <= from && from <= 0x7fff
    }

    fn from_cast(from: i32) -> (r: i16)
        ensures
            r == from as i16,
    {
        #[verifier::truncate] (from as i16)
    }
}

impl CastLossless<i32> for i16 {
    proof fn lemma_exact_round_trip(from: i32) {
    }
}

impl CastFrom<u64> for i16 {
    open spec fn from_cast_spec(from: u64) -> i16 {
        from as i16
    }

    open spec fn is_exact(from: u64) -> bool {
        from <= 0x7fff
    }

    fn from_cast(from: u64) -> (r: i16)
        ensures
            r == from as i16,
    {
        #[verifier::truncate] (from as i16)
    }
}

impl CastLossless<u64> for i16 {
    proof fn lemma_exact_round_trip(from: u64) {
    }
}

impl CastFrom<i64> for i16 {
    open spec fn from_cast_spec(from: i64) -> i16 {
        from as i16
    }

    open spec fn is_exact(from: i64) -> bool {
        -0x8000 <= from && from <= 0x7fff
    }

    fn from_cast(from: i64) -> (r: i16)
        ensures
            r == from as i16,
    {
        #[verifier::truncate] (from as i16)
    }
}

impl CastLossless<i64> for i16 {
    proof fn lemma_exact_round_trip(from: i64) {
    }
}

impl CastFrom<u128> for i16 {
    open spec fn from_cast_spec(from: u128) -> i16 {
        from as i16
    }

    open spec fn is_exact(from: u128) -> bool {
        from <= 0x7fff
    }

    fn from_cast(from: u128) -> (r: i16)
        ensures
            r == from as i16,
    {
        #[verifier::truncate] (from as i16)
    }
}

impl CastLossless<u128> for i16 {
    proof fn lemma_exact_round_trip(from: u128) {
    }
}

impl CastFrom<i128> for i16 {
    open spec fn from_cast_spec(from: i128) -> i16 {
        from as i16
    }

    open spec fn is_exact(from: i128) -> bool {
        -0x8000 <= from && from <= 0x7fff
    }

    fn from_cast(from: i128) -> (r: i16)
        ensures
            r == from as i16,
    {
        #[verifier::truncate] (from as i16)
    }
}

impl CastLossless<i128> for i16 {
    proof fn lemma_exact_round_trip(from: i128) {
    }
}

impl CastFrom<usize> for i16 {
    open spec fn from_cast_spec(from: usize) -> i16 {
        from as i16
    }

    open spec fn is_exact(from: usize) -> bool {
        from <= 0x7fff
    }

    fn from_cast(from: usize) -> (r: i16)
        ensures
            r == from as i16,
    {
        #[verifier::truncate] (from as i16)
    }
}

impl CastLossless<usize> for i16 {
    proof fn lemma_exact_round_trip(from: usize) {
    }
}

impl CastFrom<isize> for i16 {
    open spec fn from_cast_spec(from: isize) -> i16 {
        from as i16
    }

    open spec fn is_exact(from: isize) -> bool {
        -0x8000 <= from && from <= 0x7fff
    }

    fn from_cast(from: isize) -> (r: i16)
        ensures
            r == from as i16,
    {
        #[verifier::truncate] (from as i16)
    }
}

impl CastLossless<isize> for i16 {
    proof fn lemma_exact_round_trip(from: isize) {
    }
}

impl CastFrom<u8> for u32 {
    open spec fn from_cast_spec(from: u8) -> u32 {
        from as u32
    }

    open spec fn is_exact(from: u8) -> bool {
        true
    }

    fn from_cast(from: u8) -> (r: u32)
        ensures
            r == from as u32,
    {
        from as u32
    }
}

impl CastLossless<u8> for u32 {
    proof fn lemma_exact_round_trip(from: u8) {
    }
}

impl CastFrom<i8> for u32 {
    open spec fn from_cast_spec(from: i8) -> u32 {
        from as u32
    }

    open spec fn is_exact(from: i8) -> bool {
        from >= 0
    }

    fn from_cast(from: i8) -> (r: u32)
        ensures
            r == from as u32,
    {
        #[verifier::truncate] (from as u32)
    }
}

impl CastLossless<i8> for u32 {
    proof fn lemma_exact_round_trip(from: i8) {
    }
}

impl CastFrom<u16> for u32 {
    open spec fn from_cast_spec(from: u16) -> u32 {
        from as u32
    }

    open spec fn is_exact(from: u16) -> bool {
        true
    }

    fn from_cast(from: u16) -> (r: u32)
        ensures
            r == from as u32,
    {
        from as u32
    }
}

impl CastLossless<u16> for u32 {
    proof fn lemma_exact_round_trip(from: u16) {
    }
}

impl CastFrom<i16> for u32 {
    open spec fn from_cast_spec(from: i16) -> u32 {
        from as u32
    }

    open spec fn is_exact(from: i16) -> bool {
        from >= 0
    }

    fn from_cast(from: i16) -> (r: u32)
        ensures
            r == from as u32,
    {
        #[verifier::truncate] (from as u32)
    }
}

impl CastLossless<i16> for u32 {
    proof fn lemma_exact_round_trip(from: i16) {
    }
}

impl CastFrom<i32> for u32 {
    open spec fn from_cast_spec(from: i32) -> u32 {
        from as u32
    }

    open spec fn is_exact(from: i32) -> bool {
        from >= 0
    }

    fn from_cast(from: i32) -> (r: u32)
        ensures
            r == from as u32,
    {
        #[verifier::truncate] (from as u32)
    }
}

impl CastLossless<i32> for u32 {
    proof fn lemma_exact_round_trip(from: i32) {
    }
}

impl CastFrom<u64> for u32 {
    open spec fn from_cast_spec(from: u64) -> u32 {
        from as u32
    }

    open spec fn is_exact(from: u64) -> bool {
        from <= 0xffff_ffff
    }

    fn from_cast(from: u64) -> (r: u32)
        ensures
            r == from as u32,
    {
        #[verifier::truncate] (from as u32)
    }
}

impl CastLossless<u64> for u32 {
    proof fn lemma_exact_round_trip(from: u64) {
    }
}

impl CastFrom<i64> for u32 {
    open spec fn from_cast_spec(from: i64) -> u32 {
        from as u32
    }

    open spec fn is_exact(from: i64) -> bool {
        from >= 0 && from <= 0xffff_ffff
    }

    fn from_cast(from: i64) -> (r: u32)
        ensures
            r == from as u32,
    {
        #[verifier::truncate] (from as u32)
    }
}

impl CastLossless<i64> for u32 {
    proof fn lemma_exact_round_trip(from: i64) {
    }
}

impl CastFrom<u128> for u32 {
    open spec fn from_cast_spec(from: u128) -> u32 {
        from as u32
    }

    open spec fn is_exact(from: u128) -> bool {
        from <= 0xffff_ffff
    }

    fn from_cast(from: u128) -> (r: u32)
        ensures
            r == from as u32,
    {
        #[verifier::truncate] (from as u32)
    }
}

impl CastLossless<u128> for u32 {
    proof fn lemma_exact_round_trip(from: u128) {
    }
}

impl CastFrom<i128> for u32 {
    open spec fn from_cast_spec(from: i128) -> u32 {
        from as u32
    }

    open spec fn is_exact(from: i128) -> bool {
        from >= 0 && from <= 0xffff_ffff
    }

    fn from_cast(from: i128) -> (r: u32)
        ensures
            r == from as u32,
    {
        #[verifier::truncate] (from as u32)
    }
}

impl CastLossless<i128> for u32 {
    proof fn lemma_exact_round_trip(from: i128) {
    }
}

impl CastFrom<usize> for u32 {
    open spec fn from_cast_spec(from: usize) -> u32 {
        from as u32
    }

    open spec fn is_exact(from: usize) -> bool {
        from <= 0xffff_ffff
    }

    fn from_cast(from: usize) -> (r: u32)
        ensures
            r == from as u32,
    {
        #[verifier::truncate] (from as u32)
    }
}

impl CastLossless<usize> for u32 {
    proof fn lemma_exact_round_trip(from: usize) {
    }
}

impl CastFrom<isize> for u32 {
    open spec fn from_cast_spec(from: isize) -> u32 {
        from as u32
    }

    open spec fn is_exact(from: isize) -> bool {
        from >= 0 && from <= 0xffff_ffff
    }

    fn from_cast(from: isize) -> (r: u32)
        ensures
            r == from as u32,
    {
        #[verifier::truncate] (from as u32)
    }
}

impl CastLossless<isize> for u32 {
    proof fn lemma_exact_round_trip(from: isize) {
    }
}

impl CastFrom<u8> for i32 {
    open spec fn from_cast_spec(from: u8) -> i32 {
        from as i32
    }

    open spec fn is_exact(from: u8) -> bool {
        true
    }

    fn from_cast(from: u8) -> (r: i32)
        ensures
            r == from as i32,
    {
        from as i32
    }
}

impl CastLossless<u8> for i32 {
    proof fn lemma_exact_round_trip(from: u8) {
    }
}

impl CastFrom<i8> for i32 {
    open spec fn from_cast_spec(from: i8) -> i32 {
        from as i32
    }

    open spec fn is_exact(from: i8) -> bool {
        true
    }

    fn from_cast(from: i8) -> (r: i32)
        ensures
            r == from as i32,
    {
        from as i32
    }
}

impl CastLossless<i8> for i32 {
    proof fn lemma_exact_round_trip(from: i8) {
    }
}

impl CastFrom<u16> for i32 {
    open spec fn from_cast_spec(from: u16) -> i32 {
        from as i32
    }

    open spec fn is_exact(from: u16) -> bool {
        true
    }

    fn from_cast(from: u16) -> (r: i32)
        ensures
            r == from as i32,
    {
        from as i32
    }
}

impl CastLossless<u16> for i32 {
    proof fn lemma_exact_round_trip(from: u16) {
    }
}

impl CastFrom<i16> for i32 {
    open spec fn from_cast_spec(from: i16) -> i32 {
        from as i32
    }

    open spec fn is_exact(from: i16) -> bool {
        true
    }

    fn from_cast(from: i16) -> (r: i32)
        ensures
            r == from as i32,
    {
        from as i32
    }
}

impl CastLossless<i16> for i32 {
    proof fn lemma_exact_round_trip(from: i16) {
    }
}

impl CastFrom<u32> for i32 {
    open spec fn from_cast_spec(from: u32) -> i32 {
        from as i32
    }

    open spec fn is_exact(from: u32) -> bool {
        from <= 0x7fff_ffff
    }

    fn from_cast(from: u32) -> (r: i32)
        ensures
            r == from as i32,
    {
        #[verifier::truncate] (from as i32)
    }
}

impl CastLossless<u32> for i32 {
    proof fn lemma_exact_round_trip(from: u32) {
    }
}

impl CastFrom<u64> for i32 {
    open spec fn from_cast_spec(from: u64) -> i32 {
        from as i32
    }

    open spec fn is_exact(from: u64) -> bool {
        from <= 0x7fff_ffff
    }

    fn from_cast(from: u64) -> (r: i32)
        ensures
            r == from as i32,
    {
        #[verifier::truncate] (from as i32)
    }
}

impl CastLossless<u64> for i32 {
    proof fn lemma_exact_round_trip(from: u64) {
    }
}

impl CastFrom<i64> for i32 {
    open spec fn from_cast_spec(from: i64) -> i32 {
        from as i32
    }

    open spec fn is_exact(from: i64) -> bool {
        -0x8000_0000 <= from && from <= 0x7fff_ffff
    }

    fn from_cast(from: i64) -> (r: i32)
        ensures
            r == from as i32,
    {
        #[verifier::truncate] (from as i32)
    }
}

impl CastLossless<i64> for i32 {
    proof fn lemma_exact_round_trip(from: i64) {
    }
}

impl CastFrom<u128> for i32 {
    open spec fn from_cast_spec(from: u128) -> i32 {
        from as i32
    }

    open spec fn is_exact(from: u128) -> bool {
        from <= 0x7fff_ffff
    }

    fn from_cast(from: u128) -> (r: i32)
        ensures
            r == from as i32,
    {
        #[verifier::truncate] (from as i32)
    }
}

impl CastLossless<u128> for i32 {
    proof fn lemma_exact_round_trip(from: u128) {
    }
}

impl CastFrom<i128> for i32 {
    open spec fn from_cast_spec(from: i128) -> i32 {
        from as i32
    }

    open spec fn is_exact(from: i128) -> bool {
        -0x8000_0000 <= from && from <= 0x7fff_ffff
    }

    fn from_cast(from: i128) -> (r: i32)
        ensures
            r == from as i32,
    {
        #[verifier::truncate] (from as i32)
    }
}

impl CastLossless<i128> for i32 {
    proof fn lemma_exact_round_trip(from: i128) {
    }
}

impl CastFrom<usize> for i32 {
    open spec fn from_cast_spec(from: usize) -> i32 {
        from as i32
    }

    open spec fn is_exact(from: usize) -> bool {
        from <= 0x7fff_ffff
    }

    fn from_cast(from: usize) -> (r: i32)
        ensures
            r == from as i32,
    {
        #[verifier::truncate] (from as i32)
    }
}

impl CastLossless<usize> for i32 {
    proof fn lemma_exact_round_trip(from: usize) {
    }
}

impl CastFrom<isize> for i32 {
    open spec fn from_cast_spec(from: isize) -> i32 {
        from as i32
    }

    open spec fn is_exact(from: isize) -> bool {
        -0x8000_0000 <= from && from <= 0x7fff_ffff
    }

    fn from_cast(from: isize) -> (r: i32)
        ensures
            r == from as i32,
    {
        #[verifier::truncate] (from as i32)
    }
}

impl CastLossless<isize> for i32 {
    proof fn lemma_exact_round_trip(from: isize) {
    }
}

impl CastFrom<u8> for u64 {
    open spec fn from_cast_spec(from: u8) -> u64 {
        from as u64
    }

    open spec fn is_exact(from: u8) -> bool {
        true
    }

    fn from_cast(from: u8) -> (r: u64)
        ensures
            r == from as u64,
    {
        from as u64
    }
}

impl CastLossless<u8> for u64 {
    proof fn lemma_exact_round_trip(from: u8) {
    }
}

impl CastFrom<i8> for u64 {
    open spec fn from_cast_spec(from: i8) -> u64 {
        from as u64
    }

    open spec fn is_exact(from: i8) -> bool {
        from >= 0
    }

    fn from_cast(from: i8) -> (r: u64)
        ensures
            r == from as u64,
    {
        #[verifier::truncate] (from as u64)
    }
}

impl CastLossless<i8> for u64 {
    proof fn lemma_exact_round_trip(from: i8) {
    }
}

impl CastFrom<u16> for u64 {
    open spec fn from_cast_spec(from: u16) -> u64 {
        from as u64
    }

    open spec fn is_exact(from: u16) -> bool {
        true
    }

    fn from_cast(from: u16) -> (r: u64)
        ensures
            r == from as u64,
    {
        from as u64
    }
}

impl CastLossless<u16> for u64 {
    proof fn lemma_exact_round_trip(from: u16) {
    }
}

impl CastFrom<i16> for u64 {
    open spec fn from_cast_spec(from: i16) -> u64 {
        from as u64
    }

    open spec fn is_exact(from: i16) -> bool {
        from >= 0
    }

    fn from_cast(from: i16) -> (r: u64)
        ensures
            r == from as u64,
    {
        #[verifier::truncate] (from as u64)
    }
}

impl CastLossless<i16> for u64 {
    proof fn lemma_exact_round_trip(from: i16) {
    }
}

impl CastFrom<u32> for u64 {
    open spec fn from_cast_spec(from: u32) -> u64 {
        from as u64
    }

    open spec fn is_exact(from: u32) -> bool {
        true
    }

    fn from_cast(from: u32) -> (r: u64)
        ensures
            r == from as u64,
    {
        from as u64
    }
}

impl CastLossless<u32> for u64 {
    proof fn lemma_exact_round_trip(from: u32) {
    }
}

impl CastFrom<i32> for u64 {
    open spec fn from_cast_spec(from: i32) -> u64 {
        from as u64
    }

    open spec fn is_exact(from: i32) -> bool {
        from >= 0
    }

    fn from_cast(from: i32) -> (r: u64)
        ensures
            r == from as u64,
    {
        #[verifier::truncate] (from as u64)
    }
}

impl CastLossless<i32> for u64 {
    proof fn lemma_exact_round_trip(from: i32) {
    }
}

impl CastFrom<i64> for u64 {
    open spec fn from_cast_spec(from: i64) -> u64 {
        from as u64
    }

    open spec fn is_exact(from: i64) -> bool {
        from >= 0
    }

    fn from_cast(from: i64) -> (r: u64)
        ensures
            r == from as u64,
    {
        #[verifier::truncate] (from as u64)
    }
}

impl CastLossless<i64> for u64 {
    proof fn lemma_exact_round_trip(from: i64) {
    }
}

impl CastFrom<u128> for u64 {
    open spec fn from_cast_spec(from: u128) -> u64 {
        from as u64
    }

    open spec fn is_exact(from: u128) -> bool {
        from <= 0xffff_ffff_ffff_ffff
    }

    fn from_cast(from: u128) -> (r: u64)
        ensures
            r == from as u64,
    {
        #[verifier::truncate] (from as u64)
    }
}

impl CastLossless<u128> for u64 {
    proof fn lemma_exact_round_trip(from: u128) {
    }
}

impl CastFrom<i128> for u64 {
    open spec fn from_cast_spec(from: i128) -> u64 {
        from as u64
    }

    open spec fn is_exact(from: i128) -> bool {
        from >= 0 && from <= 0xffff_ffff_ffff_ffff
    }

    fn from_cast(from: i128) -> (r: u64)
        ensures
            r == from as u64,
    {
        #[verifier::truncate] (from as u64)
    }
}

impl CastLossless<i128> for u64 {
    proof fn lemma_exact_round_trip(from: i128) {
    }
}

impl CastFrom<usize> for u64 {
    open spec fn from_cast_spec(from: usize) -> u64 {
        from as u64
    }

    open spec fn is_exact(from: usize) -> bool {
        true
    }

    fn from_cast(from: usize) -> (r: u64)
        ensures
            r == from as u64,
    {
        from as u64
    }
}

impl CastLossless<usize> for u64 {
    proof fn lemma_exact_round_trip(from: usize) {
    }
}

impl CastFrom<isize> for u64 {
    open spec fn from_cast_spec(from: isize) -> u64 {
        from as u64
    }

    open spec fn is_exact(from: isize) -> bool {
        from >= 0
    }

    fn from_cast(from: isize) -> (r: u64)
        ensures
            r == from as u64,
    {
        #[verifier::truncate] (from as u64)
    }
}

impl CastLossless<isize> for u64 {
    proof fn lemma_exact_round_trip(from: isize) {
    }
}

impl CastFrom<u8> for i64 {
    open spec fn from_cast_spec(from: u8) -> i64 {
        from as i64
    }

    open spec fn is_exact(from: u8) -> bool {
        true
    }

    fn from_cast(from: u8) -> (r: i64)
        ensures
            r == from as i64,
    {
        from as i64
    }
}

impl CastLossless<u8> for i64 {
    proof fn lemma_exact_round_trip(from: u8) {
    }
}

impl CastFrom<i8> for i64 {
    open spec fn from_cast_spec(from: i8) -> i64 {
        from as i64
    }

    open spec fn is_exact(from: i8) -> bool {
        true
    }

    fn from_cast(from: i8) -> (r: i64)
        ensures
            r == from as i64,
    {
        from as i64
    }
}

impl CastLossless<i8> for i64 {
    proof fn lemma_exact_round_trip(from: i8) {
    }
}

impl CastFrom<u16> for i64 {
    open spec fn from_cast_spec(from: u16) -> i64 {
        from as i64
    }

    open spec fn is_exact(from: u16) -> bool {
        true
    }

    fn from_cast(from: u16) -> (r: i64)
        ensures
            r == from as i64,
    {
        from as i64
    }
}

impl CastLossless<u16> for i64 {
    proof fn lemma_exact_round_trip(from: u16) {
    }
}

impl CastFrom<i16> for i64 {
    open spec fn from_cast_spec(from: i16) -> i64 {
        from as i64
    }

    open spec fn is_exact(from: i16) -> bool {
        true
    }

    fn from_cast(from: i16) -> (r: i64)
        ensures
            r == from as i64,
    {
        from as i64
    }
}

impl CastLossless<i16> for i64 {
    proof fn lemma_exact_round_trip(from: i16) {
    }
}

impl CastFrom<u32> for i64 {
    open spec fn from_cast_spec(from: u32) -> i64 {
        from as i64
    }

    open spec fn is_exact(from: u32) -> bool {
        true
    }

    fn from_cast(from: u32) -> (r: i64)
        ensures
            r == from as i64,
    {
        from as i64
    }
}

impl CastLossless<u32> for i64 {
    proof fn lemma_exact_round_trip(from: u32) {
    }
}

impl CastFrom<i32> for i64 {
    open spec fn from_cast_spec(from: i32) -> i64 {
        from as i64
    }

    open spec fn is_exact(from: i32) -> bool {
        true
    }

    fn from_cast(from: i32) -> (r: i64)
        ensures
            r == from as i64,
    {
        from as i64
    }
}

impl CastLossless<i32> for i64 {
    proof fn lemma_exact_round_trip(from: i32) {
    }
}

impl CastFrom<u64> for i64 {
    open spec fn from_cast_spec(from: u64) -> i64 {
        from as i64
    }

    open spec fn is_exact(from: u64) -> bool {
        from <= 0x7fff_ffff_ffff_ffff
    }

    fn from_cast(from: u64) -> (r: i64)
        ensures
            r == from as i64,
    {
        #[verifier::truncate] (from as i64)
    }
}

impl CastLossless<u64> for i64 {
    proof fn lemma_exact_round_trip(from: u64) {
    }
}

impl CastFrom<u128> for i64 {
    open spec fn from_cast_spec(from: u128) -> i64 {
        from as i64
    }

    open spec fn is_exact(from: u128) -> bool {
        from <= 0x7fff_ffff_ffff_ffff
    }

    fn from_cast(from: u128) -> (r: i64)
        ensures
            r == from as i64,
    {
        #[verifier::truncate] (from as i64)
    }
}

impl CastLossless<u128> for i64 {
    proof fn lemma_exact_round_trip(from: u128) {
    }
}

impl CastFrom<i128> for i64 {
    open spec fn from_cast_spec(from: i128) -> i64 {
        from as i64
    }

    open spec fn is_exact(from: i128) -> bool {
        -0x8000_0000_0000_0000 <= from && from <= 0x7fff_ffff_ffff_ffff
    }

    fn from_cast(from: i128) -> (r: i64)
        ensures
            r == from as i64,
    {
        #[verifier::truncate] (from as i64)
    }
}

impl CastLossless<i128> for i64 {
    proof fn lemma_exact_round_trip(from: i128) {
    }
}

impl CastFrom<usize> for i64 {
    open spec fn from_cast_spec(from: usize) -> i64 {
        from as i64
    }

    open spec fn is_exact(from: usize) -> bool {
        from <= 0x7fff_ffff_ffff_ffff
    }

    fn from_cast(from: usize) -> (r: i64)
        ensures
            r == from as i64,
    {
        #[verifier::truncate] (from as i64)
    }
}

impl CastLossless<usize> for i64 {
    proof fn lemma_exact_round_trip(from: usize) {
    }
}

impl CastFrom<isize> for i64 {
    open spec fn from_cast_spec(from: isize) -> i64 {
        from as i64
    }

    open spec fn is_exact(from: isize) -> bool {
        true
    }

    fn from_cast(from: isize) -> (r: i64)
        ensures
            r == from as i64,
    {
        from as i64
    }
}

impl CastLossless<isize> for i64 {
    proof fn lemma_exact_round_trip(from: isize) {
    }
}

impl CastFrom<u8> for u128 {
    open spec fn from_cast_spec(from: u8) -> u128 {
        from as u128
    }

    open spec fn is_exact(from: u8) -> bool {
        true
    }

    fn from_cast(from: u8) -> (r: u128)
        ensures
            r == from as u128,
    {
        from as u128
    }
}

impl CastLossless<u8> for u128 {
    proof fn lemma_exact_round_trip(from: u8) {
    }
}

impl CastFrom<i8> for u128 {
    open spec fn from_cast_spec(from: i8) -> u128 {
        from as u128
    }

    open spec fn is_exact(from: i8) -> bool {
        from >= 0
    }

    fn from_cast(from: i8) -> (r: u128)
        ensures
            r == from as u128,
    {
        #[verifier::truncate] (from as u128)
    }
}

impl CastLossless<i8> for u128 {
    proof fn lemma_exact_round_trip(from: i8) {
    }
}

impl CastFrom<u16> for u128 {
    open spec fn from_cast_spec(from: u16) -> u128 {
        from as u128
    }

    open spec fn is_exact(from: u16) -> bool {
        true
    }

    fn from_cast(from: u16) -> (r: u128)
        ensures
            r == from as u128,
    {
        from as u128
    }
}

impl CastLossless<u16> for u128 {
    proof fn lemma_exact_round_trip(from: u16) {
    }
}

impl CastFrom<i16> for u128 {
    open spec fn from_cast_spec(from: i16) -> u128 {
        from as u128
    }

    open spec fn is_exact(from: i16) -> bool {
        from >= 0
    }

    fn from_cast(from: i16) -> (r: u128)
        ensures
            r == from as u128,
    {
        #[verifier::truncate] (from as u128)
    }
}

impl CastLossless<i16> for u128 {
    proof fn lemma_exact_round_trip(from: i16) {
    }
}

impl CastFrom<u32> for u128 {
    open spec fn from_cast_spec(from: u32) -> u128 {
        from as u128
    }

    open spec fn is_exact(from: u32) -> bool {
        true
    }

    fn from_cast(from: u32) -> (r: u128)
        ensures
            r == from as u128,
    {
        from as u128
    }
}

impl CastLossless<u32> for u128 {
    proof fn lemma_exact_round_trip(from: u32) {
    }
}

impl CastFrom<i32> for u128 {
    open spec fn from_cast_spec(from: i32) -> u128 {
        from as u128
    }

    open spec fn is_exact(from: i32) -> bool {
        from >= 0
    }

    fn from_cast(from: i32) -> (r: u128)
        ensures
            r == from as u128,
    {
        #[verifier::truncate] (from as u128)
    }
}

impl CastLossless<i32> for u128 {
    proof fn lemma_exact_round_trip(from: i32) {
    }
}

impl CastFrom<u64> for u128 {
    open spec fn from_cast_spec(from: u64) -> u128 {
        from as u128
    }

    open spec fn is_exact(from: u64) -> bool {
        true
    }

    fn from_cast(from: u64) -> (r: u128)
        ensures
            r == from as u128,
    {
        from as u128
    }
}

impl CastLossless<u64> for u128 {
    proof fn lemma_exact_round_trip(from: u64) {
    }
}

impl CastFrom<i64> for u128 {
    open spec fn from_cast_spec(from: i64) -> u128 {
        from as u128
    }

    open spec fn is_exact(from: i64) -> bool {
        from >= 0
    }

    fn from_cast(from: i64) -> (r: u128)
        ensures
            r == from as u128,
    {
        #[verifier::truncate] (from as u128)
    }
}

impl CastLossless<i64> for u128 {
    proof fn lemma_exact_round_trip(from: i64) {
    }
}

impl CastFrom<i128> for u128 {
    open spec fn from_cast_spec(from: i128) -> u128 {
        from as u128
    }

    open spec fn is_exact(from: i128) -> bool {
        from >= 0
    }

    fn from_cast(from: i128) -> (r: u128)
        ensures
            r == from as u128,
    {
        #[verifier::truncate] (from as u128)
    }
}

impl CastLossless<i128> for u128 {
    proof fn lemma_exact_round_trip(from: i128) {
    }
}

impl CastFrom<usize> for u128 {
    open spec fn from_cast_spec(from: usize) -> u128 {
        from as u128
    }

    open spec fn is_exact(from: usize) -> bool {
        true
    }

    fn from_cast(from: usize) -> (r: u128)
        ensures
            r == from as u128,
    {
        from as u128
    }
}

impl CastLossless<usize> for u128 {
    proof fn lemma_exact_round_trip(from: usize) {
    }
}

impl CastFrom<isize> for u128 {
    open spec fn from_cast_spec(from: isize) -> u128 {
        from as u128
    }

    open spec fn is_exact(from: isize) -> bool {
        from >= 0
    }

    fn from_cast(from: isize) -> (r: u128)
        ensures
            r == from as u128,
    {
        #[verifier::truncate] (from as u128)
    }
}

impl CastLossless<isize> for u128 {
    proof fn lemma_exact_round_trip(from: isize) {
    }
}

impl CastFrom<u8> for i128 {
    open spec fn from_cast_spec(from: u8) -> i128 {
        from as i128
    }

    open spec fn is_exact(from: u8) -> bool {
        true
    }

    fn from_cast(from: u8) -> (r: i128)
        ensures
            r == from as i128,
    {
        from as i128
    }
}

impl CastLossless<u8> for i128 {
    proof fn lemma_exact_round_trip(from: u8) {
    }
}

impl CastFrom<i8> for i128 {
    open spec fn from_cast_spec(from: i8) -> i128 {
        from as i128
    }

    open spec fn is_exact(from: i8) -> bool {
        true
    }

    fn from_cast(from: i8) -> (r: i128)
        ensures
            r == from as i128,
    {
        from as i128
    }
}

impl CastLossless<i8> for i128 {
    proof fn lemma_exact_round_trip(from: i8) {
    }
}

impl CastFrom<u16> for i128 {
    open spec fn from_cast_spec(from: u16) -> i128 {
        from as i128
    }

    open spec fn is_exact(from: u16) -> bool {
        true
    }

    fn from_cast(from: u16) -> (r: i128)
        ensures
            r == from as i128,
    {
        from as i128
    }
}

impl CastLossless<u16> for i128 {
    proof fn lemma_exact_round_trip(from: u16) {
    }
}

impl CastFrom<i16> for i128 {
    open spec fn from_cast_spec(from: i16) -> i128 {
        from as i128
    }

    open spec fn is_exact(from: i16) -> bool {
        true
    }

    fn from_cast(from: i16) -> (r: i128)
        ensures
            r == from as i128,
    {
        from as i128
    }
}

impl CastLossless<i16> for i128 {
    proof fn lemma_exact_round_trip(from: i16) {
    }
}

impl CastFrom<u32> for i128 {
    open spec fn from_cast_spec(from: u32) -> i128 {
        from as i128
    }

    open spec fn is_exact(from: u32) -> bool {
        true
    }

    fn from_cast(from: u32) -> (r: i128)
        ensures
            r == from as i128,
    {
        from as i128
    }
}

impl CastLossless<u32> for i128 {
    proof fn lemma_exact_round_trip(from: u32) {
    }
}

impl CastFrom<i32> for i128 {
    open spec fn from_cast_spec(from: i32) -> i128 {
        from as i128
    }

    open spec fn is_exact(from: i32) -> bool {
        true
    }

    fn from_cast(from: i32) -> (r: i128)
        ensures
            r == from as i128,
    {
        from as i128
    }
}

impl CastLossless<i32> for i128 {
    proof fn lemma_exact_round_trip(from: i32) {
    }
}

impl CastFrom<u64> for i128 {
    open spec fn from_cast_spec(from: u64) -> i128 {
        from as i128
    }

    open spec fn is_exact(from: u64) -> bool {
        true
    }

    fn from_cast(from: u64) -> (r: i128)
        ensures
            r == from as i128,
    {
        from as i128
    }
}

impl CastLossless<u64> for i128 {
    proof fn lemma_exact_round_trip(from: u64) {
    }
}

impl CastFrom<i64> for i128 {
    open spec fn from_cast_spec(from: i64) -> i128 {
        from as i128
    }

    open spec fn is_exact(from: i64) -> bool {
        true
    }

    fn from_cast(from: i64) -> (r: i128)
        ensures
            r == from as i128,
    {
        from as i128
    }
}

impl CastLossless<i64> for i128 {
    proof fn lemma_exact_round_trip(from: i64) {
    }
}

impl CastFrom<u128> for i128 {
    open spec fn from_cast_spec(from: u128) -> i128 {
        from as i128
    }

    open spec fn is_exact(from: u128) -> bool {
        from <= 0x7fff_ffff_ffff_ffff_ffff_ffff_ffff_ffff
    }

    fn from_cast(from: u128) -> (r: i128)
        ensures
            r == from as i128,
    {
        #[verifier::truncate] (from as i128)
    }
}

impl CastLossless<u128> for i128 {
    proof fn lemma_exact_round_trip(from: u128) {
    }
}

impl CastFrom<usize> for i128 {
    open spec fn from_cast_spec(from: usize) -> i128 {
        from as i128
    }

    open spec fn is_exact(from: usize) -> bool {
        true
    }

    fn from_cast(from: usize) -> (r: i128)
        ensures
            r == from as i128,
    {
        from as i128
    }
}

impl CastLossless<usize> for i128 {
    proof fn lemma_exact_round_trip(from: usize) {
    }
}

impl CastFrom<isize> for i128 {
    open spec fn from_cast_spec(from: isize) -> i128 {
        from as i128
    }

    open spec fn is_exact(from: isize) -> bool {
        true
    }

    fn from_cast(from: isize) -> (r: i128)
        ensures
            r == from as i128,
    {
        from as i128
    }
}

impl CastLossless<isize> for i128 {
    proof fn lemma_exact_round_trip(from: isize) {
    }
}

impl CastFrom<u8> for usize {
    open spec fn from_cast_spec(from: u8) -> usize {
        from as usize
    }

    open spec fn is_exact(from: u8) -> bool {
        true
    }

    fn from_cast(from: u8) -> (r: usize)
        ensures
            r == from as usize,
    {
        from as usize
    }
}

impl CastLossless<u8> for usize {
    proof fn lemma_exact_round_trip(from: u8) {
    }
}

impl CastFrom<i8> for usize {
    open spec fn from_cast_spec(from: i8) -> usize {
        from as usize
    }

    open spec fn is_exact(from: i8) -> bool {
        from >= 0
    }

    fn from_cast(from: i8) -> (r: usize)
        ensures
            r == from as usize,
    {
        #[verifier::truncate] (from as usize)
    }
}

impl CastLossless<i8> for usize {
    proof fn lemma_exact_round_trip(from: i8) {
    }
}

impl CastFrom<u16> for usize {
    open spec fn from_cast_spec(from: u16) -> usize {
        from as usize
    }

    open spec fn is_exact(from: u16) -> bool {
        true
    }

    fn from_cast(from: u16) -> (r: usize)
        ensures
            r == from as usize,
    {
        from as usize
    }
}

impl CastLossless<u16> for usize {
    proof fn lemma_exact_round_trip(from: u16) {
    }
}

impl CastFrom<i16> for usize {
    open spec fn from_cast_spec(from: i16) -> usize {
        from as usize
    }

    open spec fn is_exact(from: i16) -> bool {
        from >= 0
    }

    fn from_cast(from: i16) -> (r: usize)
        ensures
            r == from as usize,
    {
        #[verifier::truncate] (from as usize)
    }
}

impl CastLossless<i16> for usize {
    proof fn lemma_exact_round_trip(from: i16) {
    }
}

impl CastFrom<u32> for usize {
    open spec fn from_cast_spec(from: u32) -> usize {
        from as usize
    }

    open spec fn is_exact(from: u32) -> bool {
        true
    }

    fn from_cast(from: u32) -> (r: usize)
        ensures
            r == from as usize,
    {
        from as usize
    }
}

impl CastLossless<u32> for usize {
    proof fn lemma_exact_round_trip(from: u32) {
    }
}

impl CastFrom<i32> for usize {
    open spec fn from_cast_spec(from: i32) -> usize {
        from as usize
    }

    open spec fn is_exact(from: i32) -> bool {
        from >= 0
    }

    fn from_cast(from: i32) -> (r: usize)
        ensures
            r == from as usize,
    {
        #[verifier::truncate] (from as usize)
    }
}

impl CastLossless<i32> for usize {
    proof fn lemma_exact_round_trip(from: i32) {
    }
}

impl CastFrom<u64> for usize {
    open spec fn from_cast_spec(from: u64) -> usize {
        from as usize
    }

    open spec fn is_exact(from: u64) -> bool {
        from <= usize::MAX
    }

    fn from_cast(from: u64) -> (r: usize)
        ensures
            r == from as usize,
    {
        #[verifier::truncate] (from as usize)
    }
}

impl CastLossless<u64> for usize {
    proof fn lemma_exact_round_trip(from: u64) {
    }
}

impl CastFrom<i64> for usize {
    open spec fn from_cast_spec(from: i64) -> usize {
        from as usize
    }

    open spec fn is_exact(from: i64) -> bool {
        from >= 0 && from <= usize::MAX
    }

    fn from_cast(from: i64) -> (r: usize)
        ensures
            r == from as usize,
    {
        #[verifier::truncate] (from as usize)
    }
}

impl CastLossless<i64> for usize {
    proof fn lemma_exact_round_trip(from: i64) {
    }
}

impl CastFrom<u128> for usize {
    open spec fn from_cast_spec(from: u128) -> usize {
        from as usize
    }

    open spec fn is_exact(from: u128) -> bool {
        from <= usize::MAX
    }

    fn from_cast(from: u128) -> (r: usize)
        ensures
            r == from as usize,
    {
        #[verifier::truncate] (from as usize)
    }
}

impl CastLossless<u128> for usize {
    proof fn lemma_exact_round_trip(from: u128) {
    }
}

impl CastFrom<i128> for usize {
    open spec fn from_cast_spec(from: i128) -> usize {
        from as usize
    }

    open spec fn is_exact(from: i128) -> bool {
        from >= 0 && from <= usize::MAX
    }

    fn from_cast(from: i128) -> (r: usize)
        ensures
            r == from as usize,
    {
        #[verifier::truncate] (from as usize)
    }
}

impl CastLossless<i128> for usize {
    proof fn lemma_exact_round_trip(from: i128) {
    }
}

impl CastFrom<isize> for usize {
    open spec fn from_cast_spec(from: isize) -> usize {
        from as usize
    }

    open spec fn is_exact(from: isize) -> bool {
        from >= 0
    }

    fn from_cast(from: isize) -> (r: usize)
        ensures
            r == from as usize,
    {
        #[verifier::truncate] (from as usize)
    }
}

impl CastLossless<isize> for usize {
    proof fn lemma_exact_round_trip(from: isize) {
    }
}

impl CastFrom<u8> for isize {
    open spec fn from_cast_spec(from: u8) -> isize {
        from as isize
    }

    open spec fn is_exact(from: u8) -> bool {
        true
    }

    fn from_cast(from: u8) -> (r: isize)
        ensures
            r == from as isize,
    {
        from as isize
    }
}

impl CastLossless<u8> for isize {
    proof fn lemma_exact_round_trip(from: u8) {
    }
}

impl CastFrom<i8> for isize {
    open spec fn from_cast_spec(from: i8) -> isize {
        from as isize
    }

    open spec fn is_exact(from: i8) -> bool {
        true
    }

    fn from_cast(from: i8) -> (r: isize)
        ensures
            r == from as isize,
    {
        from as isize
    }
}

impl CastLossless<i8> for isize {
    proof fn lemma_exact_round_trip(from: i8) {
    }
}

impl CastFrom<u16> for isize {
    open spec fn from_cast_spec(from: u16) -> isize {
        from as isize
    }

    open spec fn is_exact(from: u16) -> bool {
        true
    }

    fn from_cast(from: u16) -> (r: isize)
        ensures
            r == from as isize,
    {
        from as isize
    }
}

impl CastLossless<u16> for isize {
    proof fn lemma_exact_round_trip(from: u16) {
    }
}

impl CastFrom<i16> for isize {
    open spec fn from_cast_spec(from: i16) -> isize {
        from as isize
    }

    open spec fn is_exact(from: i16) -> bool {
        true
    }

    fn from_cast(from: i16) -> (r: isize)
        ensures
            r == from as isize,
    {
        from as isize
    }
}

impl CastLossless<i16> for isize {
    proof fn lemma_exact_round_trip(from: i16) {
    }
}

impl CastFrom<u32> for isize {
    open spec fn from_cast_spec(from: u32) -> isize {
        from as isize
    }

    open spec fn is_exact(from: u32) -> bool {
        from <= isize::MAX
    }

    fn from_cast(from: u32) -> (r: isize)
        ensures
            r == from as isize,
    {
        #[verifier::truncate] (from as isize)
    }
}

impl CastLossless<u32> for isize {
    proof fn lemma_exact_round_trip(from: u32) {
    }
}

impl CastFrom<i32> for isize {
    open spec fn from_cast_spec(from: i32) -> isize {
        from as isize
    }

    open spec fn is_exact(from: i32) -> bool {
        true
    }

    fn from_cast(from: i32) -> (r: isize)
        ensures
            r == from as isize,
    {
        from as isize
    }
}

impl CastLossless<i32> for isize {
    proof fn lemma_exact_round_trip(from: i32) {
    }
}

impl CastFrom<u64> for isize {
    open spec fn from_cast_spec(from: u64) -> isize {
        from as isize
    }

    open spec fn is_exact(from: u64) -> bool {
        from <= isize::MAX
    }

    fn from_cast(from: u64) -> (r: isize)
        ensures
            r == from as isize,
    {
        #[verifier::truncate] (from as isize)
    }
}

impl CastLossless<u64> for isize {
    proof fn lemma_exact_round_trip(from: u64) {
    }
}

impl CastFrom<i64> for isize {
    open spec fn from_cast_spec(from: i64) -> isize {
        from as isize
    }

    open spec fn is_exact(from: i64) -> bool {
        isize::MIN <= from && from <= isize::MAX
    }

    fn from_cast(from: i64) -> (r: isize)
        ensures
            r == from as isize,
    {
        #[verifier::truncate] (from as isize)
    }
}

impl CastLossless<i64> for isize {
    proof fn lemma_exact_round_trip(from: i64) {
    }
}

impl CastFrom<u128> for isize {
    open spec fn from_cast_spec(from: u128) -> isize {
        from as isize
    }

    open spec fn is_exact(from: u128) -> bool {
        from <= isize::MAX
    }

    fn from_cast(from: u128) -> (r: isize)
        ensures
            r == from as isize,
    {
        #[verifier::truncate] (from as isize)
    }
}

impl CastLossless<u128> for isize {
    proof fn lemma_exact_round_trip(from: u128) {
    }
}

impl CastFrom<i128> for isize {
    open spec fn from_cast_spec(from: i128) -> isize {
        from as isize
    }

    open spec fn is_exact(from: i128) -> bool {
        isize::MIN <= from && from <= isize::MAX
    }

    fn from_cast(from: i128) -> (r: isize)
        ensures
            r == from as isize,
    {
        #[verifier::truncate] (from as isize)
    }
}

impl CastLossless<i128> for isize {
    proof fn lemma_exact_round_trip(from: i128) {
    }
}

impl CastFrom<usize> for isize {
    open spec fn from_cast_spec(from: usize) -> isize {
        from as isize
    }

    open spec fn is_exact(from: usize) -> bool {
        from <= isize::MAX
    }

    fn from_cast(from: usize) -> (r: isize)
        ensures
            r == from as isize,
    {
        #[verifier::truncate] (from as isize)
    }
}

impl CastLossless<usize> for isize {
    proof fn lemma_exact_round_trip(from: usize) {
    }
}

} // verus!
