//! Bit-field codec: pure functions that test whether a value is
//! representable in a given number of bits, extract signed and unsigned bit
//! fields from words, and produce words with a bit field overwritten.

use vstd::prelude::*;
use vstd::arithmetic::power2::{lemma2_to64_rest, lemma_pow2_pos, lemma_pow2_strictly_increases, lemma_pow2_unfold, pow2};
use vstd::bits::{lemma_u64_pow2_no_overflow, lemma_u64_shl_is_mul};

verus! {

/// The 64-bit word whose low `width` bits are set and whose other bits are
/// clear.
pub open spec fn mask64(width: u64) -> u64 {
    if width >= 64 {
        u64::MAX
    } else {
        ((1u64 << width) - 1) as u64
    }
}

/// The 32-bit word whose low `width` bits are set and whose other bits are
/// clear.
pub open spec fn mask32(width: u32) -> u32 {
    if width >= 32 {
        u32::MAX
    } else {
        ((1u32 << width) - 1) as u32
    }
}

/// The unsigned value of the `width`-bit field of `word` that starts at the
/// least-significant bit position `lsb`.
pub open spec fn field64(word: u64, width: u64, lsb: u64) -> u64 {
    (word >> lsb) & mask64(width)
}

/// The unsigned value of the `width`-bit field of `word` that starts at the
/// least-significant bit position `lsb`.
pub open spec fn field32(word: u32, width: u32, lsb: u32) -> u32 {
    (word >> lsb) & mask32(width)
}

/// The value of the `width`-bit pattern `f` read as two's complement.
pub open spec fn signed_value(f: u64, width: u64) -> int
    recommends
        1 <= width <= 64,
{
    if (f as nat) < pow2((width - 1) as nat) {
        f as int
    } else {
        f as int - pow2(width as nat)
    }
}

/// Returns true iff the signed value `n` is representable in `width` bits
/// two's-complement. A width of zero can only represent zero.
pub fn fitss(n: i64, width: u64) -> (r: bool)
    ensures
        width == 0 ==> (r <==> n == 0),
        width >= 1 ==> (r <==> -(pow2((width - 1) as nat) as int) <= n as int
            && (n as int) < pow2((width - 1) as nat)),
{
    if width == 0 {
        n == 0
    } else if width >= 64 {
        proof {
            lemma2_to64_rest();
            if width > 64 {
                lemma_pow2_strictly_increases(63, (width - 1) as nat);
            }
        }
        true
    } else {
        let bound: u64 = 1u64 << (width - 1);
        proof {
            lemma_u64_pow2_no_overflow((width - 1) as nat);
            lemma_u64_shl_is_mul(1u64, (width - 1) as u64);
            lemma_pow2_strictly_increases((width - 1) as nat, 63);
            lemma2_to64_rest();
        }
        let bi: i64 = bound as i64;
        -bi <= n && n < bi
    }
}

/// Returns true iff the unsigned value `n` is representable in `width` bits.
/// A width of zero can only represent zero.
pub fn fitsu(n: u64, width: u64) -> (r: bool)
    ensures
        r <==> (n as nat) < pow2(width as nat),
{
    if width >= 64 {
        proof {
            lemma2_to64_rest();
            if width > 64 {
                lemma_pow2_strictly_increases(64, width as nat);
            }
        }
        true
    } else {
        proof {
            lemma_u64_pow2_no_overflow(width as nat);
            lemma_u64_shl_is_mul(1u64, width);
            assert((n >> width == 0) <==> n < (1u64 << width)) by (bit_vector)
                requires
                    width < 64,
            ;
        }
        n >> width == 0
    }
}

/// Retrieve the `width`-bit field of `word` beginning at least-significant
/// bit `lsb`, reinterpreted as a two's-complement signed value.
#[verifier::rlimit(60)]
pub fn gets(word: u64, width: u64, lsb: u64) -> (r: i64)
    requires
        1 <= width,
        width + lsb <= 64,
    ensures
        r as int == signed_value(field64(word, width, lsb), width),
{
    let s1: u64 = 64 - width - lsb;
    let s2: u64 = 64 - width;
    let r = ((word << s1) as i64) >> s2;
    proof {
        let h: u64 = 1u64 << ((width - 1) as u64);
        assert((((word << s1) as i64) >> s2) as int == {
            let f = (word >> lsb) & mask64(width);
            if f < h {
                f as int
            } else {
                f as int - 2 * (h as int)
            }
        }) by (bit_vector)
            requires
                s1 == 64 - width - lsb,
                s2 == 64 - width,
                1 <= width,
                width + lsb <= 64,
                h == 1u64 << ((width - 1) as u64),
        ;
        lemma_u64_pow2_no_overflow((width - 1) as nat);
        lemma_u64_shl_is_mul(1u64, (width - 1) as u64);
        lemma_pow2_unfold(width as nat);
    }
    r
}

/// Retrieve the `width`-bit field of `word` beginning at least-significant
/// bit `lsb`, reinterpreted as an unsigned value.
pub fn getu(word: u32, lsb: u32, width: u32) -> (r: u32)
    requires
        1 <= width,
        width + lsb <= 32,
    ensures
        r == field32(word, width, lsb),
{
    let s1: u32 = 32 - width - lsb;
    let s2: u32 = 32 - width;
    let r = (word << s1) >> s2;
    proof {
        assert((word << s1) >> s2 == (word >> lsb) & mask32(width)) by (bit_vector)
            requires
                s1 == 32 - width - lsb,
                s2 == 32 - width,
                1 <= width,
                width + lsb <= 32,
        ;
    }
    r
}

/// Return a copy of `word` in which the `width`-bit field at
/// least-significant bit `lsb` has the unsigned `value` OR-ed into it, or
/// `None` iff `value` is not representable in `width` unsigned bits.
///
/// Bits of the target field that are already set in `word` remain set: a
/// caller that wants the field to hold `value` exactly must pass a `word`
/// whose target field is zero.
pub fn newu(word: u64, width: u64, lsb: u64, value: u64) -> (r: Option<u64>)
    requires
        lsb < 64,
        width + lsb <= 64,
    ensures
        r is Some <==> (value as nat) < pow2(width as nat),
        r is Some ==> r == Some::<u64>(word | (value << lsb)),
{
    if fitsu(value, width) {
        Some(word | (value << lsb))
    } else {
        None
    }
}

/// Return a copy of `word` in which the `width`-bit field at
/// least-significant bit `lsb` has the two's-complement representation of
/// the signed `value` OR-ed into it, or `None` iff `value` is not
/// representable in `width` signed bits.
///
/// As with [`newu`], bits of the target field that are already set in
/// `word` remain set.
pub fn news(word: u64, width: u64, lsb: u64, value: i64) -> (r: Option<u64>)
    requires
        lsb < 64,
        width + lsb <= 64,
    ensures
        width == 0 ==> (r is Some <==> value == 0),
        width >= 1 ==> (r is Some <==> -(pow2((width - 1) as nat) as int) <= value as int
            && (value as int) < pow2((width - 1) as nat)),
        r is Some ==> r == Some::<u64>(word | (((value as u64) & mask64(width)) << lsb)),
{
    if fitss(value, width) {
        let temp: u64;
        if width >= 64 {
            temp = u64::MAX;
        } else {
            proof {
                assert((1u64 << width) >= 1) by (bit_vector)
                    requires
                        width < 64,
                ;
            }
            temp = (1u64 << width) - 1;
        }
        Some(word | (((value as u64) & temp) << lsb))
    } else {
        None
    }
}

/// Law: packing an unsigned value that fits into a `width`-bit field of the
/// zero word and extracting that same field yields the value back.
///
/// The packed word here is written as [`newu`]'s postcondition describes its
/// result for `word == 0`, and the extraction as [`getu`]'s postcondition
/// describes its result.
pub proof fn lemma_round_trip_unsigned(width: u64, lsb: u64, value: u64)
    requires
        1 <= width,
        width + lsb <= 32,
        (value as nat) < pow2(width as nat),
    ensures
        0u64 | (value << lsb) <= u32::MAX as u64,
        field32((0u64 | (value << lsb)) as u32, width as u32, lsb as u32) == value as u32,
        value as u32 as u64 == value,
{
    lemma_u64_pow2_no_overflow(width as nat);
    lemma_u64_shl_is_mul(1u64, width);
    assert((0u64 | (value << lsb)) <= 0xffff_ffffu64
        && field32((0u64 | (value << lsb)) as u32, width as u32, lsb as u32) == value as u32
        && value as u32 as u64 == value) by (bit_vector)
        requires
            1 <= width,
            width + lsb <= 32,
            value < (1u64 << width),
    ;
}

/// Law: packing a signed value that fits into a `width`-bit field of the
/// zero word and extracting that same field as a signed value yields the
/// value back.
///
/// The packed word here is written as [`news`]'s postcondition describes its
/// result for `word == 0`, and the extraction as [`gets`]'s postcondition
/// describes its result.
#[verifier::rlimit(60)]
pub proof fn lemma_round_trip_signed(width: u64, lsb: u64, value: i64)
    requires
        1 <= width,
        width + lsb <= 64,
        -(pow2((width - 1) as nat) as int) <= value as int,
        (value as int) < pow2((width - 1) as nat),
    ensures
        signed_value(
            field64(0u64 | (((value as u64) & mask64(width)) << lsb), width, lsb),
            width,
        ) == value as int,
{
    lemma_u64_pow2_no_overflow((width - 1) as nat);
    lemma_u64_shl_is_mul(1u64, (width - 1) as u64);
    lemma_pow2_unfold(width as nat);
    let h: u64 = 1u64 << ((width - 1) as u64);
    let packed: u64 = 0u64 | (((value as u64) & mask64(width)) << lsb);
    assert(({
        let f = field64(packed, width, lsb);
        if f < h {
            f as int
        } else {
            f as int - 2 * (h as int)
        }
    }) == value as int) by (bit_vector)
        requires
            1 <= width,
            width + lsb <= 64,
            h == 1u64 << ((width - 1) as u64),
            packed == 0u64 | (((value as u64) & mask64(width)) << lsb),
            -(h as int) <= value as int,
            (value as int) < h as int,
    ;
}

/// Law: extracting an unsigned field that lies wholly outside the populated
/// bits of a word yields zero.
pub proof fn lemma_extract_unsigned_vacant(word: u32, width: u32, lsb: u32)
    requires
        1 <= width,
        width + lsb <= 32,
        word & (mask32(width) << lsb) == 0,
    ensures
        field32(word, width, lsb) == 0,
{
    assert(field32(word, width, lsb) == 0) by (bit_vector)
        requires
            1 <= width,
            width + lsb <= 32,
            word & (mask32(width) << lsb) == 0,
    ;
}

/// Law: extracting a signed field that lies wholly outside the populated
/// bits of a word yields zero.
pub proof fn lemma_extract_signed_vacant(word: u64, width: u64, lsb: u64)
    requires
        1 <= width,
        width + lsb <= 64,
        word & (mask64(width) << lsb) == 0,
    ensures
        signed_value(field64(word, width, lsb), width) == 0,
{
    assert(field64(word, width, lsb) == 0) by (bit_vector)
        requires
            1 <= width,
            width + lsb <= 64,
            word & (mask64(width) << lsb) == 0,
    ;
    lemma_pow2_pos((width - 1) as nat);
}

} // verus!
