//! Cheap pseudo-random values seeded from the wall clock.
use vstd::prelude::*;

verus! {

/// Multiplier of the linear congruential step.
pub const LCG_MULTIPLIER: u32 = 1664525;

/// Increment of the linear congruential step.
pub const LCG_INCREMENT: u32 = 1013904223;

/// One step of the linear congruential generator, modulo 2^32.
pub open spec fn lcg_spec(seed: u32) -> u32 {
    ((seed as int * LCG_MULTIPLIER as int + LCG_INCREMENT as int) % 0x1_0000_0000) as u32
}

/// Applies one linear congruential step to `seed`, wrapping at 2^32.
pub fn lcg_step(seed: u32) -> (r: u32)
    ensures
        r == lcg_spec(seed),
{
    assert(seed as int * LCG_MULTIPLIER as int <= 0xffff_ffff * 1664525) by (nonlinear_arith)
        requires
            seed <= 0xffff_ffff,
            LCG_MULTIPLIER == 1664525,
    ;
    let wide: u64 = seed as u64 * LCG_MULTIPLIER as u64 + LCG_INCREMENT as u64;
    (wide % 0x1_0000_0000) as u32
}

/// Relies on std's `SystemTime::now` and `SystemTime::duration_since`: the
/// nanoseconds elapsed since the Unix epoch, or `None` when the clock reads
/// earlier than the epoch. The value depends on the clock, so nothing is stated.
#[verifier::external_body]
fn nanos_since_epoch() -> (r: Option<u128>) {
    std::time::SystemTime::now().duration_since(std::time::UNIX_EPOCH).ok().map(|d| d.as_nanos())
}

/// A pseudo-random `u32`: one generator step seeded with the low 32 bits of
/// the clock's nanoseconds (a clock set before the epoch seeds with zero).
pub fn simple_random_u32() -> u32 {
    let seed: u32 = match nanos_since_epoch() {
        Some(n) => (n % 0x1_0000_0000) as u32,
        None => 0,
    };
    lcg_step(seed)
}

/// The characters random strings are drawn from, in generator order.
pub const CHARSET: &'static str = "abcdefghijklmnopqrstuvwxyzABCDEFGHIJKLMNOPQRSTUVWXYZ0123456789";

/// Number of characters in `CHARSET`.
pub const CHARSET_LEN: usize = 62;

/// An ASCII letter or decimal digit.
pub open spec fn is_charset_char(c: char) -> bool {
    ('a' <= c && c <= 'z') || ('A' <= c && c <= 'Z') || ('0' <= c && c <= '9')
}

/// Every character of `s` is an ASCII letter or digit.
pub open spec fn is_charset_text(s: Seq<char>) -> bool {
    forall|i: int| 0 <= i < s.len() ==> is_charset_char(#[trigger] s[i])
}

proof fn lemma_charset_shape()
    ensures
        CHARSET@.len() == CHARSET_LEN,
        CHARSET.is_ascii(),
        is_charset_text(CHARSET@),
{
    reveal_strlit("abcdefghijklmnopqrstuvwxyzABCDEFGHIJKLMNOPQRSTUVWXYZ0123456789");
}

/// The character of `CHARSET` that a raw value `raw` selects.
pub fn charset_piece(raw: u32) -> (r: &'static str)
    ensures
        r@ == CHARSET@.subrange(raw as int % 62, raw as int % 62 + 1),
        r@.len() == 1,
        is_charset_char(r@[0]),
{
    proof {
        lemma_charset_shape();
    }
    let idx: usize = (raw % 62) as usize;
    CHARSET.substring_ascii(idx, idx + 1)
}

/// A string of `length` characters, each drawn from `CHARSET`.
pub fn generate_random_string(length: usize) -> (r: String)
    ensures
        r@.len() == length,
        is_charset_text(r@),
{
    let mut s = String::new();
    let mut i: usize = 0;
    while i < length
        invariant
            i <= length,
            s@.len() == i,
            is_charset_text(s@),
        decreases length - i,
    {
        let piece = charset_piece(simple_random_u32());
        let ghost before = s@;
        s.append(piece);
        assert(s@ == before + piece@);
        assert forall|k: int| 0 <= k < s@.len() implies is_charset_char(#[trigger] s@[k]) by {
            if k < before.len() {
                assert(s@[k] == before[k]);
            } else {
                assert(s@[k] == piece@[0]);
            }
        }
        i = i + 1;
    }
    s
}

/// `raw` folded into the inclusive range `[min, max]`.
pub open spec fn in_range_spec(raw: u32, min: u32, max: u32) -> int
    recommends
        min <= max,
{
    min as int + raw as int % (max as int - min as int + 1)
}

/// Folds a raw value into `[min, max]` by the remainder of the range width.
pub fn scale_into_range(raw: u32, min: u32, max: u32) -> (r: u32)
    requires
        min <= max,
    ensures
        r == in_range_spec(raw, min, max),
        min <= r <= max,
{
    let width: u64 = max as u64 - min as u64 + 1;
    let off: u64 = raw as u64 % width;
    (min as u64 + off) as u32
}

/// A pseudo-random value in the inclusive range `[min, max]`.
pub fn random_u32_range(min: u32, max: u32) -> (r: u32)
    requires
        min <= max,
    ensures
        min <= r <= max,
{
    scale_into_range(simple_random_u32(), min, max)
}

/// The 64-bit value whose high half is `high` and low half is `low`.
pub fn combine_halves(high: u32, low: u32) -> (r: u64)
    ensures
        r == high as int * 0x1_0000_0000 + low as int,
{
    let h: u64 = high as u64;
    let l: u64 = low as u64;
    let r: u64 = (h << 32u64) | l;
    assert(r == h * 0x1_0000_0000 + l) by (bit_vector)
        requires
            h <= 0xffff_ffff,
            l <= 0xffff_ffff,
            r == (h << 32u64) | l,
    ;
    r
}

/// A pseudo-random `u64` built from two generator draws, the first giving
/// the low half and the second the high half.
pub fn random_u64() -> (r: u64) {
    let low = simple_random_u32();
    let high = simple_random_u32();
    combine_halves(high, low)
}

/// A pseudo-random `usize` below 2^32.
pub fn random_usize() -> (r: usize)
    ensures
        r <= u32::MAX,
{
    simple_random_u32() as usize
}

} // verus!
