//! Narrowing of host integers to the width of an error number.
//!
//! A cast to a narrower signed type keeps the low bits and reads them as
//! two's complement. The functions here make that cast and say what it
//! computes; the lemmas say on which values it changes nothing.

use vstd::prelude::*;
use crate::bindings;
use crate::c_types::{c_int, c_long};

verus! {

/// The value of the low 16 bits of `v`, read as two's complement.
pub open spec fn wrap_i16(v: int) -> int {
    let low = v % 0x1_0000;
    if low < 0x8000 {
        low
    } else {
        low - 0x1_0000
    }
}

/// The value of the low 32 bits of `v`, read as two's complement.
pub open spec fn wrap_c_int(v: int) -> int {
    let low = v % 0x1_0000_0000;
    if low < 0x8000_0000 {
        low
    } else {
        low - 0x1_0000_0000
    }
}

/// Whether `v` is a negated error number of the host: negative, and no
/// further from zero than `MAX_ERRNO`.
pub open spec fn is_errno(v: int) -> bool {
    -(bindings::MAX_ERRNO as int) <= v < 0
}

/// Narrowing loses nothing of a negated error number: for every magnitude
/// up to and including `MAX_ERRNO`, the negation is an `i16`, and the low
/// bits of it, at either width, are the negation itself.
pub proof fn lemma_errno_survives_narrowing(magnitude: int)
    requires
        0 <= magnitude <= bindings::MAX_ERRNO,
    ensures
        i16::MIN <= -magnitude <= i16::MAX,
        wrap_i16(-magnitude) == -magnitude,
        wrap_c_int(-magnitude) == -magnitude,
{
}

/// Narrows a C `int` to 16 bits.
pub fn to_i16(errno: c_int) -> (narrowed: i16)
    ensures
        narrowed == wrap_i16(errno as int),
        i16::MIN <= errno <= i16::MAX ==> narrowed == errno,
{
    let narrowed = #[verifier::truncate] (errno as i16);
    assert(narrowed == wrap_i16(errno as int)) by (bit_vector)
        requires
            narrowed == errno as i16,
    ;
    narrowed
}

/// Narrows a C `long` to a C `int`.
pub fn to_c_int(value: c_long) -> (narrowed: c_int)
    ensures
        narrowed == wrap_c_int(value as int),
        c_int::MIN <= value <= c_int::MAX ==> narrowed == value,
{
    let narrowed = #[verifier::truncate] (value as c_int);
    assert(narrowed == wrap_c_int(value as int)) by (bit_vector)
        requires
            narrowed == value as c_int,
    ;
    narrowed
}

} // verus!
