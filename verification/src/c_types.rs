//! The host's C integer types, as the supported 64-bit targets lay them out.

use vstd::prelude::*;

verus! {

/// C `int`.
#[allow(non_camel_case_types)]
pub type c_int = i32;

/// C `long`.
#[allow(non_camel_case_types)]
pub type c_long = i64;

} // verus!
