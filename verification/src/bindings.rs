//! The host's symbolic error numbers.
//!
//! Each constant is the positive magnitude that the host's headers give the
//! name. The host returns the negation of one of them to report a failure.

use vstd::prelude::*;

verus! {

/// Operation not permitted.
pub const EPERM: u32 = 1;

/// No such file or directory.
pub const ENOENT: u32 = 2;

/// No such process.
pub const ESRCH: u32 = 3;

/// Interrupted system call.
pub const EINTR: u32 = 4;

/// Try again.
pub const EAGAIN: u32 = 11;

/// Out of memory.
pub const ENOMEM: u32 = 12;

/// Bad address.
pub const EFAULT: u32 = 14;

/// Device or resource busy.
pub const EBUSY: u32 = 16;

/// Invalid argument.
pub const EINVAL: u32 = 22;

/// Illegal seek.
pub const ESPIPE: u32 = 29;

/// Restart the system call.
pub const ERESTARTSYS: u32 = 512;

/// The largest magnitude that the host uses for an error number.
pub const MAX_ERRNO: u32 = 4095;

/// How far `MAX_ERRNO` stays below the magnitude of `i16::MIN`.
///
/// The subtraction has no value once `MAX_ERRNO` exceeds `0x8000`, so a host
/// whose error numbers do not fit in an `i16` does not build.
pub const ERRNO_HEADROOM: u32 = 0x8000 - MAX_ERRNO;

/// The negation of the largest error number is an `i16`.
pub proof fn lemma_max_errno_fits_i16()
    ensures
        i16::MIN <= -(MAX_ERRNO as int) < 0,
{
}

} // verus!
