//! Kernel errors.
//!
//! The host defines a set of generic integer error codes based on the C and
//! POSIX ones. [`Error`] holds one of them in the form in which the host
//! returns it: negated.

use vstd::prelude::*;
use vstd::std_specs::convert::FromSpec;
use crate::bindings;
use crate::c_types::{c_int, c_long};
use crate::narrow;

verus! {

/// Generic integer kernel error.
///
/// The host defines a set of integer generic error codes based on C and
/// POSIX ones. These codes may have a more specific meaning in some contexts.
#[derive(Clone, Copy, Debug, PartialEq, Eq, Structural)]
pub struct Error(c_int);

impl View for Error {
    type V = int;

    /// The integer that the host returns for this error.
    closed spec fn view(&self) -> int {
        self.0 as int
    }
}

#[allow(non_snake_case)]
impl Error {
    /// Whether this is an error that the host can report: its code is
    /// negative and no further from zero than `MAX_ERRNO`.
    pub open spec fn wf(&self) -> bool {
        narrow::is_errno(self@)
    }

    /// The error that holds `errno`.
    pub closed spec fn spec_from_kernel_errno(errno: c_int) -> Error {
        Error(errno)
    }

    /// The error that the host reports by returning `-magnitude`.
    pub open spec fn negated(magnitude: u32) -> Error {
        Error::from_kernel_errno((-(magnitude as int)) as c_int)
    }

    /// Invalid argument.
    #[verifier::allow_in_spec]
    pub fn EINVAL() -> (e: Error)
        ensures
            e@ == -(bindings::EINVAL as int),
            e.wf(),
        returns
            Error::negated(bindings::EINVAL),
    {
        Error(-(bindings::EINVAL as c_int))
    }

    /// Out of memory.
    #[verifier::allow_in_spec]
    pub fn ENOMEM() -> (e: Error)
        ensures
            e@ == -(bindings::ENOMEM as int),
            e.wf(),
        returns
            Error::negated(bindings::ENOMEM),
    {
        Error(-(bindings::ENOMEM as c_int))
    }

    /// Bad address.
    #[verifier::allow_in_spec]
    pub fn EFAULT() -> (e: Error)
        ensures
            e@ == -(bindings::EFAULT as int),
            e.wf(),
        returns
            Error::negated(bindings::EFAULT),
    {
        Error(-(bindings::EFAULT as c_int))
    }

    /// Illegal seek.
    #[verifier::allow_in_spec]
    pub fn ESPIPE() -> (e: Error)
        ensures
            e@ == -(bindings::ESPIPE as int),
            e.wf(),
        returns
            Error::negated(bindings::ESPIPE),
    {
        Error(-(bindings::ESPIPE as c_int))
    }

    /// Try again.
    #[verifier::allow_in_spec]
    pub fn EAGAIN() -> (e: Error)
        ensures
            e@ == -(bindings::EAGAIN as int),
            e.wf(),
        returns
            Error::negated(bindings::EAGAIN),
    {
        Error(-(bindings::EAGAIN as c_int))
    }

    /// Device or resource busy.
    #[verifier::allow_in_spec]
    pub fn EBUSY() -> (e: Error)
        ensures
            e@ == -(bindings::EBUSY as int),
            e.wf(),
        returns
            Error::negated(bindings::EBUSY),
    {
        Error(-(bindings::EBUSY as c_int))
    }

    /// Restart the system call.
    #[verifier::allow_in_spec]
    pub fn ERESTARTSYS() -> (e: Error)
        ensures
            e@ == -(bindings::ERESTARTSYS as int),
            e.wf(),
        returns
            Error::negated(bindings::ERESTARTSYS),
    {
        Error(-(bindings::ERESTARTSYS as c_int))
    }

    /// Operation not permitted.
    #[verifier::allow_in_spec]
    pub fn EPERM() -> (e: Error)
        ensures
            e@ == -(bindings::EPERM as int),
            e.wf(),
        returns
            Error::negated(bindings::EPERM),
    {
        Error(-(bindings::EPERM as c_int))
    }

    /// No such process.
    #[verifier::allow_in_spec]
    pub fn ESRCH() -> (e: Error)
        ensures
            e@ == -(bindings::ESRCH as int),
            e.wf(),
        returns
            Error::negated(bindings::ESRCH),
    {
        Error(-(bindings::ESRCH as c_int))
    }

    /// No such file or directory.
    #[verifier::allow_in_spec]
    pub fn ENOENT() -> (e: Error)
        ensures
            e@ == -(bindings::ENOENT as int),
            e.wf(),
        returns
            Error::negated(bindings::ENOENT),
    {
        Error(-(bindings::ENOENT as c_int))
    }

    /// Interrupted system call.
    #[verifier::allow_in_spec]
    pub fn EINTR() -> (e: Error)
        ensures
            e@ == -(bindings::EINTR as int),
            e.wf(),
        returns
            Error::negated(bindings::EINTR),
    {
        Error(-(bindings::EINTR as c_int))
    }

    /// Creates an [`Error`] from a kernel error code.
    ///
    /// The code is taken as it is: nothing is asked of its sign or size.
    #[verifier::when_used_as_spec(spec_from_kernel_errno)]
    pub fn from_kernel_errno(errno: c_int) -> (e: Error)
        ensures
            e == Error::from_kernel_errno(errno),
            e@ == errno,
            e.wf() <==> narrow::is_errno(errno as int),
    {
        Error(errno)
    }

    /// Returns the kernel error code.
    pub fn to_kernel_errno(&self) -> (errno: c_int)
        ensures
            errno == self@,
    {
        self.0
    }

    /// An error made from a code holds that code.
    pub proof fn lemma_errno_round_trip(errno: c_int)
        ensures
            Error::from_kernel_errno(errno)@ == errno,
    {
    }

    /// An error is the one made from its own code, so two errors with one
    /// code are the same error.
    pub proof fn lemma_error_by_errno(e: Error)
        ensures
            c_int::MIN <= e@ <= c_int::MAX,
            Error::from_kernel_errno(e@ as c_int) == e,
    {
    }

    /// Whether the catalogue has an entry for the host's number `magnitude`.
    pub open spec fn in_catalogue(magnitude: u32) -> bool {
        ||| magnitude == bindings::EINVAL
        ||| magnitude == bindings::ENOMEM
        ||| magnitude == bindings::EFAULT
        ||| magnitude == bindings::ESPIPE
        ||| magnitude == bindings::EAGAIN
        ||| magnitude == bindings::EBUSY
        ||| magnitude == bindings::ERESTARTSYS
        ||| magnitude == bindings::EPERM
        ||| magnitude == bindings::ESRCH
        ||| magnitude == bindings::ENOENT
        ||| magnitude == bindings::EINTR
    }

    /// Each entry of the catalogue holds the negation of the host's number
    /// of the same name, can be reported by the host, and is made again
    /// from its own code.
    pub proof fn lemma_catalogue(magnitude: u32)
        requires
            Error::in_catalogue(magnitude),
        ensures
            Error::negated(magnitude)@ == -(magnitude as int),
            Error::negated(magnitude).wf(),
            Error::from_kernel_errno(Error::negated(magnitude)@ as c_int) == Error::negated(magnitude),
    {
    }
}

/// A single allocation that the allocator could not serve.
#[derive(Clone, Copy, Debug, PartialEq, Eq, Structural)]
pub struct AllocError;

/// `core::str::Utf8Error`, the failure of decoding bytes as UTF-8 text. It is
/// only passed along: no contract speaks of what it holds.
#[verifier::external_type_specification]
#[verifier::external_body]
pub struct ExUtf8Error(core::str::Utf8Error);

impl From<core::num::TryFromIntError> for Error {
    /// An integer that does not fit the type asked for is an invalid argument.
    fn from(_e: core::num::TryFromIntError) -> (e: Error)
        ensures
            e == Error::EINVAL(),
            e@ == -(bindings::EINVAL as int),
            e.wf(),
    {
        Error::EINVAL()
    }
}

impl vstd::std_specs::convert::FromSpecImpl<core::num::TryFromIntError> for Error {
    open spec fn obeys_from_spec() -> bool {
        true
    }

    open spec fn from_spec(_e: core::num::TryFromIntError) -> Error {
        Error::EINVAL()
    }
}

impl From<core::str::Utf8Error> for Error {
    /// Bytes that are no UTF-8 text are an invalid argument.
    fn from(_e: core::str::Utf8Error) -> (e: Error)
        ensures
            e == Error::EINVAL(),
            e@ == -(bindings::EINVAL as int),
            e.wf(),
    {
        Error::EINVAL()
    }
}

impl vstd::std_specs::convert::FromSpecImpl<core::str::Utf8Error> for Error {
    open spec fn obeys_from_spec() -> bool {
        true
    }

    open spec fn from_spec(_e: core::str::Utf8Error) -> Error {
        Error::EINVAL()
    }
}

impl From<std::collections::TryReserveError> for Error {
    /// A collection that could not grow is out of memory.
    fn from(_e: std::collections::TryReserveError) -> (e: Error)
        ensures
            e == Error::ENOMEM(),
            e@ == -(bindings::ENOMEM as int),
            e.wf(),
    {
        Error::ENOMEM()
    }
}

impl vstd::std_specs::convert::FromSpecImpl<std::collections::TryReserveError> for Error {
    open spec fn obeys_from_spec() -> bool {
        true
    }

    open spec fn from_spec(_e: std::collections::TryReserveError) -> Error {
        Error::ENOMEM()
    }
}

impl From<AllocError> for Error {
    /// An allocation that could not be served is out of memory.
    fn from(_e: AllocError) -> (e: Error)
        ensures
            e == Error::ENOMEM(),
            e@ == -(bindings::ENOMEM as int),
            e.wf(),
    {
        Error::ENOMEM()
    }
}

impl vstd::std_specs::convert::FromSpecImpl<AllocError> for Error {
    open spec fn obeys_from_spec() -> bool {
        true
    }

    open spec fn from_spec(_e: AllocError) -> Error {
        Error::ENOMEM()
    }
}

/// A [`Result`] with an [`Error`] error type.
///
/// To be used as the return type for functions that may fail.
///
/// In C, it is common that functions indicate success or failure through
/// their return value. In the kernel, functions that may fail typically
/// return an `int` that represents a generic error code; those are modelled
/// as [`Error`]. Even a function that returns nothing when it succeeds
/// returns a `Result` rather than just an [`Error`].
pub type Result<T = ()> = core::result::Result<T, Error>;

/// Whether `out` is what the host is handed for the result `r`: the value
/// of a success as it is, and for a failure `T::from` of the error's code
/// narrowed to 16 bits.
pub open spec fn is_kernel_result<T: From<i16>>(r: Result<T>, out: T) -> bool {
    match r {
        Ok(v) => out == v,
        Err(e) => {
            &&& call_ensures(T::from, (narrow::wrap_i16(e@) as i16,), out)
            &&& T::obeys_from_spec() ==> out == T::from_spec(narrow::wrap_i16(e@) as i16)
        },
    }
}

/// Turns a [`Result`] into the one value that the host takes for both
/// outcomes. Use [`from_kernel_result`] to run a computation and convert
/// what it returns.
///
/// An error that the host can report has a code that fits in 16 bits, so
/// narrowing keeps it; for any other code the low 16 bits are handed on.
pub fn from_kernel_result_helper<T>(r: Result<T>) -> (out: T) where T: From<i16>
    ensures
        is_kernel_result(r, out),
{
    match r {
        Ok(v) => v,
        Err(e) => T::from(narrow::to_i16(e.to_kernel_errno())),
    }
}

/// Transforms a [`Result<T>`] to a kernel C integer result.
///
/// This is useful when calling Rust functions that return [`Result<T>`]
/// from inside functions that the host calls and that need to return an
/// integer error result. The computation `f` runs once, to its end, before
/// anything is returned.
///
/// `T` should be convertible from an `i16` via `From<i16>`.
pub fn from_kernel_result<T, F>(f: F) -> (out: T) where T: From<i16>, F: FnOnce() -> Result<T>
    requires
        f.requires(()),
    ensures
        exists|r: Result<T>| #[trigger] f.ensures((), r) && is_kernel_result(r, out),
{
    from_kernel_result_helper(f())
}

/// An error that the host can report reaches it unchanged and negative,
/// both in a C `int` and in a C `long`.
pub proof fn lemma_failure_is_negative(e: Error)
    requires
        e.wf(),
    ensures
        narrow::wrap_i16(e@) == e@,
        e@ < 0,
        forall|out: c_int| is_kernel_result::<c_int>(Err(e), out) ==> out == e@ && out < 0,
        forall|out: c_long| is_kernel_result::<c_long>(Err(e), out) ==> out == e@ && out < 0,
{
}

/// Transforms a kernel "error pointer" to a normal pointer.
///
/// Some kernel C API functions return an "error pointer" which optionally
/// embeds an `errno`. Callers are supposed to check the returned pointer
/// for errors. This function performs the check and converts the "error
/// pointer" to a normal pointer in an idiomatic fashion.
///
/// The host owns the encoding: `is_err` is its test for the reserved range
/// and `ptr_err` its extraction of the code. `ptr_err` is asked only where
/// `is_err` has answered `true`, and its answer is narrowed to a C `int`.
pub fn from_kernel_err_ptr<P, IsErr, PtrErr>(ptr: P, is_err: IsErr, ptr_err: PtrErr) -> (r: Result<
    P,
>) where P: Copy, IsErr: FnOnce(P) -> bool, PtrErr: FnOnce(P) -> c_long
    requires
        is_err.requires((ptr,)),
        is_err.ensures((ptr,), true) ==> ptr_err.requires((ptr,)),
    ensures
        match r {
            Ok(p) => p == ptr && is_err.ensures((ptr,), false),
            Err(e) => is_err.ensures((ptr,), true) && exists|encoded: c_long|
                #[trigger] ptr_err.ensures((ptr,), encoded) && e@ == narrow::wrap_c_int(
                    encoded as int,
                ),
        },
{
    if is_err(ptr) {
        let encoded = ptr_err(ptr);
        return Err(Error::from_kernel_errno(narrow::to_c_int(encoded)));
    }
    Ok(ptr)
}

} // verus!
