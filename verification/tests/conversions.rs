use kernel_error::error::{AllocError, Error, Result};

fn narrowing_failure() -> std::num::TryFromIntError {
    u8::try_from(300i32).unwrap_err()
}

fn decoding_failure() -> std::str::Utf8Error {
    let bytes: Vec<u8> = vec![0x66, 0x6f, 0xff];
    std::str::from_utf8(&bytes).unwrap_err()
}

fn reservation_failure() -> std::collections::TryReserveError {
    let mut bytes: Vec<u8> = Vec::new();
    bytes.try_reserve(usize::MAX).unwrap_err()
}

#[test]
fn range_conversion_failure_is_invalid_argument() {
    let error = Error::from(narrowing_failure());
    assert_eq!(error, Error::EINVAL());
    assert_eq!(error.to_kernel_errno(), -22);
}

#[test]
fn negative_to_unsigned_failure_is_invalid_argument() {
    let failure = u32::try_from(-1i64).unwrap_err();
    assert_eq!(Error::from(failure), Error::EINVAL());
}

#[test]
fn text_decoding_failure_is_invalid_argument() {
    let error = Error::from(decoding_failure());
    assert_eq!(error, Error::EINVAL());
    assert_eq!(error.to_kernel_errno(), -22);
}

#[test]
fn truncated_text_is_invalid_argument() {
    let bytes: Vec<u8> = vec![0xe2, 0x82];
    let failure = std::str::from_utf8(&bytes).unwrap_err();
    assert_eq!(Error::from(failure), Error::EINVAL());
}

#[test]
fn allocation_failure_is_out_of_memory() {
    let error = Error::from(AllocError);
    assert_eq!(error, Error::ENOMEM());
    assert_eq!(error.to_kernel_errno(), -12);
}

#[test]
fn reservation_failure_is_out_of_memory() {
    let error = Error::from(reservation_failure());
    assert_eq!(error, Error::ENOMEM());
    assert_eq!(error.to_kernel_errno(), -12);
}

#[test]
fn conversions_never_give_another_entry() {
    let others = [
        Error::EFAULT(),
        Error::ESPIPE(),
        Error::EAGAIN(),
        Error::EBUSY(),
        Error::ERESTARTSYS(),
        Error::EPERM(),
        Error::ESRCH(),
        Error::ENOENT(),
        Error::EINTR(),
    ];
    let converted = [
        Error::from(narrowing_failure()),
        Error::from(decoding_failure()),
        Error::from(AllocError),
        Error::from(reservation_failure()),
    ];
    for error in converted {
        for other in others {
            assert_ne!(error, other);
        }
    }
    assert_ne!(converted[0], Error::ENOMEM());
    assert_ne!(converted[1], Error::ENOMEM());
    assert_ne!(converted[2], Error::EINVAL());
    assert_ne!(converted[3], Error::EINVAL());
}

#[test]
fn into_gives_the_same_error_as_from() {
    let a: Error = narrowing_failure().into();
    let b: Error = decoding_failure().into();
    let c: Error = AllocError.into();
    let d: Error = reservation_failure().into();
    assert_eq!(a, Error::EINVAL());
    assert_eq!(b, Error::EINVAL());
    assert_eq!(c, Error::ENOMEM());
    assert_eq!(d, Error::ENOMEM());
}

fn to_byte(value: i32) -> Result<u8> {
    let byte = u8::try_from(value)?;
    Ok(byte)
}

fn to_text(bytes: &[u8]) -> Result<usize> {
    let text = std::str::from_utf8(bytes)?;
    Ok(text.len())
}

fn reserve(bytes: &mut Vec<u8>, additional: usize) -> Result {
    bytes.try_reserve(additional)?;
    Ok(())
}

fn allocate(fail: bool) -> Result<u32> {
    let got: core::result::Result<u32, AllocError> = if fail { Err(AllocError) } else { Ok(1) };
    Ok(got?)
}

#[test]
fn question_mark_propagates_range_failure() {
    assert_eq!(to_byte(255), Ok(255));
    assert_eq!(to_byte(256), Err(Error::EINVAL()));
    assert_eq!(to_byte(-1), Err(Error::EINVAL()));
}

#[test]
fn question_mark_propagates_decoding_failure() {
    assert_eq!(to_text(b"abc"), Ok(3));
    assert_eq!(to_text(&[0xc0, 0x80]), Err(Error::EINVAL()));
}

#[test]
fn question_mark_propagates_reservation_failure() {
    let mut bytes: Vec<u8> = Vec::new();
    assert_eq!(reserve(&mut bytes, 16), Ok(()));
    assert_eq!(reserve(&mut bytes, usize::MAX), Err(Error::ENOMEM()));
}

#[test]
fn question_mark_propagates_allocation_failure() {
    assert_eq!(allocate(false), Ok(1));
    assert_eq!(allocate(true), Err(Error::ENOMEM()));
}

#[test]
fn result_defaults_to_unit() {
    let done: Result = Ok(());
    let failed: Result = Err(Error::EAGAIN());
    assert!(done.is_ok());
    assert_eq!(failed.unwrap_err().to_kernel_errno(), -11);
}
