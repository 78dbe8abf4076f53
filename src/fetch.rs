//! The integrity rules of a model download: the declared transfer size is
//! required up front, and the number of bytes copied must equal it.
//!
//! The request and the copy to disk happen outside this module; it decides,
//! from what they produced, whether to copy and how the download ends.

use vstd::prelude::*;
use crate::error::FetchModelError;
use ureq::Error as UreqError;

verus! {

pub open spec fn is_ascii_digit(c: char) -> bool {
    '0' <= c && c <= '9'
}

/// The value of a string of decimal digits.
pub open spec fn digits_value(d: Seq<char>) -> int
    decreases d.len(),
{
    if d.len() == 0 {
        0
    } else {
        digits_value(d.drop_last()) * 10 + ((d.last() as u32) as int - ('0' as u32) as int)
    }
}

/// An unsigned decimal number: an optional `+`, then one or more ASCII digits,
/// whose value fits in `u64`.
pub open spec fn decimal_u64(s: Seq<char>) -> Option<u64> {
    let d = if s.len() > 0 && s[0] == '+' {
        s.drop_first()
    } else {
        s
    };
    if d.len() > 0 && (forall|i: int| 0 <= i < d.len() ==> is_ascii_digit(#[trigger] d[i]))
        && digits_value(d) <= u64::MAX {
        Some(digits_value(d) as u64)
    } else {
        None
    }
}

/// Relies on `str::parse::<u64>` (`u64`'s `FromStr`): it accepts an optional
/// `+` followed by ASCII digits whose value fits in `u64`, and nothing else.
#[verifier::external_body]
fn parse_u64(s: &str) -> (r: Option<u64>)
    ensures
        r == decimal_u64(s@),
{
    s.parse::<u64>().ok()
}

/// The transfer size that a transfer-size header declares, if it is present
/// and a number.
pub open spec fn declared_size(header: Option<Seq<char>>) -> Option<u64> {
    match header {
        Some(h) => decimal_u64(h),
        None => None,
    }
}

pub open spec fn header_view(header: Option<&str>) -> Option<Seq<char>> {
    match header {
        Some(h) => Some(h@),
        None => None,
    }
}

/// Reads the declared transfer size; without one the download fails.
pub fn declared_length(header: Option<&str>) -> (r: Result<u64, FetchModelError>)
    ensures
        declared_size(header_view(header)) matches Some(n) ==> r == Ok::<u64, FetchModelError>(n),
        declared_size(header_view(header)) is None ==> r matches Err(FetchModelError::ContentLengthError),
{
    match header {
        Some(h) => match parse_u64(h) {
            Some(n) => Ok(n),
            None => Err(FetchModelError::ContentLengthError),
        },
        None => Err(FetchModelError::ContentLengthError),
    }
}

/// Compares the bytes copied with the declared size.
pub fn check_copy(expected: u64, io: u64) -> (r: Result<(), FetchModelError>)
    ensures
        expected == io ==> r is Ok,
        expected != io ==> (r matches Err(FetchModelError::CopyError { expected: e, io: n })
            && e == expected && n == io),
{
    if io == expected {
        Ok(())
    } else {
        Err(FetchModelError::CopyError { expected, io })
    }
}


/// What a download does once the response has arrived.
#[derive(Debug)]
pub enum FetchStep {
    /// Create the destination file and copy the body into it; the body
    /// declares this many bytes.
    CopyBody { expected: u64 },
    /// Stop without writing anything at the destination.
    Fail(FetchModelError),
}

/// Decides, from the response (its transfer-size header) or the failure of the
/// request, whether to copy the body. A missing or unreadable size stops the
/// download before any byte is written.
pub fn after_response(response: Result<Option<&str>, Box<UreqError>>) -> (r: FetchStep)
    ensures
        response matches Err(e) ==> r == FetchStep::Fail(FetchModelError::FetchError(e)),
        response matches Ok(h) ==> match declared_size(header_view(h)) {
            Some(n) => r == (FetchStep::CopyBody { expected: n }),
            None => r matches FetchStep::Fail(FetchModelError::ContentLengthError),
        },
{
    match response {
        Err(e) => FetchStep::Fail(FetchModelError::FetchError(e)),
        Ok(h) => match declared_length(h) {
            Ok(n) => FetchStep::CopyBody { expected: n },
            Err(e) => FetchStep::Fail(e),
        },
    }
}

/// How a download ends once the copy is over: a failed copy reports its I/O
/// error; otherwise the count of bytes copied must equal the declared size.
/// A partial file is left where it was written.
pub fn after_copy(expected: u64, copied: Result<u64, std::io::Error>) -> (r: Result<(), FetchModelError>)
    ensures
        copied matches Err(e) ==> r == Err::<(), FetchModelError>(FetchModelError::IoError(e)),
        copied matches Ok(n) ==> (n == expected <==> r is Ok),
        copied matches Ok(n) ==> (n != expected ==> r == Err::<(), FetchModelError>(
            FetchModelError::CopyError { expected, io: n },
        )),
{
    match copied {
        Err(e) => Err(FetchModelError::IoError(e)),
        Ok(n) => check_copy(expected, n),
    }
}

} // verus!
