//! Range requests: how much to ask for, how to ask for it, and which replies to
//! accept.

use vstd::prelude::*;

use crate::decimal;
use crate::decimal::append_decimal;
use crate::error::{ErrorKind, ReadError};

verus! {

/// The least number of bytes that a range request asks for.
pub const MIN_FETCH_SIZE: usize = 1024 * 1024;

/// The greatest number of bytes that a range request asks for.
pub const MAX_FETCH_SIZE: usize = 64 * 1024 * 1024;

/// The smaller of two numbers.
pub open spec fn min(a: int, b: int) -> int {
    if a <= b {
        a
    } else {
        b
    }
}

/// The larger of two numbers.
pub open spec fn max(a: int, b: int) -> int {
    if a >= b {
        a
    } else {
        b
    }
}

/// The number of workers to plan for: the requested one, or where none is
/// requested the available one, which is one where it is unknown.
pub open spec fn planned_workers(requested: u32, available: Option<usize>) -> nat {
    if requested != 0 {
        requested as nat
    } else {
        match available {
            Some(n) => n as nat,
            None => 1,
        }
    }
}

/// Two chunks for every worker, within the limits of a single request.
pub open spec fn fetch_size_for(chunk_size: nat, workers: nat) -> int {
    max(min((chunk_size * workers * 2) as int, MAX_FETCH_SIZE as int), MIN_FETCH_SIZE as int)
}

/// How many bytes each range request asks for. `available` is the number of
/// threads that the machine runs at once, where it is known; it counts where
/// `parallelism` is zero.
pub fn compute_fetch_size(chunk_size: u64, parallelism: u32, available: Option<usize>) -> (r: usize)
    ensures
        r == fetch_size_for(chunk_size as nat, planned_workers(parallelism, available)),
        MIN_FETCH_SIZE <= r <= MAX_FETCH_SIZE,
{
    let workers: usize = if parallelism == 0 {
        match available {
            Some(n) => n,
            None => 1,
        }
    } else {
        parallelism as usize
    };
    let limit: u128 = MAX_FETCH_SIZE as u128;
    let chunk: u128 = chunk_size as u128;
    let count: u128 = workers as u128;
    proof {
        let (c, w) = (chunk_size as int, workers as int);
        assert(0 <= c * w <= 0xffff_ffff_ffff_ffff * 0xffff_ffff_ffff_ffff) by (nonlinear_arith)
            requires
                0 <= c <= 0xffff_ffff_ffff_ffff,
                0 <= w <= 0xffff_ffff_ffff_ffff,
        ;
    }
    let target: u128 = chunk * count;
    let capped: usize = if target >= limit / 2 {
        MAX_FETCH_SIZE
    } else {
        (target * 2) as usize
    };
    if capped < MIN_FETCH_SIZE {
        MIN_FETCH_SIZE
    } else {
        capped
    }
}

/// The value of the `Range` header for the bytes `from` to `end`, both included.
pub open spec fn range_text(from: nat, end: nat) -> Seq<char> {
    "bytes="@ + decimal::text(from) + "-"@ + decimal::text(end)
}

/// A range of bytes to ask a server for; both ends are included.
#[derive(Copy, Clone, Debug, PartialEq, Eq, Structural)]
pub struct RangeRequest {
    pub from: u64,
    pub end: u64,
}

impl RangeRequest {
    /// Whether the range holds at least one byte and no more than a request may
    /// ask for.
    pub open spec fn wf(self) -> bool {
        self.from <= self.end < self.from + MAX_FETCH_SIZE
    }

    /// How many bytes the range holds.
    pub open spec fn len(self) -> nat {
        (self.end - self.from + 1) as nat
    }

    /// The request for the next `fetch_size` bytes from `from` on in a file of
    /// `size` bytes, or for those that are left.
    pub open spec fn next(from: nat, fetch_size: nat, size: nat) -> RangeRequest {
        RangeRequest {
            from: from as u64,
            end: (min((from + fetch_size) as int, size as int) - 1) as u64,
        }
    }

    /// Builds the request for the next bytes of a file.
    pub fn new(from: u64, fetch_size: usize, size: u64) -> (r: RangeRequest)
        requires
            from < size,
            0 < fetch_size <= MAX_FETCH_SIZE,
        ensures
            r == RangeRequest::next(from as nat, fetch_size as nat, size as nat),
            r.wf(),
            r.end < size,
            r.len() == min(fetch_size as int, size - from),
    {
        let end: u64 = if size - from <= fetch_size as u64 {
            size - 1
        } else {
            from + fetch_size as u64 - 1
        };
        RangeRequest { from, end }
    }

    /// How many bytes the body of the reply has to hold.
    pub fn expected_response_bytes(&self) -> (r: usize)
        requires
            self.wf(),
        ensures
            r == self.len(),
    {
        (self.end - self.from + 1) as usize
    }

    /// The value of the `Range` header that asks for this range.
    pub fn header(&self) -> (r: String)
        ensures
            r@ == range_text(self.from as nat, self.end as nat),
    {
        let mut text = String::new();
        text.append("bytes=");
        append_decimal(&mut text, self.from);
        text.append("-");
        append_decimal(&mut text, self.end);
        text
    }
}

/// How many bytes of a reply body to read at most: one more than expected, so
/// that the end of a body of the expected length is still seen.
pub fn body_limit(expected_response_bytes: usize) -> (r: u64)
    ensures
        r == min(expected_response_bytes + 1, usize::MAX as int),
{
    expected_response_bytes.saturating_add(1) as u64
}

/// What is said of a request that got no reply.
pub open spec fn request_failed_text(range: Seq<char>, from: nat, cause: Seq<char>) -> Seq<char> {
    "HTTP request failed for range "@ + range + " at position "@ + decimal::text(from) + ": "@ + cause
}

/// What is said of a reply whose body could not be read.
pub open spec fn body_failed_text(range: Seq<char>, from: nat, cause: Seq<char>) -> Seq<char> {
    "Failed to read HTTP response body for range "@ + range + " at position "@ + decimal::text(from)
        + ": "@ + cause
}

/// What is said of a reply body of the wrong length.
pub open spec fn body_length_text(range: Seq<char>, expected: nat, got: nat) -> Seq<char> {
    "HTTP body length mismatch for range "@ + range + ": expected "@ + decimal::text(expected)
        + " bytes, got "@ + decimal::text(got)
}

/// What is said of a reply that is no partial content.
pub open spec fn not_partial_text(status: nat) -> Seq<char> {
    "Expected HTTP 206 Partial Content, but got "@ + decimal::text(status)
        + ". The server might be ignoring Range headers."@
}

/// The error for a request that got no reply; `cause` says why.
pub fn request_failed(range_header: &str, position: u64, cause: &str) -> (e: ReadError)
    ensures
        e.says(ErrorKind::Other, request_failed_text(range_header@, position as nat, cause@)),
{
    let mut message = String::new();
    message.append("HTTP request failed for range ");
    message.append(range_header);
    message.append(" at position ");
    append_decimal(&mut message, position);
    message.append(": ");
    message.append(cause);
    ReadError { kind: ErrorKind::Other, message }
}

/// Accepts the status of a reply to a range request: partial content and
/// nothing else.
pub fn check_range_status(status: u16) -> (r: Result<(), ReadError>)
    ensures
        r is Ok <==> status == 206,
        r matches Err(e) ==> e.says(ErrorKind::InvalidData, not_partial_text(status as nat)),
{
    if status == 206 {
        return Ok(());
    }
    let mut message = String::new();
    message.append("Expected HTTP 206 Partial Content, but got ");
    append_decimal(&mut message, status as u64);
    message.append(". The server might be ignoring Range headers.");
    Err(ReadError { kind: ErrorKind::InvalidData, message })
}

/// Accepts the body of a reply: `body` is what was read of it, or why reading
/// failed. Only a body of exactly the expected length is handed on.
pub fn read_response_body(
    body: Result<Vec<u8>, String>,
    expected_response_bytes: usize,
    range_header: &str,
    position: u64,
) -> (r: Result<Vec<u8>, ReadError>)
    ensures
        r is Ok <==> body is Ok && body->Ok_0@.len() == expected_response_bytes,
        r matches Ok(bytes) ==> bytes@ == body->Ok_0@,
        (r is Err && body is Ok) ==> r->Err_0.says(
            ErrorKind::UnexpectedEof,
            body_length_text(
                range_header@,
                expected_response_bytes as nat,
                body->Ok_0@.len(),
            ),
        ),
        body is Err ==> r->Err_0.says(
            ErrorKind::Other,
            body_failed_text(range_header@, position as nat, body->Err_0@),
        ),
{
    match body {
        Err(cause) => {
            let mut message = String::new();
            message.append("Failed to read HTTP response body for range ");
            message.append(range_header);
            message.append(" at position ");
            append_decimal(&mut message, position);
            message.append(": ");
            message.append(cause.as_str());
            Err(ReadError { kind: ErrorKind::Other, message })
        },
        Ok(bytes) => {
            if bytes.len() == expected_response_bytes {
                return Ok(bytes);
            }
            let mut message = String::new();
            message.append("HTTP body length mismatch for range ");
            message.append(range_header);
            message.append(": expected ");
            append_decimal(&mut message, expected_response_bytes as u64);
            message.append(" bytes, got ");
            append_decimal(&mut message, bytes.len() as u64);
            Err(ReadError { kind: ErrorKind::UnexpectedEof, message })
        },
    }
}

/// More workers or larger chunks never make the requests smaller.
pub proof fn law_fetch_size_is_monotone(c1: nat, w1: nat, c2: nat, w2: nat)
    requires
        c1 <= c2,
        w1 <= w2,
    ensures
        fetch_size_for(c1, w1) <= fetch_size_for(c2, w2),
{
    assert(c1 * w1 <= c2 * w2) by (nonlinear_arith)
        requires
            c1 <= c2,
            w1 <= w2,
    ;
}

} // verus!
