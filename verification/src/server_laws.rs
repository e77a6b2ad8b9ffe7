//! What every call that plans a request to a server, or judges its reply, gives.

use ureq::http::HeaderMap;
use vstd::prelude::*;

use crate::decimal;
use crate::decimal::parse_u64;
use crate::error::{ErrorKind, ReadError};
use crate::fetch::{
    body_limit, check_range_status, compute_fetch_size, read_response_body, request_failed,
    RangeRequest,
};
use crate::headers;
use crate::headers::{parse_content_length, parse_content_range_total, range_total};
use crate::probe;
use crate::probe::{
    decide_probe, probe_size_and_range_support, ProbeError, ProbeState, ProbeStep,
};
use crate::text;

verus! {

/// A fetch asks for two chunks for every worker, but for no less than 1 MiB and no
/// more than 64 MiB. The workers are those asked for; where none are, they are
/// those of the machine, or one where that is unknown.
pub proof fn law_fetches_take_two_chunks_per_worker(
    chunk_size: u64,
    parallelism: u32,
    available: Option<usize>,
    workers: int,
    r: usize,
)
    requires
        call_ensures(compute_fetch_size, (chunk_size, parallelism, available), r),
        parallelism != 0 ==> workers == parallelism,
        parallelism == 0 && available is Some ==> workers == available->0,
        parallelism == 0 && available is None ==> workers == 1,
    ensures
        0x10_0000 <= r <= 0x400_0000,
        chunk_size * workers * 2 <= 0x10_0000 ==> r == 0x10_0000,
        chunk_size * workers * 2 >= 0x400_0000 ==> r == 0x400_0000,
        0x10_0000 <= chunk_size * workers * 2 <= 0x400_0000 ==> r == chunk_size * workers * 2,
{
}

/// A request starts where it is told to and holds as many bytes as a fetch, or as
/// are left of the file.
pub proof fn law_requests_hold_a_fetch_or_the_rest(
    from: u64,
    fetch_size: usize,
    size: u64,
    r: RangeRequest,
)
    requires
        from < size,
        0 < fetch_size <= 0x400_0000,
        call_ensures(RangeRequest::new, (from, fetch_size, size), r),
    ensures
        r.from == from,
        from <= r.end < size,
        from + fetch_size <= size ==> r.end - from + 1 == fetch_size,
        from + fetch_size > size ==> r.end + 1 == size,
{
}

/// A reply has to hold as many bytes as lie from the first to the last one of the
/// range.
pub proof fn law_replies_hold_the_range(request: &RangeRequest, r: usize)
    requires
        request.from <= request.end < request.from + 0x400_0000,
        call_ensures(RangeRequest::expected_response_bytes, (request,), r),
    ensures
        request.from + r == request.end + 1,
{
}

/// The `Range` header names the first and the last byte of the range.
pub proof fn law_range_header_names_both_ends(request: &RangeRequest, r: String)
    requires
        call_ensures(RangeRequest::header, (request,), r),
    ensures
        r@ == "bytes="@ + decimal::text(request.from as nat) + "-"@ + decimal::text(
            request.end as nat,
        ),
{
}

/// One byte more than expected is read of a body, as far as numbers go.
pub proof fn law_bodies_are_read_one_byte_further(expected: usize, r: u64)
    requires
        call_ensures(body_limit, (expected,), r),
    ensures
        expected < usize::MAX ==> r == expected + 1,
        expected == usize::MAX ==> r == expected,
{
}

/// A request without a reply is reported with its range, its position and the
/// cause.
pub proof fn law_failed_requests_are_reported(
    range_header: &str,
    position: u64,
    cause: &str,
    e: ReadError,
)
    requires
        call_ensures(request_failed, (range_header, position, cause), e),
    ensures
        e.kind == ErrorKind::Other,
        e.message@ == "HTTP request failed for range "@ + range_header@ + " at position "@
            + decimal::text(position as nat) + ": "@ + cause@,
{
}

/// Of all statuses only that of partial content is taken.
pub proof fn law_only_partial_content_is_taken(status: u16, r: Result<(), ReadError>)
    requires
        call_ensures(check_range_status, (status,), r),
    ensures
        r is Ok <==> status == 206,
        r is Err ==> {
            &&& r->Err_0.kind == ErrorKind::InvalidData
            &&& r->Err_0.message@ == "Expected HTTP 206 Partial Content, but got "@
                + decimal::text(status as nat) + ". The server might be ignoring Range headers."@
        },
{
}

/// A body is handed on unchanged exactly if it was read and has the expected
/// length.
pub proof fn law_bodies_of_the_expected_length_are_taken(
    body: Result<Vec<u8>, String>,
    expected: usize,
    range_header: &str,
    position: u64,
    r: Result<Vec<u8>, ReadError>,
)
    requires
        call_ensures(read_response_body, (body, expected, range_header, position), r),
    ensures
        body is Ok && body->Ok_0@.len() == expected ==> r is Ok && r->Ok_0@ == body->Ok_0@,
        body is Ok && body->Ok_0@.len() != expected ==> {
            &&& r is Err
            &&& r->Err_0.kind == ErrorKind::UnexpectedEof
            &&& r->Err_0.message@ == "HTTP body length mismatch for range "@ + range_header@
                + ": expected "@ + decimal::text(expected as nat) + " bytes, got "@
                + decimal::text(body->Ok_0@.len())
        },
        body is Err ==> {
            &&& r is Err
            &&& r->Err_0.kind == ErrorKind::Other
            &&& r->Err_0.message@ == "Failed to read HTTP response body for range "@
                + range_header@ + " at position "@ + decimal::text(position as nat) + ": "@
                + body->Err_0@
        },
{
}

/// Whether the bytes are those of the text, one for each character.
pub open spec fn spells(bytes: Seq<u8>, text: Seq<char>) -> bool {
    &&& bytes.len() == text.len()
    &&& forall|i: int| 0 <= i < bytes.len() ==> #[trigger] bytes[i] as char == text[i]
}

/// Whether a byte may stand in a header that is read: a visible character, a space
/// or a tab.
pub open spec fn readable(byte: u8) -> bool {
    32 <= byte <= 126 || byte == 9
}

/// Bytes that spell readable text are that text.
proof fn lemma_spelled_text(bytes: Seq<u8>, text: Seq<char>)
    requires
        spells(bytes, text),
        forall|i: int| 0 <= i < bytes.len() ==> readable(#[trigger] bytes[i]),
    ensures
        headers::visible_ascii(bytes),
        headers::ascii_text(bytes) == text,
{
    assert(headers::ascii_text(bytes) =~= text);
}

/// The length of a file is read off its `Content-Length`: a number that is written
/// there is the one that is read. Without that header, or where the header holds
/// a byte that cannot be read, there is none.
pub proof fn law_content_length_reads_back(headers: &HeaderMap, n: u64, i: int, r: Option<u64>)
    requires
        call_ensures(parse_content_length, (headers,), r),
    ensures
        ({
            let contents = headers::header_contents(*headers);
            let first = contents["content-length"@][0];
            &&& !contents.contains_key("content-length"@) ==> r is None
            &&& contents.contains_key("content-length"@) && spells(first, decimal::text(n as nat))
                ==> r == Some(n)
            &&& contents.contains_key("content-length"@) && 0 <= i < first.len() && !readable(
                first[i],
            ) ==> r is None
        }),
{
    let first = headers::header_contents(*headers)["content-length"@][0];
    let text = decimal::text(n as nat);
    decimal::law_decimal_reads_back(n);
    decimal::lemma_decimal(n as nat);
    if spells(first, text) {
        assert forall|i: int| 0 <= i < first.len() implies readable(#[trigger] first[i]) by {
            assert(decimal::is_digit(text[i]));
            assert(first[i] as char == text[i]);
        }
        lemma_spelled_text(first, text);
    }
}

/// The length of a whole file is read off the `Content-Range` of a part: a number
/// that is written there behind the last slash is the one that is read, whatever
/// readable text stands before. Without that header, or without a slash in it,
/// there is none.
pub proof fn law_content_range_reads_back(
    headers: &HeaderMap,
    range: Seq<char>,
    n: u64,
    r: Option<u64>,
)
    requires
        call_ensures(parse_content_range_total, (headers,), r),
    ensures
        ({
            let contents = headers::header_contents(*headers);
            let first = contents["content-range"@][0];
            let legible = forall|i: int|
                0 <= i < first.len() ==> readable(#[trigger] first[i]);
            &&& !contents.contains_key("content-range"@) ==> r is None
            &&& contents.contains_key("content-range"@) && !legible ==> r is None
            &&& contents.contains_key("content-range"@) && legible && spells(
                first,
                range.push('/') + decimal::text(n as nat),
            ) ==> r == Some(n)
            &&& contents.contains_key("content-range"@) && spells(first, range)
                && !range.contains('/') ==> r is None
        }),
{
    let first = headers::header_contents(*headers)["content-range"@][0];
    let whole = range.push('/') + decimal::text(n as nat);
    headers::law_range_total_reads_back(range, n);
    if forall|i: int| 0 <= i < first.len() ==> readable(#[trigger] first[i]) {
        if spells(first, whole) {
            lemma_spelled_text(first, whole);
        }
        if spells(first, range) {
            lemma_spelled_text(first, range);
            range.index_of_last_ensures('/');
        }
    } else {
        let bad = choose|i: int| 0 <= i < first.len() && !readable(#[trigger] first[i]);
        assert(!headers::visible_ascii(first)) by {
            assert(!(32 <= first[bad] < 127 || first[bad] == 9));
        }
    }
}

/// What is written into either header is read as every other number is: all of a
/// `Content-Length`, and of a `Content-Range` what stands behind its last slash.
pub proof fn law_headers_are_read_as_numbers(
    headers: &HeaderMap,
    text: &str,
    range: Seq<char>,
    parsed: Option<u64>,
    length: Option<u64>,
    total: Option<u64>,
)
    requires
        call_ensures(parse_content_length, (headers,), length),
        call_ensures(parse_content_range_total, (headers,), total),
        call_ensures(parse_u64, (text,), parsed),
    ensures
        ({
            let contents = headers::header_contents(*headers);
            let first_length = contents["content-length"@][0];
            let first_range = contents["content-range"@][0];
            &&& contents.contains_key("content-length"@) && spells(first_length, text@) && (forall|
                i: int,
            |
                0 <= i < first_length.len() ==> readable(#[trigger] first_length[i])) ==> length
                == parsed
            &&& contents.contains_key("content-range"@) && !text@.contains('/') && spells(
                first_range,
                range.push('/') + text@,
            ) && (forall|i: int|
                0 <= i < first_range.len() ==> readable(#[trigger] first_range[i])) ==> total
                == parsed
        }),
{
    let contents = headers::header_contents(*headers);
    let first_length = contents["content-length"@][0];
    let first_range = contents["content-range"@][0];
    let whole = range.push('/') + text@;
    if spells(first_length, text@) && (forall|i: int|
        0 <= i < first_length.len() ==> readable(#[trigger] first_length[i])) {
        lemma_spelled_text(first_length, text@);
    }
    if !text@.contains('/') && spells(first_range, whole) && (forall|i: int|
        0 <= i < first_range.len() ==> readable(#[trigger] first_range[i])) {
        lemma_spelled_text(first_range, whole);
        lemma_behind_last_slash(range, text@);
    }
}

/// What stands behind the last slash of a text that is made with one.
proof fn lemma_behind_last_slash(range: Seq<char>, tail: Seq<char>)
    requires
        !tail.contains('/'),
    ensures
        text::after_last(range.push('/') + tail, '/') == Some(tail),
{
    let whole = range.push('/') + tail;
    whole.index_of_last_ensures('/');
    assert(whole[range.len() as int] == '/');
    assert forall|j: int| range.len() < j < whole.len() implies whole[j] != '/' by {
        assert(tail.contains(tail[j - range.len() - 1]));
    }
    assert(whole.skip(range.len() as int + 1) =~= tail);
}

/// Only the first value of a header tells: two replies that agree on it tell the
/// same lengths.
pub proof fn law_first_values_tell(
    a: &HeaderMap,
    b: &HeaderMap,
    length_a: Option<u64>,
    length_b: Option<u64>,
    total_a: Option<u64>,
    total_b: Option<u64>,
)
    requires
        call_ensures(parse_content_length, (a,), length_a),
        call_ensures(parse_content_length, (b,), length_b),
        call_ensures(parse_content_range_total, (a,), total_a),
        call_ensures(parse_content_range_total, (b,), total_b),
    ensures
        ({
            let (x, y) = (headers::header_contents(*a), headers::header_contents(*b));
            &&& x.contains_key("content-length"@) && y.contains_key("content-length"@)
                && x["content-length"@][0] == y["content-length"@][0] ==> length_a == length_b
            &&& x.contains_key("content-range"@) && y.contains_key("content-range"@)
                && x["content-range"@][0] == y["content-range"@][0] ==> total_a == total_b
        }),
{
}

/// The number behind the last slash is what a range tells of the whole.
pub proof fn law_range_total_is_behind_the_slash(
    value: &str,
    range: Seq<char>,
    n: u64,
    r: Option<u64>,
)
    requires
        call_ensures(range_total, (value,), r),
    ensures
        value@ == range.push('/') + decimal::text(n as nat) ==> r == Some(n),
        !value@.contains('/') ==> r is None,
{
    headers::law_range_total_reads_back(range, n);
    value@.index_of_last_ensures('/');
}

/// A server is read from exactly if it answers the request for the first byte with
/// partial content that tells the length; that length is taken. Any other status
/// leads to a second request, whose reply never leads to success: it tells that
/// the server fails, that it tells no length, or that it knows no ranges.
pub proof fn law_probe_takes_partial_content_only(
    state: ProbeState,
    status: u16,
    total: Option<u64>,
    length: Option<u64>,
    r: ProbeStep,
)
    requires
        call_ensures(decide_probe, (state, status, total, length), r),
    ensures
        r is Found <==> state is Range && status == 206 && total is Some,
        r is Found ==> Some(r->Found_0) == total,
        r is AskHead <==> state is Range && status != 206,
        r is AskHead ==> r->AskHead_0 == (ProbeState::Head { range_status: status }),
        r is Failed ==> match r->Failed_0 {
            ProbeError::MissingContentRange => state is Range,
            ProbeError::HttpError { status: told } => state is Head && status >= 400 && told
                == status,
            ProbeError::MissingContentLength => state is Head && status < 400 && length is None,
            ProbeError::RangeUnsupported { range_status, size } => {
                &&& state == (ProbeState::Head { range_status })
                &&& status < 400
                &&& length == Some(size)
            },
        },
        state is Head ==> r is Failed && !(r->Failed_0 is MissingContentRange),
        state is Head && status >= 400 ==> r->Failed_0 is HttpError,
        state is Head && status < 400 && length is None ==> r->Failed_0 is MissingContentLength,
        state is Head && status < 400 && length is Some ==> r->Failed_0 is RangeUnsupported,
{
}

/// A probe decides on what the headers of the reply tell.
pub proof fn law_probe_reads_the_headers(
    state: ProbeState,
    status: u16,
    headers: &HeaderMap,
    total: Option<u64>,
    length: Option<u64>,
    r: ProbeStep,
)
    requires
        call_ensures(probe_size_and_range_support, (state, status, headers), r),
        call_ensures(parse_content_range_total, (headers,), total),
        call_ensures(parse_content_length, (headers,), length),
    ensures
        r is Found <==> state is Range && status == 206 && total is Some,
        r is Found ==> Some(r->Found_0) == total,
        r is AskHead <==> state is Range && status != 206,
        r is AskHead ==> r->AskHead_0 == (ProbeState::Head { range_status: status }),
        state is Range && status == 206 && total is None ==> r == ProbeStep::Failed(
            ProbeError::MissingContentRange,
        ),
        state is Head && status >= 400 ==> r == ProbeStep::Failed(
            ProbeError::HttpError { status },
        ),
        state is Head && status < 400 && length is None ==> r == ProbeStep::Failed(
            ProbeError::MissingContentLength,
        ),
        state is Head && status < 400 && length is Some ==> r == ProbeStep::Failed(
            ProbeError::RangeUnsupported {
                range_status: state->range_status,
                size: length->0,
            },
        ),
{
}

/// Why a server cannot be read from is told with the status and the length that it
/// gave. A status that a server can send is told as the `http` crate writes it.
pub proof fn law_probe_errors_tell_the_reply(error: &ProbeError, r: String)
    requires
        call_ensures(ProbeError::message, (error,), r),
    ensures
        match *error {
            ProbeError::MissingContentRange => r@
                == "Server returned HTTP 206 but did not provide a valid Content-Range header"@,
            ProbeError::HttpError { status } => 100 <= status <= 999 ==> r@ == "HTTP error: "@
                + probe::status_display(status),
            ProbeError::MissingContentLength => r@
                == "Server did not return Content-Length, cannot seek/parallelize"@,
            ProbeError::RangeUnsupported { range_status, size } => 100 <= range_status <= 999
                ==> r@ == "Server does not support HTTP Range requests (returned status "@
                + probe::status_display(range_status)
                + " to a range GET). rapidgzip requires 206 Partial Content for parallel decompression over HTTP. Reported Content-Length was "@
                + decimal::text(size as nat) + " bytes."@,
        },
{
}

} // verus!
