//! The headers of a reply that tell the length of a file.

use ureq::http::header::ToStrError;
use ureq::http::{HeaderMap, HeaderValue};
use vstd::prelude::*;

use crate::decimal;
use crate::decimal::parse_u64;
use crate::text;
use crate::text::text_after_last;

verus! {

/// The multimap of headers of the `http` crate, as `ureq` exports it.
#[verifier::external_type_specification]
#[verifier::external_body]
#[verifier::reject_recursive_types(T)]
pub struct ExHeaderMap<T>(ureq::http::HeaderMap<T>);

/// The value of one header.
#[verifier::external_type_specification]
#[verifier::external_body]
pub struct ExHeaderValue(ureq::http::HeaderValue);

/// The error of a header value that is no visible ASCII.
#[verifier::external_type_specification]
#[verifier::external_body]
pub struct ExToStrError(ureq::http::header::ToStrError);

/// What a header map holds: for each header name, in lower case, the bytes of
/// its values in the order in which they came.
pub uninterp spec fn header_contents(headers: HeaderMap) -> Map<Seq<char>, Seq<Seq<u8>>>;

/// The bytes that a header value holds.
pub uninterp spec fn header_bytes(value: HeaderValue) -> Seq<u8>;

/// Whether `bytes` are visible ASCII, space and tab included.
pub open spec fn visible_ascii(bytes: Seq<u8>) -> bool {
    forall|i: int| 0 <= i < bytes.len() ==> (32 <= #[trigger] bytes[i] < 127 || bytes[i] == 9)
}

/// The text that ASCII bytes stand for.
pub open spec fn ascii_text(bytes: Seq<u8>) -> Seq<char> {
    Seq::new(bytes.len(), |i: int| bytes[i] as char)
}

/// Whether a header name is written without capitals.
pub open spec fn is_lower_case(name: Seq<char>) -> bool {
    forall|i: int| 0 <= i < name.len() ==> !('A' <= #[trigger] name[i] <= 'Z')
}

/// The text of the first header of a name, if there is one and it is visible
/// ASCII.
pub open spec fn header_text_in(
    contents: Map<Seq<char>, Seq<Seq<u8>>>,
    name: Seq<char>,
) -> Option<Seq<char>> {
    if contents.contains_key(name) && visible_ascii(contents[name][0]) {
        Some(ascii_text(contents[name][0]))
    } else {
        None
    }
}

/// The length that a `Content-Length` header tells.
pub open spec fn content_length_in(contents: Map<Seq<char>, Seq<Seq<u8>>>) -> Option<u64> {
    match header_text_in(contents, "content-length"@) {
        Some(value) => decimal::u64_of_text(value),
        None => None,
    }
}

/// The length of the whole file that the value of a `Content-Range` header tells:
/// the number behind its last slash.
pub open spec fn range_total_in(value: Seq<char>) -> Option<u64> {
    match text::after_last(value, '/') {
        Some(total) => decimal::u64_of_text(total),
        None => None,
    }
}

/// The length of the whole file that a `Content-Range` header tells.
pub open spec fn content_range_total_in(contents: Map<Seq<char>, Seq<Seq<u8>>>) -> Option<u64> {
    match header_text_in(contents, "content-range"@) {
        Some(value) => range_total_in(value),
        None => None,
    }
}

/// `HeaderMap::get` of the `http` crate: the first value of the header of the
/// given name, `None` where there is none. Names are held in lower case, so that
/// a name written so is found as it stands.
#[verifier::external_body]
fn first_value<'a>(headers: &'a HeaderMap, name: &str) -> (r: Option<&'a HeaderValue>)
    requires
        is_lower_case(name@),
    ensures
        r is Some <==> header_contents(*headers).contains_key(name@),
        r matches Some(value) ==> {
            &&& header_contents(*headers)[name@].len() > 0
            &&& header_bytes(*value) == header_contents(*headers)[name@][0]
        },
{
    headers.get(name)
}

/// `HeaderValue::to_str` of the `http` crate: the value as text where all of its
/// bytes are visible ASCII, space or tab, and an error otherwise.
pub assume_specification[ HeaderValue::to_str ](value: &HeaderValue) -> (r: Result<&str, ToStrError>)
    ensures
        r is Ok <==> visible_ascii(header_bytes(*value)),
        r matches Ok(s) ==> s@ == ascii_text(header_bytes(*value)),
;

/// The text of the first header of a name.
fn header_text<'a>(headers: &'a HeaderMap, name: &str) -> (r: Option<&'a str>)
    requires
        is_lower_case(name@),
    ensures
        r is Some <==> header_text_in(header_contents(*headers), name@) is Some,
        r matches Some(s) ==> Some(s@) == header_text_in(header_contents(*headers), name@),
{
    match first_value(headers, name) {
        Some(value) => match value.to_str() {
            Ok(s) => Some(s),
            Err(_) => None,
        },
        None => None,
    }
}

/// The length of the file that the reply tells in its `Content-Length`.
pub fn parse_content_length(headers: &HeaderMap) -> (r: Option<u64>)
    ensures
        r == content_length_in(header_contents(*headers)),
{
    proof {
        reveal_strlit("content-length");
    }
    match header_text(headers, "content-length") {
        Some(value) => parse_u64(value),
        None => None,
    }
}

/// The length of the whole file that a partial reply tells in its
/// `Content-Range`.
pub fn parse_content_range_total(headers: &HeaderMap) -> (r: Option<u64>)
    ensures
        r == content_range_total_in(header_contents(*headers)),
{
    proof {
        reveal_strlit("content-range");
    }
    match header_text(headers, "content-range") {
        Some(value) => range_total(value),
        None => None,
    }
}

/// The length of the whole file that the value of a `Content-Range` header tells.
pub fn range_total(value: &str) -> (r: Option<u64>)
    ensures
        r == range_total_in(value@),
{
    match text_after_last(value, '/') {
        Some(total) => parse_u64(total),
        None => None,
    }
}

/// A length that is written behind a slash is the length that is read, whatever
/// stands before the slash.
pub proof fn law_range_total_reads_back(range: Seq<char>, total: u64)
    ensures
        range_total_in(range.push('/') + decimal::text(total as nat)) == Some(total),
{
    let number = decimal::text(total as nat);
    let value = range.push('/') + number;
    decimal::law_decimal_reads_back(total);
    decimal::lemma_decimal(total as nat);
    value.index_of_last_ensures('/');
    assert(value[range.len() as int] == '/');
    assert forall|j: int| range.len() < j < value.len() implies value[j] != '/' by {
        assert(decimal::is_digit(number[j - range.len() - 1]));
    }
    assert(value.skip(range.len() as int + 1) =~= number);
}

} // verus!
