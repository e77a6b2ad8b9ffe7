//! Finding out how long a remote file is and whether its server answers range
//! requests.
//!
//! The first byte is asked for. A partial reply tells the length of the whole
//! file; any other reply leads to a `HEAD` request, which only serves to say
//! what is wrong with the server.

use ureq::http::HeaderMap;
use vstd::prelude::*;

use crate::decimal;
use crate::decimal::append_decimal;
use crate::headers;
use crate::headers::{parse_content_length, parse_content_range_total};

verus! {

/// Which request of the probe was answered.
#[derive(Copy, Clone, Debug, PartialEq, Eq, Structural)]
pub enum ProbeState {
    /// The request for the first byte.
    Range,
    /// The `HEAD` request; the request for the first byte was answered with
    /// `range_status`.
    Head { range_status: u16 },
}

/// Why a server cannot be read from.
#[derive(Copy, Clone, Debug, PartialEq, Eq, Structural)]
pub enum ProbeError {
    /// A partial reply that does not tell the length of the file.
    MissingContentRange,
    /// The `HEAD` request was answered with an error status.
    HttpError { status: u16 },
    /// The reply to the `HEAD` request does not tell the length of the file.
    MissingContentLength,
    /// The server does not answer range requests with partial content.
    RangeUnsupported { range_status: u16, size: u64 },
}

/// How a probe goes on after a reply.
#[derive(Copy, Clone, Debug, PartialEq, Eq, Structural)]
pub enum ProbeStep {
    /// The server answers range requests, and the file has this many bytes.
    Found(u64),
    /// Send a `HEAD` request, and go on in the given state.
    AskHead(ProbeState),
    /// The server cannot be read from.
    Failed(ProbeError),
}

/// How the probe goes on after a reply with the given status, where `total` and
/// `length` are what its `Content-Range` and `Content-Length` tell.
pub open spec fn probe_step(
    state: ProbeState,
    status: u16,
    total: Option<u64>,
    length: Option<u64>,
) -> ProbeStep {
    match state {
        ProbeState::Range => if status == 206 {
            match total {
                Some(size) => ProbeStep::Found(size),
                None => ProbeStep::Failed(ProbeError::MissingContentRange),
            }
        } else {
            ProbeStep::AskHead(ProbeState::Head { range_status: status })
        },
        ProbeState::Head { range_status } => ProbeStep::Failed(
            if status >= 400 {
                ProbeError::HttpError { status }
            } else {
                match length {
                    Some(size) => ProbeError::RangeUnsupported { range_status, size },
                    None => ProbeError::MissingContentLength,
                }
            },
        ),
    }
}

/// Decides how the probe goes on after a reply, from what its headers tell.
pub fn decide_probe(
    state: ProbeState,
    status: u16,
    total: Option<u64>,
    length: Option<u64>,
) -> (r: ProbeStep)
    ensures
        r == probe_step(state, status, total, length),
{
    match state {
        ProbeState::Range => {
            if status != 206 {
                return ProbeStep::AskHead(ProbeState::Head { range_status: status });
            }
            match total {
                Some(size) => ProbeStep::Found(size),
                None => ProbeStep::Failed(ProbeError::MissingContentRange),
            }
        },
        ProbeState::Head { range_status } => {
            if status >= 400 {
                return ProbeStep::Failed(ProbeError::HttpError { status });
            }
            match length {
                Some(size) => ProbeStep::Failed(
                    ProbeError::RangeUnsupported { range_status, size },
                ),
                None => ProbeStep::Failed(ProbeError::MissingContentLength),
            }
        },
    }
}

/// Takes in the status and the headers of a reply to a request of the probe.
pub fn probe_size_and_range_support(
    state: ProbeState,
    status: u16,
    headers: &HeaderMap,
) -> (r: ProbeStep)
    ensures
        r == probe_step(
            state,
            status,
            headers::content_range_total_in(headers::header_contents(*headers)),
            headers::content_length_in(headers::header_contents(*headers)),
        ),
{
    decide_probe(
        state,
        status,
        parse_content_range_total(headers),
        parse_content_length(headers),
    )
}

/// A server is read from only if it answered the request for the first byte with
/// partial content that tells the length of the file.
pub proof fn law_only_partial_content_is_accepted(
    state: ProbeState,
    status: u16,
    total: Option<u64>,
    length: Option<u64>,
    size: u64,
)
    ensures
        probe_step(state, status, total, length) == ProbeStep::Found(size) <==> {
            &&& state == ProbeState::Range
            &&& status == 206
            &&& total == Some(size)
        },
{
}

/// A probe is over after the second reply at the latest.
pub proof fn law_probe_takes_two_replies(
    state: ProbeState,
    status: u16,
    total: Option<u64>,
    length: Option<u64>,
)
    ensures
        probe_step(state, status, total, length) matches ProbeStep::AskHead(next) ==> {
            &&& state == ProbeState::Range
            &&& next == (ProbeState::Head { range_status: status })
        },
{
}

/// How the `http` crate writes a status: its number and its usual name.
pub uninterp spec fn status_display(status: u16) -> Seq<char>;

/// `StatusCode::from_u16` of the `http` crate and the `Display` of its result:
/// every number from 100 to 999 is a status, and is written as its number and
/// its usual name, which are named here and not spelled out.
#[verifier::external_body]
fn display_status(status: u16) -> (r: Option<String>)
    ensures
        r is Some <==> 100 <= status <= 999,
        r matches Some(s) ==> s@ == status_display(status),
{
    ureq::http::StatusCode::from_u16(status).ok().map(|code| code.to_string())
}

/// How a status is written into a message: as the `http` crate writes it, and
/// as a bare number where it is none that a server can send.
pub open spec fn status_text(status: u16) -> Seq<char> {
    if 100 <= status <= 999 {
        status_display(status)
    } else {
        decimal::text(status as nat)
    }
}

/// Appends a status to a message.
fn append_status(out: &mut String, status: u16)
    ensures
        final(out)@ == old(out)@ + status_text(status),
{
    match display_status(status) {
        Some(written) => out.append(written.as_str()),
        None => append_decimal(out, status as u64),
    }
}

impl ProbeError {
    /// What is said of the error.
    pub open spec fn text(self) -> Seq<char> {
        match self {
            ProbeError::MissingContentRange =>
                "Server returned HTTP 206 but did not provide a valid Content-Range header"@,
            ProbeError::HttpError { status } => "HTTP error: "@ + status_text(status),
            ProbeError::MissingContentLength =>
                "Server did not return Content-Length, cannot seek/parallelize"@,
            ProbeError::RangeUnsupported { range_status, size } =>
                "Server does not support HTTP Range requests (returned status "@
                    + status_text(range_status)
                    + " to a range GET). rapidgzip requires 206 Partial Content for parallel decompression over HTTP. Reported Content-Length was "@
                    + decimal::text(size as nat) + " bytes."@,
        }
    }

    /// The message for the user.
    pub fn message(&self) -> (r: String)
        ensures
            r@ == self.text(),
    {
        let mut message = String::new();
        match self {
            ProbeError::MissingContentRange => {
                message.append(
                    "Server returned HTTP 206 but did not provide a valid Content-Range header",
                );
            },
            ProbeError::HttpError { status } => {
                message.append("HTTP error: ");
                append_status(&mut message, *status);
            },
            ProbeError::MissingContentLength => {
                message.append("Server did not return Content-Length, cannot seek/parallelize");
            },
            ProbeError::RangeUnsupported { range_status, size } => {
                message.append("Server does not support HTTP Range requests (returned status ");
                append_status(&mut message, *range_status);
                message.append(
                    " to a range GET). rapidgzip requires 206 Partial Content for parallel decompression over HTTP. Reported Content-Length was ",
                );
                append_decimal(&mut message, *size);
                message.append(" bytes.");
            },
        }
        message
    }
}

} // verus!
