//! The request-level protocol: authentication, boundary detection, and
//! the per-request field loop.
//!
//! A request passes through authentication, extraction of the multipart
//! boundary from the `Content-Type` header, a mandatory first field, any
//! number of further fields, and the final response. The driver performs
//! the HTTP and multipart work and consults this module at every
//! decision; [`RequestFlow`] keeps the tally and knows, per phase, which
//! failures are terminal and which fields are merely skipped.

use vstd::prelude::*;
use vstd::string::StringExecFns;
use crate::outcome::{Tally, UploadOutcome, spec_record, tallied};
use crate::respond::{Response, render, response_message, response_status};

verus! {

/// The greeting served at the root path as a liveness probe.
pub fn greeting() -> (s: String)
    ensures
        s@ == "Hello, World!"@,
{
    String::from_str("Hello, World!")
}

/// The remote drive and parent-folder identifiers are configured only
/// when neither is left at its `"null"` placeholder.
pub fn ids_configured(drive_id: &String, parent_id: &String) -> (r: bool)
    ensures
        r <==> !(drive_id@ == "null"@ || parent_id@ == "null"@),
{
    let null_text = String::from_str("null");
    !(drive_id.eq(&null_text) || parent_id.eq(&null_text))
}

/// The token a request is judged by: the query parameter when present,
/// the stand-in text `"Null"` when absent.
pub open spec fn effective_token(provided: Option<String>) -> Seq<char> {
    match provided {
        Some(t) => t@,
        None => "Null"@,
    }
}

/// Judge a request's token against the configured one. `None` admits the
/// request; otherwise the unauthorized response to return at once.
pub fn check_auth(provided: &Option<String>, expected: &String) -> (r: Option<Response>)
    ensures
        r is None <==> effective_token(*provided) == expected@,
        r is Some ==> r.unwrap().status == 401 && r.unwrap().message@ == "Authentication failed"@,
{
    let authorized: bool = match provided {
        Some(t) => t.eq(expected),
        None => {
            let stand_in = String::from_str("Null");
            stand_in.eq(expected)
        },
    };
    if authorized {
        None
    } else {
        Some(Response { status: 401, message: String::from_str("Authentication failed") })
    }
}

/// The `Content-Type` header of a request, as the driver found it.
pub enum ContentTypeHeader {
    /// No `Content-Type` header was present.
    Missing,
    /// The header was present but its bytes are not text.
    Unreadable,
    /// The header's text.
    Value(String),
}

/// The multipart boundary that the `Content-Type` header text yields, if
/// any.
pub uninterp spec fn boundary_of(content_type: Seq<char>) -> Option<Seq<char>>;

/// Relies on multer::parse_boundary: whether a `Content-Type` header text
/// names a multipart boundary, and which, is a function of the text
/// alone.
#[verifier::external_body]
fn parse_boundary_text(content_type: &String) -> (r: Option<String>)
    ensures
        r is Some <==> boundary_of(content_type@) is Some,
        r is Some ==> r.unwrap()@ == boundary_of(content_type@).unwrap(),
{
    multer::parse_boundary(content_type.as_str()).ok()
}

/// Extract the multipart boundary from the `Content-Type` header, or the
/// terminal bad-request response: one for a missing header, one for a
/// header that is not text, and one for header text without a boundary.
pub fn detect_boundary(header: ContentTypeHeader) -> (r: Result<String, Response>)
    ensures
        header is Missing ==> r is Err && r.unwrap_err().status == 400
            && r.unwrap_err().message@ == "Header \"Content-Type\" not found."@,
        header is Unreadable ==> r is Err && r.unwrap_err().status == 400
            && r.unwrap_err().message@ == "Header \"Content-Type\" not convertible to string."@,
        header matches ContentTypeHeader::Value(ct) ==> {
            &&& boundary_of(ct@) is Some ==> r is Ok && r.unwrap()@ == boundary_of(ct@).unwrap()
            &&& boundary_of(ct@) is None ==> r is Err && r.unwrap_err().status == 400
                && r.unwrap_err().message@
                == "Could not extract the boundary from header \"Content-Type\""@
        },
{
    match header {
        ContentTypeHeader::Missing => Err(
            Response {
                status: 400,
                message: String::from_str("Header \"Content-Type\" not found."),
            },
        ),
        ContentTypeHeader::Unreadable => Err(
            Response {
                status: 400,
                message: String::from_str("Header \"Content-Type\" not convertible to string."),
            },
        ),
        ContentTypeHeader::Value(ct) => match parse_boundary_text(&ct) {
            Some(b) => Ok(b),
            None => Err(
                Response {
                    status: 400,
                    message: String::from_str(
                        "Could not extract the boundary from header \"Content-Type\"",
                    ),
                },
            ),
        },
    }
}

/// Which field the request loop is at.
#[derive(Clone, Copy, PartialEq, Eq, Structural, Debug)]
pub enum Phase {
    /// The mandatory first field has not been seen yet.
    FirstField,
    /// The first field was processed; further fields are optional.
    MoreFields,
}

/// The per-request state of the field loop: the phase and the tally of
/// the outcomes counted so far.
pub struct RequestFlow {
    pub phase: Phase,
    pub tally: Tally,
}

impl RequestFlow {
    /// The flow at the start of a request: before the first field, with
    /// nothing counted.
    pub fn new() -> (f: RequestFlow)
        ensures
            f.phase == Phase::FirstField,
            f.tally == (Tally { success: 0u64, partial: 0u64, total: 0u64 }),
    {
        RequestFlow { phase: Phase::FirstField, tally: Tally::new() }
    }

    /// The response when the multipart stream ends. Before the first
    /// field that is a bad request — a first field is mandatory; after
    /// it, the tally is rendered.
    pub fn on_stream_end(&self) -> (r: Response)
        ensures
            self.phase == Phase::FirstField ==> r.status == 400 && r.message@
                == "Failed to read field"@,
            self.phase == Phase::MoreFields ==> r.status == response_status(self.tally)
                && r.message@ == response_message(self.tally),
    {
        match self.phase {
            Phase::FirstField => Response {
                status: 400,
                message: String::from_str("Failed to read field"),
            },
            Phase::MoreFields => render(&self.tally),
        }
    }

    /// The response when reading the next part of the multipart stream
    /// fails: a read error is terminal for the whole request, in every
    /// phase.
    pub fn on_read_error(&self) -> (r: Response)
        ensures
            r.status == 400,
            r.message@ == "Could not extract field in body"@,
    {
        Response { status: 400, message: String::from_str("Could not extract field in body") }
    }

    /// What a parse failure of one field means. On the mandatory first
    /// field it is terminal and the returned response ends the request;
    /// on a later field it returns `None` — the field is skipped and the
    /// request goes on.
    pub fn on_field_parse_error(&self) -> (r: Option<Response>)
        ensures
            self.phase == Phase::FirstField ==> r is Some && r.unwrap().status == 500
                && r.unwrap().message@ == "Failed to parse fields, no files uploaded!"@,
            self.phase == Phase::MoreFields ==> r is None,
    {
        match self.phase {
            Phase::FirstField => Some(
                Response {
                    status: 500,
                    message: String::from_str("Failed to parse fields, no files uploaded!"),
                },
            ),
            Phase::MoreFields => None,
        }
    }

    /// Whether one more outcome can be counted without overflowing a
    /// bucket.
    pub fn can_record(&self) -> (r: bool)
        ensures
            r <==> tallied(self.tally) < u64::MAX,
    {
        (self.tally.success as u128) + (self.tally.partial as u128) + (self.tally.total as u128)
            < (u64::MAX as u128)
    }

    /// Count the outcome of one written field; the first field's outcome
    /// moves the flow past the mandatory-field phase.
    pub fn on_field_outcome(&mut self, o: UploadOutcome)
        requires
            tallied(old(self).tally) < u64::MAX,
        ensures
            final(self).tally == spec_record(old(self).tally, o),
            final(self).phase == Phase::MoreFields,
    {
        self.tally.record(o);
        self.phase = Phase::MoreFields;
    }
}

} // verus!
