//! What a handler answers, and the one error path: a page that could not be
//! rendered is answered with status 500 and the failure's description.

use vstd::prelude::*;
use vstd::string::StringExecFns;

verus! {

/// Status of an answer that carries what was asked for.
pub const STATUS_OK: u16 = 200;

/// Status of an answer to a request whose page could not be rendered.
pub const STATUS_INTERNAL_SERVER_ERROR: u16 = 500;

/// How the body of a response is to be read.
#[derive(Clone, Copy, PartialEq, Eq, Debug, Structural)]
pub enum BodyKind {
    Html,
    PlainText,
}

/// Why the render sink produced no text.
#[derive(Debug)]
pub struct RenderFailure {
    pub description: String,
}

/// A response, before it is handed to the transport.
#[derive(Debug)]
pub struct HttpResponse {
    pub status: u16,
    pub kind: BodyKind,
    pub body: String,
}

/// What stands before the failure's description in the body of a 500.
pub open spec fn failure_prefix() -> Seq<char> {
    "Failed to render template bro. Error: "@
}

/// The body that reports a render failure with this description.
pub open spec fn failure_body(description: Seq<char>) -> Seq<char> {
    failure_prefix() + description
}

/// Whether `part` stands in `text` from place `at` on.
pub open spec fn occurs_at(text: Seq<char>, part: Seq<char>, at: int) -> bool {
    &&& 0 <= at
    &&& at + part.len() <= text.len()
    &&& text.subrange(at, at + part.len()) == part
}

/// Whether `part` stands somewhere in `text`, unbroken.
pub open spec fn contains_text(text: Seq<char>, part: Seq<char>) -> bool {
    exists|at: int| occurs_at(text, part, at)
}

impl HttpResponse {
    /// Whether this is the response with this status, kind and body.
    pub open spec fn holds(self, status: u16, kind: BodyKind, body: Seq<char>) -> bool {
        &&& self.status == status
        &&& self.kind == kind
        &&& self.body@ == body
    }
}

/// Turns the outcome of a rendering into the response: rendered text is
/// answered as HTML with status 200, unchanged; a failure is answered as
/// plain text with status 500 and [`failure_body`] of its description.
pub fn render_or_error(rendered: Result<String, RenderFailure>) -> (response: HttpResponse)
    ensures
        match rendered {
            Ok(html) => response.holds(STATUS_OK, BodyKind::Html, html@),
            Err(failure) => response.holds(
                STATUS_INTERNAL_SERVER_ERROR,
                BodyKind::PlainText,
                failure_body(failure.description@),
            ),
        },
{
    match rendered {
        Ok(html) => HttpResponse { status: STATUS_OK, kind: BodyKind::Html, body: html },
        Err(failure) => {
            let mut body = "Failed to render template bro. Error: ".to_string();
            body.append(failure.description.as_str());
            HttpResponse { status: STATUS_INTERNAL_SERVER_ERROR, kind: BodyKind::PlainText, body }
        },
    }
}

/// The body of a 500 names the failure: whatever the description is, it
/// stands in the body, unbroken, behind the prefix.
pub proof fn law_failure_body_names_failure(description: Seq<char>)
    ensures
        contains_text(failure_body(description), description),
        occurs_at(failure_body(description), description, failure_prefix().len() as int),
{
    let body = failure_body(description);
    let at = failure_prefix().len() as int;
    assert(body.subrange(at, at + description.len()) =~= description);
    assert(occurs_at(body, description, at));
}

} // verus!
