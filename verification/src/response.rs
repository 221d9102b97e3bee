//! The response formatter: a handler outcome (success body or typed error)
//! and a declared rendering mode become a wire response.  Success answers
//! with status 200 and the mode's content type; an error answers with its
//! declared status code and body, its own headers copied over first, and the
//! mode's content type appended after them.

use vstd::prelude::*;
use vstd::string::*;
use crate::error::{ErrModel, ReturnError};
use crate::strutil::pairs_view;

verus! {

/// A route's declared rendering mode: the content-type family used for both
/// success and error outcomes.
#[derive(Clone, Copy, Debug, PartialEq, Eq, Structural)]
pub enum RenderMode {
    Json,
    Text,
    Html,
}

/// A ghost model of a wire response.
pub struct RespModel {
    pub status: u16,
    pub headers: Seq<(Seq<char>, Seq<char>)>,
    pub body: Seq<char>,
}

/// A wire response: status code, headers in write order, and the body.
#[derive(Debug)]
pub struct HttpResponse {
    pub status: u16,
    pub headers: Vec<(String, String)>,
    pub body: String,
}

impl View for HttpResponse {
    type V = RespModel;

    open spec fn view(&self) -> RespModel {
        RespModel { status: self.status, headers: pairs_view(self.headers@), body: self.body@ }
    }
}

/// The content type each rendering mode declares.
pub open spec fn spec_content_type(mode: RenderMode) -> Seq<char> {
    match mode {
        RenderMode::Json => "application/json"@,
        RenderMode::Text => "text/plain"@,
        RenderMode::Html => "text/html"@,
    }
}

/// What formatting produces: success is status 200 with the mode's content
/// type as the one header; an error keeps its declared status and body and
/// its own headers, the content type appended after them.
pub open spec fn spec_format(outcome: Result<Seq<char>, ErrModel>, mode: RenderMode) -> RespModel {
    match outcome {
        Ok(body) => RespModel {
            status: 200,
            headers: seq![("Content-Type"@, spec_content_type(mode))],
            body,
        },
        Err(e) => RespModel {
            status: e.response_code,
            headers: e.headers.push(("Content-Type"@, spec_content_type(mode))),
            body: e.response_body,
        },
    }
}

/// The ghost model of an outcome: the success body's or the error's view.
pub open spec fn outcome_view(outcome: Result<String, ReturnError>) -> Result<Seq<char>, ErrModel> {
    match outcome {
        Ok(body) => Ok(body@),
        Err(e) => Err(e@),
    }
}

fn content_type_of(mode: RenderMode) -> (r: String)
    ensures
        r@ == spec_content_type(mode),
{
    match mode {
        RenderMode::Json => "application/json".to_owned(),
        RenderMode::Text => "text/plain".to_owned(),
        RenderMode::Html => "text/html".to_owned(),
    }
}

/// Turn a handler outcome and the route's rendering mode into the wire
/// response, exactly as `spec_format` states.
pub fn format_response(outcome: Result<String, ReturnError>, mode: RenderMode) -> (r: HttpResponse)
    ensures
        r@ == spec_format(outcome_view(outcome), mode),
{
    match outcome {
        Ok(body) => {
            let ghost model = spec_format(Ok(body@), mode);
            let mut headers: Vec<(String, String)> = Vec::new();
            headers.push(("Content-Type".to_owned(), content_type_of(mode)));
            let r = HttpResponse { status: 200, headers, body };
            proof {
                assert(r@.headers =~= model.headers);
            }
            r
        },
        Err(e) => {
            let ghost model = spec_format(Err(e@), mode);
            let ReturnError { response_code, response_body, headers } = e;
            let mut headers = headers;
            headers.push(("Content-Type".to_owned(), content_type_of(mode)));
            let r = HttpResponse { status: response_code, headers, body: response_body };
            proof {
                assert(r@.headers =~= model.headers);
            }
            r
        },
    }
}

/// The terminal response for a filter rejection: the error's declared
/// status, body and headers, nothing added.
pub fn rejection_response(err: ReturnError) -> (r: HttpResponse)
    ensures
        r.status == err.response_code,
        r@.headers == err@.headers,
        r@.body == err@.response_body,
{
    let ReturnError { response_code, response_body, headers } = err;
    HttpResponse { status: response_code, headers, body: response_body }
}

/// The minimal response for a request no route matches.
pub fn not_found_response() -> (r: HttpResponse)
    ensures
        r.status == 404,
        r@.headers.len() == 0,
        r@.body == "not found!"@,
{
    HttpResponse { status: 404, headers: Vec::new(), body: "not found!".to_owned() }
}

/// Law: formatting is a pure function of the outcome and the mode, so
/// formatting the same pair twice yields responses identical on the wire.
pub proof fn lemma_format_idempotent(
    outcome: Result<Seq<char>, ErrModel>,
    mode: RenderMode,
    r1: RespModel,
    r2: RespModel,
)
    requires
        r1 == spec_format(outcome, mode),
        r2 == spec_format(outcome, mode),
    ensures
        r1 == r2,
{
}

impl RenderMode {
    /// The rendering mode a declared formatter name selects; the names are
    /// `json`, `text` and `html`, and any other name selects nothing.
    pub fn from_name(name: &str) -> (r: Option<RenderMode>)
        ensures
            (name@ == "json"@ ==> r == Some(RenderMode::Json)),
            (name@ == "text"@ ==> r == Some(RenderMode::Text)),
            (name@ == "html"@ ==> r == Some(RenderMode::Html)),
            (name@ != "json"@ && name@ != "text"@ && name@ != "html"@ ==> r is None),
    {
        proof {
            reveal_strlit("json");
            reveal_strlit("text");
            reveal_strlit("html");
            assert(("json"@)[0] == 'j' && ("text"@)[0] == 't' && ("html"@)[0] == 'h');
        }
        if crate::strutil::str_eq(name, "json") {
            Some(RenderMode::Json)
        } else if crate::strutil::str_eq(name, "text") {
            Some(RenderMode::Text)
        } else if crate::strutil::str_eq(name, "html") {
            Some(RenderMode::Html)
        } else {
            None
        }
    }
}

} // verus!
