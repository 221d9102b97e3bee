//! The typed error a filter or a route handler returns to reject or fail a
//! request: a status code, an already-rendered body, and extra headers to
//! merge into the response.

use vstd::prelude::*;

verus! {

/// A ghost model of a typed error: its status code, body text and headers.
pub struct ErrModel {
    pub response_code: u16,
    pub response_body: Seq<char>,
    pub headers: Seq<(Seq<char>, Seq<char>)>,
}

/// A typed error carried back through the pipeline.  The body is the
/// rendered display text; the headers are merged into the terminal response.
#[derive(Clone, Debug)]
pub struct ReturnError {
    pub response_code: u16,
    pub response_body: String,
    pub headers: Vec<(String, String)>,
}

impl View for ReturnError {
    type V = ErrModel;

    open spec fn view(&self) -> ErrModel {
        ErrModel {
            response_code: self.response_code,
            response_body: self.response_body@,
            headers: crate::strutil::pairs_view(self.headers@),
        }
    }
}

impl ReturnError {
    /// A fresh error with the given status code and body and no headers.
    pub fn new(response_code: u16, response_body: String) -> (r: Self)
        ensures
            r.response_code == response_code,
            r.response_body == response_body,
            r.headers@.len() == 0,
    {
        ReturnError { response_code, response_body, headers: Vec::new() }
    }
}

} // verus!
