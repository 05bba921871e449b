//! Responses, and the one page that every plain request is answered with.

use crate::header::{views, Header, HeaderView};
use vstd::prelude::*;
use vstd::string::StringSliceAdditionalSpecFns;

verus! {

/// The status of the page's response.
pub const OK: u16 = 200;

/// The status of the response that completes a handshake.
pub const SWITCHING_PROTOCOLS: u16 = 101;

/// The status of the response that refuses a handshake.
pub const BAD_REQUEST: u16 = 400;

/// What is written back for one request: status, header fields, body.
#[derive(Clone, Debug, PartialEq, Eq)]
pub struct Response {
    pub status: u16,
    pub headers: Vec<Header>,
    pub body: String,
}

/// A response with its header fields and body as sequences.
pub struct ResponseView {
    pub status: u16,
    pub headers: Seq<HeaderView>,
    pub body: Seq<char>,
}

impl View for Response {
    type V = ResponseView;

    open spec fn view(&self) -> ResponseView {
        ResponseView { status: self.status, headers: views(self.headers@), body: self.body@ }
    }
}

/// The HTML document served to plain requests. It is set once, when the
/// value is made, and there is no way to change it afterwards.
#[derive(Clone, Debug, PartialEq, Eq)]
pub struct StaticPage {
    html: String,
}

impl View for StaticPage {
    type V = Seq<char>;

    closed spec fn view(&self) -> Seq<char> {
        self.html@
    }
}

/// The answer to a plain request when the page holds `html`: status 200,
/// `Content-Type: text/html` and the page as body.
pub open spec fn page_response(html: Seq<char>) -> ResponseView {
    ResponseView {
        status: OK,
        headers: seq![
            HeaderView { name: "Content-Type".spec_bytes(), value: "text/html".spec_bytes() },
        ],
        body: html,
    }
}

impl StaticPage {
    /// The page with `html` as its document.
    pub fn new(html: String) -> (page: StaticPage)
        ensures
            page@ == html@,
    {
        StaticPage { html }
    }

    /// The document.
    pub fn html(&self) -> (html: &str)
        ensures
            html@ == self@,
    {
        self.html.as_str()
    }

    /// The response to a plain request. It is the same for every request.
    pub fn respond(&self) -> (response: Response)
        ensures
            response@ == page_response(self@),
    {
        let mut headers: Vec<Header> = Vec::new();
        headers.push(Header::new("Content-Type", "text/html"));
        let response = Response { status: OK, headers, body: self.html.clone() };
        assert(response@.headers =~= page_response(self@).headers);
        response
    }
}

} // verus!
