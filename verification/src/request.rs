//! A parsed request head and the test that tells an upgrade request from a
//! plain one.

use crate::ascii::{contains_token, eq_ignore_case, has_token, same_ignoring_case};
use crate::header::{lookup, value_of, views, Header, HeaderView};
use vstd::prelude::*;
use vstd::string::StringSliceAdditionalSpecFns;

verus! {

/// The request method. Methods that the server treats alike share `Other`.
#[derive(Clone, Copy, Debug, PartialEq, Eq, Structural)]
pub enum Method {
    Get,
    Head,
    Post,
    Put,
    Delete,
    Connect,
    Options,
    Trace,
    Patch,
    Other,
}

/// The protocol version of a request, as in `HTTP/<major>.<minor>`.
#[derive(Clone, Copy, Debug, PartialEq, Eq, Structural)]
pub struct Version {
    pub major: u8,
    pub minor: u8,
}

impl Version {
    /// The version is HTTP/1.1 or a later one.
    pub open spec fn at_least_1_1(self) -> bool {
        self.major > 1 || (self.major == 1 && self.minor >= 1)
    }

    /// Whether the version is HTTP/1.1 or a later one.
    pub fn is_at_least_1_1(&self) -> (yes: bool)
        ensures
            yes == self.at_least_1_1(),
    {
        self.major > 1 || (self.major == 1 && self.minor >= 1)
    }
}

/// The head of one HTTP request: request line and header fields.
#[derive(Clone, Debug, PartialEq, Eq)]
pub struct Request {
    pub method: Method,
    pub target: String,
    pub version: Version,
    pub headers: Vec<Header>,
}

/// A request head with its target and header fields as sequences.
pub struct RequestView {
    pub method: Method,
    pub target: Seq<char>,
    pub version: Version,
    pub headers: Seq<HeaderView>,
}

impl View for Request {
    type V = RequestView;

    open spec fn view(&self) -> RequestView {
        RequestView {
            method: self.method,
            target: self.target@,
            version: self.version,
            headers: views(self.headers@),
        }
    }
}

/// The `Connection` header lists the `Upgrade` token.
pub open spec fn asks_to_switch(headers: Seq<HeaderView>) -> bool {
    match value_of(headers, "Connection".spec_bytes()) {
        Some(value) => contains_token(value, "Upgrade".spec_bytes()),
        None => false,
    }
}

/// The `Upgrade` header names the WebSocket protocol.
pub open spec fn names_websocket(headers: Seq<HeaderView>) -> bool {
    match value_of(headers, "Upgrade".spec_bytes()) {
        Some(value) => same_ignoring_case(value, "websocket".spec_bytes()),
        None => false,
    }
}

/// The request meets the preconditions of the WebSocket opening handshake:
/// method `GET`, HTTP/1.1 or later, a `Connection` header that lists
/// `Upgrade`, and `Upgrade: websocket`. Target and all other headers are
/// of no account.
pub open spec fn is_upgrade_request(request: RequestView) -> bool {
    &&& request.method == Method::Get
    &&& request.version.at_least_1_1()
    &&& asks_to_switch(request.headers)
    &&& names_websocket(request.headers)
}

impl Request {
    /// The value of the first header called `name`, if there is one.
    pub fn header(&self, name: &str) -> (found: Option<&Vec<u8>>)
        ensures
            match found {
                Some(value) => value_of(self@.headers, name.spec_bytes()) == Some(value@),
                None => value_of(self@.headers, name.spec_bytes()) is None,
            },
    {
        lookup(&self.headers, name.as_bytes())
    }

    /// Whether this is an upgrade request; every other request is a plain one.
    pub fn is_upgrade(&self) -> (yes: bool)
        ensures
            yes == is_upgrade_request(self@),
    {
        if !(self.method == Method::Get) {
            return false;
        }
        if !self.version.is_at_least_1_1() {
            return false;
        }
        let switching = match self.header("Connection") {
            Some(value) => has_token(value.as_slice(), "Upgrade".as_bytes()),
            None => false,
        };
        if !switching {
            return false;
        }
        match self.header("Upgrade") {
            Some(value) => eq_ignore_case(value.as_slice(), "websocket".as_bytes()),
            None => false,
        }
    }
}

} // verus!
