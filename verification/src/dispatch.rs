//! Routing of one request: to the static page or into the handshake.

use crate::ascii::lower;
use crate::handshake::{
    accept_key_of, bad_request, is_client_key, negotiate, negotiated, refusal, HandshakeError,
};
use crate::header::{is_first_named, lemma_first_named_is_unique, value_of};
use crate::request::{is_upgrade_request, Request, RequestView};
use crate::response::{page_response, Response, ResponseView, StaticPage, OK, SWITCHING_PROTOCOLS};
use vstd::prelude::*;
use vstd::string::StringSliceAdditionalSpecFns;

verus! {

/// Where a request went. Each variant holds the one response that is
/// written back for the request.
#[derive(Clone, Debug, PartialEq, Eq)]
pub enum Routed {
    /// A plain request, answered with the static page.
    Plain(Response),
    /// An upgrade request whose handshake succeeded. Once the response is
    /// sent the connection speaks WebSocket and a session is started on it.
    Upgrade(Response),
    /// An upgrade request whose handshake failed, with the reason. No
    /// session is started.
    Refused(HandshakeError, Response),
}

/// A route with its response by its view.
pub enum RoutedView {
    Plain(ResponseView),
    Upgrade(ResponseView),
    Refused(HandshakeError, ResponseView),
}

impl View for Routed {
    type V = RoutedView;

    open spec fn view(&self) -> RoutedView {
        match self {
            Routed::Plain(response) => RoutedView::Plain(response@),
            Routed::Upgrade(response) => RoutedView::Upgrade(response@),
            Routed::Refused(error, response) => RoutedView::Refused(*error, response@),
        }
    }
}

impl RoutedView {
    /// The response that the route holds.
    pub open spec fn response(self) -> ResponseView {
        match self {
            RoutedView::Plain(response) => response,
            RoutedView::Upgrade(response) => response,
            RoutedView::Refused(_, response) => response,
        }
    }
}

/// The route of `request` on a server whose page holds `html`.
pub open spec fn routed(html: Seq<char>, request: RequestView) -> RoutedView {
    match negotiated(request) {
        Ok(response) => RoutedView::Upgrade(response),
        Err(HandshakeError::NotAnUpgrade) => RoutedView::Plain(page_response(html)),
        Err(error) => RoutedView::Refused(error, refusal()),
    }
}

impl Routed {
    /// The response to write back.
    pub fn response(&self) -> (response: &Response)
        ensures
            response@ == self@.response(),
    {
        match self {
            Routed::Plain(response) => response,
            Routed::Upgrade(response) => response,
            Routed::Refused(_, response) => response,
        }
    }

    /// Whether a session is to be started once the response is sent.
    pub fn starts_session(&self) -> (yes: bool)
        ensures
            yes == (self@ is Upgrade),
    {
        match self {
            Routed::Upgrade(_) => true,
            _ => false,
        }
    }
}

/// Classifies one request and produces its response: the static page for a
/// plain request, the handshake's answer for an upgrade request.
pub fn dispatch(page: &StaticPage, request: &Request) -> (route: Routed)
    ensures
        route@ == routed(page@, request@),
{
    match negotiate(request) {
        Ok(response) => Routed::Upgrade(response),
        Err(HandshakeError::NotAnUpgrade) => Routed::Plain(page.respond()),
        Err(error) => Routed::Refused(error, bad_request()),
    }
}

/// Every request that is not an upgrade request is answered with status
/// 200, `Content-Type: text/html` and the page as body, whatever its method,
/// target and headers; so any two of them get the same response.
pub proof fn plain_requests_get_the_page(html: Seq<char>, first: RequestView, second: RequestView)
    requires
        !is_upgrade_request(first),
        !is_upgrade_request(second),
    ensures
        routed(html, first) == routed(html, second),
        routed(html, first) is Plain,
        routed(html, first).response().status == OK,
        value_of(routed(html, first).response().headers, "Content-Type".spec_bytes()) == Some(
            "text/html".spec_bytes(),
        ),
        routed(html, first).response().body == html,
{
    let headers = page_response(html).headers;
    let name = "Content-Type".spec_bytes();
    assert(is_first_named(headers, name, 0));
    let picked = choose|i: int| is_first_named(headers, name, i);
    lemma_first_named_is_unique(headers, name, 0, picked);
}

/// An upgrade request with a syntactically valid `Sec-WebSocket-Key` is
/// answered with status 101 and the `Sec-WebSocket-Accept` value that the
/// key determines.
pub proof fn valid_key_is_accepted(html: Seq<char>, request: RequestView, key: Seq<u8>)
    requires
        is_upgrade_request(request),
        value_of(request.headers, "Sec-WebSocket-Key".spec_bytes()) == Some(key),
        is_client_key(key),
    ensures
        routed(html, request) is Upgrade,
        routed(html, request).response().status == SWITCHING_PROTOCOLS,
        value_of(routed(html, request).response().headers, "Sec-WebSocket-Accept".spec_bytes())
            == Some(accept_key_of(key)),
{
    let headers = routed(html, request).response().headers;
    let name = "Sec-WebSocket-Accept".spec_bytes();
    reveal_strlit("Sec-WebSocket-Accept");
    reveal_strlit("Connection");
    reveal_strlit("Upgrade");
    vstd::string::is_ascii_spec_bytes("Sec-WebSocket-Accept");
    vstd::string::is_ascii_spec_bytes("Connection");
    vstd::string::is_ascii_spec_bytes("Upgrade");
    assert(lower(name).len() == 20);
    assert(lower("Connection".spec_bytes()).len() == 10);
    assert(lower("Upgrade".spec_bytes()).len() == 7);
    assert(is_first_named(headers, name, 2));
    let picked = choose|i: int| is_first_named(headers, name, i);
    lemma_first_named_is_unique(headers, name, 2, picked);
}

} // verus!
