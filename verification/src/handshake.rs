//! The server's side of the WebSocket opening handshake.

use crate::header::{value_of, Header, HeaderView};
use crate::request::{is_upgrade_request, Request, RequestView};
use crate::response::{Response, ResponseView, BAD_REQUEST, SWITCHING_PROTOCOLS};
use vstd::prelude::*;
use vstd::string::StringSliceAdditionalSpecFns;

verus! {

/// Why a request cannot be taken through the handshake.
#[derive(Clone, Copy, Debug, PartialEq, Eq, Structural)]
pub enum HandshakeError {
    /// The request is a plain one: it does not ask for the WebSocket protocol.
    NotAnUpgrade,
    /// There is no `Sec-WebSocket-Key` header.
    MissingKey,
    /// The `Sec-WebSocket-Key` header is not the base64 form of 16 bytes.
    MalformedKey,
}

/// A byte of the base64 alphabet: `A`..=`Z`, `a`..=`z`, `0`..=`9`, `+` (0x2b)
/// or `/` (0x2f).
pub open spec fn is_base64_byte(b: u8) -> bool {
    ||| 0x41 <= b <= 0x5a
    ||| 0x61 <= b <= 0x7a
    ||| 0x30 <= b <= 0x39
    ||| b == 0x2b
    ||| b == 0x2f
}

/// A base64 byte that stands for a number whose low four bits are zero: `A`,
/// `Q`, `g` or `w`. The last byte before the padding of an encoded 16-byte
/// value is one of these.
pub open spec fn is_final_base64_byte(b: u8) -> bool {
    b == 0x41 || b == 0x51 || b == 0x67 || b == 0x77
}

/// `key` is a syntactically valid client key: the base64 form of a 16-byte
/// value, which is 21 bytes of the alphabet, one of `A`, `Q`, `g`, `w`, and
/// the padding `==` (0x3d twice).
pub open spec fn is_client_key(key: Seq<u8>) -> bool {
    &&& key.len() == 24
    &&& forall|i: int| 0 <= i < 21 ==> is_base64_byte(#[trigger] key[i])
    &&& is_final_base64_byte(key[21])
    &&& key[22] == 0x3d
    &&& key[23] == 0x3d
}

/// The value of `Sec-WebSocket-Accept` that answers the client key `key`:
/// the base64 form of the SHA-1 digest of the key followed by the
/// protocol's fixed GUID.
pub uninterp spec fn accept_key_of(key: Seq<u8>) -> Seq<u8>;

/// Calls `tungstenite::handshake::derive_accept_key`, which hashes the key
/// and the protocol's GUID with SHA-1 and encodes the digest in base64. The
/// contract only names that result; that the same key always gives the same
/// accept value is all that is taken on trust.
#[verifier::external_body]
fn derive_accept(key: &[u8]) -> (accept: Vec<u8>)
    ensures
        accept@ == accept_key_of(key@),
{
    tokio_tungstenite::tungstenite::handshake::derive_accept_key(key).into_bytes()
}

/// The response that completes the handshake with the accept value `accept`.
pub open spec fn switching_response(accept: Seq<u8>) -> ResponseView {
    ResponseView {
        status: SWITCHING_PROTOCOLS,
        headers: seq![
            HeaderView { name: "Connection".spec_bytes(), value: "Upgrade".spec_bytes() },
            HeaderView { name: "Upgrade".spec_bytes(), value: "websocket".spec_bytes() },
            HeaderView { name: "Sec-WebSocket-Accept".spec_bytes(), value: accept },
        ],
        body: Seq::empty(),
    }
}

/// The response to an upgrade request whose handshake fails: status 400
/// and `Connection: close`, so that the connection ends with it.
pub open spec fn refusal() -> ResponseView {
    ResponseView {
        status: BAD_REQUEST,
        headers: seq![HeaderView { name: "Connection".spec_bytes(), value: "close".spec_bytes() }],
        body: Seq::empty(),
    }
}

/// What the handshake comes to for `request`.
pub open spec fn negotiated(request: RequestView) -> Result<ResponseView, HandshakeError> {
    if !is_upgrade_request(request) {
        Err(HandshakeError::NotAnUpgrade)
    } else {
        match value_of(request.headers, "Sec-WebSocket-Key".spec_bytes()) {
            None => Err(HandshakeError::MissingKey),
            Some(key) => if is_client_key(key) {
                Ok(switching_response(accept_key_of(key)))
            } else {
                Err(HandshakeError::MalformedKey)
            },
        }
    }
}

fn in_alphabet(b: u8) -> (yes: bool)
    ensures
        yes == is_base64_byte(b),
{
    (0x41 <= b && b <= 0x5a) || (0x61 <= b && b <= 0x7a) || (0x30 <= b && b <= 0x39) || b == 0x2b
        || b == 0x2f
}

/// Checks the syntax of a client key.
pub fn valid_client_key(key: &[u8]) -> (valid: bool)
    ensures
        valid == is_client_key(key@),
{
    if key.len() != 24 {
        return false;
    }
    let mut i: usize = 0;
    while i < 21
        invariant
            i <= 21,
            key@.len() == 24,
            forall|k: int| 0 <= k < i ==> is_base64_byte(#[trigger] key@[k]),
        decreases 21 - i,
    {
        if !in_alphabet(key[i]) {
            return false;
        }
        i += 1;
    }
    let last = key[21];
    (last == 0x41 || last == 0x51 || last == 0x67 || last == 0x77) && key[22] == 0x3d && key[23]
        == 0x3d
}

/// Builds the `101 Switching Protocols` response around an accept value.
pub fn switching_protocols(accept: Vec<u8>) -> (response: Response)
    ensures
        response@ == switching_response(accept@),
{
    let mut headers: Vec<Header> = Vec::new();
    headers.push(Header::new("Connection", "Upgrade"));
    headers.push(Header::new("Upgrade", "websocket"));
    headers.push(Header::with_value("Sec-WebSocket-Accept", accept));
    let response = Response { status: SWITCHING_PROTOCOLS, headers, body: String::new() };
    assert(response@.headers =~= switching_response(accept@).headers);
    response
}

/// Builds the `400 Bad Request` response that refuses a handshake.
pub fn bad_request() -> (response: Response)
    ensures
        response@ == refusal(),
{
    let mut headers: Vec<Header> = Vec::new();
    headers.push(Header::new("Connection", "close"));
    let response = Response { status: BAD_REQUEST, headers, body: String::new() };
    assert(response@.headers =~= refusal().headers);
    response
}

/// Validates an upgrade request and answers it. The response is owed
/// exactly when the request is an upgrade request that carries a valid
/// `Sec-WebSocket-Key`; it then carries the accept value derived from
/// that key. Every other request gets the error that says what is
/// wrong with it, and no session may be started for it.
pub fn negotiate(request: &Request) -> (outcome: Result<Response, HandshakeError>)
    ensures
        match outcome {
            Ok(response) => negotiated(request@) == Ok::<ResponseView, HandshakeError>(response@),
            Err(error) => negotiated(request@) == Err::<ResponseView, HandshakeError>(error),
        },
{
    if !request.is_upgrade() {
        return Err(HandshakeError::NotAnUpgrade);
    }
    match request.header("Sec-WebSocket-Key") {
        None => Err(HandshakeError::MissingKey),
        Some(key) => {
            if valid_client_key(key.as_slice()) {
                Ok(switching_protocols(derive_accept(key.as_slice())))
            } else {
                Err(HandshakeError::MalformedKey)
            }
        },
    }
}

} // verus!
