//! The negotiator: it checks that a request asks for a WebSocket upgrade,
//! keeps what the answer needs, and writes the answer.

use crate::accept::{accept_key, sign, MAX_KEY_LEN};
use crate::channel::PendingSocket;
use crate::headers::{
    first_header, first_value, header_contains, header_eq, header_holds, header_is,
    header_values, is_header_value, lemma_handshake_names, new_headers, no_headers, set_header,
    take_header, CONNECTION, SEC_WEBSOCKET_ACCEPT, SEC_WEBSOCKET_KEY, SEC_WEBSOCKET_PROTOCOL,
    SEC_WEBSOCKET_VERSION, UPGRADE,
};
use crate::protocol::{
    candidate_bytes, first_offered, is_text, is_visible_text, lemma_first_offered,
    lemma_offered_is_text, select_protocol,
};
use crate::rejection::WebSocketUpgradeRejection;
use vstd::prelude::*;
use vstd::string::StringSliceAdditionalSpecFns;

verus! {

/// The limits that the frame codec is to keep on the channel.
#[derive(Clone, Copy, Debug, PartialEq, Eq)]
pub struct WebSocketConfig {
    /// How many messages may wait to be sent; `None` sets no bound.
    pub max_send_queue: Option<usize>,
    /// The largest message, in bytes, that is accepted.
    pub max_message_size: usize,
    /// The largest single frame, in bytes, that is accepted.
    pub max_frame_size: usize,
    /// Whether frames that a client sent without a mask are accepted.
    pub accept_unmasked_frames: bool,
}

impl WebSocketConfig {
    /// The configuration that a negotiator starts with: no bound on the
    /// send queue, messages of up to 64 MiB, frames of up to 16 MiB, and
    /// unmasked frames turned down.
    pub open spec fn spec_default() -> Self {
        WebSocketConfig {
            max_send_queue: None,
            max_message_size: 0x400_0000,
            max_frame_size: 0x100_0000,
            accept_unmasked_frames: false,
        }
    }
}

impl Default for WebSocketConfig {
    fn default() -> (config: Self)
        ensures
            config == WebSocketConfig::spec_default(),
    {
        WebSocketConfig {
            max_send_queue: None,
            max_message_size: 0x400_0000,
            max_frame_size: 0x100_0000,
            accept_unmasked_frames: false,
        }
    }
}

/// What the HTTP layer read of a request: its method, its headers, and the
/// handle on which the connection is handed over once the response is out.
#[derive(Debug)]
pub struct RequestParts<H> {
    /// The request method, as it stood on the request line.
    pub method: String,
    /// The request headers.
    pub headers: http::header::HeaderMap,
    /// The handle for the connection handoff, if the request came over a
    /// connection that can be upgraded.
    pub on_upgrade: Option<H>,
}

/// The first of the five checks that a request fails, in the order in which
/// they are made; `None` for a request that passes them all.
pub open spec fn rejection_of(method: Seq<char>, values: Map<Seq<char>, Seq<Seq<u8>>>) -> Option<
    WebSocketUpgradeRejection,
> {
    if method != "GET"@ {
        Some(WebSocketUpgradeRejection::MethodNotGet)
    } else if !header_holds(values, CONNECTION@, "upgrade".spec_bytes()) {
        Some(WebSocketUpgradeRejection::InvalidConnectionHeader)
    } else if !header_is(values, UPGRADE@, "websocket".spec_bytes()) {
        Some(WebSocketUpgradeRejection::InvalidUpgradeHeader)
    } else if !header_is(values, SEC_WEBSOCKET_VERSION@, "13".spec_bytes()) {
        Some(WebSocketUpgradeRejection::InvalidWebSocketVersionHeader)
    } else if !values.contains_key(SEC_WEBSOCKET_KEY@) {
        Some(WebSocketUpgradeRejection::WebSocketKeyHeaderMissing)
    } else {
        None
    }
}

/// A request whose method is `POST` is turned down for its method,
/// whatever its headers say.
pub proof fn post_is_turned_down(values: Map<Seq<char>, Seq<Seq<u8>>>)
    ensures
        rejection_of("POST"@, values) == Some(WebSocketUpgradeRejection::MethodNotGet),
{
    reveal_strlit("POST");
    reveal_strlit("GET");
    assert("POST"@.len() != "GET"@.len());
}

/// A request without a `Sec-WebSocket-Version` of `13` is always turned
/// down, whatever else it holds. The checks are made in order, so the
/// reason given is the version exactly when the method and the two headers
/// checked before it are in order.
pub proof fn wrong_version_is_turned_down(method: Seq<char>, values: Map<Seq<char>, Seq<Seq<u8>>>)
    requires
        !header_is(values, SEC_WEBSOCKET_VERSION@, "13".spec_bytes()),
    ensures
        rejection_of(method, values) is Some,
        rejection_of(method, values) == Some(
            WebSocketUpgradeRejection::InvalidWebSocketVersionHeader,
        ) <==> {
            &&& method == "GET"@
            &&& header_holds(values, CONNECTION@, "upgrade".spec_bytes())
            &&& header_is(values, UPGRADE@, "websocket".spec_bytes())
        },
{
}

impl<H> RequestParts<H> {
    /// Makes the five checks of an upgrade request and names the first that
    /// fails.
    pub fn rejection(&self) -> (verdict: Option<WebSocketUpgradeRejection>)
        ensures
            verdict == rejection_of(self.method@, header_values(self.headers)),
    {
        proof {
            lemma_handshake_names();
        }
        let get = "GET".to_owned();
        if !(self.method == get) {
            return Some(WebSocketUpgradeRejection::MethodNotGet);
        }
        if !header_contains(&self.headers, CONNECTION, "upgrade") {
            return Some(WebSocketUpgradeRejection::InvalidConnectionHeader);
        }
        if !header_eq(&self.headers, UPGRADE, "websocket") {
            return Some(WebSocketUpgradeRejection::InvalidUpgradeHeader);
        }
        if !header_eq(&self.headers, SEC_WEBSOCKET_VERSION, "13") {
            return Some(WebSocketUpgradeRejection::InvalidWebSocketVersionHeader);
        }
        if first_header(&self.headers, SEC_WEBSOCKET_KEY).is_none() {
            return Some(WebSocketUpgradeRejection::WebSocketKeyHeaderMissing);
        }
        None
    }
}

/// An option of bytes as a value of specifications.
pub open spec fn bytes_of(bytes: Option<Vec<u8>>) -> Option<Seq<u8>> {
    match bytes {
        Some(held) => Some(held@),
        None => None,
    }
}

/// A request that passes the checks can also be captured: its handoff handle
/// is there, and its key is short enough to be signed.
pub open spec fn can_be_captured<H>(req: RequestParts<H>) -> bool {
    &&& req.on_upgrade is Some
    &&& first_value(header_values(req.headers), SEC_WEBSOCKET_KEY@) matches Some(key) ==> key.len()
        <= MAX_KEY_LEN
}

/// A negotiator: a request that passed the checks, on its way to an answer.
#[derive(Debug)]
pub struct WebSocketUpgrade<H> {
    config: WebSocketConfig,
    /// The subprotocol chosen for the response, if any.
    protocol: Option<Vec<u8>>,
    sec_websocket_key: Vec<u8>,
    on_upgrade: H,
    sec_websocket_protocol: Option<Vec<u8>>,
}

/// What a negotiator holds.
pub struct UpgradeView<H> {
    /// The limits for the codec.
    pub config: WebSocketConfig,
    /// The subprotocol chosen so far.
    pub protocol: Option<Seq<u8>>,
    /// The client's `Sec-WebSocket-Key`, as it came.
    pub key: Seq<u8>,
    /// The handle for the connection handoff.
    pub on_upgrade: H,
    /// The client's `Sec-WebSocket-Protocol`, as it came.
    pub offered: Option<Seq<u8>>,
}

impl<H> View for WebSocketUpgrade<H> {
    type V = UpgradeView<H>;

    closed spec fn view(&self) -> UpgradeView<H> {
        UpgradeView {
            config: self.config,
            protocol: bytes_of(self.protocol),
            key: self.sec_websocket_key@,
            on_upgrade: self.on_upgrade,
            offered: bytes_of(self.sec_websocket_protocol),
        }
    }
}

/// What a negotiation over `candidates` chooses: where the client sent a
/// list that can be read as text, the first candidate that the list
/// offers, if it offers any; nothing where it sent no list, or one that
/// cannot be read.
pub open spec fn negotiated(candidates: Seq<Seq<u8>>, offered: Option<Seq<u8>>) -> Option<Seq<u8>> {
    match offered {
        Some(text) => if is_text(text) {
            first_offered(candidates, text)
        } else {
            None
        },
        None => None,
    }
}

/// What `from_request` owes for a request that stood as `before` and
/// stands as `after`.
pub open spec fn answers<H>(
    before: RequestParts<H>,
    after: RequestParts<H>,
    res: Result<WebSocketUpgrade<H>, WebSocketUpgradeRejection>,
) -> bool {
    match res {
        Ok(upgrade) => {
            &&& rejection_of(before.method@, header_values(before.headers)) is None
            &&& upgrade@.config == WebSocketConfig::spec_default()
            &&& upgrade@.protocol is None
            &&& Some(upgrade@.key) == first_value(header_values(before.headers), SEC_WEBSOCKET_KEY@)
            &&& Some(upgrade@.on_upgrade) == before.on_upgrade
            &&& upgrade@.offered == first_value(
                header_values(before.headers),
                SEC_WEBSOCKET_PROTOCOL@,
            )
            &&& header_values(after.headers) == header_values(before.headers).remove(
                SEC_WEBSOCKET_KEY@,
            )
            &&& after.on_upgrade is None
            &&& after.method == before.method
        },
        Err(rejection) => {
            &&& rejection_of(before.method@, header_values(before.headers)) == Some(rejection)
            &&& unchanged(before, after)
        },
    }
}

/// The request holds what it held.
pub open spec fn unchanged<H>(before: RequestParts<H>, after: RequestParts<H>) -> bool {
    &&& header_values(after.headers) == header_values(before.headers)
    &&& after.on_upgrade == before.on_upgrade
    &&& after.method == before.method
}

/// The response that accepts an upgrade.
#[derive(Debug)]
pub struct Response {
    /// The status code: 101, Switching Protocols.
    pub status: u16,
    /// The response headers.
    pub headers: http::header::HeaderMap,
}

/// What is left to do once the response is on its way: wait on the handle
/// for the connection, set the codec up with the limits, open the channel.
#[derive(Debug)]
pub struct Handoff<H> {
    /// The handle on which the connection arrives.
    pub on_upgrade: H,
    /// The limits for the codec.
    pub config: WebSocketConfig,
    /// The channel to open on the connection.
    pub socket: PendingSocket,
}

/// The headers of the response that accepts a request with key `key`, with
/// subprotocol `protocol` chosen: `Connection`, `Upgrade` and the accept
/// key always, `Sec-WebSocket-Protocol` only where one was chosen.
pub open spec fn response_headers(key: Seq<u8>, protocol: Option<Seq<u8>>) -> Map<
    Seq<char>,
    Seq<Seq<u8>>,
> {
    let fixed = no_headers().insert(CONNECTION@, seq!["upgrade".spec_bytes()]).insert(
        UPGRADE@,
        seq!["websocket".spec_bytes()],
    ).insert(SEC_WEBSOCKET_ACCEPT@, seq![accept_key(key)]);
    match protocol {
        Some(name) => fixed.insert(SEC_WEBSOCKET_PROTOCOL@, seq![name]),
        None => fixed,
    }
}

/// The two fixed values of the response are values that a header admits.
proof fn lemma_fixed_values()
    ensures
        is_header_value("upgrade".spec_bytes()),
        is_header_value("websocket".spec_bytes()),
{
    reveal_strlit("upgrade");
    reveal_strlit("websocket");
    vstd::string::is_ascii_spec_bytes("upgrade");
    vstd::string::is_ascii_spec_bytes("websocket");
}

impl<H> WebSocketUpgrade<H> {
    #[verifier::type_invariant]
    spec fn well_formed(self) -> bool {
        &&& self.sec_websocket_key@.len() <= MAX_KEY_LEN
        &&& self.protocol matches Some(name) ==> is_header_value(name@)
        &&& self.protocol is Some ==> (self.sec_websocket_protocol matches Some(text) && is_text(
            text@,
        ))
    }

    /// Checks a request and, where it passes, captures what the answer
    /// needs: the key, the subprotocols on offer, and the handoff handle.
    /// The key header and the handle leave the request. A request that
    /// fails a check stays as it was.
    pub fn from_request(req: &mut RequestParts<H>) -> (res: Result<Self, WebSocketUpgradeRejection>)
        requires
            rejection_of(old(req).method@, header_values(old(req).headers)) is None
                ==> can_be_captured(*old(req)),
        ensures
            answers(*old(req), *final(req), res),
    {
        proof {
            lemma_handshake_names();
        }
        if let Some(rejection) = req.rejection() {
            return Err(rejection);
        }
        let sec_websocket_key = match take_header(&mut req.headers, SEC_WEBSOCKET_KEY) {
            Some(key) => key,
            None => {
                return Err(WebSocketUpgradeRejection::WebSocketKeyHeaderMissing);
            },
        };
        let on_upgrade = req.on_upgrade.take().unwrap();
        let sec_websocket_protocol = first_header(&req.headers, SEC_WEBSOCKET_PROTOCOL);
        Ok(
            WebSocketUpgrade {
                config: WebSocketConfig::default(),
                protocol: None,
                sec_websocket_key,
                on_upgrade,
                sec_websocket_protocol,
            },
        )
    }

    /// Checks and captures as `from_request` does, for any request: where a
    /// request passes the checks but cannot be captured, because its
    /// handoff handle is missing or its key is too long to sign, the answer
    /// is `None` and the request stays as it was.
    pub fn try_from_request(req: &mut RequestParts<H>) -> (res: Option<
        Result<Self, WebSocketUpgradeRejection>,
    >)
        ensures
            match res {
                Some(answer) => answers(*old(req), *final(req), answer),
                None => {
                    &&& rejection_of(old(req).method@, header_values(old(req).headers)) is None
                    &&& !can_be_captured(*old(req))
                    &&& unchanged(*old(req), *final(req))
                },
            },
    {
        proof {
            lemma_handshake_names();
        }
        if req.rejection().is_none() {
            let short = match first_header(&req.headers, SEC_WEBSOCKET_KEY) {
                Some(key) => key.len() as u64 <= MAX_KEY_LEN,
                None => true,
            };
            if req.on_upgrade.is_none() || !short {
                return None;
            }
        }
        Some(Self::from_request(req))
    }

    /// Sets how many messages may wait to be sent.
    pub fn max_send_queue(self, max: usize) -> (next: Self)
        ensures
            next@ == (UpgradeView {
                config: WebSocketConfig { max_send_queue: Some(max), ..self@.config },
                ..self@
            }),
    {
        proof {
            use_type_invariant(&self);
        }
        let mut next = self;
        next.config.max_send_queue = Some(max);
        next
    }

    /// Sets the largest message that is accepted. It starts at 64 MiB.
    pub fn max_message_size(self, max: usize) -> (next: Self)
        ensures
            next@ == (UpgradeView {
                config: WebSocketConfig { max_message_size: max, ..self@.config },
                ..self@
            }),
    {
        proof {
            use_type_invariant(&self);
        }
        let mut next = self;
        next.config.max_message_size = max;
        next
    }

    /// Sets the largest frame that is accepted. It starts at 16 MiB.
    pub fn max_frame_size(self, max: usize) -> (next: Self)
        ensures
            next@ == (UpgradeView {
                config: WebSocketConfig { max_frame_size: max, ..self@.config },
                ..self@
            }),
    {
        proof {
            use_type_invariant(&self);
        }
        let mut next = self;
        next.config.max_frame_size = max;
        next
    }

    /// Sets whether frames that a client sent without a mask are accepted.
    /// At the start they are not.
    pub fn accept_unmasked_frames(self, accept: bool) -> (next: Self)
        ensures
            next@ == (UpgradeView {
                config: WebSocketConfig { accept_unmasked_frames: accept, ..self@.config },
                ..self@
            }),
    {
        proof {
            use_type_invariant(&self);
        }
        let mut next = self;
        next.config.accept_unmasked_frames = accept;
        next
    }

    /// Negotiates the subprotocol. `protocols` are the names that the
    /// server supports, the one it likes best first. Where the client sent
    /// a list of its own, the first of `protocols` that stands in that list
    /// is chosen, and none where the two share no name. That is no error:
    /// the response then names no subprotocol.
    pub fn protocols(self, protocols: &[&str]) -> (next: Self)
        ensures
            next@ == (UpgradeView {
                protocol: negotiated(candidate_bytes(protocols@), self@.offered),
                ..self@
            }),
    {
        proof {
            use_type_invariant(&self);
        }
        let mut next = self;
        if let Some(text) = &next.sec_websocket_protocol {
            if is_visible_text(text.as_slice()) {
                let chosen = select_protocol(protocols, text.as_slice());
                proof {
                    lemma_first_offered(candidate_bytes(protocols@), text@);
                    if let Some(name) = &chosen {
                        lemma_offered_is_text(text@, name@);
                    }
                }
                next.protocol = chosen;
            }
        }
        next
    }

    /// Ends the negotiation: writes the response that accepts the upgrade,
    /// and hands out what the rest of the upgrade needs.
    pub fn on_upgrade(self) -> (out: (Response, Handoff<H>))
        ensures
            out.0.status == 101,
            header_values(out.0.headers) == response_headers(self@.key, self@.protocol),
            first_value(header_values(out.0.headers), SEC_WEBSOCKET_ACCEPT@) == Some(
                accept_key(self@.key),
            ),
            first_value(header_values(out.0.headers), SEC_WEBSOCKET_PROTOCOL@)
                == self@.protocol,
            out.1.on_upgrade == self@.on_upgrade,
            out.1.config == self@.config,
            out.1.socket.protocol() == self@.protocol,
    {
        proof {
            use_type_invariant(&self);
            lemma_handshake_names();
            lemma_fixed_values();
        }
        let mut headers = new_headers();
        set_header(&mut headers, CONNECTION, "upgrade".as_bytes());
        set_header(&mut headers, UPGRADE, "websocket".as_bytes());
        let accept = sign(self.sec_websocket_key.as_slice());
        set_header(&mut headers, SEC_WEBSOCKET_ACCEPT, accept.as_slice());
        if let Some(protocol) = &self.protocol {
            set_header(&mut headers, SEC_WEBSOCKET_PROTOCOL, protocol.as_slice());
        }
        let response = Response { status: 101, headers };
        let handoff = Handoff {
            on_upgrade: self.on_upgrade,
            config: self.config,
            socket: PendingSocket::new(self.protocol),
        };
        (response, handoff)
    }
}

} // verus!
