//! Why an upgrade request is turned down, and what the client is told.

use vstd::prelude::*;

verus! {

/// The ways in which a request can fail to be a WebSocket upgrade request.
/// Each one is the client's doing and ends the request.
#[derive(Clone, Copy, Debug, PartialEq, Eq, Structural)]
pub enum WebSocketUpgradeRejection {
    /// The request method is not `GET`.
    MethodNotGet,
    /// There is no `Connection` header whose value holds `upgrade`.
    InvalidConnectionHeader,
    /// There is no `Upgrade` header that says `websocket`.
    InvalidUpgradeHeader,
    /// There is no `Sec-WebSocket-Version` header that says `13`.
    InvalidWebSocketVersionHeader,
    /// There is no `Sec-WebSocket-Key` header.
    WebSocketKeyHeaderMissing,
}

impl WebSocketUpgradeRejection {
    /// The HTTP status that answers the request: 405 for a wrong method, 400
    /// for a wrong or missing header.
    pub open spec fn spec_status(self) -> u16 {
        match self {
            WebSocketUpgradeRejection::MethodNotGet => 405,
            WebSocketUpgradeRejection::InvalidConnectionHeader => 400,
            WebSocketUpgradeRejection::InvalidUpgradeHeader => 400,
            WebSocketUpgradeRejection::InvalidWebSocketVersionHeader => 400,
            WebSocketUpgradeRejection::WebSocketKeyHeaderMissing => 400,
        }
    }

    /// The text of the response body.
    pub open spec fn spec_body(self) -> Seq<char> {
        match self {
            WebSocketUpgradeRejection::MethodNotGet => "Request method must be `GET`"@,
            WebSocketUpgradeRejection::InvalidConnectionHeader => "Connection header did not include 'upgrade'"@,
            WebSocketUpgradeRejection::InvalidUpgradeHeader => "`Upgrade` header did not include 'websocket'"@,
            WebSocketUpgradeRejection::InvalidWebSocketVersionHeader => "`Sec-WebSocket-Version` header did not include '13'"@,
            WebSocketUpgradeRejection::WebSocketKeyHeaderMissing => "`Sec-WebSocket-Key` header missing"@,
        }
    }

    /// The HTTP status code of the response that carries this rejection.
    pub fn status(&self) -> (code: u16)
        ensures
            code == self.spec_status(),
    {
        match self {
            WebSocketUpgradeRejection::MethodNotGet => 405,
            WebSocketUpgradeRejection::InvalidConnectionHeader => 400,
            WebSocketUpgradeRejection::InvalidUpgradeHeader => 400,
            WebSocketUpgradeRejection::InvalidWebSocketVersionHeader => 400,
            WebSocketUpgradeRejection::WebSocketKeyHeaderMissing => 400,
        }
    }

    /// The body of the response that carries this rejection, which is also
    /// how the rejection reads as an error message.
    pub fn body(&self) -> (text: &'static str)
        ensures
            text@ == self.spec_body(),
    {
        match self {
            WebSocketUpgradeRejection::MethodNotGet => "Request method must be `GET`",
            WebSocketUpgradeRejection::InvalidConnectionHeader => "Connection header did not include 'upgrade'",
            WebSocketUpgradeRejection::InvalidUpgradeHeader => "`Upgrade` header did not include 'websocket'",
            WebSocketUpgradeRejection::InvalidWebSocketVersionHeader => "`Sec-WebSocket-Version` header did not include '13'",
            WebSocketUpgradeRejection::WebSocketKeyHeaderMissing => "`Sec-WebSocket-Key` header missing",
        }
    }
}

} // verus!
