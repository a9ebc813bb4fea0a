//! The message channel that an accepted upgrade leads to: the messages it
//! carries and the course of its life. The channel reads and writes
//! nothing itself. Whoever drives the frame codec asks the channel before
//! each step and tells it what the codec gave.

use vstd::prelude::*;

verus! {

/// Why a channel is being closed, as a Close message carries it.
#[derive(Clone, Debug, PartialEq, Eq)]
pub struct CloseFrame {
    /// The status code.
    pub code: u16,
    /// The reason, in words.
    pub reason: String,
}

/// One WebSocket message.
#[derive(Clone, Debug, PartialEq, Eq)]
pub enum Message {
    /// Text.
    Text(String),
    /// Bytes.
    Binary(Vec<u8>),
    /// A ping, with the bytes that the pong is to repeat.
    Ping(Vec<u8>),
    /// A pong.
    Pong(Vec<u8>),
    /// The wish to close, with or without a code and a reason.
    Close(Option<CloseFrame>),
}

/// Where a channel stands in its life. It only moves forward: from `Open`
/// to `Closing` once either side has sent a Close message, and to `Closed`
/// once the stream has ended or the channel was closed.
#[derive(Clone, Copy, Debug, PartialEq, Eq, Structural)]
pub enum ChannelState {
    /// Messages pass in both directions.
    Open,
    /// A Close message has passed; the stream has not ended yet.
    Closing,
    /// Nothing passes any more.
    Closed,
}

impl ChannelState {
    /// What a receive hands on when the codec gave `polled`: on a closed
    /// channel the end of the stream, whatever the codec gave; otherwise
    /// what the codec gave.
    pub open spec fn received<E>(self, polled: Option<Result<Message, E>>) -> Option<
        Result<Message, E>,
    > {
        if self is Closed {
            None
        } else {
            polled
        }
    }

    /// The state after a receive for which the codec gave `polled`: the end
    /// of the stream closes the channel, a Close message starts the closing,
    /// any other message and any error leave the state as it is.
    pub open spec fn after_recv<E>(self, polled: Option<Result<Message, E>>) -> ChannelState {
        match self {
            ChannelState::Closed => ChannelState::Closed,
            ChannelState::Closing => match polled {
                None => ChannelState::Closed,
                Some(_) => ChannelState::Closing,
            },
            ChannelState::Open => match polled {
                None => ChannelState::Closed,
                Some(Ok(Message::Close(_))) => ChannelState::Closing,
                Some(_) => ChannelState::Open,
            },
        }
    }

    /// Whether a message may still be handed to the codec.
    pub open spec fn may_send(self) -> bool {
        !(self is Closed)
    }

    /// The state after `msg` was handed to the codec: a Close message
    /// starts the closing.
    pub open spec fn after_send(self, msg: Message) -> ChannelState {
        match self {
            ChannelState::Open => if msg is Close {
                ChannelState::Closing
            } else {
                ChannelState::Open
            },
            ChannelState::Closing => ChannelState::Closing,
            ChannelState::Closed => ChannelState::Closed,
        }
    }

    /// What closing has to send first: a Close message without code or
    /// reason, unless the closing has begun already.
    pub open spec fn closing_message(self) -> Option<Message> {
        if self is Open {
            Some(Message::Close(None))
        } else {
            None
        }
    }

    /// The state once the channel was closed.
    pub open spec fn after_close(self) -> ChannelState {
        ChannelState::Closed
    }

    /// How far the channel has come: 0 while open, 1 while closing, 2 when
    /// closed.
    pub open spec fn progress(self) -> nat {
        match self {
            ChannelState::Open => 0,
            ChannelState::Closing => 1,
            ChannelState::Closed => 2,
        }
    }
}

/// A send was asked of a channel that is closed.
#[derive(Clone, Copy, Debug, PartialEq, Eq, Structural)]
pub struct ChannelClosed;

/// A channel of WebSocket messages over a stream `S`, which is the frame
/// codec on the upgraded connection.
#[derive(Debug)]
pub struct WebSocket<S> {
    inner: S,
    protocol: Option<Vec<u8>>,
    state: ChannelState,
}

/// What a channel holds.
pub struct SocketView<S> {
    /// The stream below the channel.
    pub inner: S,
    /// The subprotocol that was agreed on, if any.
    pub protocol: Option<Seq<u8>>,
    /// Where the channel stands in its life.
    pub state: ChannelState,
}

impl<S> View for WebSocket<S> {
    type V = SocketView<S>;

    closed spec fn view(&self) -> SocketView<S> {
        SocketView {
            inner: self.inner,
            protocol: match self.protocol {
                Some(name) => Some(name@),
                None => None,
            },
            state: self.state,
        }
    }
}

impl<S> WebSocket<S> {
    /// Gives up the channel and hands out the stream below it.
    pub fn into_inner(self) -> (inner: S)
        ensures
            inner == self@.inner,
    {
        self.inner
    }

    /// The stream below the channel, for whoever drives it.
    pub fn get_mut(&mut self) -> (inner: &mut S)
        ensures
            *inner == old(self)@.inner,
            final(self)@ == (SocketView { inner: *final(inner), ..old(self)@ }),
    {
        &mut self.inner
    }

    /// The subprotocol that was agreed on, if one was. It stays the same
    /// for as long as the channel lives.
    pub fn protocol(&self) -> (name: Option<&Vec<u8>>)
        ensures
            match name {
                Some(bytes) => self@.protocol == Some(bytes@),
                None => self@.protocol is None,
            },
    {
        self.protocol.as_ref()
    }

    /// Where the channel stands in its life.
    pub fn state(&self) -> (state: ChannelState)
        ensures
            state == self@.state,
    {
        self.state
    }

    /// Takes what the codec gave on a poll for the next message, notes what
    /// it means for the channel, and hands it on. On a closed channel the
    /// codec need not be polled: whatever is passed in, the answer is the
    /// end of the stream.
    pub fn recv<E>(&mut self, polled: Option<Result<Message, E>>) -> (next: Option<
        Result<Message, E>,
    >)
        ensures
            next == old(self)@.state.received(polled),
            final(self)@ == (SocketView {
                state: old(self)@.state.after_recv(polled),
                ..old(self)@
            }),
    {
        match self.state {
            ChannelState::Closed => None,
            ChannelState::Closing => {
                if polled.is_none() {
                    self.state = ChannelState::Closed;
                }
                polled
            },
            ChannelState::Open => {
                match &polled {
                    None => {
                        self.state = ChannelState::Closed;
                    },
                    Some(Ok(Message::Close(_))) => {
                        self.state = ChannelState::Closing;
                    },
                    Some(_) => {},
                }
                polled
            },
        }
    }

    /// Decides on a send. On a closed channel the send fails and the codec
    /// is not to see the message. Otherwise the message comes back, to be
    /// handed to the codec, and a Close message starts the closing.
    pub fn send(&mut self, msg: Message) -> (res: Result<Message, ChannelClosed>)
        ensures
            match res {
                Ok(forward) => old(self)@.state.may_send() && forward == msg,
                Err(_) => !old(self)@.state.may_send(),
            },
            final(self)@ == (SocketView {
                state: old(self)@.state.after_send(msg),
                ..old(self)@
            }),
    {
        match self.state {
            ChannelState::Closed => Err(ChannelClosed),
            ChannelState::Closing => Ok(msg),
            ChannelState::Open => {
                if let Message::Close(_) = &msg {
                    self.state = ChannelState::Closing;
                }
                Ok(msg)
            },
        }
    }

    /// Closes the channel: from here on nothing passes. What comes back is
    /// the message to hand to the codec before the wait for the end of the
    /// stream, a Close message without code or reason. Where a Close
    /// message has passed already there is nothing to send.
    pub fn close(&mut self) -> (first: Option<Message>)
        ensures
            first == old(self)@.state.closing_message(),
            final(self)@ == (SocketView { state: old(self)@.state.after_close(), ..old(self)@ }),
    {
        let first = match self.state {
            ChannelState::Open => Some(Message::Close(None)),
            _ => None,
        };
        self.state = ChannelState::Closed;
        first
    }
}

/// A channel that is promised but not yet open: the upgrade was accepted,
/// the connection has still to be handed over. Only an accepted upgrade
/// makes one, so a channel cannot come from a request that was turned down.
#[derive(Debug)]
pub struct PendingSocket {
    protocol: Option<Vec<u8>>,
}

impl PendingSocket {
    /// The subprotocol that the channel will carry.
    pub closed spec fn protocol(&self) -> Option<Seq<u8>> {
        match self.protocol {
            Some(name) => Some(name@),
            None => None,
        }
    }

    pub(crate) fn new(protocol: Option<Vec<u8>>) -> (pending: Self)
        ensures
            pending.protocol() == (match protocol {
                Some(name) => Some(name@),
                None => None,
            }),
    {
        PendingSocket { protocol }
    }

    /// Opens the channel on the stream that the handoff brought.
    pub fn open<S>(self, stream: S) -> (socket: WebSocket<S>)
        ensures
            socket@ == (SocketView {
                inner: stream,
                protocol: self.protocol(),
                state: ChannelState::Open,
            }),
    {
        WebSocket { inner: stream, protocol: self.protocol, state: ChannelState::Open }
    }
}

/// Once a channel is closed it stays silent: whatever state it was closed
/// in, a receive after that gives the end of the stream, whatever the codec
/// holds, and a send after that is refused.
pub proof fn closed_channel_is_silent<E>(
    before: ChannelState,
    polled: Option<Result<Message, E>>,
    msg: Message,
)
    ensures
        before.after_close().received(polled) is None,
        !before.after_close().may_send(),
        before.after_close().after_recv(polled) == before.after_close(),
        before.after_close().after_send(msg) == before.after_close(),
{
}

/// A channel never goes back: no receive, send or close takes it from
/// closed to closing or open, or from closing to open.
pub proof fn channel_only_moves_forward<E>(
    before: ChannelState,
    polled: Option<Result<Message, E>>,
    msg: Message,
)
    ensures
        before.progress() <= before.after_recv(polled).progress(),
        before.progress() <= before.after_send(msg).progress(),
        before.progress() <= before.after_close().progress(),
{
}

/// What reaches the codec when `msgs` are sent one after the other on a
/// channel in state `from`: each message that is not refused, in its turn.
pub open spec fn forwarded(from: ChannelState, msgs: Seq<Message>) -> Seq<Message>
    decreases msgs.len(),
{
    if msgs.len() == 0 {
        seq![]
    } else if from.may_send() {
        seq![msgs[0]] + forwarded(from.after_send(msgs[0]), msgs.drop_first())
    } else {
        forwarded(from, msgs.drop_first())
    }
}

/// The channel neither drops nor reorders what it is given to send: on a
/// channel that is not closed, the messages reach the codec as they were
/// sent, each one and in the same order.
pub proof fn sends_pass_in_order(from: ChannelState, msgs: Seq<Message>)
    requires
        from.may_send(),
    ensures
        forwarded(from, msgs) == msgs,
    decreases msgs.len(),
{
    if msgs.len() > 0 {
        sends_pass_in_order(from.after_send(msgs[0]), msgs.drop_first());
        assert(seq![msgs[0]] + msgs.drop_first() =~= msgs);
    }
}

/// What reaches the application when the codec gives `items` one after the
/// other on a channel in state `from`: each item that the channel hands on,
/// in its turn.
pub open spec fn handed_on<E>(from: ChannelState, items: Seq<Result<Message, E>>) -> Seq<
    Result<Message, E>,
>
    decreases items.len(),
{
    if items.len() == 0 {
        seq![]
    } else {
        let rest = handed_on(from.after_recv(Some(items[0])), items.drop_first());
        match from.received(Some(items[0])) {
            Some(item) => seq![item] + rest,
            None => rest,
        }
    }
}

/// Nor does the channel drop or reorder what the codec gives: on a channel
/// that is not closed, the items reach the application as the codec gave
/// them, each one and in the same order.
pub proof fn receives_pass_in_order<E>(from: ChannelState, items: Seq<Result<Message, E>>)
    requires
        !(from is Closed),
    ensures
        handed_on(from, items) == items,
    decreases items.len(),
{
    if items.len() > 0 {
        receives_pass_in_order(from.after_recv(Some(items[0])), items.drop_first());
        assert(seq![items[0]] + items.drop_first() =~= items);
    }
}

} // verus!
