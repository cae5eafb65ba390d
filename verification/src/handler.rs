//! The per-connection state machine of the echo server.
//!
//! A connection cycles through reading a 4-byte header, reading the declared
//! body, and writing the response header and body, until the peer closes the
//! stream or violates the protocol. [`Handler::step`] takes one stream event
//! and decides the next state and the next action; it performs no I/O itself,
//! so the caller (thread or task) owns the stream and merely carries actions
//! out. Connections share nothing: each [`Handler`] is complete in itself,
//! and a step depends on nothing but that handler's own state and the event
//! handed to it.

use vstd::prelude::*;
use vstd::bytes::{
    spec_u32_from_le_bytes, spec_u32_to_le_bytes, lemma_auto_spec_u32_to_from_le_bytes,
};
use crate::codec::{encode_len, spec_encode_frame, HEADER_LEN, MAX_PAYLOAD_LEN};
use crate::utf8::{is_valid_utf8, validate_utf8};

verus! {

/// Where in the frame cycle a failure happened.
#[derive(Clone, Copy, Debug, PartialEq, Eq, Structural)]
pub enum Phase {
    ReadHeader,
    ReadBody,
    WriteHeader,
    WriteBody,
}

/// Why a connection was aborted. A clean disconnect is not an error and is
/// reported as [`Action::Close`] instead.
#[derive(Clone, Copy, Debug, PartialEq, Eq, Structural)]
pub enum ProtoError {
    /// The peer declared a body longer than [`MAX_PAYLOAD_LEN`].
    Oversized { declared: u32 },
    /// The body was not well-formed UTF-8.
    MalformedPayload,
    /// The peer closed the stream in the middle of a frame.
    AbruptDisconnect { phase: Phase },
    /// The stream itself failed for another reason.
    Transport { phase: Phase },
}

/// One event of the stream, reported by the caller.
#[derive(Debug)]
pub enum Input {
    /// An exact-length read completed with these bytes.
    Data(Vec<u8>),
    /// The stream ended during a read; `partial` says whether any bytes of
    /// the pending unit had already arrived.
    Eof { partial: bool },
    /// A read failed for a reason other than end of stream.
    ReadError,
    /// The last requested write was carried out in full.
    Written,
    /// The last requested write failed.
    WriteError,
}

/// What the caller must do next.
#[derive(Debug)]
pub enum Action {
    /// Read exactly this many bytes, then report `Data`, `Eof` or
    /// `ReadError`.
    Read(usize),
    /// Write all of these bytes, then report `Written` or `WriteError`.
    Write(Vec<u8>),
    /// The peer disconnected cleanly: drop the connection quietly.
    Close,
    /// Protocol violation or stream failure: drop the connection and report.
    Abort(ProtoError),
}

/// The states of one connection.
pub enum HandlerState {
    /// Between frames, a 4-byte header read pending.
    AwaitHeader,
    /// Header accepted, a `len`-byte body read pending.
    AwaitBody { len: u32 },
    /// Body accepted, the response header is being written; the response
    /// payload is held for the next write.
    AwaitWriteHeader { response: Vec<u8> },
    /// The response payload is being written.
    AwaitWriteBody,
    /// Terminal: the peer disconnected cleanly.
    Closed,
    /// Terminal: the connection was aborted.
    Aborted,
}

/// The fixed tag prepended to every response payload: `"ECHO: "`.
pub open spec fn echo_prefix() -> Seq<u8> {
    seq![0x45u8, 0x43u8, 0x48u8, 0x4Fu8, 0x3Au8, 0x20u8]
}

/// The response payload for a received message: the tag, then the message.
pub open spec fn spec_response(msg: Seq<u8>) -> Seq<u8> {
    echo_prefix() + msg
}

/// Build the response payload for a received message.
pub fn build_response(msg: &[u8]) -> (r: Vec<u8>)
    requires
        msg@.len() <= MAX_PAYLOAD_LEN,
    ensures
        r@ == spec_response(msg@),
        r@.len() == echo_prefix().len() + msg@.len(),
{
    let mut r: Vec<u8> = Vec::new();
    r.push(0x45);
    r.push(0x43);
    r.push(0x48);
    r.push(0x4F);
    r.push(0x3A);
    r.push(0x20);
    proof {
        assert(r@ =~= echo_prefix());
        assert(r@ + msg@.subrange(0, 0) =~= r@);
    }
    let mut i: usize = 0;
    while i < msg.len()
        invariant
            i <= msg@.len(),
            r@ == echo_prefix() + msg@.subrange(0, i as int),
        decreases msg@.len() - i,
    {
        r.push(msg[i]);
        i = i + 1;
        proof {
            assert(r@ =~= echo_prefix() + msg@.subrange(0, i as int));
        }
    }
    proof {
        assert(msg@.subrange(0, msg@.len() as int) =~= msg@);
    }
    r
}

/// Which inputs make sense in which state: reads complete only while a read
/// is pending and with exactly the requested count, writes only while a
/// write is pending, and terminal states take no input.
pub open spec fn admissible(s: HandlerState, input: Input) -> bool {
    match s {
        HandlerState::AwaitHeader => match input {
            Input::Data(d) => d@.len() == HEADER_LEN,
            Input::Eof { .. } => true,
            Input::ReadError => true,
            _ => false,
        },
        HandlerState::AwaitBody { len } => match input {
            Input::Data(d) => d@.len() == len as int,
            Input::Eof { .. } => true,
            Input::ReadError => true,
            _ => false,
        },
        HandlerState::AwaitWriteHeader { .. } => match input {
            Input::Written => true,
            Input::WriteError => true,
            _ => false,
        },
        HandlerState::AwaitWriteBody => match input {
            Input::Written => true,
            Input::WriteError => true,
            _ => false,
        },
        _ => false,
    }
}

/// The transition relation of the connection state machine: exactly which
/// new state and which action each admissible (state, input) pair yields.
pub open spec fn step_spec(pre: HandlerState, input: Input, post: HandlerState, a: Action) -> bool {
    match pre {
        HandlerState::AwaitHeader => match input {
            Input::Data(h) => {
                let l = spec_u32_from_le_bytes(h@);
                if l as int <= MAX_PAYLOAD_LEN as int {
                    &&& post == (HandlerState::AwaitBody { len: l })
                    &&& a matches Action::Read(n) && n == l as int
                } else {
                    &&& post is Aborted
                    &&& a == Action::Abort(ProtoError::Oversized { declared: l })
                }
            },
            Input::Eof { partial } => if partial {
                &&& post is Aborted
                &&& a == Action::Abort(
                    ProtoError::AbruptDisconnect { phase: Phase::ReadHeader },
                )
            } else {
                &&& post is Closed
                &&& a is Close
            },
            Input::ReadError => {
                &&& post is Aborted
                &&& a == Action::Abort(ProtoError::Transport { phase: Phase::ReadHeader })
            },
            _ => false,
        },
        HandlerState::AwaitBody { len } => match input {
            Input::Data(b) => if is_valid_utf8(b@) {
                &&& post matches HandlerState::AwaitWriteHeader { response }
                    && response@ == spec_response(b@)
                &&& a matches Action::Write(h)
                    && h@ == spec_u32_to_le_bytes(spec_response(b@).len() as u32)
            } else {
                &&& post is Aborted
                &&& a == Action::Abort(ProtoError::MalformedPayload)
            },
            Input::Eof { .. } => {
                &&& post is Aborted
                &&& a == Action::Abort(ProtoError::AbruptDisconnect { phase: Phase::ReadBody })
            },
            Input::ReadError => {
                &&& post is Aborted
                &&& a == Action::Abort(ProtoError::Transport { phase: Phase::ReadBody })
            },
            _ => false,
        },
        HandlerState::AwaitWriteHeader { response } => match input {
            Input::Written => {
                &&& post is AwaitWriteBody
                &&& a matches Action::Write(f) && f@ == response@
            },
            Input::WriteError => {
                &&& post is Aborted
                &&& a == Action::Abort(ProtoError::Transport { phase: Phase::WriteHeader })
            },
            _ => false,
        },
        HandlerState::AwaitWriteBody => match input {
            Input::Written => {
                &&& post is AwaitHeader
                &&& a matches Action::Read(n) && n == HEADER_LEN
            },
            Input::WriteError => {
                &&& post is Aborted
                &&& a == Action::Abort(ProtoError::Transport { phase: Phase::WriteBody })
            },
            _ => false,
        },
        _ => false,
    }
}

/// Law: one well-formed exchange echoes. From the between-frames state, a
/// header declaring the length of a valid-UTF-8 body no longer than
/// [`MAX_PAYLOAD_LEN`], followed by that body and two completed writes,
/// makes the machine ask for exactly the body, write out exactly the frame
/// carrying `"ECHO: "` plus the body, and stand between frames again.
pub proof fn lemma_exchange_echoes(
    s0: HandlerState,
    s1: HandlerState,
    s2: HandlerState,
    s3: HandlerState,
    s4: HandlerState,
    header: Vec<u8>,
    body: Vec<u8>,
    a1: Action,
    a2: Action,
    a3: Action,
    a4: Action,
)
    requires
        s0 is AwaitHeader,
        body@.len() <= MAX_PAYLOAD_LEN,
        header@ == spec_u32_to_le_bytes(body@.len() as u32),
        is_valid_utf8(body@),
        step_spec(s0, Input::Data(header), s1, a1),
        step_spec(s1, Input::Data(body), s2, a2),
        step_spec(s2, Input::Written, s3, a3),
        step_spec(s3, Input::Written, s4, a4),
    ensures
        a1 matches Action::Read(n) && n == body@.len(),
        a2 matches Action::Write(hd) && a3 matches Action::Write(bd) && hd@ + bd@
            == spec_encode_frame(spec_response(body@)),
        s4 is AwaitHeader,
        a4 matches Action::Read(n) && n == HEADER_LEN,
{
    lemma_auto_spec_u32_to_from_le_bytes();
    assert(spec_u32_to_le_bytes(body@.len() as u32).len() == 4);
    assert(spec_u32_from_le_bytes(header@) == body@.len() as u32);
}

/// The state machine of one connection.
pub struct Handler {
    state: HandlerState,
}

impl Handler {
    /// The current state.
    pub closed spec fn st(self) -> HandlerState {
        self.state
    }

    /// The connection invariant: an accepted body length never exceeds the
    /// cap, and a pending response is the tag plus a capped body.
    pub closed spec fn inv(self) -> bool {
        match self.state {
            HandlerState::AwaitBody { len } => len as int <= MAX_PAYLOAD_LEN as int,
            HandlerState::AwaitWriteHeader { response } => response@.len() <= echo_prefix().len()
                + MAX_PAYLOAD_LEN,
            _ => true,
        }
    }

    /// A fresh connection, waiting for its first header.
    pub fn new() -> (h: Handler)
        ensures
            h.inv(),
            h.st() is AwaitHeader,
    {
        Handler { state: HandlerState::AwaitHeader }
    }

    /// The first action of every connection: read one header.
    pub fn initial_action(&self) -> (a: Action)
        requires
            self.st() is AwaitHeader,
        ensures
            a matches Action::Read(n) && n == HEADER_LEN,
    {
        Action::Read(HEADER_LEN)
    }

    /// Whether the connection has reached a terminal state.
    pub fn is_finished(&self) -> (b: bool)
        ensures
            b == (self.st() is Closed || self.st() is Aborted),
    {
        match self.state {
            HandlerState::Closed => true,
            HandlerState::Aborted => true,
            _ => false,
        }
    }

    /// Feed one stream event and decide the next action. An oversized
    /// declared length aborts without ever asking for body bytes; end of
    /// stream between frames closes cleanly, while end of stream inside a
    /// frame, a malformed body, or a stream failure aborts.
    pub fn step(&mut self, input: Input) -> (a: Action)
        requires
            old(self).inv(),
            admissible(old(self).st(), input),
        ensures
            final(self).inv(),
            step_spec(old(self).st(), input, final(self).st(), a),
    {
        let mut prev = HandlerState::Aborted;
        core::mem::swap(&mut self.state, &mut prev);
        match prev {
            HandlerState::AwaitHeader => match input {
                Input::Data(h) => {
                    let l = crate::codec::decode_len(h.as_slice());
                    if l as usize <= MAX_PAYLOAD_LEN {
                        self.state = HandlerState::AwaitBody { len: l };
                        Action::Read(l as usize)
                    } else {
                        Action::Abort(ProtoError::Oversized { declared: l })
                    }
                },
                Input::Eof { partial } => {
                    if partial {
                        Action::Abort(ProtoError::AbruptDisconnect { phase: Phase::ReadHeader })
                    } else {
                        self.state = HandlerState::Closed;
                        Action::Close
                    }
                },
                _ => Action::Abort(ProtoError::Transport { phase: Phase::ReadHeader }),
            },
            HandlerState::AwaitBody { len } => match input {
                Input::Data(b) => {
                    if validate_utf8(b.as_slice()) {
                        let response = build_response(b.as_slice());
                        let header = encode_len(response.len() as u32);
                        self.state = HandlerState::AwaitWriteHeader { response };
                        Action::Write(header)
                    } else {
                        Action::Abort(ProtoError::MalformedPayload)
                    }
                },
                Input::Eof { .. } => Action::Abort(
                    ProtoError::AbruptDisconnect { phase: Phase::ReadBody },
                ),
                _ => Action::Abort(ProtoError::Transport { phase: Phase::ReadBody }),
            },
            HandlerState::AwaitWriteHeader { response } => match input {
                Input::Written => {
                    self.state = HandlerState::AwaitWriteBody;
                    Action::Write(response)
                },
                _ => Action::Abort(ProtoError::Transport { phase: Phase::WriteHeader }),
            },
            HandlerState::AwaitWriteBody => match input {
                Input::Written => {
                    self.state = HandlerState::AwaitHeader;
                    Action::Read(HEADER_LEN)
                },
                _ => Action::Abort(ProtoError::Transport { phase: Phase::WriteBody }),
            },
            _ => Action::Abort(ProtoError::Transport { phase: Phase::ReadHeader }),
        }
    }
}

} // verus!
