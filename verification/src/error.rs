//! The unified error taxonomy of the peer-to-peer layer.
//!
//! Every failure a peer connection can run into — protocol rejections decided
//! by the collaborators, and foreign signals lifted at the point of failure —
//! collapses into one owned [`P2pError`] value. The value is immutable, its
//! rendering is pinned by [`P2pError::message_spec`], and for wrapped causes
//! the original signal stays retrievable.
use vstd::prelude::*;

use crate::foreign::{
    elapsed_text, io_error_text, mpsc_send_error_text, poison_error_text, slice_error_text,
    tokio_send_error_text,
};
use crate::text::{lemma_u64_digits_nonempty, u64_digits, u64_to_string};

verus! {

/// The failure type handed over by the packet-reader collaborator.
///
/// The reader itself lives outside this core; what this core needs of its
/// failures is that each carries the reader's own rendered message, which the
/// wrapping variant preserves and renders unmodified.
#[derive(Debug)]
pub struct ReaderError {
    detail: String,
}

impl ReaderError {
    /// The reader's own message for this failure.
    pub closed spec fn text(&self) -> Seq<char> {
        self.detail@
    }

    pub fn new(detail: String) -> (r: ReaderError)
        ensures
            r.text() == detail@,
    {
        ReaderError { detail }
    }

    pub fn message(&self) -> (r: String)
        ensures
            r@ == self.text(),
    {
        self.detail.clone()
    }
}

/// The tag of a [`P2pError`], without its payload: what a session supervisor
/// branches on when deciding to disconnect, log or retry.
#[derive(Clone, Copy, Debug, PartialEq, Eq, Structural)]
pub enum ErrorKind {
    Disconnected,
    InvalidHandshake,
    ExpectedHandshake,
    InvalidPeerAddress,
    InvalidNetworkID,
    PeerIdAlreadyUsed,
    PeerAlreadyConnected,
    ErrorStd,
    PoisonError,
    SendError,
    TryInto,
    ReaderError,
    InvalidPacket,
    InvalidPacketSize,
    InvalidPacketNotFullRead,
    RequestSyncChainTooFast,
    AsyncTimeOut,
}

/// The unified error value of the peer-to-peer layer. Exactly one tag is
/// active per instance, and a value is never mutated after construction.
///
/// Wrapped-cause variants hold the foreign signal itself together with its
/// rendered text, captured at conversion time; the cause stays retrievable
/// through the `*_cause` accessors and the text is what [`P2pError::message`]
/// returns, unmodified.
#[derive(Debug)]
pub enum P2pError {
    Disconnected,
    InvalidHandshake,
    ExpectedHandshake,
    InvalidPeerAddress(String),
    InvalidNetworkID,
    PeerIdAlreadyUsed(u64),
    PeerAlreadyConnected(String),
    ErrorStd(std::io::Error, String),
    PoisonError(String),
    SendError(String),
    TryInto(std::array::TryFromSliceError, String),
    ReaderError(ReaderError),
    InvalidPacket,
    InvalidPacketSize,
    InvalidPacketNotFullRead,
    RequestSyncChainTooFast,
    AsyncTimeOut(tokio::time::error::Elapsed),
}

impl P2pError {
    /// The tag of this value.
    pub open spec fn kind_spec(&self) -> ErrorKind {
        match self {
            P2pError::Disconnected => ErrorKind::Disconnected,
            P2pError::InvalidHandshake => ErrorKind::InvalidHandshake,
            P2pError::ExpectedHandshake => ErrorKind::ExpectedHandshake,
            P2pError::InvalidPeerAddress(_) => ErrorKind::InvalidPeerAddress,
            P2pError::InvalidNetworkID => ErrorKind::InvalidNetworkID,
            P2pError::PeerIdAlreadyUsed(_) => ErrorKind::PeerIdAlreadyUsed,
            P2pError::PeerAlreadyConnected(_) => ErrorKind::PeerAlreadyConnected,
            P2pError::ErrorStd(_, _) => ErrorKind::ErrorStd,
            P2pError::PoisonError(_) => ErrorKind::PoisonError,
            P2pError::SendError(_) => ErrorKind::SendError,
            P2pError::TryInto(_, _) => ErrorKind::TryInto,
            P2pError::ReaderError(_) => ErrorKind::ReaderError,
            P2pError::InvalidPacket => ErrorKind::InvalidPacket,
            P2pError::InvalidPacketSize => ErrorKind::InvalidPacketSize,
            P2pError::InvalidPacketNotFullRead => ErrorKind::InvalidPacketNotFullRead,
            P2pError::RequestSyncChainTooFast => ErrorKind::RequestSyncChainTooFast,
            P2pError::AsyncTimeOut(_) => ErrorKind::AsyncTimeOut,
        }
    }

    /// The exact human-readable rendering of each variant. Wrapped-cause
    /// variants render via the wrapped cause's own message, unmodified.
    pub open spec fn message_spec(&self) -> Seq<char> {
        match self {
            P2pError::Disconnected => "Peer disconnected"@,
            P2pError::InvalidHandshake => "Invalid handshake"@,
            P2pError::ExpectedHandshake => "Expected Handshake packet"@,
            P2pError::InvalidPeerAddress(a) => "Invalid peer address, "@ + a@,
            P2pError::InvalidNetworkID => "Invalid network ID"@,
            P2pError::PeerIdAlreadyUsed(id) => "Peer id "@ + u64_digits(*id as nat)
                + " is already used!"@,
            P2pError::PeerAlreadyConnected(a) => "Peer already connected: "@ + a@,
            P2pError::ErrorStd(_, t) => t@,
            P2pError::PoisonError(m) => "Poison Error: "@ + m@,
            P2pError::SendError(m) => "Send Error: "@ + m@,
            P2pError::TryInto(_, t) => t@,
            P2pError::ReaderError(r) => r.text(),
            P2pError::InvalidPacket => "Invalid packet ID"@,
            P2pError::InvalidPacketSize => "Packet size exceed limit"@,
            P2pError::InvalidPacketNotFullRead => "Received valid packet with not used bytes"@,
            P2pError::RequestSyncChainTooFast => "Request sync chain too fast"@,
            P2pError::AsyncTimeOut(_) => "deadline has elapsed"@,
        }
    }

    /// Whether the texts that arrive from outside — the captured cause texts
    /// and the reader's message — are non-empty. Every rendering except
    /// those is non-empty by construction; see [`lemma_message_nonempty`].
    pub open spec fn cause_text_nonempty(&self) -> bool {
        match self {
            P2pError::ErrorStd(_, t) => t@.len() > 0,
            P2pError::TryInto(_, t) => t@.len() > 0,
            P2pError::ReaderError(r) => r.text().len() > 0,
            _ => true,
        }
    }

    /// The tag of this value, for a consumer that branches on the failure
    /// class without inspecting payloads.
    pub fn kind(&self) -> (k: ErrorKind)
        ensures
            k == self.kind_spec(),
    {
        match self {
            P2pError::Disconnected => ErrorKind::Disconnected,
            P2pError::InvalidHandshake => ErrorKind::InvalidHandshake,
            P2pError::ExpectedHandshake => ErrorKind::ExpectedHandshake,
            P2pError::InvalidPeerAddress(_) => ErrorKind::InvalidPeerAddress,
            P2pError::InvalidNetworkID => ErrorKind::InvalidNetworkID,
            P2pError::PeerIdAlreadyUsed(_) => ErrorKind::PeerIdAlreadyUsed,
            P2pError::PeerAlreadyConnected(_) => ErrorKind::PeerAlreadyConnected,
            P2pError::ErrorStd(_, _) => ErrorKind::ErrorStd,
            P2pError::PoisonError(_) => ErrorKind::PoisonError,
            P2pError::SendError(_) => ErrorKind::SendError,
            P2pError::TryInto(_, _) => ErrorKind::TryInto,
            P2pError::ReaderError(_) => ErrorKind::ReaderError,
            P2pError::InvalidPacket => ErrorKind::InvalidPacket,
            P2pError::InvalidPacketSize => ErrorKind::InvalidPacketSize,
            P2pError::InvalidPacketNotFullRead => ErrorKind::InvalidPacketNotFullRead,
            P2pError::RequestSyncChainTooFast => ErrorKind::RequestSyncChainTooFast,
            P2pError::AsyncTimeOut(_) => ErrorKind::AsyncTimeOut,
        }
    }

    /// Renders the error for an operator-facing log, exactly as
    /// [`P2pError::message_spec`] states.
    pub fn message(&self) -> (r: String)
        ensures
            r@ == self.message_spec(),
    {
        match self {
            P2pError::Disconnected => String::from_str("Peer disconnected"),
            P2pError::InvalidHandshake => String::from_str("Invalid handshake"),
            P2pError::ExpectedHandshake => String::from_str("Expected Handshake packet"),
            P2pError::InvalidPeerAddress(a) => String::from_str("Invalid peer address, ").concat(
                a.as_str(),
            ),
            P2pError::InvalidNetworkID => String::from_str("Invalid network ID"),
            P2pError::PeerIdAlreadyUsed(id) => {
                let digits = u64_to_string(*id);
                String::from_str("Peer id ").concat(digits.as_str()).concat(" is already used!")
            },
            P2pError::PeerAlreadyConnected(a) => String::from_str("Peer already connected: ")
                .concat(a.as_str()),
            P2pError::ErrorStd(_, t) => t.clone(),
            P2pError::PoisonError(m) => String::from_str("Poison Error: ").concat(m.as_str()),
            P2pError::SendError(m) => String::from_str("Send Error: ").concat(m.as_str()),
            P2pError::TryInto(_, t) => t.clone(),
            P2pError::ReaderError(r) => r.message(),
            P2pError::InvalidPacket => String::from_str("Invalid packet ID"),
            P2pError::InvalidPacketSize => String::from_str("Packet size exceed limit"),
            P2pError::InvalidPacketNotFullRead => String::from_str(
                "Received valid packet with not used bytes",
            ),
            P2pError::RequestSyncChainTooFast => String::from_str("Request sync chain too fast"),
            P2pError::AsyncTimeOut(e) => elapsed_text(e),
        }
    }

    /// Lifts an I/O failure; the cause is kept, its text captured now.
    pub fn from_io_error(e: std::io::Error) -> (r: P2pError)
        ensures
            (r matches P2pError::ErrorStd(c, _) && c == e),
    {
        let t = io_error_text(&e);
        P2pError::ErrorStd(e, t)
    }

    /// Lifts a fixed-size buffer conversion failure; the cause is kept, its
    /// text captured now.
    pub fn from_slice_error(e: std::array::TryFromSliceError) -> (r: P2pError)
        ensures
            (r matches P2pError::TryInto(c, _) && c == e),
    {
        let t = slice_error_text(&e);
        P2pError::TryInto(e, t)
    }

    /// Lifts a lock-poisoning signal: only its rendered text survives; the
    /// poisoned guarded value is deliberately not retained.
    pub fn from_poison_error<T>(e: std::sync::PoisonError<T>) -> (r: P2pError)
        ensures
            (r matches P2pError::PoisonError(_)),
    {
        P2pError::PoisonError(poison_error_text(&e))
    }

    /// Lifts a blocking-channel send failure: only its rendered text
    /// survives; the unsent payload is deliberately not retained.
    pub fn from_send_error<T>(e: std::sync::mpsc::SendError<T>) -> (r: P2pError)
        ensures
            (r matches P2pError::SendError(_)),
    {
        P2pError::SendError(mpsc_send_error_text(&e))
    }

    /// Lifts an asynchronous-channel send failure into the same tag as the
    /// blocking one: the two origins are indistinguishable by design.
    pub fn from_tokio_send_error<T>(e: tokio::sync::mpsc::error::SendError<T>) -> (r: P2pError)
        ensures
            (r matches P2pError::SendError(m) && m@ == "channel closed"@),
    {
        P2pError::SendError(tokio_send_error_text(&e))
    }

    /// The wrapped I/O cause, if this value wraps one.
    pub fn io_cause(&self) -> (r: Option<&std::io::Error>)
        ensures
            match self {
                P2pError::ErrorStd(c, _) => (r matches Some(x) && x == c),
                _ => r is None,
            },
    {
        match self {
            P2pError::ErrorStd(c, _) => Some(c),
            _ => None,
        }
    }

    /// The wrapped buffer-conversion cause, if this value wraps one.
    pub fn slice_cause(&self) -> (r: Option<&std::array::TryFromSliceError>)
        ensures
            match self {
                P2pError::TryInto(c, _) => (r matches Some(x) && x == c),
                _ => r is None,
            },
    {
        match self {
            P2pError::TryInto(c, _) => Some(c),
            _ => None,
        }
    }

    /// The wrapped packet-reader cause, if this value wraps one.
    pub fn reader_cause(&self) -> (r: Option<&ReaderError>)
        ensures
            match self {
                P2pError::ReaderError(c) => (r matches Some(x) && x == c),
                _ => r is None,
            },
    {
        match self {
            P2pError::ReaderError(c) => Some(c),
            _ => None,
        }
    }

    /// The wrapped timeout cause, if this value wraps one.
    pub fn elapsed_cause(&self) -> (r: Option<&tokio::time::error::Elapsed>)
        ensures
            match self {
                P2pError::AsyncTimeOut(c) => (r matches Some(x) && x == c),
                _ => r is None,
            },
    {
        match self {
            P2pError::AsyncTimeOut(c) => Some(c),
            _ => None,
        }
    }
}

impl From<ReaderError> for P2pError {
    /// Lifts a packet-reader failure; the cause is kept.
    fn from(e: ReaderError) -> (r: P2pError) {
        P2pError::ReaderError(e)
    }
}

impl vstd::std_specs::convert::FromSpecImpl<ReaderError> for P2pError {
    open spec fn obeys_from_spec() -> bool {
        true
    }

    open spec fn from_spec(e: ReaderError) -> P2pError {
        P2pError::ReaderError(e)
    }
}

impl From<tokio::time::error::Elapsed> for P2pError {
    /// Lifts a timeout-expiry signal; the cause is kept.
    fn from(e: tokio::time::error::Elapsed) -> (r: P2pError) {
        P2pError::AsyncTimeOut(e)
    }
}

impl vstd::std_specs::convert::FromSpecImpl<tokio::time::error::Elapsed> for P2pError {
    open spec fn obeys_from_spec() -> bool {
        true
    }

    open spec fn from_spec(e: tokio::time::error::Elapsed) -> P2pError {
        P2pError::AsyncTimeOut(e)
    }
}

/// Whether `needle` occurs verbatim somewhere in `hay`.
pub open spec fn contains_text(hay: Seq<char>, needle: Seq<char>) -> bool {
    exists|i: int|
        0 <= i && i + needle.len() <= hay.len() && #[trigger] hay.subrange(i, i + needle.len())
            == needle
}

/// Every variant renders non-empty, as long as the texts that arrive from
/// outside — a wrapped cause's captured text, the reader's message — are
/// themselves non-empty; for every other variant nothing is required.
pub proof fn lemma_message_nonempty(e: P2pError)
    requires
        e.cause_text_nonempty(),
    ensures
        e.message_spec().len() > 0,
{
    reveal_strlit("Peer disconnected");
    reveal_strlit("Invalid handshake");
    reveal_strlit("Expected Handshake packet");
    reveal_strlit("Invalid peer address, ");
    reveal_strlit("Invalid network ID");
    reveal_strlit("Peer id ");
    reveal_strlit(" is already used!");
    reveal_strlit("Peer already connected: ");
    reveal_strlit("Poison Error: ");
    reveal_strlit("Send Error: ");
    reveal_strlit("Invalid packet ID");
    reveal_strlit("Packet size exceed limit");
    reveal_strlit("Received valid packet with not used bytes");
    reveal_strlit("Request sync chain too fast");
    reveal_strlit("deadline has elapsed");
    if let P2pError::PeerIdAlreadyUsed(id) = e {
        lemma_u64_digits_nonempty(id as nat);
    }
}

/// For string- and numeric-payload variants, the rendered text contains the
/// payload verbatim: the address, the captured message, or the decimal
/// rendering of the peer id.
pub proof fn lemma_payload_verbatim(e: P2pError)
    ensures
        (e matches P2pError::InvalidPeerAddress(a) ==> contains_text(e.message_spec(), a@)),
        (e matches P2pError::PeerAlreadyConnected(a) ==> contains_text(e.message_spec(), a@)),
        (e matches P2pError::PoisonError(m) ==> contains_text(e.message_spec(), m@)),
        (e matches P2pError::SendError(m) ==> contains_text(e.message_spec(), m@)),
        (e matches P2pError::PeerIdAlreadyUsed(id) ==> contains_text(
            e.message_spec(),
            u64_digits(id as nat),
        )),
{
    match e {
        P2pError::InvalidPeerAddress(a) => {
            lemma_prefixed_contains("Invalid peer address, "@, a@);
        },
        P2pError::PeerAlreadyConnected(a) => {
            lemma_prefixed_contains("Peer already connected: "@, a@);
        },
        P2pError::PoisonError(m) => {
            lemma_prefixed_contains("Poison Error: "@, m@);
        },
        P2pError::SendError(m) => {
            lemma_prefixed_contains("Send Error: "@, m@);
        },
        P2pError::PeerIdAlreadyUsed(id) => {
            let p = "Peer id "@;
            let d = u64_digits(id as nat);
            let s = " is already used!"@;
            let hay = p + d + s;
            assert(hay.subrange(p.len() as int, p.len() + d.len() as int) =~= d);
        },
        _ => {},
    }
}

/// A text extended by a prefix still contains it verbatim.
proof fn lemma_prefixed_contains(prefix: Seq<char>, payload: Seq<char>)
    ensures
        contains_text(prefix + payload, payload),
{
    let hay = prefix + payload;
    assert(hay.subrange(prefix.len() as int, prefix.len() + payload.len() as int) =~= payload);
}

/// Rendering is a pure function of the value: the contract of
/// [`P2pError::message`] ties every render to [`P2pError::message_spec`], so
/// repeated renders of one error produce identical text.
pub proof fn lemma_render_deterministic(e: &P2pError, r1: Seq<char>, r2: Seq<char>)
    requires
        r1 == e.message_spec(),
        r2 == e.message_spec(),
    ensures
        r1 == r2,
{
}

/// Blocking-channel and asynchronous-channel send failures collapse into one
/// tag: any two lifted send failures are indistinguishable by kind.
pub proof fn lemma_send_failures_collapse(a: &P2pError, b: &P2pError)
    requires
        (a matches P2pError::SendError(_)),
        (b matches P2pError::SendError(_)),
    ensures
        a.kind_spec() == b.kind_spec(),
{
}

} // verus!
