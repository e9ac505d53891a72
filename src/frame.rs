use vstd::prelude::*;
use vstd::utf8::{decode_utf8, decode_utf8_encode_utf8, encode_utf8, valid_utf8};

verus! {

/// Why a peer (or this side) closes the connection: a close code and an
/// optional human-readable description.
#[derive(Clone, Debug, PartialEq, Eq)]
pub struct CloseReason {
    pub code: u16,
    pub description: Option<String>,
}

/// One inbound WebSocket frame, with its payload as plain bytes.
#[derive(Clone, Debug, PartialEq, Eq)]
pub enum Frame {
    Text(Vec<u8>),
    Binary(Vec<u8>),
    Ping(Vec<u8>),
    Pong(Vec<u8>),
    Continuation(Vec<u8>),
    Close(Option<CloseReason>),
}

/// One outbound WebSocket message.
#[derive(Clone, Debug, PartialEq, Eq)]
pub enum Message {
    Text(String),
    Binary(Vec<u8>),
    Ping(Vec<u8>),
    Pong(Vec<u8>),
    Close(Option<CloseReason>),
}

/// Why a frame could not be answered; each such error ends the connection.
#[derive(Clone, Copy, Debug, PartialEq, Eq)]
pub enum EchoError {
    /// A text frame whose payload is not valid UTF-8.
    InvalidText,
}

/// The mathematical value of a close reason.
pub ghost struct ReasonView {
    pub code: u16,
    pub description: Option<Seq<char>>,
}

/// The mathematical value of an inbound frame.
pub ghost enum FrameView {
    Text(Seq<u8>),
    Binary(Seq<u8>),
    Ping(Seq<u8>),
    Pong(Seq<u8>),
    Continuation(Seq<u8>),
    Close(Option<ReasonView>),
}

/// The mathematical value of an outbound message; a text message is seen
/// as the UTF-8 bytes that go on the wire.
pub ghost enum MessageView {
    Text(Seq<u8>),
    Binary(Seq<u8>),
    Ping(Seq<u8>),
    Pong(Seq<u8>),
    Close(Option<ReasonView>),
}

pub open spec fn reason_view(r: Option<CloseReason>) -> Option<ReasonView> {
    match r {
        Some(c) => Some(
            ReasonView {
                code: c.code,
                description: match c.description {
                    Some(d) => Some(d@),
                    None => None,
                },
            },
        ),
        None => None,
    }
}

impl View for Frame {
    type V = FrameView;

    open spec fn view(&self) -> FrameView {
        match self {
            Frame::Text(b) => FrameView::Text(b@),
            Frame::Binary(b) => FrameView::Binary(b@),
            Frame::Ping(b) => FrameView::Ping(b@),
            Frame::Pong(b) => FrameView::Pong(b@),
            Frame::Continuation(b) => FrameView::Continuation(b@),
            Frame::Close(r) => FrameView::Close(reason_view(*r)),
        }
    }
}

impl View for Message {
    type V = MessageView;

    open spec fn view(&self) -> MessageView {
        match self {
            Message::Text(s) => MessageView::Text(encode_utf8(s@)),
            Message::Binary(b) => MessageView::Binary(b@),
            Message::Ping(b) => MessageView::Ping(b@),
            Message::Pong(b) => MessageView::Pong(b@),
            Message::Close(r) => MessageView::Close(reason_view(*r)),
        }
    }
}

/// The reply owed to one inbound frame: `Err(())` where the frame is fatal
/// to the connection (text that is not UTF-8).
pub open spec fn reply_to(f: FrameView) -> Result<MessageView, ()> {
    match f {
        FrameView::Ping(p) => Ok(MessageView::Pong(p)),
        FrameView::Text(t) => if valid_utf8(t) {
            Ok(MessageView::Text(t))
        } else {
            Err(())
        },
        FrameView::Binary(b) => Ok(MessageView::Binary(b)),
        FrameView::Close(r) => Ok(MessageView::Close(r)),
        _ => Ok(MessageView::Close(None)),
    }
}

/// Relies on `String::from_utf8`: it succeeds exactly when the bytes are
/// valid UTF-8, and then holds the characters they encode.
#[verifier::external_body]
fn decode_text(bytes: Vec<u8>) -> (r: Option<String>)
    ensures
        r is Some <==> valid_utf8(bytes@),
        r is Some ==> r->0@ == decode_utf8(bytes@),
{
    String::from_utf8(bytes).ok()
}

/// Maps one inbound frame to the message that answers it: a ping gets a
/// pong with the same payload, text, binary data and close reasons are
/// echoed unchanged, and any other frame kind is answered by a bare close.
pub fn echo_reply(frame: Frame) -> (r: Result<Message, EchoError>)
    ensures
        reply_to(frame@) is Err <==> r is Err,
        r matches Ok(m) ==> reply_to(frame@) == Ok::<MessageView, ()>(m@),
        r matches Err(e) ==> e == EchoError::InvalidText,
{
    match frame {
        Frame::Ping(p) => Ok(Message::Pong(p)),
        Frame::Text(t) => {
            let ghost bytes = t@;
            match decode_text(t) {
                Some(s) => {
                    proof {
                        decode_utf8_encode_utf8(bytes);
                    }
                    Ok(Message::Text(s))
                },
                None => Err(EchoError::InvalidText),
            }
        },
        Frame::Binary(b) => Ok(Message::Binary(b)),
        Frame::Close(r) => Ok(Message::Close(r)),
        Frame::Pong(_) => Ok(Message::Close(None)),
        Frame::Continuation(_) => Ok(Message::Close(None)),
    }
}

/// Text that is valid UTF-8 is echoed as the very same bytes.
pub proof fn lemma_text_echoed_unchanged(t: Seq<u8>)
    requires
        valid_utf8(t),
    ensures
        reply_to(FrameView::Text(t)) == Ok::<MessageView, ()>(MessageView::Text(t)),
{
}

/// Binary data is echoed byte for byte.
pub proof fn lemma_binary_echoed_unchanged(b: Seq<u8>)
    ensures
        reply_to(FrameView::Binary(b)) == Ok::<MessageView, ()>(MessageView::Binary(b)),
{
}

/// A text payload that is not UTF-8 gets no reply at all: it is fatal.
pub proof fn lemma_invalid_text_not_echoed(t: Seq<u8>)
    requires
        !valid_utf8(t),
    ensures
        reply_to(FrameView::Text(t)) is Err,
{
}

} // verus!
