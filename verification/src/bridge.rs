//! The frame bridge: what passes from a framed transport to the relay's
//! own line transport, and back. The bridge reads nothing into what it
//! carries.

use vstd::prelude::*;
use vstd::string::*;
use vstd::utf8::{decode_utf8, encode_utf8, valid_utf8};

verus! {

/// A message of the framed transport.
#[derive(Debug, PartialEq, Eq)]
pub enum Frame {
    Text(String),
    Binary(Vec<u8>),
    Ping(Vec<u8>),
    Pong(Vec<u8>),
    Close,
}

/// A frame, as contracts see it.
pub ghost enum FrameView {
    Text(Seq<char>),
    Binary(Seq<u8>),
    Ping(Seq<u8>),
    Pong(Seq<u8>),
    Close,
}

impl View for Frame {
    type V = FrameView;

    open spec fn view(&self) -> FrameView {
        match *self {
            Frame::Text(text) => FrameView::Text(text@),
            Frame::Binary(bytes) => FrameView::Binary(bytes@),
            Frame::Ping(bytes) => FrameView::Ping(bytes@),
            Frame::Pong(bytes) => FrameView::Pong(bytes@),
            Frame::Close => FrameView::Close,
        }
    }
}

/// What one direction of the bridge does with what it read.
#[derive(Debug, PartialEq, Eq)]
pub enum Relay<T> {
    /// Hand this on to the other side.
    Forward(T),
    /// Hand nothing on, and read again.
    Skip,
    /// This direction is over. The other is left to itself.
    Stop,
}

/// The text that `String::from_utf8_lossy` makes of bytes that are not
/// well-formed UTF-8.
pub uninterp spec fn lossy_text(bytes: Seq<u8>) -> Seq<char>;

/// The text that a chunk of bytes is read as: the text that it encodes
/// where it is well-formed UTF-8, and else what the lossy decoding makes
/// of it.
pub open spec fn text_of(bytes: Seq<u8>) -> Seq<char> {
    if valid_utf8(bytes) {
        decode_utf8(bytes)
    } else {
        lossy_text(bytes)
    }
}

/// Decodes bytes with `String::from_utf8_lossy`, which gives well-formed
/// UTF-8 back as the text that it encodes and puts a replacement
/// character where the bytes are ill-formed.
#[verifier::external_body]
pub(crate) fn decode_lossy(bytes: &[u8]) -> (text: String)
    ensures
        valid_utf8(bytes@) ==> text@ == decode_utf8(bytes@),
        !valid_utf8(bytes@) ==> text@ == lossy_text(bytes@),
{
    String::from_utf8_lossy(bytes).into_owned()
}

/// What goes to the relay for a frame that was read, or for the end of the
/// framed transport: the payload of a text frame, byte for byte, and
/// nothing for any other frame.
pub open spec fn toward_relay(read: Option<FrameView>) -> Relay<Seq<u8>> {
    match read {
        None => Relay::Stop,
        Some(FrameView::Text(text)) => Relay::Forward(encode_utf8(text)),
        Some(_) => Relay::Skip,
    }
}

/// What goes to the client for a chunk that was read from the relay, or
/// for a failed read: one text frame for a chunk, which holds the text of
/// the chunk. An empty chunk is the end of the relay's transport.
pub open spec fn toward_client(read: Option<Seq<u8>>) -> Relay<FrameView> {
    match read {
        None => Relay::Stop,
        Some(chunk) => if chunk.len() == 0 {
            Relay::Stop
        } else {
            Relay::Forward(FrameView::Text(text_of(chunk)))
        },
    }
}

/// The view of what goes to the relay.
pub open spec fn bytes_view(r: Relay<Vec<u8>>) -> Relay<Seq<u8>> {
    match r {
        Relay::Forward(bytes) => Relay::Forward(bytes@),
        Relay::Skip => Relay::Skip,
        Relay::Stop => Relay::Stop,
    }
}

/// The view of what goes to the client.
pub open spec fn frame_view(r: Relay<Frame>) -> Relay<FrameView> {
    match r {
        Relay::Forward(frame) => Relay::Forward(frame@),
        Relay::Skip => Relay::Skip,
        Relay::Stop => Relay::Stop,
    }
}

/// Decides what goes to the relay. `read` is the frame that came in, or
/// `None` where the framed transport ended or failed.
pub fn from_client(read: Option<Frame>) -> (r: Relay<Vec<u8>>)
    ensures
        bytes_view(r) == toward_relay(
            match read {
                Some(frame) => Some(frame@),
                None => None,
            },
        ),
{
    match read {
        None => Relay::Stop,
        Some(Frame::Text(text)) => Relay::Forward(text.as_str().as_bytes_vec()),
        Some(_) => Relay::Skip,
    }
}

/// Decides what goes to the client. `read` is the chunk that came in, or
/// `None` where the read from the relay failed.
pub fn from_relay(read: Option<&[u8]>) -> (r: Relay<Frame>)
    ensures
        frame_view(r) == toward_client(
            match read {
                Some(chunk) => Some(chunk@),
                None => None,
            },
        ),
{
    match read {
        None => Relay::Stop,
        Some(chunk) => {
            if chunk.len() == 0 {
                Relay::Stop
            } else {
                Relay::Forward(Frame::Text(decode_lossy(chunk)))
            }
        },
    }
}

/// The bytes of a text are read as that text.
pub proof fn lemma_text_of_encoding(text: Seq<char>)
    ensures
        text_of(encode_utf8(text)) == text,
{
    broadcast use vstd::utf8::encode_utf8_valid_utf8;
    broadcast use vstd::utf8::encode_utf8_decode_utf8;

}

/// A text that holds a character takes at least one byte.
pub proof fn lemma_encoding_nonempty(text: Seq<char>)
    requires
        text.len() > 0,
    ensures
        encode_utf8(text).len() > 0,
{
    assert(vstd::utf8::encode_scalar(text[0] as u32).len() > 0);
}

/// What goes through the bridge comes out as it went in: the payload of
/// a text frame that holds a character reaches the relay as the bytes of
/// that text, and those bytes, read from the relay in one chunk, reach a
/// client as a text frame with the same payload.
pub proof fn lemma_round_trip(text: Seq<char>)
    requires
        text.len() > 0,
    ensures
        toward_relay(Some(FrameView::Text(text))) == Relay::Forward(encode_utf8(text)),
        toward_client(Some(encode_utf8(text))) == Relay::Forward(FrameView::Text(text)),
{
    lemma_text_of_encoding(text);
    lemma_encoding_nonempty(text);
}

} // verus!
