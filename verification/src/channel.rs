//! The inbound channel of a session: an unbounded queue of text with one
//! consumer, its sending half held by the registry.

use vstd::prelude::*;
use tokio::sync::mpsc::{UnboundedReceiver, UnboundedSender};

verus! {

/// The sending half of a session's inbound channel,
/// `tokio::sync::mpsc::UnboundedSender`. Nothing is known of what it holds.
#[verifier::external_type_specification]
#[verifier::external_body]
#[verifier::reject_recursive_types(T)]
pub struct ExUnboundedSender<T>(UnboundedSender<T>);

/// The receiving half of a session's inbound channel,
/// `tokio::sync::mpsc::UnboundedReceiver`. Nothing is known of what it holds.
#[verifier::external_type_specification]
#[verifier::external_body]
#[verifier::reject_recursive_types(T)]
pub struct ExUnboundedReceiver<T>(UnboundedReceiver<T>);

/// Calls `tokio::sync::mpsc::unbounded_channel` for a channel of text.
/// Nothing is claimed of the two halves.
#[verifier::external_body]
pub(crate) fn open_channel() -> (halves: (UnboundedSender<String>, UnboundedReceiver<String>)) {
    tokio::sync::mpsc::unbounded_channel()
}

/// Calls `UnboundedSender::send` with a copy of `text` and tells whether
/// the channel took it: it does not once the receiving half is closed or
/// gone. Which of the two happens depends on the receiver, so nothing is
/// claimed of the result.
#[verifier::external_body]
pub(crate) fn offer(handle: &UnboundedSender<String>, text: &str) -> (taken: bool) {
    handle.send(text.to_string()).is_ok()
}

} // verus!
