//! What happens to a session, and what the session makes of it: the events
//! that its driver hands in, and the output that the driver carries out.

use vstd::prelude::*;
use vstd::string::*;
use crate::message::{clock_text, is_clock_text};
use crate::reply::{reply_views, Effect, EffectView, Reply, ReplyView};
use crate::store::{query_view, Answer, AnswerView, Query};

verus! {

/// Something that happened to a session.
#[derive(Debug, PartialEq, Eq)]
pub enum Event {
    /// A line came in from the transport, at the given time of day.
    Line { text: String, at: String },
    /// A text came in through the inbound channel.
    Inbound(String),
    /// The transport reached its end or failed.
    Closed,
    /// The store answered the last request.
    Answer(Answer),
}

/// An event, as contracts see it.
pub ghost enum EventView {
    Line { text: Seq<char>, at: Seq<char> },
    Inbound(Seq<char>),
    Closed,
    Answer(AnswerView),
}

impl View for Event {
    type V = EventView;

    open spec fn view(&self) -> EventView {
        match *self {
            Event::Line { text, at } => EventView::Line { text: text@, at: at@ },
            Event::Inbound(text) => EventView::Inbound(text@),
            Event::Closed => EventView::Closed,
            Event::Answer(answer) => EventView::Answer(answer@),
        }
    }
}

impl Event {
    /// The event of a line that came in just now.
    pub fn line(text: String) -> (e: Event)
        ensures
            e matches Event::Line { text: t, at } && t == text && is_clock_text(at@),
    {
        Event::Line { text, at: clock_text() }
    }
}

/// What a step asks of the driver: lines to write to the session's own
/// transport, in order; at most one request to the store, whose answer
/// is the next event; and an effect on the other sessions.
#[derive(Debug, PartialEq, Eq)]
pub struct Output {
    pub writes: Vec<Reply>,
    pub query: Option<Query<String>>,
    pub effect: Effect,
}

/// An output, as contracts see it.
pub ghost struct OutputView {
    pub writes: Seq<ReplyView>,
    pub query: Option<Query<Seq<char>>>,
    pub effect: EffectView,
}

impl View for Output {
    type V = OutputView;

    open spec fn view(&self) -> OutputView {
        OutputView {
            writes: reply_views(self.writes@),
            query: query_view(self.query),
            effect: self.effect@,
        }
    }
}

/// The output that asks for nothing.
pub open spec fn nothing() -> OutputView {
    OutputView { writes: Seq::empty(), query: None, effect: EffectView::Silent }
}

/// The output that writes one reply.
pub open spec fn saying(reply: ReplyView) -> OutputView {
    OutputView { writes: seq![reply], query: None, effect: EffectView::Silent }
}

/// The output that asks the store.
pub open spec fn asking(query: Query<Seq<char>>) -> OutputView {
    OutputView { writes: Seq::empty(), query: Some(query), effect: EffectView::Silent }
}

/// The output that has an effect on other sessions and writes nothing.
pub open spec fn causing(effect: EffectView) -> OutputView {
    OutputView { writes: Seq::empty(), query: None, effect }
}

impl Output {
    /// Asks for nothing.
    pub fn nothing() -> (o: Output)
        ensures
            o@ == nothing(),
    {
        let o = Output { writes: Vec::new(), query: None, effect: Effect::Silent };
        proof {
            assert(reply_views(o.writes@) =~= Seq::empty());
        }
        o
    }

    /// Writes one reply.
    pub fn saying(reply: Reply) -> (o: Output)
        ensures
            o@ == saying(reply@),
    {
        let o = Output { writes: vec![reply], query: None, effect: Effect::Silent };
        proof {
            assert(reply_views(o.writes@) =~= seq![reply@]);
        }
        o
    }

    /// Asks the store.
    pub fn asking(query: Query<String>) -> (o: Output)
        ensures
            o@ == asking(query@),
    {
        let o = Output { writes: Vec::new(), query: Some(query), effect: Effect::Silent };
        proof {
            assert(reply_views(o.writes@) =~= Seq::empty());
        }
        o
    }

    /// Has an effect on other sessions.
    pub fn causing(effect: Effect) -> (o: Output)
        ensures
            o@ == causing(effect@),
    {
        let o = Output { writes: Vec::new(), query: None, effect };
        proof {
            assert(reply_views(o.writes@) =~= Seq::empty());
        }
        o
    }
}

} // verus!
