//! What a session is sent in reply, and what it causes to be sent to
//! others.

use vstd::prelude::*;
use vstd::string::*;
use colored::Color;
use crate::style::{plain, render, renders, span_views, tint, Span};
use crate::table::{are_rows_drawable, draws, render_table, row_views, rows_drawable};

verus! {

/// One reply: a line of styled text, or a table.
#[derive(Debug, PartialEq, Eq)]
pub enum Reply {
    Text(Vec<Span<String>>),
    Table(Vec<Vec<Span<String>>>),
}

/// A reply, as contracts see it.
pub ghost enum ReplyView {
    Text(Seq<Span<Seq<char>>>),
    Table(Seq<Seq<Span<Seq<char>>>>),
}

impl View for Reply {
    type V = ReplyView;

    open spec fn view(&self) -> ReplyView {
        match *self {
            Reply::Text(spans) => ReplyView::Text(span_views(spans@)),
            Reply::Table(rows) => ReplyView::Table(row_views(rows@)),
        }
    }
}

/// The views of a list of replies, in order.
pub open spec fn reply_views(replies: Seq<Reply>) -> Seq<ReplyView> {
    Seq::new(replies.len(), |i: int| replies[i]@)
}

/// A reply of one plain line.
pub open spec fn plain_reply(text: Seq<char>) -> ReplyView {
    ReplyView::Text(seq![plain(text)])
}

/// A reply of one line in a colour.
pub open spec fn tinted_reply(text: Seq<char>, color: Color) -> ReplyView {
    ReplyView::Text(seq![tint(text, color)])
}

impl ReplyView {
    /// Whether the reply can be shown: a line always, a table where it can
    /// hold all its cells.
    pub open spec fn drawable(self) -> bool {
        match self {
            ReplyView::Text(_) => true,
            ReplyView::Table(rows) => rows_drawable(rows),
        }
    }
}

/// Whether each of `replies` can be shown.
pub open spec fn all_drawable(replies: Seq<ReplyView>) -> bool {
    forall|i: int| 0 <= i < replies.len() ==> (#[trigger] replies[i]).drawable()
}

/// `out` is what `reply` may be shown as.
pub open spec fn shows(reply: ReplyView, out: Seq<char>) -> bool {
    match reply {
        ReplyView::Text(spans) => renders(spans, out),
        ReplyView::Table(rows) => draws(rows, out),
    }
}

impl Reply {
    /// A reply of one plain line.
    pub fn plain(text: &str) -> (r: Reply)
        ensures
            r@ == plain_reply(text@),
    {
        let spans = vec![Span::plain(text)];
        proof {
            assert(span_views(spans@) =~= seq![plain(text@)]);
        }
        Reply::Text(spans)
    }

    /// A reply of one line in a colour.
    pub fn tinted(text: &str, color: Color) -> (r: Reply)
        ensures
            r@ == tinted_reply(text@, color),
    {
        let spans = vec![Span::tint(text, color)];
        proof {
            assert(span_views(spans@) =~= seq![tint(text@, color)]);
        }
        Reply::Text(spans)
    }

    /// A reply of three spans on one line.
    pub fn of_three(a: Span<String>, b: Span<String>, c: Span<String>) -> (r: Reply)
        ensures
            r@ == ReplyView::Text(seq![a@, b@, c@]),
    {
        let spans = vec![a, b, c];
        proof {
            assert(span_views(spans@) =~= seq![a@, b@, c@]);
        }
        Reply::Text(spans)
    }

    /// Whether the reply can be shown.
    pub fn is_drawable(&self) -> (ok: bool)
        ensures
            ok == self@.drawable(),
    {
        match self {
            Reply::Text(_) => true,
            Reply::Table(rows) => are_rows_drawable(rows),
        }
    }

    /// The string that is written to the session's transport.
    pub fn render(&self) -> (out: String)
        requires
            self@.drawable(),
        ensures
            shows(self@, out@),
    {
        match self {
            Reply::Text(spans) => render(spans),
            Reply::Table(rows) => render_table(rows),
        }
    }

    /// The string that is written to the session's transport, where the
    /// reply can be shown; `None` where it is a table that cannot hold
    /// one of its cells.
    pub fn try_render(&self) -> (out: Option<String>)
        ensures
            out is Some <==> self@.drawable(),
            out matches Some(text) ==> shows(self@, text@),
    {
        if self.is_drawable() {
            Some(self.render())
        } else {
            None
        }
    }
}

/// What a step of a session causes beyond its own transport.
#[derive(Debug, PartialEq, Eq)]
pub enum Effect {
    /// Nothing.
    Silent,
    /// A text for every other session.
    Broadcast(Vec<Span<String>>),
    /// A text for the session at one endpoint.
    Direct { to: u64, text: Vec<Span<String>> },
    /// The session leaves the registry, and the others are told.
    Leave,
}

/// An effect, as contracts see it.
pub ghost enum EffectView {
    Silent,
    Broadcast(Seq<Span<Seq<char>>>),
    Direct { to: u64, text: Seq<Span<Seq<char>>> },
    Leave,
}

impl View for Effect {
    type V = EffectView;

    open spec fn view(&self) -> EffectView {
        match *self {
            Effect::Silent => EffectView::Silent,
            Effect::Broadcast(text) => EffectView::Broadcast(span_views(text@)),
            Effect::Direct { to, text } => EffectView::Direct { to, text: span_views(text@) },
            Effect::Leave => EffectView::Leave,
        }
    }
}

} // verus!
