//! What the relay asks of the account and message store, and what the
//! store answers. The store itself lies outside this library.

use vstd::prelude::*;
use vstd::string::*;
use crate::protocol::{text_view, Role};
use crate::text::texts;

verus! {

/// A request to the store. `T` is `String` in running code and
/// `Seq<char>` in contracts.
#[derive(Debug, PartialEq, Eq)]
pub enum Query<T> {
    CreateAccount { username: T, password: T },
    Authenticate { username: T, password: T },
    GetRole { username: T },
    SetRole { username: T, role: Role },
    UpdatePassword { username: T, password: T },
    RecordMessage { sender: T, content: T, timestamp: T },
    ListAccounts,
    /// The messages of one account, or of all accounts.
    History(Option<T>),
}

impl View for Query<String> {
    type V = Query<Seq<char>>;

    open spec fn view(&self) -> Query<Seq<char>> {
        match *self {
            Query::CreateAccount { username, password } => Query::CreateAccount {
                username: username@,
                password: password@,
            },
            Query::Authenticate { username, password } => Query::Authenticate {
                username: username@,
                password: password@,
            },
            Query::GetRole { username } => Query::GetRole { username: username@ },
            Query::SetRole { username, role } => Query::SetRole { username: username@, role },
            Query::UpdatePassword { username, password } => Query::UpdatePassword {
                username: username@,
                password: password@,
            },
            Query::RecordMessage { sender, content, timestamp } => Query::RecordMessage {
                sender: sender@,
                content: content@,
                timestamp: timestamp@,
            },
            Query::ListAccounts => Query::ListAccounts,
            Query::History(of) => Query::History(text_view(of)),
        }
    }
}

/// The view of an optional request.
pub open spec fn query_view(q: Option<Query<String>>) -> Option<Query<Seq<char>>> {
    match q {
        Some(q) => Some(q@),
        None => None,
    }
}

/// What the store answered.
#[derive(Debug, PartialEq, Eq)]
pub enum Answer {
    /// The change was made.
    Done,
    /// Whether the credentials are right.
    Verdict(bool),
    Role(Role),
    /// The names of all accounts.
    Accounts(Vec<String>),
    /// The lines of the messages asked for.
    History(Vec<String>),
    /// The store failed or refused, with its own words for it.
    Failed(String),
}

/// An answer of the store, as contracts see it.
pub ghost enum AnswerView {
    Done,
    Verdict(bool),
    Role(Role),
    Accounts(Seq<Seq<char>>),
    History(Seq<Seq<char>>),
    Failed(Seq<char>),
}

impl View for Answer {
    type V = AnswerView;

    open spec fn view(&self) -> AnswerView {
        match *self {
            Answer::Done => AnswerView::Done,
            Answer::Verdict(b) => AnswerView::Verdict(b),
            Answer::Role(r) => AnswerView::Role(r),
            Answer::Accounts(a) => AnswerView::Accounts(texts(a@)),
            Answer::History(h) => AnswerView::History(texts(h@)),
            Answer::Failed(d) => AnswerView::Failed(d@),
        }
    }
}

} // verus!
