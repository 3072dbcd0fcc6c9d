//! The handshake of a connection: one line, one chance. The connection is
//! let in under a display name, or turned away with the reason.

use vstd::prelude::*;
use vstd::string::*;
use colored::Color;
use crate::exchange::{asking, nothing, saying, Event, EventView, Output, OutputView};
use crate::protocol::{login_of, parse_login, Login, Role};
use crate::registry::Shared;
use crate::reply::{
    all_drawable, plain_reply, reply_views, tinted_reply, Effect, EffectView, Reply, ReplyView,
};
use crate::store::{Answer, AnswerView, Query};
use crate::style::{plain, strong, Span};

verus! {

/// Where a handshake stands. `T` is `String` in running code and
/// `Seq<char>` in contracts.
#[derive(Debug, PartialEq, Eq)]
pub enum Handshake<T> {
    /// The prompt is out; the first line has not come.
    Start,
    /// The store was asked to create the account.
    Creating { username: T },
    /// The store was asked to check the password.
    Verifying { username: T },
    /// The store was asked for the role, to turn away the banned.
    Screening { username: T },
    /// Let in under this name.
    Admitted { username: T },
    /// Turned away; the connection is to be closed.
    Rejected,
}

impl View for Handshake<String> {
    type V = Handshake<Seq<char>>;

    open spec fn view(&self) -> Handshake<Seq<char>> {
        match *self {
            Handshake::Start => Handshake::Start,
            Handshake::Creating { username } => Handshake::Creating { username: username@ },
            Handshake::Verifying { username } => Handshake::Verifying { username: username@ },
            Handshake::Screening { username } => Handshake::Screening { username: username@ },
            Handshake::Admitted { username } => Handshake::Admitted { username: username@ },
            Handshake::Rejected => Handshake::Rejected,
        }
    }
}

/// The prompt that opens a connection.
pub open spec fn prompt_reply() -> ReplyView {
    tinted_reply(
        "Please enter 'register' or 'login': \n\rregister username password:"@,
        Color::Blue,
    )
}

/// The reply to a first line of fewer than three fields.
pub open spec fn malformed_reply() -> ReplyView {
    tinted_reply(
        "Invalid input format. Please enter 'register' or 'login': \n\rregister username password:"@,
        Color::Red,
    )
}

/// The reply to a first line whose verb is neither `register` nor `login`.
pub open spec fn unknown_verb_reply() -> ReplyView {
    plain_reply("Invalid command, use 'register' or 'login' followed by username and password."@)
}

/// The reply to a new account.
pub open spec fn registered_reply(username: Seq<char>) -> ReplyView {
    ReplyView::Text(
        seq![
            plain("Registration successful, welcome "@),
            strong(username, Color::Green),
            plain("!"@),
        ],
    )
}

/// The reply to an account that the store would not create.
pub open spec fn registration_failed_reply(detail: Seq<char>) -> ReplyView {
    plain_reply("Registration failed: "@ + detail)
}

/// The reply to a wrong password or an unknown account.
pub open spec fn authentication_failed_reply() -> ReplyView {
    plain_reply("Authentication failed, please try again."@)
}

/// The reply to a login under a name that is online.
pub open spec fn already_connected_reply() -> ReplyView {
    plain_reply("User already connected, please try again."@)
}

/// The reply to a login of a banned account.
pub open spec fn banned_reply() -> ReplyView {
    plain_reply("You are banned, please try again later."@)
}

/// The reply to whoever is let in.
pub open spec fn welcome_reply() -> ReplyView {
    tinted_reply("\n\rWelcome to the chat!"@, Color::Green)
}

/// The reply where the store failed or answered beside the question.
pub open spec fn failure_reply() -> ReplyView {
    tinted_reply("The request could not be completed, please try again."@, Color::Red)
}

/// The output that lets a connection in, after `before`.
pub open spec fn admitting(before: Seq<ReplyView>) -> OutputView {
    OutputView { writes: before.push(welcome_reply()), query: None, effect: EffectView::Silent }
}

/// What the first line leads to.
pub open spec fn first_line(line: Seq<char>) -> (Handshake<Seq<char>>, OutputView) {
    match login_of(line) {
        Login::Malformed => (Handshake::Rejected, saying(malformed_reply())),
        Login::Register { username, password } => (
            Handshake::Creating { username },
            asking(Query::CreateAccount { username, password }),
        ),
        Login::Login { username, password } => (
            Handshake::Verifying { username },
            asking(Query::Authenticate { username, password }),
        ),
        Login::Unknown => (Handshake::Rejected, saying(unknown_verb_reply())),
    }
}

/// What the store's answer leads to while an account is being created.
pub open spec fn created(username: Seq<char>, answer: AnswerView) -> (
    Handshake<Seq<char>>,
    OutputView,
) {
    match answer {
        AnswerView::Done => (
            Handshake::Admitted { username },
            admitting(seq![registered_reply(username)]),
        ),
        AnswerView::Failed(detail) => (
            Handshake::Rejected,
            saying(registration_failed_reply(detail)),
        ),
        _ => (Handshake::Rejected, saying(failure_reply())),
    }
}

/// What the store's answer leads to while a password is being checked.
pub open spec fn verified(username: Seq<char>, answer: AnswerView, registry: Shared) -> (
    Handshake<Seq<char>>,
    OutputView,
) {
    match answer {
        AnswerView::Verdict(right) => if !right {
            (Handshake::Rejected, saying(authentication_failed_reply()))
        } else if registry.online(username) {
            (Handshake::Rejected, saying(already_connected_reply()))
        } else {
            (Handshake::Screening { username }, asking(Query::GetRole { username }))
        },
        _ => (Handshake::Rejected, saying(failure_reply())),
    }
}

/// What the store's answer leads to while the role is being looked up.
pub open spec fn screened(username: Seq<char>, answer: AnswerView) -> (
    Handshake<Seq<char>>,
    OutputView,
) {
    match answer {
        AnswerView::Role(role) => if role == Role::Banned {
            (Handshake::Rejected, saying(banned_reply()))
        } else {
            (Handshake::Admitted { username }, admitting(Seq::empty()))
        },
        _ => (Handshake::Rejected, saying(failure_reply())),
    }
}

/// One step of the handshake. A handshake that is over takes no further
/// step; one that waits for the store takes none on anything but the
/// answer or the end of the transport.
pub open spec fn handshake_step(h: Handshake<Seq<char>>, event: EventView, registry: Shared) -> (
    Handshake<Seq<char>>,
    OutputView,
) {
    match (h, event) {
        (Handshake::Admitted { .. }, _) => (h, nothing()),
        (Handshake::Rejected, _) => (h, nothing()),
        (_, EventView::Closed) => (Handshake::Rejected, nothing()),
        (Handshake::Start, EventView::Line { text, .. }) => first_line(text),
        (Handshake::Creating { username }, EventView::Answer(answer)) => created(username, answer),
        (Handshake::Verifying { username }, EventView::Answer(answer)) => verified(
            username,
            answer,
            registry,
        ),
        (Handshake::Screening { username }, EventView::Answer(answer)) => screened(
            username,
            answer,
        ),
        _ => (h, nothing()),
    }
}

/// Whatever a step of the handshake writes can be shown: it writes lines
/// alone.
pub proof fn lemma_handshake_writes_are_drawable(
    h: Handshake<Seq<char>>,
    event: EventView,
    registry: Shared,
)
    ensures
        all_drawable(handshake_step(h, event, registry).1.writes),
{
}

/// The prompt that opens a connection.
pub fn prompt() -> (r: Reply)
    ensures
        r@ == prompt_reply(),
{
    Reply::tinted("Please enter 'register' or 'login': \n\rregister username password:", Color::Blue)
}

/// The reply to a login under a name that is online.
pub fn already_connected() -> (r: Reply)
    ensures
        r@ == already_connected_reply(),
{
    Reply::plain("User already connected, please try again.")
}

/// The reply where the store failed or answered beside the question.
pub fn failure() -> (r: Reply)
    ensures
        r@ == failure_reply(),
{
    Reply::tinted("The request could not be completed, please try again.", Color::Red)
}

/// Lets a connection in, after the replies in `writes`.
fn let_in(writes: Vec<Reply>) -> (o: Output)
    ensures
        o@ == admitting(reply_views(writes@)),
{
    let mut writes = writes;
    let ghost before = writes@;
    let welcome = Reply::tinted("\n\rWelcome to the chat!", Color::Green);
    writes.push(welcome);
    proof {
        assert(reply_views(writes@) =~= reply_views(before).push(welcome_reply()));
    }
    Output { writes, query: None, effect: Effect::Silent }
}

impl Handshake<String> {
    /// A handshake that waits for its first line.
    pub fn new() -> (h: Handshake<String>)
        ensures
            h@ == Handshake::<Seq<char>>::Start,
    {
        Handshake::Start
    }

    /// Reads the first line.
    fn on_first_line(line: &str) -> (r: (Handshake<String>, Output))
        ensures
            (r.0@, r.1@) == first_line(line@),
    {
        match parse_login(line) {
            Login::Malformed => (
                Handshake::Rejected,
                Output::saying(
                    Reply::tinted(
                        "Invalid input format. Please enter 'register' or 'login': \n\rregister username password:",
                        Color::Red,
                    ),
                ),
            ),
            Login::Register { username, password } => {
                let name = username.clone();
                (
                    Handshake::Creating { username: name },
                    Output::asking(Query::CreateAccount { username, password }),
                )
            },
            Login::Login { username, password } => {
                let name = username.clone();
                (
                    Handshake::Verifying { username: name },
                    Output::asking(Query::Authenticate { username, password }),
                )
            },
            Login::Unknown => (
                Handshake::Rejected,
                Output::saying(
                    Reply::plain(
                        "Invalid command, use 'register' or 'login' followed by username and password.",
                    ),
                ),
            ),
        }
    }

    /// Takes the store's answer to the creation of an account.
    fn on_created(username: String, answer: Answer) -> (r: (Handshake<String>, Output))
        ensures
            (r.0@, r.1@) == created(username@, answer@),
    {
        match answer {
            Answer::Done => {
                let registered = Reply::of_three(
                    Span::plain("Registration successful, welcome "),
                    Span::strong(username.as_str(), Color::Green),
                    Span::plain("!"),
                );
                let writes = vec![registered];
                proof {
                    assert(reply_views(writes@) =~= seq![registered_reply(username@)]);
                }
                (Handshake::Admitted { username }, let_in(writes))
            },
            Answer::Failed(detail) => {
                let text = String::from_str("Registration failed: ").concat(detail.as_str());
                (Handshake::Rejected, Output::saying(Reply::plain(text.as_str())))
            },
            _ => (Handshake::Rejected, Output::saying(failure())),
        }
    }

    /// Takes the store's answer to the check of a password.
    fn on_verified(username: String, answer: Answer, registry: &Shared) -> (r: (
        Handshake<String>,
        Output,
    ))
        requires
            registry.wf(),
        ensures
            (r.0@, r.1@) == verified(username@, answer@, *registry),
    {
        match answer {
            Answer::Verdict(right) => {
                if !right {
                    (
                        Handshake::Rejected,
                        Output::saying(Reply::plain("Authentication failed, please try again.")),
                    )
                } else if registry.is_user_connected(username.as_str()) {
                    (Handshake::Rejected, Output::saying(already_connected()))
                } else {
                    let name = username.clone();
                    (
                        Handshake::Screening { username: name },
                        Output::asking(Query::GetRole { username }),
                    )
                }
            },
            _ => (Handshake::Rejected, Output::saying(failure())),
        }
    }

    /// Takes the store's answer to the lookup of the role.
    fn on_screened(username: String, answer: Answer) -> (r: (Handshake<String>, Output))
        ensures
            (r.0@, r.1@) == screened(username@, answer@),
    {
        match answer {
            Answer::Role(role) => {
                if role == Role::Banned {
                    (
                        Handshake::Rejected,
                        Output::saying(Reply::plain("You are banned, please try again later.")),
                    )
                } else {
                    let writes: Vec<Reply> = Vec::new();
                    proof {
                        assert(reply_views(writes@) =~= Seq::empty());
                    }
                    (Handshake::Admitted { username }, let_in(writes))
                }
            },
            _ => (Handshake::Rejected, Output::saying(failure())),
        }
    }

    /// Takes one event and says what is to be written and asked. The
    /// handshake is over once `self` is `Admitted` or `Rejected`.
    pub fn step(&mut self, event: Event, registry: &Shared) -> (out: Output)
        requires
            registry.wf(),
        ensures
            (final(self)@, out@) == handshake_step(old(self)@, event@, *registry),
            all_drawable(out@.writes),
    {
        proof {
            lemma_handshake_writes_are_drawable(old(self)@, event@, *registry);
        }
        let mut state = Handshake::Rejected;
        core::mem::swap(self, &mut state);
        let (next, out) = match (state, event) {
            (Handshake::Admitted { username }, _) => (
                Handshake::Admitted { username },
                Output::nothing(),
            ),
            (Handshake::Rejected, _) => (Handshake::Rejected, Output::nothing()),
            (_, Event::Closed) => (Handshake::Rejected, Output::nothing()),
            (Handshake::Start, Event::Line { text, at }) => Self::on_first_line(text.as_str()),
            (Handshake::Creating { username }, Event::Answer(answer)) => Self::on_created(
                username,
                answer,
            ),
            (Handshake::Verifying { username }, Event::Answer(answer)) => Self::on_verified(
                username,
                answer,
                registry,
            ),
            (Handshake::Screening { username }, Event::Answer(answer)) => Self::on_screened(
                username,
                answer,
            ),
            (state, _) => (state, Output::nothing()),
        };
        *self = next;
        out
    }
}

} // verus!
