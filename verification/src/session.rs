//! A session after it was let in: what it does with each line, each text
//! from its inbound channel and each answer of the store, until it leaves.

use vstd::prelude::*;
use vstd::string::*;
use colored::Color;
use tokio::sync::mpsc::UnboundedReceiver;
use crate::commands::{format_message_history, history_text};
use crate::exchange::{asking, causing, nothing, saying, Event, EventView, Output, OutputView};
use crate::handshake::{failure, failure_reply};
use crate::message::{message_spans, Message};
use crate::protocol::{command_of, parse_command, text_view, Command, Moderation, Role, Scope};
use crate::registry::{Fanout, RegistryError, Shared};
use crate::reply::{
    all_drawable, plain_reply, reply_views, tinted_reply, Effect, EffectView, Reply, ReplyView,
};
use crate::store::{Answer, AnswerView, Query};
use crate::style::{
    color_of, lemma_renders_one, lemma_unescaped_holds_no_reset, parse_color, plain, render,
    renders, reset_seq, selects, span_views, strong, style_prefix, tint, Span,
};
use crate::table::{
    help_rows, help_table, lemma_help_is_drawable, lemma_presence_is_drawable, presence_rows,
    presence_table,
};
use crate::text::same_text;

verus! {

/// What the server is set up with.
pub struct Config {
    /// The secret that makes an admin of whoever names it.
    pub admin_secret: String,
    /// The text that, coming in through the inbound channel, ends a
    /// session: the notice of a ban.
    pub ban_notice: String,
}

/// What a command waits for from the store. `T` is `String` in running
/// code and `Seq<char>` in contracts.
#[derive(Debug, PartialEq, Eq)]
pub enum Pending<T> {
    /// The accounts, for the table of who is online.
    Listing,
    /// The messages, to be shown under `label`.
    History { label: T },
    /// Whether the old password was right, before `new` replaces it.
    CheckingPassword { new: T },
    /// The change of password.
    UpdatingPassword,
    /// The change of the session's own role to admin.
    Elevating,
    /// The session's own role, before `action` is taken.
    Authorizing { action: Moderation, argument: Option<T> },
    /// The change of `target`'s role.
    Applying { action: Moderation, target: T },
    /// The session's own role, before its message goes out.
    Vetting { content: T, timestamp: T },
    /// The recording of the message.
    Recording { content: T, timestamp: T },
}

impl View for Pending<String> {
    type V = Pending<Seq<char>>;

    open spec fn view(&self) -> Pending<Seq<char>> {
        match *self {
            Pending::Listing => Pending::Listing,
            Pending::History { label } => Pending::History { label: label@ },
            Pending::CheckingPassword { new } => Pending::CheckingPassword { new: new@ },
            Pending::UpdatingPassword => Pending::UpdatingPassword,
            Pending::Elevating => Pending::Elevating,
            Pending::Authorizing { action, argument } => Pending::Authorizing {
                action,
                argument: text_view(argument),
            },
            Pending::Applying { action, target } => Pending::Applying { action, target: target@ },
            Pending::Vetting { content, timestamp } => Pending::Vetting {
                content: content@,
                timestamp: timestamp@,
            },
            Pending::Recording { content, timestamp } => Pending::Recording {
                content: content@,
                timestamp: timestamp@,
            },
        }
    }
}

/// Where a session stands.
#[derive(Debug, PartialEq, Eq)]
pub enum Phase<T> {
    /// Waiting for a line or for a text from the inbound channel.
    Active,
    /// Waiting for the store in the middle of a command.
    Busy(Pending<T>),
    /// Over. Nothing follows.
    Terminated,
}

impl View for Phase<String> {
    type V = Phase<Seq<char>>;

    open spec fn view(&self) -> Phase<Seq<char>> {
        match *self {
            Phase::Active => Phase::Active,
            Phase::Busy(pending) => Phase::Busy(pending@),
            Phase::Terminated => Phase::Terminated,
        }
    }
}

/// A session that was let in.
pub struct Peer {
    /// The receiving half of the inbound channel.
    pub rx: UnboundedReceiver<String>,
    /// The colour in which the session's name is shown.
    pub color: Color,
    /// The key of the session in the registry.
    pub endpoint: u64,
    /// The display name.
    pub username: String,
    pub phase: Phase<String>,
}

/// A session, as contracts see it.
pub ghost struct PeerView {
    pub color: Color,
    pub endpoint: u64,
    pub username: Seq<char>,
    pub phase: Phase<Seq<char>>,
}

impl View for Peer {
    type V = PeerView;

    open spec fn view(&self) -> PeerView {
        PeerView {
            color: self.color,
            endpoint: self.endpoint,
            username: self.username@,
            phase: self.phase@,
        }
    }
}

/// Who a session is to the others: its display name and the colour of it.
pub ghost struct Who {
    pub username: Seq<char>,
    pub color: Color,
}

impl PeerView {
    /// Who the session is to the others.
    pub open spec fn who(self) -> Who {
        Who { username: self.username, color: self.color }
    }
}

impl Peer {
    /// Who the session is to the others.
    pub open spec fn who(&self) -> Who {
        self@.who()
    }
}

/// What a step makes of a session: where it stands afterwards, in which
/// colour, and what is to be carried out.
pub ghost struct Turn {
    pub phase: Phase<Seq<char>>,
    pub color: Color,
    pub out: OutputView,
}

/// The spans of the notice of a ban.
pub open spec fn ban_spans() -> Seq<Span<Seq<char>>> {
    seq![tint("You have been banned."@, Color::Red)]
}

/// The notice of a ban as it is sent where colouring is on: in red.
pub open spec fn ban_notice_in_red() -> Seq<char> {
    seq!['\u{1b}', '[', '3', '1', 'm'] + "You have been banned."@ + reset_seq()
}

/// The notice to the others that `username` came in.
pub open spec fn joined_spans(username: Seq<char>) -> Seq<Span<Seq<char>>> {
    seq![plain("\n\r-> User joined: "@), strong(username, Color::Blue), plain("\n\r"@)]
}

/// The notice to the others that `username` left.
pub open spec fn left_spans(username: Seq<char>) -> Seq<Span<Seq<char>>> {
    seq![plain("\n\r<- User left: "@), strong(username, Color::Red), plain("\n\r"@)]
}

/// What the target of a whisper is sent.
pub open spec fn whisper_spans(from: Seq<char>, text: Seq<char>) -> Seq<Span<Seq<char>>> {
    seq![strong(from, Color::Green), plain("(whisper): "@), plain(text)]
}

/// How a command is to be written, for whoever left its argument out.
pub open spec fn usage_text(action: Moderation) -> Seq<char> {
    match action {
        Moderation::Ban => "Invalid command format. Use /ban <username>"@,
        Moderation::Unban => "Invalid command format. Use /unban <username>"@,
        Moderation::Mute => "Invalid command format. Use /mute <username>"@,
        Moderation::Unmute => "Invalid command format. Use /unmute <username>"@,
    }
}

/// What follows the target's name in the reply to a moderator.
pub open spec fn done_text(action: Moderation) -> Seq<char> {
    match action {
        Moderation::Ban => " has been banned."@,
        Moderation::Unban => " has been unbanned."@,
        Moderation::Mute => " has been muted."@,
        Moderation::Unmute => " has been unmuted."@,
    }
}

/// The reply to a moderator whose action was taken.
pub open spec fn moderated_reply(action: Moderation, target: Seq<char>) -> ReplyView {
    ReplyView::Text(seq![tint(target, Color::Green), plain(done_text(action))])
}

/// The reply to a change of colour.
pub open spec fn recolored_reply(name: Seq<char>) -> ReplyView {
    ReplyView::Text(
        seq![plain("Text color changed to "@), tint(name, Color::Green), plain("."@)],
    )
}

/// The session goes on as it is, with `out` to be carried out.
pub open spec fn resting(who: Who, out: OutputView) -> Turn {
    Turn { phase: Phase::Active, color: who.color, out }
}

/// The session asks the store and waits.
pub open spec fn waiting(who: Who, query: Query<Seq<char>>, pending: Pending<Seq<char>>) -> Turn {
    Turn { phase: Phase::Busy(pending), color: who.color, out: asking(query) }
}

/// The session ends: it leaves the registry, and the others are told.
pub open spec fn leaving(who: Who, writes: Seq<ReplyView>) -> Turn {
    Turn {
        phase: Phase::Terminated,
        color: who.color,
        out: OutputView { writes, query: None, effect: EffectView::Leave },
    }
}

/// What a text from the inbound channel leads to: it is written as it is,
/// and the notice of a ban ends the session.
pub open spec fn on_inbound(
    who: Who,
    phase: Phase<Seq<char>>,
    text: Seq<char>,
    ban_notice: Seq<char>,
) -> Turn {
    if text == ban_notice {
        leaving(who, seq![plain_reply(text)])
    } else {
        Turn { phase, color: who.color, out: saying(plain_reply(text)) }
    }
}

/// What a whisper leads to.
pub open spec fn on_whisper(
    who: Who,
    arguments: Option<(Seq<char>, Seq<char>)>,
    registry: Shared,
) -> Turn {
    match arguments {
        None => resting(
            who,
            saying(plain_reply("Invalid private message format. Use /whisper <username> <message>"@)),
        ),
        Some((target, text)) => match registry.located(target) {
            Some(to) => resting(
                who,
                causing(EffectView::Direct { to, text: whisper_spans(who.username, text) }),
            ),
            None => resting(who, saying(plain_reply("User not found or not connected."@))),
        },
    }
}

/// What a request for history leads to.
pub open spec fn on_history(who: Who, scope: Scope<Seq<char>>) -> Turn {
    match scope {
        Scope::Own => waiting(
            who,
            Query::History(Some(who.username)),
            Pending::History { label: who.username },
        ),
        Scope::Everyone => waiting(
            who,
            Query::History(None),
            Pending::History { label: "all users"@ },
        ),
        Scope::Of(name) => waiting(
            who,
            Query::History(Some(name)),
            Pending::History { label: name },
        ),
    }
}

/// What a change of colour leads to, given the colour that the name was
/// read as.
pub open spec fn on_color(who: Who, name: Option<Seq<char>>, read: Option<Color>) -> Turn {
    match name {
        None => resting(who, saying(plain_reply("Invalid command format. Use /color <color_name>"@))),
        Some(name) => match read {
            Some(color) => Turn {
                phase: Phase::Active,
                color,
                out: saying(recolored_reply(name)),
            },
            None => resting(
                who,
                saying(
                    tinted_reply("Invalid color. Please provide a valid color name."@, Color::Red),
                ),
            ),
        },
    }
}

/// What a line leads to.
pub open spec fn on_line(
    who: Who,
    text: Seq<char>,
    at: Seq<char>,
    registry: Shared,
    admin_secret: Seq<char>,
) -> Turn {
    match command_of(text) {
        Command::ListUsers => waiting(who, Query::ListAccounts, Pending::Listing),
        Command::Whisper(arguments) => on_whisper(who, arguments, registry),
        Command::History(scope) => on_history(who, scope),
        Command::ChangePassword(None) => resting(
            who,
            saying(
                plain_reply(
                    "Invalid command format. Use /changepassword <old_password> <new_password>"@,
                ),
            ),
        ),
        Command::ChangePassword(Some((old, new))) => waiting(
            who,
            Query::Authenticate { username: who.username, password: old },
            Pending::CheckingPassword { new },
        ),
        Command::Color(name) => on_color(
            who,
            name,
            match name {
                Some(name) => color_of(name),
                None => None,
            },
        ),
        Command::Admin(None) => resting(
            who,
            saying(plain_reply("Invalid command format. Use /admin <password>"@)),
        ),
        Command::Admin(Some(secret)) => if secret == admin_secret {
            waiting(
                who,
                Query::SetRole { username: who.username, role: Role::Admin },
                Pending::Elevating,
            )
        } else {
            resting(who, saying(tinted_reply("Incorrect password. Please try again."@, Color::Red)))
        },
        Command::Moderate(action, argument) => waiting(
            who,
            Query::GetRole { username: who.username },
            Pending::Authorizing { action, argument },
        ),
        Command::Help => resting(who, saying(ReplyView::Table(help_rows()))),
        Command::Say(content) => waiting(
            who,
            Query::GetRole { username: who.username },
            Pending::Vetting { content, timestamp: at },
        ),
    }
}

/// What the store's answer leads to. An answer that does not fit the
/// question, and any failure, is reported to the session, which goes on.
pub open spec fn on_answer(
    who: Who,
    pending: Pending<Seq<char>>,
    answer: AnswerView,
    registry: Shared,
    ban_notice: Seq<char>,
) -> Turn {
    match (pending, answer) {
        (Pending::Listing, AnswerView::Accounts(users)) => resting(
            who,
            saying(ReplyView::Table(presence_rows(registry, users))),
        ),
        (Pending::History { label }, AnswerView::History(lines)) => resting(
            who,
            saying(plain_reply(history_text(label, lines))),
        ),
        (Pending::CheckingPassword { new }, AnswerView::Verdict(right)) => if right {
            waiting(
                who,
                Query::UpdatePassword { username: who.username, password: new },
                Pending::UpdatingPassword,
            )
        } else {
            resting(who, saying(tinted_reply("Incorrect password. Please try again."@, Color::Red)))
        },
        (Pending::UpdatingPassword, AnswerView::Done) => resting(
            who,
            saying(tinted_reply("Password updated successfully."@, Color::Green)),
        ),
        (Pending::Elevating, AnswerView::Done) => resting(
            who,
            saying(tinted_reply("You are now an admin."@, Color::Green)),
        ),
        (Pending::Authorizing { action, argument }, AnswerView::Role(role)) => if role
            != Role::Admin {
            resting(who, saying(tinted_reply("You are not an admin."@, Color::Red)))
        } else {
            match argument {
                None => resting(who, saying(plain_reply(usage_text(action)))),
                Some(target) => waiting(
                    who,
                    Query::SetRole { username: target, role: action.spec_role() },
                    Pending::Applying { action, target },
                ),
            }
        },
        (Pending::Applying { action, target }, AnswerView::Done) => resting(
            who,
            OutputView {
                writes: seq![moderated_reply(action, target)],
                query: None,
                effect: match registry.located(target) {
                    Some(to) => if action == Moderation::Ban {
                        EffectView::Direct { to, text: seq![plain(ban_notice)] }
                    } else {
                        EffectView::Silent
                    },
                    None => EffectView::Silent,
                },
            },
        ),
        (Pending::Vetting { content, timestamp }, AnswerView::Role(role)) => if role
            == Role::Muted {
            resting(who, saying(tinted_reply("You are muted."@, Color::Red)))
        } else {
            waiting(
                who,
                Query::RecordMessage { sender: who.username, content, timestamp },
                Pending::Recording { content, timestamp },
            )
        },
        (Pending::Recording { content, timestamp }, AnswerView::Done) => resting(
            who,
            causing(
                EffectView::Broadcast(message_spans(who.username, content, timestamp, who.color)),
            ),
        ),
        _ => resting(who, saying(failure_reply())),
    }
}

/// One step of a session. A session that is over takes no further step.
/// While the store is asked, no line is taken; what is not expected where
/// the session stands is passed over.
pub open spec fn peer_step(
    p: PeerView,
    event: EventView,
    registry: Shared,
    admin_secret: Seq<char>,
    ban_notice: Seq<char>,
) -> Turn {
    let who = p.who();
    let idle = Turn { phase: p.phase, color: p.color, out: nothing() };
    match (p.phase, event) {
        (Phase::Terminated, _) => idle,
        (_, EventView::Closed) => leaving(who, Seq::empty()),
        (_, EventView::Inbound(text)) => on_inbound(who, p.phase, text, ban_notice),
        (Phase::Active, EventView::Line { text, at }) => on_line(
            who,
            text,
            at,
            registry,
            admin_secret,
        ),
        (Phase::Busy(pending), EventView::Answer(answer)) => on_answer(
            who,
            pending,
            answer,
            registry,
            ban_notice,
        ),
        _ => idle,
    }
}

/// Whatever a step writes can be shown: the only tables are the table of
/// commands and the table of accounts, and a table can hold both.
pub proof fn lemma_step_writes_are_drawable(
    p: PeerView,
    event: EventView,
    registry: Shared,
    admin_secret: Seq<char>,
    ban_notice: Seq<char>,
)
    ensures
        all_drawable(peer_step(p, event, registry, admin_secret, ban_notice).out.writes),
{
    lemma_help_is_drawable();
    match (p.phase, event) {
        (Phase::Busy(Pending::Listing), EventView::Answer(AnswerView::Accounts(users))) => {
            lemma_presence_is_drawable(registry, users);
        },
        _ => {},
    }
}

/// What carrying out `effect` for the session at `endpoint` does: to the
/// registry, which only a departure changes, and to the channels of the
/// others, each of which is offered the text once or not at all.
pub open spec fn performed(
    endpoint: u64,
    effect: EffectView,
    before: Shared,
    after: Shared,
    report: Fanout,
) -> bool {
    match effect {
        EffectView::Silent => {
            &&& after.endpoints() == before.endpoints()
            &&& after.names() == before.names()
            &&& report.covers(Set::empty())
        },
        EffectView::Broadcast(_) => {
            &&& after.endpoints() == before.endpoints()
            &&& after.names() == before.names()
            &&& report.covers(before.endpoints().remove(endpoint))
        },
        EffectView::Direct { to, .. } => {
            &&& after.endpoints() == before.endpoints()
            &&& after.names() == before.names()
            &&& report.covers(
                if before.endpoints().contains(to) {
                    set![to]
                } else {
                    Set::empty()
                },
            )
        },
        EffectView::Leave => {
            &&& after.endpoints() == before.endpoints().remove(endpoint)
            &&& after.names() == before.names().remove(endpoint)
            &&& report.covers(before.endpoints().remove(endpoint))
        },
    }
}

/// What a step made of a session, in running code.
pub struct Made {
    pub phase: Phase<String>,
    pub color: Color,
    pub out: Output,
}

impl View for Made {
    type V = Turn;

    open spec fn view(&self) -> Turn {
        Turn { phase: self.phase@, color: self.color, out: self.out@ }
    }
}

impl Moderation {
    /// How the command is to be written.
    pub fn usage(self) -> (text: &'static str)
        ensures
            text@ == usage_text(self),
    {
        match self {
            Moderation::Ban => "Invalid command format. Use /ban <username>",
            Moderation::Unban => "Invalid command format. Use /unban <username>",
            Moderation::Mute => "Invalid command format. Use /mute <username>",
            Moderation::Unmute => "Invalid command format. Use /unmute <username>",
        }
    }

    /// What follows the target's name once the action is taken.
    pub fn done(self) -> (text: &'static str)
        ensures
            text@ == done_text(self),
    {
        match self {
            Moderation::Ban => " has been banned.",
            Moderation::Unban => " has been unbanned.",
            Moderation::Mute => " has been muted.",
            Moderation::Unmute => " has been unmuted.",
        }
    }
}

impl Config {
    /// The setup of a server whose admin secret is `admin_secret`. The
    /// notice of a ban is rendered once, here, so that what is sent to a
    /// banned session is what that session compares with.
    pub fn new(admin_secret: String) -> (config: Config)
        ensures
            config.admin_secret == admin_secret,
            renders(ban_spans(), config.ban_notice@),
            config.ban_notice@ == "You have been banned."@ || config.ban_notice@
                == ban_notice_in_red(),
    {
        let spans = vec![Span::tint("You have been banned.", Color::Red)];
        proof {
            assert(span_views(spans@) =~= ban_spans());
        }
        let ban_notice = render(&spans);
        proof {
            let text = "You have been banned."@;
            reveal_strlit("You have been banned.");
            lemma_unescaped_holds_no_reset(text);
            lemma_renders_one(tint(text, Color::Red), ban_notice@);
            if ban_notice@ != text {
                let code = choose|code: Seq<char>| #[trigger]
                    selects(code, Color::Red) && ban_notice@ == style_prefix(code, false) + text
                        + reset_seq();
                assert(style_prefix(code, false) =~= seq!['\u{1b}', '[', '3', '1', 'm']);
            }
        }
        Config { admin_secret, ban_notice }
    }
}

/// The notice to the others that `username` came in.
pub fn joined_notice(username: &str) -> (spans: Vec<Span<String>>)
    ensures
        span_views(spans@) == joined_spans(username@),
{
    let spans = vec![
        Span::plain("\n\r-> User joined: "),
        Span::strong(username, Color::Blue),
        Span::plain("\n\r"),
    ];
    proof {
        assert(span_views(spans@) =~= joined_spans(username@));
    }
    spans
}

/// The notice to the others that `username` left.
pub fn left_notice(username: &str) -> (spans: Vec<Span<String>>)
    ensures
        span_views(spans@) == left_spans(username@),
{
    let spans = vec![
        Span::plain("\n\r<- User left: "),
        Span::strong(username, Color::Red),
        Span::plain("\n\r"),
    ];
    proof {
        assert(span_views(spans@) =~= left_spans(username@));
    }
    spans
}

impl Peer {
    /// Brings a session online under `username`: registers it at
    /// `endpoint` and keeps the receiving half of its channel. Refused,
    /// with nothing changed, where the name belongs to another endpoint.
    pub fn new(state: &mut Shared, endpoint: u64, username: String) -> (r: Result<
        Peer,
        RegistryError,
    >)
        requires
            old(state).wf(),
        ensures
            final(state).wf(),
            r is Err <==> old(state).bound_elsewhere(username@, endpoint),
            match r {
                Ok(peer) => {
                    &&& peer@ == PeerView {
                        color: Color::Green,
                        endpoint,
                        username: username@,
                        phase: Phase::Active,
                    }
                    &&& final(state).endpoints() == old(state).endpoints().insert(endpoint)
                    &&& final(state).names() == old(state).names().insert(endpoint, username@)
                },
                Err(e) => {
                    &&& e == RegistryError::AlreadyConnected
                    &&& final(state).endpoints() == old(state).endpoints()
                    &&& final(state).names() == old(state).names()
                },
            },
    {
        match state.register(endpoint, username.as_str()) {
            Ok(rx) => Ok(Peer { rx, color: Color::Green, endpoint, username, phase: Phase::Active }),
            Err(e) => Err(e),
        }
    }

    /// Brings a session online as `new` does, and tells the others that
    /// it came in.
    pub fn enter(state: &mut Shared, endpoint: u64, username: String) -> (r: Result<
        (Peer, Fanout),
        RegistryError,
    >)
        requires
            old(state).wf(),
        ensures
            final(state).wf(),
            r is Err <==> old(state).bound_elsewhere(username@, endpoint),
            match r {
                Ok((peer, report)) => {
                    &&& peer@ == PeerView {
                        color: Color::Green,
                        endpoint,
                        username: username@,
                        phase: Phase::Active,
                    }
                    &&& final(state).endpoints() == old(state).endpoints().insert(endpoint)
                    &&& final(state).names() == old(state).names().insert(endpoint, username@)
                    &&& report.covers(old(state).endpoints().remove(endpoint))
                },
                Err(e) => {
                    &&& e == RegistryError::AlreadyConnected
                    &&& final(state).endpoints() == old(state).endpoints()
                    &&& final(state).names() == old(state).names()
                },
            },
    {
        let notice = render(&joined_notice(username.as_str()));
        match Peer::new(state, endpoint, username) {
            Ok(peer) => {
                let report = state.broadcast(endpoint, notice.as_str());
                proof {
                    assert(state.endpoints().remove(endpoint) =~= old(state).endpoints().remove(
                        endpoint,
                    ));
                }
                Ok((peer, report))
            },
            Err(e) => Err(e),
        }
    }

    /// Carries out the effect of a step: sends what is to be sent, and
    /// takes the session out of the registry where it leaves.
    pub fn perform(&self, registry: &mut Shared, effect: &Effect) -> (report: Fanout)
        requires
            old(registry).wf(),
        ensures
            final(registry).wf(),
            performed(self.endpoint, effect@, *old(registry), *final(registry), report),
    {
        match effect {
            Effect::Silent => Fanout { delivered: Vec::new(), skipped: Vec::new() },
            Effect::Broadcast(text) => {
                let line = render(text);
                registry.broadcast(self.endpoint, line.as_str())
            },
            Effect::Direct { to, text } => {
                let line = render(text);
                let mut report = Fanout { delivered: Vec::new(), skipped: Vec::new() };
                match registry.send_to(*to, line.as_str()) {
                    Some(true) => {
                        report.delivered.push(*to);
                        assert(report.delivered@[0] == *to);
                    },
                    Some(false) => {
                        report.skipped.push(*to);
                        assert(report.skipped@[0] == *to);
                    },
                    None => {},
                }
                report
            },
            Effect::Leave => {
                let line = render(&left_notice(self.username.as_str()));
                registry.deregister(self.endpoint);
                let report = registry.broadcast(self.endpoint, line.as_str());
                proof {
                    assert(registry.endpoints().remove(self.endpoint) =~= old(
                        registry,
                    ).endpoints().remove(self.endpoint));
                }
                report
            },
        }
    }

    /// The session goes on, with `out` to be carried out.
    fn rest(&self, out: Output) -> (m: Made)
        ensures
            m@ == resting(self.who(), out@),
    {
        Made { phase: Phase::Active, color: self.color, out }
    }

    /// The session says one thing and goes on.
    fn say(&self, reply: Reply) -> (m: Made)
        ensures
            m@ == resting(self.who(), saying(reply@)),
    {
        self.rest(Output::saying(reply))
    }

    /// The session asks the store and waits.
    fn wait(&self, query: Query<String>, pending: Pending<String>) -> (m: Made)
        ensures
            m@ == waiting(self.who(), query@, pending@),
    {
        Made { phase: Phase::Busy(pending), color: self.color, out: Output::asking(query) }
    }

    /// Takes a text from the inbound channel.
    fn inbound(&self, phase: Phase<String>, text: String, config: &Config) -> (m: Made)
        ensures
            m@ == on_inbound(self.who(), phase@, text@, config.ban_notice@),
    {
        let last = same_text(text.as_str(), config.ban_notice.as_str());
        let writes = vec![Reply::plain(text.as_str())];
        proof {
            assert(reply_views(writes@) =~= seq![plain_reply(text@)]);
        }
        if last {
            Made {
                phase: Phase::Terminated,
                color: self.color,
                out: Output { writes, query: None, effect: Effect::Leave },
            }
        } else {
            Made {
                phase,
                color: self.color,
                out: Output { writes, query: None, effect: Effect::Silent },
            }
        }
    }

    /// Takes a whisper.
    fn whisper(&self, arguments: Option<(String, String)>, registry: &Shared) -> (m: Made)
        requires
            registry.wf(),
        ensures
            m@ == on_whisper(self.who(), crate::protocol::pair_view(arguments), *registry),
    {
        match arguments {
            None => self.say(
                Reply::plain("Invalid private message format. Use /whisper <username> <message>"),
            ),
            Some((target, text)) => match registry.get_addr_by_username(target.as_str()) {
                Some(to) => {
                    let spans = vec![
                        Span::strong(self.username.as_str(), Color::Green),
                        Span::plain("(whisper): "),
                        Span::plain(text.as_str()),
                    ];
                    proof {
                        assert(span_views(spans@) =~= whisper_spans(self.username@, text@));
                    }
                    self.rest(Output::causing(Effect::Direct { to, text: spans }))
                },
                None => self.say(Reply::plain("User not found or not connected.")),
            },
        }
    }

    /// Takes a request for history.
    fn history(&self, scope: Scope<String>) -> (m: Made)
        ensures
            m@ == on_history(self.who(), scope@),
    {
        match scope {
            Scope::Own => self.wait(
                Query::History(Some(self.username.clone())),
                Pending::History { label: self.username.clone() },
            ),
            Scope::Everyone => self.wait(
                Query::History(None),
                Pending::History { label: String::from_str("all users") },
            ),
            Scope::Of(name) => {
                let label = name.clone();
                self.wait(Query::History(Some(name)), Pending::History { label })
            },
        }
    }

    /// Takes a change of colour, given the colour that the name was read
    /// as.
    pub fn recolor(&self, name: Option<String>, read: Option<Color>) -> (m: Made)
        ensures
            m@ == on_color(self.who(), text_view(name), read),
    {
        match name {
            None => self.say(Reply::plain("Invalid command format. Use /color <color_name>")),
            Some(name) => match read {
                Some(color) => Made {
                    phase: Phase::Active,
                    color,
                    out: Output::saying(
                        Reply::of_three(
                            Span::plain("Text color changed to "),
                            Span::tint(name.as_str(), Color::Green),
                            Span::plain("."),
                        ),
                    ),
                },
                None => self.say(
                    Reply::tinted("Invalid color. Please provide a valid color name.", Color::Red),
                ),
            },
        }
    }

    /// Takes a line.
    fn line(&self, text: String, at: String, registry: &Shared, config: &Config) -> (m: Made)
        requires
            registry.wf(),
        ensures
            m@ == on_line(self.who(), text@, at@, *registry, config.admin_secret@),
    {
        match parse_command(text.as_str()) {
            Command::ListUsers => self.wait(Query::ListAccounts, Pending::Listing),
            Command::Whisper(arguments) => self.whisper(arguments, registry),
            Command::History(scope) => self.history(scope),
            Command::ChangePassword(None) => self.say(
                Reply::plain(
                    "Invalid command format. Use /changepassword <old_password> <new_password>",
                ),
            ),
            Command::ChangePassword(Some((old, new))) => self.wait(
                Query::Authenticate { username: self.username.clone(), password: old },
                Pending::CheckingPassword { new },
            ),
            Command::Color(name) => {
                let read = match &name {
                    Some(name) => parse_color(name.as_str()),
                    None => None,
                };
                self.recolor(name, read)
            },
            Command::Admin(None) => self.say(
                Reply::plain("Invalid command format. Use /admin <password>"),
            ),
            Command::Admin(Some(secret)) => {
                if same_text(secret.as_str(), config.admin_secret.as_str()) {
                    self.wait(
                        Query::SetRole { username: self.username.clone(), role: Role::Admin },
                        Pending::Elevating,
                    )
                } else {
                    self.say(Reply::tinted("Incorrect password. Please try again.", Color::Red))
                }
            },
            Command::Moderate(action, argument) => self.wait(
                Query::GetRole { username: self.username.clone() },
                Pending::Authorizing { action, argument },
            ),
            Command::Help => self.say(Reply::Table(help_table())),
            Command::Say(content) => self.wait(
                Query::GetRole { username: self.username.clone() },
                Pending::Vetting { content, timestamp: at },
            ),
        }
    }

    /// Takes the change of a target's role: the moderator is told, and a
    /// banned target that is online is sent the notice that ends its
    /// session.
    fn applied(
        &self,
        action: Moderation,
        target: String,
        registry: &Shared,
        config: &Config,
    ) -> (m: Made)
        requires
            registry.wf(),
        ensures
            m@ == on_answer(
                self.who(),
                Pending::Applying { action, target: target@ },
                AnswerView::Done,
                *registry,
                config.ban_notice@,
            ),
    {
        let told = vec![Span::tint(target.as_str(), Color::Green), Span::plain(action.done())];
        proof {
            assert(span_views(told@) =~= seq![
                tint(target@, Color::Green),
                plain(done_text(action)),
            ]);
        }
        let writes = vec![Reply::Text(told)];
        proof {
            assert(reply_views(writes@) =~= seq![moderated_reply(action, target@)]);
        }
        let effect = match registry.get_addr_by_username(target.as_str()) {
            Some(to) => {
                if action == Moderation::Ban {
                    let text = vec![Span::plain(config.ban_notice.as_str())];
                    proof {
                        assert(span_views(text@) =~= seq![plain(config.ban_notice@)]);
                    }
                    Effect::Direct { to, text }
                } else {
                    Effect::Silent
                }
            },
            None => Effect::Silent,
        };
        self.rest(Output { writes, query: None, effect })
    }

    /// Takes the store's answer.
    fn answer(
        &self,
        pending: Pending<String>,
        answer: Answer,
        registry: &Shared,
        config: &Config,
    ) -> (m: Made)
        requires
            registry.wf(),
        ensures
            m@ == on_answer(self.who(), pending@, answer@, *registry, config.ban_notice@),
    {
        match (pending, answer) {
            (Pending::Listing, Answer::Accounts(users)) => self.say(
                Reply::Table(presence_table(registry, &users)),
            ),
            (Pending::History { label }, Answer::History(lines)) => {
                let text = format_message_history(label.as_str(), lines.as_slice());
                self.say(Reply::plain(text.as_str()))
            },
            (Pending::CheckingPassword { new }, Answer::Verdict(right)) => {
                if right {
                    self.wait(
                        Query::UpdatePassword { username: self.username.clone(), password: new },
                        Pending::UpdatingPassword,
                    )
                } else {
                    self.say(Reply::tinted("Incorrect password. Please try again.", Color::Red))
                }
            },
            (Pending::UpdatingPassword, Answer::Done) => self.say(
                Reply::tinted("Password updated successfully.", Color::Green),
            ),
            (Pending::Elevating, Answer::Done) => self.say(
                Reply::tinted("You are now an admin.", Color::Green),
            ),
            (Pending::Authorizing { action, argument }, Answer::Role(role)) => {
                if role != Role::Admin {
                    self.say(Reply::tinted("You are not an admin.", Color::Red))
                } else {
                    match argument {
                        None => self.say(Reply::plain(action.usage())),
                        Some(target) => {
                            let username = target.clone();
                            self.wait(
                                Query::SetRole { username, role: action.role() },
                                Pending::Applying { action, target },
                            )
                        },
                    }
                }
            },
            (Pending::Applying { action, target }, Answer::Done) => self.applied(
                action,
                target,
                registry,
                config,
            ),
            (Pending::Vetting { content, timestamp }, Answer::Role(role)) => {
                if role == Role::Muted {
                    self.say(Reply::tinted("You are muted.", Color::Red))
                } else {
                    let query = Query::RecordMessage {
                        sender: self.username.clone(),
                        content: content.clone(),
                        timestamp: timestamp.clone(),
                    };
                    self.wait(query, Pending::Recording { content, timestamp })
                }
            },
            (Pending::Recording { content, timestamp }, Answer::Done) => {
                let message = Message::from_database(self.username.clone(), content, timestamp);
                self.rest(Output::causing(Effect::Broadcast(message.styled(self.color))))
            },
            _ => self.say(failure()),
        }
    }

    /// Takes one event and says what is to be written, asked and sent.
    /// The session is over once its phase is `Terminated`.
    pub fn step(&mut self, event: Event, registry: &Shared, config: &Config) -> (out: Output)
        requires
            registry.wf(),
        ensures
            final(self)@ == (PeerView {
                phase: peer_step(
                    old(self)@,
                    event@,
                    *registry,
                    config.admin_secret@,
                    config.ban_notice@,
                ).phase,
                color: peer_step(
                    old(self)@,
                    event@,
                    *registry,
                    config.admin_secret@,
                    config.ban_notice@,
                ).color,
                ..old(self)@
            }),
            out@ == peer_step(
                old(self)@,
                event@,
                *registry,
                config.admin_secret@,
                config.ban_notice@,
            ).out,
            final(self).rx == old(self).rx,
            all_drawable(out@.writes),
    {
        proof {
            lemma_step_writes_are_drawable(
                old(self)@,
                event@,
                *registry,
                config.admin_secret@,
                config.ban_notice@,
            );
        }
        let mut phase = Phase::Terminated;
        core::mem::swap(&mut self.phase, &mut phase);
        let made = match (phase, event) {
            (Phase::Terminated, _) => Made {
                phase: Phase::Terminated,
                color: self.color,
                out: Output::nothing(),
            },
            (_, Event::Closed) => {
                let writes: Vec<Reply> = Vec::new();
                proof {
                    assert(reply_views(writes@) =~= Seq::empty());
                }
                Made {
                    phase: Phase::Terminated,
                    color: self.color,
                    out: Output { writes, query: None, effect: Effect::Leave },
                }
            },
            (phase, Event::Inbound(text)) => self.inbound(phase, text, config),
            (Phase::Active, Event::Line { text, at }) => self.line(text, at, registry, config),
            (Phase::Busy(pending), Event::Answer(answer)) => self.answer(
                pending,
                answer,
                registry,
                config,
            ),
            (phase, _) => Made { phase, color: self.color, out: Output::nothing() },
        };
        self.phase = made.phase;
        self.color = made.color;
        made.out
    }
}

} // verus!
