//! The grammar of the line protocol: the first line of a connection and
//! the commands of a session.

use vstd::prelude::*;
use vstd::string::*;
use crate::text::{
    leading_fields, same_text, space_fields, split_spaces, split_three, split_words, texts, trim,
    trimmed, words,
};

verus! {

/// An account's permission tag.
#[derive(Clone, Copy, Debug, PartialEq, Eq, Structural)]
pub enum Role {
    User,
    Admin,
    Muted,
    Banned,
}

/// The role that a tag of the store stands for. A tag that names no role
/// gives no right and no restriction.
pub open spec fn role_of(tag: Seq<char>) -> Role {
    if tag == "admin"@ {
        Role::Admin
    } else if tag == "muted"@ {
        Role::Muted
    } else if tag == "banned"@ {
        Role::Banned
    } else {
        Role::User
    }
}

/// The tag under which the store keeps a role.
pub open spec fn tag_of(role: Role) -> Seq<char> {
    match role {
        Role::User => "user"@,
        Role::Admin => "admin"@,
        Role::Muted => "muted"@,
        Role::Banned => "banned"@,
    }
}

impl Role {
    /// Reads a role from its tag.
    pub fn from_tag(tag: &str) -> (role: Role)
        ensures
            role == role_of(tag@),
    {
        if same_text(tag, "admin") {
            Role::Admin
        } else if same_text(tag, "muted") {
            Role::Muted
        } else if same_text(tag, "banned") {
            Role::Banned
        } else {
            Role::User
        }
    }

    /// The tag of this role.
    pub fn tag(self) -> (tag: &'static str)
        ensures
            tag@ == tag_of(self),
    {
        match self {
            Role::User => "user",
            Role::Admin => "admin",
            Role::Muted => "muted",
            Role::Banned => "banned",
        }
    }
}

/// What a moderator does to an account.
#[derive(Clone, Copy, Debug, PartialEq, Eq, Structural)]
pub enum Moderation {
    Ban,
    Unban,
    Mute,
    Unmute,
}

impl Moderation {
    /// The role that the account has afterwards.
    pub open spec fn spec_role(self) -> Role {
        match self {
            Moderation::Ban => Role::Banned,
            Moderation::Mute => Role::Muted,
            Moderation::Unban => Role::User,
            Moderation::Unmute => Role::User,
        }
    }

    /// The role that the account has afterwards.
    #[verifier::when_used_as_spec(spec_role)]
    pub fn role(self) -> (role: Role)
        ensures
            role == self.spec_role(),
    {
        match self {
            Moderation::Ban => Role::Banned,
            Moderation::Mute => Role::Muted,
            Moderation::Unban => Role::User,
            Moderation::Unmute => Role::User,
        }
    }
}

/// Whose messages a request for history asks for.
#[derive(Debug, PartialEq, Eq)]
pub enum Scope<T> {
    /// Those of the session that asks.
    Own,
    /// Those of everyone.
    Everyone,
    /// Those of the named account.
    Of(T),
}

/// A line of an active session, read as a command. `T` is `String` in
/// running code and `Seq<char>` in contracts. An argument that the line
/// lacks is `None`.
#[derive(Debug, PartialEq, Eq)]
pub enum Command<T> {
    ListUsers,
    /// The target and the text for it.
    Whisper(Option<(T, T)>),
    History(Scope<T>),
    /// The old password and the new one.
    ChangePassword(Option<(T, T)>),
    /// The name of a colour.
    Color(Option<T>),
    /// The secret that makes an admin.
    Admin(Option<T>),
    /// The action and the account it is aimed at.
    Moderate(Moderation, Option<T>),
    Help,
    /// Anything else: a chat message, the whole line.
    Say(T),
}

/// The first line of a connection, read as a request to be let in.
#[derive(Debug, PartialEq, Eq)]
pub enum Login<T> {
    /// Fewer than three fields.
    Malformed,
    Register { username: T, password: T },
    Login { username: T, password: T },
    /// Three fields, but the first is neither `register` nor `login`.
    Unknown,
}

/// The view of an optional text.
pub open spec fn text_view(t: Option<String>) -> Option<Seq<char>> {
    match t {
        Some(s) => Some(s@),
        None => None,
    }
}

/// The view of an optional pair of texts.
pub open spec fn pair_view(p: Option<(String, String)>) -> Option<(Seq<char>, Seq<char>)> {
    match p {
        Some((a, b)) => Some((a@, b@)),
        None => None,
    }
}

impl View for Scope<String> {
    type V = Scope<Seq<char>>;

    open spec fn view(&self) -> Scope<Seq<char>> {
        match *self {
            Scope::Own => Scope::Own,
            Scope::Everyone => Scope::Everyone,
            Scope::Of(name) => Scope::Of(name@),
        }
    }
}

impl View for Command<String> {
    type V = Command<Seq<char>>;

    open spec fn view(&self) -> Command<Seq<char>> {
        match *self {
            Command::ListUsers => Command::ListUsers,
            Command::Whisper(p) => Command::Whisper(pair_view(p)),
            Command::History(s) => Command::History(s@),
            Command::ChangePassword(p) => Command::ChangePassword(pair_view(p)),
            Command::Color(t) => Command::Color(text_view(t)),
            Command::Admin(t) => Command::Admin(text_view(t)),
            Command::Moderate(m, t) => Command::Moderate(m, text_view(t)),
            Command::Help => Command::Help,
            Command::Say(t) => Command::Say(t@),
        }
    }
}

impl View for Login<String> {
    type V = Login<Seq<char>>;

    open spec fn view(&self) -> Login<Seq<char>> {
        match *self {
            Login::Malformed => Login::Malformed,
            Login::Register { username, password } => Login::Register {
                username: username@,
                password: password@,
            },
            Login::Login { username, password } => Login::Login {
                username: username@,
                password: password@,
            },
            Login::Unknown => Login::Unknown,
        }
    }
}

/// How the first line of a connection is read: it is cut at every single
/// space; the first three fields are the verb, the username and the
/// password, and what follows them is ignored.
pub open spec fn login_of(line: Seq<char>) -> Login<Seq<char>> {
    let f = space_fields(line);
    if f.len() < 3 {
        Login::Malformed
    } else if f[0] == "register"@ {
        Login::Register { username: f[1], password: f[2] }
    } else if f[0] == "login"@ {
        Login::Login { username: f[1], password: f[2] }
    } else {
        Login::Unknown
    }
}

/// The verb of a line: what stands before the first space once the white
/// space at both ends is gone.
pub open spec fn verb_of(line: Seq<char>) -> Seq<char> {
    space_fields(trimmed(line))[0]
}

/// The second and third of the fields that `line` has between its first two
/// single spaces and after them, where it has three.
pub open spec fn pair_of(line: Seq<char>) -> Option<(Seq<char>, Seq<char>)> {
    let f = leading_fields(line);
    if f.len() >= 3 {
        Some((f[1], f[2]))
    } else {
        None
    }
}

/// The second word of `line`, where it has two.
pub open spec fn argument_of(line: Seq<char>) -> Option<Seq<char>> {
    let w = words(line);
    if w.len() >= 2 {
        Some(w[1])
    } else {
        None
    }
}

/// How a line of an active session is read. The verb selects the command;
/// a line whose verb is none of the commands, with or without a slash, is
/// a chat message.
pub open spec fn command_of(line: Seq<char>) -> Command<Seq<char>> {
    let verb = verb_of(line);
    if verb == "/listusers"@ {
        Command::ListUsers
    } else if verb == "/whisper"@ {
        Command::Whisper(pair_of(line))
    } else if verb == "/history"@ {
        Command::History(
            match argument_of(line) {
                None => Scope::Own,
                Some(name) => if name == "all"@ {
                    Scope::Everyone
                } else {
                    Scope::Of(name)
                },
            },
        )
    } else if verb == "/changepw"@ {
        Command::ChangePassword(pair_of(line))
    } else if verb == "/color"@ {
        Command::Color(argument_of(line))
    } else if verb == "/admin"@ {
        Command::Admin(argument_of(line))
    } else if verb == "/ban"@ {
        Command::Moderate(Moderation::Ban, argument_of(line))
    } else if verb == "/unban"@ {
        Command::Moderate(Moderation::Unban, argument_of(line))
    } else if verb == "/mute"@ {
        Command::Moderate(Moderation::Mute, argument_of(line))
    } else if verb == "/unmute"@ {
        Command::Moderate(Moderation::Unmute, argument_of(line))
    } else if verb == "/help"@ {
        Command::Help
    } else {
        Command::Say(line)
    }
}

/// Reads the first line of a connection.
pub fn parse_login(line: &str) -> (login: Login<String>)
    ensures
        login@ == login_of(line@),
{
    let mut fields = split_spaces(line);
    if fields.len() < 3 {
        return Login::Malformed;
    }
    assert(texts(fields@)[0] == fields@[0]@);
    assert(texts(fields@)[1] == fields@[1]@);
    assert(texts(fields@)[2] == fields@[2]@);
    let register = same_text(fields[0].as_str(), "register");
    let login = same_text(fields[0].as_str(), "login");
    fields.truncate(3);
    let password = fields.pop().unwrap();
    let username = fields.pop().unwrap();
    if register {
        Login::Register { username, password }
    } else if login {
        Login::Login { username, password }
    } else {
        Login::Unknown
    }
}

/// The verb of `line`.
pub fn verb(line: &str) -> (v: String)
    ensures
        v@ == verb_of(line@),
{
    let core = trim(line);
    let mut fields = split_spaces(core.as_str());
    assert(space_fields(core@).len() >= 1);
    assert(texts(fields@)[0] == fields@[0]@);
    fields.truncate(1);
    fields.pop().unwrap()
}

/// The two arguments of a command that takes a name and a text.
pub fn pair(line: &str) -> (p: Option<(String, String)>)
    ensures
        pair_view(p) == pair_of(line@),
{
    let mut fields = split_three(line);
    if fields.len() < 3 {
        return None;
    }
    assert(texts(fields@)[1] == fields@[1]@);
    assert(texts(fields@)[2] == fields@[2]@);
    fields.truncate(3);
    let second = fields.pop().unwrap();
    let first = fields.pop().unwrap();
    Some((first, second))
}

/// The argument of a command that takes one word.
pub fn argument(line: &str) -> (a: Option<String>)
    ensures
        text_view(a) == argument_of(line@),
{
    let mut found = split_words(line);
    if found.len() < 2 {
        return None;
    }
    assert(texts(found@)[1] == found@[1]@);
    found.truncate(2);
    found.pop()
}

/// Reads a line of an active session.
pub fn parse_command(line: &str) -> (command: Command<String>)
    ensures
        command@ == command_of(line@),
{
    let v = verb(line);
    let v = v.as_str();
    if same_text(v, "/listusers") {
        Command::ListUsers
    } else if same_text(v, "/whisper") {
        Command::Whisper(pair(line))
    } else if same_text(v, "/history") {
        match argument(line) {
            None => Command::History(Scope::Own),
            Some(name) => if same_text(name.as_str(), "all") {
                Command::History(Scope::Everyone)
            } else {
                Command::History(Scope::Of(name))
            },
        }
    } else if same_text(v, "/changepw") {
        Command::ChangePassword(pair(line))
    } else if same_text(v, "/color") {
        Command::Color(argument(line))
    } else if same_text(v, "/admin") {
        Command::Admin(argument(line))
    } else if same_text(v, "/ban") {
        Command::Moderate(Moderation::Ban, argument(line))
    } else if same_text(v, "/unban") {
        Command::Moderate(Moderation::Unban, argument(line))
    } else if same_text(v, "/mute") {
        Command::Moderate(Moderation::Mute, argument(line))
    } else if same_text(v, "/unmute") {
        Command::Moderate(Moderation::Unmute, argument(line))
    } else if same_text(v, "/help") {
        Command::Help
    } else {
        Command::Say(String::from_str(line))
    }
}

} // verus!
