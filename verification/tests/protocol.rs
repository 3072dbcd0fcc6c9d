use chat_relay::protocol::{
    argument, pair, parse_command, parse_login, verb, Command, Login, Moderation, Role, Scope,
};

fn s(text: &str) -> String {
    text.to_string()
}

#[test]
fn login_line_with_three_fields() {
    assert_eq!(
        parse_login("login alice secret"),
        Login::Login { username: s("alice"), password: s("secret") }
    );
    assert_eq!(
        parse_login("register bob pw"),
        Login::Register { username: s("bob"), password: s("pw") }
    );
}

#[test]
fn login_line_with_too_few_fields_is_malformed() {
    assert_eq!(parse_login("login alice"), Login::Malformed);
    assert_eq!(parse_login(""), Login::Malformed);
    assert_eq!(parse_login("register"), Login::Malformed);
}

#[test]
fn login_line_with_another_verb_is_unknown() {
    assert_eq!(parse_login("signin alice secret"), Login::Unknown);
    assert_eq!(parse_login("Login alice secret"), Login::Unknown);
}

#[test]
fn login_line_is_cut_at_single_spaces_and_extra_fields_are_ignored() {
    assert_eq!(
        parse_login("login alice secret and more"),
        Login::Login { username: s("alice"), password: s("secret") }
    );
    assert_eq!(
        parse_login("login  alice"),
        Login::Login { username: s(""), password: s("alice") }
    );
}

#[test]
fn verb_is_read_from_the_trimmed_line() {
    assert_eq!(verb("  /help  "), "/help");
    assert_eq!(verb("/ban bob"), "/ban");
    assert_eq!(verb(""), "");
    assert_eq!(verb("hello world"), "hello");
}

#[test]
fn pair_takes_the_rest_of_the_line_as_second_argument() {
    assert_eq!(pair("/whisper carol hi there"), Some((s("carol"), s("hi there"))));
    assert_eq!(pair("/whisper carol"), None);
    assert_eq!(pair("/whisper"), None);
}

#[test]
fn argument_is_the_second_word() {
    assert_eq!(argument("/ban   bob  now"), Some(s("bob")));
    assert_eq!(argument("/ban"), None);
    assert_eq!(argument("  /ban  "), None);
}

#[test]
fn commands_are_told_apart_by_their_verb() {
    assert_eq!(parse_command("/listusers"), Command::ListUsers);
    assert_eq!(parse_command("/help"), Command::Help);
    assert_eq!(
        parse_command("/whisper carol hi"),
        Command::Whisper(Some((s("carol"), s("hi"))))
    );
    assert_eq!(parse_command("/whisper carol"), Command::Whisper(None));
    assert_eq!(
        parse_command("/changepw old new"),
        Command::ChangePassword(Some((s("old"), s("new"))))
    );
    assert_eq!(parse_command("/changepw old"), Command::ChangePassword(None));
    assert_eq!(parse_command("/color red"), Command::Color(Some(s("red"))));
    assert_eq!(parse_command("/color"), Command::Color(None));
    assert_eq!(parse_command("/admin hunter2"), Command::Admin(Some(s("hunter2"))));
    assert_eq!(parse_command("/admin"), Command::Admin(None));
}

#[test]
fn history_has_three_scopes() {
    assert_eq!(parse_command("/history"), Command::History(Scope::Own));
    assert_eq!(parse_command("/history all"), Command::History(Scope::Everyone));
    assert_eq!(parse_command("/history bob"), Command::History(Scope::Of(s("bob"))));
}

#[test]
fn moderation_commands_carry_their_target() {
    assert_eq!(parse_command("/ban bob"), Command::Moderate(Moderation::Ban, Some(s("bob"))));
    assert_eq!(parse_command("/unban bob"), Command::Moderate(Moderation::Unban, Some(s("bob"))));
    assert_eq!(parse_command("/mute bob"), Command::Moderate(Moderation::Mute, Some(s("bob"))));
    assert_eq!(
        parse_command("/unmute bob"),
        Command::Moderate(Moderation::Unmute, Some(s("bob")))
    );
    assert_eq!(parse_command("/ban"), Command::Moderate(Moderation::Ban, None));
}

#[test]
fn anything_else_is_a_chat_message_with_the_line_as_it_came() {
    assert_eq!(parse_command("hello there"), Command::Say(s("hello there")));
    assert_eq!(parse_command("/dance now"), Command::Say(s("/dance now")));
    assert_eq!(parse_command("  spaced  "), Command::Say(s("  spaced  ")));
    assert_eq!(parse_command("/HELP"), Command::Say(s("/HELP")));
    assert_eq!(parse_command(""), Command::Say(s("")));
}

#[test]
fn roles_and_their_tags() {
    assert_eq!(Role::from_tag("admin"), Role::Admin);
    assert_eq!(Role::from_tag("muted"), Role::Muted);
    assert_eq!(Role::from_tag("banned"), Role::Banned);
    assert_eq!(Role::from_tag("user"), Role::User);
    assert_eq!(Role::from_tag("wizard"), Role::User);
    assert_eq!(Role::Admin.tag(), "admin");
    assert_eq!(Role::User.tag(), "user");
    assert_eq!(Role::Muted.tag(), "muted");
    assert_eq!(Role::Banned.tag(), "banned");
}

#[test]
fn moderation_sets_the_role() {
    assert_eq!(Moderation::Ban.role(), Role::Banned);
    assert_eq!(Moderation::Unban.role(), Role::User);
    assert_eq!(Moderation::Mute.role(), Role::Muted);
    assert_eq!(Moderation::Unmute.role(), Role::User);
}
