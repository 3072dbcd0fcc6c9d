use chat_relay::exchange::{Event, Output};
use chat_relay::handshake::failure;
use chat_relay::protocol::{Moderation, Role};
use chat_relay::registry::Shared;
use chat_relay::reply::{Effect, Reply};
use chat_relay::session::{joined_notice, left_notice, Config, Peer, Pending, Phase};
use chat_relay::store::{Answer, Query};
use chat_relay::style::{render, Span};
use chat_relay::table::{help_table, presence_table};
use colored::Color;

fn s(text: &str) -> String {
    text.to_string()
}

fn line(text: &str) -> Event {
    Event::Line { text: s(text), at: s("10:00:00") }
}

fn says(reply: Reply) -> Output {
    Output { writes: vec![reply], query: None, effect: Effect::Silent }
}

fn asks(query: Query<String>) -> Output {
    Output { writes: vec![], query: Some(query), effect: Effect::Silent }
}

fn silent() -> Output {
    Output { writes: vec![], query: None, effect: Effect::Silent }
}

fn plain_config() -> Config {
    colored::control::set_override(false);
    Config::new(s("admin"))
}

#[test]
fn config_renders_the_ban_notice() {
    let config = plain_config();
    assert_eq!(config.admin_secret, "admin");
    assert_eq!(config.ban_notice, "You have been banned.");
}

#[test]
fn config_renders_the_ban_notice_in_red_where_colouring_is_on() {
    colored::control::set_override(true);
    let config = Config::new(s("admin"));
    assert_eq!(config.ban_notice, "\u{1b}[31mYou have been banned.\u{1b}[0m");
}

#[test]
fn new_peer_is_active_green_and_registered() {
    let mut state = Shared::new();
    let peer = Peer::new(&mut state, 4, s("alice")).unwrap();
    assert_eq!(peer.color, Color::Green);
    assert_eq!(peer.endpoint, 4);
    assert_eq!(peer.username, "alice");
    assert_eq!(peer.phase, Phase::Active);
    assert_eq!(state.get_addr_by_username("alice"), Some(4));
}

#[test]
fn entering_tells_the_others() {
    let config = plain_config();
    let _ = config;
    let mut state = Shared::new();
    let (_alice, report) = Peer::enter(&mut state, 1, s("alice")).unwrap();
    assert!(report.delivered.is_empty());
    let mut alice_rx = _alice.rx;
    let (_bob, report) = Peer::enter(&mut state, 2, s("bob")).unwrap();
    assert_eq!(report.delivered, vec![1]);
    assert_eq!(alice_rx.try_recv().ok(), Some(s("\n\r-> User joined: bob\n\r")));
    assert_eq!(render(&joined_notice("bob")), "\n\r-> User joined: bob\n\r");
    assert_eq!(render(&left_notice("bob")), "\n\r<- User left: bob\n\r");
}

#[test]
fn chat_message_is_vetted_recorded_and_broadcast() {
    let config = plain_config();
    let mut state = Shared::new();
    let (mut alice, _) = Peer::enter(&mut state, 1, s("alice")).unwrap();
    let (mut bob, _) = Peer::enter(&mut state, 2, s("bob")).unwrap();
    let _ = alice.rx.try_recv();

    let out = alice.step(line("hello everyone"), &state, &config);
    assert_eq!(out, asks(Query::GetRole { username: s("alice") }));
    assert_eq!(
        alice.phase,
        Phase::Busy(Pending::Vetting { content: s("hello everyone"), timestamp: s("10:00:00") })
    );

    let out = alice.step(Event::Answer(Answer::Role(Role::User)), &state, &config);
    assert_eq!(
        out,
        asks(Query::RecordMessage {
            sender: s("alice"),
            content: s("hello everyone"),
            timestamp: s("10:00:00"),
        })
    );

    let out = alice.step(Event::Answer(Answer::Done), &state, &config);
    assert_eq!(alice.phase, Phase::Active);
    assert!(out.writes.is_empty());
    assert_eq!(out.query, None);
    let report = alice.perform(&mut state, &out.effect);
    assert_eq!(report.delivered, vec![2]);
    assert_eq!(bob.rx.try_recv().ok(), Some(s("10:00:00 alice: hello everyone")));
    assert!(alice.rx.try_recv().is_err());
}

#[test]
fn muted_session_is_told_so_and_nothing_goes_out() {
    let config = plain_config();
    let mut state = Shared::new();
    let (mut alice, _) = Peer::enter(&mut state, 1, s("alice")).unwrap();
    let (mut bob, _) = Peer::enter(&mut state, 2, s("bob")).unwrap();
    alice.step(line("hello"), &state, &config);
    let out = alice.step(Event::Answer(Answer::Role(Role::Muted)), &state, &config);
    assert_eq!(out, says(Reply::tinted("You are muted.", Color::Red)));
    assert_eq!(alice.phase, Phase::Active);
    let report = alice.perform(&mut state, &out.effect);
    assert!(report.delivered.is_empty() && report.skipped.is_empty());
    assert!(bob.rx.try_recv().is_err());
}

#[test]
fn whisper_to_someone_offline_is_answered_and_sent_nowhere() {
    let config = plain_config();
    let mut state = Shared::new();
    let (mut alice, _) = Peer::enter(&mut state, 1, s("alice")).unwrap();
    let (mut bob, _) = Peer::enter(&mut state, 2, s("bob")).unwrap();
    let out = alice.step(line("/whisper carol hi"), &state, &config);
    assert_eq!(out, says(Reply::plain("User not found or not connected.")));
    assert_eq!(alice.phase, Phase::Active);
    alice.perform(&mut state, &out.effect);
    assert!(bob.rx.try_recv().is_err());
}

#[test]
fn whisper_reaches_its_target_alone() {
    let config = plain_config();
    let mut state = Shared::new();
    let (mut alice, _) = Peer::enter(&mut state, 1, s("alice")).unwrap();
    let (mut bob, _) = Peer::enter(&mut state, 2, s("bob")).unwrap();
    let (mut carol, _) = Peer::enter(&mut state, 3, s("carol")).unwrap();
    while bob.rx.try_recv().is_ok() {}
    while alice.rx.try_recv().is_ok() {}
    let out = alice.step(line("/whisper carol see you  at five"), &state, &config);
    assert!(out.writes.is_empty());
    assert_eq!(
        out.effect,
        Effect::Direct {
            to: 3,
            text: vec![
                Span::strong("alice", Color::Green),
                Span::plain("(whisper): "),
                Span::plain("see you  at five"),
            ],
        }
    );
    let report = alice.perform(&mut state, &out.effect);
    assert_eq!(report.delivered, vec![3]);
    assert_eq!(carol.rx.try_recv().ok(), Some(s("alice(whisper): see you  at five")));
    assert!(bob.rx.try_recv().is_err());
    assert!(alice.rx.try_recv().is_err());
}

#[test]
fn whisper_without_text_is_answered_with_its_usage() {
    let config = plain_config();
    let mut state = Shared::new();
    let (mut alice, _) = Peer::enter(&mut state, 1, s("alice")).unwrap();
    let out = alice.step(line("/whisper carol"), &state, &config);
    assert_eq!(
        out,
        says(Reply::plain("Invalid private message format. Use /whisper <username> <message>"))
    );
}

#[test]
fn ban_by_an_admin_sends_the_notice_that_ends_the_target() {
    let config = plain_config();
    let mut state = Shared::new();
    let (mut admin, _) = Peer::enter(&mut state, 1, s("root")).unwrap();
    let (mut bob, _) = Peer::enter(&mut state, 2, s("bob")).unwrap();
    while admin.rx.try_recv().is_ok() {}

    let out = admin.step(line("/ban bob"), &state, &config);
    assert_eq!(out, asks(Query::GetRole { username: s("root") }));
    let out = admin.step(Event::Answer(Answer::Role(Role::Admin)), &state, &config);
    assert_eq!(out, asks(Query::SetRole { username: s("bob"), role: Role::Banned }));
    assert_eq!(
        admin.phase,
        Phase::Busy(Pending::Applying { action: Moderation::Ban, target: s("bob") })
    );
    let out = admin.step(Event::Answer(Answer::Done), &state, &config);
    assert_eq!(
        out.writes,
        vec![Reply::Text(vec![Span::tint("bob", Color::Green), Span::plain(" has been banned.")])]
    );
    assert_eq!(out.writes[0].render(), "bob has been banned.");
    assert_eq!(
        out.effect,
        Effect::Direct { to: 2, text: vec![Span::plain("You have been banned.")] }
    );
    let report = admin.perform(&mut state, &out.effect);
    assert_eq!(report.delivered, vec![2]);
    assert!(admin.rx.try_recv().is_err());

    let notice = bob.rx.try_recv().unwrap();
    assert_eq!(notice, "You have been banned.");
    let out = bob.step(Event::Inbound(notice), &state, &config);
    assert_eq!(bob.phase, Phase::Terminated);
    assert_eq!(
        out,
        Output {
            writes: vec![Reply::plain("You have been banned.")],
            query: None,
            effect: Effect::Leave,
        }
    );
    let report = bob.perform(&mut state, &out.effect);
    assert_eq!(report.delivered, vec![1]);
    assert!(!state.is_user_connected("bob"));
    assert_eq!(admin.rx.try_recv().ok(), Some(s("\n\r<- User left: bob\n\r")));

    let rows = presence_table(&state, &vec![s("root"), s("bob")]);
    assert_eq!(rows[2][1], Span::tint("Offline", Color::Red));

    let out = bob.step(line("I am still here"), &state, &config);
    assert_eq!(out, silent());
    assert_eq!(bob.phase, Phase::Terminated);
}

#[test]
fn ban_of_someone_offline_changes_the_role_and_sends_nothing() {
    let config = plain_config();
    let mut state = Shared::new();
    let (mut admin, _) = Peer::enter(&mut state, 1, s("root")).unwrap();
    admin.phase = Phase::Busy(Pending::Applying { action: Moderation::Ban, target: s("bob") });
    let out = admin.step(Event::Answer(Answer::Done), &state, &config);
    assert_eq!(out.effect, Effect::Silent);
    assert_eq!(out.writes[0].render(), "bob has been banned.");
}

#[test]
fn moderation_is_for_admins_only() {
    let config = plain_config();
    let mut state = Shared::new();
    let (mut alice, _) = Peer::enter(&mut state, 1, s("alice")).unwrap();
    for text in ["/ban bob", "/unban bob", "/mute bob", "/unmute bob", "/ban"] {
        alice.step(line(text), &state, &config);
        let out = alice.step(Event::Answer(Answer::Role(Role::User)), &state, &config);
        assert_eq!(out, says(Reply::tinted("You are not an admin.", Color::Red)));
        assert_eq!(alice.phase, Phase::Active);
    }
}

#[test]
fn moderation_without_a_target_is_answered_with_its_usage() {
    let config = plain_config();
    let mut state = Shared::new();
    let (mut admin, _) = Peer::enter(&mut state, 1, s("root")).unwrap();
    let cases = [
        ("/ban", "Invalid command format. Use /ban <username>"),
        ("/unban", "Invalid command format. Use /unban <username>"),
        ("/mute", "Invalid command format. Use /mute <username>"),
        ("/unmute", "Invalid command format. Use /unmute <username>"),
    ];
    for (text, usage) in cases {
        admin.step(line(text), &state, &config);
        let out = admin.step(Event::Answer(Answer::Role(Role::Admin)), &state, &config);
        assert_eq!(out, says(Reply::plain(usage)));
    }
}

#[test]
fn unban_mute_and_unmute_set_the_role_and_send_no_notice() {
    let config = plain_config();
    let mut state = Shared::new();
    let (mut admin, _) = Peer::enter(&mut state, 1, s("root")).unwrap();
    let (mut bob, _) = Peer::enter(&mut state, 2, s("bob")).unwrap();
    while admin.rx.try_recv().is_ok() {}
    let cases = [
        ("/unban bob", Role::User, "bob has been unbanned."),
        ("/mute bob", Role::Muted, "bob has been muted."),
        ("/unmute bob", Role::User, "bob has been unmuted."),
    ];
    for (text, role, told) in cases {
        admin.step(line(text), &state, &config);
        let out = admin.step(Event::Answer(Answer::Role(Role::Admin)), &state, &config);
        assert_eq!(out, asks(Query::SetRole { username: s("bob"), role }));
        let out = admin.step(Event::Answer(Answer::Done), &state, &config);
        assert_eq!(out.effect, Effect::Silent);
        assert_eq!(out.writes.len(), 1);
        assert_eq!(out.writes[0].render(), told);
    }
    assert!(bob.rx.try_recv().is_err());
}

#[test]
fn admin_secret_elevates_and_a_wrong_one_does_not() {
    let config = plain_config();
    let mut state = Shared::new();
    let (mut alice, _) = Peer::enter(&mut state, 1, s("alice")).unwrap();
    let out = alice.step(line("/admin nope"), &state, &config);
    assert_eq!(out, says(Reply::tinted("Incorrect password. Please try again.", Color::Red)));
    let out = alice.step(line("/admin"), &state, &config);
    assert_eq!(out, says(Reply::plain("Invalid command format. Use /admin <password>")));
    let out = alice.step(line("/admin admin"), &state, &config);
    assert_eq!(out, asks(Query::SetRole { username: s("alice"), role: Role::Admin }));
    assert_eq!(alice.phase, Phase::Busy(Pending::Elevating));
    let out = alice.step(Event::Answer(Answer::Done), &state, &config);
    assert_eq!(out, says(Reply::tinted("You are now an admin.", Color::Green)));
}

#[test]
fn password_change_checks_the_old_one_first() {
    let config = plain_config();
    let mut state = Shared::new();
    let (mut alice, _) = Peer::enter(&mut state, 1, s("alice")).unwrap();
    let out = alice.step(line("/changepw old"), &state, &config);
    assert_eq!(
        out,
        says(Reply::plain(
            "Invalid command format. Use /changepassword <old_password> <new_password>"
        ))
    );
    let out = alice.step(line("/changepw old new"), &state, &config);
    assert_eq!(out, asks(Query::Authenticate { username: s("alice"), password: s("old") }));
    let out = alice.step(Event::Answer(Answer::Verdict(false)), &state, &config);
    assert_eq!(out, says(Reply::tinted("Incorrect password. Please try again.", Color::Red)));
    assert_eq!(alice.phase, Phase::Active);

    alice.step(line("/changepw old new"), &state, &config);
    let out = alice.step(Event::Answer(Answer::Verdict(true)), &state, &config);
    assert_eq!(out, asks(Query::UpdatePassword { username: s("alice"), password: s("new") }));
    let out = alice.step(Event::Answer(Answer::Done), &state, &config);
    assert_eq!(out, says(Reply::tinted("Password updated successfully.", Color::Green)));
    assert_eq!(alice.phase, Phase::Active);
}

#[test]
fn color_command_changes_the_colour_of_the_session_alone() {
    let config = plain_config();
    let mut state = Shared::new();
    let (mut alice, _) = Peer::enter(&mut state, 1, s("alice")).unwrap();
    let out = alice.step(line("/color Red"), &state, &config);
    assert_eq!(alice.color, Color::Red);
    assert_eq!(
        out,
        says(Reply::of_three(
            Span::plain("Text color changed to "),
            Span::tint("Red", Color::Green),
            Span::plain("."),
        ))
    );
    let out = alice.step(line("/color purple"), &state, &config);
    assert_eq!(alice.color, Color::Magenta);
    assert_eq!(out.writes[0].render(), "Text color changed to purple.");
    let out = alice.step(line("/color mauve"), &state, &config);
    assert_eq!(alice.color, Color::Magenta);
    assert_eq!(
        out,
        says(Reply::tinted("Invalid color. Please provide a valid color name.", Color::Red))
    );
    let out = alice.step(line("/color"), &state, &config);
    assert_eq!(out, says(Reply::plain("Invalid command format. Use /color <color_name>")));
}

#[test]
fn recolor_takes_the_colour_as_it_was_read() {
    let mut state = Shared::new();
    let peer = Peer::new(&mut state, 1, s("alice")).unwrap();
    let made = peer.recolor(Some(s("anything")), Some(Color::Cyan));
    assert_eq!(made.color, Color::Cyan);
    assert_eq!(made.phase, Phase::Active);
    let made = peer.recolor(Some(s("cyan")), None);
    assert_eq!(made.color, Color::Green);
    let made = peer.recolor(None, Some(Color::Cyan));
    assert_eq!(made.color, Color::Green);
}

#[test]
fn history_is_asked_for_and_laid_out() {
    let config = plain_config();
    let mut state = Shared::new();
    let (mut alice, _) = Peer::enter(&mut state, 1, s("alice")).unwrap();
    let out = alice.step(line("/history"), &state, &config);
    assert_eq!(out, asks(Query::History(Some(s("alice")))));
    let out =
        alice.step(Event::Answer(Answer::History(vec![s("m1"), s("m2")])), &state, &config);
    assert_eq!(out, says(Reply::plain("Message history for alice:\n\rm1\n\rm2\n\r")));

    let out = alice.step(line("/history all"), &state, &config);
    assert_eq!(out, asks(Query::History(None)));
    let out = alice.step(Event::Answer(Answer::History(vec![])), &state, &config);
    assert_eq!(out, says(Reply::plain("Message history for all users:\n\r")));

    let out = alice.step(line("/history bob"), &state, &config);
    assert_eq!(out, asks(Query::History(Some(s("bob")))));
    assert_eq!(alice.phase, Phase::Busy(Pending::History { label: s("bob") }));
}

#[test]
fn listusers_shows_who_is_online() {
    let config = plain_config();
    let mut state = Shared::new();
    let (mut alice, _) = Peer::enter(&mut state, 1, s("alice")).unwrap();
    let out = alice.step(line("/listusers"), &state, &config);
    assert_eq!(out, asks(Query::ListAccounts));
    let users = vec![s("alice"), s("bob")];
    let out = alice.step(Event::Answer(Answer::Accounts(users.clone())), &state, &config);
    assert_eq!(out, says(Reply::Table(presence_table(&state, &users))));
    assert_eq!(
        out.writes[0].render(),
        "+----------+---------+\n| Username | Status  |\n+----------+---------+\n| alice    | Online  |\n+----------+---------+\n| bob      | Offline |\n+----------+---------+\n"
    );
}

#[test]
fn help_shows_the_table_of_commands() {
    let config = plain_config();
    let mut state = Shared::new();
    let (mut alice, _) = Peer::enter(&mut state, 1, s("alice")).unwrap();
    let out = alice.step(line("/help"), &state, &config);
    assert_eq!(out, says(Reply::Table(help_table())));
    assert_eq!(alice.phase, Phase::Active);
}

#[test]
fn store_failure_is_reported_and_the_session_goes_on() {
    let config = plain_config();
    let mut state = Shared::new();
    let (mut alice, _) = Peer::enter(&mut state, 1, s("alice")).unwrap();
    for text in ["/listusers", "/history", "/changepw a b", "/admin admin", "/ban bob", "hello"] {
        alice.step(line(text), &state, &config);
        let out = alice.step(Event::Answer(Answer::Failed(s("down"))), &state, &config);
        assert_eq!(out, says(failure()));
        assert_eq!(alice.phase, Phase::Active);
    }
    alice.step(line("hello"), &state, &config);
    alice.step(Event::Answer(Answer::Role(Role::User)), &state, &config);
    let out = alice.step(Event::Answer(Answer::Failed(s("down"))), &state, &config);
    assert_eq!(out, says(failure()));
    assert_eq!(alice.phase, Phase::Active);
}

#[test]
fn inbound_text_is_written_as_it_came() {
    let config = plain_config();
    let mut state = Shared::new();
    let (mut alice, _) = Peer::enter(&mut state, 1, s("alice")).unwrap();
    let out = alice.step(Event::Inbound(s("10:00:00 bob: hi")), &state, &config);
    assert_eq!(out, says(Reply::plain("10:00:00 bob: hi")));
    assert_eq!(alice.phase, Phase::Active);
    alice.step(line("/listusers"), &state, &config);
    let out = alice.step(Event::Inbound(s("while busy")), &state, &config);
    assert_eq!(out, says(Reply::plain("while busy")));
    assert_eq!(alice.phase, Phase::Busy(Pending::Listing));
}

#[test]
fn closed_transport_ends_the_session_and_the_others_are_told() {
    let config = plain_config();
    let mut state = Shared::new();
    let (mut alice, _) = Peer::enter(&mut state, 1, s("alice")).unwrap();
    let (mut bob, _) = Peer::enter(&mut state, 2, s("bob")).unwrap();
    let out = alice.step(Event::Closed, &state, &config);
    assert_eq!(out, Output { writes: vec![], query: None, effect: Effect::Leave });
    assert_eq!(alice.phase, Phase::Terminated);
    let report = alice.perform(&mut state, &out.effect);
    assert_eq!(report.delivered, vec![2]);
    assert!(!state.is_user_connected("alice"));
    assert!(state.is_user_connected("bob"));
    assert_eq!(bob.rx.try_recv().ok(), Some(s("\n\r<- User left: alice\n\r")));
    let out = alice.step(Event::Closed, &state, &config);
    assert_eq!(out, silent());
}

#[test]
fn line_is_not_taken_while_the_store_is_asked() {
    let config = plain_config();
    let mut state = Shared::new();
    let (mut alice, _) = Peer::enter(&mut state, 1, s("alice")).unwrap();
    alice.step(line("/listusers"), &state, &config);
    let out = alice.step(line("/help"), &state, &config);
    assert_eq!(out, silent());
    assert_eq!(alice.phase, Phase::Busy(Pending::Listing));
    alice.phase = Phase::Active;
    let out = alice.step(Event::Answer(Answer::Done), &state, &config);
    assert_eq!(out, silent());
    assert_eq!(alice.phase, Phase::Active);
}

#[test]
fn line_event_is_stamped_with_the_time_of_day() {
    match Event::line(s("hello")) {
        Event::Line { text, at } => {
            assert_eq!(text, "hello");
            assert_eq!(at.len(), 8);
            assert_eq!(&at[2..3], ":");
            assert_eq!(&at[5..6], ":");
        }
        other => panic!("not a line: {:?}", other),
    }
}

#[test]
fn usage_and_done_texts_of_each_action() {
    assert_eq!(Moderation::Ban.usage(), "Invalid command format. Use /ban <username>");
    assert_eq!(Moderation::Unmute.done(), " has been unmuted.");
    assert_eq!(Moderation::Mute.usage(), "Invalid command format. Use /mute <username>");
    assert_eq!(Moderation::Ban.done(), " has been banned.");
}

#[test]
fn every_listed_colour_name_of_one_word_is_read_as_its_colour() {
    let config = plain_config();
    let mut state = Shared::new();
    let (mut alice, _) = Peer::enter(&mut state, 1, s("alice")).unwrap();
    let cases = [
        ("black", Color::Black),
        ("red", Color::Red),
        ("green", Color::Green),
        ("yellow", Color::Yellow),
        ("blue", Color::Blue),
        ("magenta", Color::Magenta),
        ("purple", Color::Magenta),
        ("cyan", Color::Cyan),
        ("white", Color::White),
    ];
    for (name, color) in cases {
        let out = alice.step(line(&format!("/color {}", name)), &state, &config);
        assert_eq!(alice.color, color, "{}", name);
        assert_eq!(out.writes.len(), 1);
        assert_eq!(
            out.writes[0].try_render(),
            Some(format!("Text color changed to {}.", name))
        );
    }
}

#[test]
fn whatever_a_step_writes_can_be_shown() {
    let config = plain_config();
    let mut state = Shared::new();
    let (mut alice, _) = Peer::enter(&mut state, 1, s("alice")).unwrap();
    let out = alice.step(line("/help"), &state, &config);
    assert!(out.writes.iter().all(|w| w.is_drawable()));
    alice.step(line("/listusers"), &state, &config);
    let users = vec![s("\u{1b}[\u{644}\u{627}\u{644}\u{627}"), s("alice")];
    let out = alice.step(Event::Answer(Answer::Accounts(users)), &state, &config);
    assert!(out.writes.iter().all(|w| w.is_drawable()));
    let text = out.writes[0].try_render().unwrap();
    assert!(text.contains("| alice"));
}
