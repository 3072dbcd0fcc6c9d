use chat_relay::exchange::{Event, Output};
use chat_relay::handshake::{already_connected, failure, prompt, Handshake};
use chat_relay::protocol::Role;
use chat_relay::registry::{RegistryError, Shared};
use chat_relay::reply::{Effect, Reply};
use chat_relay::session::Peer;
use chat_relay::store::{Answer, Query};
use chat_relay::style::Span;
use colored::Color;

fn s(text: &str) -> String {
    text.to_string()
}

fn line(text: &str) -> Event {
    Event::Line { text: s(text), at: s("10:00:00") }
}

fn says(reply: Reply) -> Output {
    Output { writes: vec![reply], query: None, effect: Effect::Silent }
}

fn asks(query: Query<String>) -> Output {
    Output { writes: vec![], query: Some(query), effect: Effect::Silent }
}

fn silent() -> Output {
    Output { writes: vec![], query: None, effect: Effect::Silent }
}

fn welcome() -> Reply {
    Reply::tinted("\n\rWelcome to the chat!", Color::Green)
}

#[test]
fn prompt_asks_for_register_or_login() {
    assert_eq!(
        prompt(),
        Reply::tinted(
            "Please enter 'register' or 'login': \n\rregister username password:",
            Color::Blue
        )
    );
}

#[test]
fn short_first_line_is_turned_away_at_once() {
    let state = Shared::new();
    let mut h = Handshake::new();
    let out = h.step(line("login alice"), &state);
    assert_eq!(h, Handshake::Rejected);
    assert_eq!(
        out,
        says(Reply::tinted(
            "Invalid input format. Please enter 'register' or 'login': \n\rregister username password:",
            Color::Red
        ))
    );
}

#[test]
fn unknown_verb_is_turned_away_at_once() {
    let state = Shared::new();
    let mut h = Handshake::new();
    let out = h.step(line("enter alice secret"), &state);
    assert_eq!(h, Handshake::Rejected);
    assert_eq!(
        out,
        says(Reply::plain(
            "Invalid command, use 'register' or 'login' followed by username and password."
        ))
    );
}

#[test]
fn register_creates_the_account_and_lets_in() {
    let state = Shared::new();
    let mut h = Handshake::new();
    let out = h.step(line("register alice secret"), &state);
    assert_eq!(h, Handshake::Creating { username: s("alice") });
    assert_eq!(out, asks(Query::CreateAccount { username: s("alice"), password: s("secret") }));
    let out = h.step(Event::Answer(Answer::Done), &state);
    assert_eq!(h, Handshake::Admitted { username: s("alice") });
    assert_eq!(
        out,
        Output {
            writes: vec![
                Reply::of_three(
                    Span::plain("Registration successful, welcome "),
                    Span::strong("alice", Color::Green),
                    Span::plain("!"),
                ),
                welcome(),
            ],
            query: None,
            effect: Effect::Silent,
        }
    );
}

#[test]
fn register_that_the_store_refuses_is_turned_away_with_the_detail() {
    let state = Shared::new();
    let mut h = Handshake::new();
    h.step(line("register alice secret"), &state);
    let out = h.step(Event::Answer(Answer::Failed(s("UNIQUE constraint failed"))), &state);
    assert_eq!(h, Handshake::Rejected);
    assert_eq!(out, says(Reply::plain("Registration failed: UNIQUE constraint failed")));
}

#[test]
fn login_with_wrong_password_is_turned_away() {
    let state = Shared::new();
    let mut h = Handshake::new();
    let out = h.step(line("login alice wrong"), &state);
    assert_eq!(h, Handshake::Verifying { username: s("alice") });
    assert_eq!(out, asks(Query::Authenticate { username: s("alice"), password: s("wrong") }));
    let out = h.step(Event::Answer(Answer::Verdict(false)), &state);
    assert_eq!(h, Handshake::Rejected);
    assert_eq!(out, says(Reply::plain("Authentication failed, please try again.")));
}

#[test]
fn login_is_screened_for_a_ban_and_then_let_in() {
    let state = Shared::new();
    let mut h = Handshake::new();
    h.step(line("login alice secret"), &state);
    let out = h.step(Event::Answer(Answer::Verdict(true)), &state);
    assert_eq!(h, Handshake::Screening { username: s("alice") });
    assert_eq!(out, asks(Query::GetRole { username: s("alice") }));
    let out = h.step(Event::Answer(Answer::Role(Role::User)), &state);
    assert_eq!(h, Handshake::Admitted { username: s("alice") });
    assert_eq!(out, says(welcome()));
}

#[test]
fn muted_and_admin_accounts_are_let_in() {
    let state = Shared::new();
    for role in [Role::Muted, Role::Admin] {
        let mut h = Handshake::Screening { username: s("alice") };
        let out = h.step(Event::Answer(Answer::Role(role)), &state);
        assert_eq!(h, Handshake::Admitted { username: s("alice") });
        assert_eq!(out, says(welcome()));
    }
}

#[test]
fn banned_account_is_turned_away() {
    let state = Shared::new();
    let mut h = Handshake::Screening { username: s("bob") };
    let out = h.step(Event::Answer(Answer::Role(Role::Banned)), &state);
    assert_eq!(h, Handshake::Rejected);
    assert_eq!(out, says(Reply::plain("You are banned, please try again later.")));
}

#[test]
fn second_login_under_a_name_that_is_online_is_turned_away() {
    let mut state = Shared::new();
    let mut a = Handshake::new();
    a.step(line("login alice secret"), &state);
    a.step(Event::Answer(Answer::Verdict(true)), &state);
    let out = a.step(Event::Answer(Answer::Role(Role::User)), &state);
    assert_eq!(a, Handshake::Admitted { username: s("alice") });
    assert_eq!(out, says(welcome()));
    let (_alice, _) = Peer::enter(&mut state, 1, s("alice")).unwrap();

    let mut b = Handshake::new();
    b.step(line("login alice secret"), &state);
    let out = b.step(Event::Answer(Answer::Verdict(true)), &state);
    assert_eq!(b, Handshake::Rejected);
    assert_eq!(out, says(Reply::plain("User already connected, please try again.")));
    assert_eq!(out, says(already_connected()));
    assert!(state.is_user_connected("alice"));
    assert_eq!(state.get_addr_by_username("alice"), Some(1));
    assert_eq!(Peer::enter(&mut state, 2, s("alice")).err(), Some(RegistryError::AlreadyConnected));
    assert_eq!(state.get_addr_by_username("alice"), Some(1));
}

#[test]
fn store_failure_during_login_is_reported_and_ends_the_handshake() {
    let state = Shared::new();
    let mut h = Handshake::Verifying { username: s("alice") };
    let out = h.step(Event::Answer(Answer::Failed(s("disk"))), &state);
    assert_eq!(h, Handshake::Rejected);
    assert_eq!(out, says(failure()));
    assert_eq!(
        failure(),
        Reply::tinted("The request could not be completed, please try again.", Color::Red)
    );
    let mut h = Handshake::Screening { username: s("alice") };
    let out = h.step(Event::Answer(Answer::Done), &state);
    assert_eq!(h, Handshake::Rejected);
    assert_eq!(out, says(failure()));
}

#[test]
fn closed_transport_ends_the_handshake_in_silence() {
    let state = Shared::new();
    let mut h = Handshake::new();
    assert_eq!(h.step(Event::Closed, &state), silent());
    assert_eq!(h, Handshake::Rejected);
    let mut h = Handshake::Verifying { username: s("alice") };
    assert_eq!(h.step(Event::Closed, &state), silent());
    assert_eq!(h, Handshake::Rejected);
}

#[test]
fn finished_handshake_takes_no_further_step() {
    let state = Shared::new();
    let mut h = Handshake::Admitted { username: s("alice") };
    assert_eq!(h.step(line("login bob pw"), &state), silent());
    assert_eq!(h, Handshake::Admitted { username: s("alice") });
    let mut h = Handshake::Rejected;
    assert_eq!(h.step(line("login bob pw"), &state), silent());
    assert_eq!(h, Handshake::Rejected);
}

#[test]
fn what_is_not_awaited_is_passed_over() {
    let state = Shared::new();
    let mut h = Handshake::new();
    assert_eq!(h.step(Event::Answer(Answer::Done), &state), silent());
    assert_eq!(h, Handshake::Start);
    assert_eq!(h.step(Event::Inbound(s("x")), &state), silent());
    assert_eq!(h, Handshake::Start);
    let mut h = Handshake::Creating { username: s("alice") };
    assert_eq!(h.step(line("again"), &state), silent());
    assert_eq!(h, Handshake::Creating { username: s("alice") });
}
