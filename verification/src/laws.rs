//! What holds of the relay whatever its sessions do.

use vstd::prelude::*;
use vstd::string::*;
use colored::Color;
use crate::exchange::{nothing, saying, EventView};
use crate::handshake::{already_connected_reply, handshake_step, Handshake};
use crate::protocol::{command_of, Role};
use crate::registry::{Fanout, Shared};
use crate::reply::{plain_reply, tinted_reply, EffectView};
use crate::session::{
    on_color, on_whisper, peer_step, performed, resting, PeerView, Pending, Phase,
};
use crate::store::{AnswerView, Query};
use crate::style::{color_of, listed_color};

verus! {

/// A broadcast never comes back to its sender: whoever a text was offered
/// to on behalf of `sender`, `sender` is not among them, and every other
/// registered endpoint is, once.
pub proof fn lemma_broadcast_spares_sender(registry: Shared, sender: u64, report: Fanout)
    requires
        report.covers(registry.endpoints().remove(sender)),
    ensures
        !report.delivered@.contains(sender),
        !report.skipped@.contains(sender),
        forall|e: u64|
            registry.endpoints().contains(e) && e != sender ==> (report.delivered@.contains(e)
                != report.skipped@.contains(e)),
        report.delivered@.no_duplicates(),
        report.skipped@.no_duplicates(),
{
    assert(!registry.endpoints().remove(sender).contains(sender));
    assert forall|e: u64| registry.endpoints().contains(e) && e != sender implies (
    report.delivered@.contains(e) != report.skipped@.contains(e)) by {
        assert(registry.endpoints().remove(sender).contains(e));
    }
}

/// The notice of a ban ends a session: it is written out, the session is
/// over, and its effect is the departure.
pub proof fn lemma_ban_notice_ends_session(
    p: PeerView,
    registry: Shared,
    admin_secret: Seq<char>,
    ban_notice: Seq<char>,
)
    requires
        !(p.phase is Terminated),
    ensures
        ({
            let turn = peer_step(
                p,
                EventView::Inbound(ban_notice),
                registry,
                admin_secret,
                ban_notice,
            );
            &&& turn.phase is Terminated
            &&& turn.out.effect is Leave
            &&& turn.out.query is None
            &&& turn.out.writes == seq![plain_reply(ban_notice)]
        }),
{
}

/// A session that is over does nothing more: whatever happens, it writes
/// nothing, asks nothing and sends nothing.
pub proof fn lemma_terminated_stays_silent(
    p: PeerView,
    event: EventView,
    registry: Shared,
    admin_secret: Seq<char>,
    ban_notice: Seq<char>,
)
    requires
        p.phase is Terminated,
    ensures
        ({
            let turn = peer_step(p, event, registry, admin_secret, ban_notice);
            &&& turn.phase is Terminated
            &&& turn.out == nothing()
        }),
{
}

/// A departure that was carried out leaves no trace of the session in the
/// registry, and the notice of it went to none but the others.
pub proof fn lemma_departure_deregisters(
    endpoint: u64,
    before: Shared,
    after: Shared,
    report: Fanout,
)
    requires
        performed(endpoint, EffectView::Leave, before, after, report),
    ensures
        !after.endpoints().contains(endpoint),
        !after.names().contains_key(endpoint),
        !report.delivered@.contains(endpoint),
        !report.skipped@.contains(endpoint),
{
    assert(!before.endpoints().remove(endpoint).contains(endpoint));
}

/// Nobody comes in under a name that is online: a login whose password was
/// right is turned away, with the reason, and nothing is asked of the
/// store for it.
pub proof fn lemma_second_login_is_turned_away(username: Seq<char>, registry: Shared)
    requires
        registry.online(username),
    ensures
        handshake_step(
            Handshake::Verifying { username },
            EventView::Answer(AnswerView::Verdict(true)),
            registry,
        ) == (Handshake::<Seq<char>>::Rejected, saying(already_connected_reply())),
{
}

/// The name `red` is read as red, and a session that asks for it is shown
/// in red from then on.
pub proof fn lemma_red_is_red(p: PeerView)
    ensures
        color_of("red"@) == Some(Color::Red),
        on_color(p.who(), Some("red"@), color_of("red"@)).color == Color::Red,
{
    reveal_strlit("red");
    reveal_strlit("black");
    assert("red"@.len() == 3);
    assert("black"@.len() == 5);
    assert("red"@ != "black"@);
    assert(listed_color("red"@) == Some(Color::Red));
}

/// A whisper to a name that is not online goes nowhere: its sender is
/// told so, and nothing is sent or asked.
pub proof fn lemma_whisper_to_offline_goes_nowhere(
    p: PeerView,
    target: Seq<char>,
    text: Seq<char>,
    registry: Shared,
)
    requires
        !registry.online(target),
    ensures
        on_whisper(p.who(), Some((target, text)), registry) == resting(
            p.who(),
            saying(plain_reply("User not found or not connected."@)),
        ),
{
}

/// A line that is a chat message goes neither to the store's record nor
/// to the others before the role of its sender is known: all that it
/// leads to is the question for that role.
pub proof fn lemma_message_waits_for_role(
    p: PeerView,
    text: Seq<char>,
    at: Seq<char>,
    registry: Shared,
    admin_secret: Seq<char>,
    ban_notice: Seq<char>,
)
    requires
        p.phase is Active,
        command_of(text) is Say,
    ensures
        ({
            let turn = peer_step(
                p,
                EventView::Line { text, at },
                registry,
                admin_secret,
                ban_notice,
            );
            &&& turn.phase == Phase::Busy(Pending::Vetting { content: text, timestamp: at })
            &&& turn.out.query == Some(Query::GetRole { username: p.username })
            &&& turn.out.effect is Silent
            &&& turn.out.writes.len() == 0
        }),
{
}

/// The message of a muted session is neither recorded nor sent on: all
/// that comes of it is the notice to its sender.
pub proof fn lemma_muted_is_not_heard(
    p: PeerView,
    content: Seq<char>,
    timestamp: Seq<char>,
    registry: Shared,
    admin_secret: Seq<char>,
    ban_notice: Seq<char>,
)
    requires
        p.phase == Phase::Busy(Pending::Vetting { content, timestamp }),
    ensures
        ({
            let turn = peer_step(
                p,
                EventView::Answer(AnswerView::Role(Role::Muted)),
                registry,
                admin_secret,
                ban_notice,
            );
            &&& turn.phase is Active
            &&& turn.out.query is None
            &&& turn.out.effect is Silent
            &&& turn.out.writes == seq![tinted_reply("You are muted."@, Color::Red)]
        }),
{
}

} // verus!
