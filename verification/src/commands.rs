//! The texts of the replies that take more than a sentence.

use vstd::prelude::*;
use vstd::string::*;
use crate::text::texts;

verus! {

/// Each of `messages` followed by a line break, one after the other.
pub open spec fn history_lines(messages: Seq<Seq<char>>) -> Seq<char>
    decreases messages.len(),
{
    if messages.len() == 0 {
        Seq::empty()
    } else {
        history_lines(messages.drop_last()) + messages.last() + "\n\r"@
    }
}

/// The reply to a request for history: a heading that names `user`, then
/// one line for each message.
pub open spec fn history_text(user: Seq<char>, messages: Seq<Seq<char>>) -> Seq<char> {
    "Message history for "@ + user + ":\n\r"@ + history_lines(messages)
}

/// Lays out the messages of `user` as the reply to a request for history.
pub fn format_message_history(user: &str, messages: &[String]) -> (response: String)
    ensures
        response@ == history_text(user@, texts(messages@)),
{
    let mut response = String::from_str("Message history for ");
    response.append(user);
    response.append(":\n\r");
    let ghost head = response@;
    let n = messages.len();
    let mut i: usize = 0;
    while i < n
        invariant
            i <= n,
            n == messages.len(),
            response@ == head + history_lines(texts(messages@).take(i as int)),
        decreases n - i,
    {
        proof {
            let t = texts(messages@);
            assert(t.take(i + 1).drop_last() =~= t.take(i as int));
            assert(t.take(i + 1).last() == messages@[i as int]@);
        }
        response.append(messages[i].as_str());
        response.append("\n\r");
        i = i + 1;
    }
    proof {
        assert(texts(messages@).take(n as int) =~= texts(messages@));
    }
    response
}

} // verus!
