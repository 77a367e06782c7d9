use crate::effects::{
    Embed, EmbedView, Message, MessageView, Notify, NotifyView, Reply, ReplyView, Tint,
};
use crate::text::{decimal, decimal_text};
use vstd::prelude::*;

verus! {

/// A reply for all to see that is an embed with a title and a text.
pub open spec fn card(title: Seq<char>, description: Seq<char>, tint: Tint) -> ReplyView {
    ReplyView {
        message: MessageView {
            content: Seq::empty(),
            embed: Some(EmbedView { title, description, footer: Seq::empty(), tint }),
            notify: NotifyView::AsWritten,
        },
        attachment: None,
        ephemeral: false,
    }
}

fn make_card(title: String, description: String, tint: Tint) -> (reply: Reply)
    ensures
        reply@ == card(title@, description@, tint),
{
    Reply {
        message: Message {
            content: String::new(),
            embed: Some(Embed { title, description, footer: String::new(), tint }),
            notify: Notify::AsWritten,
        },
        attachment: None,
        ephemeral: false,
    }
}

/// The reply that is shown while the time is being taken.
pub fn ping_started() -> (reply: Reply)
    ensures
        reply@ == card("Ping?"@, "Pinging..."@, Tint::Purple),
{
    make_card(String::from_str("Ping?"), String::from_str("Pinging..."), Tint::Purple)
}

/// What is told when the time was taken.
pub open spec fn pong_text(took_millis: u64, uptime: Seq<char>) -> Seq<char> {
    "Pong! Took "@ + decimal(took_millis as nat) + "ms!\nProcess uptime: "@ + uptime
}

/// The reply that tells that the answer took `took_millis` milliseconds,
/// and that the process has been up for `uptime`.
pub fn ping(took_millis: u64, uptime: &str) -> (reply: Reply)
    ensures
        reply@ == card("Pong!"@, pong_text(took_millis, uptime@), Tint::DarkGreen),
{
    let mut text = String::from_str("Pong! Took ");
    text.append(decimal_text(took_millis).as_str());
    text.append("ms!\nProcess uptime: ");
    text.append(uptime);
    make_card(String::from_str("Pong!"), text, Tint::DarkGreen)
}

} // verus!
