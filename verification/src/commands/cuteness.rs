use crate::effects::{Message, MessageView, Notify, NotifyView, Reply, ReplyView};
use crate::snowflake::Snowflake;
use rand::Rng;
use vstd::prelude::*;

verus! {

/// How many messages are shown while the verdict is in the making.
pub const THINKING_STEPS: usize = 6;

/// The message shown at `step` of the making of the verdict.
pub open spec fn thinking_text(step: int) -> Seq<char> {
    if step == 0 {
        ":thinking: Thinking super hard..."@
    } else if step == 1 {
        ":gear: Calculating..."@
    } else if step == 2 {
        ":bar_chart: Crunching the numbers..."@
    } else if step == 3 {
        ":bulb: Looking at the data..."@
    } else if step == 4 {
        ":mag: Investigating..."@
    } else {
        ":clipboard: Finalizing the report..."@
    }
}

/// The message shown at `step` of the making of the verdict, or nothing
/// where the making has no such step.
pub fn thinking_message(step: usize) -> (text: Option<&'static str>)
    ensures
        text is Some <==> step < THINKING_STEPS,
        text matches Some(shown) ==> shown@ == thinking_text(step as int),
{
    if step == 0 {
        Some(":thinking: Thinking super hard...")
    } else if step == 1 {
        Some(":gear: Calculating...")
    } else if step == 2 {
        Some(":bar_chart: Crunching the numbers...")
    } else if step == 3 {
        Some(":bulb: Looking at the data...")
    } else if step == 4 {
        Some(":mag: Investigating...")
    } else if step == 5 {
        Some(":clipboard: Finalizing the report...")
    } else {
        None
    }
}

/// `Rng::gen_range` of rand on the thread's generator, with the range from
/// 500 up to, and not including, 1501: some number in that range.
#[verifier::external_body]
fn draw_pause() -> (millis: u64)
    ensures
        500 <= millis < 1501,
{
    rand::thread_rng().gen_range(500..1501)
}

/// How long to wait before the message of `step` is shown, when `drawn`
/// milliseconds were drawn by lot: the last message comes after a second
/// and a half, every other one after what was drawn.
pub fn pause_before_at(step: usize, drawn: u64) -> (millis: u64)
    ensures
        millis == if step == THINKING_STEPS - 1 {
            1500
        } else {
            drawn
        },
{
    if step == THINKING_STEPS - 1 {
        1500
    } else {
        drawn
    }
}

/// How long to wait before the message of `step` is shown: a second and a
/// half before the last one, and before every other one a time drawn by
/// lot between half a second and a second and a half.
pub fn pause_before(step: usize) -> (millis: u64)
    ensures
        step == THINKING_STEPS - 1 ==> millis == 1500,
        500 <= millis <= 1500,
{
    pause_before_at(step, draw_pause())
}

/// The reply that tells how cute the member called `name` is; it notifies
/// that member and nobody else.
pub open spec fn verdict(name: Seq<char>, user: u64, percent: Seq<char>) -> ReplyView {
    ReplyView {
        message: MessageView {
            content: "I have determined that "@ + name + " is "@ + percent + "% cute!"@,
            embed: None,
            notify: NotifyView::Users(seq![user]),
        },
        attachment: None,
        ephemeral: false,
    }
}

/// The reply that tells that the member `user`, called `name`, is
/// `percent` per cent cute.
pub fn cutenesss(name: &str, user: Snowflake, percent: &str) -> (reply: Reply)
    ensures
        reply@ == verdict(name@, user@, percent@),
{
    let mut content = String::from_str("I have determined that ");
    content.append(name);
    content.append(" is ");
    content.append(percent);
    content.append("% cute!");
    Reply {
        message: Message { content, embed: None, notify: Notify::only(user) },
        attachment: None,
        ephemeral: false,
    }
}

} // verus!
