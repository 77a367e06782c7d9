use crate::effects::{said, Message, MessageView, Notify, NotifyView, Reply, ReplyView};
use crate::structs::quote::{Quote, QuoteView};
use crate::text::{signed_decimal, signed_decimal_text};
use time::OffsetDateTime;
use vstd::prelude::*;

verus! {

/// `OffsetDateTime::now_utc` of the time crate, read through
/// `unix_timestamp` as whole seconds since the Unix epoch. Nothing is
/// promised of a clock's reading.
#[verifier::external_body]
fn unix_now() -> i64 {
    OffsetDateTime::now_utc().unix_timestamp()
}

/// A request to keep what the member `user_id`, called `username`, said:
/// the quote to store, dated `now`, or, where the members are one and the
/// same, the reply that refuses.
pub fn quote_action_at(user_id: i64, username: String, said_text: String, added_by: i64, now: i64) -> (res:
    Result<Quote, Reply>)
    ensures
        match res {
            Ok(kept) => kept@ == (QuoteView {
                quote_id: 0,
                user_id,
                username: username@,
                quote: said_text@,
                added_by,
                added_at: Some(now),
            }),
            Err(reply) => reply@ == said(":x: You can't quote yourself"@),
        },
        res is Err <==> user_id == added_by,
{
    if user_id == added_by {
        Err(Reply::say(":x: You can't quote yourself"))
    } else {
        Ok(
            Quote {
                quote_id: 0,
                user_id,
                username,
                quote: said_text,
                added_by,
                added_at: Some(now),
            },
        )
    }
}

/// A request to keep what the member `user_id`, called `username`, said:
/// the quote to store, dated by the clock, or, where the members are one
/// and the same, the reply that refuses.
pub fn quote_action(user_id: i64, username: String, said_text: String, added_by: i64) -> (res:
    Result<Quote, Reply>)
    ensures
        match res {
            Ok(kept) => kept@.quote_id == 0 && kept@.user_id == user_id && kept@.username
                == username@ && kept@.quote == said_text@ && kept@.added_by == added_by
                && kept@.added_at is Some,
            Err(reply) => reply@ == said(":x: You can't quote yourself"@),
        },
        res is Err <==> user_id == added_by,
{
    quote_action_at(user_id, username, said_text, added_by, unix_now())
}

/// The reply after a quote was stored.
pub fn quote_kept() -> (reply: Reply)
    ensures
        reply@ == said(":white_check_mark: Okay, I've immortalized that message for you :)"@),
{
    Reply::say(":white_check_mark: Okay, I've immortalized that message for you :)")
}

/// A quote as it is shown: who said what, when it was kept, and by whom.
/// A quote without a date is shown as kept at `now`.
pub open spec fn quote_line(quote: QuoteView, now: i64) -> Seq<char> {
    quote.username + ": "@ + quote.quote + "\nQuoted at: <t:"@ + signed_decimal(
        match quote.added_at {
            Some(at) => at as int,
            None => now as int,
        },
    ) + ":f> by <@"@ + signed_decimal(quote.added_by as int) + ">"@
}

/// The quotes as they are shown, each on lines of its own.
pub open spec fn quote_lines(quotes: Seq<QuoteView>, now: i64) -> Seq<char>
    decreases quotes.len(),
{
    if quotes.len() == 0 {
        Seq::empty()
    } else {
        quote_lines(quotes.drop_last(), now) + quote_line(quotes.last(), now) + "\n"@
    }
}

/// A reply that shows `content` and notifies no user that it mentions.
pub open spec fn shown(content: Seq<char>) -> ReplyView {
    ReplyView {
        message: MessageView { content, embed: None, notify: NotifyView::Users(Seq::empty()) },
        attachment: None,
        ephemeral: false,
    }
}

fn show(content: String) -> (reply: Reply)
    ensures
        reply@ == shown(content@),
{
    Reply {
        message: Message { content, embed: None, notify: Notify::nobody() },
        attachment: None,
        ephemeral: false,
    }
}

fn append_line(text: &mut String, quote: &Quote, now: i64)
    ensures
        final(text)@ == old(text)@ + quote_line(quote@, now),
{
    let at = match quote.added_at {
        Some(at) => at,
        None => now,
    };
    let ghost before = text@;
    text.append(quote.username.as_str());
    text.append(": ");
    text.append(quote.quote.as_str());
    text.append("\nQuoted at: <t:");
    text.append(signed_decimal_text(at).as_str());
    text.append(":f> by <@");
    text.append(signed_decimal_text(quote.added_by).as_str());
    text.append(">");
    assert(text@ =~= before + quote_line(quote@, now));
}

/// What a list of quotes stands for, item by item.
pub open spec fn quote_views(quotes: Seq<Quote>) -> Seq<QuoteView> {
    quotes.map_values(|q: Quote| q@)
}

/// The reply that shows the quote that was drawn, at the time `now`, or
/// says that there is none.
pub fn random_quote_at(drawn: Option<&Quote>, now: i64) -> (reply: Reply)
    ensures
        reply@ == match drawn {
            Some(quote) => shown(quote_line(quote@, now)),
            None => said("No quotes found"@),
        },
{
    match drawn {
        Some(quote) => {
            let mut text = String::new();
            append_line(&mut text, quote, now);
            assert(text@ =~= quote_line(quote@, now));
            show(text)
        },
        None => Reply::say("No quotes found"),
    }
}

/// The reply that shows the quote that was drawn, or says that there is
/// none. A quote without a date is shown as kept at the time of the call.
pub fn random_quote(drawn: Option<&Quote>) -> (reply: Reply)
    ensures
        match drawn {
            Some(quote) => exists|now: i64| reply@ == #[trigger] shown(quote_line(quote@, now)),
            None => reply@ == said("No quotes found"@),
        },
{
    let now = match drawn {
        Some(quote) => match quote.added_at {
            Some(_) => 0,
            None => unix_now(),
        },
        None => 0,
    };
    let reply = random_quote_at(drawn, now);
    proof {
        if let Some(quote) = drawn {
            assert(reply@ == shown(quote_line(quote@, now)));
        }
    }
    reply
}

/// The reply that shows a member's quotes, at the time `now`, or says that
/// there are none.
pub fn user_quotes_at(quotes: &Vec<Quote>, now: i64) -> (reply: Reply)
    ensures
        reply@ == if quotes@.len() == 0 {
            said("No quotes found"@)
        } else {
            shown(quote_lines(quote_views(quotes@), now))
        },
{
    if quotes.len() == 0 {
        return Reply::say("No quotes found");
    }
    let mut text = String::new();
    let mut i: usize = 0;
    assert(quote_views(quotes@).subrange(0, 0) =~= Seq::<QuoteView>::empty());
    while i < quotes.len()
        invariant
            i <= quotes.len(),
            text@ == quote_lines(quote_views(quotes@).subrange(0, i as int), now),
        decreases quotes.len() - i,
    {
        let ghost done = quote_views(quotes@).subrange(0, i as int);
        let ghost more = quote_views(quotes@).subrange(0, i + 1);
        append_line(&mut text, &quotes[i], now);
        text.append("\n");
        proof {
            assert(more.drop_last() =~= done);
            assert(more.last() == quotes@[i as int]@);
        }
        i += 1;
    }
    assert(quote_views(quotes@).subrange(0, i as int) =~= quote_views(quotes@));
    show(text)
}

/// The reply that shows a member's quotes, or says that there are none.
/// A quote without a date is shown as kept at the time of the call.
pub fn user_quotes(quotes: &Vec<Quote>) -> (reply: Reply)
    ensures
        quotes@.len() == 0 ==> reply@ == said("No quotes found"@),
        quotes@.len() > 0 ==> exists|now: i64|
            reply@ == #[trigger] shown(quote_lines(quote_views(quotes@), now)),
{
    let now = unix_now();
    let reply = user_quotes_at(quotes, now);
    proof {
        if quotes@.len() > 0 {
            assert(reply@ == shown(quote_lines(quote_views(quotes@), now)));
        }
    }
    reply
}

} // verus!
