use crate::effects::{Message, MessageView, Notify, NotifyView, Reply, ReplyView};
use crate::utils::{
    field_result, field_view, first_text_field, json_first_text, json_text, text_field,
    FieldError,
};
use vstd::prelude::*;

verus! {

/// The fact in the answer `body` of the cat fact service.
pub fn cat_fact(body: &str) -> (res: Result<String, FieldError>)
    ensures
        field_view(res) == field_result(json_text(body@, "fact"@)),
{
    text_field(body, "fact")
}

/// The address of the picture in the answer `body` of the cat picture
/// service.
pub fn cat_image(body: &str) -> (res: Result<String, FieldError>)
    ensures
        field_view(res) == field_result(json_first_text(body@, "url"@)),
{
    first_text_field(body, "url")
}

/// The reply that tells a cat fact in italics and attaches a cat picture.
pub open spec fn cat_reply(fact: Seq<char>, image: Seq<char>) -> ReplyView {
    ReplyView {
        message: MessageView {
            content: "*"@ + fact + "*"@,
            embed: None,
            notify: NotifyView::AsWritten,
        },
        attachment: Some(image),
        ephemeral: false,
    }
}

/// The reply that tells the cat fact `fact` and attaches the picture at
/// `image`.
pub fn cta(fact: &str, image: String) -> (reply: Reply)
    ensures
        reply@ == cat_reply(fact@, image@),
{
    let mut content = String::from_str("*");
    content.append(fact);
    content.append("*");
    Reply {
        message: Message { content, embed: None, notify: Notify::AsWritten },
        attachment: Some(image),
        ephemeral: false,
    }
}

} // verus!
