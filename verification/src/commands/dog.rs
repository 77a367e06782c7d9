use crate::effects::{plain_message, Message, Reply, ReplyView};
use crate::utils::{field_result, field_view, json_text, text_field, FieldError};
use vstd::prelude::*;

verus! {

/// The address of the picture in the answer `body` of the dog picture
/// service.
pub fn dog_image(body: &str) -> (res: Result<String, FieldError>)
    ensures
        field_view(res) == field_result(json_text(body@, "message"@)),
{
    text_field(body, "message")
}

/// The reply that attaches a dog picture.
pub open spec fn dog_reply(image: Seq<char>) -> ReplyView {
    ReplyView {
        message: plain_message("Here's a random dog image:"@),
        attachment: Some(image),
        ephemeral: false,
    }
}

/// The reply that attaches the dog picture at `image`.
pub fn dog(image: String) -> (reply: Reply)
    ensures
        reply@ == dog_reply(image@),
{
    Reply {
        message: Message::plain(String::from_str("Here's a random dog image:")),
        attachment: Some(image),
        ephemeral: false,
    }
}

} // verus!
