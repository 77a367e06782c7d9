use sillycord_bot::commands::cta::{cat_fact, cat_image, cta};
use sillycord_bot::commands::dog::{dog, dog_image};
use sillycord_bot::effects::Notify;
use sillycord_bot::utils::{first_text_field, text_field, FieldError};

#[test]
fn cat_fact_is_read_from_the_answer() {
    assert_eq!(
        cat_fact("{\"fact\": \"Cats sleep a lot.\", \"length\": 17}"),
        Ok("Cats sleep a lot.".to_string())
    );
    assert_eq!(cat_fact("{\"length\": 17}"), Err(FieldError::NoText));
    assert_eq!(cat_fact("oops"), Err(FieldError::NotJson));
}

#[test]
fn cat_image_is_read_from_the_first_item() {
    assert_eq!(
        cat_image("[{\"id\": \"a\", \"url\": \"https://cat/1.jpg\"}, {\"url\": \"https://cat/2.jpg\"}]"),
        Ok("https://cat/1.jpg".to_string())
    );
    assert_eq!(cat_image("[]"), Err(FieldError::NoText));
    assert_eq!(cat_image("{\"url\": \"https://cat/1.jpg\"}"), Err(FieldError::NoText));
    assert_eq!(cat_image("[{\"url\": null}]"), Err(FieldError::NoText));
    assert_eq!(cat_image("["), Err(FieldError::NotJson));
}

#[test]
fn cta_tells_the_fact_in_italics_with_the_picture() {
    let reply = cta("Cats purr.", "https://cat/1.jpg".to_string());
    assert_eq!(reply.message.content, "*Cats purr.*");
    assert_eq!(reply.attachment.as_deref(), Some("https://cat/1.jpg"));
    assert!(reply.message.embed.is_none());
    assert!(matches!(reply.message.notify, Notify::AsWritten));
    assert!(!reply.ephemeral);
}

#[test]
fn dog_image_is_read_from_the_answer() {
    assert_eq!(
        dog_image("{\"message\": \"https://dog/1.jpg\", \"status\": \"success\"}"),
        Ok("https://dog/1.jpg".to_string())
    );
    assert_eq!(dog_image("{\"status\": \"error\"}"), Err(FieldError::NoText));
    assert_eq!(dog_image("not json"), Err(FieldError::NotJson));
}

#[test]
fn dog_attaches_the_picture() {
    let reply = dog("https://dog/1.jpg".to_string());
    assert_eq!(reply.message.content, "Here's a random dog image:");
    assert_eq!(reply.attachment.as_deref(), Some("https://dog/1.jpg"));
    assert!(!reply.ephemeral);
}

#[test]
fn text_field_reads_the_key_that_is_asked_for() {
    let body = "{\"a\": \"one\", \"b\": \"two\"}";
    assert_eq!(text_field(body, "a"), Ok("one".to_string()));
    assert_eq!(text_field(body, "b"), Ok("two".to_string()));
    assert_eq!(text_field(body, "c"), Err(FieldError::NoText));
}

#[test]
fn first_text_field_reads_the_first_item_only() {
    let body = "[{\"a\": \"one\"}, {\"a\": \"two\", \"b\": \"three\"}]";
    assert_eq!(first_text_field(body, "a"), Ok("one".to_string()));
    assert_eq!(first_text_field(body, "b"), Err(FieldError::NoText));
}

#[test]
fn text_field_unescapes_json_text() {
    assert_eq!(text_field("{\"a\": \"x\\ny \\u00e9\"}", "a"), Ok("x\ny é".to_string()));
}
