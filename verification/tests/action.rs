use sillycord_bot::commands::action::{
    action_refused, check_if_allowed, use_action, use_action_hug, use_action_kiss,
    use_action_pat, CheckStage, CheckStep, Gesture,
};
use sillycord_bot::commands::profile::{ProfileAnswer, ProfileAsk};
use sillycord_bot::effects::Notify;
use sillycord_bot::error::WorkflowError;
use sillycord_bot::snowflake::Snowflake;
use sillycord_bot::structs::user::User;
use sillycord_bot::utils::{action_image_request, get_random_action_image, FieldError};

fn id(raw: u64) -> Snowflake {
    Snowflake::new(raw).unwrap()
}

fn profile(allowed: bool) -> User {
    User { id: 1, discord_id: 9, actions_allowed: allowed, about: None, pronouns: None }
}

/// Runs the check against a store that holds `stored` and hands out `created` when asked
/// to create; the answer, and what was asked.
fn run_check(stored: Option<bool>, created: Option<bool>) -> (CheckStep, Vec<ProfileAsk>) {
    let mut stored = stored;
    let mut asked = Vec::new();
    let mut stage = CheckStage::Start;
    let mut answer = ProfileAnswer::Begin;
    loop {
        match check_if_allowed(stage, 9, answer) {
            CheckStep::Ask { stage: onward, ask } => {
                asked.push(ask);
                stage = onward;
                answer = match ask {
                    ProfileAsk::LookUp { .. } => ProfileAnswer::Found(stored.map(profile)),
                    ProfileAsk::Create { .. } => {
                        stored = created;
                        ProfileAnswer::Created
                    }
                };
            }
            done => return (done, asked),
        }
    }
}

#[test]
fn check_reads_the_permission_of_a_stored_profile() {
    let look = ProfileAsk::LookUp { discord_id: 9 };
    assert_eq!(run_check(Some(true), None), (CheckStep::Done(Ok(true)), vec![look, look]));
    assert_eq!(run_check(Some(false), None), (CheckStep::Done(Ok(false)), vec![look, look]));
}

#[test]
fn check_creates_a_profile_and_reads_it() {
    let look = ProfileAsk::LookUp { discord_id: 9 };
    let create = ProfileAsk::Create { discord_id: 9 };
    assert_eq!(run_check(None, Some(true)), (CheckStep::Done(Ok(true)), vec![look, create, look]));
    assert_eq!(run_check(None, Some(false)), (CheckStep::Done(Ok(false)), vec![look, create, look]));
}

#[test]
fn check_fails_when_the_created_profile_is_not_there() {
    let (end, asked) = run_check(None, None);
    assert_eq!(end, CheckStep::Done(Err(WorkflowError::ExternalServiceFailure)));
    assert_eq!(asked.len(), 3);
}

#[test]
fn check_fails_when_the_store_fails() {
    let failed = CheckStep::Done(Err(WorkflowError::ExternalServiceFailure));
    assert_eq!(check_if_allowed(CheckStage::Looking, 9, ProfileAnswer::Failed), failed);
    assert_eq!(check_if_allowed(CheckStage::Creating, 9, ProfileAnswer::Failed), failed);
    assert_eq!(check_if_allowed(CheckStage::Reading, 9, ProfileAnswer::Failed), failed);
}

#[test]
fn action_refused_tells_the_invoker_alone() {
    let reply = action_refused();
    assert!(reply.ephemeral);
    assert_eq!(
        reply.message.content,
        ":x: Sorry, either that user has disabled actions or has no profile to check against"
    );
}

#[test]
fn hug_tells_who_hugs_whom_and_attaches_the_picture() {
    let reply = use_action_hug(id(10), id(20), Some("https://example.org/hug.gif".to_string()));
    assert_eq!(reply.message.content, "<@10> hugs <@20>");
    assert_eq!(reply.attachment.as_deref(), Some("https://example.org/hug.gif"));
    assert!(!reply.ephemeral);
    match &reply.message.notify {
        Notify::Users(list) => {
            assert_eq!(list.iter().map(|s| s.get()).collect::<Vec<u64>>(), vec![10, 20])
        }
        other => panic!("unexpected leave {:?}", other),
    }
}

#[test]
fn kiss_and_pat_use_their_own_words() {
    assert_eq!(use_action_kiss(id(1), id(2), Some("k".to_string())).message.content, "<@1> kisses <@2>");
    assert_eq!(use_action_pat(id(1), id(2), Some("p".to_string())).message.content, "<@1> pats <@2>");
    assert_eq!(
        use_action(Gesture::Hug, id(3), id(3), Some("h".to_string())).message.content,
        "<@3> hugs <@3>"
    );
}

#[test]
fn action_without_a_picture_tells_the_invoker_that_something_went_wrong() {
    for reply in [
        use_action_hug(id(1), id(2), None),
        use_action_kiss(id(1), id(2), None),
        use_action_pat(id(1), id(2), None),
    ] {
        assert!(reply.ephemeral);
        assert_eq!(reply.attachment, None);
        assert_eq!(
            reply.message.content,
            ":x: Something went wrong while fetching the action image"
        );
    }
}

#[test]
fn gesture_names_are_what_the_picture_service_knows() {
    assert_eq!(Gesture::Hug.name(), "hug");
    assert_eq!(Gesture::Kiss.name(), "kiss");
    assert_eq!(Gesture::Pat.name(), "pat");
}

#[test]
fn image_request_lowers_the_case_and_underscores_the_spaces() {
    assert_eq!(action_image_request("hug"), "https://api.otakugifs.xyz/gif?reaction=hug");
    assert_eq!(
        action_image_request("Air Kiss"),
        "https://api.otakugifs.xyz/gif?reaction=air_kiss"
    );
    assert_eq!(
        action_image_request("  PAT  "),
        "https://api.otakugifs.xyz/gif?reaction=__pat__"
    );
    assert_eq!(action_image_request("ÄB c"), "https://api.otakugifs.xyz/gif?reaction=äb_c");
}

#[test]
fn random_action_image_is_the_url_of_the_answer() {
    assert_eq!(
        get_random_action_image("{\"url\": \"https://cdn.example/a.gif\"}"),
        Ok("https://cdn.example/a.gif".to_string())
    );
}

#[test]
fn random_action_image_needs_a_text_under_url() {
    assert_eq!(get_random_action_image("{\"link\": \"x\"}"), Err(FieldError::NoText));
    assert_eq!(get_random_action_image("{\"url\": 5}"), Err(FieldError::NoText));
    assert_eq!(get_random_action_image("[1, 2]"), Err(FieldError::NoText));
    assert_eq!(get_random_action_image("null"), Err(FieldError::NoText));
}

#[test]
fn random_action_image_needs_json() {
    assert_eq!(get_random_action_image("<html>"), Err(FieldError::NotJson));
    assert_eq!(get_random_action_image(""), Err(FieldError::NotJson));
    assert_eq!(get_random_action_image("{\"url\": \"x\""), Err(FieldError::NotJson));
}
