use sillycord_bot::commands::profile::{
    edit, edit_done, edit_profile, edit_profile_ask, ensure_profile_is_setup, profile_target,
    view, ProfileAnswer, ProfileAsk, SetupStage, SetupStep,
};
use sillycord_bot::effects::{Notify, Tint};
use sillycord_bot::error::WorkflowError;
use sillycord_bot::snowflake::Snowflake;
use sillycord_bot::structs::account::Account;
use sillycord_bot::structs::user::User;

fn account(raw: u64, name: &str) -> Account {
    Account::new(Snowflake::new(raw).unwrap(), name.to_string(), 0)
}

fn profile(about: Option<&str>, pronouns: Option<&str>, allowed: bool) -> User {
    User {
        id: 3,
        discord_id: 77,
        actions_allowed: allowed,
        about: about.map(|s| s.to_string()),
        pronouns: pronouns.map(|s| s.to_string()),
    }
}

#[test]
fn fresh_profile_allows_actions_and_says_nothing() {
    let fresh = User::fresh(12, 345);
    assert_eq!(fresh.id, 12);
    assert_eq!(fresh.discord_id, 345);
    assert!(fresh.actions_allowed);
    assert_eq!(fresh.about, None);
    assert_eq!(fresh.pronouns, None);
}

#[test]
fn from_row_reads_the_identifier_and_the_permission() {
    let row = User::from_row(
        4,
        "1017196087276220447",
        Some(1),
        Some("hi".to_string()),
        None,
    )
    .unwrap();
    assert_eq!(row.id, 4);
    assert_eq!(row.discord_id, 1017196087276220447);
    assert!(row.actions_allowed);
    assert_eq!(row.about.as_deref(), Some("hi"));
    assert_eq!(row.pronouns, None);
}

#[test]
fn from_row_allows_actions_only_for_a_one() {
    assert!(!User::from_row(1, "5", Some(0), None, None).unwrap().actions_allowed);
    assert!(!User::from_row(1, "5", Some(2), None, None).unwrap().actions_allowed);
    assert!(!User::from_row(1, "5", Some(-1), None, None).unwrap().actions_allowed);
    assert!(!User::from_row(1, "5", None, None, None).unwrap().actions_allowed);
    assert!(User::from_row(1, "5", Some(1), None, None).unwrap().actions_allowed);
}

#[test]
fn from_row_refuses_an_identifier_that_is_no_number() {
    assert!(User::from_row(1, "", Some(1), None, None).is_none());
    assert!(User::from_row(1, "12a", Some(1), None, None).is_none());
    assert!(User::from_row(1, "-3", Some(1), None, None).is_none());
    assert!(User::from_row(1, "18446744073709551616", Some(1), None, None).is_none());
}

#[test]
fn profile_target_defaults_to_the_invoker() {
    assert_eq!(profile_target(None, account(1, "me")).name, "me");
    assert_eq!(profile_target(Some(account(2, "you")), account(1, "me")).name, "you");
}

#[test]
fn view_shows_a_full_profile() {
    let target = Account::new(Snowflake::new(77).unwrap(), "sticks".to_string(), 1);
    let known = profile(Some("likes rust"), Some("they/them"), true);
    let reply = view(&target, Some(&known));
    assert!(!reply.ephemeral);
    assert_eq!(reply.attachment, None);
    assert_eq!(reply.message.content, "");
    assert!(matches!(reply.message.notify, Notify::AsWritten));
    let embed = reply.message.embed.unwrap();
    assert_eq!(embed.title, "Profile of sticks#0001");
    assert_eq!(
        embed.description,
        "About: likes rust\nPronouns: they/them\nActions Allowed: Yes"
    );
    assert_eq!(embed.footer, "");
    assert_eq!(embed.tint, Tint::FabledPink);
}

#[test]
fn view_fills_in_what_a_profile_leaves_out() {
    let known = profile(None, None, false);
    let reply = view(&account(77, "emi"), Some(&known));
    let embed = reply.message.embed.unwrap();
    assert_eq!(embed.title, "Profile of emi");
    assert_eq!(
        embed.description,
        "About: No about section\nPronouns: No pronouns set\nActions Allowed: No"
    );
}

#[test]
fn view_without_a_profile_tells_the_invoker_alone() {
    let reply = view(&account(77, "emi"), None);
    assert!(reply.ephemeral);
    assert_eq!(reply.message.content, ":x: User has no profile");
    assert!(reply.message.embed.is_none());
}

#[test]
fn edit_without_any_option_asks_for_one() {
    let reply = edit(None, None, None).unwrap_err();
    assert!(reply.ephemeral);
    assert_eq!(reply.message.content, "Please provide at least one option to edit");
}

#[test]
fn edit_with_one_option_is_accepted() {
    assert!(edit(Some("a".to_string()), None, None).is_ok());
    assert!(edit(None, Some("p".to_string()), None).is_ok());
    assert!(edit(None, None, Some(false)).is_ok());
}

#[test]
fn apply_replaces_the_texts_and_keeps_the_permission() {
    let changes = edit(Some("new about".to_string()), None, None).unwrap();
    let updated = changes.apply(profile(Some("old"), Some("she/her"), false));
    assert_eq!(updated.id, 3);
    assert_eq!(updated.discord_id, 77);
    assert_eq!(updated.about.as_deref(), Some("new about"));
    assert_eq!(updated.pronouns, None);
    assert!(!updated.actions_allowed);
}

#[test]
fn apply_changes_the_permission_when_one_is_given() {
    let changes = edit(None, Some("he/him".to_string()), Some(true)).unwrap();
    let updated = changes.apply(profile(Some("old"), None, false));
    assert_eq!(updated.about, None);
    assert_eq!(updated.pronouns.as_deref(), Some("he/him"));
    assert!(updated.actions_allowed);
}

#[test]
fn edit_done_tells_the_invoker_alone() {
    let reply = edit_done();
    assert!(reply.ephemeral);
    assert_eq!(reply.message.content, ":white_check_mark: Profile updated successfully!");
}

#[test]
fn setup_looks_the_profile_up_first() {
    assert_eq!(
        ensure_profile_is_setup(SetupStage::Start, 9, ProfileAnswer::Begin),
        SetupStep::Ask { stage: SetupStage::Looking, ask: ProfileAsk::LookUp { discord_id: 9 } }
    );
}

#[test]
fn setup_is_done_when_a_profile_is_found() {
    let found = ProfileAnswer::Found(Some(User::fresh(1, 9)));
    assert_eq!(ensure_profile_is_setup(SetupStage::Looking, 9, found), SetupStep::Done(Ok(true)));
}

#[test]
fn setup_creates_a_profile_where_none_is_found() {
    assert_eq!(
        ensure_profile_is_setup(SetupStage::Looking, 9, ProfileAnswer::Found(None)),
        SetupStep::Ask { stage: SetupStage::Creating, ask: ProfileAsk::Create { discord_id: 9 } }
    );
    assert_eq!(
        ensure_profile_is_setup(SetupStage::Creating, 9, ProfileAnswer::Created),
        SetupStep::Done(Ok(true))
    );
}

#[test]
fn setup_fails_when_the_store_fails() {
    let failed = SetupStep::Done(Err(WorkflowError::ExternalServiceFailure));
    assert_eq!(ensure_profile_is_setup(SetupStage::Looking, 9, ProfileAnswer::Failed), failed);
    assert_eq!(ensure_profile_is_setup(SetupStage::Creating, 9, ProfileAnswer::Failed), failed);
    assert_eq!(ensure_profile_is_setup(SetupStage::Creating, 9, ProfileAnswer::Found(None)), failed);
}

#[test]
fn edit_creates_a_profile_exactly_where_none_was_found() {
    assert_eq!(edit_profile_ask(None, 77), Some(ProfileAsk::Create { discord_id: 77 }));
    let known = profile(None, None, false);
    assert_eq!(edit_profile_ask(Some(&known), 77), None);
}

#[test]
fn edit_changes_the_profile_that_was_found() {
    let chosen = edit_profile(Some(profile(Some("old"), None, false)), None, 77).unwrap();
    assert_eq!(chosen.id, 3);
    assert_eq!(chosen.about.as_deref(), Some("old"));
    assert!(!chosen.actions_allowed);
    let chosen = edit_profile(Some(profile(None, None, false)), Some(9), 77).unwrap();
    assert_eq!(chosen.id, 3);
}

#[test]
fn edit_changes_the_fresh_profile_where_none_was_found() {
    let chosen = edit_profile(None, Some(41), 77).unwrap();
    assert_eq!(chosen.id, 41);
    assert_eq!(chosen.discord_id, 77);
    assert!(chosen.actions_allowed);
    assert_eq!(chosen.about, None);
    let changes = edit(None, Some("they".to_string()), None).unwrap();
    let updated = changes.apply(chosen);
    assert_eq!(updated.id, 41);
    assert!(updated.actions_allowed);
    assert_eq!(updated.pronouns.as_deref(), Some("they"));
}

#[test]
fn edit_has_no_profile_with_neither_found_nor_created() {
    assert!(edit_profile(None, None, 77).is_none());
}
