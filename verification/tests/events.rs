use sillycord_bot::effects::{Notify, Tint};
use sillycord_bot::error::WorkflowError;
use sillycord_bot::events::{
    event_handler, reaction_course, Course, Duty, Happening, Reaction, ReactionKind,
};
use sillycord_bot::handlers::join::JoinFlow;
use sillycord_bot::settings::Config;
use sillycord_bot::snowflake::Snowflake;

fn config() -> Config {
    Config::from_raw(100, 11, 12, 13, 14, 15, 21, 22).unwrap()
}

fn id(raw: u64) -> Snowflake {
    Snowflake::new(raw).unwrap()
}

#[test]
fn ready_is_announced_in_the_public_log() {
    let happening =
        Happening::Ready { rustc: "rustc 1.80.0\n".to_string(), version: "0.1.0".to_string() };
    match event_handler(&config(), happening) {
        Reaction::Announce { watching, channel, message } => {
            assert_eq!(watching, "sillycord");
            assert_eq!(channel.get(), 13);
            assert_eq!(message.content, "");
            assert!(matches!(message.notify, Notify::AsWritten));
            let embed = message.embed.unwrap();
            assert_eq!(embed.title, "Bot Ready!");
            assert_eq!(
                embed.description,
                "Bot is ready! Running on rust version rustc 1.80.0\n, sillycord-bot version 0.1.0"
            );
            assert_eq!(
                embed.footer,
                "Bot created for sillycord. Made with ❤️ by sticks and others"
            );
            assert_eq!(embed.tint, Tint::DarkGreen);
        }
        other => panic!("unexpected reaction {:?}", other),
    }
}

#[test]
fn a_member_who_joined_the_main_community_is_reported_and_welcomed() {
    let happening = Happening::Joined { guild: 100, member: id(175928847299117063) };
    match event_handler(&config(), happening) {
        Reaction::Greet { channel, message, welcome } => {
            assert_eq!(channel.get(), 14);
            assert_eq!(
                message.content,
                "<:join:1310407968503894158> New user joined <@175928847299117063> - created at: <t:1462015105:f>"
            );
            assert!(message.embed.is_none());
            assert!(matches!(welcome, JoinFlow::Arrived { member } if member.get() == 175928847299117063));
        }
        other => panic!("unexpected reaction {:?}", other),
    }
}

#[test]
fn a_member_who_joined_elsewhere_is_passed_over() {
    let happening = Happening::Joined { guild: 101, member: id(5) };
    assert!(matches!(event_handler(&config(), happening), Reaction::Nothing));
}

#[test]
fn a_member_who_left_loses_the_profile_and_is_reported() {
    match event_handler(&config(), Happening::Left { user: id(42) }) {
        Reaction::Farewell { user, channel, message } => {
            assert_eq!(user.get(), 42);
            assert_eq!(channel.get(), 14);
            assert_eq!(message.content, "<:leave:1310407968503894158> User left <@42>");
        }
        other => panic!("unexpected reaction {:?}", other),
    }
}

#[test]
fn anything_else_is_passed_over() {
    assert!(matches!(event_handler(&config(), Happening::Other), Reaction::Nothing));
}

#[test]
fn created_seconds_of_small_and_large_identifiers() {
    assert_eq!(id(1).created_seconds(), 1_420_070_400);
    assert_eq!(id(1 << 22).created_seconds(), 1_420_070_400);
    assert_eq!(id(1000 << 22).created_seconds(), 1_420_070_401);
    assert_eq!(id(u64::MAX).created_seconds(), 5_818_116_911);
}

#[test]
fn a_reaction_does_its_duties_in_order_and_ends_well() {
    assert_eq!(reaction_course(ReactionKind::Announce, 0, false), Course::Go(Duty::Watch));
    assert_eq!(reaction_course(ReactionKind::Announce, 1, false), Course::Go(Duty::Post));
    assert_eq!(reaction_course(ReactionKind::Announce, 2, false), Course::End(Ok(())));
    assert_eq!(reaction_course(ReactionKind::Greet, 0, false), Course::Go(Duty::Post));
    assert_eq!(reaction_course(ReactionKind::Greet, 1, false), Course::Go(Duty::Welcome));
    assert_eq!(reaction_course(ReactionKind::Greet, 2, false), Course::End(Ok(())));
    assert_eq!(reaction_course(ReactionKind::Farewell, 0, false), Course::Go(Duty::DropProfile));
    assert_eq!(reaction_course(ReactionKind::Farewell, 1, false), Course::Go(Duty::Post));
    assert_eq!(reaction_course(ReactionKind::Farewell, 2, false), Course::End(Ok(())));
    assert_eq!(reaction_course(ReactionKind::Nothing, 0, false), Course::End(Ok(())));
}

#[test]
fn a_failed_welcome_is_noted_and_the_event_ends_well() {
    assert_eq!(reaction_course(ReactionKind::Greet, 2, true), Course::End(Ok(())));
}

#[test]
fn a_failed_post_before_the_welcome_ends_the_event_with_an_error() {
    assert_eq!(
        reaction_course(ReactionKind::Greet, 1, true),
        Course::End(Err(WorkflowError::NotificationFailure))
    );
}

#[test]
fn a_failed_deletion_ends_the_event_before_any_post() {
    assert_eq!(
        reaction_course(ReactionKind::Farewell, 1, true),
        Course::End(Err(WorkflowError::ExternalServiceFailure))
    );
    assert_eq!(
        reaction_course(ReactionKind::Farewell, 2, true),
        Course::End(Err(WorkflowError::NotificationFailure))
    );
}

#[test]
fn a_failed_announcement_ends_the_event_with_an_error() {
    assert_eq!(reaction_course(ReactionKind::Announce, 1, true), Course::Go(Duty::Post));
    assert_eq!(
        reaction_course(ReactionKind::Announce, 2, true),
        Course::End(Err(WorkflowError::NotificationFailure))
    );
}

#[test]
fn a_reaction_past_its_duties_has_ended_well() {
    assert_eq!(reaction_course(ReactionKind::Nothing, 3, true), Course::End(Ok(())));
    assert_eq!(reaction_course(ReactionKind::Greet, 9, true), Course::End(Ok(())));
}

#[test]
fn reaction_kinds() {
    assert_eq!(event_handler(&config(), Happening::Other).kind(), ReactionKind::Nothing);
    assert_eq!(
        event_handler(&config(), Happening::Left { user: id(42) }).kind(),
        ReactionKind::Farewell
    );
    assert_eq!(
        event_handler(&config(), Happening::Joined { guild: 100, member: id(5) }).kind(),
        ReactionKind::Greet
    );
}
