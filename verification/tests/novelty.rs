use sillycord_bot::commands::cuteness::{
    cutenesss, pause_before, pause_before_at, thinking_message, THINKING_STEPS,
};
use sillycord_bot::commands::ping::{ping, ping_started};
use sillycord_bot::effects::{Notify, Tint};
use sillycord_bot::snowflake::Snowflake;

#[test]
fn thinking_messages_in_order() {
    assert_eq!(THINKING_STEPS, 6);
    assert_eq!(thinking_message(0), Some(":thinking: Thinking super hard..."));
    assert_eq!(thinking_message(1), Some(":gear: Calculating..."));
    assert_eq!(thinking_message(2), Some(":bar_chart: Crunching the numbers..."));
    assert_eq!(thinking_message(3), Some(":bulb: Looking at the data..."));
    assert_eq!(thinking_message(4), Some(":mag: Investigating..."));
    assert_eq!(thinking_message(5), Some(":clipboard: Finalizing the report..."));
    assert_eq!(thinking_message(6), None);
    assert_eq!(thinking_message(usize::MAX), None);
}

#[test]
fn the_last_message_waits_a_second_and_a_half() {
    assert_eq!(pause_before_at(5, 700), 1500);
    assert_eq!(pause_before(5), 1500);
}

#[test]
fn other_messages_wait_what_was_drawn() {
    assert_eq!(pause_before_at(1, 700), 700);
    assert_eq!(pause_before_at(4, 1500), 1500);
    assert_eq!(pause_before_at(0, 500), 500);
}

#[test]
fn drawn_pauses_lie_between_half_a_second_and_a_second_and_a_half() {
    let mut seen = std::collections::HashSet::new();
    for _ in 0..200 {
        let millis = pause_before(2);
        assert!((500..=1500).contains(&millis));
        seen.insert(millis);
    }
    assert!(seen.len() > 1);
}

#[test]
fn verdict_names_the_member_and_notifies_no_other() {
    let reply = cutenesss("sticks", Snowflake::new(77).unwrap(), "83.67");
    assert_eq!(reply.message.content, "I have determined that sticks is 83.67% cute!");
    assert!(!reply.ephemeral);
    match &reply.message.notify {
        Notify::Users(list) => {
            assert_eq!(list.iter().map(|s| s.get()).collect::<Vec<u64>>(), vec![77])
        }
        other => panic!("unexpected leave {:?}", other),
    }
}

#[test]
fn ping_starts_with_a_purple_card() {
    let reply = ping_started();
    let embed = reply.message.embed.unwrap();
    assert_eq!(embed.title, "Ping?");
    assert_eq!(embed.description, "Pinging...");
    assert_eq!(embed.tint, Tint::Purple);
    assert_eq!(reply.message.content, "");
}

#[test]
fn pong_tells_the_time_taken_and_the_uptime() {
    let reply = ping(128, "3723.45");
    let embed = reply.message.embed.unwrap();
    assert_eq!(embed.title, "Pong!");
    assert_eq!(embed.description, "Pong! Took 128ms!\nProcess uptime: 3723.45");
    assert_eq!(embed.tint, Tint::DarkGreen);
    assert!(!reply.ephemeral);
}
