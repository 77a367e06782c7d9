use sillycord_bot::snowflake::Snowflake;
use sillycord_bot::structs::account::Account;

fn account(raw: u64, name: &str, discriminator: u16) -> Account {
    Account::new(Snowflake::new(raw).unwrap(), name.to_string(), discriminator)
}

#[test]
fn tag_without_discriminator_is_the_name() {
    assert_eq!(account(1, "sticks", 0).tag(), "sticks");
}

#[test]
fn tag_pads_the_discriminator_to_four_places() {
    assert_eq!(account(1, "emi", 7).tag(), "emi#0007");
    assert_eq!(account(1, "emi", 42).tag(), "emi#0042");
    assert_eq!(account(1, "emi", 123).tag(), "emi#0123");
    assert_eq!(account(1, "emi", 1234).tag(), "emi#1234");
}

#[test]
fn tag_keeps_a_fifth_digit() {
    assert_eq!(account(1, "katie", 65535).tag(), "katie#65535");
}

#[test]
fn account_mention_is_the_user_mention() {
    assert_eq!(account(272871217256726531, "emi", 0).mention(), "<@272871217256726531>");
}

#[test]
fn mention_of_the_largest_identifier() {
    assert_eq!(account(u64::MAX, "x", 0).mention(), "<@18446744073709551615>");
}

#[test]
fn clone_keeps_every_field() {
    let first = account(5, "name", 9);
    let copy = first.clone();
    assert_eq!(copy.id.get(), 5);
    assert_eq!(copy.name, "name");
    assert_eq!(copy.discriminator, 9);
}
