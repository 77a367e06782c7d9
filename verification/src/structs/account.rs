use crate::snowflake::{user_mention_text, Snowflake};
use crate::text::decimal;
use core::num::NonZeroU16;
use vstd::prelude::*;

verus! {

/// Four decimal places for `d`, with leading zeros where it has fewer.
pub open spec fn four_digits(d: nat) -> Seq<char> {
    if d < 10 {
        seq!['0', '0', '0'] + decimal(d)
    } else if d < 100 {
        seq!['0', '0'] + decimal(d)
    } else if d < 1000 {
        seq!['0'] + decimal(d)
    } else {
        decimal(d)
    }
}

/// A name with its discriminator: the name alone where the discriminator is
/// zero, else the name, `#`, and the discriminator on four places.
pub open spec fn tag_text(name: Seq<char>, discriminator: u16) -> Seq<char> {
    if discriminator == 0 {
        name
    } else {
        name + seq!['#'] + four_digits(discriminator as nat)
    }
}

/// A member of the community as the workflows see one.
#[derive(Debug)]
pub struct Account {
    pub id: Snowflake,
    pub name: String,
    /// Zero for an account that has none.
    pub discriminator: u16,
}

/// What an `Account` stands for.
pub struct AccountView {
    pub id: u64,
    pub name: Seq<char>,
    pub discriminator: u16,
}

impl AccountView {
    /// The account's name as shown to others.
    pub open spec fn tag(self) -> Seq<char> {
        tag_text(self.name, self.discriminator)
    }

    /// The text that notifies the account.
    pub open spec fn mention(self) -> Seq<char> {
        user_mention_text(self.id)
    }
}

impl View for Account {
    type V = AccountView;

    open spec fn view(&self) -> AccountView {
        AccountView { id: self.id@, name: self.name@, discriminator: self.discriminator }
    }
}

impl Clone for Account {
    fn clone(&self) -> (copy: Self)
        ensures
            copy == *self,
    {
        Account { id: self.id, name: self.name.clone(), discriminator: self.discriminator }
    }
}

impl Account {
    pub fn new(id: Snowflake, name: String, discriminator: u16) -> (account: Account)
        ensures
            account.id == id,
            account.name == name,
            account.discriminator == discriminator,
    {
        Account { id, name, discriminator }
    }

    /// The account's name as shown to others.
    pub fn tag(&self) -> (text: String)
        ensures
            text@ == self@.tag(),
    {
        user_tag(self.name.as_str(), self.discriminator)
    }

    /// The text that notifies the account.
    pub fn mention(&self) -> (text: String)
        ensures
            text@ == self@.mention(),
    {
        self.id.mention_user()
    }
}

/// `User::tag` of serenity, on a user that has this name and discriminator
/// and is otherwise `User::default()`. serenity writes the name, and for a
/// discriminator other than zero a `#` and the number padded with zeros to
/// four places.
#[verifier::external_body]
fn user_tag(name: &str, discriminator: u16) -> (text: String)
    ensures
        text@ == tag_text(name@, discriminator),
{
    let mut user = serenity::model::user::User::default();
    user.name = name.to_owned();
    user.discriminator = NonZeroU16::new(discriminator);
    user.tag()
}

} // verus!
