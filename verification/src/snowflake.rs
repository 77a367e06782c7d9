use serenity::model::id::{RoleId, UserId};
use serenity::model::mention::Mentionable;
use crate::text::decimal;
use vstd::prelude::*;

verus! {

/// The text that makes the platform notify, or link to, the user `id`.
pub open spec fn user_mention_text(id: u64) -> Seq<char> {
    seq!['<', '@'] + decimal(id as nat) + seq!['>']
}

/// The text that makes the platform notify the holders of the role `id`.
pub open spec fn role_mention_text(id: u64) -> Seq<char> {
    seq!['<', '@', '&'] + decimal(id as nat) + seq!['>']
}

/// When the platform handed out the identifier `id`, in milliseconds since
/// the Unix epoch: the identifier's upper 42 bits count the milliseconds
/// since the first second of 2015.
pub open spec fn created_millis(id: u64) -> int {
    (id >> 22) + 1_420_070_400_000
}

/// An identifier as the platform hands them out: any 64-bit number but zero.
#[derive(Clone, Copy, Debug)]
pub struct Snowflake {
    raw: u64,
}

impl View for Snowflake {
    type V = u64;

    closed spec fn view(&self) -> u64 {
        self.raw
    }
}

impl Snowflake {
    #[verifier::type_invariant]
    spec fn nonzero(self) -> bool {
        self.raw != 0
    }

    /// The identifier `raw`, or nothing where `raw` is zero.
    pub fn new(raw: u64) -> (id: Option<Snowflake>)
        ensures
            raw == 0 <==> id is None,
            id matches Some(s) ==> s@ == raw,
    {
        if raw == 0 {
            None
        } else {
            Some(Snowflake { raw })
        }
    }

    /// The number behind the identifier.
    pub fn get(&self) -> (raw: u64)
        ensures
            raw == self@,
            raw != 0,
    {
        proof {
            use_type_invariant(self);
        }
        self.raw
    }

    /// When the platform handed out the identifier, in whole seconds since
    /// the Unix epoch.
    pub fn created_seconds(&self) -> (secs: u64)
        ensures
            secs == created_millis(self@) / 1000,
    {
        let id = self.get();
        assert(id >> 22 <= 0x3ff_ffff_ffff) by (bit_vector);
        let millis = user_created_millis(id);
        (millis / 1000) as u64
    }

    /// The mention of the user with this identifier.
    pub fn mention_user(&self) -> (text: String)
        ensures
            text@ == user_mention_text(self@),
    {
        user_mention(self.get())
    }

    /// The mention of the role with this identifier.
    pub fn mention_role(&self) -> (text: String)
        ensures
            text@ == role_mention_text(self@),
    {
        role_mention(self.get())
    }
}

/// `Mentionable::mention` of serenity's `UserId`, written out through its
/// `Display`: the characters `<@`, the identifier in decimal, and `>`.
/// `UserId::new` panics on zero, which the precondition leaves out.
#[verifier::external_body]
fn user_mention(id: u64) -> (text: String)
    requires
        id != 0,
    ensures
        text@ == user_mention_text(id),
{
    UserId::new(id).mention().to_string()
}

/// `UserId::created_at` of serenity, read through chrono's
/// `DateTime::timestamp_millis`: serenity shifts the identifier right by 22
/// bits and adds the milliseconds from the Unix epoch to the first second
/// of 2015. `UserId::new` panics on zero, which the precondition leaves out.
#[verifier::external_body]
fn user_created_millis(id: u64) -> (millis: i64)
    requires
        id != 0,
    ensures
        millis == created_millis(id),
{
    UserId::new(id).created_at().timestamp_millis()
}

/// `Mentionable::mention` of serenity's `RoleId`, written out through its
/// `Display`: the characters `<@&`, the identifier in decimal, and `>`.
/// `RoleId::new` panics on zero, which the precondition leaves out.
#[verifier::external_body]
fn role_mention(id: u64) -> (text: String)
    requires
        id != 0,
    ensures
        text@ == role_mention_text(id),
{
    RoleId::new(id).mention().to_string()
}

} // verus!
