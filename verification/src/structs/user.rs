use crate::text::{parse_u64, parsed_u64};
use vstd::prelude::*;

verus! {

/// What an optional text stands for.
pub open spec fn text_view(text: Option<String>) -> Option<Seq<char>> {
    match text {
        Some(given) => Some(given@),
        None => None,
    }
}

/// A member's stored profile.
#[derive(Debug)]
pub struct User {
    pub id: u64,
    pub discord_id: u64,
    pub actions_allowed: bool,
    pub about: Option<String>,
    pub pronouns: Option<String>,
}

/// What a `User` stands for.
pub struct UserView {
    pub id: u64,
    pub discord_id: u64,
    pub actions_allowed: bool,
    pub about: Option<Seq<char>>,
    pub pronouns: Option<Seq<char>>,
}

impl View for User {
    type V = UserView;

    open spec fn view(&self) -> UserView {
        UserView {
            id: self.id,
            discord_id: self.discord_id,
            actions_allowed: self.actions_allowed,
            about: text_view(self.about),
            pronouns: text_view(self.pronouns),
        }
    }
}

/// The profile that a stored row stands for, if its member's identifier,
/// which is stored as text, is a number: actions are allowed only where the
/// row says so with a one.
pub open spec fn row_profile(
    id: u64,
    discord_id: Seq<char>,
    actions_allowed: Option<i8>,
    about: Option<Seq<char>>,
    pronouns: Option<Seq<char>>,
) -> Option<UserView> {
    match parsed_u64(discord_id) {
        Some(number) => Some(
            UserView {
                id,
                discord_id: number,
                actions_allowed: actions_allowed == Some(1i8),
                about,
                pronouns,
            },
        ),
        None => None,
    }
}

impl User {
    /// The profile of a member who has just been given one: nothing is said
    /// about the member yet, and actions are allowed.
    pub fn fresh(id: u64, discord_id: u64) -> (profile: User)
        ensures
            profile@ == (UserView {
                id,
                discord_id,
                actions_allowed: true,
                about: None,
                pronouns: None,
            }),
    {
        User { id, discord_id, actions_allowed: true, about: None, pronouns: None }
    }

    /// The profile that a stored row stands for, or nothing where the
    /// member's identifier in it is not a number.
    pub fn from_row(
        id: u64,
        discord_id: &str,
        actions_allowed: Option<i8>,
        about: Option<String>,
        pronouns: Option<String>,
    ) -> (profile: Option<User>)
        ensures
            match profile {
                Some(p) => Some(p@),
                None => None,
            } == row_profile(id, discord_id@, actions_allowed, text_view(about), text_view(pronouns)),
    {
        match parse_u64(discord_id) {
            Some(number) => {
                let allowed = match actions_allowed {
                    Some(flag) => flag == 1,
                    None => false,
                };
                Some(User { id, discord_id: number, actions_allowed: allowed, about, pronouns })
            },
            None => None,
        }
    }
}

} // verus!
