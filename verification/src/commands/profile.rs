use crate::effects::{
    whispered, Embed, EmbedView, Message, MessageView, Notify, NotifyView, Reply, ReplyView, Tint,
};
use crate::error::WorkflowError;
use crate::structs::account::Account;
use crate::structs::user::{text_view, User, UserView};
use vstd::prelude::*;

verus! {

/// What is asked of the profile store.
#[derive(Clone, Copy, Debug, PartialEq, Eq, Structural)]
pub enum ProfileAsk {
    /// The profile of the member `discord_id`, if one is stored.
    LookUp { discord_id: u64 },
    /// A fresh profile for the member `discord_id`.
    Create { discord_id: u64 },
}

/// What the profile store answered.
#[derive(Debug)]
pub enum ProfileAnswer {
    /// Nothing was asked yet.
    Begin,
    /// The profile that was looked up, if one is stored.
    Found(Option<User>),
    /// The fresh profile was stored.
    Created,
    /// The store could not be reached.
    Failed,
}

/// How far the making sure of a profile has come.
#[derive(Clone, Copy, Debug, PartialEq, Eq, Structural)]
pub enum SetupStage {
    /// Nothing was asked yet.
    Start,
    /// The profile is being looked up.
    Looking,
    /// A fresh profile is being stored.
    Creating,
}

/// The making sure of a profile after one step.
#[derive(Clone, Copy, Debug, PartialEq, Eq)]
pub enum SetupStep {
    /// It goes on: `ask` is to be asked of the store.
    Ask { stage: SetupStage, ask: ProfileAsk },
    /// It has ended: the member has a profile, or the store failed.
    Done(Result<bool, WorkflowError>),
}

/// One step of making sure that the member `discord_id` has a profile: it
/// is looked up, and stored afresh only where none was found.
pub open spec fn setup_model(stage: SetupStage, discord_id: u64, answer: ProfileAnswer) -> SetupStep {
    match stage {
        SetupStage::Start => SetupStep::Ask {
            stage: SetupStage::Looking,
            ask: ProfileAsk::LookUp { discord_id },
        },
        SetupStage::Looking => match answer {
            ProfileAnswer::Found(Some(_)) => SetupStep::Done(Ok(true)),
            ProfileAnswer::Found(None) => SetupStep::Ask {
                stage: SetupStage::Creating,
                ask: ProfileAsk::Create { discord_id },
            },
            _ => SetupStep::Done(Err(WorkflowError::ExternalServiceFailure)),
        },
        SetupStage::Creating => match answer {
            ProfileAnswer::Created => SetupStep::Done(Ok(true)),
            _ => SetupStep::Done(Err(WorkflowError::ExternalServiceFailure)),
        },
    }
}

/// One step of making sure that the member `discord_id` has a profile.
pub fn ensure_profile_is_setup(stage: SetupStage, discord_id: u64, answer: ProfileAnswer) -> (step:
    SetupStep)
    ensures
        step == setup_model(stage, discord_id, answer),
{
    match stage {
        SetupStage::Start => SetupStep::Ask {
            stage: SetupStage::Looking,
            ask: ProfileAsk::LookUp { discord_id },
        },
        SetupStage::Looking => match answer {
            ProfileAnswer::Found(Some(_)) => SetupStep::Done(Ok(true)),
            ProfileAnswer::Found(None) => SetupStep::Ask {
                stage: SetupStage::Creating,
                ask: ProfileAsk::Create { discord_id },
            },
            _ => SetupStep::Done(Err(WorkflowError::ExternalServiceFailure)),
        },
        SetupStage::Creating => match answer {
            ProfileAnswer::Created => SetupStep::Done(Ok(true)),
            _ => SetupStep::Done(Err(WorkflowError::ExternalServiceFailure)),
        },
    }
}

/// Whose profile is shown: the one that was named, or else the invoker's.
pub fn profile_target(named: Option<Account>, invoker: Account) -> (target: Account)
    ensures
        target == match named {
            Some(account) => account,
            None => invoker,
        },
{
    match named {
        Some(account) => account,
        None => invoker,
    }
}

/// `text`, or `otherwise` where there is none.
pub open spec fn or_else(text: Option<Seq<char>>, otherwise: Seq<char>) -> Seq<char> {
    match text {
        Some(given) => given,
        None => otherwise,
    }
}

/// What a profile says about its member, line by line.
pub open spec fn profile_lines(profile: UserView) -> Seq<char> {
    "About: "@ + or_else(profile.about, "No about section"@) + "\nPronouns: "@ + or_else(
        profile.pronouns,
        "No pronouns set"@,
    ) + "\nActions Allowed: "@ + if profile.actions_allowed {
        "Yes"@
    } else {
        "No"@
    }
}

/// The reply that shows the profile of the member with the tag `tag`, or
/// says to the invoker alone that there is none.
pub open spec fn profile_reply(tag: Seq<char>, profile: Option<UserView>) -> ReplyView {
    match profile {
        Some(known) => ReplyView {
            message: MessageView {
                content: Seq::empty(),
                embed: Some(
                    EmbedView {
                        title: "Profile of "@ + tag,
                        description: profile_lines(known),
                        footer: Seq::empty(),
                        tint: Tint::FabledPink,
                    },
                ),
                notify: NotifyView::AsWritten,
            },
            attachment: None,
            ephemeral: false,
        },
        None => whispered(":x: User has no profile"@),
    }
}

fn append_or(text: &mut String, given: &Option<String>, otherwise: &str)
    ensures
        final(text)@ == old(text)@ + or_else(text_view(*given), otherwise@),
{
    match given {
        Some(own) => text.append(own.as_str()),
        None => text.append(otherwise),
    }
}

/// The reply to a request to see the profile of `target`, which is
/// `profile` if one is stored.
pub fn view(target: &Account, profile: Option<&User>) -> (reply: Reply)
    ensures
        reply@ == profile_reply(
            target@.tag(),
            match profile {
                Some(known) => Some(known@),
                None => None,
            },
        ),
{
    match profile {
        Some(known) => {
            let mut title = String::from_str("Profile of ");
            title.append(target.tag().as_str());
            let mut lines = String::from_str("About: ");
            append_or(&mut lines, &known.about, "No about section");
            lines.append("\nPronouns: ");
            append_or(&mut lines, &known.pronouns, "No pronouns set");
            lines.append("\nActions Allowed: ");
            if known.actions_allowed {
                lines.append("Yes");
            } else {
                lines.append("No");
            }
            Reply {
                message: Message {
                    content: String::new(),
                    embed: Some(
                        Embed {
                            title,
                            description: lines,
                            footer: String::new(),
                            tint: Tint::FabledPink,
                        },
                    ),
                    notify: Notify::AsWritten,
                },
                attachment: None,
                ephemeral: false,
            }
        },
        None => Reply::whisper(":x: User has no profile"),
    }
}

/// What a member wants changed in the own profile.
#[derive(Debug)]
pub struct Changes {
    pub about: Option<String>,
    pub pronouns: Option<String>,
    pub actions_allowed: Option<bool>,
}

/// What a `Changes` stands for.
pub struct ChangesView {
    pub about: Option<Seq<char>>,
    pub pronouns: Option<Seq<char>>,
    pub actions_allowed: Option<bool>,
}

impl View for Changes {
    type V = ChangesView;

    open spec fn view(&self) -> ChangesView {
        ChangesView {
            about: text_view(self.about),
            pronouns: text_view(self.pronouns),
            actions_allowed: self.actions_allowed,
        }
    }
}

impl ChangesView {
    /// `profile` with these changes made: the texts are replaced, also by
    /// nothing where none is given, and the permission is kept where none
    /// is given.
    pub open spec fn applied(self, profile: UserView) -> UserView {
        UserView {
            id: profile.id,
            discord_id: profile.discord_id,
            about: self.about,
            pronouns: self.pronouns,
            actions_allowed: match self.actions_allowed {
                Some(allowed) => allowed,
                None => profile.actions_allowed,
            },
        }
    }
}

impl Changes {
    /// `profile` with these changes made.
    pub fn apply(self, profile: User) -> (updated: User)
        ensures
            updated@ == self@.applied(profile@),
    {
        let allowed = match self.actions_allowed {
            Some(allowed) => allowed,
            None => profile.actions_allowed,
        };
        User {
            id: profile.id,
            discord_id: profile.discord_id,
            about: self.about,
            pronouns: self.pronouns,
            actions_allowed: allowed,
        }
    }
}

/// A request to change the own profile: the changes, or, where nothing at
/// all was given, the reply that asks for something.
pub fn edit(about: Option<String>, pronouns: Option<String>, actions_allowed: Option<bool>) -> (res:
    Result<Changes, Reply>)
    ensures
        match res {
            Ok(changes) => changes@ == (ChangesView {
                about: text_view(about),
                pronouns: text_view(pronouns),
                actions_allowed,
            }),
            Err(reply) => reply@ == whispered("Please provide at least one option to edit"@),
        },
        res is Err <==> about is None && pronouns is None && actions_allowed is None,
{
    if about.is_none() && pronouns.is_none() && actions_allowed.is_none() {
        Err(Reply::whisper("Please provide at least one option to edit"))
    } else {
        Ok(Changes { about, pronouns, actions_allowed })
    }
}

/// What an edit asks of the store once the member's profile was looked up:
/// a fresh profile exactly where none was found, and nothing where one was,
/// which is then the one to change.
pub fn edit_profile_ask(found: Option<&User>, discord_id: u64) -> (ask: Option<ProfileAsk>)
    ensures
        ask == match found {
            Some(_) => None::<ProfileAsk>,
            None => Some(ProfileAsk::Create { discord_id }),
        },
{
    match found {
        Some(_) => None,
        None => Some(ProfileAsk::Create { discord_id }),
    }
}

/// The profile that an edit changes: the one that was found, or, where none
/// was found, the fresh one that was stored under the row number `created`.
/// With neither there is none.
pub fn edit_profile(found: Option<User>, created: Option<u64>, discord_id: u64) -> (profile:
    Option<User>)
    ensures
        match profile {
            Some(chosen) => Some(chosen@),
            None => None,
        } == match found {
            Some(known) => Some(known@),
            None => match created {
                Some(id) => Some(
                    UserView {
                        id,
                        discord_id,
                        actions_allowed: true,
                        about: None,
                        pronouns: None,
                    },
                ),
                None => None,
            },
        },
{
    match found {
        Some(known) => Some(known),
        None => match created {
            Some(id) => Some(User::fresh(id, discord_id)),
            None => None,
        },
    }
}

/// The reply after the changed profile was stored.
pub fn edit_done() -> (reply: Reply)
    ensures
        reply@ == whispered(":white_check_mark: Profile updated successfully!"@),
{
    Reply::whisper(":white_check_mark: Profile updated successfully!")
}

} // verus!
