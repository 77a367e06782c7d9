use crate::effects::{
    whispered, Message, MessageView, Notify, NotifyView, Reply, ReplyView,
};
use crate::commands::profile::{ProfileAnswer, ProfileAsk};
use crate::error::WorkflowError;
use crate::snowflake::{user_mention_text, Snowflake};
use vstd::prelude::*;

verus! {

/// How far the check of a member's permission has come.
#[derive(Clone, Copy, Debug, PartialEq, Eq, Structural)]
pub enum CheckStage {
    /// Nothing was asked yet.
    Start,
    /// The profile is being looked up.
    Looking,
    /// A fresh profile is being stored.
    Creating,
    /// The profile is being read for its permission.
    Reading,
}

/// The check of a member's permission after one step.
#[derive(Clone, Copy, Debug, PartialEq, Eq)]
pub enum CheckStep {
    /// It goes on: `ask` is to be asked of the store.
    Ask { stage: CheckStage, ask: ProfileAsk },
    /// It has ended: whether actions may be aimed at the member, or that
    /// the store failed.
    Done(Result<bool, WorkflowError>),
}

/// One step of the check whether actions may be aimed at the member
/// `discord_id`: a member without a profile gets a fresh one, and then the
/// stored profile is read for what it says. A store that has no profile to
/// read at that point has failed.
pub open spec fn check_model(stage: CheckStage, discord_id: u64, answer: ProfileAnswer) -> CheckStep {
    let failed = CheckStep::Done(Err(WorkflowError::ExternalServiceFailure));
    match stage {
        CheckStage::Start => CheckStep::Ask {
            stage: CheckStage::Looking,
            ask: ProfileAsk::LookUp { discord_id },
        },
        CheckStage::Looking => match answer {
            ProfileAnswer::Found(Some(_)) => CheckStep::Ask {
                stage: CheckStage::Reading,
                ask: ProfileAsk::LookUp { discord_id },
            },
            ProfileAnswer::Found(None) => CheckStep::Ask {
                stage: CheckStage::Creating,
                ask: ProfileAsk::Create { discord_id },
            },
            _ => failed,
        },
        CheckStage::Creating => match answer {
            ProfileAnswer::Created => CheckStep::Ask {
                stage: CheckStage::Reading,
                ask: ProfileAsk::LookUp { discord_id },
            },
            _ => failed,
        },
        CheckStage::Reading => match answer {
            ProfileAnswer::Found(Some(profile)) => CheckStep::Done(Ok(profile.actions_allowed)),
            _ => failed,
        },
    }
}

/// One step of the check whether actions may be aimed at the member
/// `discord_id`.
pub fn check_if_allowed(stage: CheckStage, discord_id: u64, answer: ProfileAnswer) -> (step:
    CheckStep)
    ensures
        step == check_model(stage, discord_id, answer),
{
    match stage {
        CheckStage::Start => CheckStep::Ask {
            stage: CheckStage::Looking,
            ask: ProfileAsk::LookUp { discord_id },
        },
        CheckStage::Looking => match answer {
            ProfileAnswer::Found(Some(_)) => CheckStep::Ask {
                stage: CheckStage::Reading,
                ask: ProfileAsk::LookUp { discord_id },
            },
            ProfileAnswer::Found(None) => CheckStep::Ask {
                stage: CheckStage::Creating,
                ask: ProfileAsk::Create { discord_id },
            },
            _ => CheckStep::Done(Err(WorkflowError::ExternalServiceFailure)),
        },
        CheckStage::Creating => match answer {
            ProfileAnswer::Created => CheckStep::Ask {
                stage: CheckStage::Reading,
                ask: ProfileAsk::LookUp { discord_id },
            },
            _ => CheckStep::Done(Err(WorkflowError::ExternalServiceFailure)),
        },
        CheckStage::Reading => match answer {
            ProfileAnswer::Found(Some(profile)) => CheckStep::Done(Ok(profile.actions_allowed)),
            _ => CheckStep::Done(Err(WorkflowError::ExternalServiceFailure)),
        },
    }
}

/// The reply to an action aimed at a member who does not allow them.
pub fn action_refused() -> (reply: Reply)
    ensures
        reply@ == whispered(
            ":x: Sorry, either that user has disabled actions or has no profile to check against"@,
        ),
{
    Reply::whisper(
        ":x: Sorry, either that user has disabled actions or has no profile to check against",
    )
}

/// What one member does to another.
#[derive(Clone, Copy, Debug, PartialEq, Eq, Structural)]
pub enum Gesture {
    Hug,
    Kiss,
    Pat,
}

/// The name under which a picture of the gesture is asked for.
pub open spec fn gesture_name(gesture: Gesture) -> Seq<char> {
    match gesture {
        Gesture::Hug => "hug"@,
        Gesture::Kiss => "kiss"@,
        Gesture::Pat => "pat"@,
    }
}

/// The gesture as it is told, between the two members.
pub open spec fn gesture_told(gesture: Gesture) -> Seq<char> {
    match gesture {
        Gesture::Hug => " hugs "@,
        Gesture::Kiss => " kisses "@,
        Gesture::Pat => " pats "@,
    }
}

impl Gesture {
    /// The name under which a picture of the gesture is asked for.
    pub fn name(&self) -> (name: &'static str)
        ensures
            name@ == gesture_name(*self),
    {
        match self {
            Gesture::Hug => "hug",
            Gesture::Kiss => "kiss",
            Gesture::Pat => "pat",
        }
    }

    fn told(&self) -> (told: &'static str)
        ensures
            told@ == gesture_told(*self),
    {
        match self {
            Gesture::Hug => " hugs ",
            Gesture::Kiss => " kisses ",
            Gesture::Pat => " pats ",
        }
    }
}

/// The reply that tells what `user` did to `target`, with the picture at
/// `image` attached; it notifies the two of them and nobody else. Without a
/// picture the invoker alone is told that something went wrong.
pub open spec fn gesture_reply(
    gesture: Gesture,
    user: u64,
    target: u64,
    image: Option<Seq<char>>,
) -> ReplyView {
    match image {
        Some(address) => ReplyView {
            message: MessageView {
                content: user_mention_text(user) + gesture_told(gesture) + user_mention_text(
                    target,
                ),
                embed: None,
                notify: NotifyView::Users(seq![user, target]),
            },
            attachment: Some(address),
            ephemeral: false,
        },
        None => whispered(":x: Something went wrong while fetching the action image"@),
    }
}

/// What an optional address stands for.
pub open spec fn address_view(image: Option<String>) -> Option<Seq<char>> {
    match image {
        Some(address) => Some(address@),
        None => None,
    }
}

/// The reply to a gesture of `user` towards `target`, for which the
/// picture at `image` was found, if any was.
pub fn use_action(gesture: Gesture, user: Snowflake, target: Snowflake, image: Option<String>) -> (reply:
    Reply)
    ensures
        reply@ == gesture_reply(gesture, user@, target@, address_view(image)),
{
    match image {
        Some(address) => {
            let mut content = user.mention_user();
            content.append(gesture.told());
            content.append(target.mention_user().as_str());
            Reply {
                message: Message { content, embed: None, notify: Notify::both(user, target) },
                attachment: Some(address),
                ephemeral: false,
            }
        },
        None => Reply::whisper(":x: Something went wrong while fetching the action image"),
    }
}

/// The reply to a hug.
pub fn use_action_hug(user: Snowflake, target: Snowflake, image: Option<String>) -> (reply: Reply)
    ensures
        reply@ == gesture_reply(Gesture::Hug, user@, target@, address_view(image)),
{
    use_action(Gesture::Hug, user, target, image)
}

/// The reply to a kiss.
pub fn use_action_kiss(user: Snowflake, target: Snowflake, image: Option<String>) -> (reply:
    Reply)
    ensures
        reply@ == gesture_reply(Gesture::Kiss, user@, target@, address_view(image)),
{
    use_action(Gesture::Kiss, user, target, image)
}

/// The reply to a pat.
pub fn use_action_pat(user: Snowflake, target: Snowflake, image: Option<String>) -> (reply: Reply)
    ensures
        reply@ == gesture_reply(Gesture::Pat, user@, target@, address_view(image)),
{
    use_action(Gesture::Pat, user, target, image)
}

} // verus!
