use crate::effects::{
    plain_message, Embed, EmbedView, Message, MessageView, Notify, NotifyView, Tint,
};
use crate::error::WorkflowError;
use crate::handlers::join::{JoinFlow, JoinFlowView};
use crate::settings::Config;
use crate::snowflake::{created_millis, user_mention_text, Snowflake};
use crate::text::{decimal, decimal_text};
use vstd::prelude::*;

verus! {

/// Something that the platform reports.
#[derive(Debug)]
pub enum Happening {
    /// The connection stands. `rustc` is the compiler's version line and
    /// `version` this program's version.
    Ready { rustc: String, version: String },
    /// `member` has joined the community `guild`.
    Joined { guild: u64, member: Snowflake },
    /// `user` has left.
    Left { user: Snowflake },
    /// Anything else.
    Other,
}

/// What a `Happening` stands for.
pub enum HappeningView {
    Ready { rustc: Seq<char>, version: Seq<char> },
    Joined { guild: u64, member: u64 },
    Left { user: u64 },
    Other,
}

impl View for Happening {
    type V = HappeningView;

    open spec fn view(&self) -> HappeningView {
        match *self {
            Happening::Ready { rustc, version } => HappeningView::Ready {
                rustc: rustc@,
                version: version@,
            },
            Happening::Joined { guild, member } => HappeningView::Joined { guild, member: member@ },
            Happening::Left { user } => HappeningView::Left { user: user@ },
            Happening::Other => HappeningView::Other,
        }
    }
}

/// What is done about something that the platform reported.
#[derive(Debug)]
pub enum Reaction {
    /// Show the bot as watching `watching`, then post `message` in
    /// `channel`.
    Announce { watching: String, channel: Snowflake, message: Message },
    /// Post `message` in `channel`, then run the welcome `welcome`.
    Greet { channel: Snowflake, message: Message, welcome: JoinFlow },
    /// Delete the stored profile of `user`, then post `message` in
    /// `channel`.
    Farewell { user: Snowflake, channel: Snowflake, message: Message },
    /// Nothing.
    Nothing,
}

/// What a `Reaction` stands for.
pub enum ReactionView {
    Announce { watching: Seq<char>, channel: u64, message: MessageView },
    Greet { channel: u64, message: MessageView, welcome: JoinFlowView },
    Farewell { user: u64, channel: u64, message: MessageView },
    Nothing,
}

impl View for Reaction {
    type V = ReactionView;

    open spec fn view(&self) -> ReactionView {
        match *self {
            Reaction::Announce { watching, channel, message } => ReactionView::Announce {
                watching: watching@,
                channel: channel@,
                message: message@,
            },
            Reaction::Greet { channel, message, welcome } => ReactionView::Greet {
                channel: channel@,
                message: message@,
                welcome: welcome@,
            },
            Reaction::Farewell { user, channel, message } => ReactionView::Farewell {
                user: user@,
                channel: channel@,
                message: message@,
            },
            Reaction::Nothing => ReactionView::Nothing,
        }
    }
}

/// What is posted when the connection stands.
pub open spec fn ready_message(rustc: Seq<char>, version: Seq<char>) -> MessageView {
    MessageView {
        content: Seq::empty(),
        embed: Some(
            EmbedView {
                title: "Bot Ready!"@,
                description: "Bot is ready! Running on rust version "@ + rustc
                    + ", sillycord-bot version "@ + version,
                footer: "Bot created for sillycord. Made with ❤️ by sticks and others"@,
                tint: Tint::DarkGreen,
            },
        ),
        notify: NotifyView::AsWritten,
    }
}

/// What the moderators read when `member` has joined: who, and since when
/// the account exists.
pub open spec fn joined_notice(member: u64) -> Seq<char> {
    "<:join:1310407968503894158> New user joined "@ + user_mention_text(member)
        + " - created at: <t:"@ + decimal((created_millis(member) / 1000) as nat) + ":f>"@
}

/// What the moderators read when `user` has left.
pub open spec fn left_notice(user: u64) -> Seq<char> {
    "<:leave:1310407968503894158> User left "@ + user_mention_text(user)
}

/// What is done about `happening`: the connection is announced in the
/// public log; a member who joined the main community is reported to the
/// moderators and welcomed, one who joined elsewhere is passed over; a
/// member who left loses the stored profile and is reported to the
/// moderators.
pub open spec fn reaction_model(config: Config, happening: HappeningView) -> ReactionView {
    match happening {
        HappeningView::Ready { rustc, version } => ReactionView::Announce {
            watching: "sillycord"@,
            channel: config.channels.logs_public@,
            message: ready_message(rustc, version),
        },
        HappeningView::Joined { guild, member } => if guild != config.main_guild_id@ {
            ReactionView::Nothing
        } else {
            ReactionView::Greet {
                channel: config.channels.logs_mod@,
                message: plain_message(joined_notice(member)),
                welcome: JoinFlowView::Arrived { member },
            }
        },
        HappeningView::Left { user } => ReactionView::Farewell {
            user,
            channel: config.channels.logs_mod@,
            message: plain_message(left_notice(user)),
        },
        HappeningView::Other => ReactionView::Nothing,
    }
}

/// What is done about `happening`.
pub fn event_handler(config: &Config, happening: Happening) -> (reaction: Reaction)
    ensures
        reaction@ == reaction_model(*config, happening@),
{
    match happening {
        Happening::Ready { rustc, version } => {
            let mut description = String::from_str("Bot is ready! Running on rust version ");
            description.append(rustc.as_str());
            description.append(", sillycord-bot version ");
            description.append(version.as_str());
            Reaction::Announce {
                watching: String::from_str("sillycord"),
                channel: config.channels.logs_public,
                message: Message {
                    content: String::new(),
                    embed: Some(
                        Embed {
                            title: String::from_str("Bot Ready!"),
                            description,
                            footer: String::from_str(
                                "Bot created for sillycord. Made with ❤️ by sticks and others",
                            ),
                            tint: Tint::DarkGreen,
                        },
                    ),
                    notify: Notify::AsWritten,
                },
            }
        },
        Happening::Joined { guild, member } => {
            if guild != config.main_guild_id.get() {
                Reaction::Nothing
            } else {
                let mut text = String::from_str("<:join:1310407968503894158> New user joined ");
                text.append(member.mention_user().as_str());
                text.append(" - created at: <t:");
                text.append(decimal_text(member.created_seconds()).as_str());
                text.append(":f>");
                Reaction::Greet {
                    channel: config.channels.logs_mod,
                    message: Message::plain(text),
                    welcome: JoinFlow::Arrived { member },
                }
            }
        },
        Happening::Left { user } => {
            let mut text = String::from_str("<:leave:1310407968503894158> User left ");
            text.append(user.mention_user().as_str());
            Reaction::Farewell {
                user,
                channel: config.channels.logs_mod,
                message: Message::plain(text),
            }
        },
        Happening::Other => Reaction::Nothing,
    }
}

/// Which of the reactions a reaction is.
#[derive(Clone, Copy, Debug, PartialEq, Eq, Structural)]
pub enum ReactionKind {
    Announce,
    Greet,
    Farewell,
    Nothing,
}

/// Which of the reactions `reaction` is.
pub open spec fn kind_of(reaction: ReactionView) -> ReactionKind {
    match reaction {
        ReactionView::Announce { .. } => ReactionKind::Announce,
        ReactionView::Greet { .. } => ReactionKind::Greet,
        ReactionView::Farewell { .. } => ReactionKind::Farewell,
        ReactionView::Nothing => ReactionKind::Nothing,
    }
}

impl Reaction {
    /// Which of the reactions this one is.
    pub fn kind(&self) -> (kind: ReactionKind)
        ensures
            kind == kind_of(self@),
    {
        match self {
            Reaction::Announce { .. } => ReactionKind::Announce,
            Reaction::Greet { .. } => ReactionKind::Greet,
            Reaction::Farewell { .. } => ReactionKind::Farewell,
            Reaction::Nothing => ReactionKind::Nothing,
        }
    }
}

/// One of the things that a reaction has done.
#[derive(Clone, Copy, Debug, PartialEq, Eq, Structural)]
pub enum Duty {
    /// Show what the bot is watching.
    Watch,
    /// Post the reaction's message in its channel.
    Post,
    /// Run the welcome of the newcomer.
    Welcome,
    /// Delete the stored profile of the member who left.
    DropProfile,
}

/// What a reaction has done, in the order in which it is done.
pub open spec fn duties(kind: ReactionKind) -> Seq<Duty> {
    match kind {
        ReactionKind::Announce => seq![Duty::Watch, Duty::Post],
        ReactionKind::Greet => seq![Duty::Post, Duty::Welcome],
        ReactionKind::Farewell => seq![Duty::DropProfile, Duty::Post],
        ReactionKind::Nothing => Seq::empty(),
    }
}

/// The error that ends a reaction when `duty` has failed, if its failure
/// ends the reaction at all: a post or a deletion that failed does, a
/// welcome that failed is only noted, and showing what is watched cannot
/// fail.
pub open spec fn ends_with(duty: Duty) -> Option<WorkflowError> {
    match duty {
        Duty::Watch => None,
        Duty::Post => Some(WorkflowError::NotificationFailure),
        Duty::Welcome => None,
        Duty::DropProfile => Some(WorkflowError::ExternalServiceFailure),
    }
}

/// How a reaction goes on.
#[derive(Clone, Copy, Debug, PartialEq, Eq)]
pub enum Course {
    /// This is to be done next.
    Go(Duty),
    /// The reaction is over, and the event has this result.
    End(Result<(), WorkflowError>),
}

/// How a reaction of the kind `kind` goes on when `done` of its duties were
/// attempted and the last of them has failed or not: a failure that ends
/// the reaction gives the event its error at once, before anything else is
/// done; otherwise the next duty follows, and after the last one the event
/// has ended well.
pub open spec fn course_model(kind: ReactionKind, done: nat, failed: bool) -> Course {
    let all = duties(kind);
    if 0 < done <= all.len() && failed && ends_with(all[done - 1]) is Some {
        Course::End(Err(ends_with(all[done - 1])->0))
    } else if done < all.len() {
        Course::Go(all[done as int])
    } else {
        Course::End(Ok(()))
    }
}

fn duty_at(kind: ReactionKind, at: usize) -> (duty: Option<Duty>)
    ensures
        duty == if at < duties(kind).len() {
            Some(duties(kind)[at as int])
        } else {
            None
        },
{
    match kind {
        ReactionKind::Announce => if at == 0 {
            Some(Duty::Watch)
        } else if at == 1 {
            Some(Duty::Post)
        } else {
            None
        },
        ReactionKind::Greet => if at == 0 {
            Some(Duty::Post)
        } else if at == 1 {
            Some(Duty::Welcome)
        } else {
            None
        },
        ReactionKind::Farewell => if at == 0 {
            Some(Duty::DropProfile)
        } else if at == 1 {
            Some(Duty::Post)
        } else {
            None
        },
        ReactionKind::Nothing => None,
    }
}

fn ending(duty: Duty) -> (error: Option<WorkflowError>)
    ensures
        error == ends_with(duty),
{
    match duty {
        Duty::Watch => None,
        Duty::Post => Some(WorkflowError::NotificationFailure),
        Duty::Welcome => None,
        Duty::DropProfile => Some(WorkflowError::ExternalServiceFailure),
    }
}

/// How a reaction of the kind `kind` goes on when `done` of its duties were
/// attempted and the last of them has failed or not.
pub fn reaction_course(kind: ReactionKind, done: usize, failed: bool) -> (course: Course)
    ensures
        course == course_model(kind, done as nat, failed),
{
    if done > 0 && failed {
        if let Some(last) = duty_at(kind, done - 1) {
            if let Some(error) = ending(last) {
                return Course::End(Err(error));
            }
        }
    }
    match duty_at(kind, done) {
        Some(next) => Course::Go(next),
        None => Course::End(Ok(())),
    }
}

} // verus!
