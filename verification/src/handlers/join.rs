use crate::effects::{
    Action, ActionView, Embed, EmbedView, Event, EventView, Message, MessageView, Notify,
    NotifyView, Outcome, OutcomeView, Progress, ProgressView, Tint,
};
use crate::error::WorkflowError;
use crate::settings::Config;
use crate::snowflake::{user_mention_text, Snowflake};
use vstd::prelude::*;

verus! {

/// How a notice reached the one it was meant for, if it did.
#[derive(Clone, Copy, Debug, PartialEq, Eq, Structural)]
pub enum DeliveryOutcome {
    /// In private.
    Private,
    /// In the fallback channel, after the private attempt failed.
    Fallback,
    /// Not at all: both attempts failed.
    Failed,
}

impl View for DeliveryOutcome {
    type V = DeliveryOutcome;

    open spec fn view(&self) -> DeliveryOutcome {
        *self
    }
}

/// How far a delivery has come.
#[derive(Clone, Copy, Debug, PartialEq, Eq, Structural)]
pub enum DeliverStage {
    /// Nothing was tried yet.
    Start,
    /// The private attempt is under way.
    Private,
    /// The post in the fallback channel is under way.
    Fallback,
}

/// A delivery under way: `notice` is to reach `subject`.
#[derive(Debug)]
pub struct DeliverFlow {
    pub stage: DeliverStage,
    pub subject: Snowflake,
    pub notice: Embed,
    pub fallback_channel: Snowflake,
}

/// What a `DeliverFlow` stands for.
pub struct DeliverFlowView {
    pub stage: DeliverStage,
    pub subject: u64,
    pub notice: EmbedView,
    pub fallback_channel: u64,
}

impl View for DeliverFlow {
    type V = DeliverFlowView;

    open spec fn view(&self) -> DeliverFlowView {
        DeliverFlowView {
            stage: self.stage,
            subject: self.subject@,
            notice: self.notice@,
            fallback_channel: self.fallback_channel@,
        }
    }
}

impl DeliverFlow {
    /// A delivery that has not begun.
    pub fn new(subject: Snowflake, notice: Embed, fallback_channel: Snowflake) -> (flow:
        DeliverFlow)
        ensures
            flow.stage == DeliverStage::Start,
            flow.subject == subject,
            flow.notice == notice,
            flow.fallback_channel == fallback_channel,
    {
        DeliverFlow { stage: DeliverStage::Start, subject, notice, fallback_channel }
    }
}

/// The notice as it is sent in private: the embed alone.
pub open spec fn private_notice(notice: EmbedView) -> MessageView {
    MessageView { content: Seq::empty(), embed: Some(notice), notify: NotifyView::AsWritten }
}

/// The notice as it is posted in public: it names the subject, notifies
/// nobody else, and says in its footer that the private attempt failed.
pub open spec fn fallback_notice(subject: u64, notice: EmbedView) -> MessageView {
    MessageView {
        content: user_mention_text(subject)
            + " Please make sure to read the welcome message below!"@,
        embed: Some(
            EmbedView {
                footer: "We were unable to send you a direct message. We've posted the welcome message here instead - please make sure to read it!"@,
                ..notice
            },
        ),
        notify: NotifyView::Users(seq![subject]),
    }
}

/// One step of a delivery: the private attempt comes first; only when it
/// failed, the notice is posted once in the fallback channel; when that
/// failed too, the delivery has failed.
pub open spec fn deliver_model(flow: DeliverFlowView, event: EventView) -> ProgressView<
    DeliverFlowView,
    DeliveryOutcome,
> {
    match flow.stage {
        DeliverStage::Start => ProgressView::Next {
            flow: DeliverFlowView { stage: DeliverStage::Private, ..flow },
            action: ActionView::Direct { user: flow.subject, message: private_notice(flow.notice) },
        },
        DeliverStage::Private => if event is Done {
            ProgressView::Finished(DeliveryOutcome::Private)
        } else {
            ProgressView::Next {
                flow: DeliverFlowView { stage: DeliverStage::Fallback, ..flow },
                action: ActionView::Post {
                    channel: flow.fallback_channel,
                    message: fallback_notice(flow.subject, flow.notice),
                },
            }
        },
        DeliverStage::Fallback => if event is Done {
            ProgressView::Finished(DeliveryOutcome::Fallback)
        } else {
            ProgressView::Finished(DeliveryOutcome::Failed)
        },
    }
}

fn is_done(event: &Event) -> (yes: bool)
    ensures
        yes == (event@ is Done),
{
    match event {
        Event::Done => true,
        _ => false,
    }
}

/// One step of a delivery.
pub fn deliver(flow: DeliverFlow, event: Event) -> (next: Progress<DeliverFlow, DeliveryOutcome>)
    ensures
        next@ == deliver_model(flow@, event@),
{
    let DeliverFlow { stage, subject, notice, fallback_channel } = flow;
    match stage {
        DeliverStage::Start => {
            let message = Message {
                content: String::new(),
                embed: Some(notice.clone()),
                notify: Notify::AsWritten,
            };
            Progress::Next {
                flow: DeliverFlow { stage: DeliverStage::Private, subject, notice, fallback_channel },
                action: Action::Direct { user: subject, message },
            }
        },
        DeliverStage::Private => {
            if is_done(&event) {
                Progress::Finished(DeliveryOutcome::Private)
            } else {
                let mut content = subject.mention_user();
                content.append(" Please make sure to read the welcome message below!");
                let posted = Embed {
                    title: notice.title.clone(),
                    description: notice.description.clone(),
                    footer: String::from_str(
                        "We were unable to send you a direct message. We've posted the welcome message here instead - please make sure to read it!",
                    ),
                    tint: notice.tint,
                };
                let message = Message {
                    content,
                    embed: Some(posted),
                    notify: Notify::only(subject),
                };
                Progress::Next {
                    flow: DeliverFlow {
                        stage: DeliverStage::Fallback,
                        subject,
                        notice,
                        fallback_channel,
                    },
                    action: Action::Post { channel: fallback_channel, message },
                }
            }
        },
        DeliverStage::Fallback => {
            if is_done(&event) {
                Progress::Finished(DeliveryOutcome::Fallback)
            } else {
                Progress::Finished(DeliveryOutcome::Failed)
            }
        },
    }
}

/// What a newcomer is told on arrival.
pub open spec fn welcome_notice() -> EmbedView {
    EmbedView {
        title: "Welcome to sillycord!"@,
        description: "Welcome! To keep sillycord a safe and fun place, we require all newly invited members to be vouched by a current member. Please wait for a member of the community to vouch for you. If you do not receive a vouch within 24 hours, you will be removed from the server. If you have any questions, feel free to ask a moderator or admin."@,
        footer: "I am a bot, and this action was performed automatically. If you have any questions or concerns, please contact a moderator or admin."@,
        tint: Tint::Purple,
    }
}

/// What a newcomer is told on arrival.
pub fn welcome_embed() -> (notice: Embed)
    ensures
        notice@ == welcome_notice(),
{
    Embed {
        title: String::from_str("Welcome to sillycord!"),
        description: String::from_str(
            "Welcome! To keep sillycord a safe and fun place, we require all newly invited members to be vouched by a current member. Please wait for a member of the community to vouch for you. If you do not receive a vouch within 24 hours, you will be removed from the server. If you have any questions, feel free to ask a moderator or admin.",
        ),
        footer: String::from_str(
            "I am a bot, and this action was performed automatically. If you have any questions or concerns, please contact a moderator or admin.",
        ),
        tint: Tint::Purple,
    }
}

/// The welcome of a newcomer under way.
#[derive(Debug)]
pub enum JoinFlow {
    /// The member has arrived and nothing was sent yet.
    Arrived { member: Snowflake },
    /// The welcome is being delivered.
    Delivering { delivery: DeliverFlow },
}

/// What a `JoinFlow` stands for.
pub enum JoinFlowView {
    Arrived { member: u64 },
    Delivering { delivery: DeliverFlowView },
}

impl View for JoinFlow {
    type V = JoinFlowView;

    open spec fn view(&self) -> JoinFlowView {
        match *self {
            JoinFlow::Arrived { member } => JoinFlowView::Arrived { member: member@ },
            JoinFlow::Delivering { delivery } => JoinFlowView::Delivering { delivery: delivery@ },
        }
    }
}

/// The delivery that welcomes `member`, before anything was tried.
pub open spec fn welcome_delivery(config: Config, member: u64) -> DeliverFlowView {
    DeliverFlowView {
        stage: DeliverStage::Start,
        subject: member,
        notice: welcome_notice(),
        fallback_channel: config.channels.welcome@,
    }
}

/// How the welcome ends for a given end of its delivery: a newcomer must be
/// told, so a delivery that failed is an error.
pub open spec fn welcome_end(delivered: DeliveryOutcome) -> OutcomeView {
    OutcomeView {
        result: if delivered == DeliveryOutcome::Failed {
            Err(WorkflowError::NotificationFailure)
        } else {
            Ok(())
        },
        reply: None,
    }
}

/// The welcome's next step, for the next step of its delivery.
pub open spec fn welcome_progress(
    step: ProgressView<DeliverFlowView, DeliveryOutcome>,
) -> ProgressView<JoinFlowView, OutcomeView> {
    match step {
        ProgressView::Next { flow, action } => ProgressView::Next {
            flow: JoinFlowView::Delivering { delivery: flow },
            action,
        },
        ProgressView::Finished(delivered) => ProgressView::Finished(welcome_end(delivered)),
    }
}

/// One step of the welcome of a newcomer: the delivery of the welcome
/// notice, with the community's welcome channel to fall back on.
pub open spec fn join_model(config: Config, flow: JoinFlowView, event: EventView) -> ProgressView<
    JoinFlowView,
    OutcomeView,
> {
    match flow {
        JoinFlowView::Arrived { member } => welcome_progress(
            deliver_model(welcome_delivery(config, member), event),
        ),
        JoinFlowView::Delivering { delivery } => welcome_progress(deliver_model(delivery, event)),
    }
}

/// One step of the welcome of a newcomer.
pub fn join_handler(config: &Config, flow: JoinFlow, event: Event) -> (next: Progress<
    JoinFlow,
    Outcome,
>)
    ensures
        next@ == join_model(*config, flow@, event@),
{
    let delivery = match flow {
        JoinFlow::Arrived { member } => DeliverFlow::new(
            member,
            welcome_embed(),
            config.channels.welcome,
        ),
        JoinFlow::Delivering { delivery } => delivery,
    };
    match deliver(delivery, event) {
        Progress::Next { flow, action } => Progress::Next {
            flow: JoinFlow::Delivering { delivery: flow },
            action,
        },
        Progress::Finished(delivered) => {
            let result = match delivered {
                DeliveryOutcome::Failed => Err(WorkflowError::NotificationFailure),
                _ => Ok(()),
            };
            Progress::Finished(Outcome { result, reply: None })
        },
    }
}

} // verus!
