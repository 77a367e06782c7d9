use crate::clock::{central_time_text, Timestamp, MAX_UNIX_SECONDS};
use crate::effects::{
    Action, ActionView, Embed, EmbedView, Event, EventView, Message, MessageView, Notify,
    NotifyView, Outcome, OutcomeView, Progress, ProgressView, Tint, plain_message,
};
use crate::error::WorkflowError;
use crate::registry::{after_take, is_pending, pending_record, views, Registry};
use crate::settings::{holds_role, Config};
use crate::snowflake::{role_mention_text, user_mention_text};
use crate::structs::account::{Account, AccountView};
use crate::structs::vouch::{Vouch, VouchView};
use vstd::prelude::*;

verus! {

/// An ending that tells the one who asked why nothing was done, or that all
/// was done.
pub open spec fn settled(result: Result<(), WorkflowError>, reply: Seq<char>) -> OutcomeView {
    OutcomeView { result, reply: Some(reply) }
}

/// The ending after a call to the platform failed: nothing is said.
pub open spec fn broken() -> OutcomeView {
    OutcomeView { result: Err(WorkflowError::ExternalServiceFailure), reply: None }
}

fn settle(result: Result<(), WorkflowError>, reply: &str) -> (end: Outcome)
    ensures
        end@ == settled(result, reply@),
{
    Outcome { result, reply: Some(String::from_str(reply)) }
}

fn give_up() -> (end: Outcome)
    ensures
        end@ == broken(),
{
    Outcome { result: Err(WorkflowError::ExternalServiceFailure), reply: None }
}

/// Whether the answer to a question about roles says that `role` is held.
pub open spec fn grants(event: EventView, role: u64) -> bool {
    event matches EventView::Roles(held) && held.contains(role)
}

/// What the moderators read when a vouch was submitted.
pub open spec fn submission_notice(admin_role: u64, subject: u64, sponsor: u64) -> Seq<char> {
    role_mention_text(admin_role) + "\n:notepad_spiral: A new vouch has been submitted for "@
        + user_mention_text(subject) + " by "@ + user_mention_text(sponsor)
        + ", please either approve or deny this vouch."@
}

/// The message that tells the moderators of a new vouch; it notifies the
/// admins and nobody else.
pub open spec fn submission_message(config: Config, subject: u64, sponsor: u64) -> MessageView {
    MessageView {
        content: submission_notice(config.roles.admin@, subject, sponsor),
        embed: None,
        notify: NotifyView::Role(config.roles.admin@),
    }
}

/// How far a submission has come.
#[derive(Clone, Copy, Debug, PartialEq, Eq, Structural)]
pub enum SubmitStage {
    /// Nothing was asked yet.
    Start,
    /// The subject's roles were asked for.
    Standing,
    /// The vouch is pending and the moderators are being told.
    Audit,
}

/// A submission under way: `sponsor` vouches for `subject`.
#[derive(Debug)]
pub struct SubmitFlow {
    pub stage: SubmitStage,
    pub subject: Account,
    pub sponsor: Account,
}

/// What a `SubmitFlow` stands for.
pub struct SubmitFlowView {
    pub stage: SubmitStage,
    pub subject: AccountView,
    pub sponsor: AccountView,
}

impl View for SubmitFlow {
    type V = SubmitFlowView;

    open spec fn view(&self) -> SubmitFlowView {
        SubmitFlowView { stage: self.stage, subject: self.subject@, sponsor: self.sponsor@ }
    }
}

impl SubmitFlow {
    /// A submission that has not begun.
    pub fn new(subject: Account, sponsor: Account) -> (flow: SubmitFlow)
        ensures
            flow.stage == SubmitStage::Start,
            flow.subject == subject,
            flow.sponsor == sponsor,
    {
        SubmitFlow { stage: SubmitStage::Start, subject, sponsor }
    }
}

/// One step of a submission, on the pending vouches `pending`, with `now`
/// the time on the clock: the pending vouches afterwards, and how the
/// submission goes on.
///
/// The subject's roles are asked for first. A subject who already holds the
/// member role is turned away with `AlreadyVerified`, whether or not a vouch
/// is pending. Only then is the vouch added, and a subject with a pending
/// vouch is turned away with `DuplicateRequest` at that moment. When the
/// vouch has been added, the moderators are told; the submission then
/// succeeds whether or not that message got through.
pub open spec fn submit_model(
    pending: Seq<VouchView>,
    config: Config,
    flow: SubmitFlowView,
    event: EventView,
    now: i64,
) -> (Seq<VouchView>, ProgressView<SubmitFlowView, OutcomeView>) {
    let duplicate = ProgressView::Finished(
        settled(
            Err(WorkflowError::DuplicateRequest),
            ":x: This user already has a vouch pending!"@,
        ),
    );
    match flow.stage {
        SubmitStage::Start => (
            pending,
            ProgressView::Next {
                flow: SubmitFlowView { stage: SubmitStage::Standing, ..flow },
                action: ActionView::FetchRoles { user: flow.subject.id },
            },
        ),
        SubmitStage::Standing => match event {
            EventView::Roles(held) => if held.contains(config.roles.silly_role@) {
                (
                    pending,
                    ProgressView::Finished(
                        settled(
                            Err(WorkflowError::AlreadyVerified),
                            ":x: This user already is a vouched member!"@,
                        ),
                    ),
                )
            } else if is_pending(pending, flow.subject.id) {
                (pending, duplicate)
            } else {
                (
                    pending.push(
                        VouchView { user: flow.subject, vouched_by: flow.sponsor, vouch_time: now },
                    ),
                    ProgressView::Next {
                        flow: SubmitFlowView { stage: SubmitStage::Audit, ..flow },
                        action: ActionView::Post {
                            channel: config.channels.logs_mod@,
                            message: submission_message(config, flow.subject.id, flow.sponsor.id),
                        },
                    },
                )
            },
            _ => (pending, ProgressView::Finished(broken())),
        },
        SubmitStage::Audit => (
            pending,
            ProgressView::Finished(
                settled(
                    Ok(()),
                    ":white_check_mark: Vouch submitted! An admin will review the vouch when able."@,
                ),
            ),
        ),
    }
}

fn submission_text(config: &Config, subject: &Account, sponsor: &Account) -> (message: Message)
    ensures
        message@ == submission_message(*config, subject@.id, sponsor@.id),
{
    let mut text = config.roles.admin.mention_role();
    text.append("\n:notepad_spiral: A new vouch has been submitted for ");
    text.append(subject.mention().as_str());
    text.append(" by ");
    text.append(sponsor.mention().as_str());
    text.append(", please either approve or deny this vouch.");
    Message { content: text, embed: None, notify: Notify::Role(config.roles.admin) }
}

/// One step of a submission whose vouch, if it is added in this step, is
/// dated `now`.
pub fn submit_at(
    registry: &mut Registry,
    config: &Config,
    flow: SubmitFlow,
    event: Event,
    now: Timestamp,
) -> (next: Progress<SubmitFlow, Outcome>)
    ensures
        (final(registry)@, next@) == submit_model(old(registry)@, *config, flow@, event@, now@),
{
    let SubmitFlow { stage, subject, sponsor } = flow;
    match stage {
        SubmitStage::Start => {
            let user = subject.id;
            Progress::Next {
                flow: SubmitFlow { stage: SubmitStage::Standing, subject, sponsor },
                action: Action::FetchRoles { user },
            }
        },
        SubmitStage::Standing => match event {
            Event::Roles(held) => {
                if holds_role(&held, config.roles.silly_role) {
                    Progress::Finished(
                        settle(
                            Err(WorkflowError::AlreadyVerified),
                            ":x: This user already is a vouched member!",
                        ),
                    )
                } else {
                    let message = submission_text(config, &subject, &sponsor);
                    let record = Vouch::at(subject.clone(), sponsor.clone(), now);
                    match registry.insert(record) {
                        Err(_) => Progress::Finished(
                            settle(
                                Err(WorkflowError::DuplicateRequest),
                                ":x: This user already has a vouch pending!",
                            ),
                        ),
                        Ok(()) => Progress::Next {
                            flow: SubmitFlow { stage: SubmitStage::Audit, subject, sponsor },
                            action: Action::Post { channel: config.channels.logs_mod, message },
                        },
                    }
                }
            },
            _ => Progress::Finished(give_up()),
        },
        SubmitStage::Audit => Progress::Finished(
            settle(
                Ok(()),
                ":white_check_mark: Vouch submitted! An admin will review the vouch when able.",
            ),
        ),
    }
}

/// One step of a submission. A vouch that is added in this step is dated by
/// the clock.
pub fn submit(registry: &mut Registry, config: &Config, flow: SubmitFlow, event: Event) -> (next:
    Progress<SubmitFlow, Outcome>)
    ensures
        exists|now: i64|
            0 <= now <= MAX_UNIX_SECONDS && (final(registry)@, next@) == #[trigger] submit_model(
                old(registry)@,
                *config,
                flow@,
                event@,
                now,
            ),
{
    let now = Timestamp::now();
    submit_at(registry, config, flow, event, now)
}

/// Whether the platform reported that the last action was carried out.
pub open spec fn done(event: EventView) -> bool {
    event is Done
}

/// What the moderators read when a vouch was approved.
pub open spec fn approval_notice(subject: u64, actor: u64, since: i64, sponsor: u64) -> Seq<char> {
    ":white_check_mark: Vouch approved for "@ + user_mention_text(subject) + " by "@
        + user_mention_text(actor) + " at "@ + central_time_text(since) + " CDT, vouched by "@
        + user_mention_text(sponsor)
}

/// The public welcome for a member whose vouch was approved; it notifies the
/// new member and nobody else.
pub open spec fn welcome_message(
    subject: AccountView,
    sponsor: AccountView,
    actor: AccountView,
) -> MessageView {
    MessageView {
        content: subject.mention(),
        embed: Some(
            EmbedView {
                title: "Welcome to sillycord, "@ + subject.tag() + "!"@,
                description: "Enjoy your stay in our silly little community!"@,
                footer: "Vouched by "@ + sponsor.tag() + " - Approved by "@ + actor.tag(),
                tint: Tint::DarkPurple,
            },
        ),
        notify: NotifyView::Users(seq![subject.id]),
    }
}

/// How far an approval has come once the vouch is out of the registry.
#[derive(Clone, Copy, Debug, PartialEq, Eq, Structural)]
pub enum ApproveStage {
    /// The member role is being granted.
    Grant,
    /// The stored profile is being made sure of.
    Profile,
    /// The moderators are being told.
    Audit,
    /// The community is being told.
    Welcome,
}

/// An approval under way: `actor` approves the vouch for `subject`.
#[derive(Debug)]
pub enum ApproveFlow {
    /// The registry was not touched yet; `asked` says whether the actor's
    /// roles were asked for.
    Open { subject: Account, actor: Account, asked: bool },
    /// The vouch was taken out of the registry and is `record`.
    Committed { subject: Account, actor: Account, record: Vouch, stage: ApproveStage },
}

/// What an `ApproveFlow` stands for.
pub enum ApproveFlowView {
    Open { subject: AccountView, actor: AccountView, asked: bool },
    Committed { subject: AccountView, actor: AccountView, record: VouchView, stage: ApproveStage },
}

impl ApproveFlowView {
    /// Whose vouch the approval is about.
    pub open spec fn subject(self) -> AccountView {
        match self {
            ApproveFlowView::Open { subject, .. } => subject,
            ApproveFlowView::Committed { subject, .. } => subject,
        }
    }
}

impl View for ApproveFlow {
    type V = ApproveFlowView;

    open spec fn view(&self) -> ApproveFlowView {
        match *self {
            ApproveFlow::Open { subject, actor, asked } => ApproveFlowView::Open {
                subject: subject@,
                actor: actor@,
                asked,
            },
            ApproveFlow::Committed { subject, actor, record, stage } => ApproveFlowView::Committed {
                subject: subject@,
                actor: actor@,
                record: record@,
                stage,
            },
        }
    }
}

impl ApproveFlow {
    /// An approval that has not begun.
    pub fn new(subject: Account, actor: Account) -> (flow: ApproveFlow)
        ensures
            flow == (ApproveFlow::Open { subject, actor, asked: false }),
    {
        ApproveFlow::Open { subject, actor, asked: false }
    }
}

/// One step of an approval, on the pending vouches `pending`: the pending
/// vouches afterwards, and how the approval goes on.
///
/// Nothing is touched before the actor is known to hold the admin role. The
/// vouch then leaves the registry for good: the role is granted, the profile
/// made sure of, the moderators and the community told, in this order. A
/// failed grant or profile ends the approval with an error; a message that
/// did not get through does not.
pub open spec fn approve_model(
    pending: Seq<VouchView>,
    config: Config,
    flow: ApproveFlowView,
    event: EventView,
) -> (Seq<VouchView>, ProgressView<ApproveFlowView, OutcomeView>) {
    match flow {
        ApproveFlowView::Open { subject, actor, asked } => if !asked {
            (
                pending,
                ProgressView::Next {
                    flow: ApproveFlowView::Open { subject, actor, asked: true },
                    action: ActionView::FetchRoles { user: actor.id },
                },
            )
        } else if !grants(event, config.roles.admin@) {
            (
                pending,
                ProgressView::Finished(
                    settled(
                        Err(WorkflowError::NotAuthorized),
                        ":x: You must be an admin to approve vouches!"@,
                    ),
                ),
            )
        } else if !is_pending(pending, subject.id) {
            (
                pending,
                ProgressView::Finished(
                    settled(Err(WorkflowError::NotFound), ":x: No vouch found for this user!"@),
                ),
            )
        } else {
            (
                after_take(pending, subject.id),
                ProgressView::Next {
                    flow: ApproveFlowView::Committed {
                        subject,
                        actor,
                        record: pending_record(pending, subject.id),
                        stage: ApproveStage::Grant,
                    },
                    action: ActionView::GrantRole {
                        user: subject.id,
                        role: config.roles.silly_role@,
                    },
                },
            )
        },
        ApproveFlowView::Committed { subject, actor, record, stage } => match stage {
            ApproveStage::Grant => if done(event) {
                (
                    pending,
                    ProgressView::Next {
                        flow: ApproveFlowView::Committed {
                            subject,
                            actor,
                            record,
                            stage: ApproveStage::Profile,
                        },
                        action: ActionView::EnsureProfile { user: subject.id },
                    },
                )
            } else {
                (pending, ProgressView::Finished(broken()))
            },
            ApproveStage::Profile => if done(event) {
                (
                    pending,
                    ProgressView::Next {
                        flow: ApproveFlowView::Committed {
                            subject,
                            actor,
                            record,
                            stage: ApproveStage::Audit,
                        },
                        action: ActionView::Post {
                            channel: config.channels.logs_mod@,
                            message: plain_message(
                                approval_notice(
                                    subject.id,
                                    actor.id,
                                    record.vouch_time,
                                    record.vouched_by.id,
                                ),
                            ),
                        },
                    },
                )
            } else {
                (pending, ProgressView::Finished(broken()))
            },
            ApproveStage::Audit => (
                pending,
                ProgressView::Next {
                    flow: ApproveFlowView::Committed {
                        subject,
                        actor,
                        record,
                        stage: ApproveStage::Welcome,
                    },
                    action: ActionView::Post {
                        channel: config.channels.main@,
                        message: welcome_message(subject, record.vouched_by, actor),
                    },
                },
            ),
            ApproveStage::Welcome => (
                pending,
                ProgressView::Finished(settled(Ok(()), ":white_check_mark: Vouch approved!"@)),
            ),
        },
    }
}

fn is_done(event: &Event) -> (yes: bool)
    ensures
        yes == done(event@),
{
    match event {
        Event::Done => true,
        _ => false,
    }
}

fn is_admin(config: &Config, event: &Event) -> (yes: bool)
    ensures
        yes == grants(event@, config.roles.admin@),
{
    match event {
        Event::Roles(held) => holds_role(held, config.roles.admin),
        _ => false,
    }
}

fn approval_text(subject: &Account, actor: &Account, record: &Vouch) -> (message: Message)
    ensures
        message@ == plain_message(
            approval_notice(subject@.id, actor@.id, record@.vouch_time, record@.vouched_by.id),
        ),
{
    let mut text = String::from_str(":white_check_mark: Vouch approved for ");
    text.append(subject.mention().as_str());
    text.append(" by ");
    text.append(actor.mention().as_str());
    text.append(" at ");
    text.append(record.get_vouch_time().as_str());
    text.append(" CDT, vouched by ");
    text.append(record.vouched_by.mention().as_str());
    Message::plain(text)
}

fn welcome_text(subject: &Account, sponsor: &Account, actor: &Account) -> (message: Message)
    ensures
        message@ == welcome_message(subject@, sponsor@, actor@),
{
    let mut title = String::from_str("Welcome to sillycord, ");
    title.append(subject.tag().as_str());
    title.append("!");
    let mut footer = String::from_str("Vouched by ");
    footer.append(sponsor.tag().as_str());
    footer.append(" - Approved by ");
    footer.append(actor.tag().as_str());
    Message {
        content: subject.mention(),
        embed: Some(
            Embed {
                title,
                description: String::from_str("Enjoy your stay in our silly little community!"),
                footer,
                tint: Tint::DarkPurple,
            },
        ),
        notify: Notify::only(subject.id),
    }
}

/// One step of an approval.
pub fn approve(registry: &mut Registry, config: &Config, flow: ApproveFlow, event: Event) -> (next:
    Progress<ApproveFlow, Outcome>)
    ensures
        (final(registry)@, next@) == approve_model(old(registry)@, *config, flow@, event@),
{
    match flow {
        ApproveFlow::Open { subject, actor, asked } => {
            if !asked {
                let user = actor.id;
                Progress::Next {
                    flow: ApproveFlow::Open { subject, actor, asked: true },
                    action: Action::FetchRoles { user },
                }
            } else if !is_admin(config, &event) {
                Progress::Finished(
                    settle(
                        Err(WorkflowError::NotAuthorized),
                        ":x: You must be an admin to approve vouches!",
                    ),
                )
            } else {
                match registry.take(subject.id) {
                    None => Progress::Finished(
                        settle(Err(WorkflowError::NotFound), ":x: No vouch found for this user!"),
                    ),
                    Some(record) => {
                        let user = subject.id;
                        Progress::Next {
                            flow: ApproveFlow::Committed {
                                subject,
                                actor,
                                record,
                                stage: ApproveStage::Grant,
                            },
                            action: Action::GrantRole { user, role: config.roles.silly_role },
                        }
                    },
                }
            }
        },
        ApproveFlow::Committed { subject, actor, record, stage } => match stage {
            ApproveStage::Grant => {
                if is_done(&event) {
                    let user = subject.id;
                    Progress::Next {
                        flow: ApproveFlow::Committed {
                            subject,
                            actor,
                            record,
                            stage: ApproveStage::Profile,
                        },
                        action: Action::EnsureProfile { user },
                    }
                } else {
                    Progress::Finished(give_up())
                }
            },
            ApproveStage::Profile => {
                if is_done(&event) {
                    let message = approval_text(&subject, &actor, &record);
                    Progress::Next {
                        flow: ApproveFlow::Committed {
                            subject,
                            actor,
                            record,
                            stage: ApproveStage::Audit,
                        },
                        action: Action::Post { channel: config.channels.logs_mod, message },
                    }
                } else {
                    Progress::Finished(give_up())
                }
            },
            ApproveStage::Audit => {
                let message = welcome_text(&subject, &record.vouched_by, &actor);
                Progress::Next {
                    flow: ApproveFlow::Committed {
                        subject,
                        actor,
                        record,
                        stage: ApproveStage::Welcome,
                    },
                    action: Action::Post { channel: config.channels.main, message },
                }
            },
            ApproveStage::Welcome => Progress::Finished(
                settle(Ok(()), ":white_check_mark: Vouch approved!"),
            ),
        },
    }
}

/// The reason as it is written out: the one given, or a standing phrase.
pub open spec fn reason_text(reason: Option<Seq<char>>) -> Seq<char> {
    match reason {
        Some(given) => given,
        None => "No reason provided"@,
    }
}

/// What the moderators read when a vouch was denied.
pub open spec fn denial_notice(
    subject: u64,
    actor: u64,
    since: i64,
    sponsor: u64,
    reason: Option<Seq<char>>,
) -> Seq<char> {
    ":x: Vouch denied for "@ + user_mention_text(subject) + " by "@ + user_mention_text(actor)
        + " at "@ + central_time_text(since) + " CDT, vouched by "@ + user_mention_text(sponsor)
        + " with a reason of '"@ + reason_text(reason) + "'"@
}

/// What the subject reads in private when the vouch was denied.
pub open spec fn denial_letter(actor: u64, reason: Option<Seq<char>>) -> Seq<char> {
    ":warning: Your vouch has been denied by "@ + user_mention_text(actor)
        + " with a reason of '"@ + reason_text(reason)
        + "'. If you have any questions, feel free to ask a moderator or admin."@
}

/// What the admin reads when the denial is through: what was enforced, and
/// whether the subject could be told.
pub open spec fn denial_reply(kicked: bool, notified: bool) -> Seq<char> {
    if kicked {
        if notified {
            ":white_check_mark: Vouch denied and user kicked! User notified."@
        } else {
            ":white_check_mark: Vouch denied and user kicked! User not notified."@
        }
    } else {
        if notified {
            ":white_check_mark: Vouch denied! User notified."@
        } else {
            ":white_check_mark: Vouch denied! User not notified."@
        }
    }
}

/// What a reason stands for.
pub open spec fn reason_view(reason: Option<String>) -> Option<Seq<char>> {
    match reason {
        Some(given) => Some(given@),
        None => None,
    }
}

/// How far a denial has come once the vouch is out of the registry.
#[derive(Clone, Copy, Debug, PartialEq, Eq, Structural)]
pub enum DenyStage {
    /// The moderators are being told.
    Audit,
    /// The subject is being told in private.
    Direct,
    /// The subject is being removed; `notified` says whether the private
    /// message got through.
    Removal { notified: bool },
}

/// A denial under way: `actor` denies the vouch for `subject`, and has the
/// subject removed from the community if `kick` is set.
#[derive(Debug)]
pub enum DenyFlow {
    /// The registry was not touched yet; `asked` says whether the actor's
    /// roles were asked for.
    Open { subject: Account, actor: Account, kick: bool, reason: Option<String>, asked: bool },
    /// The vouch was taken out of the registry and is `record`.
    Committed {
        subject: Account,
        actor: Account,
        kick: bool,
        reason: Option<String>,
        record: Vouch,
        stage: DenyStage,
    },
}

/// What a `DenyFlow` stands for.
pub enum DenyFlowView {
    Open {
        subject: AccountView,
        actor: AccountView,
        kick: bool,
        reason: Option<Seq<char>>,
        asked: bool,
    },
    Committed {
        subject: AccountView,
        actor: AccountView,
        kick: bool,
        reason: Option<Seq<char>>,
        record: VouchView,
        stage: DenyStage,
    },
}

impl DenyFlowView {
    /// Whose vouch the denial is about.
    pub open spec fn subject(self) -> AccountView {
        match self {
            DenyFlowView::Open { subject, .. } => subject,
            DenyFlowView::Committed { subject, .. } => subject,
        }
    }

    /// Whether the subject is to be removed.
    pub open spec fn kick(self) -> bool {
        match self {
            DenyFlowView::Open { kick, .. } => kick,
            DenyFlowView::Committed { kick, .. } => kick,
        }
    }
}

impl View for DenyFlow {
    type V = DenyFlowView;

    open spec fn view(&self) -> DenyFlowView {
        match *self {
            DenyFlow::Open { subject, actor, kick, reason, asked } => DenyFlowView::Open {
                subject: subject@,
                actor: actor@,
                kick,
                reason: reason_view(reason),
                asked,
            },
            DenyFlow::Committed {
                subject,
                actor,
                kick,
                reason,
                record,
                stage,
            } => DenyFlowView::Committed {
                subject: subject@,
                actor: actor@,
                kick,
                reason: reason_view(reason),
                record: record@,
                stage,
            },
        }
    }
}

impl DenyFlow {
    /// A denial that has not begun.
    pub fn new(subject: Account, actor: Account, kick: bool, reason: Option<String>) -> (flow:
        DenyFlow)
        ensures
            flow == (DenyFlow::Open { subject, actor, kick, reason, asked: false }),
    {
        DenyFlow::Open { subject, actor, kick, reason, asked: false }
    }
}

/// One step of a denial, on the pending vouches `pending`: the pending
/// vouches afterwards, and how the denial goes on.
///
/// Nothing is touched before the actor is known to hold the admin role. The
/// vouch then leaves the registry for good: the moderators are told, then
/// the subject in private. Whether or not either message got through, the
/// subject is removed if and only if `kick` is set; the reply to the admin
/// says whether the subject could be told. A removal that failed ends the
/// denial with an error.
pub open spec fn deny_model(
    pending: Seq<VouchView>,
    config: Config,
    flow: DenyFlowView,
    event: EventView,
) -> (Seq<VouchView>, ProgressView<DenyFlowView, OutcomeView>) {
    match flow {
        DenyFlowView::Open { subject, actor, kick, reason, asked } => if !asked {
            (
                pending,
                ProgressView::Next {
                    flow: DenyFlowView::Open { subject, actor, kick, reason, asked: true },
                    action: ActionView::FetchRoles { user: actor.id },
                },
            )
        } else if !grants(event, config.roles.admin@) {
            (
                pending,
                ProgressView::Finished(
                    settled(
                        Err(WorkflowError::NotAuthorized),
                        ":x: You must be an admin to deny vouches!"@,
                    ),
                ),
            )
        } else if !is_pending(pending, subject.id) {
            (
                pending,
                ProgressView::Finished(
                    settled(Err(WorkflowError::NotFound), ":x: No vouch found for this user!"@),
                ),
            )
        } else {
            let record = pending_record(pending, subject.id);
            (
                after_take(pending, subject.id),
                ProgressView::Next {
                    flow: DenyFlowView::Committed {
                        subject,
                        actor,
                        kick,
                        reason,
                        record,
                        stage: DenyStage::Audit,
                    },
                    action: ActionView::Post {
                        channel: config.channels.logs_mod@,
                        message: plain_message(
                            denial_notice(
                                subject.id,
                                actor.id,
                                record.vouch_time,
                                record.vouched_by.id,
                                reason,
                            ),
                        ),
                    },
                },
            )
        },
        DenyFlowView::Committed { subject, actor, kick, reason, record, stage } => match stage {
            DenyStage::Audit => (
                pending,
                ProgressView::Next {
                    flow: DenyFlowView::Committed {
                        subject,
                        actor,
                        kick,
                        reason,
                        record,
                        stage: DenyStage::Direct,
                    },
                    action: ActionView::Direct {
                        user: subject.id,
                        message: plain_message(denial_letter(actor.id, reason)),
                    },
                },
            ),
            DenyStage::Direct => if kick {
                (
                    pending,
                    ProgressView::Next {
                        flow: DenyFlowView::Committed {
                            subject,
                            actor,
                            kick,
                            reason,
                            record,
                            stage: DenyStage::Removal { notified: done(event) },
                        },
                        action: ActionView::Remove { user: subject.id },
                    },
                )
            } else {
                (
                    pending,
                    ProgressView::Finished(settled(Ok(()), denial_reply(false, done(event)))),
                )
            },
            DenyStage::Removal { notified } => if done(event) {
                (pending, ProgressView::Finished(settled(Ok(()), denial_reply(true, notified))))
            } else {
                (pending, ProgressView::Finished(broken()))
            },
        },
    }
}

fn append_reason(text: &mut String, reason: &Option<String>)
    ensures
        final(text)@ == old(text)@ + reason_text(reason_view(*reason)),
{
    match reason {
        Some(given) => text.append(given.as_str()),
        None => text.append("No reason provided"),
    }
}

fn denial_text(subject: &Account, actor: &Account, record: &Vouch, reason: &Option<String>) -> (message:
    Message)
    ensures
        message@ == plain_message(
            denial_notice(
                subject@.id,
                actor@.id,
                record@.vouch_time,
                record@.vouched_by.id,
                reason_view(*reason),
            ),
        ),
{
    let mut text = String::from_str(":x: Vouch denied for ");
    text.append(subject.mention().as_str());
    text.append(" by ");
    text.append(actor.mention().as_str());
    text.append(" at ");
    text.append(record.get_vouch_time().as_str());
    text.append(" CDT, vouched by ");
    text.append(record.vouched_by.mention().as_str());
    text.append(" with a reason of '");
    append_reason(&mut text, reason);
    text.append("'");
    Message::plain(text)
}

fn letter_text(actor: &Account, reason: &Option<String>) -> (message: Message)
    ensures
        message@ == plain_message(denial_letter(actor@.id, reason_view(*reason))),
{
    let mut text = String::from_str(":warning: Your vouch has been denied by ");
    text.append(actor.mention().as_str());
    text.append(" with a reason of '");
    append_reason(&mut text, reason);
    text.append("'. If you have any questions, feel free to ask a moderator or admin.");
    Message::plain(text)
}

fn denial_end(kicked: bool, notified: bool) -> (end: Outcome)
    ensures
        end@ == settled(Ok(()), denial_reply(kicked, notified)),
{
    if kicked {
        if notified {
            settle(Ok(()), ":white_check_mark: Vouch denied and user kicked! User notified.")
        } else {
            settle(Ok(()), ":white_check_mark: Vouch denied and user kicked! User not notified.")
        }
    } else {
        if notified {
            settle(Ok(()), ":white_check_mark: Vouch denied! User notified.")
        } else {
            settle(Ok(()), ":white_check_mark: Vouch denied! User not notified.")
        }
    }
}

/// One step of a denial.
pub fn deny(registry: &mut Registry, config: &Config, flow: DenyFlow, event: Event) -> (next:
    Progress<DenyFlow, Outcome>)
    ensures
        (final(registry)@, next@) == deny_model(old(registry)@, *config, flow@, event@),
{
    match flow {
        DenyFlow::Open { subject, actor, kick, reason, asked } => {
            if !asked {
                let user = actor.id;
                Progress::Next {
                    flow: DenyFlow::Open { subject, actor, kick, reason, asked: true },
                    action: Action::FetchRoles { user },
                }
            } else if !is_admin(config, &event) {
                Progress::Finished(
                    settle(
                        Err(WorkflowError::NotAuthorized),
                        ":x: You must be an admin to deny vouches!",
                    ),
                )
            } else {
                match registry.take(subject.id) {
                    None => Progress::Finished(
                        settle(Err(WorkflowError::NotFound), ":x: No vouch found for this user!"),
                    ),
                    Some(record) => {
                        let message = denial_text(&subject, &actor, &record, &reason);
                        Progress::Next {
                            flow: DenyFlow::Committed {
                                subject,
                                actor,
                                kick,
                                reason,
                                record,
                                stage: DenyStage::Audit,
                            },
                            action: Action::Post { channel: config.channels.logs_mod, message },
                        }
                    },
                }
            }
        },
        DenyFlow::Committed { subject, actor, kick, reason, record, stage } => match stage {
            DenyStage::Audit => {
                let user = subject.id;
                let message = letter_text(&actor, &reason);
                Progress::Next {
                    flow: DenyFlow::Committed {
                        subject,
                        actor,
                        kick,
                        reason,
                        record,
                        stage: DenyStage::Direct,
                    },
                    action: Action::Direct { user, message },
                }
            },
            DenyStage::Direct => {
                let notified = is_done(&event);
                if kick {
                    let user = subject.id;
                    Progress::Next {
                        flow: DenyFlow::Committed {
                            subject,
                            actor,
                            kick,
                            reason,
                            record,
                            stage: DenyStage::Removal { notified },
                        },
                        action: Action::Remove { user },
                    }
                } else {
                    Progress::Finished(denial_end(false, notified))
                }
            },
            DenyStage::Removal { notified } => {
                if is_done(&event) {
                    Progress::Finished(denial_end(true, notified))
                } else {
                    Progress::Finished(give_up())
                }
            },
        },
    }
}

/// The pending vouches, oldest first.
pub fn list_pending(registry: &Registry) -> (list: Vec<Vouch>)
    ensures
        views(list@) == registry@,
{
    registry.snapshot()
}

} // verus!
