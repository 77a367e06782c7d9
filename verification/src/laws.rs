//! What holds of the registry and of the workflows whatever the platform
//! answers, proved from the models that the functions' contracts use.

use crate::commands::vouch::{
    approve_model, deny_model, grants, settled, submit_model, ApproveFlowView, DenyFlowView,
    DenyStage, SubmitFlowView, SubmitStage,
};
use crate::commands::eval::{
    eval_model, EvalActionView, EvalEventView, EvalFlowView, EvalStage, EvalStepView,
};
use crate::effects::{ActionView, EventView, OutcomeView, ProgressView};
use crate::events::{course_model, Course, Duty, ReactionKind};
use crate::error::WorkflowError;
use crate::handlers::join::{
    deliver_model, fallback_notice, private_notice, DeliverFlowView, DeliverStage,
    DeliveryOutcome,
};
use crate::registry::{
    after_insert, after_take, distinct_subjects, is_pending, lemma_position_unique, position,
};
use crate::settings::Config;
use crate::structs::vouch::VouchView;
use vstd::prelude::*;

verus! {

/// `s` holds a record for `subject` at one index and at no other.
pub open spec fn exactly_one(s: Seq<VouchView>, subject: u64) -> bool {
    exists|i: int|
        0 <= i < s.len() && (#[trigger] s[i]).user.id == subject && forall|j: int|
            0 <= j < s.len() && (#[trigger] s[j]).user.id == subject ==> j == i
}

/// Adding a record keeps the subjects distinct, and leaves the record's
/// subject with exactly one record, whether or not the record was let in.
pub proof fn law_insert_keeps_one_record(s: Seq<VouchView>, record: VouchView)
    requires
        distinct_subjects(s),
    ensures
        distinct_subjects(after_insert(s, record)),
        exactly_one(after_insert(s, record), record.user.id),
{
    let t = after_insert(s, record);
    let subject = record.user.id;
    if is_pending(s, subject) {
        let p = position(s, subject);
        assert forall|j: int| 0 <= j < s.len() && (#[trigger] s[j]).user.id == subject implies j
            == p by {
            lemma_position_unique(s, subject, j);
        }
        assert(t[p].user.id == subject);
    } else {
        let p = s.len() as int;
        assert(t[p].user.id == subject);
        assert forall|j: int| 0 <= j < t.len() && (#[trigger] t[j]).user.id == subject implies j
            == p by {
            if j < p {
                assert(s[j].user.id == subject);
            }
        }
        assert forall|i: int, j: int| 0 <= i < j < t.len() implies t[i].user.id != t[j].user.id by {
            if j == p {
                assert(s[i].user.id != subject);
            } else {
                assert(s[i].user.id != s[j].user.id);
            }
        }
    }
}

/// Taking a subject's record out keeps the subjects distinct and leaves no
/// record for that subject behind.
pub proof fn law_take_leaves_none(s: Seq<VouchView>, subject: u64)
    requires
        distinct_subjects(s),
    ensures
        distinct_subjects(after_take(s, subject)),
        !is_pending(after_take(s, subject), subject),
{
    let t = after_take(s, subject);
    if is_pending(s, subject) {
        let p = position(s, subject);
        assert(0 <= p < s.len() && s[p].user.id == subject);
        assert forall|k: int| 0 <= k < t.len() implies (#[trigger] t[k]).user.id != subject by {
            if k < p {
                assert(t[k] == s[k]);
                assert(s[k].user.id != s[p].user.id);
            } else {
                assert(t[k] == s[k + 1]);
                assert(s[p].user.id != s[k + 1].user.id);
            }
        }
        assert forall|i: int, j: int| 0 <= i < j < t.len() implies t[i].user.id != t[j].user.id by {
            let a = if i < p {
                i
            } else {
                i + 1
            };
            let b = if j < p {
                j
            } else {
                j + 1
            };
            assert(t[i] == s[a] && t[j] == s[b]);
            assert(s[a].user.id != s[b].user.id);
        }
    }
}

/// A second submission for a subject, begun after the first one's vouch was
/// added and before it was resolved, asks for the subject's roles and, the
/// subject not being a member, ends with `DuplicateRequest` when its own
/// vouch would be added. It changes nothing: the subject keeps exactly one
/// record.
pub proof fn law_second_submission_refused(
    pending: Seq<VouchView>,
    config: Config,
    first: SubmitFlowView,
    held: Seq<u64>,
    now: i64,
    second: SubmitFlowView,
    event: EventView,
    held_later: Seq<u64>,
    later: i64,
)
    requires
        distinct_subjects(pending),
        first.stage == SubmitStage::Standing,
        !held.contains(config.roles.silly_role@),
        !is_pending(pending, first.subject.id),
        second.stage == SubmitStage::Start,
        second.subject.id == first.subject.id,
        !held_later.contains(config.roles.silly_role@),
    ensures
        ({
            let (added, accepted) = submit_model(pending, config, first, EventView::Roles(held), now);
            let (between, asking) = submit_model(added, config, second, event, later);
            let (after, refused) = submit_model(
                between,
                config,
                SubmitFlowView { stage: SubmitStage::Standing, ..second },
                EventView::Roles(held_later),
                later,
            );
            &&& accepted is Next
            &&& asking == (ProgressView::<SubmitFlowView, OutcomeView>::Next {
                flow: SubmitFlowView { stage: SubmitStage::Standing, ..second },
                action: ActionView::FetchRoles { user: second.subject.id },
            })
            &&& refused == ProgressView::<SubmitFlowView, OutcomeView>::Finished(
                settled(
                    Err(WorkflowError::DuplicateRequest),
                    ":x: This user already has a vouch pending!"@,
                ),
            )
            &&& between == added
            &&& after == added
            &&& exactly_one(after, first.subject.id)
            &&& distinct_subjects(after)
        }),
{
    let record = VouchView { user: first.subject, vouched_by: first.sponsor, vouch_time: now };
    law_insert_keeps_one_record(pending, record);
    let added = pending.push(record);
    assert(added[pending.len() as int].user.id == second.subject.id);
}

/// A subject who already holds the member role is turned away with
/// `AlreadyVerified` as soon as the roles are known, whether or not a vouch
/// is pending for the subject, and nothing changes.
pub proof fn law_member_is_turned_away_first(
    pending: Seq<VouchView>,
    config: Config,
    flow: SubmitFlowView,
    held: Seq<u64>,
    now: i64,
)
    requires
        flow.stage == SubmitStage::Standing,
        held.contains(config.roles.silly_role@),
    ensures
        submit_model(pending, config, flow, EventView::Roles(held), now) == (
            pending,
            ProgressView::<SubmitFlowView, OutcomeView>::Finished(
                settled(
                    Err(WorkflowError::AlreadyVerified),
                    ":x: This user already is a vouched member!"@,
                ),
            ),
        ),
{
}

/// A submission for a subject who is no member but has a pending vouch is
/// refused with `DuplicateRequest` at the moment its own vouch would be
/// added, whenever the other vouch was added, and changes nothing.
pub proof fn law_racing_submission_refused(
    pending: Seq<VouchView>,
    config: Config,
    flow: SubmitFlowView,
    held: Seq<u64>,
    now: i64,
)
    requires
        flow.stage == SubmitStage::Standing,
        !held.contains(config.roles.silly_role@),
        is_pending(pending, flow.subject.id),
    ensures
        submit_model(pending, config, flow, EventView::Roles(held), now) == (
            pending,
            ProgressView::<SubmitFlowView, OutcomeView>::Finished(
                settled(
                    Err(WorkflowError::DuplicateRequest),
                    ":x: This user already has a vouch pending!"@,
                ),
            ),
        ),
{
}

/// When an approval and a denial of the same pending vouch, both by admins,
/// reach the registry one after the other, then in either order the first
/// takes the vouch and goes on, the second ends with `NotFound`, and the
/// registry holds no record for the subject afterwards.
pub proof fn law_one_resolution_wins(
    pending: Seq<VouchView>,
    config: Config,
    approval: ApproveFlowView,
    approver: EventView,
    denial: DenyFlowView,
    denier: EventView,
)
    requires
        distinct_subjects(pending),
        approval matches ApproveFlowView::Open { asked, .. } && asked,
        denial matches DenyFlowView::Open { asked, .. } && asked,
        approval.subject().id == denial.subject().id,
        is_pending(pending, approval.subject().id),
        grants(approver, config.roles.admin@),
        grants(denier, config.roles.admin@),
    ensures
        ({
            let (between, won) = approve_model(pending, config, approval, approver);
            let (after, lost) = deny_model(between, config, denial, denier);
            &&& won matches ProgressView::Next { flow, .. } && flow is Committed
            &&& lost == ProgressView::<DenyFlowView, OutcomeView>::Finished(
                settled(Err(WorkflowError::NotFound), ":x: No vouch found for this user!"@),
            )
            &&& after == after_take(pending, approval.subject().id)
            &&& !is_pending(after, approval.subject().id)
        }),
        ({
            let (between, won) = deny_model(pending, config, denial, denier);
            let (after, lost) = approve_model(between, config, approval, approver);
            &&& won matches ProgressView::Next { flow, .. } && flow is Committed
            &&& lost == ProgressView::<ApproveFlowView, OutcomeView>::Finished(
                settled(Err(WorkflowError::NotFound), ":x: No vouch found for this user!"@),
            )
            &&& after == after_take(pending, approval.subject().id)
            &&& !is_pending(after, approval.subject().id)
        }),
{
    law_take_leaves_none(pending, approval.subject().id);
}

/// A step that ends a workflow with an error leaves the registry as it
/// was, and so does every step of a workflow that has taken its vouch: the
/// registry changes only in the one step that adds a vouch and in the one
/// that takes it.
pub proof fn law_registry_changes_in_one_step(
    pending: Seq<VouchView>,
    config: Config,
    submission: SubmitFlowView,
    approval: ApproveFlowView,
    denial: DenyFlowView,
    event: EventView,
    now: i64,
)
    ensures
        ({
            let (after, step) = submit_model(pending, config, submission, event, now);
            after != pending ==> submission.stage == SubmitStage::Standing && step is Next
                && after == pending.push(
                VouchView { user: submission.subject, vouched_by: submission.sponsor, vouch_time: now },
            )
        }),
        ({
            let (after, step) = approve_model(pending, config, approval, event);
            after != pending ==> approval is Open && step is Next && after == after_take(
                pending,
                approval.subject().id,
            )
        }),
        ({
            let (after, step) = deny_model(pending, config, denial, event);
            after != pending ==> denial is Open && step is Next && after == after_take(
                pending,
                denial.subject().id,
            )
        }),
{
}

/// What a workflow did over a run of answers: the pending vouches at its
/// end, the actions it asked for in order, and how it ended if it did.
pub struct Run<R> {
    pub pending: Seq<VouchView>,
    pub asked: Seq<ActionView>,
    pub end: Option<R>,
}

/// An approval that is handed `events` one by one, for as long as it goes
/// on.
pub open spec fn approve_run(
    pending: Seq<VouchView>,
    config: Config,
    flow: ApproveFlowView,
    events: Seq<EventView>,
) -> Run<OutcomeView>
    decreases events.len(),
{
    if events.len() == 0 {
        Run { pending, asked: Seq::empty(), end: None }
    } else {
        let (after, step) = approve_model(pending, config, flow, events[0]);
        match step {
            ProgressView::Finished(end) => Run { pending: after, asked: Seq::empty(), end: Some(end) },
            ProgressView::Next { flow: onward, action } => {
                let rest = approve_run(after, config, onward, events.drop_first());
                Run { pending: rest.pending, asked: seq![action] + rest.asked, end: rest.end }
            },
        }
    }
}

/// A denial that is handed `events` one by one, for as long as it goes on.
pub open spec fn deny_run(
    pending: Seq<VouchView>,
    config: Config,
    flow: DenyFlowView,
    events: Seq<EventView>,
) -> Run<OutcomeView>
    decreases events.len(),
{
    if events.len() == 0 {
        Run { pending, asked: Seq::empty(), end: None }
    } else {
        let (after, step) = deny_model(pending, config, flow, events[0]);
        match step {
            ProgressView::Finished(end) => Run { pending: after, asked: Seq::empty(), end: Some(end) },
            ProgressView::Next { flow: onward, action } => {
                let rest = deny_run(after, config, onward, events.drop_first());
                Run { pending: rest.pending, asked: seq![action] + rest.asked, end: rest.end }
            },
        }
    }
}

/// An approval for a subject without a pending vouch never asks for a role
/// to be granted and leaves the registry as it is, whatever the platform
/// answers; once the actor is known, it ends with `NotFound` for an admin
/// and with `NotAuthorized` for anyone else.
pub proof fn law_approval_without_vouch(
    pending: Seq<VouchView>,
    config: Config,
    flow: ApproveFlowView,
    events: Seq<EventView>,
)
    requires
        flow matches ApproveFlowView::Open { asked, .. } && !asked,
        !is_pending(pending, flow.subject().id),
    ensures
        ({
            let run = approve_run(pending, config, flow, events);
            &&& run.pending == pending
            &&& forall|i: int| 0 <= i < run.asked.len() ==> !(#[trigger] run.asked[i] is GrantRole)
            &&& events.len() >= 2 ==> run.end == Some(
                if grants(events[1], config.roles.admin@) {
                    settled(Err(WorkflowError::NotFound), ":x: No vouch found for this user!"@)
                } else {
                    settled(
                        Err(WorkflowError::NotAuthorized),
                        ":x: You must be an admin to approve vouches!"@,
                    )
                },
            )
        }),
{
    reveal_with_fuel(approve_run, 3);
    if events.len() >= 1 {
        let rest = events.drop_first();
        if rest.len() >= 1 {
            assert(rest[0] == events[1]);
        }
    }
}

/// Once a vouch was denied, what is done about the subject does not depend
/// on whether the private message got through: with `kick` set the removal
/// is asked for, without it nothing more is asked for, whatever the answer
/// to the message was.
pub proof fn law_enforcement_ignores_notification(
    pending: Seq<VouchView>,
    config: Config,
    flow: DenyFlowView,
    answer: EventView,
)
    requires
        flow matches DenyFlowView::Committed { stage, .. } && stage == DenyStage::Direct,
    ensures
        ({
            let (after, step) = deny_model(pending, config, flow, answer);
            &&& after == pending
            &&& flow.kick() ==> (step matches ProgressView::Next { action, .. } && action
                == (ActionView::Remove { user: flow.subject().id }))
            &&& !flow.kick() ==> (step matches ProgressView::Finished(end) && end.result == Ok::<
                (),
                WorkflowError,
            >(()))
        }),
{
}

/// A denial with `kick` set, by an admin, of a pending vouch asks for the
/// subject's removal as its fourth action, whatever the platform answered
/// to the message for the moderators and to the private message.
pub proof fn law_kick_follows_denial(
    pending: Seq<VouchView>,
    config: Config,
    flow: DenyFlowView,
    events: Seq<EventView>,
)
    requires
        flow matches DenyFlowView::Open { asked, .. } && !asked,
        flow.kick(),
        is_pending(pending, flow.subject().id),
        events.len() >= 4,
        grants(events[1], config.roles.admin@),
    ensures
        ({
            let run = deny_run(pending, config, flow, events);
            &&& run.asked.len() >= 4
            &&& run.asked[3] == (ActionView::Remove { user: flow.subject().id })
        }),
{
    reveal_with_fuel(deny_run, 5);
    let rest1 = events.drop_first();
    let rest2 = rest1.drop_first();
    let rest3 = rest2.drop_first();
    assert(rest1[0] == events[1]);
    assert(rest2[0] == events[2]);
    assert(rest3[0] == events[3]);
    let (held1, step1) = deny_model(pending, config, flow, events[0]);
    let flow1 = step1->flow;
    let (held2, step2) = deny_model(held1, config, flow1, rest1[0]);
    let flow2 = step2->flow;
    let (held3, step3) = deny_model(held2, config, flow2, rest2[0]);
    let flow3 = step3->flow;
    let (held4, step4) = deny_model(held3, config, flow3, rest3[0]);
    let flow4 = step4->flow;
    let run4 = deny_run(held4, config, flow4, rest3.drop_first());
    let run3 = deny_run(held3, config, flow3, rest3);
    let run2 = deny_run(held2, config, flow2, rest2);
    let run1 = deny_run(held1, config, flow1, rest1);
    assert(run3.asked == seq![step4->action] + run4.asked);
    assert(run2.asked == seq![step3->action] + run3.asked);
    assert(run1.asked == seq![step2->action] + run2.asked);
}

/// A call that a workflow makes on the registry: a submission adds a
/// record, a resolution takes a subject's record out.
pub enum RegistryCall {
    Insert(VouchView),
    Take(u64),
}

/// The registry after `calls`, made one after the other on an empty one.
pub open spec fn replay(calls: Seq<RegistryCall>) -> Seq<VouchView>
    decreases calls.len(),
{
    if calls.len() == 0 {
        Seq::empty()
    } else {
        let before = replay(calls.drop_last());
        match calls.last() {
            RegistryCall::Insert(record) => after_insert(before, record),
            RegistryCall::Take(subject) => after_take(before, subject),
        }
    }
}

/// The records that `calls` added, in the order in which they were added:
/// one for each insertion that was not refused as a duplicate.
pub open spec fn accepted(calls: Seq<RegistryCall>) -> Seq<VouchView>
    decreases calls.len(),
{
    if calls.len() == 0 {
        Seq::empty()
    } else {
        let earlier = accepted(calls.drop_last());
        match calls.last() {
            RegistryCall::Insert(record) => if is_pending(
                replay(calls.drop_last()),
                record.user.id,
            ) {
                earlier
            } else {
                earlier.push(record)
            },
            RegistryCall::Take(_) => earlier,
        }
    }
}

/// How many of `calls` took a record out.
pub open spec fn resolved(calls: Seq<RegistryCall>) -> nat
    decreases calls.len(),
{
    if calls.len() == 0 {
        0
    } else {
        let earlier = resolved(calls.drop_last());
        match calls.last() {
            RegistryCall::Insert(_) => earlier,
            RegistryCall::Take(subject) => if is_pending(replay(calls.drop_last()), subject) {
                earlier + 1
            } else {
                earlier
            },
        }
    }
}

/// `part` is found in `whole` at the indices `at`, which go upwards.
pub open spec fn found_at(part: Seq<VouchView>, whole: Seq<VouchView>, at: Seq<int>) -> bool {
    &&& at.len() == part.len()
    &&& forall|k: int|
        0 <= k < at.len() ==> 0 <= #[trigger] at[k] < whole.len() && part[k] == whole[at[k]]
    &&& forall|j: int, k: int| 0 <= j < k < at.len() ==> #[trigger] at[j] < #[trigger] at[k]
}

/// `part` is what is left of `whole` when some of its items are struck out:
/// the items of `part` stand in `whole`, in the same order.
pub open spec fn keeps_order(part: Seq<VouchView>, whole: Seq<VouchView>) -> bool {
    exists|at: Seq<int>| found_at(part, whole, at)
}

proof fn lemma_replay_found(calls: Seq<RegistryCall>) -> (at: Seq<int>)
    ensures
        replay(calls).len() == accepted(calls).len() - resolved(calls),
        found_at(replay(calls), accepted(calls), at),
    decreases calls.len(),
{
    if calls.len() == 0 {
        Seq::empty()
    } else {
        let earlier = calls.drop_last();
        let before = replay(earlier);
        let whole = accepted(earlier);
        let at = lemma_replay_found(earlier);
        match calls.last() {
            RegistryCall::Insert(record) => {
                if is_pending(before, record.user.id) {
                    at
                } else {
                    let grown = at.push(whole.len() as int);
                    assert(found_at(before.push(record), whole.push(record), grown));
                    grown
                }
            },
            RegistryCall::Take(subject) => {
                if is_pending(before, subject) {
                    let p = position(before, subject);
                    assert(0 <= p < before.len());
                    let shrunk = at.remove(p);
                    let left = before.remove(p);
                    assert forall|k: int| 0 <= k < shrunk.len() implies 0 <= #[trigger] shrunk[k]
                        < whole.len() && left[k] == whole[shrunk[k]] by {
                        if k < p {
                            assert(shrunk[k] == at[k] && left[k] == before[k]);
                        } else {
                            assert(shrunk[k] == at[k + 1] && left[k] == before[k + 1]);
                        }
                    }
                    assert forall|j: int, k: int| 0 <= j < k < shrunk.len() implies #[trigger] shrunk[j]
                        < #[trigger] shrunk[k] by {
                        let a = if j < p {
                            j
                        } else {
                            j + 1
                        };
                        let b = if k < p {
                            k
                        } else {
                            k + 1
                        };
                        assert(shrunk[j] == at[a] && shrunk[k] == at[b]);
                    }
                    shrunk
                } else {
                    at
                }
            },
        }
    }
}

/// After any submissions and resolutions, the registry lists as many
/// records as were added less as many as were taken out, and lists them in
/// the order in which they were added.
pub proof fn law_listing_counts_and_keeps_order(calls: Seq<RegistryCall>)
    ensures
        replay(calls).len() == accepted(calls).len() - resolved(calls),
        keeps_order(replay(calls), accepted(calls)),
{
    let at = lemma_replay_found(calls);
}

/// What a delivery did over a run of answers: the actions it asked for in
/// order, and how it ended if it did.
pub struct DeliveryRun {
    pub asked: Seq<ActionView>,
    pub end: Option<DeliveryOutcome>,
}

/// A delivery that is handed `events` one by one, for as long as it goes on.
pub open spec fn deliver_run(flow: DeliverFlowView, events: Seq<EventView>) -> DeliveryRun
    decreases events.len(),
{
    if events.len() == 0 {
        DeliveryRun { asked: Seq::empty(), end: None }
    } else {
        match deliver_model(flow, events[0]) {
            ProgressView::Finished(end) => DeliveryRun { asked: Seq::empty(), end: Some(end) },
            ProgressView::Next { flow: onward, action } => {
                let rest = deliver_run(onward, events.drop_first());
                DeliveryRun { asked: seq![action] + rest.asked, end: rest.end }
            },
        }
    }
}

/// How many of `asked` are posts in a channel.
pub open spec fn posts(asked: Seq<ActionView>) -> nat
    decreases asked.len(),
{
    if asked.len() == 0 {
        0
    } else if asked.last() is Post {
        posts(asked.drop_last()) + 1
    } else {
        posts(asked.drop_last())
    }
}

/// How many of `asked` are private messages.
pub open spec fn directs(asked: Seq<ActionView>) -> nat
    decreases asked.len(),
{
    if asked.len() == 0 {
        0
    } else if asked.last() is Direct {
        directs(asked.drop_last()) + 1
    } else {
        directs(asked.drop_last())
    }
}

/// A delivery tries the private message once. It posts in the fallback
/// channel once if that attempt failed, and not at all otherwise; it never
/// ends as delivered in private after a public post, nor as delivered in
/// public without one.
pub proof fn law_fallback_posted_once(flow: DeliverFlowView, events: Seq<EventView>)
    requires
        flow.stage == DeliverStage::Start,
        events.len() >= 2,
    ensures
        ({
            let run = deliver_run(flow, events);
            &&& directs(run.asked) == 1
            &&& run.asked[0] == (ActionView::Direct {
                user: flow.subject,
                message: private_notice(flow.notice),
            })
            &&& events[1] is Done ==> posts(run.asked) == 0 && run.end == Some(
                DeliveryOutcome::Private,
            )
            &&& !(events[1] is Done) ==> posts(run.asked) == 1 && run.asked[1] == (ActionView::Post {
                channel: flow.fallback_channel,
                message: fallback_notice(flow.subject, flow.notice),
            }) && run.end != Some(DeliveryOutcome::Private)
            &&& events.len() >= 3 && !(events[1] is Done) ==> run.end == Some(
                if events[2] is Done {
                    DeliveryOutcome::Fallback
                } else {
                    DeliveryOutcome::Failed
                },
            )
        }),
{
    reveal_with_fuel(deliver_run, 4);
    reveal_with_fuel(posts, 3);
    reveal_with_fuel(directs, 3);
    let rest1 = events.drop_first();
    assert(rest1[0] == events[1]);
    let first = ActionView::Direct { user: flow.subject, message: private_notice(flow.notice) };
    let second = ActionView::Post {
        channel: flow.fallback_channel,
        message: fallback_notice(flow.subject, flow.notice),
    };
    let run = deliver_run(flow, events);
    if events[1] is Done {
        assert(run.asked =~= seq![first]);
        assert(run.asked.drop_last() =~= Seq::<ActionView>::empty());
    } else {
        let rest2 = rest1.drop_first();
        if rest2.len() >= 1 {
            assert(rest2[0] == events[2]);
        }
        assert(run.asked =~= seq![first, second]);
        assert(run.asked.drop_last() =~= seq![first]);
        assert(run.asked.drop_last().drop_last() =~= Seq::<ActionView>::empty());
    }
}

/// A workflow in a race with another: still under way, or ended.
pub enum Racer<F> {
    Running(F),
    Ended(OutcomeView),
}

/// What a step makes of the workflow that took it.
pub open spec fn after_step<F>(step: ProgressView<F, OutcomeView>) -> Racer<F> {
    match step {
        ProgressView::Next { flow, .. } => Racer::Running(flow),
        ProgressView::Finished(end) => Racer::Ended(end),
    }
}

/// The workflow has ended with `error`.
pub open spec fn turned_away<F>(racer: Racer<F>, error: WorkflowError) -> bool {
    racer matches Racer::Ended(end) && end.result == Err::<(), WorkflowError>(error)
}

/// A turn in a race between two submissions: whose step comes next, what
/// the platform answers to it, and what the clock shows.
pub struct SubmitTurn {
    pub first: bool,
    pub event: EventView,
    pub now: i64,
}

/// One turn of a race between two submissions: the workflow whose turn it
/// is takes one step, whole and by itself. A turn of a workflow that has
/// ended changes nothing.
pub open spec fn submission_turn(
    pending: Seq<VouchView>,
    config: Config,
    first: Racer<SubmitFlowView>,
    second: Racer<SubmitFlowView>,
    turn: SubmitTurn,
) -> (Seq<VouchView>, Racer<SubmitFlowView>, Racer<SubmitFlowView>) {
    if turn.first {
        match first {
            Racer::Running(flow) => {
                let (after, step) = submit_model(pending, config, flow, turn.event, turn.now);
                (after, after_step(step), second)
            },
            Racer::Ended(_) => (pending, first, second),
        }
    } else {
        match second {
            Racer::Running(flow) => {
                let (after, step) = submit_model(pending, config, flow, turn.event, turn.now);
                (after, first, after_step(step))
            },
            Racer::Ended(_) => (pending, first, second),
        }
    }
}

/// Two submissions that take their steps in the order of `turns`: the
/// pending vouches and the two workflows at the end.
pub open spec fn submission_race(
    pending: Seq<VouchView>,
    config: Config,
    first: Racer<SubmitFlowView>,
    second: Racer<SubmitFlowView>,
    turns: Seq<SubmitTurn>,
) -> (Seq<VouchView>, Racer<SubmitFlowView>, Racer<SubmitFlowView>)
    decreases turns.len(),
{
    if turns.len() == 0 {
        (pending, first, second)
    } else {
        let (after, a, b) = submission_turn(pending, config, first, second, turns[0]);
        submission_race(after, config, a, b, turns.drop_first())
    }
}

/// The submission has added its vouch: it is telling the moderators, or
/// has ended well.
pub open spec fn submission_added(racer: Racer<SubmitFlowView>) -> bool {
    match racer {
        Racer::Running(flow) => flow.stage == SubmitStage::Audit,
        Racer::Ended(end) => end.result is Ok,
    }
}

/// The submission has ended in one of the four ways a submission ends.
pub open spec fn submission_ended(racer: Racer<SubmitFlowView>) -> bool {
    racer matches Racer::Ended(end) && (end.result is Ok || end.result == Err::<
        (),
        WorkflowError,
    >(WorkflowError::DuplicateRequest) || end.result == Err::<(), WorkflowError>(
        WorkflowError::AlreadyVerified,
    ) || end.result == Err::<(), WorkflowError>(WorkflowError::ExternalServiceFailure))
}

/// What holds at every moment of a race of two submissions for `subject`:
/// at most one of them has added its vouch, and then that vouch is pending.
pub open spec fn submissions_in_order(
    pending: Seq<VouchView>,
    first: Racer<SubmitFlowView>,
    second: Racer<SubmitFlowView>,
    subject: u64,
) -> bool {
    &&& distinct_subjects(pending)
    &&& first matches Racer::Running(flow) ==> flow.subject.id == subject
    &&& second matches Racer::Running(flow) ==> flow.subject.id == subject
    &&& first is Ended ==> submission_ended(first)
    &&& second is Ended ==> submission_ended(second)
    &&& !(submission_added(first) && submission_added(second))
    &&& submission_added(first) || submission_added(second) ==> is_pending(pending, subject)
}

proof fn lemma_submission_turn(
    pending: Seq<VouchView>,
    config: Config,
    first: Racer<SubmitFlowView>,
    second: Racer<SubmitFlowView>,
    turn: SubmitTurn,
    subject: u64,
)
    requires
        submissions_in_order(pending, first, second, subject),
    ensures
        ({
            let (after, a, b) = submission_turn(pending, config, first, second, turn);
            submissions_in_order(after, a, b, subject)
        }),
{
    let racer = if turn.first {
        first
    } else {
        second
    };
    if let Racer::Running(flow) = racer {
        let record = VouchView { user: flow.subject, vouched_by: flow.sponsor, vouch_time: turn.now };
        law_insert_keeps_one_record(pending, record);
        if !is_pending(pending, subject) {
            let added = pending.push(record);
            assert(added[pending.len() as int].user.id == subject);
        }
    }
}

proof fn lemma_submission_race(
    pending: Seq<VouchView>,
    config: Config,
    first: Racer<SubmitFlowView>,
    second: Racer<SubmitFlowView>,
    turns: Seq<SubmitTurn>,
    subject: u64,
)
    requires
        submissions_in_order(pending, first, second, subject),
    ensures
        ({
            let (after, a, b) = submission_race(pending, config, first, second, turns);
            submissions_in_order(after, a, b, subject)
        }),
    decreases turns.len(),
{
    if turns.len() > 0 {
        lemma_submission_turn(pending, config, first, second, turns[0], subject);
        let (after, a, b) = submission_turn(pending, config, first, second, turns[0]);
        lemma_submission_race(after, config, a, b, turns.drop_first(), subject);
    }
}

/// When two submissions for the same subject take their steps in any order
/// whatever, each step whole and by itself, then at most one of them adds
/// its vouch and no subject ever has two records. Once one of them has
/// added its vouch, the subject has exactly one record, and the other
/// submission, if it has ended and was neither found to be a member
/// already nor let down by the platform, was told `DuplicateRequest`.
pub proof fn law_submission_race_adds_once(
    pending: Seq<VouchView>,
    config: Config,
    first: SubmitFlowView,
    second: SubmitFlowView,
    turns: Seq<SubmitTurn>,
)
    requires
        distinct_subjects(pending),
        first.stage == SubmitStage::Start,
        second.stage == SubmitStage::Start,
        first.subject.id == second.subject.id,
    ensures
        ({
            let (after, a, b) = submission_race(
                pending,
                config,
                Racer::Running(first),
                Racer::Running(second),
                turns,
            );
            &&& distinct_subjects(after)
            &&& !(submission_added(a) && submission_added(b))
            &&& submission_added(a) || submission_added(b) ==> exactly_one(
                after,
                first.subject.id,
            )
            &&& submission_added(a) && b is Ended ==> turned_away(
                b,
                WorkflowError::DuplicateRequest,
            ) || turned_away(b, WorkflowError::AlreadyVerified) || turned_away(
                b,
                WorkflowError::ExternalServiceFailure,
            )
            &&& submission_added(b) && a is Ended ==> turned_away(
                a,
                WorkflowError::DuplicateRequest,
            ) || turned_away(a, WorkflowError::AlreadyVerified) || turned_away(
                a,
                WorkflowError::ExternalServiceFailure,
            )
        }),
{
    let subject = first.subject.id;
    lemma_submission_race(
        pending,
        config,
        Racer::Running(first),
        Racer::Running(second),
        turns,
        subject,
    );
    let (after, a, b) = submission_race(
        pending,
        config,
        Racer::Running(first),
        Racer::Running(second),
        turns,
    );
    if submission_added(a) || submission_added(b) {
        let at = position(after, subject);
        assert forall|j: int|
            0 <= j < after.len() && (#[trigger] after[j]).user.id == subject implies j == at by {
            lemma_position_unique(after, subject, j);
        }
    }
}

/// A turn in a race between an approval and a denial: whose step comes
/// next, and what the platform answers to it.
pub struct Turn {
    pub approval: bool,
    pub event: EventView,
}

/// One turn of a race between an approval and a denial: the workflow whose
/// turn it is takes one step, whole and by itself. A turn of a workflow
/// that has ended changes nothing.
pub open spec fn resolution_turn(
    pending: Seq<VouchView>,
    config: Config,
    approval: Racer<ApproveFlowView>,
    denial: Racer<DenyFlowView>,
    turn: Turn,
) -> (Seq<VouchView>, Racer<ApproveFlowView>, Racer<DenyFlowView>) {
    if turn.approval {
        match approval {
            Racer::Running(flow) => {
                let (after, step) = approve_model(pending, config, flow, turn.event);
                (after, after_step(step), denial)
            },
            Racer::Ended(_) => (pending, approval, denial),
        }
    } else {
        match denial {
            Racer::Running(flow) => {
                let (after, step) = deny_model(pending, config, flow, turn.event);
                (after, approval, after_step(step))
            },
            Racer::Ended(_) => (pending, approval, denial),
        }
    }
}

/// An approval and a denial that take their steps in the order of `turns`:
/// the pending vouches and the two workflows at the end.
pub open spec fn resolution_race(
    pending: Seq<VouchView>,
    config: Config,
    approval: Racer<ApproveFlowView>,
    denial: Racer<DenyFlowView>,
    turns: Seq<Turn>,
) -> (Seq<VouchView>, Racer<ApproveFlowView>, Racer<DenyFlowView>)
    decreases turns.len(),
{
    if turns.len() == 0 {
        (pending, approval, denial)
    } else {
        let (after, a, d) = resolution_turn(pending, config, approval, denial, turns[0]);
        resolution_race(after, config, a, d, turns.drop_first())
    }
}

/// The approval has taken the vouch: it is past the registry, or has ended
/// in a way that only a workflow past the registry ends.
pub open spec fn approval_won(racer: Racer<ApproveFlowView>) -> bool {
    match racer {
        Racer::Running(flow) => flow is Committed,
        Racer::Ended(end) => end.result is Ok || end.result == Err::<(), WorkflowError>(
            WorkflowError::ExternalServiceFailure,
        ),
    }
}

/// The denial has taken the vouch: it is past the registry, or has ended
/// in a way that only a workflow past the registry ends.
pub open spec fn denial_won(racer: Racer<DenyFlowView>) -> bool {
    match racer {
        Racer::Running(flow) => flow is Committed,
        Racer::Ended(end) => end.result is Ok || end.result == Err::<(), WorkflowError>(
            WorkflowError::ExternalServiceFailure,
        ),
    }
}

/// What holds at every moment of a race for the vouch of `subject`: the
/// vouch is pending for as long as nobody has taken it, at most one
/// workflow has taken it, a workflow that has ended without taking it was
/// turned away, and nobody is told `NotFound` while the vouch is pending.
pub open spec fn resolutions_in_order(
    pending: Seq<VouchView>,
    approval: Racer<ApproveFlowView>,
    denial: Racer<DenyFlowView>,
    subject: u64,
) -> bool {
    &&& distinct_subjects(pending)
    &&& approval matches Racer::Running(flow) ==> flow.subject().id == subject
    &&& denial matches Racer::Running(flow) ==> flow.subject().id == subject
    &&& approval is Ended ==> approval_won(approval) || turned_away(
        approval,
        WorkflowError::NotAuthorized,
    ) || turned_away(approval, WorkflowError::NotFound)
    &&& denial is Ended ==> denial_won(denial) || turned_away(denial, WorkflowError::NotAuthorized)
        || turned_away(denial, WorkflowError::NotFound)
    &&& !(approval_won(approval) && denial_won(denial))
    &&& is_pending(pending, subject) <==> !approval_won(approval) && !denial_won(denial)
    &&& is_pending(pending, subject) ==> !turned_away(approval, WorkflowError::NotFound)
        && !turned_away(denial, WorkflowError::NotFound)
}

proof fn lemma_resolution_turn(
    pending: Seq<VouchView>,
    config: Config,
    approval: Racer<ApproveFlowView>,
    denial: Racer<DenyFlowView>,
    turn: Turn,
    subject: u64,
)
    requires
        resolutions_in_order(pending, approval, denial, subject),
    ensures
        ({
            let (after, a, d) = resolution_turn(pending, config, approval, denial, turn);
            &&& resolutions_in_order(after, a, d, subject)
            &&& is_pending(after, subject) ==> after == pending
        }),
{
    law_take_leaves_none(pending, subject);
}

proof fn lemma_resolution_race(
    start: Seq<VouchView>,
    pending: Seq<VouchView>,
    config: Config,
    approval: Racer<ApproveFlowView>,
    denial: Racer<DenyFlowView>,
    turns: Seq<Turn>,
    subject: u64,
)
    requires
        resolutions_in_order(pending, approval, denial, subject),
        is_pending(pending, subject) ==> pending == start,
    ensures
        ({
            let (after, a, d) = resolution_race(pending, config, approval, denial, turns);
            &&& resolutions_in_order(after, a, d, subject)
            &&& is_pending(after, subject) ==> after == start
        }),
    decreases turns.len(),
{
    if turns.len() > 0 {
        lemma_resolution_turn(pending, config, approval, denial, turns[0], subject);
        let (after, a, d) = resolution_turn(pending, config, approval, denial, turns[0]);
        lemma_resolution_race(start, after, config, a, d, turns.drop_first(), subject);
    }
}

/// When an approval and a denial of the same pending vouch take their
/// steps in any order whatever, each step whole and by itself, then at no
/// moment have both taken the vouch. Once one has taken it, the registry
/// holds no record for the subject; until then the registry is as it was
/// and nobody was told `NotFound`. When both have ended and neither was
/// turned away as unauthorized, one of them has taken the vouch and the
/// other one was told `NotFound`.
pub proof fn law_race_has_one_winner(
    pending: Seq<VouchView>,
    config: Config,
    approval: ApproveFlowView,
    denial: DenyFlowView,
    turns: Seq<Turn>,
)
    requires
        distinct_subjects(pending),
        approval is Open,
        denial is Open,
        approval.subject().id == denial.subject().id,
        is_pending(pending, approval.subject().id),
    ensures
        ({
            let subject = approval.subject().id;
            let (after, a, d) = resolution_race(
                pending,
                config,
                Racer::Running(approval),
                Racer::Running(denial),
                turns,
            );
            &&& !(approval_won(a) && denial_won(d))
            &&& approval_won(a) || denial_won(d) <==> !is_pending(after, subject)
            &&& is_pending(after, subject) ==> after == pending && !turned_away(
                a,
                WorkflowError::NotFound,
            ) && !turned_away(d, WorkflowError::NotFound)
            &&& a is Ended && d is Ended && !turned_away(a, WorkflowError::NotAuthorized)
                && !turned_away(d, WorkflowError::NotAuthorized) ==> (approval_won(a)
                && turned_away(d, WorkflowError::NotFound)) || (denial_won(d) && turned_away(
                a,
                WorkflowError::NotFound,
            ))
        }),
{
    lemma_resolution_race(
        pending,
        pending,
        config,
        Racer::Running(approval),
        Racer::Running(denial),
        turns,
        approval.subject().id,
    );
}

/// What a request to run code did over a run of answers: the actions it
/// asked for in order, and how it ended if it did.
pub struct EvalRun {
    pub asked: Seq<EvalActionView>,
    pub end: Option<Result<(), WorkflowError>>,
}

/// A request to run code that is handed `events` one by one, for as long as
/// it goes on.
pub open spec fn eval_run(
    owners: Seq<u64>,
    author: u64,
    flow: EvalFlowView,
    events: Seq<EvalEventView>,
) -> EvalRun
    decreases events.len(),
{
    if events.len() == 0 {
        EvalRun { asked: Seq::empty(), end: None }
    } else {
        match eval_model(owners, author, flow, events[0]) {
            EvalStepView::Finished(end) => EvalRun { asked: Seq::empty(), end: Some(end) },
            EvalStepView::Next { flow: later, action } => {
                let rest = eval_run(owners, author, later, events.drop_first());
                EvalRun { asked: seq![action] + rest.asked, end: rest.end }
            },
        }
    }
}

/// For an author who is no owner, a request to run code asks for the
/// channel's last hundred lines and then, at most, for one deletion. It
/// never asks for anything to be said, written, compiled, run or removed,
/// whatever the answers are.
pub proof fn law_stranger_runs_nothing(
    owners: Seq<u64>,
    author: u64,
    flow: EvalFlowView,
    events: Seq<EvalEventView>,
)
    requires
        flow.stage == EvalStage::Start,
        !owners.contains(author),
    ensures
        ({
            let run = eval_run(owners, author, flow, events);
            &&& run.asked.len() <= 2
            &&& run.asked.len() >= 1 ==> run.asked[0] == (EvalActionView::Recent { limit: 100 })
            &&& run.asked.len() == 2 ==> run.asked[1] is Delete
            &&& forall|i: int|
                0 <= i < run.asked.len() ==> (#[trigger] run.asked[i] is Recent || run.asked[i] is Delete)
        }),
{
    reveal_with_fuel(eval_run, 4);
    if events.len() >= 1 {
        let rest = events.drop_first();
        if rest.len() >= 1 {
            let last = rest.drop_first();
            if last.len() >= 1 {
                assert(last[0] == events[2]);
            }
        }
    }
}

/// A program is asked to run in one step only: the one that follows the
/// owner being told that the code compiled. That the code compiled is told
/// in one step only: the one in which the compiler reported success. So a
/// run follows only a successful compile.
pub proof fn law_run_follows_compile(
    owners: Seq<u64>,
    author: u64,
    flow: EvalFlowView,
    event: EvalEventView,
)
    ensures
        ({
            let step = eval_model(owners, author, flow, event);
            &&& step is Next && step->action is Run ==> flow.stage == EvalStage::Announcing
                && event is Done
            &&& step is Next && step->flow.stage == EvalStage::Announcing ==> flow.stage
                == EvalStage::Compiling && event is Compiled && event->success
            &&& step is Next && step->action is Compile ==> flow.stage == EvalStage::Writing
                && event is Done
            &&& step is Next && step->action is Write ==> flow.stage == EvalStage::Greeting
                && event is Done
        }),
{
}

/// Whether the stage is one at which files may lie about: the writing was
/// asked for, and the removal has not been asked for.
pub open spec fn files_lie_about(stage: EvalStage) -> bool {
    stage == EvalStage::Writing || stage == EvalStage::Compiling || stage == EvalStage::Announcing
        || stage == EvalStage::Running || stage == EvalStage::Reporting
}

/// How many answers a request needs at most, from `stage` on, to end.
pub open spec fn answers_to_end(stage: EvalStage) -> nat {
    match stage {
        EvalStage::Start => 8,
        EvalStage::Searching => 2,
        EvalStage::Deleting => 1,
        EvalStage::Greeting => 7,
        EvalStage::Writing => 6,
        EvalStage::Compiling => 5,
        EvalStage::Announcing => 4,
        EvalStage::Running => 3,
        EvalStage::Reporting => 2,
        EvalStage::Cleaning(_) => 1,
    }
}

/// Once the writing of the code was asked for, the request does not end
/// before the removal of the files was asked for: whatever the answers are,
/// given enough of them the request ends, and the last thing it asked for
/// is the removal.
pub proof fn law_files_are_removed(
    owners: Seq<u64>,
    author: u64,
    flow: EvalFlowView,
    events: Seq<EvalEventView>,
)
    requires
        files_lie_about(flow.stage),
        events.len() >= answers_to_end(flow.stage),
    ensures
        ({
            let run = eval_run(owners, author, flow, events);
            &&& run.end is Some
            &&& run.asked.len() > 0
            &&& run.asked.last() == EvalActionView::Clean
        }),
    decreases events.len(),
{
    let step = eval_model(owners, author, flow, events[0]);
    let later = step->flow;
    let rest = events.drop_first();
    let rest_run = eval_run(owners, author, later, rest);
    let run = eval_run(owners, author, flow, events);
    assert(run.asked == seq![step->action] + rest_run.asked);
    if files_lie_about(later.stage) {
        law_files_are_removed(owners, author, later, rest);
        assert(run.asked.last() == rest_run.asked.last());
    } else {
        assert(later.stage is Cleaning);
        assert(step->action == EvalActionView::Clean);
        assert(rest_run.asked =~= Seq::<EvalActionView>::empty()) by {
            reveal_with_fuel(eval_run, 2);
        }
        assert(run.asked =~= seq![EvalActionView::Clean]);
    }
}

/// A failed deletion of a leaver's profile ends the event with an error
/// before anything is posted; a failed post ends an event with an error,
/// and a welcome is not run after it; a failed welcome is noted and the
/// event still ends well.
pub proof fn law_reaction_courses(failed: bool)
    ensures
        course_model(ReactionKind::Farewell, 0, failed) == Course::Go(Duty::DropProfile),
        course_model(ReactionKind::Farewell, 1, true) == Course::End(
            Err(WorkflowError::ExternalServiceFailure),
        ),
        course_model(ReactionKind::Farewell, 1, false) == Course::Go(Duty::Post),
        course_model(ReactionKind::Greet, 0, failed) == Course::Go(Duty::Post),
        course_model(ReactionKind::Greet, 1, true) == Course::End(
            Err(WorkflowError::NotificationFailure),
        ),
        course_model(ReactionKind::Greet, 1, false) == Course::Go(Duty::Welcome),
        course_model(ReactionKind::Greet, 2, failed) == Course::End(Ok(())),
        course_model(ReactionKind::Announce, 2, true) == Course::End(
            Err(WorkflowError::NotificationFailure),
        ),
        course_model(ReactionKind::Nothing, 0, failed) == Course::End(Ok(())),
{
}

} // verus!
