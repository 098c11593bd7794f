//! Confirmation points: when an action waits for a person, and how the
//! request reads in the project's queue of pending confirmations.
use vstd::prelude::*;

use crate::text::texts;
use crate::types::{
    ConfirmationPolicy, ManagedProjectConfig, ManagedProjectState, StateModel, StrategyDecision,
};

verus! {

/// The queue with `message` added at the end, unless it is already there.
pub open spec fn push_once(items: Seq<Seq<char>>, message: Seq<char>) -> Seq<Seq<char>> {
    if items.contains(message) {
        items
    } else {
        items.push(message)
    }
}

/// The state with `message` queued once.
pub open spec fn with_confirmation(m: StateModel, message: Seq<char>) -> StateModel {
    StateModel { pending_confirmation: push_once(m.pending_confirmation, message), ..m }
}

/// The label of a policy in confirmation messages.
pub open spec fn policy_label(policy: ConfirmationPolicy) -> Seq<char> {
    match policy {
        ConfirmationPolicy::ArchitectureDecision => "architecture_decision"@,
        ConfirmationPolicy::ExternalPush => "external_push"@,
        ConfirmationPolicy::DestructiveChange => "destructive_change"@,
        ConfirmationPolicy::HeavyInstall => "heavy_install"@,
        ConfirmationPolicy::RepeatedFailure => "repeated_failure"@,
    }
}

/// The message that asks a person to confirm under `policy`.
pub open spec fn confirmation_text(policy: ConfirmationPolicy, detail: Seq<char>) -> Seq<char> {
    "需要人工确认（"@ + policy_label(policy) + "）："@ + detail
}

/// The decision after the project's confirmation points are applied.
pub open spec fn strategy_outcome(points: Seq<ConfirmationPolicy>, desired: StrategyDecision) -> StrategyDecision {
    match desired {
        StrategyDecision::AutoProceed => StrategyDecision::AutoProceed,
        StrategyDecision::RequireConfirmation(policy) => if points.contains(policy) {
            StrategyDecision::RequireConfirmation(policy)
        } else {
            StrategyDecision::AutoProceed
        },
    }
}

fn policy_label_text(policy: ConfirmationPolicy) -> (s: &'static str)
    ensures
        s@ == policy_label(policy),
{
    match policy {
        ConfirmationPolicy::ArchitectureDecision => "architecture_decision",
        ConfirmationPolicy::ExternalPush => "external_push",
        ConfirmationPolicy::DestructiveChange => "destructive_change",
        ConfirmationPolicy::HeavyInstall => "heavy_install",
        ConfirmationPolicy::RepeatedFailure => "repeated_failure",
    }
}

/// The message that asks a person to confirm under `policy`, with `detail`.
pub fn confirmation_message(policy: ConfirmationPolicy, detail: &str) -> (res: String)
    ensures
        res@ == confirmation_text(policy, detail@),
{
    let mut out = "需要人工确认（".to_string();
    out.append(policy_label_text(policy));
    out.append("）：");
    out.append(detail);
    out
}

/// Whether an item of `items` equals `message`.
fn holds_text(items: &Vec<String>, message: &String) -> (res: bool)
    ensures
        res == texts(items@).contains(message@),
{
    let mut i: usize = 0;
    while i < items.len()
        invariant
            i <= items.len(),
            forall|k: int| 0 <= k < i ==> items@[k]@ != message@,
        decreases items.len() - i,
    {
        if items[i] == *message {
            assert(texts(items@)[i as int] == message@);
            return true;
        }
        i = i + 1;
    }
    assert forall|k: int| 0 <= k < texts(items@).len() implies texts(items@)[k] != message@ by {
        assert(texts(items@)[k] == items@[k]@);
    }
    false
}

/// Queues `message` for confirmation unless an equal message is queued.
pub fn push_confirmation_once(state: &mut ManagedProjectState, message: String)
    ensures
        final(state)@ == with_confirmation(old(state)@, message@),
{
    if !holds_text(&state.pending_confirmation, &message) {
        let ghost items = texts(state.pending_confirmation@);
        state.pending_confirmation.push(message);
        assert(texts(state.pending_confirmation@) =~= items.push(message@));
    }
}

/// Whether the project lists `policy` among its confirmation points.
fn has_confirmation_point(config: &ManagedProjectConfig, policy: ConfirmationPolicy) -> (res: bool)
    ensures
        res == config.confirmation_points@.contains(policy),
{
    let mut i: usize = 0;
    while i < config.confirmation_points.len()
        invariant
            i <= config.confirmation_points.len(),
            forall|k: int| 0 <= k < i ==> config.confirmation_points@[k] != policy,
        decreases config.confirmation_points.len() - i,
    {
        if config.confirmation_points[i] == policy {
            return true;
        }
        i = i + 1;
    }
    false
}

/// Applies the project's confirmation points to a desired decision: a
/// request for confirmation stands only where the project lists its policy.
pub fn evaluate_confirmation_strategy(config: &ManagedProjectConfig, desired: StrategyDecision) -> (res: StrategyDecision)
    ensures
        res == strategy_outcome(config.confirmation_points@, desired),
{
    match desired {
        StrategyDecision::AutoProceed => StrategyDecision::AutoProceed,
        StrategyDecision::RequireConfirmation(policy) => {
            if has_confirmation_point(config, policy) {
                StrategyDecision::RequireConfirmation(policy)
            } else {
                StrategyDecision::AutoProceed
            }
        },
    }
}

/// Queuing a message twice is queuing it once.
pub proof fn lemma_push_once_idempotent(items: Seq<Seq<char>>, message: Seq<char>)
    ensures
        push_once(push_once(items, message), message) == push_once(items, message),
{
    if !items.contains(message) {
        assert(items.push(message)[items.len() as int] == message);
    }
}

/// A project's confirmation points decide: a request for confirmation
/// under a policy stands exactly where the project lists that policy, and
/// otherwise the action proceeds; an action that needs no confirmation
/// always proceeds.
pub proof fn lemma_points_decide(points: Seq<ConfirmationPolicy>, policy: ConfirmationPolicy)
    ensures
        points.contains(policy) ==> strategy_outcome(
            points,
            StrategyDecision::RequireConfirmation(policy),
        ) == StrategyDecision::RequireConfirmation(policy),
        !points.contains(policy) ==> strategy_outcome(
            points,
            StrategyDecision::RequireConfirmation(policy),
        ) == StrategyDecision::AutoProceed,
        strategy_outcome(points, StrategyDecision::AutoProceed) == StrategyDecision::AutoProceed,
{
}

/// Queuing drops and reorders nothing: what was queued before is a prefix
/// of the queue after, which holds the message and at most one item more.
pub proof fn lemma_push_once_extends(items: Seq<Seq<char>>, message: Seq<char>)
    ensures
        items.is_prefix_of(push_once(items, message)),
        push_once(items, message).len() <= items.len() + 1,
        push_once(items, message).contains(message),
{
    if !items.contains(message) {
        assert(items.push(message)[items.len() as int] == message);
        assert(items =~= items.push(message).subrange(0, items.len() as int));
    } else {
        assert(items =~= items.subrange(0, items.len() as int));
    }
}

/// Queuing keeps a queue free of duplicates, and the message is queued after.
pub proof fn lemma_push_once_no_duplicates(items: Seq<Seq<char>>, message: Seq<char>)
    requires
        items.no_duplicates(),
    ensures
        push_once(items, message).no_duplicates(),
        push_once(items, message).contains(message),
{
    if !items.contains(message) {
        let r = items.push(message);
        assert(r[items.len() as int] == message);
        assert forall|i: int, j: int| 0 <= i < r.len() && 0 <= j < r.len() && i != j implies r[i]
            != r[j] by {
            if i < items.len() && j < items.len() {
            } else if i == items.len() {
                assert(items[j] == r[j]);
            } else {
                assert(items[i] == r[i]);
            }
        }
    } else {
    }
}

/// A confirmation message names its policy, so a reader (or a report
/// trigger) can tell which kind of decision waits.
pub proof fn lemma_message_names_policy(policy: ConfirmationPolicy, detail: Seq<char>)
    ensures
        crate::text::seq_contains(confirmation_text(policy, detail), policy_label(policy)),
{
    reveal_strlit("需要人工确认（");
    assert("需要人工确认（"@.len() == 7);
    let msg = confirmation_text(policy, detail);
    let label = policy_label(policy);
    assert(msg.subrange(7int, 7int + label.len()) =~= label);
}

} // verus!
