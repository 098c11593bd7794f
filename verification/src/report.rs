//! Reports: when a project reports (round report points, a push waiting
//! for confirmation, a block, any other pending confirmation), what the
//! report holds, and how it reads as a message.
use vstd::prelude::*;

use crate::text::{
    any_holds, any_item_contains, decimal, decimal_text, lemma_without_marked_members, retain_unmarked,
    seq_contains, texts, without_marked,
};
use crate::types::{copy_texts, AutopilotStage, ManagedProjectState, ReportModel, StateModel, WorkflowReport};

verus! {

/// The marker of a round report point in a pending confirmation.
pub open spec fn round_marker() -> Seq<char> {
    "轮汇报点"@
}

/// The name of a stage in reports.
pub open spec fn stage_label(stage: AutopilotStage) -> Seq<char> {
    match stage {
        AutopilotStage::Plan => "Plan"@,
        AutopilotStage::Execute => "Execute"@,
        AutopilotStage::Verify => "Verify"@,
        AutopilotStage::BugScan => "BugScan"@,
        AutopilotStage::BugFix => "BugFix"@,
        AutopilotStage::DocSync => "DocSync"@,
        AutopilotStage::CommitPush => "CommitPush"@,
        AutopilotStage::Cooldown => "Cooldown"@,
        AutopilotStage::Blocked => "Blocked"@,
    }
}

/// Why a project with these pending confirmations reports, if it does:
/// a round report point first, then a push waiting for confirmation, then
/// a block, then any other pending confirmation.
pub open spec fn report_trigger(pending: Seq<Seq<char>>) -> Option<Seq<char>> {
    if any_holds(pending, round_marker()) {
        Some("every_ten_rounds"@)
    } else if any_holds(pending, "external_push"@) {
        Some("ready_to_push"@)
    } else if any_holds(pending, "blocked"@) {
        Some("blocked"@)
    } else if pending.len() > 0 {
        Some("key_event"@)
    } else {
        None
    }
}

/// The report of a project in state `m` for `trigger`.
pub open spec fn report_of(project_id: Seq<char>, trigger: Seq<char>, m: StateModel) -> ReportModel {
    ReportModel {
        project_id,
        trigger,
        iteration: m.loop_iteration,
        stage: stage_label(m.stage),
        summary: m.last_summary,
        focus: m.current_focus,
        confirmations: m.pending_confirmation,
    }
}

/// The state after reporting: round report points are answered.
pub open spec fn after_report(m: StateModel) -> StateModel {
    if any_holds(m.pending_confirmation, round_marker()) {
        StateModel {
            pending_confirmation: without_marked(m.pending_confirmation, round_marker()),
            ..m
        }
    } else {
        m
    }
}

/// The confirmation lines of a report message.
pub open spec fn confirmation_lines(items: Seq<Seq<char>>) -> Seq<char>
    decreases items.len(),
{
    if items.len() == 0 {
        Seq::empty()
    } else {
        confirmation_lines(items.drop_last()) + "\n- "@ + items.last()
    }
}

/// A report as a message for a person.
pub open spec fn report_text(r: ReportModel) -> Seq<char> {
    let head = "项目："@ + r.project_id + "\n触发："@ + r.trigger + "\n轮次："@ + decimal(
        r.iteration as nat,
    ) + "\n阶段："@ + r.stage + "\n摘要："@ + r.summary + "\n焦点："@ + r.focus;
    if r.confirmations.len() == 0 {
        head
    } else {
        head + "\n需确认："@ + confirmation_lines(r.confirmations)
    }
}

/// The name of `stage` in reports.
pub fn stage_name(stage: AutopilotStage) -> (s: &'static str)
    ensures
        s@ == stage_label(stage),
{
    match stage {
        AutopilotStage::Plan => "Plan",
        AutopilotStage::Execute => "Execute",
        AutopilotStage::Verify => "Verify",
        AutopilotStage::BugScan => "BugScan",
        AutopilotStage::BugFix => "BugFix",
        AutopilotStage::DocSync => "DocSync",
        AutopilotStage::CommitPush => "CommitPush",
        AutopilotStage::Cooldown => "Cooldown",
        AutopilotStage::Blocked => "Blocked",
    }
}

/// The report the project owes, if any, and the state after it: round
/// report points, once reported, leave the queue. Writing the report out
/// is the caller's.
pub fn maybe_write_report(project_id: &str, state: &mut ManagedProjectState) -> (res: Option<WorkflowReport>)
    ensures
        res is None <==> report_trigger(old(state)@.pending_confirmation) is None,
        res matches Some(r) ==> r@ == report_of(
            project_id@,
            report_trigger(old(state)@.pending_confirmation)->0,
            old(state)@,
        ),
        res matches Some(r) ==> r.iteration == old(state).loop_iteration && r.project_id@
            == project_id@ && r.summary@ == old(state).last_summary@,
        final(state)@ == after_report(old(state)@),
{
    let has_round_report = any_item_contains(&state.pending_confirmation, "轮汇报点");
    let has_ready_to_push = any_item_contains(&state.pending_confirmation, "external_push");
    let has_blocked = any_item_contains(&state.pending_confirmation, "blocked");
    let trigger = if has_round_report {
        "every_ten_rounds"
    } else if has_ready_to_push {
        "ready_to_push"
    } else if has_blocked {
        "blocked"
    } else if state.pending_confirmation.len() != 0 {
        "key_event"
    } else {
        return None;
    };
    let report = WorkflowReport {
        project_id: project_id.to_string(),
        trigger: trigger.to_string(),
        iteration: state.loop_iteration,
        stage: stage_name(state.stage).to_string(),
        summary: state.last_summary.clone(),
        focus: state.current_focus.clone(),
        confirmations: copy_texts(&state.pending_confirmation),
    };
    if has_round_report {
        retain_unmarked(&mut state.pending_confirmation, "轮汇报点");
    }
    Some(report)
}

/// The report as a message for a person: one line per field, then the
/// pending confirmations, if any.
pub fn render_report_message(report: &WorkflowReport) -> (msg: String)
    ensures
        msg@ == report_text(report@),
{
    let mut out = "项目：".to_string();
    out.append(report.project_id.as_str());
    out.append("\n触发：");
    out.append(report.trigger.as_str());
    out.append("\n轮次：");
    out.append(decimal_text(report.iteration).as_str());
    out.append("\n阶段：");
    out.append(report.stage.as_str());
    out.append("\n摘要：");
    out.append(report.summary.as_str());
    out.append("\n焦点：");
    out.append(report.focus.as_str());
    let ghost head = out@;
    if report.confirmations.len() != 0 {
        out.append("\n需确认：");
        let ghost start = out@;
        let ghost all = texts(report.confirmations@);
        let mut i: usize = 0;
        while i < report.confirmations.len()
            invariant
                i <= report.confirmations.len(),
                all == texts(report.confirmations@),
                out@ == start + confirmation_lines(all.take(i as int)),
            decreases report.confirmations.len() - i,
        {
            out.append("\n- ");
            out.append(report.confirmations[i].as_str());
            assert(all.take(i + 1).drop_last() =~= all.take(i as int));
            assert(all.take(i + 1).last() == report.confirmations@[i as int]@);
            assert(out@ =~= start + confirmation_lines(all.take(i + 1)));
            i = i + 1;
        }
        assert(all.take(report.confirmations.len() as int) =~= all);
    }
    out
}

/// A report speaks of the project as it stands when it is made: its id,
/// the round it has reached (not the next one due), its stage, summary and
/// focus, and every confirmation pending, in order.
pub proof fn lemma_report_describes_state(project_id: Seq<char>, trigger: Seq<char>, m: StateModel)
    ensures
        report_of(project_id, trigger, m).project_id == project_id,
        report_of(project_id, trigger, m).trigger == trigger,
        report_of(project_id, trigger, m).iteration == m.loop_iteration,
        report_of(project_id, trigger, m).stage == stage_label(m.stage),
        report_of(project_id, trigger, m).summary == m.last_summary,
        report_of(project_id, trigger, m).focus == m.current_focus,
        report_of(project_id, trigger, m).confirmations == m.pending_confirmation,
{
}

/// Why a project reports: a round report point wins over everything, then
/// a push waiting for confirmation, then a block, then any other pending
/// confirmation.
pub proof fn lemma_trigger_order(pending: Seq<Seq<char>>)
    ensures
        (exists|i: int| 0 <= i < pending.len() && crate::text::seq_contains(#[trigger] pending[i], "轮汇报点"@))
            ==> report_trigger(pending) == Some("every_ten_rounds"@),
        !(exists|i: int| 0 <= i < pending.len() && crate::text::seq_contains(#[trigger] pending[i], "轮汇报点"@))
            && (exists|i: int| 0 <= i < pending.len() && crate::text::seq_contains(#[trigger] pending[i], "external_push"@))
            ==> report_trigger(pending) == Some("ready_to_push"@),
        !(exists|i: int| 0 <= i < pending.len() && crate::text::seq_contains(#[trigger] pending[i], "轮汇报点"@))
            && !(exists|i: int| 0 <= i < pending.len() && crate::text::seq_contains(#[trigger] pending[i], "external_push"@))
            && (exists|i: int| 0 <= i < pending.len() && crate::text::seq_contains(#[trigger] pending[i], "blocked"@))
            ==> report_trigger(pending) == Some("blocked"@),
        !(exists|i: int| 0 <= i < pending.len() && crate::text::seq_contains(#[trigger] pending[i], "轮汇报点"@))
            && !(exists|i: int| 0 <= i < pending.len() && crate::text::seq_contains(#[trigger] pending[i], "external_push"@))
            && !(exists|i: int| 0 <= i < pending.len() && crate::text::seq_contains(#[trigger] pending[i], "blocked"@))
            && pending.len() > 0 ==> report_trigger(pending) == Some("key_event"@),
        pending.len() == 0 ==> report_trigger(pending) is None,
{
}

/// A project reports exactly when some confirmation is pending.
pub proof fn lemma_report_iff_pending(pending: Seq<Seq<char>>)
    ensures
        report_trigger(pending) is Some <==> pending.len() > 0,
{
}

proof fn lemma_without_marked_clean(items: Seq<Seq<char>>, marker: Seq<char>)
    ensures
        !any_holds(without_marked(items, marker), marker),
        without_marked(items, marker).len() <= items.len(),
    decreases items.len(),
{
    if items.len() > 0 {
        lemma_without_marked_clean(items.drop_last(), marker);
        let rest = without_marked(items.drop_last(), marker);
        if !crate::text::seq_contains(items.last(), marker) {
            assert forall|i: int| 0 <= i < rest.push(items.last()).len() implies !crate::text::seq_contains(
                #[trigger] rest.push(items.last())[i],
                marker,
            ) by {
                if i < rest.len() {
                    assert(rest.push(items.last())[i] == rest[i]);
                }
            }
        }
    }
}

/// A round report is made once: after it, no round report point is left,
/// so the next report, if any, has another trigger.
pub proof fn lemma_round_report_once(m: StateModel)
    ensures
        !any_holds(after_report(m).pending_confirmation, round_marker()),
        report_trigger(after_report(m).pending_confirmation) != Some("every_ten_rounds"@),
{
    lemma_without_marked_clean(m.pending_confirmation, round_marker());
    reveal_strlit("every_ten_rounds");
    reveal_strlit("ready_to_push");
    reveal_strlit("blocked");
    reveal_strlit("key_event");
    assert("every_ten_rounds"@.len() == 16);
    assert("ready_to_push"@.len() == 13);
    assert("blocked"@.len() == 7);
    assert("key_event"@.len() == 9);
}

/// Reporting answers the round report points and nothing else: after it,
/// a confirmation is pending if and only if it was pending before and is
/// no round report point.
pub proof fn lemma_report_answers_round_points(m: StateModel, x: Seq<char>)
    ensures
        after_report(m).pending_confirmation.contains(x) <==> (m.pending_confirmation.contains(x)
            && !seq_contains(x, "轮汇报点"@)),
{
    lemma_without_marked_members(m.pending_confirmation, round_marker(), x);
    if !any_holds(m.pending_confirmation, round_marker()) && m.pending_confirmation.contains(x) {
        let k = choose|k: int| 0 <= k < m.pending_confirmation.len() && m.pending_confirmation[k] == x;
        assert(!seq_contains(m.pending_confirmation[k], round_marker()));
    }
}

/// Reporting touches nothing but the round report points.
pub proof fn lemma_report_keeps_the_rest(m: StateModel)
    ensures
        after_report(m).loop_iteration == m.loop_iteration,
        after_report(m).stage == m.stage,
        after_report(m).next_report_at == m.next_report_at,
        after_report(m).last_summary == m.last_summary,
{
}

} // verus!
