//! The autopilot cycle: one step moves a project one stage around its loop
//! (plan, execute, verify, document sync, cooldown; the bug loop through
//! fix and commit; a block leads back to planning), given what the outside
//! work of the stage produced.
use vstd::prelude::*;

use crate::actions::{
    dispatch_fits, dispatch_top_suggestions, dispatched, outcomes_fit, top_count, with_executed,
    ActionOutcome,
};
use crate::confirm::{
    confirmation_message, push_once, confirmation_text, evaluate_confirmation_strategy,
    lemma_push_once_extends, lemma_push_once_no_duplicates, push_confirmation_once,
    strategy_outcome, with_confirmation,
};
use crate::report::round_marker;
use crate::suggest::{
    default_models, default_suggestions_for_stage, document_models, dynamic_models,
    refresh_dynamic_suggestions, refreshed,
};
use crate::text::{
    decimal, decimal_text, is_white_space, lemma_blank_trims_to_empty,
    lemma_without_marked_members, lemma_without_marked_no_duplicates, lowercase, retain_unmarked,
    trim_text, trimmed, without_marked,
};
use crate::types::{
    AutopilotStage, ConfirmationPolicy, ManagedProjectConfig, ManagedProjectState, StateModel,
    StrategyDecision, SuggestionModel, WorkflowDocumentContext,
};

verus! {

/// What the commit stage does with the working tree.
#[derive(Debug, Clone, PartialEq, Eq)]
pub enum CommitPlan {
    /// The working tree is clean.
    NothingToCommit,
    /// Commit locally with this message.
    Commit(String),
    /// Leave the changes and ask a person to confirm under this policy.
    AwaitConfirmation(ConfirmationPolicy),
}

/// The outside work one cycle step needs, by stage.
#[derive(Debug, Clone, Copy, PartialEq, Eq)]
pub struct StepNeeds {
    /// How many of the top suggestions to carry out.
    pub actions_to_dispatch: usize,
    /// Write a snapshot of the project.
    pub collect_snapshot: bool,
    /// Sync the status document.
    pub sync_docs: bool,
    /// Read the git status (short form), and commit where the plan says so.
    pub commit_guard: bool,
    /// Read the three planning documents.
    pub documents: bool,
}

/// What the outside work of one cycle step produced. A step reads only the
/// parts its stage needs.
#[derive(Debug)]
pub struct StepObservations {
    /// Execute: the outcomes of the dispatched actions that went through.
    pub actions: Vec<ActionOutcome>,
    /// Execute: the error that stopped the dispatch, if one did.
    pub action_failure: Option<anyhow::Error>,
    /// Verify: the snapshot's note; document sync: the sync's note; commit:
    /// the git status output.
    pub stage_work: Result<String, anyhow::Error>,
    /// Commit: the outcome of staging and committing, where the plan
    /// commits.
    pub commit: Result<(), anyhow::Error>,
    /// Plan, execute, cooldown and blocked: the planning documents.
    pub documents: Result<WorkflowDocumentContext, anyhow::Error>,
}

/// The stage that follows a step that went through.
pub open spec fn next_stage(stage: AutopilotStage) -> AutopilotStage {
    match stage {
        AutopilotStage::Plan => AutopilotStage::Execute,
        AutopilotStage::Execute => AutopilotStage::Verify,
        AutopilotStage::Verify => AutopilotStage::DocSync,
        AutopilotStage::BugScan => AutopilotStage::BugFix,
        AutopilotStage::BugFix => AutopilotStage::CommitPush,
        AutopilotStage::DocSync => AutopilotStage::Cooldown,
        AutopilotStage::CommitPush => AutopilotStage::Cooldown,
        AutopilotStage::Cooldown => AutopilotStage::Plan,
        AutopilotStage::Blocked => AutopilotStage::Plan,
    }
}

/// The outside work of a stage.
pub open spec fn needs_of(stage: AutopilotStage) -> (usize, bool, bool, bool, bool) {
    match stage {
        AutopilotStage::Plan => (0, false, false, false, true),
        AutopilotStage::Execute => (2, false, false, false, true),
        AutopilotStage::Verify => (0, true, false, false, false),
        AutopilotStage::BugScan => (0, false, false, false, false),
        AutopilotStage::BugFix => (0, false, false, false, false),
        AutopilotStage::DocSync => (0, false, true, false, false),
        AutopilotStage::CommitPush => (0, false, false, true, false),
        AutopilotStage::Cooldown => (0, false, false, false, true),
        AutopilotStage::Blocked => (0, false, false, false, true),
    }
}

/// The message of a local checkpoint commit.
pub open spec fn commit_message(iteration: u64) -> Seq<char> {
    "Autopilot checkpoint at iteration "@ + decimal(iteration as nat)
}

/// Whether the commit stage commits, for this git status output.
pub open spec fn commits(points: Seq<ConfirmationPolicy>, status: Seq<char>) -> bool {
    trimmed(status).len() > 0 && strategy_outcome(
        points,
        StrategyDecision::RequireConfirmation(ConfirmationPolicy::ExternalPush),
    ) == StrategyDecision::AutoProceed
}

/// The detail of the confirmation that holds back a push.
pub open spec fn push_hold_detail() -> Seq<char> {
    "检测到待提交改动；根据策略层，push 仍需人工确认，本轮不自动外发"@
}

/// The state after the commit stage's guard went through.
pub open spec fn guarded_state(m: StateModel, points: Seq<ConfirmationPolicy>, status: Seq<char>) -> StateModel {
    if trimmed(status).len() == 0 {
        m
    } else {
        match strategy_outcome(
            points,
            StrategyDecision::RequireConfirmation(ConfirmationPolicy::ExternalPush),
        ) {
            StrategyDecision::AutoProceed => with_confirmation(
                m,
                "已完成本地 commit；若需要 push，请人工确认外发"@,
            ),
            StrategyDecision::RequireConfirmation(p) => with_confirmation(
                m,
                confirmation_text(p, push_hold_detail()),
            ),
        }
    }
}

/// What the commit stage's guard reports when it went through.
pub open spec fn guarded_text(m: StateModel, points: Seq<ConfirmationPolicy>, status: Seq<char>) -> Seq<char> {
    if trimmed(status).len() == 0 {
        "commit_push 跳过：当前没有待提交改动"@
    } else {
        match strategy_outcome(
            points,
            StrategyDecision::RequireConfirmation(ConfirmationPolicy::ExternalPush),
        ) {
            StrategyDecision::AutoProceed => "已完成本地 commit："@ + commit_message(m.loop_iteration)
                + "；push 仍受人工确认门控"@,
            StrategyDecision::RequireConfirmation(_) => "策略层阻止自动 push；当前仅保留本地待提交改动与确认提示"@,
        }
    }
}

/// The state with new focus, objective and summary.
pub open spec fn texts3(m: StateModel, focus: Seq<char>, objective: Seq<char>, summary: Seq<char>) -> StateModel {
    StateModel { current_focus: focus, current_objective: objective, last_summary: summary, ..m }
}

/// The state at `stage` with these next suggestions.
pub open spec fn moved(m: StateModel, stage: AutopilotStage, next: Seq<SuggestionModel>) -> StateModel {
    StateModel { stage, next_suggestions: next, ..m }
}

/// The message of a round report point.
pub open spec fn round_message(iteration: u64) -> Seq<char> {
    "已达到第 "@ + decimal(iteration as nat) + " 轮汇报点，建议向用户汇报当前进展"@
}

/// Whether closing a round from `iteration` stays within the machine's
/// integers and the report interval is a real interval.
pub open spec fn round_closable(iteration: u64, every: u64) -> bool {
    &&& iteration < u64::MAX
    &&& every > 0
    &&& (iteration + 1) % (every as int) == 0 ==> iteration + 1 + every <= u64::MAX
}

/// The state after a round closes: one more iteration, and at every
/// `every`-th a round report point and the next report due.
pub open spec fn closed_round(m: StateModel, every: u64) -> StateModel {
    let it = (m.loop_iteration + 1) as u64;
    let a = StateModel { loop_iteration: it, ..m };
    if it > 0 && it % every == 0 {
        StateModel { next_report_at: (it + every) as u64, ..with_confirmation(a, round_message(it)) }
    } else {
        a
    }
}

/// The summary after the execute stage.
pub open spec fn execute_summary(count: nat) -> Seq<char> {
    "已完成 execute 阶段，已分发 "@ + decimal(count) + " 个动作"@
}

/// The objective of a blocked project.
pub open spec fn blocked_objective(reason: Seq<char>) -> Seq<char> {
    if reason.len() == 0 {
        "先识别阻塞，再回到 plan"@
    } else {
        "先处理阻塞原因："@ + reason
    }
}

/// The confirmation asked for before a block is lifted.
pub open spec fn blocked_confirmation(reason: Seq<char>) -> Seq<char> {
    "blocked 解除前请确认："@ + (if reason.len() == 0 {
        "当前阻塞原因未填写"@
    } else {
        reason
    })
}

/// The records the execute stage dispatches.
pub open spec fn execute_records(m: StateModel, actions: Seq<ActionOutcome>) -> Seq<crate::types::ActionModel> {
    dispatched(
        m.next_suggestions.take(top_count(m.next_suggestions.len(), 2) as int),
        actions,
    )
}

/// The state after a stage's own changes, before its suggestions are drawn
/// from the documents (for the stages that draw them).
pub open spec fn staged(m: StateModel, points: Seq<ConfirmationPolicy>, obs: StepObservations) -> StateModel {
    match m.stage {
        AutopilotStage::Plan => StateModel {
            stage: AutopilotStage::Execute,
            ..texts3(
                m,
                "对齐目标文档并生成本轮建议"@,
                "读取 VISION/CURRENT_DIRECTION/TODO 后确定前两项动作"@,
                "已完成 plan 阶段，生成下一阶段建议"@,
            )
        },
        AutopilotStage::Execute => {
            let recs = execute_records(m, obs.actions@);
            StateModel {
                stage: AutopilotStage::Verify,
                ..texts3(
                    with_executed(m, recs),
                    "执行建议前两项"@,
                    "完成当前最优先的两个动作并补最小必要验证"@,
                    execute_summary(recs.len()),
                )
            }
        },
        AutopilotStage::Verify => moved(
            texts3(
                m,
                "验证本轮结果并检查是否需要 bug 环"@,
                "完成测试、口径一致性检查与风险扫描"@,
                "已完成 verify 阶段，准备同步文档"@,
            ),
            AutopilotStage::DocSync,
            default_models(AutopilotStage::DocSync),
        ),
        AutopilotStage::BugScan => moved(
            with_confirmation(
                texts3(
                    m,
                    "进入 bug 环并锁定问题"@,
                    "优先定位最值得修复的问题"@,
                    "已完成 bug_scan，进入 bug_fix"@,
                ),
                "进入 bug 环：建议检查 flaky、warning、状态漂移并确认修复优先级"@,
            ),
            AutopilotStage::BugFix,
            default_models(AutopilotStage::BugFix),
        ),
        AutopilotStage::BugFix => moved(
            texts3(
                m,
                "修复 bug 并锁测试"@,
                "完成最小修复，准备提交"@,
                "已完成 bug_fix，准备 commit/push"@,
            ),
            AutopilotStage::CommitPush,
            default_models(AutopilotStage::CommitPush),
        ),
        AutopilotStage::DocSync => moved(
            texts3(
                m,
                "同步文档与当前阶段状态"@,
                "更新 TODO/STATUS/PROGRESS 与执行日志"@,
                "已完成 doc_sync，进入 cooldown"@,
            ),
            AutopilotStage::Cooldown,
            default_models(AutopilotStage::Cooldown),
        ),
        AutopilotStage::CommitPush => {
            let status = obs.stage_work->Ok_0@;
            moved(
                texts3(
                    guarded_state(m, points, status),
                    "提交当前稳定成果"@,
                    "commit 当前轮结果，并按条件评估 push"@,
                    guarded_text(m, points, status),
                ),
                AutopilotStage::Cooldown,
                default_models(AutopilotStage::Cooldown),
            )
        },
        AutopilotStage::Cooldown => StateModel {
            stage: AutopilotStage::Plan,
            pending_confirmation: without_marked(m.pending_confirmation, round_marker()),
            ..texts3(
                m,
                "冷却并准备下一轮"@,
                "结束当前小循环，回到 plan"@,
                "已完成 cooldown，下一轮重新进入 plan"@,
            )
        },
        AutopilotStage::Blocked => StateModel {
            stage: AutopilotStage::Plan,
            ..with_confirmation(
                texts3(
                    m,
                    "解除阻塞"@,
                    blocked_objective(m.blocked_reason),
                    "blocked 已切回 plan，等待恢复推进"@,
                ),
                blocked_confirmation(m.blocked_reason),
            )
        },
    }
}

/// Whether the stage draws its next suggestions from the documents.
pub open spec fn draws_documents(stage: AutopilotStage) -> bool {
    stage == AutopilotStage::Plan || stage == AutopilotStage::Execute || stage
        == AutopilotStage::Cooldown || stage == AutopilotStage::Blocked
}

/// The error that stops a step, if any: the stage's own outside work fails
/// first; then, for the stages that draw suggestions, reading the documents.
pub open spec fn step_failure(m: StateModel, points: Seq<ConfirmationPolicy>, obs: StepObservations) -> Option<anyhow::Error> {
    match m.stage {
        AutopilotStage::Execute => if obs.action_failure is Some {
            obs.action_failure
        } else if obs.documents is Err {
            Some(obs.documents->Err_0)
        } else {
            None
        },
        AutopilotStage::Verify | AutopilotStage::DocSync => if obs.stage_work is Err {
            Some(obs.stage_work->Err_0)
        } else {
            None
        },
        AutopilotStage::CommitPush => if obs.stage_work is Err {
            Some(obs.stage_work->Err_0)
        } else if commits(points, obs.stage_work->Ok_0@) && obs.commit is Err {
            Some(obs.commit->Err_0)
        } else {
            None
        },
        AutopilotStage::BugScan | AutopilotStage::BugFix => None,
        _ => if obs.documents is Err {
            Some(obs.documents->Err_0)
        } else {
            None
        },
    }
}

/// Whether a failure leaves the stage's own changes in place: it does
/// where the documents are read after them.
pub open spec fn fails_after_changes(m: StateModel, obs: StepObservations) -> bool {
    draws_documents(m.stage) && !(m.stage == AutopilotStage::Execute && obs.action_failure is Some)
}

/// The state after one step.
pub open spec fn step_state(m: StateModel, points: Seq<ConfirmationPolicy>, every: u64, obs: StepObservations) -> StateModel {
    if step_failure(m, points, obs) is Some {
        if fails_after_changes(m, obs) {
            staged(m, points, obs)
        } else {
            m
        }
    } else if draws_documents(m.stage) {
        let d = obs.documents->Ok_0;
        closed_round(
            refreshed(staged(m, points, obs), d.todo@, d.current_direction@, d.vision@),
            every,
        )
    } else {
        closed_round(staged(m, points, obs), every)
    }
}

/// Whether a step can be taken on these observations: the execute stage's
/// outcomes fit the top two suggestions, and a step that goes through can
/// close its round.
pub open spec fn step_admissible(config: ManagedProjectConfig, m: StateModel, obs: StepObservations) -> bool {
    let points = config.confirmation_points@;
    let every = config.report_every_rounds;
    &&& m.stage == AutopilotStage::Execute ==> dispatch_fits(
        config,
        m.next_suggestions,
        2,
        obs.actions@,
        obs.action_failure is Some,
    )
    &&& step_failure(m, points, obs) is None ==> round_closable(m.loop_iteration, every)
}

/// The outside work `stage` needs before its step can be taken.
pub fn step_needs(stage: AutopilotStage) -> (n: StepNeeds)
    ensures
        (n.actions_to_dispatch, n.collect_snapshot, n.sync_docs, n.commit_guard, n.documents)
            == needs_of(stage),
{
    let (a, c, s, g, d) = match stage {
        AutopilotStage::Plan => (0, false, false, false, true),
        AutopilotStage::Execute => (2, false, false, false, true),
        AutopilotStage::Verify => (0, true, false, false, false),
        AutopilotStage::BugScan => (0, false, false, false, false),
        AutopilotStage::BugFix => (0, false, false, false, false),
        AutopilotStage::DocSync => (0, false, true, false, false),
        AutopilotStage::CommitPush => (0, false, false, true, false),
        AutopilotStage::Cooldown => (0, false, false, false, true),
        AutopilotStage::Blocked => (0, false, false, false, true),
    };
    StepNeeds { actions_to_dispatch: a, collect_snapshot: c, sync_docs: s, commit_guard: g, documents: d }
}

/// What the commit stage does given the git status output: nothing on a
/// clean tree; otherwise commit, unless the project asks to confirm
/// external pushes.
pub fn commit_guard_plan(config: &ManagedProjectConfig, state: &ManagedProjectState, git_status: &str) -> (plan: CommitPlan)
    ensures
        trimmed(git_status@).len() == 0 ==> plan is NothingToCommit,
        trimmed(git_status@).len() > 0 ==> match strategy_outcome(
            config.confirmation_points@,
            StrategyDecision::RequireConfirmation(ConfirmationPolicy::ExternalPush),
        ) {
            StrategyDecision::AutoProceed => plan matches CommitPlan::Commit(msg) && msg@
                == commit_message(state.loop_iteration),
            StrategyDecision::RequireConfirmation(p) => plan == CommitPlan::AwaitConfirmation(p),
        },
{
    let t = trim_text(git_status);
    if t.as_str().is_empty() {
        return CommitPlan::NothingToCommit;
    }
    match evaluate_confirmation_strategy(
        config,
        StrategyDecision::RequireConfirmation(ConfirmationPolicy::ExternalPush),
    ) {
        StrategyDecision::AutoProceed => {
            let mut message = "Autopilot checkpoint at iteration ".to_string();
            message.append(decimal_text(state.loop_iteration).as_str());
            CommitPlan::Commit(message)
        },
        StrategyDecision::RequireConfirmation(policy) => CommitPlan::AwaitConfirmation(policy),
    }
}

/// The commit stage's guard, given the git status output and the outcome
/// of the commit where the plan made one: a clean tree is skipped; a
/// commit that went through queues a reminder that pushing needs a person;
/// a held push queues a confirmation under its policy. A failed commit
/// leaves the state as it was.
pub fn run_commit_guarded(
    config: &ManagedProjectConfig,
    state: &mut ManagedProjectState,
    git_status: &str,
    commit_outcome: Result<(), anyhow::Error>,
) -> (res: Result<String, anyhow::Error>)
    ensures
        commits(config.confirmation_points@, git_status@) && commit_outcome is Err ==> res
            == Err::<String, anyhow::Error>(commit_outcome->Err_0) && final(state)@ == old(
            state,
        )@,
        !(commits(config.confirmation_points@, git_status@) && commit_outcome is Err) ==> (res matches Ok(
            t,
        ) && t@ == guarded_text(old(state)@, config.confirmation_points@, git_status@))
            && final(state)@ == guarded_state(
            old(state)@,
            config.confirmation_points@,
            git_status@,
        ),
{
    match commit_guard_plan(config, state, git_status) {
        CommitPlan::NothingToCommit => Ok("commit_push 跳过：当前没有待提交改动".to_string()),
        CommitPlan::Commit(message) => {
            if let Err(err) = commit_outcome {
                return Err(err);
            }
            push_confirmation_once(state, "已完成本地 commit；若需要 push，请人工确认外发".to_string());
            let mut out = "已完成本地 commit：".to_string();
            out.append(message.as_str());
            out.append("；push 仍受人工确认门控");
            Ok(out)
        },
        CommitPlan::AwaitConfirmation(policy) => {
            let note = confirmation_message(
                policy,
                "检测到待提交改动；根据策略层，push 仍需人工确认，本轮不自动外发",
            );
            push_confirmation_once(state, note);
            Ok("策略层阻止自动 push；当前仅保留本地待提交改动与确认提示".to_string())
        },
    }
}

/// Whether the commit stage commits, for this git status output.
pub fn will_commit(config: &ManagedProjectConfig, git_status: &str) -> (res: bool)
    ensures
        res == commits(config.confirmation_points@, git_status@),
{
    let t = trim_text(git_status);
    if t.as_str().is_empty() {
        return false;
    }
    match evaluate_confirmation_strategy(
        config,
        StrategyDecision::RequireConfirmation(ConfirmationPolicy::ExternalPush),
    ) {
        StrategyDecision::AutoProceed => true,
        StrategyDecision::RequireConfirmation(_) => false,
    }
}

/// Whether a step on these observations fails.
pub fn step_fails(config: &ManagedProjectConfig, state: &ManagedProjectState, obs: &StepObservations) -> (res: bool)
    ensures
        res == step_failure(state@, config.confirmation_points@, *obs) is Some,
{
    match state.stage {
        AutopilotStage::Execute => obs.action_failure.is_some() || obs.documents.is_err(),
        AutopilotStage::Verify | AutopilotStage::DocSync => obs.stage_work.is_err(),
        AutopilotStage::CommitPush => match &obs.stage_work {
            Err(_) => true,
            Ok(status) => will_commit(config, status.as_str()) && obs.commit.is_err(),
        },
        AutopilotStage::BugScan | AutopilotStage::BugFix => false,
        AutopilotStage::Plan | AutopilotStage::Cooldown | AutopilotStage::Blocked => obs.documents.is_err(),
    }
}

/// Whether a round can close from `iteration` (see [`round_closable`]).
pub fn round_is_closable(iteration: u64, every: u64) -> (res: bool)
    ensures
        res == round_closable(iteration, every),
{
    if iteration == u64::MAX || every == 0 {
        return false;
    }
    let it = iteration + 1;
    if it % every == 0 {
        it <= u64::MAX - every
    } else {
        true
    }
}

fn set_texts(state: &mut ManagedProjectState, focus: &str, objective: String, summary: String)
    ensures
        final(state)@ == texts3(old(state)@, focus@, objective@, summary@),
{
    state.current_focus = focus.to_string();
    state.current_objective = objective;
    state.last_summary = summary;
}

fn set_stage_defaults(state: &mut ManagedProjectState, stage: AutopilotStage)
    ensures
        final(state)@ == moved(old(state)@, stage, default_models(stage)),
{
    state.stage = stage;
    state.next_suggestions = default_suggestions_for_stage(stage);
}

/// Closes the round: one more iteration, and at every
/// `report_every_rounds`-th a round report point and the next report due.
fn close_round(config: &ManagedProjectConfig, state: &mut ManagedProjectState)
    requires
        round_closable(old(state).loop_iteration, config.report_every_rounds),
    ensures
        final(state)@ == closed_round(old(state)@, config.report_every_rounds),
{
    state.loop_iteration = state.loop_iteration + 1;
    if state.loop_iteration > 0 && state.loop_iteration % config.report_every_rounds == 0 {
        let mut message = "已达到第 ".to_string();
        message.append(decimal_text(state.loop_iteration).as_str());
        message.append(" 轮汇报点，建议向用户汇报当前进展");
        push_confirmation_once(state, message);
        state.next_report_at = state.loop_iteration + config.report_every_rounds;
    }
}

/// Draws the next suggestions from the documents, or fails with their
/// error.
fn refresh_or_fail(docs: Result<WorkflowDocumentContext, anyhow::Error>, state: &mut ManagedProjectState) -> (res: Result<(), anyhow::Error>)
    ensures
        docs is Err ==> res == Err::<(), anyhow::Error>(docs->Err_0) && final(state)@ == old(state)@,
        docs is Ok ==> res is Ok && final(state)@ == refreshed(
            old(state)@,
            docs->Ok_0.todo@,
            docs->Ok_0.current_direction@,
            docs->Ok_0.vision@,
        ),
{
    match docs {
        Ok(ctx) => {
            refresh_dynamic_suggestions(&ctx, state);
            Ok(())
        },
        Err(err) => Err(err),
    }
}

/// Takes one step around the loop, given what the stage's outside work
/// produced (see [`step_needs`]). A step that goes through moves the
/// project to the next stage and closes the round; one whose outside work
/// failed returns that error, with the stage's own changes kept only where
/// the documents are read after them.
pub fn run_minimal_cycle_step(
    config: &ManagedProjectConfig,
    state: &mut ManagedProjectState,
    obs: StepObservations,
) -> (res: Result<(), anyhow::Error>)
    requires
        step_admissible(*config, old(state)@, obs),
    ensures
        res is Err <==> step_failure(old(state)@, config.confirmation_points@, obs) is Some,
        res is Err ==> res == Err::<(), anyhow::Error>(
            step_failure(old(state)@, config.confirmation_points@, obs)->0,
        ),
        final(state)@ == step_state(
            old(state)@,
            config.confirmation_points@,
            config.report_every_rounds,
            obs,
        ),
{
    let ghost m = state@;
    let ghost points = config.confirmation_points@;
    let ghost o = obs;
    match state.stage {
        AutopilotStage::Plan => {
            set_texts(
                state,
                "对齐目标文档并生成本轮建议",
                "读取 VISION/CURRENT_DIRECTION/TODO 后确定前两项动作".to_string(),
                "已完成 plan 阶段，生成下一阶段建议".to_string(),
            );
            state.stage = AutopilotStage::Execute;
            assert(state@ == staged(m, points, o));
            refresh_or_fail(obs.documents, state)?;
        },
        AutopilotStage::Execute => {
            let executed = dispatch_top_suggestions(config, state, 2, &obs.actions, obs.action_failure)?;
            let mut summary = "已完成 execute 阶段，已分发 ".to_string();
            summary.append(decimal_text(executed.len() as u64).as_str());
            summary.append(" 个动作");
            set_texts(
                state,
                "执行建议前两项",
                "完成当前最优先的两个动作并补最小必要验证".to_string(),
                summary,
            );
            state.stage = AutopilotStage::Verify;
            assert(state@ == staged(m, points, o));
            refresh_or_fail(obs.documents, state)?;
        },
        AutopilotStage::Verify => {
            obs.stage_work?;
            set_texts(
                state,
                "验证本轮结果并检查是否需要 bug 环",
                "完成测试、口径一致性检查与风险扫描".to_string(),
                "已完成 verify 阶段，准备同步文档".to_string(),
            );
            set_stage_defaults(state, AutopilotStage::DocSync);
        },
        AutopilotStage::BugScan => {
            set_texts(
                state,
                "进入 bug 环并锁定问题",
                "优先定位最值得修复的问题".to_string(),
                "已完成 bug_scan，进入 bug_fix".to_string(),
            );
            push_confirmation_once(
                state,
                "进入 bug 环：建议检查 flaky、warning、状态漂移并确认修复优先级".to_string(),
            );
            set_stage_defaults(state, AutopilotStage::BugFix);
        },
        AutopilotStage::BugFix => {
            set_texts(
                state,
                "修复 bug 并锁测试",
                "完成最小修复，准备提交".to_string(),
                "已完成 bug_fix，准备 commit/push".to_string(),
            );
            set_stage_defaults(state, AutopilotStage::CommitPush);
        },
        AutopilotStage::DocSync => {
            obs.stage_work?;
            set_texts(
                state,
                "同步文档与当前阶段状态",
                "更新 TODO/STATUS/PROGRESS 与执行日志".to_string(),
                "已完成 doc_sync，进入 cooldown".to_string(),
            );
            set_stage_defaults(state, AutopilotStage::Cooldown);
        },
        AutopilotStage::CommitPush => {
            let status = obs.stage_work?;
            let commit_result = run_commit_guarded(config, state, status.as_str(), obs.commit)?;
            set_texts(
                state,
                "提交当前稳定成果",
                "commit 当前轮结果，并按条件评估 push".to_string(),
                commit_result,
            );
            set_stage_defaults(state, AutopilotStage::Cooldown);
        },
        AutopilotStage::Cooldown => {
            set_texts(
                state,
                "冷却并准备下一轮",
                "结束当前小循环，回到 plan".to_string(),
                "已完成 cooldown，下一轮重新进入 plan".to_string(),
            );
            retain_unmarked(&mut state.pending_confirmation, "轮汇报点");
            state.stage = AutopilotStage::Plan;
            assert(state@ == staged(m, points, o));
            refresh_or_fail(obs.documents, state)?;
        },
        AutopilotStage::Blocked => {
            let objective = if state.blocked_reason.as_str().is_empty() {
                "先识别阻塞，再回到 plan".to_string()
            } else {
                let mut t = "先处理阻塞原因：".to_string();
                t.append(state.blocked_reason.as_str());
                t
            };
            set_texts(state, "解除阻塞", objective, "blocked 已切回 plan，等待恢复推进".to_string());
            let mut message = "blocked 解除前请确认：".to_string();
            if state.blocked_reason.as_str().is_empty() {
                message.append("当前阻塞原因未填写");
            } else {
                message.append(state.blocked_reason.as_str());
            }
            push_confirmation_once(state, message);
            state.stage = AutopilotStage::Plan;
            assert(state@ == staged(m, points, o));
            refresh_or_fail(obs.documents, state)?;
        },
    }
    close_round(config, state);
    Ok(())
}

/// Takes one step where it can be taken (see [`step_admissible`]): the
/// execute stage's outcomes must fit its top two suggestions, and a step
/// that goes through must be able to close its round. Where it cannot be
/// taken, nothing changes and there is no result.
pub fn take_cycle_step(
    config: &ManagedProjectConfig,
    state: &mut ManagedProjectState,
    obs: StepObservations,
) -> (res: Option<Result<(), anyhow::Error>>)
    ensures
        !step_admissible(*config, old(state)@, obs)
            ==> res is None && final(state)@ == old(state)@,
        step_admissible(*config, old(state)@, obs)
            ==> {
            &&& res matches Some(r)
            &&& (r is Err <==> step_failure(old(state)@, config.confirmation_points@, obs) is Some)
            &&& r is Err ==> r == Err::<(), anyhow::Error>(
                step_failure(old(state)@, config.confirmation_points@, obs)->0,
            )
            &&& final(state)@ == step_state(
                old(state)@,
                config.confirmation_points@,
                config.report_every_rounds,
                obs,
            )
        },
{
    if state.stage == AutopilotStage::Execute && !outcomes_fit(
        config,
        state,
        2,
        &obs.actions,
        obs.action_failure.is_some(),
    ) {
        return None;
    }
    if !step_fails(config, state, &obs) && !round_is_closable(
        state.loop_iteration,
        config.report_every_rounds,
    ) {
        return None;
    }
    Some(run_minimal_cycle_step(config, state, obs))
}

/// A step that goes through moves the project to the next stage of its
/// loop, and, where the round count has room, closes one round.
pub proof fn lemma_step_advances(m: StateModel, points: Seq<ConfirmationPolicy>, every: u64, obs: StepObservations)
    requires
        step_failure(m, points, obs) is None,
    ensures
        step_state(m, points, every, obs).stage == next_stage(m.stage),
        m.loop_iteration < u64::MAX ==> step_state(m, points, every, obs).loop_iteration
            == m.loop_iteration + 1,
{
}

/// What a step leaves alone: the project's identity and settings, the
/// blocked reason, the pause and hold, the failure tracking; the last
/// executed actions outside the execute stage; and a queue of
/// confirmations free of duplicates stays so.
pub proof fn lemma_step_frame(m: StateModel, points: Seq<ConfirmationPolicy>, every: u64, obs: StepObservations)
    ensures
        step_state(m, points, every, obs).project_id == m.project_id,
        step_state(m, points, every, obs).default_execute == m.default_execute,
        step_state(m, points, every, obs).collect_data == m.collect_data,
        step_state(m, points, every, obs).blocked_reason == m.blocked_reason,
        step_state(m, points, every, obs).paused == m.paused,
        step_state(m, points, every, obs).manual_hold_reason == m.manual_hold_reason,
        step_state(m, points, every, obs).consecutive_failures == m.consecutive_failures,
        step_state(m, points, every, obs).last_error == m.last_error,
        step_state(m, points, every, obs).last_error_category == m.last_error_category,
        step_state(m, points, every, obs).recovery_hint == m.recovery_hint,
        step_state(m, points, every, obs).last_failure_at_ms == m.last_failure_at_ms,
        step_state(m, points, every, obs).cooldown_until_ms == m.cooldown_until_ms,
        m.stage != AutopilotStage::Execute ==> step_state(m, points, every, obs).last_executed_actions
            == m.last_executed_actions,
        m.pending_confirmation.no_duplicates() ==> step_state(
            m,
            points,
            every,
            obs,
        ).pending_confirmation.no_duplicates(),
{
    let p = m.pending_confirmation;
    if p.no_duplicates() {
        let st = staged(m, points, obs);
        // the stage's own changes keep the queue free of duplicates
        match m.stage {
            AutopilotStage::BugScan => {
                lemma_push_once_no_duplicates(
                    p,
                    "进入 bug 环：建议检查 flaky、warning、状态漂移并确认修复优先级"@,
                );
            },
            AutopilotStage::Blocked => {
                lemma_push_once_no_duplicates(p, blocked_confirmation(m.blocked_reason));
            },
            AutopilotStage::Cooldown => {
                lemma_without_marked_no_duplicates(p, round_marker());
            },
            AutopilotStage::CommitPush => {
                if obs.stage_work is Ok {
                    let status = obs.stage_work->Ok_0@;
                    lemma_push_once_no_duplicates(p, "已完成本地 commit；若需要 push，请人工确认外发"@);
                    match strategy_outcome(
                        points,
                        StrategyDecision::RequireConfirmation(ConfirmationPolicy::ExternalPush),
                    ) {
                        StrategyDecision::RequireConfirmation(q) => {
                            lemma_push_once_no_duplicates(p, confirmation_text(q, push_hold_detail()));
                        },
                        _ => {},
                    }
                }
            },
            _ => {},
        }
        assert(st.pending_confirmation.no_duplicates());
        let it = (m.loop_iteration + 1) as u64;
        lemma_push_once_no_duplicates(st.pending_confirmation, round_message(it));
    }
}

/// The suggestions a step that goes through leaves are those of the stage
/// it moves to: after planning, executing, cooling down or a block they
/// are drawn from the (lowercased) documents for the new stage (execute,
/// verify, plan, plan), so a plan step with no keyword in the documents
/// leaves the execute stage's fixed list; after the other stages they are
/// the new stage's fixed list.
pub proof fn lemma_step_suggestions_follow_new_stage(m: StateModel, points: Seq<ConfirmationPolicy>, every: u64, obs: StepObservations)
    requires
        step_failure(m, points, obs) is None,
    ensures
        m.stage == AutopilotStage::Plan ==> step_state(m, points, every, obs).next_suggestions
            == dynamic_models(
            AutopilotStage::Execute,
            lowercase(obs.documents->Ok_0.todo@),
            lowercase(obs.documents->Ok_0.current_direction@),
            lowercase(obs.documents->Ok_0.vision@),
        ),
        m.stage == AutopilotStage::Plan && document_models(
            lowercase(obs.documents->Ok_0.todo@),
            lowercase(obs.documents->Ok_0.current_direction@),
            lowercase(obs.documents->Ok_0.vision@),
        ).len() == 0 ==> step_state(m, points, every, obs).next_suggestions == default_models(
            AutopilotStage::Execute,
        ),
        m.stage == AutopilotStage::Execute ==> step_state(m, points, every, obs).next_suggestions
            == dynamic_models(
            AutopilotStage::Verify,
            lowercase(obs.documents->Ok_0.todo@),
            lowercase(obs.documents->Ok_0.current_direction@),
            lowercase(obs.documents->Ok_0.vision@),
        ),
        m.stage == AutopilotStage::Cooldown || m.stage == AutopilotStage::Blocked
            ==> step_state(m, points, every, obs).next_suggestions == dynamic_models(
            AutopilotStage::Plan,
            lowercase(obs.documents->Ok_0.todo@),
            lowercase(obs.documents->Ok_0.current_direction@),
            lowercase(obs.documents->Ok_0.vision@),
        ),
        m.stage == AutopilotStage::Verify ==> step_state(m, points, every, obs).next_suggestions
            == default_models(AutopilotStage::DocSync),
        m.stage == AutopilotStage::BugScan ==> step_state(m, points, every, obs).next_suggestions
            == default_models(AutopilotStage::BugFix),
        m.stage == AutopilotStage::BugFix ==> step_state(m, points, every, obs).next_suggestions
            == default_models(AutopilotStage::CommitPush),
        m.stage == AutopilotStage::DocSync || m.stage == AutopilotStage::CommitPush
            ==> step_state(m, points, every, obs).next_suggestions == default_models(
            AutopilotStage::Cooldown,
        ),
{
}

/// A step keeps every pending confirmation, in order, except at cooldown,
/// which answers the round report points: the old queue is a prefix of the
/// new one, which grows by at most two requests (the stage's own and a
/// round report point).
pub proof fn lemma_step_keeps_pending(m: StateModel, points: Seq<ConfirmationPolicy>, every: u64, obs: StepObservations)
    requires
        m.stage != AutopilotStage::Cooldown,
    ensures
        m.pending_confirmation.is_prefix_of(step_state(m, points, every, obs).pending_confirmation),
        step_state(m, points, every, obs).pending_confirmation.len() <= m.pending_confirmation.len()
            + 2,
{
    let p = m.pending_confirmation;
    let st = staged(m, points, obs);
    assert(p =~= p.subrange(0, p.len() as int));
    match m.stage {
        AutopilotStage::BugScan => {
            lemma_push_once_extends(
                p,
                "进入 bug 环：建议检查 flaky、warning、状态漂移并确认修复优先级"@,
            );
        },
        AutopilotStage::Blocked => {
            lemma_push_once_extends(p, blocked_confirmation(m.blocked_reason));
        },
        AutopilotStage::CommitPush => {
            lemma_push_once_extends(p, "已完成本地 commit；若需要 push，请人工确认外发"@);
            match strategy_outcome(
                points,
                StrategyDecision::RequireConfirmation(ConfirmationPolicy::ExternalPush),
            ) {
                StrategyDecision::RequireConfirmation(q) => {
                    lemma_push_once_extends(p, confirmation_text(q, push_hold_detail()));
                },
                _ => {},
            }
        },
        _ => {},
    }
    let q = st.pending_confirmation;
    assert(p.is_prefix_of(q));
    assert(q.len() <= p.len() + 1);
    let it = (m.loop_iteration + 1) as u64;
    lemma_push_once_extends(q, round_message(it));
    let r = push_once(q, round_message(it));
    assert(p =~= r.subrange(0, p.len() as int)) by {
        assert forall|i: int| 0 <= i < p.len() implies p[i] == r[i] by {
            assert(q.subrange(0, p.len() as int)[i] == q[i]);
            assert(r.subrange(0, q.len() as int)[i] == r[i]);
        }
    }
}

/// Where a step goes through, the project moves along its loop: plan to
/// execute, execute to verify, verify to document sync, document sync to
/// cooldown, cooldown to plan; bug scan to bug fix, bug fix to commit,
/// commit to cooldown; a block back to plan.
pub proof fn lemma_step_stage_table(m: StateModel, points: Seq<ConfirmationPolicy>, every: u64, obs: StepObservations)
    requires
        step_failure(m, points, obs) is None,
    ensures
        m.stage == AutopilotStage::Plan ==> step_state(m, points, every, obs).stage
            == AutopilotStage::Execute,
        m.stage == AutopilotStage::Execute ==> step_state(m, points, every, obs).stage
            == AutopilotStage::Verify,
        m.stage == AutopilotStage::Verify ==> step_state(m, points, every, obs).stage
            == AutopilotStage::DocSync,
        m.stage == AutopilotStage::DocSync ==> step_state(m, points, every, obs).stage
            == AutopilotStage::Cooldown,
        m.stage == AutopilotStage::Cooldown ==> step_state(m, points, every, obs).stage
            == AutopilotStage::Plan,
        m.stage == AutopilotStage::BugScan ==> step_state(m, points, every, obs).stage
            == AutopilotStage::BugFix,
        m.stage == AutopilotStage::BugFix ==> step_state(m, points, every, obs).stage
            == AutopilotStage::CommitPush,
        m.stage == AutopilotStage::CommitPush ==> step_state(m, points, every, obs).stage
            == AutopilotStage::Cooldown,
        m.stage == AutopilotStage::Blocked ==> step_state(m, points, every, obs).stage
            == AutopilotStage::Plan,
{
}

/// Where the project does not ask to confirm external pushes, pending
/// changes are committed locally with the checkpoint message of the
/// round, and a reminder that pushing needs a person is queued.
pub proof fn lemma_commit_without_push_point(m: StateModel, points: Seq<ConfirmationPolicy>, status: Seq<char>)
    requires
        !points.contains(ConfirmationPolicy::ExternalPush),
        trimmed(status).len() > 0,
    ensures
        commits(points, status),
        guarded_state(m, points, status).pending_confirmation.contains(
            "已完成本地 commit；若需要 push，请人工确认外发"@,
        ),
        guarded_text(m, points, status) == "已完成本地 commit："@ + "Autopilot checkpoint at iteration "@
            + decimal(m.loop_iteration as nat) + "；push 仍受人工确认门控"@,
{
    lemma_push_once_extends(m.pending_confirmation, "已完成本地 commit；若需要 push，请人工确认外发"@);
}

/// A cooldown step answers the round report points and keeps every other
/// pending confirmation.
pub proof fn lemma_cooldown_answers_round_points(m: StateModel, points: Seq<ConfirmationPolicy>, every: u64, obs: StepObservations, x: Seq<char>)
    requires
        m.stage == AutopilotStage::Cooldown,
        m.pending_confirmation.contains(x),
        !crate::text::seq_contains(x, "轮汇报点"@),
    ensures
        step_state(m, points, every, obs).pending_confirmation.contains(x),
{
    lemma_without_marked_members(m.pending_confirmation, round_marker(), x);
    let q = without_marked(m.pending_confirmation, round_marker());
    let it = (m.loop_iteration + 1) as u64;
    lemma_push_once_extends(q, round_message(it));
    let r = push_once(q, round_message(it));
    let j = choose|j: int| 0 <= j < q.len() && q[j] == x;
    assert(r.subrange(0, q.len() as int)[j] == r[j]);
    assert(r[j] == x);
}

/// A step that closes a round which is no report point adds no round
/// report point and leaves the next report where it was due.
pub proof fn lemma_ordinary_round(m: StateModel, points: Seq<ConfirmationPolicy>, every: u64, obs: StepObservations)
    requires
        step_failure(m, points, obs) is None,
        round_closable(m.loop_iteration, every),
        (m.loop_iteration + 1) % (every as int) != 0,
    ensures
        step_state(m, points, every, obs).next_report_at == m.next_report_at,
        step_state(m, points, every, obs).loop_iteration == m.loop_iteration + 1,
        step_state(m, points, every, obs).pending_confirmation == staged(m, points, obs).pending_confirmation,
{
}

/// A git status of white space alone means nothing to commit: the commit
/// stage's guard changes nothing and reports the skip.
pub proof fn lemma_blank_status_commits_nothing(m: StateModel, points: Seq<ConfirmationPolicy>, status: Seq<char>)
    requires
        forall|i: int| 0 <= i < status.len() ==> is_white_space(#[trigger] status[i]),
    ensures
        !commits(points, status),
        guarded_state(m, points, status) == m,
        guarded_text(m, points, status) == "commit_push 跳过：当前没有待提交改动"@,
{
    lemma_blank_trims_to_empty(status);
}

/// A failed step closes no round; where the stage's own outside work
/// failed before any change, nothing changes at all.
pub proof fn lemma_failed_step_keeps_round(m: StateModel, points: Seq<ConfirmationPolicy>, every: u64, obs: StepObservations)
    requires
        step_failure(m, points, obs) is Some,
    ensures
        step_state(m, points, every, obs).loop_iteration == m.loop_iteration,
        !fails_after_changes(m, obs) ==> step_state(m, points, every, obs) == m,
{
}

/// Every `every`-th round closed by a step leaves a round report point in
/// the queue and sets the next report one interval later.
pub proof fn lemma_round_report_point(m: StateModel, points: Seq<ConfirmationPolicy>, every: u64, obs: StepObservations)
    requires
        step_failure(m, points, obs) is None,
        round_closable(m.loop_iteration, every),
        (m.loop_iteration + 1) % (every as int) == 0,
    ensures
        step_state(m, points, every, obs).pending_confirmation.contains(
            round_message((m.loop_iteration + 1) as u64),
        ),
        step_state(m, points, every, obs).next_report_at == m.loop_iteration + 1 + every,
{
    let it = (m.loop_iteration + 1) as u64;
    let msg = round_message(it);
    let s = if draws_documents(m.stage) {
        let d = obs.documents->Ok_0;
        refreshed(staged(m, points, obs), d.todo@, d.current_direction@, d.vision@)
    } else {
        staged(m, points, obs)
    };
    let p = s.pending_confirmation;
    if !p.contains(msg) {
        assert(p.push(msg)[p.len() as int] == msg);
    }
}

/// From any stage, steps that go through come back to planning within
/// five stages: the main loop takes five, the bug loop four from its
/// start, a block one.
pub proof fn lemma_loop_returns_to_plan(stage: AutopilotStage)
    ensures
        next_stage(next_stage(next_stage(next_stage(next_stage(AutopilotStage::Plan)))))
            == AutopilotStage::Plan,
        next_stage(next_stage(next_stage(next_stage(AutopilotStage::BugScan))))
            == AutopilotStage::Plan,
        next_stage(AutopilotStage::Blocked) == AutopilotStage::Plan,
        stage != AutopilotStage::Plan ==> (next_stage(stage) == AutopilotStage::Plan || next_stage(
            next_stage(stage),
        ) == AutopilotStage::Plan || next_stage(next_stage(next_stage(stage)))
            == AutopilotStage::Plan || next_stage(next_stage(next_stage(next_stage(stage))))
            == AutopilotStage::Plan),
{
}

/// The execute stage carries out at most the top two suggestions, in order.
pub proof fn lemma_execute_takes_top_two(m: StateModel, actions: Seq<ActionOutcome>)
    ensures
        execute_records(m, actions).len() <= 2,
        forall|i: int|
            0 <= i < execute_records(m, actions).len() ==> (#[trigger] execute_records(
                m,
                actions,
            )[i]).title == m.next_suggestions[i].title,
{
}

/// Where the project lists external pushes among its confirmation points,
/// pending changes are never committed by the autopilot: the commit stage
/// queues an `external_push` confirmation instead.
pub proof fn lemma_external_push_needs_confirmation(m: StateModel, points: Seq<ConfirmationPolicy>, status: Seq<char>)
    requires
        points.contains(ConfirmationPolicy::ExternalPush),
        trimmed(status).len() > 0,
    ensures
        !commits(points, status),
        guarded_state(m, points, status).pending_confirmation.contains(
            confirmation_text(ConfirmationPolicy::ExternalPush, push_hold_detail()),
        ),
        crate::text::seq_contains(
            confirmation_text(ConfirmationPolicy::ExternalPush, push_hold_detail()),
            "external_push"@,
        ),
{
    let msg = confirmation_text(ConfirmationPolicy::ExternalPush, push_hold_detail());
    let p = m.pending_confirmation;
    if !p.contains(msg) {
        assert(p.push(msg)[p.len() as int] == msg);
    }
    reveal_strlit("需要人工确认（");
    reveal_strlit("external_push");
    assert("需要人工确认（"@.len() == 7);
    assert(msg.subrange(7int, 7int + "external_push"@.len()) =~= "external_push"@);
}

} // verus!
