//! The autopilot's data: stages, policies, suggestions, action records,
//! reports, the managed project's configuration and state, and their
//! mathematical models.
use vstd::prelude::*;

use crate::text::texts;

verus! {

/// The kind of work a suggestion asks for.
#[derive(Debug, Clone, Copy, PartialEq, Eq, Structural)]
pub enum WorkflowSuggestionKind {
    Feature,
    BugScan,
    BugFix,
    DocSync,
    Refactor,
    Performance,
    Test,
    Collect,
    Commit,
}

/// How often a project reports to its owner.
#[derive(Debug, Clone, Copy, PartialEq, Eq, Structural)]
pub enum ReportPolicy {
    EveryTenRounds,
    KeyEventsOnly,
    Hybrid,
}

/// The kinds of decision that may require a person to confirm.
#[derive(Debug, Clone, Copy, PartialEq, Eq, Structural)]
pub enum ConfirmationPolicy {
    ArchitectureDecision,
    ExternalPush,
    DestructiveChange,
    HeavyInstall,
    RepeatedFailure,
}

/// The stages of the autopilot loop.
#[derive(Debug, Clone, Copy, PartialEq, Eq, Structural)]
pub enum AutopilotStage {
    Plan,
    Execute,
    Verify,
    BugScan,
    BugFix,
    DocSync,
    CommitPush,
    Cooldown,
    Blocked,
}

/// A command a project maps suggestions to.
#[derive(Debug, Clone, Copy, PartialEq, Eq, Structural)]
pub enum ActionCommand {
    /// `cargo test -q` in the project's root.
    CargoTest,
    /// Log the plan only (shadow plan).
    ShadowPlan,
}

/// What a failure is taken to be.
#[derive(Debug, Clone, Copy, PartialEq, Eq, Structural)]
pub enum ErrorCategory {
    /// No failure is recorded.
    Unset,
    /// An outside command (git, cargo) failed.
    Command,
    /// A planning document could not be read.
    Document,
    /// Anything else.
    Other,
}

/// The command for suggestions of a kind.
#[derive(Debug, Clone, Copy, PartialEq, Eq, Structural)]
pub struct KindCommand {
    pub kind: WorkflowSuggestionKind,
    pub command: ActionCommand,
}

/// The command for a suggestion with this title, ahead of its kind's.
#[derive(Debug, Clone, PartialEq, Eq)]
pub struct TitleCommand {
    pub title: String,
    pub command: ActionCommand,
}

/// Whether an action may go ahead on its own or waits for a person.
#[derive(Debug, Clone, Copy, PartialEq, Eq, Structural)]
pub enum StrategyDecision {
    AutoProceed,
    RequireConfirmation(ConfirmationPolicy),
}

/// A proposed next action.
#[derive(Debug, Clone, PartialEq, Eq)]
pub struct WorkflowSuggestion {
    pub title: String,
    pub priority: u8,
    pub rationale: String,
    pub kind: WorkflowSuggestionKind,
}

/// The model of a suggestion.
pub ghost struct SuggestionModel {
    pub title: Seq<char>,
    pub priority: u8,
    pub rationale: Seq<char>,
    pub kind: WorkflowSuggestionKind,
}

impl View for WorkflowSuggestion {
    type V = SuggestionModel;

    open spec fn view(&self) -> SuggestionModel {
        SuggestionModel {
            title: self.title@,
            priority: self.priority,
            rationale: self.rationale@,
            kind: self.kind,
        }
    }
}

/// What was done for one suggestion.
#[derive(Debug, Clone, PartialEq, Eq)]
pub struct WorkflowActionRecord {
    pub title: String,
    pub kind: WorkflowSuggestionKind,
    pub status: String,
    pub note: String,
}

/// The model of an action record.
pub ghost struct ActionModel {
    pub title: Seq<char>,
    pub kind: WorkflowSuggestionKind,
    pub status: Seq<char>,
    pub note: Seq<char>,
}

impl View for WorkflowActionRecord {
    type V = ActionModel;

    open spec fn view(&self) -> ActionModel {
        ActionModel {
            title: self.title@,
            kind: self.kind,
            status: self.status@,
            note: self.note@,
        }
    }
}

/// The three planning documents of a managed project.
#[derive(Debug, Clone, Default, PartialEq, Eq)]
pub struct WorkflowDocumentContext {
    pub vision: String,
    pub current_direction: String,
    pub todo: String,
}

/// A report to the project's owner.
#[derive(Debug, Clone, PartialEq, Eq)]
pub struct WorkflowReport {
    pub project_id: String,
    pub trigger: String,
    pub iteration: u64,
    pub stage: String,
    pub summary: String,
    pub focus: String,
    pub confirmations: Vec<String>,
}

/// The model of a report.
pub ghost struct ReportModel {
    pub project_id: Seq<char>,
    pub trigger: Seq<char>,
    pub iteration: u64,
    pub stage: Seq<char>,
    pub summary: Seq<char>,
    pub focus: Seq<char>,
    pub confirmations: Seq<Seq<char>>,
}

impl View for WorkflowReport {
    type V = ReportModel;

    open spec fn view(&self) -> ReportModel {
        ReportModel {
            project_id: self.project_id@,
            trigger: self.trigger@,
            iteration: self.iteration,
            stage: self.stage@,
            summary: self.summary@,
            focus: self.focus@,
            confirmations: texts(self.confirmations@),
        }
    }
}

/// How a managed project is to be driven.
#[derive(Debug, Clone, PartialEq, Eq)]
pub struct ManagedProjectConfig {
    pub id: String,
    pub root: String,
    pub enabled: bool,
    pub default_execute: bool,
    pub collect_data: bool,
    pub report_every_rounds: u64,
    pub report_policy: ReportPolicy,
    pub confirmation_points: Vec<ConfirmationPolicy>,
    pub action_commands: Vec<KindCommand>,
    pub action_command_overrides: Vec<TitleCommand>,
    pub vision_path: String,
    pub direction_path: String,
    pub todo_path: String,
    pub status_path: String,
    pub progress_path: String,
}

/// Where a managed project stands.
#[derive(Debug, Clone, PartialEq, Eq)]
pub struct ManagedProjectState {
    pub project_id: String,
    pub loop_iteration: u64,
    pub stage: AutopilotStage,
    pub default_execute: bool,
    pub collect_data: bool,
    pub last_summary: String,
    pub next_report_at: u64,
    pub blocked_reason: String,
    pub pending_confirmation: Vec<String>,
    pub current_focus: String,
    pub current_objective: String,
    pub next_suggestions: Vec<WorkflowSuggestion>,
    pub last_executed_actions: Vec<WorkflowActionRecord>,
    pub consecutive_failures: u32,
    pub last_error: String,
    pub last_error_category: ErrorCategory,
    pub recovery_hint: String,
    pub last_failure_at_ms: u64,
    pub cooldown_until_ms: u64,
    pub paused: bool,
    pub manual_hold_reason: String,
}

/// The model of a project's state.
pub ghost struct StateModel {
    pub project_id: Seq<char>,
    pub loop_iteration: u64,
    pub stage: AutopilotStage,
    pub default_execute: bool,
    pub collect_data: bool,
    pub last_summary: Seq<char>,
    pub next_report_at: u64,
    pub blocked_reason: Seq<char>,
    pub pending_confirmation: Seq<Seq<char>>,
    pub current_focus: Seq<char>,
    pub current_objective: Seq<char>,
    pub next_suggestions: Seq<SuggestionModel>,
    pub last_executed_actions: Seq<ActionModel>,
    pub consecutive_failures: u32,
    pub last_error: Seq<char>,
    pub last_error_category: ErrorCategory,
    pub recovery_hint: Seq<char>,
    pub last_failure_at_ms: u64,
    pub cooldown_until_ms: u64,
    pub paused: bool,
    pub manual_hold_reason: Seq<char>,
}

/// The models of a sequence of suggestions.
pub open spec fn suggestion_models(v: Seq<WorkflowSuggestion>) -> Seq<SuggestionModel> {
    v.map_values(|s: WorkflowSuggestion| s@)
}

/// The models of a sequence of action records.
pub open spec fn action_models(v: Seq<WorkflowActionRecord>) -> Seq<ActionModel> {
    v.map_values(|r: WorkflowActionRecord| r@)
}

impl View for ManagedProjectState {
    type V = StateModel;

    open spec fn view(&self) -> StateModel {
        StateModel {
            project_id: self.project_id@,
            loop_iteration: self.loop_iteration,
            stage: self.stage,
            default_execute: self.default_execute,
            collect_data: self.collect_data,
            last_summary: self.last_summary@,
            next_report_at: self.next_report_at,
            blocked_reason: self.blocked_reason@,
            pending_confirmation: texts(self.pending_confirmation@),
            current_focus: self.current_focus@,
            current_objective: self.current_objective@,
            next_suggestions: suggestion_models(self.next_suggestions@),
            last_executed_actions: action_models(self.last_executed_actions@),
            consecutive_failures: self.consecutive_failures,
            last_error: self.last_error@,
            last_error_category: self.last_error_category,
            recovery_hint: self.recovery_hint@,
            last_failure_at_ms: self.last_failure_at_ms,
            cooldown_until_ms: self.cooldown_until_ms,
            paused: self.paused,
            manual_hold_reason: self.manual_hold_reason@,
        }
    }
}

impl WorkflowSuggestion {
    /// A copy of this suggestion.
    pub fn duplicate(&self) -> (res: WorkflowSuggestion)
        ensures
            res@ == self@,
    {
        WorkflowSuggestion {
            title: self.title.clone(),
            priority: self.priority,
            rationale: self.rationale.clone(),
            kind: self.kind,
        }
    }
}

impl WorkflowActionRecord {
    /// A copy of this record.
    pub fn duplicate(&self) -> (res: WorkflowActionRecord)
        ensures
            res@ == self@,
    {
        WorkflowActionRecord {
            title: self.title.clone(),
            kind: self.kind,
            status: self.status.clone(),
            note: self.note.clone(),
        }
    }
}

/// Copies of the first `n` suggestions.
pub fn copy_suggestions(v: &Vec<WorkflowSuggestion>, n: usize) -> (res: Vec<WorkflowSuggestion>)
    requires
        n <= v.len(),
    ensures
        suggestion_models(res@) == suggestion_models(v@).take(n as int),
{
    let mut out: Vec<WorkflowSuggestion> = Vec::new();
    let mut i: usize = 0;
    while i < n
        invariant
            n <= v.len(),
            i <= n,
            suggestion_models(out@) == suggestion_models(v@).take(i as int),
        decreases n - i,
    {
        let ghost before = suggestion_models(out@);
        out.push(v[i].duplicate());
        assert(suggestion_models(out@) =~= before.push(v@[i as int]@));
        assert(suggestion_models(v@).take(i + 1) =~= suggestion_models(v@).take(i as int).push(
            v@[i as int]@,
        ));
        i = i + 1;
    }
    out
}

/// Copies of all action records.
pub fn copy_records(v: &Vec<WorkflowActionRecord>) -> (res: Vec<WorkflowActionRecord>)
    ensures
        action_models(res@) == action_models(v@),
{
    let mut out: Vec<WorkflowActionRecord> = Vec::new();
    let mut i: usize = 0;
    while i < v.len()
        invariant
            i <= v.len(),
            action_models(out@) == action_models(v@).take(i as int),
        decreases v.len() - i,
    {
        let ghost before = action_models(out@);
        out.push(v[i].duplicate());
        assert(action_models(out@) =~= before.push(v@[i as int]@));
        assert(action_models(v@).take(i + 1) =~= action_models(v@).take(i as int).push(
            v@[i as int]@,
        ));
        i = i + 1;
    }
    assert(action_models(v@).take(v.len() as int) =~= action_models(v@));
    out
}

/// Copies of all strings.
pub fn copy_texts(v: &Vec<String>) -> (res: Vec<String>)
    ensures
        texts(res@) == texts(v@),
{
    let mut out: Vec<String> = Vec::new();
    let mut i: usize = 0;
    while i < v.len()
        invariant
            i <= v.len(),
            texts(out@) == texts(v@).take(i as int),
        decreases v.len() - i,
    {
        let ghost before = texts(out@);
        out.push(v[i].clone());
        assert(texts(out@) =~= before.push(v@[i as int]@));
        assert(texts(v@).take(i + 1) =~= texts(v@).take(i as int).push(v@[i as int]@));
        i = i + 1;
    }
    assert(texts(v@).take(v.len() as int) =~= texts(v@));
    out
}

} // verus!
