//! Structured actions: how each kind of suggestion is carried out, the
//! record each action leaves, the execution log and the status document
//! section they write, and the dispatch of the top suggestions.
use vstd::prelude::*;

use crate::daemon::same_text;
use crate::text::{
    join, join_first, lines_of, seq_contains, text_contains, text_lines, texts, trim_text,
    trimmed,
};
use crate::types::{
    action_models, copy_records, copy_suggestions, suggestion_models, ActionCommand, ActionModel,
    KindCommand, ManagedProjectConfig, TitleCommand,
    ManagedProjectState, StateModel, SuggestionModel, WorkflowActionRecord, WorkflowSuggestion,
    WorkflowSuggestionKind,
};

verus! {

/// The outside work that carries out a suggestion of a given kind.
#[derive(Debug, Clone, Copy, PartialEq, Eq, Structural)]
pub enum ActionRoute {
    /// Append the sync section to the status document.
    SyncDocs,
    /// Write a snapshot of git status and documents.
    CollectSnapshot,
    /// Run the project's tests where it has a Cargo manifest.
    RunTests,
    /// Read the git status and log it.
    CheckCommit,
    /// Log the plan without acting on it.
    RecordPlan,
}

/// What the outside work of one action produced.
#[derive(Debug, Clone, PartialEq, Eq)]
pub enum ActionOutcome {
    /// The status document was synced; the note says so.
    DocsSynced(String),
    /// A snapshot was collected; the note says so.
    Collected(String),
    /// The project has a Cargo manifest and its tests passed.
    Tested,
    /// The project has no Cargo manifest; the skip was logged.
    TestsSkipped,
    /// The git status read (short form); the check was logged.
    CommitChecked(String),
    /// The plan was logged.
    Planned,
}

/// The name of a kind in logs.
pub open spec fn kind_label(kind: WorkflowSuggestionKind) -> Seq<char> {
    match kind {
        WorkflowSuggestionKind::Feature => "feature"@,
        WorkflowSuggestionKind::BugScan => "bug_scan"@,
        WorkflowSuggestionKind::BugFix => "bug_fix"@,
        WorkflowSuggestionKind::DocSync => "doc_sync"@,
        WorkflowSuggestionKind::Refactor => "refactor"@,
        WorkflowSuggestionKind::Performance => "performance"@,
        WorkflowSuggestionKind::Test => "test"@,
        WorkflowSuggestionKind::Collect => "collect"@,
        WorkflowSuggestionKind::Commit => "commit"@,
    }
}

/// The route of each kind where the project maps no command to it:
/// documents are synced, snapshots collected, tests run, commits checked;
/// every other kind is only planned.
pub open spec fn route_of(kind: WorkflowSuggestionKind) -> ActionRoute {
    match kind {
        WorkflowSuggestionKind::DocSync => ActionRoute::SyncDocs,
        WorkflowSuggestionKind::Collect => ActionRoute::CollectSnapshot,
        WorkflowSuggestionKind::Test => ActionRoute::RunTests,
        WorkflowSuggestionKind::Commit => ActionRoute::CheckCommit,
        _ => ActionRoute::RecordPlan,
    }
}

/// The route of a mapped command.
pub open spec fn command_route(c: ActionCommand) -> ActionRoute {
    match c {
        ActionCommand::CargoTest => ActionRoute::RunTests,
        ActionCommand::ShadowPlan => ActionRoute::RecordPlan,
    }
}

/// The command of the first override for this title, if any.
pub open spec fn title_command(overrides: Seq<TitleCommand>, title: Seq<char>) -> Option<ActionCommand>
    decreases overrides.len(),
{
    if overrides.len() == 0 {
        None
    } else if overrides[0].title@ == title {
        Some(overrides[0].command)
    } else {
        title_command(overrides.drop_first(), title)
    }
}

/// The command of the first mapping for this kind, if any.
pub open spec fn kind_command(commands: Seq<KindCommand>, kind: WorkflowSuggestionKind) -> Option<ActionCommand>
    decreases commands.len(),
{
    if commands.len() == 0 {
        None
    } else if commands[0].kind == kind {
        Some(commands[0].command)
    } else {
        kind_command(commands.drop_first(), kind)
    }
}

/// The route of suggestion `s` in a project: the command mapped to its
/// title, else the command mapped to its kind, else its kind's own route.
pub open spec fn configured_route(config: ManagedProjectConfig, s: SuggestionModel) -> ActionRoute {
    match title_command(config.action_command_overrides@, s.title) {
        Some(c) => command_route(c),
        None => match kind_command(config.action_commands@, s.kind) {
            Some(c) => command_route(c),
            None => route_of(s.kind),
        },
    }
}

/// The record of an action on suggestion `s`.
pub open spec fn record(s: SuggestionModel, status: Seq<char>, note: Seq<char>) -> ActionModel {
    ActionModel { title: s.title, kind: s.kind, status, note }
}

/// The note of a commit check on the given git status output.
pub open spec fn commit_note(status: Seq<char>) -> Seq<char> {
    trimmed_status_note(trimmed(status))
}

/// The note of a commit check on the trimmed git status output: clean, or
/// the first five changed entries joined by ` | `.
pub open spec fn trimmed_status_note(t: Seq<char>) -> Seq<char> {
    if t.len() == 0 {
        "git 工作区干净；当前无需 commit"@
    } else {
        let lines = text_lines(t);
        "检测到待提交改动："@ + join(
            lines.take(if 5 < lines.len() { 5 } else { lines.len() as int }),
            " | "@,
        )
    }
}

/// The note of a planned action.
pub open spec fn plan_note(s: SuggestionModel) -> Seq<char> {
    "已记录结构化执行计划："@ + s.title + "；原因："@ + s.rationale
}

/// The record an outcome leaves for suggestion `s`.
pub open spec fn outcome_record(s: SuggestionModel, o: ActionOutcome) -> ActionModel {
    match o {
        ActionOutcome::DocsSynced(note) => record(s, "doc_synced"@, note@),
        ActionOutcome::Collected(note) => record(s, "collected"@, note@),
        ActionOutcome::Tested => record(s, "tested"@, "已执行 cargo test -q 并通过"@),
        ActionOutcome::TestsSkipped => record(
            s,
            "test_skipped"@,
            "未发现 Cargo.toml，跳过测试执行并记日志"@,
        ),
        ActionOutcome::CommitChecked(status) => record(s, "commit_checked"@, commit_note(status@)),
        ActionOutcome::Planned => record(s, "planned"@, plan_note(s)),
    }
}

/// One line of the execution log.
pub open spec fn log_line(r: ActionModel) -> Seq<char> {
    "- "@ + r.title + " ["@ + kind_label(r.kind) + "]: "@ + r.note + "\n"@
}

/// The log lines of the entries, in order.
pub open spec fn log_lines(entries: Seq<ActionModel>) -> Seq<char>
    decreases entries.len(),
{
    if entries.len() == 0 {
        Seq::empty()
    } else {
        log_lines(entries.drop_last()) + log_line(entries.last())
    }
}

/// The execution log after a dispatch section with the entries is
/// appended; the existing text first gets a final line break.
pub open spec fn log_text(existing: Seq<char>, entries: Seq<ActionModel>) -> Seq<char> {
    let base = if existing.len() > 0 && existing.last() == '\n' {
        existing
    } else {
        existing.push('\n')
    };
    base + "\n## Autopilot Workflow Action Dispatch\n\n"@ + log_lines(entries)
}

/// The status document after a sync: the sync section heading is added
/// once, then one line per sync.
pub open spec fn synced_status(content: Seq<char>) -> Seq<char> {
    let base = if seq_contains(content, "## Autopilot Sync"@) {
        content
    } else {
        content + "\n## Autopilot Sync\n\n"@
    };
    base + "- 独立 autopilot 已执行一轮文档同步检查。\n"@
}

/// The number of suggestions a dispatch of at most `max` takes.
pub open spec fn top_count(available: nat, max: usize) -> nat {
    if max < available {
        max as nat
    } else {
        available
    }
}

/// The records of a dispatch: one per selected suggestion that has an
/// outcome, in order.
pub open spec fn dispatched(selected: Seq<SuggestionModel>, outcomes: Seq<ActionOutcome>) -> Seq<ActionModel> {
    let n = if selected.len() < outcomes.len() {
        selected.len()
    } else {
        outcomes.len()
    };
    Seq::new(n, |i: int| outcome_record(selected[i], outcomes[i]))
}

/// The route whose outside work yields `o`.
pub open spec fn outcome_route(o: ActionOutcome) -> ActionRoute {
    match o {
        ActionOutcome::DocsSynced(_) => ActionRoute::SyncDocs,
        ActionOutcome::Collected(_) => ActionRoute::CollectSnapshot,
        ActionOutcome::Tested => ActionRoute::RunTests,
        ActionOutcome::TestsSkipped => ActionRoute::RunTests,
        ActionOutcome::CommitChecked(_) => ActionRoute::CheckCommit,
        ActionOutcome::Planned => ActionRoute::RecordPlan,
    }
}

/// Whether `o` is an outcome of the route of suggestion `s` in the project.
pub open spec fn fits(config: ManagedProjectConfig, s: SuggestionModel, o: ActionOutcome) -> bool {
    outcome_route(o) == configured_route(config, s)
}

/// Whether the outcomes fit a dispatch of the top `max` of `next`: one per
/// selected suggestion, each of its route, in order; fewer only where a
/// failure stopped the dispatch.
pub open spec fn dispatch_fits(config: ManagedProjectConfig, next: Seq<SuggestionModel>, max: usize, outcomes: Seq<ActionOutcome>, failed: bool) -> bool {
    &&& outcomes.len() <= top_count(next.len(), max)
    &&& !failed ==> outcomes.len() == top_count(next.len(), max)
    &&& forall|i: int| 0 <= i < outcomes.len() ==> fits(config, next[i], #[trigger] outcomes[i])
}

/// The route whose outside work yields `outcome`.
pub fn route_of_outcome(outcome: &ActionOutcome) -> (route: ActionRoute)
    ensures
        route == outcome_route(*outcome),
{
    match outcome {
        ActionOutcome::DocsSynced(_) => ActionRoute::SyncDocs,
        ActionOutcome::Collected(_) => ActionRoute::CollectSnapshot,
        ActionOutcome::Tested => ActionRoute::RunTests,
        ActionOutcome::TestsSkipped => ActionRoute::RunTests,
        ActionOutcome::CommitChecked(_) => ActionRoute::CheckCommit,
        ActionOutcome::Planned => ActionRoute::RecordPlan,
    }
}

/// Whether the outcomes fit a dispatch of the top `max_actions` next
/// suggestions (see [`dispatch_fits`]).
pub fn outcomes_fit(
    config: &ManagedProjectConfig,
    state: &ManagedProjectState,
    max_actions: usize,
    outcomes: &Vec<ActionOutcome>,
    failed: bool,
) -> (res: bool)
    ensures
        res == dispatch_fits(*config, state@.next_suggestions, max_actions, outcomes@, failed),
{
    let n = if max_actions < state.next_suggestions.len() {
        max_actions
    } else {
        state.next_suggestions.len()
    };
    if outcomes.len() > n || (!failed && outcomes.len() != n) {
        return false;
    }
    let mut i: usize = 0;
    while i < outcomes.len()
        invariant
            outcomes.len() <= n <= state.next_suggestions.len(),
            i <= outcomes.len(),
            forall|k: int|
                0 <= k < i ==> fits(*config, state@.next_suggestions[k], #[trigger] outcomes@[k]),
        decreases outcomes.len() - i,
    {
        assert(state@.next_suggestions[i as int] == state.next_suggestions@[i as int]@);
        if action_route(config, &state.next_suggestions[i]) != route_of_outcome(&outcomes[i]) {
            return false;
        }
        i = i + 1;
    }
    true
}

/// The command a configuration names: `cargo test -q` or `shadow-plan`.
pub open spec fn command_named(text: Seq<char>) -> Option<ActionCommand> {
    if text == "cargo test -q"@ {
        Some(ActionCommand::CargoTest)
    } else if text == "shadow-plan"@ {
        Some(ActionCommand::ShadowPlan)
    } else {
        None
    }
}

/// The kind a configuration names by its log name (see [`kind_label`]).
pub open spec fn kind_named(text: Seq<char>) -> Option<WorkflowSuggestionKind> {
    if text == kind_label(WorkflowSuggestionKind::Feature) {
        Some(WorkflowSuggestionKind::Feature)
    } else if text == kind_label(WorkflowSuggestionKind::BugScan) {
        Some(WorkflowSuggestionKind::BugScan)
    } else if text == kind_label(WorkflowSuggestionKind::BugFix) {
        Some(WorkflowSuggestionKind::BugFix)
    } else if text == kind_label(WorkflowSuggestionKind::DocSync) {
        Some(WorkflowSuggestionKind::DocSync)
    } else if text == kind_label(WorkflowSuggestionKind::Refactor) {
        Some(WorkflowSuggestionKind::Refactor)
    } else if text == kind_label(WorkflowSuggestionKind::Performance) {
        Some(WorkflowSuggestionKind::Performance)
    } else if text == kind_label(WorkflowSuggestionKind::Test) {
        Some(WorkflowSuggestionKind::Test)
    } else if text == kind_label(WorkflowSuggestionKind::Collect) {
        Some(WorkflowSuggestionKind::Collect)
    } else if text == kind_label(WorkflowSuggestionKind::Commit) {
        Some(WorkflowSuggestionKind::Commit)
    } else {
        None
    }
}

/// The command a configuration names, if it names one.
pub fn parse_action_command(text: &str) -> (res: Option<ActionCommand>)
    ensures
        res == command_named(text@),
{
    if same_text(text, "cargo test -q") {
        Some(ActionCommand::CargoTest)
    } else if same_text(text, "shadow-plan") {
        Some(ActionCommand::ShadowPlan)
    } else {
        None
    }
}

/// The name a configuration gives a command.
pub fn action_command_name(command: ActionCommand) -> (text: &'static str)
    ensures
        command_named(text@) == Some(command),
{
    proof {
        reveal_strlit("cargo test -q");
        reveal_strlit("shadow-plan");
        assert("cargo test -q"@ != "shadow-plan"@) by {
            assert("cargo test -q"@[0] != "shadow-plan"@[0]);
        }
    }
    match command {
        ActionCommand::CargoTest => "cargo test -q",
        ActionCommand::ShadowPlan => "shadow-plan",
    }
}

/// The kind a configuration names, if it names one.
pub fn parse_kind_name(text: &str) -> (res: Option<WorkflowSuggestionKind>)
    ensures
        res == kind_named(text@),
{
    if same_text(text, kind_name(WorkflowSuggestionKind::Feature)) {
        Some(WorkflowSuggestionKind::Feature)
    } else if same_text(text, kind_name(WorkflowSuggestionKind::BugScan)) {
        Some(WorkflowSuggestionKind::BugScan)
    } else if same_text(text, kind_name(WorkflowSuggestionKind::BugFix)) {
        Some(WorkflowSuggestionKind::BugFix)
    } else if same_text(text, kind_name(WorkflowSuggestionKind::DocSync)) {
        Some(WorkflowSuggestionKind::DocSync)
    } else if same_text(text, kind_name(WorkflowSuggestionKind::Refactor)) {
        Some(WorkflowSuggestionKind::Refactor)
    } else if same_text(text, kind_name(WorkflowSuggestionKind::Performance)) {
        Some(WorkflowSuggestionKind::Performance)
    } else if same_text(text, kind_name(WorkflowSuggestionKind::Test)) {
        Some(WorkflowSuggestionKind::Test)
    } else if same_text(text, kind_name(WorkflowSuggestionKind::Collect)) {
        Some(WorkflowSuggestionKind::Collect)
    } else if same_text(text, kind_name(WorkflowSuggestionKind::Commit)) {
        Some(WorkflowSuggestionKind::Commit)
    } else {
        None
    }
}

/// The name of `kind` in logs.
pub fn kind_name(kind: WorkflowSuggestionKind) -> (s: &'static str)
    ensures
        s@ == kind_label(kind),
{
    match kind {
        WorkflowSuggestionKind::Feature => "feature",
        WorkflowSuggestionKind::BugScan => "bug_scan",
        WorkflowSuggestionKind::BugFix => "bug_fix",
        WorkflowSuggestionKind::DocSync => "doc_sync",
        WorkflowSuggestionKind::Refactor => "refactor",
        WorkflowSuggestionKind::Performance => "performance",
        WorkflowSuggestionKind::Test => "test",
        WorkflowSuggestionKind::Collect => "collect",
        WorkflowSuggestionKind::Commit => "commit",
    }
}

/// The command of the first override for `title`, if any.
fn title_command_of(overrides: &Vec<TitleCommand>, title: &String) -> (res: Option<ActionCommand>)
    ensures
        res == title_command(overrides@, title@),
{
    let mut i: usize = 0;
    assert(overrides@.skip(0) =~= overrides@);
    while i < overrides.len()
        invariant
            i <= overrides.len(),
            title_command(overrides@, title@) == title_command(overrides@.skip(i as int), title@),
        decreases overrides.len() - i,
    {
        assert(overrides@.skip(i as int)[0] == overrides@[i as int]);
        if overrides[i].title == *title {
            return Some(overrides[i].command);
        }
        assert(overrides@.skip(i as int).drop_first() =~= overrides@.skip(i + 1));
        i = i + 1;
    }
    None
}

/// The command of the first mapping for `kind`, if any.
fn kind_command_of(commands: &Vec<KindCommand>, kind: WorkflowSuggestionKind) -> (res: Option<ActionCommand>)
    ensures
        res == kind_command(commands@, kind),
{
    let mut i: usize = 0;
    assert(commands@.skip(0) =~= commands@);
    while i < commands.len()
        invariant
            i <= commands.len(),
            kind_command(commands@, kind) == kind_command(commands@.skip(i as int), kind),
        decreases commands.len() - i,
    {
        assert(commands@.skip(i as int)[0] == commands@[i as int]);
        if commands[i].kind == kind {
            return Some(commands[i].command);
        }
        assert(commands@.skip(i as int).drop_first() =~= commands@.skip(i + 1));
        i = i + 1;
    }
    None
}

/// The outside work that carries out `suggestion` in the project: the
/// command mapped to its title, else to its kind, else its kind's route.
pub fn action_route(config: &ManagedProjectConfig, suggestion: &WorkflowSuggestion) -> (route: ActionRoute)
    ensures
        route == configured_route(*config, suggestion@),
        config.action_command_overrides@.len() == 0 && config.action_commands@.len() == 0
            ==> route == default_route_of(suggestion.kind),
{
    let c = match title_command_of(&config.action_command_overrides, &suggestion.title) {
        Some(c) => Some(c),
        None => kind_command_of(&config.action_commands, suggestion.kind),
    };
    match c {
        Some(ActionCommand::CargoTest) => ActionRoute::RunTests,
        Some(ActionCommand::ShadowPlan) => ActionRoute::RecordPlan,
        None => default_route(suggestion.kind),
    }
}

/// The outside work that carries out a suggestion of `kind` where no
/// command is mapped to it.
pub fn default_route(kind: WorkflowSuggestionKind) -> (route: ActionRoute)
    ensures
        route == route_of(kind),
        route == default_route_of(kind),
{
    match kind {
        WorkflowSuggestionKind::DocSync => ActionRoute::SyncDocs,
        WorkflowSuggestionKind::Collect => ActionRoute::CollectSnapshot,
        WorkflowSuggestionKind::Test => ActionRoute::RunTests,
        WorkflowSuggestionKind::Commit => ActionRoute::CheckCommit,
        WorkflowSuggestionKind::Feature
        | WorkflowSuggestionKind::BugScan
        | WorkflowSuggestionKind::BugFix
        | WorkflowSuggestionKind::Refactor
        | WorkflowSuggestionKind::Performance => ActionRoute::RecordPlan,
    }
}

fn make_record(suggestion: &WorkflowSuggestion, status: &str, note: String) -> (r: WorkflowActionRecord)
    ensures
        r@ == record(suggestion@, status@, note@),
{
    WorkflowActionRecord {
        title: suggestion.title.clone(),
        kind: suggestion.kind,
        status: status.to_string(),
        note,
    }
}

/// The record of a test action: tested where the project has a Cargo
/// manifest (and its tests passed), skipped otherwise.
pub fn run_test_action(suggestion: &WorkflowSuggestion, manifest_found: bool) -> (r: WorkflowActionRecord)
    ensures
        r@ == (if manifest_found {
            outcome_record(suggestion@, ActionOutcome::Tested)
        } else {
            outcome_record(suggestion@, ActionOutcome::TestsSkipped)
        }),
{
    if manifest_found {
        make_record(suggestion, "tested", "已执行 cargo test -q 并通过".to_string())
    } else {
        make_record(suggestion, "test_skipped", "未发现 Cargo.toml，跳过测试执行并记日志".to_string())
    }
}

/// The note of a commit check on the trimmed git status output.
pub fn status_note_from_trimmed(trimmed_status: &str) -> (note: String)
    ensures
        note@ == trimmed_status_note(trimmed_status@),
{
    if trimmed_status.is_empty() {
        "git 工作区干净；当前无需 commit".to_string()
    } else {
        let lines = lines_of(trimmed_status);
        let mut note = "检测到待提交改动：".to_string();
        note.append(join_first(&lines, 5, " | ").as_str());
        note
    }
}

/// The note of a commit check on the given git status output.
pub fn commit_check_note(git_status: &str) -> (note: String)
    ensures
        note@ == commit_note(git_status@),
{
    let t = trim_text(git_status);
    status_note_from_trimmed(t.as_str())
}

/// The record of a commit check on the given git status output.
pub fn run_commit_check_action(suggestion: &WorkflowSuggestion, git_status: &str) -> (r: WorkflowActionRecord)
    ensures
        r@ == record(suggestion@, "commit_checked"@, commit_note(git_status@)),
{
    make_record(suggestion, "commit_checked", commit_check_note(git_status))
}

/// The record of a planned action.
pub fn run_plan_record_action(suggestion: &WorkflowSuggestion) -> (r: WorkflowActionRecord)
    ensures
        r@ == outcome_record(suggestion@, ActionOutcome::Planned),
{
    let mut note = "已记录结构化执行计划：".to_string();
    note.append(suggestion.title.as_str());
    note.append("；原因：");
    note.append(suggestion.rationale.as_str());
    make_record(suggestion, "planned", note)
}

/// The record that `outcome` leaves for `suggestion`; the outcome is one
/// of the suggestion's route.
pub fn run_structured_action(
    config: &ManagedProjectConfig,
    suggestion: &WorkflowSuggestion,
    outcome: &ActionOutcome,
) -> (r: WorkflowActionRecord)
    requires
        fits(*config, suggestion@, *outcome),
    ensures
        r@ == outcome_record(suggestion@, *outcome),
        configured_route(*config, suggestion@) == ActionRoute::RunTests ==> (r.status@ == "tested"@
            || r.status@ == "test_skipped"@),
        configured_route(*config, suggestion@) == ActionRoute::RecordPlan ==> r.status@
            == "planned"@,
{
    match outcome {
        ActionOutcome::DocsSynced(note) => make_record(suggestion, "doc_synced", note.clone()),
        ActionOutcome::Collected(note) => make_record(suggestion, "collected", note.clone()),
        ActionOutcome::Tested => run_test_action(suggestion, true),
        ActionOutcome::TestsSkipped => run_test_action(suggestion, false),
        ActionOutcome::CommitChecked(status) => run_commit_check_action(suggestion, status.as_str()),
        ActionOutcome::Planned => run_plan_record_action(suggestion),
    }
}

/// The record that `outcome` leaves for `suggestion`; the outcome is one
/// of the suggestion's route.
pub fn execute_suggestion(
    config: &ManagedProjectConfig,
    suggestion: &WorkflowSuggestion,
    outcome: &ActionOutcome,
) -> (r: WorkflowActionRecord)
    requires
        fits(*config, suggestion@, *outcome),
    ensures
        r@ == outcome_record(suggestion@, *outcome),
{
    run_structured_action(config, suggestion, outcome)
}

/// The execution log with a dispatch section for the entries appended, or
/// nothing to write where there are no entries.
pub fn execution_log_text(existing: &str, entries: &Vec<WorkflowActionRecord>) -> (res: Option<String>)
    ensures
        entries.len() == 0 ==> res is None,
        entries.len() > 0 ==> (res matches Some(t) && t@ == log_text(existing@, action_models(entries@))),
{
    if entries.len() == 0 {
        return None;
    }
    let mut out = existing.to_string();
    let cs = crate::text::chars_of(existing);
    if !(cs.len() > 0 && cs[cs.len() - 1] == '\n') {
        out.append("\n");
        proof {
            reveal_strlit("\n");
        }
        assert(out@ =~= existing@.push('\n'));
    }
    out.append("\n## Autopilot Workflow Action Dispatch\n\n");
    let ghost head = out@;
    let ghost all = action_models(entries@);
    let mut i: usize = 0;
    while i < entries.len()
        invariant
            i <= entries.len(),
            all == action_models(entries@),
            out@ == head + log_lines(all.take(i as int)),
        decreases entries.len() - i,
    {
        let e = &entries[i];
        out.append("- ");
        out.append(e.title.as_str());
        out.append(" [");
        out.append(kind_name(e.kind));
        out.append("]: ");
        out.append(e.note.as_str());
        out.append("\n");
        assert(all.take(i + 1).drop_last() =~= all.take(i as int));
        assert(all.take(i + 1).last() == e@);
        assert(out@ =~= head + log_lines(all.take(i + 1)));
        i = i + 1;
    }
    assert(all.take(entries.len() as int) =~= all);
    Some(out)
}

/// The status document after a sync.
pub fn synced_status_content(content: &str) -> (res: String)
    ensures
        res@ == synced_status(content@),
{
    let mut out = content.to_string();
    if !text_contains(content, "## Autopilot Sync") {
        out.append("\n## Autopilot Sync\n\n");
    }
    out.append("- 独立 autopilot 已执行一轮文档同步检查。\n");
    out
}

/// Copies of the first `max_actions` next suggestions (all of them where
/// there are fewer).
pub fn select_top_suggestions(state: &ManagedProjectState, max_actions: usize) -> (res: Vec<WorkflowSuggestion>)
    ensures
        suggestion_models(res@) == state@.next_suggestions.take(
            top_count(state.next_suggestions.len() as nat, max_actions) as int,
        ),
{
    let n = if max_actions < state.next_suggestions.len() {
        max_actions
    } else {
        state.next_suggestions.len()
    };
    copy_suggestions(&state.next_suggestions, n)
}

/// The state after a dispatch that left the given records.
pub open spec fn with_executed(m: StateModel, records: Seq<ActionModel>) -> StateModel {
    StateModel { last_executed_actions: records, ..m }
}

/// Dispatches the top `max_actions` suggestions. The outcomes are those of
/// the selected suggestions' actions that went through, in order; a
/// failure is the error that stopped the dispatch. Without a failure the
/// records become the last executed actions and are returned; with one
/// the state is left as it was and the error is returned.
pub fn dispatch_top_suggestions(
    config: &ManagedProjectConfig,
    state: &mut ManagedProjectState,
    max_actions: usize,
    outcomes: &Vec<ActionOutcome>,
    failure: Option<anyhow::Error>,
) -> (res: Result<Vec<WorkflowActionRecord>, anyhow::Error>)
    requires
        dispatch_fits(*config, old(state)@.next_suggestions, max_actions, outcomes@, failure is Some),
    ensures
        failure is Some ==> res == Err::<Vec<WorkflowActionRecord>, anyhow::Error>(failure->0)
            && final(state)@ == old(state)@,
        failure is None ==> {
            let recs = dispatched(
                old(state)@.next_suggestions.take(
                    top_count(old(state).next_suggestions.len() as nat, max_actions) as int,
                ),
                outcomes@,
            );
            &&& res matches Ok(v) && action_models(v@) == recs
            &&& final(state)@ == with_executed(old(state)@, recs)
        },
{
    if let Some(err) = failure {
        return Err(err);
    }
    let selected = select_top_suggestions(state, max_actions);
    let n = if selected.len() < outcomes.len() {
        selected.len()
    } else {
        outcomes.len()
    };
    let ghost sel = suggestion_models(selected@);
    let ghost target = dispatched(sel, outcomes@);
    let ghost next = state@.next_suggestions;
    let mut executed: Vec<WorkflowActionRecord> = Vec::new();
    let mut i: usize = 0;
    while i < n
        invariant
            sel == next.take(top_count(next.len(), max_actions) as int),
            dispatch_fits(*config, next, max_actions, outcomes@, false),
            n <= selected.len(),
            n <= outcomes.len(),
            n == target.len(),
            sel == suggestion_models(selected@),
            target == dispatched(sel, outcomes@),
            i <= n,
            action_models(executed@) == target.take(i as int),
        decreases n - i,
    {
        assert(sel[i as int] == selected@[i as int]@);
        assert(sel[i as int] == next[i as int]);
        assert(fits(*config, next[i as int], outcomes@[i as int]));
        let r = execute_suggestion(config, &selected[i], &outcomes[i]);
        assert(sel[i as int] == selected@[i as int]@);
        assert(target[i as int] == outcome_record(sel[i as int], outcomes@[i as int]));
        assert(r@ == target[i as int]);
        let ghost before = action_models(executed@);
        executed.push(r);
        assert(action_models(executed@) =~= before.push(target[i as int]));
        assert(action_models(executed@) =~= target.take(i + 1));
        i = i + 1;
    }
    assert(target.take(n as int) =~= target);
    state.last_executed_actions = copy_records(&executed);
    Ok(executed)
}

/// The route of each kind without a mapped command, kind by kind.
pub open spec fn default_route_of(kind: WorkflowSuggestionKind) -> ActionRoute {
    match kind {
        WorkflowSuggestionKind::Feature => ActionRoute::RecordPlan,
        WorkflowSuggestionKind::BugScan => ActionRoute::RecordPlan,
        WorkflowSuggestionKind::BugFix => ActionRoute::RecordPlan,
        WorkflowSuggestionKind::Refactor => ActionRoute::RecordPlan,
        WorkflowSuggestionKind::Performance => ActionRoute::RecordPlan,
        WorkflowSuggestionKind::DocSync => ActionRoute::SyncDocs,
        WorkflowSuggestionKind::Collect => ActionRoute::CollectSnapshot,
        WorkflowSuggestionKind::Test => ActionRoute::RunTests,
        WorkflowSuggestionKind::Commit => ActionRoute::CheckCommit,
    }
}

/// Without a command mapped to its title or kind, a suggestion is only
/// planned unless it syncs documents, collects a snapshot, tests or
/// checks a commit: features, bug scans and fixes, refactors and
/// performance work are recorded as plans.
pub proof fn lemma_unmapped_routes(config: ManagedProjectConfig, s: SuggestionModel)
    ensures
        route_of(WorkflowSuggestionKind::Feature) == ActionRoute::RecordPlan,
        route_of(WorkflowSuggestionKind::BugScan) == ActionRoute::RecordPlan,
        route_of(WorkflowSuggestionKind::BugFix) == ActionRoute::RecordPlan,
        route_of(WorkflowSuggestionKind::Refactor) == ActionRoute::RecordPlan,
        route_of(WorkflowSuggestionKind::Performance) == ActionRoute::RecordPlan,
        route_of(WorkflowSuggestionKind::DocSync) == ActionRoute::SyncDocs,
        route_of(WorkflowSuggestionKind::Collect) == ActionRoute::CollectSnapshot,
        route_of(WorkflowSuggestionKind::Test) == ActionRoute::RunTests,
        route_of(WorkflowSuggestionKind::Commit) == ActionRoute::CheckCommit,
        title_command(config.action_command_overrides@, s.title) is None && kind_command(
            config.action_commands@,
            s.kind,
        ) is None ==> configured_route(config, s) == default_route_of(s.kind),
        config.action_command_overrides@.len() == 0 && config.action_commands@.len() == 0
            ==> configured_route(config, s) == default_route_of(s.kind),
{
}

/// A dispatch carries out at most the requested number of actions, and
/// exactly the top suggestions in order of the list.
pub proof fn lemma_dispatch_takes_top(selected: Seq<SuggestionModel>, outcomes: Seq<ActionOutcome>, available: nat, max: usize)
    requires
        selected.len() == top_count(available, max),
    ensures
        dispatched(selected, outcomes).len() <= max,
        forall|i: int|
            0 <= i < dispatched(selected, outcomes).len() ==> (#[trigger] dispatched(
                selected,
                outcomes,
            )[i]).title == selected[i].title && dispatched(selected, outcomes)[i].kind
                == selected[i].kind,
{
}

/// After a sync the status document holds the sync section, and a
/// document that held it gets no second heading: only the sync line is
/// added.
pub proof fn lemma_sync_section_once(content: Seq<char>)
    ensures
        seq_contains(synced_status(content), "## Autopilot Sync"@),
        seq_contains(content, "## Autopilot Sync"@) ==> synced_status(content) == content
            + "- 独立 autopilot 已执行一轮文档同步检查。\n"@,
{
    let h = "## Autopilot Sync"@;
    if seq_contains(content, h) {
        let i = choose|i: int|
            0 <= i && i + h.len() <= content.len() && #[trigger] content.subrange(i, i + h.len())
                == h;
        let r = synced_status(content);
        assert(r.subrange(i, i + h.len()) =~= content.subrange(i, i + h.len()));
    } else {
        let r = synced_status(content);
        reveal_strlit("\n## Autopilot Sync\n\n");
        reveal_strlit("## Autopilot Sync");
        let i: int = content.len() as int + 1;
        assert(r.subrange(i, i + h.len()) =~= h);
    }
}

/// The project's command mapping decides the route: a title's command
/// first, then the kind's, then the kind's own route; and an action routed
/// to the tests records a test run (passed or skipped), one routed to a
/// shadow plan records a plan.
pub proof fn lemma_mapping_decides_the_record(config: ManagedProjectConfig, s: SuggestionModel, o: ActionOutcome)
    ensures
        title_command(config.action_command_overrides@, s.title) matches Some(c) ==> configured_route(config, s)
            == command_route(c),
        title_command(config.action_command_overrides@, s.title) is None ==> (kind_command(
            config.action_commands@,
            s.kind,
        ) matches Some(c) ==> configured_route(config, s) == command_route(c)),
        fits(config, s, o) && configured_route(config, s) == ActionRoute::RunTests ==> (outcome_record(
            s,
            o,
        ).status == "tested"@ || outcome_record(s, o).status == "test_skipped"@),
        fits(config, s, o) && configured_route(config, s) == ActionRoute::RecordPlan ==> outcome_record(
            s,
            o,
        ).status == "planned"@,
{
}

} // verus!
