//! The managed project that a new installation starts with: its
//! configuration (with the onboarding's command mapping) and its state.
use vstd::prelude::*;

use crate::actions::configured_route;
use crate::actions::ActionRoute;
use crate::types::{
    ActionCommand, AutopilotStage, ConfirmationPolicy, ErrorCategory, KindCommand,
    ManagedProjectConfig, ManagedProjectState, ReportPolicy, StateModel, SuggestionModel,
    TitleCommand, WorkflowSuggestionKind,
};

verus! {

/// The title of the verify-loop suggestion, which the onboarding runs as
/// tests.
pub open spec fn verify_loop_title() -> Seq<char> {
    "推进 verify / smoke / batch verify 质量闭环"@
}

/// The title of the trust-score suggestion, which the onboarding only
/// plans (shadow plan).
pub open spec fn trust_score_title() -> Seq<char> {
    "继续推进 trust score 核心化"@
}

/// The state a managed project starts in: round 0 at the plan stage, with
/// nothing queued, suggested, executed or failed, and the first report due
/// after `every` rounds.
pub open spec fn starting_state(every: u64) -> StateModel {
    StateModel {
        project_id: "lightpanda-automation"@,
        loop_iteration: 0,
        stage: AutopilotStage::Plan,
        default_execute: true,
        collect_data: true,
        last_summary: "独立 autopilot 尚未开始运行"@,
        next_report_at: every,
        blocked_reason: Seq::empty(),
        pending_confirmation: Seq::empty(),
        current_focus: "等待进入 plan"@,
        current_objective: "初始化独立 autopilot 内核"@,
        next_suggestions: Seq::empty(),
        last_executed_actions: Seq::empty(),
        consecutive_failures: 0,
        last_error: Seq::empty(),
        last_error_category: ErrorCategory::Unset,
        recovery_hint: Seq::empty(),
        last_failure_at_ms: 0,
        cooldown_until_ms: 0,
        paused: false,
        manual_hold_reason: Seq::empty(),
    }
}

/// The configuration a new installation manages: the lightpanda project,
/// reporting every ten rounds, confirming at every confirmation point, and
/// running tests for bug fixes and for the verify loop while only planning
/// the trust-score work.
pub fn initial_config() -> (c: ManagedProjectConfig)
    ensures
        c.id@ == "lightpanda-automation"@,
        c.root@ == "/root/SelfMadeprojects/lightpanda-automation"@,
        c.enabled && c.default_execute && c.collect_data,
        c.report_every_rounds == 10,
        c.report_policy == ReportPolicy::Hybrid,
        c.confirmation_points@ == seq![
            ConfirmationPolicy::ArchitectureDecision,
            ConfirmationPolicy::ExternalPush,
            ConfirmationPolicy::DestructiveChange,
            ConfirmationPolicy::HeavyInstall,
            ConfirmationPolicy::RepeatedFailure,
        ],
        c.vision_path@ == "VISION.md"@,
        c.direction_path@ == "CURRENT_DIRECTION.md"@,
        c.todo_path@ == "TODO.md"@,
        c.status_path@ == "STATUS.md"@,
        c.progress_path@ == "PROGRESS.md"@,
        forall|s: SuggestionModel|
            s.title == verify_loop_title() ==> configured_route(c, s) == ActionRoute::RunTests,
        forall|s: SuggestionModel|
            s.title == trust_score_title() ==> configured_route(c, s) == ActionRoute::RecordPlan,
        forall|s: SuggestionModel|
            s.kind == WorkflowSuggestionKind::BugFix && s.title != verify_loop_title() && s.title
                != trust_score_title() ==> configured_route(c, s) == ActionRoute::RunTests,
{
    let mut points: Vec<ConfirmationPolicy> = Vec::new();
    points.push(ConfirmationPolicy::ArchitectureDecision);
    points.push(ConfirmationPolicy::ExternalPush);
    points.push(ConfirmationPolicy::DestructiveChange);
    points.push(ConfirmationPolicy::HeavyInstall);
    points.push(ConfirmationPolicy::RepeatedFailure);
    let mut commands: Vec<KindCommand> = Vec::new();
    commands.push(KindCommand { kind: WorkflowSuggestionKind::BugFix, command: ActionCommand::CargoTest });
    let mut overrides: Vec<TitleCommand> = Vec::new();
    overrides.push(
        TitleCommand {
            title: "推进 verify / smoke / batch verify 质量闭环".to_string(),
            command: ActionCommand::CargoTest,
        },
    );
    overrides.push(
        TitleCommand { title: "继续推进 trust score 核心化".to_string(), command: ActionCommand::ShadowPlan },
    );
    let c = ManagedProjectConfig {
        id: "lightpanda-automation".to_string(),
        root: "/root/SelfMadeprojects/lightpanda-automation".to_string(),
        enabled: true,
        default_execute: true,
        collect_data: true,
        report_every_rounds: 10,
        report_policy: ReportPolicy::Hybrid,
        confirmation_points: points,
        action_commands: commands,
        action_command_overrides: overrides,
        vision_path: "VISION.md".to_string(),
        direction_path: "CURRENT_DIRECTION.md".to_string(),
        todo_path: "TODO.md".to_string(),
        status_path: "STATUS.md".to_string(),
        progress_path: "PROGRESS.md".to_string(),
    };
    let ghost o = c.action_command_overrides@;
    assert(c.confirmation_points@ =~= seq![
        ConfirmationPolicy::ArchitectureDecision,
        ConfirmationPolicy::ExternalPush,
        ConfirmationPolicy::DestructiveChange,
        ConfirmationPolicy::HeavyInstall,
        ConfirmationPolicy::RepeatedFailure,
    ]);
    assert(o.drop_first().drop_first().len() == 0);
    assert(c.action_commands@.drop_first().len() == 0);
    proof {
        reveal_with_fuel(crate::actions::title_command, 3);
        reveal_with_fuel(crate::actions::kind_command, 2);
        assert(o.drop_first()[0] == o[1]);
        reveal_strlit("推进 verify / smoke / batch verify 质量闭环");
        reveal_strlit("继续推进 trust score 核心化");
        assert(verify_loop_title() != trust_score_title()) by {
            assert(verify_loop_title()[0] != trust_score_title()[0]);
        }
    }
    c
}

/// The state a new installation's project starts in.
pub fn initial_state(config: &ManagedProjectConfig) -> (s: ManagedProjectState)
    ensures
        s@ == (StateModel { project_id: config.id@, ..starting_state(config.report_every_rounds) }),
{
    let s = ManagedProjectState {
        project_id: config.id.clone(),
        loop_iteration: 0,
        stage: AutopilotStage::Plan,
        default_execute: true,
        collect_data: true,
        last_summary: "独立 autopilot 尚未开始运行".to_string(),
        next_report_at: config.report_every_rounds,
        blocked_reason: String::new(),
        pending_confirmation: Vec::new(),
        current_focus: "等待进入 plan".to_string(),
        current_objective: "初始化独立 autopilot 内核".to_string(),
        next_suggestions: Vec::new(),
        last_executed_actions: Vec::new(),
        consecutive_failures: 0,
        last_error: String::new(),
        last_error_category: ErrorCategory::Unset,
        recovery_hint: String::new(),
        last_failure_at_ms: 0,
        cooldown_until_ms: 0,
        paused: false,
        manual_hold_reason: String::new(),
    };
    assert(crate::text::texts(s.pending_confirmation@) =~= Seq::empty());
    assert(crate::types::suggestion_models(s.next_suggestions@) =~= Seq::empty());
    assert(crate::types::action_models(s.last_executed_actions@) =~= Seq::empty());
    s
}

} // verus!
