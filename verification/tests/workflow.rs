use project_autopilot::failure::{
    compute_backoff_ms, register_tick_failure, should_wait_for_cooldown,
};
use project_autopilot::report::{maybe_write_report, render_report_message};
use project_autopilot::types::{
    ErrorCategory,
    AutopilotStage, ConfirmationPolicy, ManagedProjectConfig, ManagedProjectState, ReportPolicy,
    WorkflowReport,
};

fn sample_config(root: &str) -> ManagedProjectConfig {
    ManagedProjectConfig {
        id: "demo".to_string(),
        root: root.to_string(),
        enabled: true,
        default_execute: true,
        collect_data: true,
        report_every_rounds: 10,
        report_policy: ReportPolicy::Hybrid,
        confirmation_points: vec![ConfirmationPolicy::ExternalPush],
        action_commands: vec![],
        action_command_overrides: vec![],
        vision_path: "VISION.md".to_string(),
        direction_path: "CURRENT_DIRECTION.md".to_string(),
        todo_path: "TODO.md".to_string(),
        status_path: "STATUS.md".to_string(),
        progress_path: "PROGRESS.md".to_string(),
    }
}

fn sample_state() -> ManagedProjectState {
    ManagedProjectState {
        project_id: "demo".to_string(),
        loop_iteration: 0,
        stage: AutopilotStage::Plan,
        default_execute: true,
        collect_data: true,
        last_summary: String::new(),
        next_report_at: 10,
        blocked_reason: String::new(),
        pending_confirmation: Vec::new(),
        current_focus: String::new(),
        current_objective: String::new(),
        next_suggestions: Vec::new(),
        last_executed_actions: Vec::new(),
        consecutive_failures: 0,
        last_error: String::new(),
        last_error_category: ErrorCategory::Unset,
        recovery_hint: String::new(),
        last_failure_at_ms: 0,
        cooldown_until_ms: 0,
        paused: false,
        manual_hold_reason: String::new(),
    }
}

#[test]
fn report_message_is_human_readable() {
    let report = WorkflowReport {
        project_id: "demo".to_string(),
        trigger: "every_ten_rounds".to_string(),
        iteration: 10,
        stage: "Verify".to_string(),
        summary: "summary".to_string(),
        focus: "focus".to_string(),
        confirmations: vec!["please confirm".to_string()],
    };
    let msg = render_report_message(&report);
    assert!(msg.contains("项目：demo"));
    assert!(msg.contains("需确认"));
}

#[test]
fn backoff_grows_with_failure_count() {
    assert_eq!(compute_backoff_ms(1), 10_000);
    assert_eq!(compute_backoff_ms(2), 20_000);
    assert_eq!(compute_backoff_ms(3), 40_000);
}

#[test]
fn repeated_failures_eventually_block_the_project() {
    let mut state = sample_state();
    let err = anyhow::Error::msg("boom");
    register_tick_failure(&mut state, &err, 1_000);
    assert_eq!(state.consecutive_failures, 1);
    assert_eq!(state.stage, AutopilotStage::Plan);
    assert!(state.cooldown_until_ms > 1_000);

    register_tick_failure(&mut state, &err, 2_000);
    register_tick_failure(&mut state, &err, 3_000);
    assert_eq!(state.stage, AutopilotStage::Blocked);
    assert!(state.pending_confirmation.iter().any(|v| v.contains("repeated_failure")));
}

#[test]
fn cooldown_guard_skips_until_window_passes() {
    let mut state = sample_state();
    state.cooldown_until_ms = 5_000;
    assert!(should_wait_for_cooldown(&state, 4_000));
    assert!(!should_wait_for_cooldown(&state, 5_000));
}

#[test]
fn every_ten_rounds_report_is_emitted_once_and_then_cleared() {
    let mut state = sample_state();
    state.loop_iteration = 10;
    state.stage = AutopilotStage::Verify;
    state.last_summary = "summary".to_string();
    state.current_focus = "focus".to_string();
    state.pending_confirmation.push("已达到第 10 轮汇报点，建议向用户汇报当前进展".to_string());

    let first = maybe_write_report("demo", &mut state);
    assert!(first.is_some());
    assert!(state.pending_confirmation.iter().all(|v| !v.contains("轮汇报点")));

    let second = maybe_write_report("demo", &mut state);
    assert!(second.is_none());
}

#[test]
fn sample_config_lists_external_push() {
    let config = sample_config("/tmp/demo");
    assert_eq!(config.confirmation_points, vec![ConfirmationPolicy::ExternalPush]);
}

use project_autopilot::confirm::{confirmation_message, evaluate_confirmation_strategy, push_confirmation_once};
use project_autopilot::failure::{clear_failure_tracking, complete_tick, prepare_tick, record_tick_failure};
use project_autopilot::report::stage_name;
use project_autopilot::suggest::{
    default_suggestions_for_stage, generate_dynamic_suggestions, refresh_dynamic_suggestions,
    suggestion, suggestions_from_lowercased,
};
use project_autopilot::types::{StrategyDecision, WorkflowDocumentContext, WorkflowSuggestionKind};

fn context(vision: &str, direction: &str, todo: &str) -> WorkflowDocumentContext {
    WorkflowDocumentContext {
        vision: vision.to_string(),
        current_direction: direction.to_string(),
        todo: todo.to_string(),
    }
}

#[test]
fn backoff_doubles_then_caps() {
    assert_eq!(compute_backoff_ms(0), 10_000);
    assert_eq!(compute_backoff_ms(4), 80_000);
    assert_eq!(compute_backoff_ms(5), 160_000);
    assert_eq!(compute_backoff_ms(6), 300_000);
    assert_eq!(compute_backoff_ms(u32::MAX), 300_000);
}

#[test]
fn failure_summary_and_cooldown() {
    let mut state = sample_state();
    record_tick_failure(&mut state, "boom".to_string(), 1_000);
    assert_eq!(state.last_summary, "tick 失败，第 1 次连续失败；已进入 10 秒冷却");
    assert_eq!(state.cooldown_until_ms, 11_000);
    assert_eq!(state.last_error, "boom");
    assert!(should_wait_for_cooldown(&state, 10_999));
    assert!(!should_wait_for_cooldown(&state, 11_000));
    record_tick_failure(&mut state, "boom".to_string(), u64::MAX - 5);
    assert_eq!(state.cooldown_until_ms, u64::MAX);
}

#[test]
fn third_failure_blocks_with_reason() {
    let mut state = sample_state();
    for t in [1_000, 2_000, 3_000] {
        record_tick_failure(&mut state, "boom".to_string(), t);
    }
    assert_eq!(state.stage, AutopilotStage::Blocked);
    assert_eq!(state.blocked_reason, "boom");
    assert_eq!(
        state.pending_confirmation,
        vec!["需要人工确认（repeated_failure）：连续失败 3 次：boom".to_string()]
    );
}

#[test]
fn failures_are_classified_with_a_hint() {
    let mut state = sample_state();
    register_tick_failure(&mut state, &anyhow::Error::msg("command failed: git status --short"), 0);
    assert_eq!(state.last_error_category, ErrorCategory::Command);
    assert!(!state.recovery_hint.is_empty());
    let doc = anyhow::Error::msg("No such file").context("failed to read /p/VISION.md");
    register_tick_failure(&mut state, &doc, 0);
    assert_eq!(state.last_error_category, ErrorCategory::Document);
    register_tick_failure(&mut state, &anyhow::Error::msg("boom"), 0);
    assert_eq!(state.last_error_category, ErrorCategory::Other);
    complete_tick(&mut state, Ok(()), 0);
    assert_eq!(state.last_error_category, ErrorCategory::Unset);
    assert!(state.recovery_hint.is_empty());
}

#[test]
fn ascii_case_does_not_change_suggestions() {
    let upper = generate_dynamic_suggestions(AutopilotStage::Plan, &context("ARTIFACT", "Trust Score VERIFY", "x"));
    let lower = generate_dynamic_suggestions(AutopilotStage::Plan, &context("artifact", "trust score verify", "x"));
    assert_eq!(upper, lower);
}

#[test]
fn error_text_includes_its_causes() {
    let mut state = sample_state();
    let err = anyhow::Error::msg("inner").context("outer");
    register_tick_failure(&mut state, &err, 0);
    assert_eq!(state.last_error, "outer: inner");
}

#[test]
fn success_clears_failure_tracking() {
    let mut state = sample_state();
    record_tick_failure(&mut state, "boom".to_string(), 1_000);
    complete_tick(&mut state, Ok(()), 2_000);
    assert_eq!(state.consecutive_failures, 0);
    assert_eq!(state.cooldown_until_ms, 0);
    assert_eq!(state.last_error, "");
    complete_tick(&mut state, Err(anyhow::Error::msg("x")), 3_000);
    assert_eq!(state.consecutive_failures, 1);
    clear_failure_tracking(&mut state);
    assert_eq!(state.last_failure_at_ms, 0);
}

#[test]
fn paused_and_cooling_ticks_are_held() {
    let mut paused = sample_state();
    paused.paused = true;
    paused.manual_hold_reason = "review".to_string();
    assert!(!prepare_tick(&mut paused, 0));
    assert_eq!(paused.last_summary, "autopilot 当前已暂停（manual hold：review），跳过本轮 tick");

    let mut plain_pause = sample_state();
    plain_pause.paused = true;
    assert!(!prepare_tick(&mut plain_pause, 0));
    assert_eq!(plain_pause.last_summary, "autopilot 当前已暂停，跳过本轮 tick");

    let mut cooling = sample_state();
    cooling.cooldown_until_ms = 5_500;
    assert!(!prepare_tick(&mut cooling, 1_000));
    assert_eq!(cooling.last_summary, "仍在冷却中，4 秒后再自动重试");
    assert_eq!(cooling.current_focus, "冷却等待");
    assert_eq!(cooling.stage, AutopilotStage::Plan);
    assert_eq!(cooling.loop_iteration, 0);
    assert_eq!(cooling.cooldown_until_ms, 5_500);

    let mut ready = sample_state();
    assert!(prepare_tick(&mut ready, 1_000));
    assert_eq!(ready.last_summary, "");
}

#[test]
fn confirmations_are_queued_once() {
    let mut state = sample_state();
    let msg = confirmation_message(ConfirmationPolicy::ExternalPush, "detail");
    assert_eq!(msg, "需要人工确认（external_push）：detail");
    push_confirmation_once(&mut state, msg.clone());
    push_confirmation_once(&mut state, msg.clone());
    assert_eq!(state.pending_confirmation, vec![msg]);
}

#[test]
fn strategy_requires_confirmation_only_where_listed() {
    let config = sample_config("/tmp/demo");
    assert_eq!(
        evaluate_confirmation_strategy(&config, StrategyDecision::RequireConfirmation(ConfirmationPolicy::ExternalPush)),
        StrategyDecision::RequireConfirmation(ConfirmationPolicy::ExternalPush)
    );
    assert_eq!(
        evaluate_confirmation_strategy(&config, StrategyDecision::RequireConfirmation(ConfirmationPolicy::HeavyInstall)),
        StrategyDecision::AutoProceed
    );
    assert_eq!(evaluate_confirmation_strategy(&config, StrategyDecision::AutoProceed), StrategyDecision::AutoProceed);
}

#[test]
fn document_keywords_draw_suggestions() {
    let ctx = context("artifact", "trust score verify 文档", "同步 CURRENT_* 口径");
    let found = generate_dynamic_suggestions(AutopilotStage::Plan, &ctx);
    let titles: Vec<&str> = found.iter().map(|s| s.title.as_str()).collect();
    assert_eq!(
        titles,
        vec![
            "继续推进 trust score 核心化",
            "推进 verify / smoke / batch verify 质量闭环",
            "继续同步 CURRENT_*/TODO/STATUS 口径",
            "补执行引擎边界与 artifact 策略"
        ]
    );
}

#[test]
fn keywords_match_regardless_of_case() {
    let ctx = context("", "TRUST SCORE", "");
    let found = generate_dynamic_suggestions(AutopilotStage::Execute, &ctx);
    assert_eq!(found.len(), 1);
    assert_eq!(found[0].kind, WorkflowSuggestionKind::Feature);
    // already lowercased text is taken as it is
    let exact = suggestions_from_lowercased(AutopilotStage::Execute, "", "TRUST SCORE", "");
    assert_eq!(exact.len(), 3);
    assert_eq!(exact[0].title, "执行建议第 1 项");
}

#[test]
fn without_keywords_the_stage_list_stands() {
    let ctx = context("", "", "");
    let found = generate_dynamic_suggestions(AutopilotStage::Cooldown, &ctx);
    assert_eq!(found.len(), 1);
    assert_eq!(found[0].title, "短暂冷却并等待下一轮");
    let write_amp = generate_dynamic_suggestions(AutopilotStage::Plan, &context("", "", "写放大"));
    assert_eq!(write_amp[0].priority, 3);
    let engine = generate_dynamic_suggestions(AutopilotStage::Plan, &context("可替换执行引擎", "", ""));
    assert_eq!(engine[0].kind, WorkflowSuggestionKind::Refactor);
}

#[test]
fn bug_scan_keeps_its_fixed_list() {
    let ctx = context("artifact", "trust score", "");
    let found = generate_dynamic_suggestions(AutopilotStage::BugScan, &ctx);
    assert_eq!(found.len(), 2);
    assert_eq!(found[0].title, "查找 bug");
    assert_eq!(found[1].title, "修复 bug");
    let mut state = sample_state();
    state.stage = AutopilotStage::BugScan;
    refresh_dynamic_suggestions(&ctx, &mut state);
    assert_eq!(state.next_suggestions[0].kind, WorkflowSuggestionKind::BugScan);
}

#[test]
fn every_stage_has_fixed_suggestions() {
    for stage in [
        AutopilotStage::Plan,
        AutopilotStage::Execute,
        AutopilotStage::Verify,
        AutopilotStage::BugScan,
        AutopilotStage::BugFix,
        AutopilotStage::DocSync,
        AutopilotStage::CommitPush,
        AutopilotStage::Cooldown,
        AutopilotStage::Blocked,
    ] {
        let list = default_suggestions_for_stage(stage);
        assert!(!list.is_empty());
        assert_eq!(list[0].priority, 1);
    }
    let s = suggestion("t", 4, "r", WorkflowSuggestionKind::Collect);
    assert_eq!((s.title.as_str(), s.priority, s.rationale.as_str()), ("t", 4, "r"));
}

#[test]
fn report_triggers_in_order() {
    let mut push = sample_state();
    push.pending_confirmation = vec!["需要人工确认（external_push）：x".to_string(), "blocked 解除前请确认：y".to_string()];
    assert_eq!(maybe_write_report("demo", &mut push).unwrap().trigger, "ready_to_push");
    let mut blocked = sample_state();
    blocked.pending_confirmation = vec!["blocked 解除前请确认：y".to_string()];
    assert_eq!(maybe_write_report("demo", &mut blocked).unwrap().trigger, "blocked");
    let mut other = sample_state();
    other.pending_confirmation = vec!["something".to_string()];
    let report = maybe_write_report("demo", &mut other).unwrap();
    assert_eq!(report.trigger, "key_event");
    assert_eq!(report.stage, "Plan");
    assert_eq!(other.pending_confirmation.len(), 1);
    let mut quiet = sample_state();
    assert!(maybe_write_report("demo", &mut quiet).is_none());
}

#[test]
fn report_message_without_confirmations() {
    let report = WorkflowReport {
        project_id: "demo".to_string(),
        trigger: "key_event".to_string(),
        iteration: 3,
        stage: stage_name(AutopilotStage::BugFix).to_string(),
        summary: "s".to_string(),
        focus: "f".to_string(),
        confirmations: vec![],
    };
    assert_eq!(render_report_message(&report), "项目：demo\n触发：key_event\n轮次：3\n阶段：BugFix\n摘要：s\n焦点：f");
    let with_two = WorkflowReport { confirmations: vec!["a".to_string(), "b".to_string()], ..report };
    assert!(render_report_message(&with_two).ends_with("\n需确认：\n- a\n- b"));
}

use project_autopilot::control::{hold_project, pause_project, resume_project, unhold_project};

#[test]
fn manual_control_pauses_and_holds() {
    let mut state = sample_state();
    hold_project(&mut state, "review".to_string());
    assert!(state.paused);
    assert!(!prepare_tick(&mut state, 0));
    assert_eq!(state.last_summary, "autopilot 当前已暂停（manual hold：review），跳过本轮 tick");
    unhold_project(&mut state);
    assert!(!state.paused);
    assert_eq!(state.manual_hold_reason, "");
    pause_project(&mut state);
    assert!(state.paused);
    resume_project(&mut state);
    assert!(prepare_tick(&mut state, 0));
}
