use project_autopilot::actions::{outcomes_fit, ActionOutcome};
use project_autopilot::cycle::{
    commit_guard_plan, round_is_closable, run_commit_guarded, run_minimal_cycle_step, step_fails,
    step_needs, take_cycle_step, will_commit, CommitPlan, StepObservations,
};
use project_autopilot::suggest::default_suggestions_for_stage;
use project_autopilot::types::{
    ErrorCategory,
    AutopilotStage, ConfirmationPolicy, ManagedProjectConfig, ManagedProjectState, ReportPolicy,
    WorkflowDocumentContext, WorkflowSuggestion, WorkflowSuggestionKind,
};

fn config_with(points: Vec<ConfirmationPolicy>) -> ManagedProjectConfig {
    ManagedProjectConfig {
        id: "demo".to_string(),
        root: "/tmp/demo".to_string(),
        enabled: true,
        default_execute: true,
        collect_data: true,
        report_every_rounds: 10,
        report_policy: ReportPolicy::Hybrid,
        confirmation_points: points,
        action_commands: vec![],
        action_command_overrides: vec![],
        vision_path: "VISION.md".to_string(),
        direction_path: "CURRENT_DIRECTION.md".to_string(),
        todo_path: "TODO.md".to_string(),
        status_path: "STATUS.md".to_string(),
        progress_path: "PROGRESS.md".to_string(),
    }
}

fn state_at(stage: AutopilotStage) -> ManagedProjectState {
    ManagedProjectState {
        project_id: "demo".to_string(),
        loop_iteration: 0,
        stage,
        default_execute: true,
        collect_data: true,
        last_summary: String::new(),
        next_report_at: 10,
        blocked_reason: String::new(),
        pending_confirmation: Vec::new(),
        current_focus: String::new(),
        current_objective: String::new(),
        next_suggestions: Vec::new(),
        last_executed_actions: Vec::new(),
        consecutive_failures: 0,
        last_error: String::new(),
        last_error_category: ErrorCategory::Unset,
        recovery_hint: String::new(),
        last_failure_at_ms: 0,
        cooldown_until_ms: 0,
        paused: false,
        manual_hold_reason: String::new(),
    }
}

fn docs() -> WorkflowDocumentContext {
    WorkflowDocumentContext {
        vision: "artifact".to_string(),
        current_direction: "trust score verify 文档".to_string(),
        todo: "同步 CURRENT_* 口径".to_string(),
    }
}

fn observations() -> StepObservations {
    StepObservations {
        actions: Vec::new(),
        action_failure: None,
        stage_work: Ok(String::new()),
        commit: Ok(()),
        documents: Ok(docs()),
    }
}

#[test]
fn plan_step_moves_to_execute_with_document_suggestions() {
    let config = config_with(vec![ConfirmationPolicy::ExternalPush]);
    let mut state = state_at(AutopilotStage::Plan);
    run_minimal_cycle_step(&config, &mut state, observations()).unwrap();
    assert_eq!(state.stage, AutopilotStage::Execute);
    assert_eq!(state.loop_iteration, 1);
    assert_eq!(state.last_summary, "已完成 plan 阶段，生成下一阶段建议");
    let priorities: Vec<u8> = state.next_suggestions.iter().map(|s| s.priority).collect();
    assert_eq!(priorities, vec![1, 2, 4, 5]);
}

#[test]
fn plan_step_with_unreadable_documents_keeps_its_changes_but_not_the_round() {
    let config = config_with(vec![]);
    let mut state = state_at(AutopilotStage::Plan);
    let mut obs = observations();
    obs.documents = Err(anyhow::Error::msg("missing VISION.md"));
    let err = run_minimal_cycle_step(&config, &mut state, obs).unwrap_err();
    assert_eq!(format!("{}", err), "missing VISION.md");
    assert_eq!(state.stage, AutopilotStage::Execute);
    assert_eq!(state.loop_iteration, 0);
}

#[test]
fn execute_step_dispatches_the_top_two() {
    let config = config_with(vec![]);
    let mut state = state_at(AutopilotStage::Execute);
    state.next_suggestions = default_suggestions_for_stage(AutopilotStage::Plan);
    let mut obs = observations();
    obs.actions = vec![ActionOutcome::DocsSynced("synced".to_string()), ActionOutcome::Planned];
    run_minimal_cycle_step(&config, &mut state, obs).unwrap();
    assert_eq!(state.stage, AutopilotStage::Verify);
    assert_eq!(state.last_summary, "已完成 execute 阶段，已分发 2 个动作");
    assert_eq!(state.last_executed_actions.len(), 2);
    assert_eq!(state.last_executed_actions[0].status, "doc_synced");
    assert_eq!(state.last_executed_actions[1].status, "planned");
    assert_eq!(state.last_executed_actions[1].title, "生成 3–5 个下一阶段建议");
}

#[test]
fn execute_step_failure_changes_nothing() {
    let config = config_with(vec![]);
    let mut state = state_at(AutopilotStage::Execute);
    state.next_suggestions = default_suggestions_for_stage(AutopilotStage::Plan);
    let mut obs = observations();
    obs.action_failure = Some(anyhow::Error::msg("cargo test failed"));
    assert!(step_fails(&config, &state, &obs));
    assert!(run_minimal_cycle_step(&config, &mut state, obs).is_err());
    assert_eq!(state.stage, AutopilotStage::Execute);
    assert!(state.last_executed_actions.is_empty());
}

#[test]
fn verify_step_moves_to_doc_sync() {
    let config = config_with(vec![]);
    let mut state = state_at(AutopilotStage::Verify);
    run_minimal_cycle_step(&config, &mut state, observations()).unwrap();
    assert_eq!(state.stage, AutopilotStage::DocSync);
    assert_eq!(state.next_suggestions.len(), 2);
    assert_eq!(state.next_suggestions[0].title, "同步 TODO/STATUS/PROGRESS");
}

#[test]
fn bug_scan_asks_for_confirmation_and_moves_to_fix() {
    let config = config_with(vec![]);
    let mut state = state_at(AutopilotStage::BugScan);
    run_minimal_cycle_step(&config, &mut state, observations()).unwrap();
    assert_eq!(state.stage, AutopilotStage::BugFix);
    assert!(state.pending_confirmation.iter().any(|v| v.starts_with("进入 bug 环")));
    run_minimal_cycle_step(&config, &mut state, observations()).unwrap();
    assert_eq!(state.stage, AutopilotStage::CommitPush);
}

#[test]
fn external_push_is_held_for_confirmation() {
    let config = config_with(vec![ConfirmationPolicy::ExternalPush]);
    let mut state = state_at(AutopilotStage::CommitPush);
    let status = "?? dirty.txt\n";
    assert!(matches!(
        commit_guard_plan(&config, &state, status),
        CommitPlan::AwaitConfirmation(ConfirmationPolicy::ExternalPush)
    ));
    let mut obs = observations();
    obs.stage_work = Ok(status.to_string());
    run_minimal_cycle_step(&config, &mut state, obs).unwrap();
    assert!(state.last_summary.contains("阻止自动 push"));
    assert!(state.pending_confirmation.iter().any(|v| v.contains("external_push")));
    assert_eq!(state.stage, AutopilotStage::Cooldown);
}

#[test]
fn external_push_confirmation_is_enforced_by_strategy() {
    let config = config_with(vec![ConfirmationPolicy::ExternalPush]);
    let mut state = state_at(AutopilotStage::Plan);
    let result = run_commit_guarded(&config, &mut state, "?? dirty.txt\n", Ok(())).unwrap();
    assert!(result.contains("阻止自动 push") || result.contains("当前仅保留本地待提交改动"));
    assert!(state.pending_confirmation.iter().any(|v| v.contains("external_push")));
}

#[test]
fn commit_without_confirmation_point_commits_locally() {
    let config = config_with(vec![]);
    let mut state = state_at(AutopilotStage::CommitPush);
    state.loop_iteration = 7;
    match commit_guard_plan(&config, &state, " M src/lib.rs\n") {
        CommitPlan::Commit(message) => assert_eq!(message, "Autopilot checkpoint at iteration 7"),
        _ => panic!("expected a commit"),
    }
    let text = run_commit_guarded(&config, &mut state, " M src/lib.rs\n", Ok(())).unwrap();
    assert_eq!(text, "已完成本地 commit：Autopilot checkpoint at iteration 7；push 仍受人工确认门控");
    assert_eq!(state.pending_confirmation, vec!["已完成本地 commit；若需要 push，请人工确认外发".to_string()]);
}

#[test]
fn failed_commit_leaves_the_state() {
    let config = config_with(vec![]);
    let mut state = state_at(AutopilotStage::CommitPush);
    let res = run_commit_guarded(&config, &mut state, " M a\n", Err(anyhow::Error::msg("commit failed")));
    assert!(res.is_err());
    assert!(state.pending_confirmation.is_empty());
}

#[test]
fn clean_tree_skips_the_commit() {
    let config = config_with(vec![]);
    let mut state = state_at(AutopilotStage::CommitPush);
    assert!(matches!(commit_guard_plan(&config, &state, "  \n"), CommitPlan::NothingToCommit));
    let text = run_commit_guarded(&config, &mut state, "  \n", Ok(())).unwrap();
    assert_eq!(text, "commit_push 跳过：当前没有待提交改动");
}

#[test]
fn cooldown_clears_round_points_and_returns_to_plan() {
    let config = config_with(vec![]);
    let mut state = state_at(AutopilotStage::Cooldown);
    state.pending_confirmation = vec![
        "已达到第 10 轮汇报点，建议向用户汇报当前进展".to_string(),
        "keep me".to_string(),
    ];
    run_minimal_cycle_step(&config, &mut state, observations()).unwrap();
    assert_eq!(state.stage, AutopilotStage::Plan);
    assert_eq!(state.pending_confirmation, vec!["keep me".to_string()]);
}

#[test]
fn blocked_asks_to_confirm_with_its_reason() {
    let config = config_with(vec![]);
    let mut state = state_at(AutopilotStage::Blocked);
    state.blocked_reason = "boom".to_string();
    run_minimal_cycle_step(&config, &mut state, observations()).unwrap();
    assert_eq!(state.stage, AutopilotStage::Plan);
    assert_eq!(state.current_objective, "先处理阻塞原因：boom");
    assert!(state.pending_confirmation.contains(&"blocked 解除前请确认：boom".to_string()));

    let mut unexplained = state_at(AutopilotStage::Blocked);
    run_minimal_cycle_step(&config, &mut unexplained, observations()).unwrap();
    assert_eq!(unexplained.current_objective, "先识别阻塞，再回到 plan");
    assert!(unexplained.pending_confirmation.contains(&"blocked 解除前请确认：当前阻塞原因未填写".to_string()));
}

#[test]
fn tenth_round_leaves_a_report_point() {
    let config = config_with(vec![]);
    let mut state = state_at(AutopilotStage::BugFix);
    state.loop_iteration = 9;
    run_minimal_cycle_step(&config, &mut state, observations()).unwrap();
    assert_eq!(state.loop_iteration, 10);
    assert_eq!(state.next_report_at, 20);
    assert!(state
        .pending_confirmation
        .contains(&"已达到第 10 轮汇报点，建议向用户汇报当前进展".to_string()));
}

#[test]
fn full_loop_returns_to_plan() {
    let config = config_with(vec![]);
    let mut state = state_at(AutopilotStage::Plan);
    let expected = [
        AutopilotStage::Execute,
        AutopilotStage::Verify,
        AutopilotStage::DocSync,
        AutopilotStage::Cooldown,
        AutopilotStage::Plan,
    ];
    for stage in expected {
        run_minimal_cycle_step(&config, &mut state, observations()).unwrap();
        assert_eq!(state.stage, stage);
    }
    assert_eq!(state.loop_iteration, 5);
}

#[test]
fn stage_needs_follow_the_stage() {
    assert_eq!(step_needs(AutopilotStage::Execute).actions_to_dispatch, 2);
    assert!(step_needs(AutopilotStage::Verify).collect_snapshot);
    assert!(step_needs(AutopilotStage::DocSync).sync_docs);
    assert!(step_needs(AutopilotStage::CommitPush).commit_guard);
    assert!(step_needs(AutopilotStage::Plan).documents);
    assert!(!step_needs(AutopilotStage::BugFix).documents);
}

#[test]
fn round_closing_limits() {
    assert!(round_is_closable(0, 10));
    assert!(!round_is_closable(0, 0));
    assert!(!round_is_closable(u64::MAX, 10));
    assert!(!round_is_closable(u64::MAX - 1, 1));
    assert!(round_is_closable(u64::MAX - 2, 1));
    assert!(round_is_closable(u64::MAX - 2, 5));
}

#[test]
fn suggestion_copy_keeps_fields() {
    let s = WorkflowSuggestion {
        title: "t".to_string(),
        priority: 3,
        rationale: "r".to_string(),
        kind: WorkflowSuggestionKind::Test,
    };
    let c = s.duplicate();
    assert_eq!(c.title, "t");
    assert_eq!(c.priority, 3);
    assert_eq!(c.kind, WorkflowSuggestionKind::Test);
}

#[test]
fn failed_commit_fails_the_step_only_where_a_commit_was_due() {
    let open = config_with(vec![]);
    let guarded = config_with(vec![ConfirmationPolicy::ExternalPush]);
    assert!(will_commit(&open, " M a\n"));
    assert!(!will_commit(&open, "\n"));
    assert!(!will_commit(&guarded, " M a\n"));

    let mut state = state_at(AutopilotStage::CommitPush);
    let mut obs = observations();
    obs.stage_work = Ok(" M a\n".to_string());
    obs.commit = Err(anyhow::Error::msg("commit failed"));
    assert!(step_fails(&open, &state, &obs));
    assert!(run_minimal_cycle_step(&open, &mut state, obs).is_err());
    assert_eq!(state.stage, AutopilotStage::CommitPush);
    assert_eq!(state.loop_iteration, 0);

    let mut held = state_at(AutopilotStage::CommitPush);
    let mut obs = observations();
    obs.stage_work = Ok(" M a\n".to_string());
    obs.commit = Err(anyhow::Error::msg("not attempted"));
    assert!(!step_fails(&guarded, &held, &obs));
    run_minimal_cycle_step(&guarded, &mut held, obs).unwrap();
    assert_eq!(held.stage, AutopilotStage::Cooldown);
}

#[test]
fn git_status_failure_fails_the_commit_step() {
    let config = config_with(vec![]);
    let mut state = state_at(AutopilotStage::CommitPush);
    let mut obs = observations();
    obs.stage_work = Err(anyhow::Error::msg("not a git repository"));
    let err = run_minimal_cycle_step(&config, &mut state, obs).unwrap_err();
    assert_eq!(err.to_string(), "not a git repository");
    assert_eq!(state.stage, AutopilotStage::CommitPush);
}

#[test]
fn checked_step_refuses_what_cannot_be_taken() {
    let config = config_with(vec![]);
    let mut state = state_at(AutopilotStage::Execute);
    state.next_suggestions = default_suggestions_for_stage(AutopilotStage::Plan);
    // a test outcome for a doc-sync suggestion does not fit
    let mut obs = observations();
    obs.actions = vec![ActionOutcome::Tested, ActionOutcome::Planned];
    assert!(!outcomes_fit(&config, &state, 2, &obs.actions, false));
    assert!(take_cycle_step(&config, &mut state, obs).is_none());
    assert_eq!(state.stage, AutopilotStage::Execute);
    // one outcome for two selected suggestions, without a failure, does not fit
    let mut short = observations();
    short.actions = vec![ActionOutcome::DocsSynced("n".to_string())];
    assert!(!outcomes_fit(&config, &state, 2, &short.actions, false));
    assert!(outcomes_fit(&config, &state, 2, &short.actions, true));
    assert!(take_cycle_step(&config, &mut state, short).is_none());
    // fitting outcomes are taken
    let mut good = observations();
    good.actions = vec![ActionOutcome::DocsSynced("n".to_string()), ActionOutcome::Planned];
    assert!(take_cycle_step(&config, &mut state, good).unwrap().is_ok());
    assert_eq!(state.stage, AutopilotStage::Verify);

    // a round that cannot close is refused
    let zero = ManagedProjectConfig { report_every_rounds: 0, ..config_with(vec![]) };
    let mut fix = state_at(AutopilotStage::BugFix);
    assert!(take_cycle_step(&zero, &mut fix, observations()).is_none());
    assert_eq!(fix.stage, AutopilotStage::BugFix);
    // but a failing step needs no round to close
    let mut plan = state_at(AutopilotStage::Plan);
    let mut bad = observations();
    bad.documents = Err(anyhow::Error::msg("gone"));
    assert!(take_cycle_step(&zero, &mut plan, bad).unwrap().is_err());
}

#[test]
fn steps_leave_identity_and_failure_tracking_alone() {
    let config = config_with(vec![]);
    let mut state = state_at(AutopilotStage::BugScan);
    state.consecutive_failures = 2;
    state.last_error = "old".to_string();
    state.cooldown_until_ms = 42;
    state.manual_hold_reason = "hold".to_string();
    state.pending_confirmation = vec!["进入 bug 环：建议检查 flaky、warning、状态漂移并确认修复优先级".to_string()];
    for _ in 0..4 {
        run_minimal_cycle_step(&config, &mut state, observations()).unwrap();
    }
    assert_eq!(state.stage, AutopilotStage::Plan);
    assert_eq!(state.project_id, "demo");
    assert_eq!(state.consecutive_failures, 2);
    assert_eq!(state.last_error, "old");
    assert_eq!(state.cooldown_until_ms, 42);
    assert_eq!(state.manual_hold_reason, "hold");
    assert!(state.last_executed_actions.is_empty());
    let mut seen = state.pending_confirmation.clone();
    seen.sort();
    seen.dedup();
    assert_eq!(seen.len(), state.pending_confirmation.len());
}
