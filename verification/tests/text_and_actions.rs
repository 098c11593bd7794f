use project_autopilot::actions::{
    action_route, default_route, commit_check_note, status_note_from_trimmed, execution_log_text, kind_name, run_commit_check_action,
    run_plan_record_action, run_structured_action, run_test_action, synced_status_content,
    ActionOutcome, ActionRoute,
};
use project_autopilot::text::{decimal_text, join_first, lines_of, text_contains, trim_text, white_space};
use project_autopilot::setup::{initial_config, initial_state};
use project_autopilot::actions::{action_command_name, parse_action_command, parse_kind_name};
use project_autopilot::types::{
    ActionCommand, AutopilotStage, ErrorCategory, KindCommand, ManagedProjectConfig, TitleCommand,
    WorkflowActionRecord, WorkflowSuggestion, WorkflowSuggestionKind,
};

fn plain_config() -> ManagedProjectConfig {
    let mut c = initial_config();
    c.action_commands = vec![];
    c.action_command_overrides = vec![];
    c
}

fn sample(kind: WorkflowSuggestionKind) -> WorkflowSuggestion {
    WorkflowSuggestion {
        title: "继续推进 trust score 核心化".to_string(),
        priority: 1,
        rationale: "because".to_string(),
        kind,
    }
}

#[test]
fn decimal_rendering() {
    assert_eq!(decimal_text(0), "0");
    assert_eq!(decimal_text(7), "7");
    assert_eq!(decimal_text(10), "10");
    assert_eq!(decimal_text(12345), "12345");
    assert_eq!(decimal_text(u64::MAX), u64::MAX.to_string());
}

#[test]
fn substring_search() {
    assert!(text_contains("已达到第 10 轮汇报点", "轮汇报点"));
    assert!(text_contains("abc", ""));
    assert!(!text_contains("", "a"));
    assert!(!text_contains("abc", "abcd"));
    assert!(text_contains("abc", "bc"));
}

#[test]
fn lines_follow_str_lines() {
    for s in ["a\r\nb\n\nc", "x\r", "", "\n", "a\n", "one\ntwo\r\n"] {
        let expected: Vec<String> = s.lines().map(|l| l.to_string()).collect();
        assert_eq!(lines_of(s), expected, "lines of {:?}", s);
    }
}

#[test]
fn joining_takes_at_most_the_limit() {
    let parts: Vec<String> = ["a", "b", "c"].iter().map(|s| s.to_string()).collect();
    assert_eq!(join_first(&parts, 2, " | "), "a | b");
    assert_eq!(join_first(&parts, 5, " | "), "a | b | c");
    assert_eq!(join_first(&Vec::new(), 5, " | "), "");
}

#[test]
fn commit_note_lists_five_changes_at_most() {
    assert_eq!(commit_check_note("  \n"), "git 工作区干净；当前无需 commit");
    assert_eq!(commit_check_note(" M a.rs\n?? b\n"), "检测到待提交改动：M a.rs | ?? b");
    assert_eq!(
        commit_check_note("?? 1\n?? 2\n?? 3\n?? 4\n?? 5\n?? 6\n"),
        "检测到待提交改动：?? 1 | ?? 2 | ?? 3 | ?? 4 | ?? 5"
    );
    assert_eq!(status_note_from_trimmed(""), "git 工作区干净；当前无需 commit");
    assert_eq!(status_note_from_trimmed(" M a\n?? b"), "检测到待提交改动： M a | ?? b");
    let r = run_commit_check_action(&sample(WorkflowSuggestionKind::Commit), "?? dirty.txt\n");
    assert_eq!(r.status, "commit_checked");
    assert!(r.note.contains("dirty.txt"));
}

#[test]
fn routes_by_kind() {
    assert_eq!(default_route(WorkflowSuggestionKind::DocSync), ActionRoute::SyncDocs);
    assert_eq!(default_route(WorkflowSuggestionKind::Collect), ActionRoute::CollectSnapshot);
    assert_eq!(default_route(WorkflowSuggestionKind::Test), ActionRoute::RunTests);
    assert_eq!(default_route(WorkflowSuggestionKind::Commit), ActionRoute::CheckCommit);
    assert_eq!(default_route(WorkflowSuggestionKind::Refactor), ActionRoute::RecordPlan);
    assert_eq!(kind_name(WorkflowSuggestionKind::BugScan), "bug_scan");
}

#[test]
fn action_records() {
    let s = sample(WorkflowSuggestionKind::Test);
    assert_eq!(run_test_action(&s, true).status, "tested");
    assert_eq!(run_test_action(&s, false).status, "test_skipped");
    let plan = run_plan_record_action(&sample(WorkflowSuggestionKind::Feature));
    assert_eq!(plan.status, "planned");
    assert_eq!(plan.note, "已记录结构化执行计划：继续推进 trust score 核心化；原因：because");
    let synced = run_structured_action(
        &plain_config(),
        &sample(WorkflowSuggestionKind::DocSync),
        &ActionOutcome::DocsSynced("ok".to_string()),
    );
    assert_eq!(synced.status, "doc_synced");
    assert_eq!(synced.note, "ok");
    let collected = run_structured_action(
        &plain_config(),
        &sample(WorkflowSuggestionKind::Collect),
        &ActionOutcome::Collected("snap".to_string()),
    );
    assert_eq!(collected.status, "collected");
}

#[test]
fn execution_log_appends_a_section() {
    let entries = vec![WorkflowActionRecord {
        title: "t".to_string(),
        kind: WorkflowSuggestionKind::Feature,
        status: "planned".to_string(),
        note: "n".to_string(),
    }];
    assert_eq!(execution_log_text("old", &Vec::new()), None);
    assert_eq!(
        execution_log_text("", &entries).unwrap(),
        "\n\n## Autopilot Workflow Action Dispatch\n\n- t [feature]: n\n"
    );
    assert_eq!(
        execution_log_text("old\n", &entries).unwrap(),
        "old\n\n## Autopilot Workflow Action Dispatch\n\n- t [feature]: n\n"
    );
    let plan = run_plan_record_action(&sample(WorkflowSuggestionKind::Feature));
    let log = execution_log_text("", &vec![plan]).unwrap();
    assert!(log.contains("结构化执行计划"));
}

#[test]
fn status_sync_adds_its_heading_once() {
    let once = synced_status_content("# STATUS\n");
    assert_eq!(once, "# STATUS\n\n## Autopilot Sync\n\n- 独立 autopilot 已执行一轮文档同步检查。\n");
    let twice = synced_status_content(&once);
    assert_eq!(twice.matches("## Autopilot Sync").count(), 1);
    assert!(twice.ends_with("- 独立 autopilot 已执行一轮文档同步检查。\n- 独立 autopilot 已执行一轮文档同步检查。\n"));
}

#[test]
fn structured_test_action_runs_for_rust_project() {
    let suggestion = WorkflowSuggestion {
        title: "补最小必要测试".to_string(),
        priority: 1,
        rationale: "test".to_string(),
        kind: WorkflowSuggestionKind::Test,
    };
    assert_eq!(default_route(suggestion.kind), ActionRoute::RunTests);
    let record = run_test_action(&suggestion, true);
    assert_eq!(record.status, "tested");
}

#[test]
fn structured_commit_action_reports_dirty_workspace() {
    let suggestion = WorkflowSuggestion {
        title: "评估是否 push".to_string(),
        priority: 1,
        rationale: "commit".to_string(),
        kind: WorkflowSuggestionKind::Commit,
    };
    let record = run_commit_check_action(&suggestion, "?? dirty.txt\n");
    assert_eq!(record.status, "commit_checked");
    assert!(record.note.contains("dirty.txt"));
}

#[test]
fn structured_feature_action_writes_planned_log() {
    let suggestion = WorkflowSuggestion {
        title: "继续推进 trust score 核心化".to_string(),
        priority: 1,
        rationale: "because".to_string(),
        kind: WorkflowSuggestionKind::Feature,
    };
    let record = run_structured_action(&plain_config(), &suggestion, &ActionOutcome::Planned);
    assert_eq!(record.status, "planned");
    let log = execution_log_text("", &vec![record]).unwrap();
    assert!(log.contains("结构化执行计划"));
}

#[test]
fn trimming_follows_str_trim() {
    for s in [
        "", "  ", " a ", "\t\n M a.rs\n?? b\r\n", "\u{3000}全角\u{3000}", "\u{85}x\u{a0}",
        "\u{2009}thin\u{200b}", "no-trim", "\u{1680}\u{2028}\u{2029}\u{202f}\u{205f}",
    ] {
        assert_eq!(trim_text(s), s.trim(), "trimming {:?}", s);
    }
    for c in ['\t', '\n', '\u{b}', '\u{c}', '\r', ' ', '\u{85}', '\u{a0}', '\u{1680}', '\u{2000}',
              '\u{200a}', '\u{2028}', '\u{2029}', '\u{202f}', '\u{205f}', '\u{3000}', 'a', '\u{200b}',
              '\u{1f}', '\u{180e}', '\u{feff}'] {
        assert_eq!(white_space(c), c.is_whitespace(), "{:?}", c);
    }
}

#[test]
fn onboarding_runs_tests_for_bug_fixes_and_the_verify_loop() {
    let config = initial_config();
    let fix = sample(WorkflowSuggestionKind::BugFix);
    let fix = WorkflowSuggestion { title: "修复 bug".to_string(), ..fix };
    assert_eq!(action_route(&config, &fix), ActionRoute::RunTests);
    assert_eq!(run_structured_action(&config, &fix, &ActionOutcome::Tested).status, "tested");
    let verify = WorkflowSuggestion {
        title: "推进 verify / smoke / batch verify 质量闭环".to_string(),
        ..sample(WorkflowSuggestionKind::Feature)
    };
    assert_eq!(action_route(&config, &verify), ActionRoute::RunTests);
    let trust = sample(WorkflowSuggestionKind::Feature);
    assert_eq!(action_route(&config, &trust), ActionRoute::RecordPlan);
    // without the mapping a bug fix is only planned
    assert_eq!(action_route(&plain_config(), &fix), ActionRoute::RecordPlan);
}

#[test]
fn title_overrides_come_before_kinds() {
    let mut config = plain_config();
    config.action_commands = vec![KindCommand { kind: WorkflowSuggestionKind::Feature, command: ActionCommand::CargoTest }];
    config.action_command_overrides = vec![TitleCommand { title: "plan me".to_string(), command: ActionCommand::ShadowPlan }];
    let planned = WorkflowSuggestion { title: "plan me".to_string(), ..sample(WorkflowSuggestionKind::Feature) };
    assert_eq!(action_route(&config, &planned), ActionRoute::RecordPlan);
    assert_eq!(action_route(&config, &sample(WorkflowSuggestionKind::Feature)), ActionRoute::RunTests);
    assert_eq!(action_route(&config, &sample(WorkflowSuggestionKind::DocSync)), ActionRoute::SyncDocs);
}

#[test]
fn command_and_kind_names() {
    assert_eq!(parse_action_command("cargo test -q"), Some(ActionCommand::CargoTest));
    assert_eq!(parse_action_command("shadow-plan"), Some(ActionCommand::ShadowPlan));
    assert_eq!(parse_action_command("rm -rf /"), None);
    assert_eq!(action_command_name(ActionCommand::CargoTest), "cargo test -q");
    assert_eq!(parse_kind_name("bug_fix"), Some(WorkflowSuggestionKind::BugFix));
    assert_eq!(parse_kind_name("doc_sync"), Some(WorkflowSuggestionKind::DocSync));
    assert_eq!(parse_kind_name("BugFix"), None);
}

#[test]
fn initial_project_starts_at_round_zero() {
    let config = initial_config();
    let state = initial_state(&config);
    assert_eq!(state.loop_iteration, 0);
    assert_eq!(state.stage, AutopilotStage::Plan);
    assert_eq!(state.next_report_at, 10);
    assert!(state.pending_confirmation.is_empty());
    assert_eq!(state.project_id, "lightpanda-automation");
    assert_eq!(state.last_error_category, ErrorCategory::Unset);
    assert_eq!(config.confirmation_points.len(), 5);
}
