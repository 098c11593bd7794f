use project_autopilot::daemon::{
    daemon_finished, parse_daemon_args, parse_unsigned, project_id_of_config, same_text,
    sort_project_ids, text_le_exec,
    DaemonArgError, DaemonFlag,
};

fn args(items: &[&str]) -> Vec<String> {
    items.iter().map(|s| s.to_string()).collect()
}

#[test]
fn daemon_defaults() {
    let o = parse_daemon_args(&args(&[])).unwrap();
    assert_eq!(o.project_id, "lightpanda-automation");
    assert_eq!(o.interval_seconds, 300);
    assert_eq!(o.max_ticks, 0);
}

#[test]
fn daemon_options_in_any_order() {
    let o = parse_daemon_args(&args(&["demo", "--ticks", "3", "--interval-seconds", "+15"])).unwrap();
    assert_eq!(o.project_id, "demo");
    assert_eq!(o.interval_seconds, 15);
    assert_eq!(o.max_ticks, 3);
    let later = parse_daemon_args(&args(&["demo", "--ticks", "3", "--ticks", "4"])).unwrap();
    assert_eq!(later.max_ticks, 4);
}

#[test]
fn daemon_refusals() {
    assert_eq!(
        parse_daemon_args(&args(&["demo", "--ticks"])),
        Err(DaemonArgError::MissingValue(DaemonFlag::Ticks))
    );
    assert_eq!(
        parse_daemon_args(&args(&["demo", "--interval-seconds"])),
        Err(DaemonArgError::MissingValue(DaemonFlag::IntervalSeconds))
    );
    assert_eq!(
        parse_daemon_args(&args(&["demo", "--interval-seconds", "5s"])),
        Err(DaemonArgError::InvalidNumber(DaemonFlag::IntervalSeconds, 2))
    );
    assert_eq!(
        parse_daemon_args(&args(&["demo", "--ticks", "-1"])),
        Err(DaemonArgError::InvalidNumber(DaemonFlag::Ticks, 2))
    );
    assert_eq!(parse_daemon_args(&args(&["demo", "--fast"])), Err(DaemonArgError::UnknownArg(1)));
    assert_eq!(
        parse_daemon_args(&args(&["demo", "--interval-seconds", "0"])),
        Err(DaemonArgError::ZeroInterval)
    );
}

#[test]
fn unsigned_parsing_agrees_with_std() {
    for s in [
        "0", "7", "+7", "", "+", "-", "-3", "12a", "007", "18446744073709551615",
        "18446744073709551616", "99999999999999999999", "+18446744073709551615", " 1", "1 ",
    ] {
        assert_eq!(parse_unsigned(s, u64::MAX), s.parse::<u64>().ok(), "parsing {:?}", s);
    }
    assert_eq!(parse_unsigned("300", 255), None);
    assert_eq!(parse_unsigned("255", 255), Some(255));
}

#[test]
fn daemon_stops_after_requested_ticks() {
    assert!(!daemon_finished(5, 0));
    assert!(!daemon_finished(2, 3));
    assert!(daemon_finished(3, 3));
}

#[test]
fn config_file_names_give_project_ids() {
    assert_eq!(project_id_of_config("demo.json"), Some("demo".to_string()));
    assert_eq!(project_id_of_config("a.b.json"), Some("a.b".to_string()));
    assert_eq!(project_id_of_config(".json"), None);
    assert_eq!(project_id_of_config("demo.toml"), None);
    assert_eq!(project_id_of_config("项目.json"), Some("项目".to_string()));
    for name in ["demo.json", "a.b.json", ".json", "demo.toml", "json", "x.JSON", "..json"] {
        let p = std::path::Path::new(name);
        let expected = if p.extension().and_then(|v| v.to_str()) == Some("json") {
            p.file_stem().and_then(|v| v.to_str()).map(|s| s.to_string())
        } else {
            None
        };
        assert_eq!(project_id_of_config(name), expected, "{:?}", name);
    }
    assert!(same_text("a", "a"));
    assert!(!same_text("a", "ab"));
}

#[test]
fn project_ids_sort_as_strings_do() {
    let mut ids = args(&["lightpanda-automation", "b", "a", "项目", "ab", "", "a", "Zed", "é", "e"]);
    let mut expected = ids.clone();
    expected.sort();
    sort_project_ids(&mut ids);
    assert_eq!(ids, expected);
    assert!(text_le_exec(&"a".to_string(), &"ab".to_string()));
    assert!(!text_le_exec(&"b".to_string(), &"ab".to_string()));
    assert!(text_le_exec(&"x".to_string(), &"x".to_string()));
}
