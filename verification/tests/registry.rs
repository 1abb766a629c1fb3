use desktop_tui::registry::{list_output, list_report, missing_dir_notice, session_dir,
    session_line, session_name_of, socket_path, SessionProbe};

#[test]
fn socket_path_is_derived_from_the_session_name() {
    assert_eq!(
        socket_path("/home/u", "default"),
        "/home/u/.local/share/desktop-tui/default.sock"
    );
    assert_eq!(socket_path("/home/u", "t1"), "/home/u/.local/share/desktop-tui/t1.sock");
}

#[test]
fn session_dir_sits_under_the_home_directory() {
    assert_eq!(session_dir("/root"), "/root/.local/share/desktop-tui");
}

#[test]
fn socket_file_names_yield_session_names() {
    assert_eq!(session_name_of("t1.sock"), Some("t1".to_string()));
    assert_eq!(session_name_of("default.sock"), Some("default".to_string()));
    assert_eq!(session_name_of("a.b.sock"), Some("a.b".to_string()));
}

#[test]
fn other_file_names_yield_nothing() {
    assert_eq!(session_name_of("notes.txt"), None);
    assert_eq!(session_name_of("sock"), None);
    assert_eq!(session_name_of(".sock"), None);
    assert_eq!(session_name_of(""), None);
    assert_eq!(session_name_of("t1.socket"), None);
}

#[test]
fn session_lines_report_liveness() {
    assert_eq!(session_line("t1", true), "  t1 (active)");
    assert_eq!(session_line("t1", false), "  t1 (stale)");
}

#[test]
fn report_keeps_directory_order_and_skips_other_files() {
    let probes = vec![
        SessionProbe { file_name: "t1.sock".to_string(), alive: true },
        SessionProbe { file_name: "readme.md".to_string(), alive: true },
        SessionProbe { file_name: "old.sock".to_string(), alive: false },
    ];
    assert_eq!(list_report(&probes), vec!["  t1 (active)", "  old (stale)"]);
}

#[test]
fn empty_directory_reports_no_sessions() {
    assert_eq!(list_output(&vec![]), vec!["No sessions found."]);
}

#[test]
fn directory_without_socket_files_reports_no_sessions() {
    let probes = vec![SessionProbe { file_name: "readme.md".to_string(), alive: true }];
    assert_eq!(list_output(&probes), vec!["No sessions found."]);
}

#[test]
fn directory_with_socket_files_reports_them() {
    let probes = vec![
        SessionProbe { file_name: "t1.sock".to_string(), alive: true },
        SessionProbe { file_name: "t2.sock".to_string(), alive: false },
    ];
    assert_eq!(list_output(&probes), vec!["  t1 (active)", "  t2 (stale)"]);
}

#[test]
fn absent_directory_has_its_own_notice() {
    assert_eq!(
        missing_dir_notice(),
        "No sessions found (session directory does not exist)."
    );
}
