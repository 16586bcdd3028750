use llm_wake_proxy::systemd::{
    get_text_args, get_text_outcome, is_active_args, is_active_outcome, replace_unit_args,
    replace_unit_outcome, show_unit_args, show_unit_outcome, start_unit_args, start_unit_outcome,
    stop_unit_args, stop_unit_outcome, CommandOutput,
};

fn ran(success: bool, stdout: &[u8], stderr: &[u8]) -> Result<CommandOutput, String> {
    Ok(CommandOutput {
        success,
        stdout: stdout.to_vec(),
        stderr: stderr.to_vec(),
    })
}

fn not_run() -> Result<CommandOutput, String> {
    Err("No such file".to_string())
}

#[test]
fn command_lines_of_systemctl() {
    assert_eq!(
        show_unit_args("u"),
        [
            "--user",
            "show",
            "u",
            "--property=ActiveState",
            "--property=SubState",
            "--property=Description",
        ]
    );
    assert_eq!(is_active_args("u"), ["--user", "is-active", "u"]);
    assert_eq!(start_unit_args("u"), ["--user", "start", "u"]);
    assert_eq!(stop_unit_args("u"), ["--user", "stop", "u"]);
}

#[test]
fn command_line_of_systemd_run() {
    assert_eq!(
        replace_unit_args("u", "what it is", &["sleep", "60"]),
        [
            "--user",
            "--unit",
            "u",
            "--replace",
            "--description",
            "what it is",
            "--collect",
            "sleep",
            "60",
        ]
    );
    assert_eq!(replace_unit_args("u", "d", &[]).len(), 7);
}

#[test]
fn command_line_of_curl() {
    assert_eq!(get_text_args("http://x"), ["-sf", "http://x"]);
}

#[test]
fn properties_are_read_line_by_line() {
    let shown = show_unit_outcome(ran(
        true,
        b"ActiveState=active\r\nnothing here\nDescription=a=b\nActiveState=failed\n\n=empty name\nlast=no end",
        b"",
    ))
    .unwrap();
    assert_eq!(shown.get("ActiveState").unwrap(), "failed");
    assert_eq!(shown.get("Description").unwrap(), "a=b");
    assert_eq!(shown.get("").unwrap(), "empty name");
    assert_eq!(shown.get("last").unwrap(), "no end");
    assert!(shown.get("nothing here").is_none());
}

#[test]
fn a_carriage_return_belongs_to_a_line_ending_only() {
    let shown = show_unit_outcome(ran(true, b"a=1\r\nb=2\r\r\nc=3\r", b"")).unwrap();
    assert_eq!(shown.get("a").unwrap(), "1");
    assert_eq!(shown.get("b").unwrap(), "2\r");
    assert_eq!(shown.get("c").unwrap(), "3\r");
}

#[test]
fn failures_of_systemctl() {
    assert_eq!(
        show_unit_outcome(not_run()).unwrap_err(),
        "failed to run systemctl: No such file"
    );
    assert_eq!(
        show_unit_outcome(ran(false, b"", b"no \xff unit")).unwrap_err(),
        "systemctl show failed: no \u{fffd} unit"
    );
    assert_eq!(
        show_unit_outcome(ran(true, b"\xff", b"")).unwrap_err(),
        format!(
            "invalid UTF-8 in systemctl output: {}",
            String::from_utf8(b"\xff".to_vec()).unwrap_err()
        )
    );
    assert_eq!(
        is_active_outcome(not_run()).unwrap_err(),
        "failed to run systemctl: No such file"
    );
    assert_eq!(start_unit_outcome(not_run()).unwrap_err(), "failed to run systemctl: No such file");
    assert_eq!(
        start_unit_outcome(ran(false, b"", b"masked")).unwrap_err(),
        "systemctl start failed: masked"
    );
    assert_eq!(
        stop_unit_outcome(ran(false, b"", b"not loaded")).unwrap_err(),
        "systemctl stop failed: not loaded"
    );
    assert_eq!(
        replace_unit_outcome(not_run()).unwrap_err(),
        "failed to run systemd-run: No such file"
    );
    assert_eq!(
        replace_unit_outcome(ran(false, b"", b"denied")).unwrap_err(),
        "systemd-run failed: denied"
    );
}

#[test]
fn successes_of_systemctl() {
    assert_eq!(is_active_outcome(ran(true, b"active\n", b"")), Ok(true));
    assert_eq!(is_active_outcome(ran(false, b"inactive\n", b"")), Ok(false));
    assert_eq!(start_unit_outcome(ran(true, b"", b"")), Ok(()));
    assert_eq!(stop_unit_outcome(ran(true, b"", b"")), Ok(()));
    assert_eq!(replace_unit_outcome(ran(true, b"", b"")), Ok(()));
}

#[test]
fn text_fetched_by_curl() {
    assert_eq!(get_text_outcome(ran(true, b"{}", b"")).unwrap(), "{}");
    assert_eq!(get_text_outcome(ran(false, b"{}", b"22")).unwrap_err(), "curl failed: 22");
    assert_eq!(get_text_outcome(not_run()).unwrap_err(), "failed to run curl: No such file");
    assert_eq!(
        get_text_outcome(ran(true, b"\xc3", b"")).unwrap_err(),
        format!("invalid UTF-8: {}", String::from_utf8(b"\xc3".to_vec()).unwrap_err())
    );
}
