use rustmix::error::RmxError;
use rustmix::vpn::{
    checked, CommandOutput, ExpressVPN, ExpressVPNStatus,
    RESPONSE_ERROR,
};

fn ok(stdout: &str) -> CommandOutput {
    CommandOutput { code: Some(0), stdout: stdout.as_bytes().to_vec(), stderr: Vec::new() }
}

fn failed(code: Option<i32>, stderr: &str) -> CommandOutput {
    CommandOutput { code, stdout: Vec::new(), stderr: stderr.as_bytes().to_vec() }
}

#[test]
fn version_from_first_digit() {
    let vpn = ExpressVPN;
    assert_eq!(vpn.version(&ok("ExpressVPN version 3.45.0.6-1 \n")), Ok("3.45.0.6-1".to_string()));
    assert_eq!(vpn.version(&ok("no version here")), Err(RmxError::Invalid(RESPONSE_ERROR.to_string())));
}

#[test]
fn failed_commands_report_their_error_output() {
    let vpn = ExpressVPN;
    assert_eq!(vpn.version(&failed(Some(2), "boom")), Err(RmxError::Command(2, "boom".to_string())));
    assert_eq!(vpn.version(&failed(None, "killed")), Err(RmxError::Command(-1, "killed".to_string())));
    let bad = CommandOutput { code: Some(1), stdout: Vec::new(), stderr: vec![0xff, 0xfe] };
    assert_eq!(
        vpn.version(&bad),
        Err(RmxError::External("invalid utf-8 sequence of 1 bytes from index 0".to_string()))
    );
    let bad_out = CommandOutput { code: Some(0), stdout: vec![0xc3], stderr: Vec::new() };
    assert_eq!(
        vpn.version(&bad_out),
        Err(RmxError::External("incomplete utf-8 byte sequence from index 0".to_string()))
    );
    assert_eq!(checked(&ok("")), Ok(()));
    assert_eq!(vpn.refresh(&failed(Some(3), "no")), Err(RmxError::Command(3, "no".to_string())));
    assert_eq!(vpn.network_lock(&ok("")), Ok(()));
    assert_eq!(vpn.block_trackers(&failed(None, "")), Err(RmxError::Command(-1, String::new())));
}

#[test]
fn status_cases() {
    let vpn = ExpressVPN;
    let cases = [
        ("Not Activated", Ok(ExpressVPNStatus::NotActivated)),
        ("  Not connected\n", Ok(ExpressVPNStatus::Disconnected)),
        (
            "Connected to Germany - Frankfurt\n   - tips",
            Ok(ExpressVPNStatus::Connected(Some("Connected to Germany - Frankfurt".to_string()))),
        ),
        ("Connected to Germany", Ok(ExpressVPNStatus::Connected(Some("Connected to Germany".to_string())))),
        ("You are connected", Ok(ExpressVPNStatus::Connected(None))),
        ("Oops! something", Ok(ExpressVPNStatus::Error("Oops! something".to_string()))),
        ("a problem", Ok(ExpressVPNStatus::Error("a problem".to_string()))),
        ("weird", Err(RmxError::Invalid("weird".to_string()))),
    ];
    for (text, expected) in cases {
        let out = ok(text);
        assert!(vpn.status_is_readable(&out));
        assert_eq!(vpn.status(&out), expected);
    }
}

#[test]
fn status_line_without_line_feed_after_start_is_unreadable() {
    let vpn = ExpressVPN;
    assert!(!vpn.status_is_readable(&ok("Info\nConnected to Japan")));
    assert!(vpn.status_is_readable(&ok("Info\nConnected to Japan\nmore")));
    assert_eq!(
        vpn.status(&ok("Info\nConnected to Japan\nmore")),
        Ok(ExpressVPNStatus::Connected(Some("Connected to Japan".to_string())))
    );
}

#[test]
fn connect_arguments_follow_the_disconnect() {
    let vpn = ExpressVPN;
    assert_eq!(vpn.connect(Ok(ExpressVPNStatus::Disconnected)), Ok(vec!["connect".to_string()]));
    assert_eq!(vpn.connect(Err(RmxError::Timeout)), Err(RmxError::Timeout));
    assert_eq!(
        vpn.connect_target("usny", Ok(ExpressVPNStatus::Disconnected)),
        Ok(vec!["connect".to_string(), "usny".to_string()])
    );
    assert_eq!(vpn.connect_target("", Ok(ExpressVPNStatus::Disconnected)), Ok(vec!["connect".to_string()]));
    assert_eq!(vpn.connect_target("x", Err(RmxError::NoInput)), Err(RmxError::NoInput));
}

#[test]
fn connect_output_cases() {
    let vpn = ExpressVPN;
    let out = ok("Connected to USA - New York\n\n   - To check your connection status");
    assert!(vpn.connected_is_readable(&out));
    assert_eq!(vpn.connected(&out), Ok(ExpressVPNStatus::Connected(Some("Connected to USA - New York".to_string()))));
    assert_eq!(vpn.connected(&ok("Canceled by user")), Err(RmxError::Canceled));
    assert_eq!(
        vpn.connected(&ok("stopped unexpectedly")),
        Err(RmxError::Network("stopped unexpectedly".to_string()))
    );
    assert_eq!(vpn.connected(&ok("??")), Err(RmxError::Invalid("??".to_string())));
    assert!(!vpn.connected_is_readable(&ok("Connecting...\nConnected to USA - New York\n")));
}

#[test]
fn disconnect_cases() {
    let vpn = ExpressVPN;
    assert_eq!(vpn.disconnect(&ok("Disconnected.\n")), Ok(ExpressVPNStatus::Disconnected));
    assert_eq!(vpn.disconnect(&failed(Some(1), "Disconnected already")), Ok(ExpressVPNStatus::Disconnected));
    assert_eq!(vpn.disconnect(&failed(Some(1), "fail")), Err(RmxError::Command(1, "fail".to_string())));
    assert_eq!(vpn.disconnect(&ok(" huh ")), Err(RmxError::Invalid("huh".to_string())));
    assert_eq!(vpn.disconnect(&failed(None, "sig")), Err(RmxError::Command(-1, "sig".to_string())));
}

#[test]
fn clean_location_collapses_whitespace_runs() {
    let vpn = ExpressVPN;
    let pattern = vpn.location_pattern().unwrap();
    assert_eq!(vpn.clean_location(&pattern, "a  b"), "a\tb");
    assert_eq!(vpn.clean_location(&pattern, "usny  United States (US)   USA - New York  "), "usny\tUnited States (US)\tUSA - New York");
    assert_eq!(vpn.clean_location(&pattern, "single word"), "single\tword");
    assert_eq!(vpn.clean_location(&pattern, ""), "");
}

#[test]
fn locations_from_list_output() {
    let vpn = ExpressVPN;
    let text = "ALIAS COUNTRY LOCATION\n----- ------- --------\nusny  United States (US)  USA - New York\nuk    United Kingdom (GB)  UK - London\n\nType 'expressvpn list all' to see all locations.\n";
    let out = ok(text);
    assert!(vpn.locations_are_readable(&out));
    let expected = vec![
        "usny\tUnited States (US)\tUSA - New York".to_string(),
        "uk\tUnited Kingdom (GB)\tUK - London".to_string(),
    ];
    assert_eq!(vpn.locations(&out), Ok(expected.clone()));
    assert_eq!(vpn.try_locations(&out), Some(Ok(expected)));
    let plain = ok("a b\n\nc  d\n");
    assert_eq!(vpn.locations(&plain), Ok(vec!["a\tb".to_string(), "c\td".to_string()]));
    let disordered = ok("Type x\n--");
    assert!(!vpn.locations_are_readable(&disordered));
    assert_eq!(vpn.try_locations(&disordered), None);
}

#[test]
fn all_locations_from_list_output() {
    let vpn = ExpressVPN;
    let out = ok("HEADER\n-- --\nsmart Smart Location\r\nus1  USA   One\n");
    assert_eq!(
        vpn.all_locations(&out),
        Ok(vec!["smart\tSmart Location".to_string(), "us1\tUSA\tOne".to_string()])
    );
    assert_eq!(vpn.all_locations(&failed(Some(5), "x")), Err(RmxError::Command(5, "x".to_string())));
}

#[test]
fn preference_arguments() {
    let vpn = ExpressVPN;
    assert_eq!(vpn.network_lock_args(true), vec!["preferences", "set", "network_lock", "on"]);
    assert_eq!(vpn.network_lock_args(false), vec!["preferences", "set", "network_lock", "off"]);
    assert_eq!(vpn.block_trackers_args(true), vec!["preferences", "set", "block_trackers", "true"]);
    assert_eq!(vpn.block_trackers_args(false), vec!["preferences", "set", "block_trackers", "false"]);
}
