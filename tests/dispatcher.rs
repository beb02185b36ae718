use pisugar_server::clock::web_time;
use pisugar_server::dispatch::{ButtonSettings, Step};
use pisugar_server::request::{parse_request, Field, Request, TapKind};
use pisugar_server::response::error_line;

fn settings() -> ButtonSettings {
    ButtonSettings {
        single_enable: false,
        double_enable: false,
        long_enable: false,
        single_shell: String::new(),
        double_shell: String::new(),
        long_shell: String::new(),
    }
}

fn reply_of(step: Step) -> String {
    match step {
        Step::Reply(s) => s,
        other => panic!("expected a reply, got {:?}", other),
    }
}

fn saved_of(step: Step) -> String {
    match step {
        Step::Save(s) => s,
        other => panic!("expected a save, got {:?}", other),
    }
}

fn device_of(step: Step) -> Request {
    match step {
        Step::Device(q) => q,
        other => panic!("expected a device request, got {:?}", other),
    }
}

#[test]
fn button_enable_set_then_get() {
    let mut s = settings();
    assert_eq!(saved_of(s.handle_line("set_button_enable single 1")), "set_button_enable: done\n");
    let r = reply_of(s.handle_line("get button_enable single"));
    assert_eq!(r, "button_enable: single true\n");
    assert!(r.contains("single true"));
    assert_eq!(saved_of(s.handle_line("set_button_enable single 0")), "set_button_enable: done\n");
    let r = reply_of(s.handle_line("get button_enable single"));
    assert_eq!(r, "button_enable: single false\n");
    assert!(s.double_enable == false && s.long_enable == false);
}

#[test]
fn button_enable_nonzero_token_enables() {
    let mut s = settings();
    s.handle_line("set_button_enable long yes");
    assert!(s.long_enable);
    assert_eq!(reply_of(s.handle_line("get button_enable long")), "button_enable: long true\n");
}

#[test]
fn button_shell_joins_with_single_spaces() {
    let mut s = settings();
    let r = saved_of(s.handle_line("set_button_shell double  sudo   shutdown now"));
    assert_eq!(r, "set_button_shell: done\n");
    assert_eq!(s.double_shell, "sudo shutdown now");
    assert_eq!(
        reply_of(s.handle_line("get button_shell double")),
        "button_shell: double sudo shutdown now\n"
    );
}

#[test]
fn unknown_and_short_requests_fail() {
    let mut s = settings();
    let err = "Invalid request.\n";
    assert_eq!(error_line(), err);
    for line in [
        "", "   ", "hello", "GET model", "get", "get nothing", "get button_enable",
        "get button_shell triple", "rtc_alarm_set", "rtc_alarm_set 2020-01-01T10:00:00+08:00",
        "set_safe_shutdown_level", "set_button_enable", "set_button_enable single",
        "set_button_enable triple 1", "set_button_shell", "set_button_shell long",
    ] {
        assert_eq!(reply_of(s.handle_line(line)), err, "line {:?}", line);
    }
    assert_eq!(s.single_shell, "");
    assert!(!s.single_enable);
}

#[test]
fn get_keys_are_the_field_names() {
    let mut s = settings();
    for name in [
        "model", "battery", "battery_v", "battery_i", "battery_charging", "rtc_time",
        "rtc_time_list", "rtc_alarm_flag", "rtc_alarm_time", "rtc_alarm_time_list",
        "rtc_alarm_enabled", "alarm_repeat", "safe_shutdown_level",
    ] {
        let q = device_of(s.handle_line(&format!("get {}", name)));
        assert_eq!(q.key(), name);
        assert_eq!(q.reply(Some("42".to_string())), format!("{}: 42\n", name));
    }
}

#[test]
fn safe_shutdown_level_set_then_get() {
    let mut s = settings();
    let q = device_of(s.handle_line("set_safe_shutdown_level 10.5"));
    match &q {
        Request::SetSafeShutdownLevel(t) => assert_eq!(t, "10.5"),
        other => panic!("unexpected {:?}", other),
    }
    assert_eq!(q.reply(Some(String::new())), "set_safe_shutdown_level: done\n");
    let q = device_of(s.handle_line("get safe_shutdown_level"));
    assert!(matches!(q, Request::Get(Field::SafeShutdownLevel)));
    assert_eq!(q.reply(Some("10.5".to_string())), "safe_shutdown_level: 10.5\n");
}

#[test]
fn device_failure_gives_error_line() {
    let q = parse_request("rtc_clear_flag").unwrap();
    assert_eq!(q.reply(None), "Invalid request.\n");
    assert_eq!(q.reply(Some(String::new())), "rtc_clear_flag: done\n");
}

#[test]
fn fixed_replies_of_commands() {
    for (line, want) in [
        ("rtc_clear_flag", "rtc_clear_flag: done\n"),
        ("rtc_pi2rtc", "rtc_pi2rtc: done\n"),
        ("rtc_rtc2pi", "rtc_rtc2pi: done\n"),
        ("rtc_web", "rtc_web: done\n"),
        ("rtc_alarm_disable", "rtc_alarm_disable: done\n"),
        ("rtc_test_wake", "rtc_test_wake: wakeup after 1 min 30 sec\n"),
    ] {
        let q = parse_request(line).unwrap();
        assert_eq!(q.reply(Some("ignored".to_string())), want);
    }
}

#[test]
fn alarm_set_reads_time_and_mask() {
    let q = parse_request("rtc_alarm_set 2020-01-01T10:00:00+08:00 127").unwrap();
    match q {
        Request::RtcAlarmSet { timestamp, offset, repeat } => {
            assert_eq!(timestamp, 1577844000);
            assert_eq!(offset, 28800);
            assert_eq!(repeat, 127);
        }
        other => panic!("unexpected {:?}", other),
    }
    match parse_request("rtc_alarm_set 2020-01-01T10:00:00Z +5").unwrap() {
        Request::RtcAlarmSet { offset, repeat, .. } => {
            assert_eq!(offset, 0);
            assert_eq!(repeat, 5);
        }
        other => panic!("unexpected {:?}", other),
    }
    assert!(parse_request("rtc_alarm_set 2020-01-01T10:00:00+08:00 256").is_none());
    assert!(parse_request("rtc_alarm_set 2020-01-01T10:00:00+08:00 -1").is_none());
    assert!(parse_request("rtc_alarm_set 2020-01-01T10:00:00+08:00 +").is_none());
    assert!(parse_request("rtc_alarm_set yesterday 1").is_none());
}

#[test]
fn extra_tokens_are_ignored() {
    let q = parse_request("get button_enable double extra").unwrap();
    assert!(matches!(q, Request::Get(Field::ButtonEnable(TapKind::Double))));
    assert!(matches!(parse_request("rtc_web now").unwrap(), Request::RtcWeb));
}

#[test]
fn tap_names() {
    assert_eq!(TapKind::Single.name(), "single");
    assert_eq!(TapKind::Double.name(), "double");
    assert_eq!(TapKind::Long.name(), "long");
}

#[test]
fn web_time_reads_http_date() {
    assert_eq!(web_time("Tue, 1 Jul 2003 10:52:37 +0200"), Some((1057049557, 7200)));
    assert_eq!(web_time("Thu, 01 Jan 1970 00:00:10 GMT"), Some((10, 0)));
    assert_eq!(web_time("not a date"), None);
}
