//! The response grammar: `<key>: <value>` lines and the one error line.
use vstd::prelude::*;
use vstd::string::StringExecFns;
use crate::request::{field_name, tap_name, Field, Request, RequestModel};

verus! {

/// The line answered to every request that fails.
pub open spec fn error_text() -> Seq<char> {
    "Invalid request.\n"@
}

/// The line answered to every request that fails.
pub fn error_line() -> (r: String)
    ensures
        r@ == error_text(),
{
    String::from_str("Invalid request.\n")
}

/// The key of the response to a request: the field of a query, else the
/// command's own name.
pub open spec fn response_key(q: RequestModel) -> Seq<char> {
    match q {
        RequestModel::Get(f) => field_name(f),
        RequestModel::RtcClearFlag => "rtc_clear_flag"@,
        RequestModel::RtcPi2Rtc => "rtc_pi2rtc"@,
        RequestModel::RtcRtc2Pi => "rtc_rtc2pi"@,
        RequestModel::RtcWeb => "rtc_web"@,
        RequestModel::RtcAlarmSet { .. } => "rtc_alarm_set"@,
        RequestModel::RtcAlarmDisable => "rtc_alarm_disable"@,
        RequestModel::SetSafeShutdownLevel(_) => "set_safe_shutdown_level"@,
        RequestModel::RtcTestWake => "rtc_test_wake"@,
        RequestModel::SetButtonEnable(_, _) => "set_button_enable"@,
        RequestModel::SetButtonShell(_, _) => "set_button_shell"@,
    }
}

/// The value part of a successful response. `v` is what was read, for a
/// query; a button field is reported with its tap kind in front. A command
/// answers with a fixed text.
pub open spec fn response_value(q: RequestModel, v: Seq<char>) -> Seq<char> {
    match q {
        RequestModel::Get(Field::ButtonEnable(k)) => tap_name(k) + " "@ + v,
        RequestModel::Get(Field::ButtonShell(k)) => tap_name(k) + " "@ + v,
        RequestModel::Get(_) => v,
        RequestModel::RtcTestWake => "wakeup after 1 min 30 sec"@,
        _ => "done"@,
    }
}

/// The line answered to a request that succeeded with value `v`.
pub open spec fn success_text(q: RequestModel, v: Seq<char>) -> Seq<char> {
    response_key(q) + ": "@ + response_value(q, v) + "\n"@
}

/// The text of a flag in a response.
pub open spec fn bool_text(b: bool) -> Seq<char> {
    if b {
        "true"@
    } else {
        "false"@
    }
}

/// The text of a flag in a response.
pub fn bool_string(b: bool) -> (r: String)
    ensures
        r@ == bool_text(b),
{
    if b {
        String::from_str("true")
    } else {
        String::from_str("false")
    }
}

impl Request {
    /// The key of the response to this request.
    pub fn key(&self) -> (r: &'static str)
        ensures
            r@ == response_key(self@),
    {
        match self {
            Request::Get(f) => match f {
                Field::Model => "model",
                Field::Battery => "battery",
                Field::BatteryV => "battery_v",
                Field::BatteryI => "battery_i",
                Field::BatteryCharging => "battery_charging",
                Field::RtcTime => "rtc_time",
                Field::RtcTimeList => "rtc_time_list",
                Field::RtcAlarmFlag => "rtc_alarm_flag",
                Field::RtcAlarmTime => "rtc_alarm_time",
                Field::RtcAlarmTimeList => "rtc_alarm_time_list",
                Field::RtcAlarmEnabled => "rtc_alarm_enabled",
                Field::AlarmRepeat => "alarm_repeat",
                Field::SafeShutdownLevel => "safe_shutdown_level",
                Field::ButtonEnable(_) => "button_enable",
                Field::ButtonShell(_) => "button_shell",
            },
            Request::RtcClearFlag => "rtc_clear_flag",
            Request::RtcPi2Rtc => "rtc_pi2rtc",
            Request::RtcRtc2Pi => "rtc_rtc2pi",
            Request::RtcWeb => "rtc_web",
            Request::RtcAlarmSet { .. } => "rtc_alarm_set",
            Request::RtcAlarmDisable => "rtc_alarm_disable",
            Request::SetSafeShutdownLevel(_) => "set_safe_shutdown_level",
            Request::RtcTestWake => "rtc_test_wake",
            Request::SetButtonEnable(_, _) => "set_button_enable",
            Request::SetButtonShell(_, _) => "set_button_shell",
        }
    }

    /// The line answered to this request: `outcome` is `None` where the
    /// request failed, and else holds what was read (for a query; a command
    /// ignores it).
    pub fn reply(&self, outcome: Option<String>) -> (r: String)
        ensures
            r@ == match outcome {
                Some(v) => success_text(self@, v@),
                None => error_text(),
            },
    {
        match outcome {
            None => error_line(),
            Some(v) => {
                let mut r = String::from_str(self.key());
                r.append(": ");
                match self {
                    Request::Get(Field::ButtonEnable(k)) | Request::Get(Field::ButtonShell(k)) => {
                        let name = k.name();
                        r.append(name.as_str());
                        r.append(" ");
                        r.append(v.as_str());
                    },
                    Request::Get(_) => {
                        r.append(v.as_str());
                    },
                    Request::RtcTestWake => {
                        r.append("wakeup after 1 min 30 sec");
                    },
                    _ => {
                        r.append("done");
                    },
                }
                r.append("\n");
                r
            },
        }
    }
}

} // verus!
