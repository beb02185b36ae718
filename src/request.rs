//! The command grammar: a request line parsed into a typed request.
use vstd::prelude::*;
use crate::clock::{fixed_offset_parse, parse_fixed_offset};
use crate::text::{join_from, join_spaces, same_chars, split_tokens, string_of, tokens, views};

verus! {

/// A button interaction reported by the device.
#[derive(Clone, Copy, Debug, PartialEq, Eq, Structural)]
pub enum TapKind {
    Single,
    Double,
    Long,
}

/// The wire name of a tap kind.
pub open spec fn tap_name(k: TapKind) -> Seq<char> {
    match k {
        TapKind::Single => "single"@,
        TapKind::Double => "double"@,
        TapKind::Long => "long"@,
    }
}

/// The tap kind that a token names, if any.
pub open spec fn tap_of(t: Seq<char>) -> Option<TapKind> {
    if t == "single"@ {
        Some(TapKind::Single)
    } else if t == "double"@ {
        Some(TapKind::Double)
    } else if t == "long"@ {
        Some(TapKind::Long)
    } else {
        None
    }
}

impl TapKind {
    /// The wire name of this tap kind, as sent to subscribers.
    pub fn name(&self) -> (r: String)
        ensures
            r@ == tap_name(*self),
    {
        match self {
            TapKind::Single => String::from_str("single"),
            TapKind::Double => String::from_str("double"),
            TapKind::Long => String::from_str("long"),
        }
    }

    /// The tap kind that `t` names, if any.
    pub fn parse(t: &Vec<char>) -> (r: Option<TapKind>)
        ensures
            r == tap_of(t@),
    {
        if same_chars(t, "single") {
            Some(TapKind::Single)
        } else if same_chars(t, "double") {
            Some(TapKind::Double)
        } else if same_chars(t, "long") {
            Some(TapKind::Long)
        } else {
            None
        }
    }
}

/// A readable field of the device state, as named by a `get` query.
#[derive(Clone, Copy, Debug, PartialEq, Eq, Structural)]
pub enum Field {
    Model,
    Battery,
    BatteryV,
    BatteryI,
    BatteryCharging,
    RtcTime,
    RtcTimeList,
    RtcAlarmFlag,
    RtcAlarmTime,
    RtcAlarmTimeList,
    RtcAlarmEnabled,
    AlarmRepeat,
    SafeShutdownLevel,
    ButtonEnable(TapKind),
    ButtonShell(TapKind),
}

/// The name of a field on the wire, which is also the key of its response.
pub open spec fn field_name(f: Field) -> Seq<char> {
    match f {
        Field::Model => "model"@,
        Field::Battery => "battery"@,
        Field::BatteryV => "battery_v"@,
        Field::BatteryI => "battery_i"@,
        Field::BatteryCharging => "battery_charging"@,
        Field::RtcTime => "rtc_time"@,
        Field::RtcTimeList => "rtc_time_list"@,
        Field::RtcAlarmFlag => "rtc_alarm_flag"@,
        Field::RtcAlarmTime => "rtc_alarm_time"@,
        Field::RtcAlarmTimeList => "rtc_alarm_time_list"@,
        Field::RtcAlarmEnabled => "rtc_alarm_enabled"@,
        Field::AlarmRepeat => "alarm_repeat"@,
        Field::SafeShutdownLevel => "safe_shutdown_level"@,
        Field::ButtonEnable(_) => "button_enable"@,
        Field::ButtonShell(_) => "button_shell"@,
    }
}

/// The field that the arguments of a `get` query name: `ts[1]` names it, and
/// the two button fields take the tap kind from `ts[2]`.
pub open spec fn field_of(ts: Seq<Seq<char>>) -> Option<Field> {
    if ts.len() < 2 {
        None
    } else if ts[1] == "model"@ {
        Some(Field::Model)
    } else if ts[1] == "battery"@ {
        Some(Field::Battery)
    } else if ts[1] == "battery_v"@ {
        Some(Field::BatteryV)
    } else if ts[1] == "battery_i"@ {
        Some(Field::BatteryI)
    } else if ts[1] == "battery_charging"@ {
        Some(Field::BatteryCharging)
    } else if ts[1] == "rtc_time"@ {
        Some(Field::RtcTime)
    } else if ts[1] == "rtc_time_list"@ {
        Some(Field::RtcTimeList)
    } else if ts[1] == "rtc_alarm_flag"@ {
        Some(Field::RtcAlarmFlag)
    } else if ts[1] == "rtc_alarm_time"@ {
        Some(Field::RtcAlarmTime)
    } else if ts[1] == "rtc_alarm_time_list"@ {
        Some(Field::RtcAlarmTimeList)
    } else if ts[1] == "rtc_alarm_enabled"@ {
        Some(Field::RtcAlarmEnabled)
    } else if ts[1] == "alarm_repeat"@ {
        Some(Field::AlarmRepeat)
    } else if ts[1] == "safe_shutdown_level"@ {
        Some(Field::SafeShutdownLevel)
    } else if ts[1] == "button_enable"@ && ts.len() > 2 && tap_of(ts[2]) is Some {
        Some(Field::ButtonEnable(tap_of(ts[2])->0))
    } else if ts[1] == "button_shell"@ && ts.len() > 2 && tap_of(ts[2]) is Some {
        Some(Field::ButtonShell(tap_of(ts[2])->0))
    } else {
        None
    }
}

/// Whether token `i` of `ts` is exactly `w`.
fn token_is(ts: &Vec<Vec<char>>, i: usize, w: &str) -> (r: bool)
    ensures
        r == (i < ts@.len() && views(ts@)[i as int] == w@),
{
    if i < ts.len() {
        same_chars(&ts[i], w)
    } else {
        false
    }
}

/// The field named by the arguments of a `get` query.
pub fn parse_field(ts: &Vec<Vec<char>>) -> (r: Option<Field>)
    ensures
        r == field_of(views(ts@)),
{
    if ts.len() < 2 {
        None
    } else if token_is(ts, 1, "model") {
        Some(Field::Model)
    } else if token_is(ts, 1, "battery") {
        Some(Field::Battery)
    } else if token_is(ts, 1, "battery_v") {
        Some(Field::BatteryV)
    } else if token_is(ts, 1, "battery_i") {
        Some(Field::BatteryI)
    } else if token_is(ts, 1, "battery_charging") {
        Some(Field::BatteryCharging)
    } else if token_is(ts, 1, "rtc_time") {
        Some(Field::RtcTime)
    } else if token_is(ts, 1, "rtc_time_list") {
        Some(Field::RtcTimeList)
    } else if token_is(ts, 1, "rtc_alarm_flag") {
        Some(Field::RtcAlarmFlag)
    } else if token_is(ts, 1, "rtc_alarm_time") {
        Some(Field::RtcAlarmTime)
    } else if token_is(ts, 1, "rtc_alarm_time_list") {
        Some(Field::RtcAlarmTimeList)
    } else if token_is(ts, 1, "rtc_alarm_enabled") {
        Some(Field::RtcAlarmEnabled)
    } else if token_is(ts, 1, "alarm_repeat") {
        Some(Field::AlarmRepeat)
    } else if token_is(ts, 1, "safe_shutdown_level") {
        Some(Field::SafeShutdownLevel)
    } else {
        let tap = if ts.len() > 2 {
            TapKind::parse(&ts[2])
        } else {
            None
        };
        match tap {
            Some(k) => {
                if token_is(ts, 1, "button_enable") {
                    Some(Field::ButtonEnable(k))
                } else if token_is(ts, 1, "button_shell") {
                    Some(Field::ButtonShell(k))
                } else {
                    None
                }
            },
            None => None,
        }
    }
}

/// The value of a string of decimal digits.
pub open spec fn digits_value(d: Seq<char>) -> nat
    decreases d.len(),
{
    if d.len() == 0 {
        0
    } else {
        digits_value(d.drop_last()) * 10 + (d.last() as nat - '0' as nat) as nat
    }
}

pub open spec fn is_digit(c: char) -> bool {
    '0' <= c && c <= '9'
}

/// The text of a number without its leading `+`, if it has one.
pub open spec fn unsigned_part(t: Seq<char>) -> Seq<char> {
    if t.len() > 0 && t[0] == '+' {
        t.drop_first()
    } else {
        t
    }
}

pub open spec fn all_digits(d: Seq<char>) -> bool {
    forall|i: int| 0 <= i < d.len() ==> is_digit(#[trigger] d[i])
}

/// A `u8` read as Rust reads one from text: an optional `+`, then one or more
/// decimal digits whose value fits in eight bits.
pub open spec fn u8_of(t: Seq<char>) -> Option<u8> {
    let d = unsigned_part(t);
    if d.len() > 0 && all_digits(d) && digits_value(d) <= 255 {
        Some(digits_value(d) as u8)
    } else {
        None
    }
}

/// Reads a `u8` from a token.
pub fn parse_u8(t: &Vec<char>) -> (r: Option<u8>)
    ensures
        r == u8_of(t@),
{
    let start: usize = if t.len() > 0 && t[0] == '+' { 1 } else { 0 };
    let ghost d = unsigned_part(t@);
    assert(d == t@.skip(start as int));
    if start >= t.len() {
        return None;
    }
    let mut acc: u32 = 0;
    let mut i: usize = start;
    while i < t.len()
        invariant
            start <= i <= t.len(),
            d == t@.skip(start as int),
            d == unsigned_part(t@),
            forall|j: int| start <= j < i ==> is_digit(#[trigger] t@[j]),
            acc as nat == if digits_value(t@.subrange(start as int, i as int)) < 256 {
                digits_value(t@.subrange(start as int, i as int))
            } else {
                256
            },
        decreases t.len() - i,
    {
        let c = t[i];
        if !('0' <= c && c <= '9') {
            assert(d[i - start] == t@[i as int]);
            assert(!is_digit(d[i - start]));
            assert(!all_digits(d));
            return None;
        }
        let ghost pre = t@.subrange(start as int, i as int);
        assert(t@.subrange(start as int, i + 1).drop_last() == pre);
        let dv = (c as u32) - ('0' as u32);
        if acc < 256 {
            acc = acc * 10 + dv;
            if acc > 256 {
                acc = 256;
            }
        }
        i += 1;
    }
    assert(t@.subrange(start as int, t.len() as int) == d);
    assert forall|j: int| 0 <= j < d.len() implies is_digit(#[trigger] d[j]) by {
        assert(d[j] == t@[j + start]);
    }
    if acc <= 255 {
        Some(acc as u8)
    } else {
        None
    }
}

/// A request, typed.
#[derive(Debug)]
pub enum Request {
    /// Read one field.
    Get(Field),
    /// Clear the clock's alarm flag.
    RtcClearFlag,
    /// Write the host's time to the clock.
    RtcPi2Rtc,
    /// Write the clock's time to the host.
    RtcRtc2Pi,
    /// Set host and clock from a time authority on the network, in the background.
    RtcWeb,
    /// Schedule the wake alarm at the time of day of `timestamp` (seconds since
    /// the epoch, written with an offset of `offset` seconds east of UTC),
    /// repeating on the weekdays of the mask `repeat`.
    RtcAlarmSet { timestamp: i64, offset: i32, repeat: u8 },
    /// Disable the wake alarm.
    RtcAlarmDisable,
    /// Set the battery level at which the system shuts down; the level is
    /// kept as the text of the request, a decimal number to be read by the
    /// caller.
    SetSafeShutdownLevel(String),
    /// Schedule a wake-up shortly after now, to check the hardware.
    RtcTestWake,
    /// Whether a tap kind runs its shell hook.
    SetButtonEnable(TapKind, bool),
    /// The shell hook of a tap kind.
    SetButtonShell(TapKind, String),
}

/// What a request says, with text as character sequences.
pub enum RequestModel {
    Get(Field),
    RtcClearFlag,
    RtcPi2Rtc,
    RtcRtc2Pi,
    RtcWeb,
    RtcAlarmSet { timestamp: i64, offset: i32, repeat: u8 },
    RtcAlarmDisable,
    SetSafeShutdownLevel(Seq<char>),
    RtcTestWake,
    SetButtonEnable(TapKind, bool),
    SetButtonShell(TapKind, Seq<char>),
}

impl View for Request {
    type V = RequestModel;

    open spec fn view(&self) -> RequestModel {
        match self {
            Request::Get(f) => RequestModel::Get(*f),
            Request::RtcClearFlag => RequestModel::RtcClearFlag,
            Request::RtcPi2Rtc => RequestModel::RtcPi2Rtc,
            Request::RtcRtc2Pi => RequestModel::RtcRtc2Pi,
            Request::RtcWeb => RequestModel::RtcWeb,
            Request::RtcAlarmSet { timestamp, offset, repeat } => RequestModel::RtcAlarmSet {
                timestamp: *timestamp,
                offset: *offset,
                repeat: *repeat,
            },
            Request::RtcAlarmDisable => RequestModel::RtcAlarmDisable,
            Request::SetSafeShutdownLevel(l) => RequestModel::SetSafeShutdownLevel(l@),
            Request::RtcTestWake => RequestModel::RtcTestWake,
            Request::SetButtonEnable(k, b) => RequestModel::SetButtonEnable(*k, *b),
            Request::SetButtonShell(k, c) => RequestModel::SetButtonShell(*k, c@),
        }
    }
}

/// The request that the tokens `ts` of a line make, or `None` where the
/// command is unknown or its arguments are missing or malformed. Tokens past
/// those a command reads are ignored.
pub open spec fn request_of(ts: Seq<Seq<char>>) -> Option<RequestModel> {
    if ts.len() == 0 {
        None
    } else if ts[0] == "get"@ {
        match field_of(ts) {
            Some(f) => Some(RequestModel::Get(f)),
            None => None,
        }
    } else if ts[0] == "rtc_clear_flag"@ {
        Some(RequestModel::RtcClearFlag)
    } else if ts[0] == "rtc_pi2rtc"@ {
        Some(RequestModel::RtcPi2Rtc)
    } else if ts[0] == "rtc_rtc2pi"@ {
        Some(RequestModel::RtcRtc2Pi)
    } else if ts[0] == "rtc_web"@ {
        Some(RequestModel::RtcWeb)
    } else if ts[0] == "rtc_alarm_set"@ {
        if ts.len() >= 3 && fixed_offset_parse(ts[1]) is Some && u8_of(ts[2]) is Some {
            Some(
                RequestModel::RtcAlarmSet {
                    timestamp: (fixed_offset_parse(ts[1])->0).0,
                    offset: (fixed_offset_parse(ts[1])->0).1,
                    repeat: u8_of(ts[2])->0,
                },
            )
        } else {
            None
        }
    } else if ts[0] == "rtc_alarm_disable"@ {
        Some(RequestModel::RtcAlarmDisable)
    } else if ts[0] == "set_safe_shutdown_level"@ {
        if ts.len() >= 2 {
            Some(RequestModel::SetSafeShutdownLevel(ts[1]))
        } else {
            None
        }
    } else if ts[0] == "rtc_test_wake"@ {
        Some(RequestModel::RtcTestWake)
    } else if ts[0] == "set_button_enable"@ {
        if ts.len() >= 3 && tap_of(ts[1]) is Some {
            Some(RequestModel::SetButtonEnable(tap_of(ts[1])->0, ts[2] != "0"@))
        } else {
            None
        }
    } else if ts[0] == "set_button_shell"@ {
        if ts.len() >= 3 && tap_of(ts[1]) is Some {
            Some(RequestModel::SetButtonShell(tap_of(ts[1])->0, join_spaces(ts.skip(2))))
        } else {
            None
        }
    } else {
        None
    }
}

/// The request that a line makes.
pub fn parse_tokens(ts: &Vec<Vec<char>>) -> (r: Option<Request>)
    ensures
        r is Some == request_of(views(ts@)) is Some,
        r is Some ==> r->0@ == request_of(views(ts@))->0,
{
    let ghost vs = views(ts@);
    if ts.len() == 0 {
        None
    } else if token_is(ts, 0, "get") {
        match parse_field(ts) {
            Some(f) => Some(Request::Get(f)),
            None => None,
        }
    } else if token_is(ts, 0, "rtc_clear_flag") {
        Some(Request::RtcClearFlag)
    } else if token_is(ts, 0, "rtc_pi2rtc") {
        Some(Request::RtcPi2Rtc)
    } else if token_is(ts, 0, "rtc_rtc2pi") {
        Some(Request::RtcRtc2Pi)
    } else if token_is(ts, 0, "rtc_web") {
        Some(Request::RtcWeb)
    } else if token_is(ts, 0, "rtc_alarm_set") {
        if ts.len() >= 3 {
            let when = string_of(&ts[1]);
            match parse_fixed_offset(when.as_str()) {
                Some((timestamp, offset)) => match parse_u8(&ts[2]) {
                    Some(repeat) => Some(Request::RtcAlarmSet { timestamp, offset, repeat }),
                    None => None,
                },
                None => None,
            }
        } else {
            None
        }
    } else if token_is(ts, 0, "rtc_alarm_disable") {
        Some(Request::RtcAlarmDisable)
    } else if token_is(ts, 0, "set_safe_shutdown_level") {
        if ts.len() >= 2 {
            Some(Request::SetSafeShutdownLevel(string_of(&ts[1])))
        } else {
            None
        }
    } else if token_is(ts, 0, "rtc_test_wake") {
        Some(Request::RtcTestWake)
    } else if token_is(ts, 0, "set_button_enable") {
        if ts.len() >= 3 {
            match TapKind::parse(&ts[1]) {
                Some(k) => Some(Request::SetButtonEnable(k, !token_is(ts, 2, "0"))),
                None => None,
            }
        } else {
            None
        }
    } else if token_is(ts, 0, "set_button_shell") {
        if ts.len() >= 3 {
            match TapKind::parse(&ts[1]) {
                Some(k) => Some(Request::SetButtonShell(k, join_from(ts, 2))),
                None => None,
            }
        } else {
            None
        }
    } else {
        None
    }
}

/// The request that a line of text makes: the line is split into its
/// whitespace-separated tokens and the first one names the command.
pub fn parse_request(line: &str) -> (r: Option<Request>)
    ensures
        r is Some == request_of(tokens(line@)) is Some,
        r is Some ==> r->0@ == request_of(tokens(line@))->0,
{
    let ts = split_tokens(line);
    parse_tokens(&ts)
}

} // verus!
