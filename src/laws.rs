//! Properties of the dispatcher that hold for every input.
use vstd::prelude::*;
use crate::dispatch::{apply, ButtonsModel, StepModel};
use crate::request::{field_of, field_name, request_of, Field, RequestModel, TapKind};
use crate::response::{bool_text, error_text, response_key, success_text};

verus! {

/// The command names that the dispatcher knows.
pub open spec fn known_command(t: Seq<char>) -> bool {
    t == "get"@ || t == "rtc_clear_flag"@ || t == "rtc_pi2rtc"@ || t == "rtc_rtc2pi"@
        || t == "rtc_web"@ || t == "rtc_alarm_set"@ || t == "rtc_alarm_disable"@
        || t == "set_safe_shutdown_level"@ || t == "rtc_test_wake"@
        || t == "set_button_enable"@ || t == "set_button_shell"@
}

/// The fewest tokens, the command's name included, that a request of command
/// `t` is made of.
pub open spec fn min_tokens(t: Seq<char>) -> nat {
    if t == "get"@ || t == "set_safe_shutdown_level"@ {
        2
    } else if t == "rtc_alarm_set"@ || t == "set_button_enable"@ || t == "set_button_shell"@ {
        3
    } else {
        1
    }
}

/// The key of the response to a well-formed `get` query is the field token of
/// the query, exactly as it was written.
pub proof fn get_response_key(ts: Seq<Seq<char>>)
    requires
        request_of(ts) is Some,
        request_of(ts)->0 is Get,
    ensures
        ts[0] == "get"@,
        response_key(request_of(ts)->0) == ts[1],
        forall|v: Seq<char>|
            #[trigger] success_text(request_of(ts)->0, v).subrange(0, ts[1].len() as int + 2) == ts[1]
                + ": "@,
{
    assert(ts[0] == "get"@);
    let f = field_of(ts)->0;
    assert(field_name(f) == ts[1]);
    let q = request_of(ts)->0;
    assert forall|v: Seq<char>| #[trigger]
        success_text(q, v).subrange(0, ts[1].len() as int + 2) == ts[1] + ": "@ by {
        reveal_strlit(": ");
        assert(success_text(q, v) == (ts[1] + ": "@) + (crate::response::response_value(q, v)
            + "\n"@));
        assert((ts[1] + ": "@).len() == ts[1].len() + 2);
    }
}

/// A line whose command is unknown, or that has fewer tokens than its command
/// needs, is answered with the error line and changes nothing.
pub proof fn malformed_requests_fail(b: ButtonsModel, ts: Seq<Seq<char>>)
    requires
        ts.len() == 0 || !known_command(ts[0]) || ts.len() < min_tokens(ts[0]),
    ensures
        request_of(ts) is None,
        apply(b, request_of(ts)) == (b, StepModel::Reply(error_text())),
{
    reveal_strlit("get");
    reveal_strlit("rtc_clear_flag");
    reveal_strlit("rtc_pi2rtc");
    reveal_strlit("rtc_rtc2pi");
    reveal_strlit("rtc_web");
    reveal_strlit("rtc_alarm_set");
    reveal_strlit("rtc_alarm_disable");
    reveal_strlit("set_safe_shutdown_level");
    reveal_strlit("rtc_test_wake");
    reveal_strlit("set_button_enable");
    reveal_strlit("set_button_shell");
    assert("get"@.len() == 3);
    assert("rtc_clear_flag"@.len() == 14);
    assert("rtc_pi2rtc"@.len() == 10);
    assert("rtc_rtc2pi"@.len() == 10);
    assert("rtc_web"@.len() == 7);
    assert("rtc_alarm_set"@.len() == 13);
    assert("rtc_alarm_disable"@.len() == 17);
    assert("set_safe_shutdown_level"@.len() == 23);
    assert("rtc_test_wake"@.len() == 13);
    assert("set_button_enable"@.len() == 17);
    assert("set_button_shell"@.len() == 16);
    assert("rtc_alarm_set"@[4] != "rtc_test_wake"@[4]);
    assert("rtc_alarm_disable"@[0] != "set_button_enable"@[0]);
}

/// What `set_button_enable` stores, `get button_enable` reports for the same
/// tap kind.
pub proof fn button_enable_round_trip(b: ButtonsModel, k: TapKind, e: bool)
    ensures
        ({
            let after = apply(b, Some(RequestModel::SetButtonEnable(k, e))).0;
            let q = RequestModel::Get(Field::ButtonEnable(k));
            apply(after, Some(q)) == (after, StepModel::Reply(success_text(q, bool_text(e))))
        }),
{
}

/// What `set_button_shell` stores, `get button_shell` reports for the same tap
/// kind.
pub proof fn button_shell_round_trip(b: ButtonsModel, k: TapKind, c: Seq<char>)
    ensures
        ({
            let after = apply(b, Some(RequestModel::SetButtonShell(k, c))).0;
            let q = RequestModel::Get(Field::ButtonShell(k));
            apply(after, Some(q)) == (after, StepModel::Reply(success_text(q, c)))
        }),
{
}

} // verus!
