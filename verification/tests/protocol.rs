//! Tests for request rendering and response decoding, run against the real
//! JSON parser.

use worker_supervisor::bare::{decode_bare_day, parse_numeral, render_bare_tick};
use worker_supervisor::numeral::u32_dec;
use worker_supervisor::request::{render_request, render_request_line, Command};
use worker_supervisor::response::{
    decode_logs, decode_reset, decode_state, decode_tick, decode_time_tick, envelope_verdict,
    require_ok, required_field, TickSummary, WorkerError,
};

#[test]
fn decimal_rendering() {
    assert_eq!(u32_dec(0), "0");
    assert_eq!(u32_dec(7), "7");
    assert_eq!(u32_dec(10), "10");
    assert_eq!(u32_dec(205), "205");
    assert_eq!(u32_dec(u32::MAX), "4294967295");
}

#[test]
fn tick_request_payload() {
    let r = render_request(&Command::Tick { multiplier: 3 });
    assert_eq!(r, "{\"cmd\":\"tick\",\"multiplier\":3}");
}

#[test]
fn fixed_request_payloads() {
    assert_eq!(render_request(&Command::State), "{\"cmd\":\"state\"}");
    assert_eq!(
        render_request(&Command::Logs { limit: 20 }),
        "{\"cmd\":\"logs\",\"limit\":20}"
    );
    assert_eq!(render_request(&Command::Reset), "{\"cmd\":\"reset\"}");
}

#[test]
fn request_line_is_newline_terminated() {
    let r = render_request_line(&Command::Tick { multiplier: 12 });
    assert_eq!(r, "{\"cmd\":\"tick\",\"multiplier\":12}\n");
}

#[test]
fn rendered_requests_parse_back() {
    // The rendered payload must be one JSON object with exactly the fields
    // the worker reads.
    let line = render_request(&Command::Tick { multiplier: 9 });
    let v: serde_json::Value = serde_json::from_str(&line).unwrap();
    assert_eq!(v.get("cmd").and_then(|c| c.as_str()), Some("tick"));
    assert_eq!(v.get("multiplier").and_then(|m| m.as_u64()), Some(9));
}

#[test]
fn tick_response_ok() {
    let line = "{\"ok\":true,\"day\":7}\n";
    assert_eq!(decode_tick(line.len(), line), Ok(7));
}

#[test]
fn tick_response_rejection_carries_worker_message() {
    let line = "{\"ok\":false,\"error\":\"boom\"}\n";
    let err = decode_tick(line.len(), line).unwrap_err();
    assert_eq!(err, WorkerError::Rejected("boom".to_string()));
    assert_eq!(err.message(), "boom");
}

#[test]
fn tick_response_rejection_without_error_field_uses_default() {
    let line = "{\"ok\":false}\n";
    let err = decode_tick(line.len(), line).unwrap_err();
    assert_eq!(err, WorkerError::Rejected("python error".to_string()));
    assert_eq!(err.message(), "python error");
}

#[test]
fn tick_response_missing_day_is_a_missing_field_error() {
    let line = "{\"ok\":true}\n";
    let err = decode_tick(line.len(), line).unwrap_err();
    assert_eq!(err, WorkerError::MissingField("day".to_string()));
    assert_eq!(err.message(), "missing day in python response");
}

#[test]
fn tick_response_with_wrong_day_type_is_a_missing_field_error() {
    let line = "{\"ok\":true,\"day\":\"seven\"}\n";
    let err = decode_tick(line.len(), line).unwrap_err();
    assert_eq!(err, WorkerError::MissingField("day".to_string()));
}

#[test]
fn eof_means_the_worker_ended() {
    let err = decode_tick(0, "").unwrap_err();
    assert_eq!(err, WorkerError::Ended);
    assert_eq!(err.message(), "python process ended");
}

#[test]
fn malformed_line_is_invalid_output() {
    let line = "not json at all\n";
    let err = decode_tick(line.len(), line).unwrap_err();
    match &err {
        WorkerError::InvalidOutput(_) => {}
        other => panic!("expected InvalidOutput, got {:?}", other),
    }
    assert!(err.message().starts_with("invalid python output: "));
}

#[test]
fn time_tick_response_ok() {
    let line = "{\"ok\":true,\"day\":4,\"food_stock\":-2}\n";
    assert_eq!(
        decode_time_tick(line.len(), line),
        Ok(TickSummary { ok: true, day: 4, food_stock: -2 })
    );
}

#[test]
fn time_tick_missing_food_stock() {
    let line = "{\"ok\":true,\"day\":4}\n";
    let err = decode_time_tick(line.len(), line).unwrap_err();
    assert_eq!(err, WorkerError::MissingField("food_stock".to_string()));
    assert_eq!(err.message(), "missing food_stock in python response");
}

#[test]
fn time_tick_checks_day_before_food_stock() {
    let line = "{\"ok\":true}\n";
    let err = decode_time_tick(line.len(), line).unwrap_err();
    assert_eq!(err, WorkerError::MissingField("day".to_string()));
}

#[test]
fn state_response_hands_the_value_through() {
    let line = "{\"ok\":true,\"state\":{\"day\":2,\"pop\":11}}\n";
    let state = decode_state(line.len(), line).unwrap();
    let expected: serde_json::Value = serde_json::from_str("{\"day\":2,\"pop\":11}").unwrap();
    assert_eq!(state, expected);
}

#[test]
fn response_without_ok_field_passes_the_envelope() {
    let line = "{\"state\":[1,2,3]}\n";
    let state = decode_state(line.len(), line).unwrap();
    let expected: serde_json::Value = serde_json::from_str("[1,2,3]").unwrap();
    assert_eq!(state, expected);
}

#[test]
fn logs_response_hands_the_value_through() {
    let line = "{\"ok\":true,\"logs\":[\"a\",\"b\"]}\n";
    let logs = decode_logs(line.len(), line).unwrap();
    let expected: serde_json::Value = serde_json::from_str("[\"a\",\"b\"]").unwrap();
    assert_eq!(logs, expected);
}

#[test]
fn reset_response_returns_the_fresh_state() {
    let line = "{\"ok\":true,\"state\":{\"day\":0}}\n";
    let state = decode_reset(line.len(), line).unwrap();
    let expected: serde_json::Value = serde_json::from_str("{\"day\":0}").unwrap();
    assert_eq!(state, expected);
}

#[test]
fn reset_response_missing_state() {
    let line = "{\"ok\":true,\"day\":0}\n";
    let err = decode_reset(line.len(), line).unwrap_err();
    assert_eq!(err, WorkerError::MissingField("state".to_string()));
    assert_eq!(err.message(), "missing state in python response");
}

#[test]
fn bare_tick_request() {
    assert_eq!(render_bare_tick(3), "3\n");
    assert_eq!(render_bare_tick(0), "0\n");
    assert_eq!(render_bare_tick(1205), "1205\n");
}

#[test]
fn bare_day_response() {
    assert_eq!(decode_bare_day(2, "7\n"), Ok(7));
    assert_eq!(decode_bare_day(2, "12"), Ok(12));
    assert_eq!(decode_bare_day(21, "18446744073709551615\n"), Ok(u64::MAX));
}

#[test]
fn bare_day_round_trip() {
    let line = render_bare_tick(3417);
    assert_eq!(decode_bare_day(line.len(), &line), Ok(3417));
}

#[test]
fn bare_day_eof_means_the_worker_ended() {
    assert_eq!(decode_bare_day(0, ""), Err(WorkerError::Ended));
}

#[test]
fn bare_day_rejects_what_is_no_canonical_numeral() {
    for line in ["x2\n", "\n", "007\n", "-3\n", "3 4\n", "18446744073709551616\n"] {
        match decode_bare_day(line.len(), line) {
            Err(WorkerError::InvalidOutput(_)) => {}
            other => panic!("expected InvalidOutput for {line:?}, got {other:?}"),
        }
    }
}

#[test]
fn numeral_parsing() {
    assert_eq!(parse_numeral("0"), Some(0));
    assert_eq!(parse_numeral("905"), Some(905));
    assert_eq!(parse_numeral(""), None);
    assert_eq!(parse_numeral("05"), None);
    assert_eq!(parse_numeral("9x"), None);
}

#[test]
fn require_ok_passes_the_value_through_unchanged() {
    let v: serde_json::Value = serde_json::from_str("{\"ok\":true,\"day\":7}").unwrap();
    let expected = v.clone();
    assert_eq!(require_ok(v), Ok(expected));
}

#[test]
fn require_ok_without_ok_key_passes_through() {
    let v: serde_json::Value = serde_json::from_str("{\"day\":2}").unwrap();
    let expected = v.clone();
    assert_eq!(require_ok(v), Ok(expected));
}

#[test]
fn require_ok_is_idempotent() {
    let v: serde_json::Value = serde_json::from_str("{\"ok\":true}").unwrap();
    let once = require_ok(v).unwrap();
    let again = require_ok(once.clone()).unwrap();
    assert_eq!(again, once);
}

#[test]
fn require_ok_rejects_exactly_on_ok_false() {
    let v: serde_json::Value = serde_json::from_str("{\"ok\":false,\"error\":\"boom\"}").unwrap();
    assert_eq!(require_ok(v), Err(WorkerError::Rejected("boom".to_string())));
    let v2: serde_json::Value = serde_json::from_str("{\"ok\":false}").unwrap();
    assert_eq!(require_ok(v2), Err(WorkerError::Rejected("python error".to_string())));
    // A non-boolean ok field is not a rejection.
    let v3: serde_json::Value = serde_json::from_str("{\"ok\":\"nope\"}").unwrap();
    let expected = v3.clone();
    assert_eq!(require_ok(v3), Ok(expected));
}

#[test]
fn envelope_verdict_cases() {
    assert_eq!(envelope_verdict(Some(true), None), Ok(()));
    assert_eq!(envelope_verdict(None, Some("ignored".to_string())), Ok(()));
    assert_eq!(
        envelope_verdict(Some(false), Some("boom".to_string())),
        Err(WorkerError::Rejected("boom".to_string()))
    );
    assert_eq!(
        envelope_verdict(Some(false), None),
        Err(WorkerError::Rejected("python error".to_string()))
    );
}

#[test]
fn required_field_cases() {
    assert_eq!(required_field(Some(5u64), "day"), Ok(5));
    assert_eq!(
        required_field(None::<u64>, "day"),
        Err(WorkerError::MissingField("day".to_string()))
    );
}
