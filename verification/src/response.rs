//! Response decoding: one JSON object per line comes back from the worker.
//! The envelope rule (`ok` / `error`) and the required-field checks are
//! verified on plain values; reading the JSON itself goes through trusted
//! wrappers around `serde_json`.

use vstd::prelude::*;
use vstd::string::StringExecFns;

verus! {

/// Everything that can go wrong between writing a request line and handing a
/// decoded response to the caller.
#[derive(Debug, PartialEq, Eq)]
pub enum WorkerError {
    /// Zero bytes were read from the worker's output: the process ended.
    Ended,
    /// The response line was not valid JSON; carries the parser's description.
    InvalidOutput(String),
    /// The worker answered `ok: false`; carries its error message, or a fixed
    /// default when the response had no `error` field.
    Rejected(String),
    /// A field the command requires is absent or of the wrong type; carries
    /// the field's name.
    MissingField(String),
    /// Neither candidate location holds the worker script; carries the
    /// fallback path that was tried last.
    ScriptNotFound(String),
}

/// The message shown to the caller for each failure.
pub open spec fn error_message(e: WorkerError) -> Seq<char> {
    match e {
        WorkerError::Ended => "python process ended"@,
        WorkerError::InvalidOutput(d) => "invalid python output: "@ + d@,
        WorkerError::Rejected(m) => m@,
        WorkerError::MissingField(f) => "missing "@ + f@ + " in python response"@,
        WorkerError::ScriptNotFound(p) => "python script not found: "@ + p@,
    }
}

/// The message the worker's rejection gets when its response carries no
/// `error` field.
pub open spec fn default_reject_message() -> Seq<char> {
    "python error"@
}

impl WorkerError {
    /// The descriptive message for this failure.
    pub fn message(&self) -> (r: String)
        ensures
            r@ =~= error_message(*self),
    {
        match self {
            WorkerError::Ended => "python process ended".to_owned(),
            WorkerError::InvalidOutput(d) => {
                let mut s = "invalid python output: ".to_owned();
                s.append(d.as_str());
                s
            },
            WorkerError::Rejected(m) => m.clone(),
            WorkerError::MissingField(f) => {
                let mut s = "missing ".to_owned();
                s.append(f.as_str());
                s.append(" in python response");
                s
            },
            WorkerError::ScriptNotFound(p) => {
                let mut s = "python script not found: ".to_owned();
                s.append(p.as_str());
                s
            },
        }
    }
}

/// The summary a time tick returns to the frontend.
#[derive(Clone, Copy, Debug, PartialEq, Eq, Structural)]
pub struct TickSummary {
    pub ok: bool,
    pub day: u64,
    pub food_stock: i64,
}

#[verifier::external_type_specification]
#[verifier::external_body]
pub struct ExValue(serde_json::Value);

/// Whether a line parses as one JSON value (surrounding whitespace, such as
/// the terminating newline, is accepted). Named for `serde_json::from_str`,
/// whose verdict depends on the line alone.
pub uninterp spec fn parses_as_json(s: Seq<char>) -> bool;

/// The `key` field of the JSON value `v` as a boolean: what `Value::get`
/// followed by `Value::as_bool` yield, a function of the value alone.
pub uninterp spec fn bool_field_of(v: serde_json::Value, key: Seq<char>) -> Option<bool>;

/// The `key` field of the JSON value `v` as a `u64`: what `Value::get`
/// followed by `Value::as_u64` yield, a function of the value alone.
pub uninterp spec fn u64_field_of(v: serde_json::Value, key: Seq<char>) -> Option<u64>;

/// The `key` field of the JSON value `v` as an `i64`: what `Value::get`
/// followed by `Value::as_i64` yield, a function of the value alone.
pub uninterp spec fn i64_field_of(v: serde_json::Value, key: Seq<char>) -> Option<i64>;

/// The `key` field of the JSON value `v` as a string: what `Value::get`
/// followed by `Value::as_str` yield, a function of the value alone.
pub uninterp spec fn string_field_of(v: serde_json::Value, key: Seq<char>) -> Option<Seq<char>>;

/// Whether the JSON value `v` is an object with a `key` field: whether
/// `Value::get` yields one, a function of the value alone.
pub uninterp spec fn has_field(v: serde_json::Value, key: Seq<char>) -> bool;

/// `bool_field_of` of the value the line parses to; meaningful only on a line
/// of which `parses_as_json` holds.
pub uninterp spec fn line_bool_field_of(s: Seq<char>, key: Seq<char>) -> Option<bool>;

/// `u64_field_of` of the value the line parses to; meaningful only on a line
/// of which `parses_as_json` holds.
pub uninterp spec fn line_u64_field_of(s: Seq<char>, key: Seq<char>) -> Option<u64>;

/// `i64_field_of` of the value the line parses to; meaningful only on a line
/// of which `parses_as_json` holds.
pub uninterp spec fn line_i64_field_of(s: Seq<char>, key: Seq<char>) -> Option<i64>;

/// `string_field_of` of the value the line parses to; meaningful only on a
/// line of which `parses_as_json` holds.
pub uninterp spec fn line_string_field_of(s: Seq<char>, key: Seq<char>) -> Option<Seq<char>>;

/// `has_field` of the value the line parses to; meaningful only on a line of
/// which `parses_as_json` holds.
pub uninterp spec fn line_has_field(s: Seq<char>, key: Seq<char>) -> bool;

/// Relies on `serde_json::from_str`: parses exactly one JSON value from the
/// line, accepting surrounding whitespace; on failure the parser's
/// description is returned. Parsing is deterministic in the line, and field
/// lookups are deterministic in the parsed value, so each lookup on the
/// returned value equals the corresponding lookup named on the line.
#[verifier::external_body]
fn parse_json(line: &str) -> (r: Result<serde_json::Value, String>)
    ensures
        r matches Ok(_) <==> parses_as_json(line@),
        r matches Ok(v) ==> (forall|key: Seq<char>| #[trigger] bool_field_of(v, key)
            == line_bool_field_of(line@, key)),
        r matches Ok(v) ==> (forall|key: Seq<char>| #[trigger] u64_field_of(v, key)
            == line_u64_field_of(line@, key)),
        r matches Ok(v) ==> (forall|key: Seq<char>| #[trigger] i64_field_of(v, key)
            == line_i64_field_of(line@, key)),
        r matches Ok(v) ==> (forall|key: Seq<char>| #[trigger] string_field_of(v, key)
            == line_string_field_of(line@, key)),
        r matches Ok(v) ==> (forall|key: Seq<char>| #[trigger] has_field(v, key)
            == line_has_field(line@, key)),
{
    serde_json::from_str(line).map_err(|e| e.to_string())
}

/// Relies on `serde_json::Value::get` and `Value::as_bool`: the `key` field
/// of `v` when `v` is an object holding a boolean there, `None` otherwise.
#[verifier::external_body]
fn bool_field(v: &serde_json::Value, key: &str) -> (r: Option<bool>)
    ensures
        r == bool_field_of(*v, key@),
{
    v.get(key).and_then(serde_json::Value::as_bool)
}

/// Relies on `serde_json::Value::get` and `Value::as_u64`: the `key` field of
/// `v` when `v` is an object holding a number representable as `u64` there,
/// `None` otherwise.
#[verifier::external_body]
fn u64_field(v: &serde_json::Value, key: &str) -> (r: Option<u64>)
    ensures
        r == u64_field_of(*v, key@),
{
    v.get(key).and_then(serde_json::Value::as_u64)
}

/// Relies on `serde_json::Value::get` and `Value::as_i64`: the `key` field of
/// `v` when `v` is an object holding a number representable as `i64` there,
/// `None` otherwise.
#[verifier::external_body]
fn i64_field(v: &serde_json::Value, key: &str) -> (r: Option<i64>)
    ensures
        r == i64_field_of(*v, key@),
{
    v.get(key).and_then(serde_json::Value::as_i64)
}

/// Relies on `serde_json::Value::get` and `Value::as_str`: the `key` field of
/// `v` when `v` is an object holding a string there (copied out), `None`
/// otherwise.
#[verifier::external_body]
fn string_field(v: &serde_json::Value, key: &str) -> (r: Option<String>)
    ensures
        (match r {
            Some(s) => string_field_of(*v, key@) == Some(s@),
            None => string_field_of(*v, key@) is None,
        }),
{
    v.get(key).and_then(serde_json::Value::as_str).map(str::to_owned)
}

/// Relies on `serde_json::Value::get` and the `Clone` impl of `Value`: the
/// `key` field of `v`, cloned, when `v` is an object holding the key, `None`
/// otherwise.
#[verifier::external_body]
fn value_field(v: &serde_json::Value, key: &str) -> (r: Option<serde_json::Value>)
    ensures
        r is Some <==> has_field(*v, key@),
{
    v.get(key).cloned()
}

/// The envelope rule on the two extracted fields: a response with `ok: false`
/// is rejected with its `error` message, or with the fixed default message
/// when no `error` string is present; every other response (including one
/// with no `ok` field at all) passes.
pub fn envelope_verdict(ok: Option<bool>, error: Option<String>) -> (r: Result<(), WorkerError>)
    ensures
        ok == Some(false) ==> (r matches Err(e) && e matches WorkerError::Rejected(m) && (match error {
            Some(s) => m@ == s@,
            None => m@ == default_reject_message(),
        })),
        ok != Some(false) ==> r matches Ok(_),
{
    match ok {
        Some(false) => {
            match error {
                Some(s) => Err(WorkerError::Rejected(s)),
                None => Err(WorkerError::Rejected("python error".to_owned())),
            }
        },
        _ => Ok(()),
    }
}

/// A field the command requires: present means its value, absent means a
/// missing-field failure naming the field.
pub fn required_field<T>(field: Option<T>, name: &str) -> (r: Result<T, WorkerError>)
    ensures
        field matches Some(v) ==> (r matches Ok(w) && w == v),
        field is None ==> (r matches Err(e) && e matches WorkerError::MissingField(f) && f@
            == name@),
{
    match field {
        Some(v) => Ok(v),
        None => Err(WorkerError::MissingField(name.to_owned())),
    }
}

/// Interpret the raw read: zero bytes read means the worker's output is
/// closed (the process ended); otherwise the line must parse as one JSON
/// value, and a line that does not is reported as invalid output.
pub fn read_response(bytes_read: usize, line: &str) -> (r: Result<
    serde_json::Value,
    WorkerError,
>)
    ensures
        bytes_read == 0 ==> (r matches Err(e) && e matches WorkerError::Ended),
        bytes_read > 0 ==> (r matches Ok(_) <==> parses_as_json(line@)),
        bytes_read > 0 ==> (r matches Err(e) ==> e matches WorkerError::InvalidOutput(_)),
        r matches Ok(v) ==> (forall|key: Seq<char>| #[trigger] bool_field_of(v, key)
            == line_bool_field_of(line@, key)),
        r matches Ok(v) ==> (forall|key: Seq<char>| #[trigger] u64_field_of(v, key)
            == line_u64_field_of(line@, key)),
        r matches Ok(v) ==> (forall|key: Seq<char>| #[trigger] i64_field_of(v, key)
            == line_i64_field_of(line@, key)),
        r matches Ok(v) ==> (forall|key: Seq<char>| #[trigger] string_field_of(v, key)
            == line_string_field_of(line@, key)),
        r matches Ok(v) ==> (forall|key: Seq<char>| #[trigger] has_field(v, key)
            == line_has_field(line@, key)),
{
    if bytes_read == 0 {
        return Err(WorkerError::Ended);
    }
    match parse_json(line) {
        Ok(v) => Ok(v),
        Err(d) => Err(WorkerError::InvalidOutput(d)),
    }
}

/// Check the response envelope: a response whose `ok` field is the boolean
/// `false` fails with the worker's `error` message, or with the fixed default
/// when the response holds no `error` string; any other response — `ok` true,
/// absent, or not a boolean — passes through unchanged for field extraction.
pub fn require_ok(response: serde_json::Value) -> (r: Result<serde_json::Value, WorkerError>)
    ensures
        r matches Ok(v) ==> v == response,
        (r matches Ok(_)) <==> bool_field_of(response, "ok"@) != Some(false),
        r matches Err(e) ==> (e matches WorkerError::Rejected(m) && (match string_field_of(
            response,
            "error"@,
        ) {
            Some(s) => m@ == s,
            None => m@ == default_reject_message(),
        })),
{
    let ok = bool_field(&response, "ok");
    let error = string_field(&response, "error");
    match envelope_verdict(ok, error) {
        Ok(_) => Ok(response),
        Err(e) => Err(e),
    }
}

/// Decode a `tick` response: the envelope must pass and an integer `day`
/// field must be present; that field's value is the day returned.
pub fn decode_tick(bytes_read: usize, line: &str) -> (r: Result<u64, WorkerError>)
    ensures
        bytes_read == 0 ==> (r matches Err(e) && e matches WorkerError::Ended),
        bytes_read > 0 && !parses_as_json(line@) ==> (r matches Err(e) && e
            matches WorkerError::InvalidOutput(_)),
        bytes_read > 0 && parses_as_json(line@) ==> (match r {
            Ok(d) => line_bool_field_of(line@, "ok"@) != Some(false) && line_u64_field_of(
                line@,
                "day"@,
            ) == Some(d),
            Err(e) => match e {
                WorkerError::Rejected(m) => line_bool_field_of(line@, "ok"@) == Some(false) && (
                match line_string_field_of(line@, "error"@) {
                    Some(s) => m@ == s,
                    None => m@ == default_reject_message(),
                }),
                WorkerError::MissingField(f) => f@ == "day"@ && line_bool_field_of(line@, "ok"@)
                    != Some(false) && line_u64_field_of(line@, "day"@) is None,
                _ => false,
            },
        }),
{
    let value = match read_response(bytes_read, line) {
        Ok(v) => v,
        Err(e) => {
            return Err(e);
        },
    };
    let value = match require_ok(value) {
        Ok(v) => v,
        Err(e) => {
            return Err(e);
        },
    };
    required_field(u64_field(&value, "day"), "day")
}

/// Decode a `tick` response for the extended summary: the envelope must pass
/// and both the integer `day` and the integer `food_stock` fields must be
/// present; `day` is checked first, and the summary carries both fields.
pub fn decode_time_tick(bytes_read: usize, line: &str) -> (r: Result<TickSummary, WorkerError>)
    ensures
        bytes_read == 0 ==> (r matches Err(e) && e matches WorkerError::Ended),
        bytes_read > 0 && !parses_as_json(line@) ==> (r matches Err(e) && e
            matches WorkerError::InvalidOutput(_)),
        bytes_read > 0 && parses_as_json(line@) ==> (match r {
            Ok(t) => t.ok && line_bool_field_of(line@, "ok"@) != Some(false)
                && line_u64_field_of(line@, "day"@) == Some(t.day) && line_i64_field_of(
                line@,
                "food_stock"@,
            ) == Some(t.food_stock),
            Err(e) => match e {
                WorkerError::Rejected(m) => line_bool_field_of(line@, "ok"@) == Some(false) && (
                match line_string_field_of(line@, "error"@) {
                    Some(s) => m@ == s,
                    None => m@ == default_reject_message(),
                }),
                WorkerError::MissingField(f) => line_bool_field_of(line@, "ok"@) != Some(false)
                    && ((f@ == "day"@ && line_u64_field_of(line@, "day"@) is None) || (f@
                    == "food_stock"@ && line_u64_field_of(line@, "day"@) is Some
                    && line_i64_field_of(line@, "food_stock"@) is None)),
                _ => false,
            },
        }),
        r matches Ok(t) ==> t.ok,
{
    let value = match read_response(bytes_read, line) {
        Ok(v) => v,
        Err(e) => {
            return Err(e);
        },
    };
    let value = match require_ok(value) {
        Ok(v) => v,
        Err(e) => {
            return Err(e);
        },
    };
    let day = match required_field(u64_field(&value, "day"), "day") {
        Ok(d) => d,
        Err(e) => {
            return Err(e);
        },
    };
    let food_stock = match required_field(i64_field(&value, "food_stock"), "food_stock") {
        Ok(f) => f,
        Err(e) => {
            return Err(e);
        },
    };
    Ok(TickSummary { ok: true, day, food_stock })
}

/// Decode a response whose payload is the opaque value under `field`: the
/// envelope must pass and the field must be present; the field's value is
/// handed through unexamined.
pub fn decode_payload(bytes_read: usize, line: &str, field: &str) -> (r: Result<
    serde_json::Value,
    WorkerError,
>)
    ensures
        bytes_read == 0 ==> (r matches Err(e) && e matches WorkerError::Ended),
        bytes_read > 0 && !parses_as_json(line@) ==> (r matches Err(e) && e
            matches WorkerError::InvalidOutput(_)),
        bytes_read > 0 && parses_as_json(line@) ==> (match r {
            Ok(_) => line_bool_field_of(line@, "ok"@) != Some(false) && line_has_field(
                line@,
                field@,
            ),
            Err(e) => match e {
                WorkerError::Rejected(m) => line_bool_field_of(line@, "ok"@) == Some(false) && (
                match line_string_field_of(line@, "error"@) {
                    Some(s) => m@ == s,
                    None => m@ == default_reject_message(),
                }),
                WorkerError::MissingField(f) => f@ == field@ && line_bool_field_of(line@, "ok"@)
                    != Some(false) && !line_has_field(line@, field@),
                _ => false,
            },
        }),
{
    let value = match read_response(bytes_read, line) {
        Ok(v) => v,
        Err(e) => {
            return Err(e);
        },
    };
    let value = match require_ok(value) {
        Ok(v) => v,
        Err(e) => {
            return Err(e);
        },
    };
    required_field(value_field(&value, field), field)
}

/// Decode a `state` response: the opaque `state` value.
pub fn decode_state(bytes_read: usize, line: &str) -> (r: Result<serde_json::Value, WorkerError>)
    ensures
        bytes_read == 0 ==> (r matches Err(e) && e matches WorkerError::Ended),
        bytes_read > 0 && !parses_as_json(line@) ==> (r matches Err(e) && e
            matches WorkerError::InvalidOutput(_)),
        bytes_read > 0 && parses_as_json(line@) ==> (match r {
            Ok(_) => line_bool_field_of(line@, "ok"@) != Some(false) && line_has_field(
                line@,
                "state"@,
            ),
            Err(e) => match e {
                WorkerError::Rejected(m) => line_bool_field_of(line@, "ok"@) == Some(false) && (
                match line_string_field_of(line@, "error"@) {
                    Some(s) => m@ == s,
                    None => m@ == default_reject_message(),
                }),
                WorkerError::MissingField(f) => f@ == "state"@ && line_bool_field_of(line@, "ok"@)
                    != Some(false) && !line_has_field(line@, "state"@),
                _ => false,
            },
        }),
{
    decode_payload(bytes_read, line, "state")
}

/// Decode a `logs` response: the opaque `logs` value.
pub fn decode_logs(bytes_read: usize, line: &str) -> (r: Result<serde_json::Value, WorkerError>)
    ensures
        bytes_read == 0 ==> (r matches Err(e) && e matches WorkerError::Ended),
        bytes_read > 0 && !parses_as_json(line@) ==> (r matches Err(e) && e
            matches WorkerError::InvalidOutput(_)),
        bytes_read > 0 && parses_as_json(line@) ==> (match r {
            Ok(_) => line_bool_field_of(line@, "ok"@) != Some(false) && line_has_field(
                line@,
                "logs"@,
            ),
            Err(e) => match e {
                WorkerError::Rejected(m) => line_bool_field_of(line@, "ok"@) == Some(false) && (
                match line_string_field_of(line@, "error"@) {
                    Some(s) => m@ == s,
                    None => m@ == default_reject_message(),
                }),
                WorkerError::MissingField(f) => f@ == "logs"@ && line_bool_field_of(line@, "ok"@)
                    != Some(false) && !line_has_field(line@, "logs"@),
                _ => false,
            },
        }),
{
    decode_payload(bytes_read, line, "logs")
}

/// Decode a `reset` response: the fresh opaque `state` value.
pub fn decode_reset(bytes_read: usize, line: &str) -> (r: Result<serde_json::Value, WorkerError>)
    ensures
        bytes_read == 0 ==> (r matches Err(e) && e matches WorkerError::Ended),
        bytes_read > 0 && !parses_as_json(line@) ==> (r matches Err(e) && e
            matches WorkerError::InvalidOutput(_)),
        bytes_read > 0 && parses_as_json(line@) ==> (match r {
            Ok(_) => line_bool_field_of(line@, "ok"@) != Some(false) && line_has_field(
                line@,
                "state"@,
            ),
            Err(e) => match e {
                WorkerError::Rejected(m) => line_bool_field_of(line@, "ok"@) == Some(false) && (
                match line_string_field_of(line@, "error"@) {
                    Some(s) => m@ == s,
                    None => m@ == default_reject_message(),
                }),
                WorkerError::MissingField(f) => f@ == "state"@ && line_bool_field_of(line@, "ok"@)
                    != Some(false) && !line_has_field(line@, "state"@),
                _ => false,
            },
        }),
{
    decode_payload(bytes_read, line, "state")
}

} // verus!
