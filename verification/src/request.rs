//! Commands and their wire form: each command is rendered as exactly one JSON
//! object, written to the worker as a single newline-terminated line.

use vstd::prelude::*;
use vstd::string::StringExecFns;
use crate::numeral::{dec_rep, u32_dec};

verus! {

/// A command the supervisor can send to the worker.
#[derive(Clone, Copy, Debug, PartialEq, Eq, Structural)]
pub enum Command {
    /// Advance simulation time by the given multiplier.
    Tick { multiplier: u32 },
    /// Fetch the current state.
    State,
    /// Fetch at most `limit` log entries.
    Logs { limit: u32 },
    /// Reset the simulation and return the fresh state.
    Reset,
}

/// The JSON payload of a command, exactly as it is written to the worker
/// (without the terminating newline).
pub open spec fn request_payload(c: Command) -> Seq<char> {
    match c {
        Command::Tick { multiplier } => "{\"cmd\":\"tick\",\"multiplier\":"@ + dec_rep(
            multiplier as nat,
        ) + "}"@,
        Command::State => "{\"cmd\":\"state\"}"@,
        Command::Logs { limit } => "{\"cmd\":\"logs\",\"limit\":"@ + dec_rep(limit as nat) + "}"@,
        Command::Reset => "{\"cmd\":\"reset\"}"@,
    }
}

/// The full line written to the worker's input: the payload, then a newline.
pub open spec fn request_line(c: Command) -> Seq<char> {
    request_payload(c) + "\n"@
}

/// Render a command as its JSON payload.
pub fn render_request(c: &Command) -> (r: String)
    ensures
        r@ =~= request_payload(*c),
{
    match c {
        Command::Tick { multiplier } => {
            let mut s = "{\"cmd\":\"tick\",\"multiplier\":".to_owned();
            let digits = u32_dec(*multiplier);
            s.append(digits.as_str());
            s.append("}");
            s
        },
        Command::State => "{\"cmd\":\"state\"}".to_owned(),
        Command::Logs { limit } => {
            let mut s = "{\"cmd\":\"logs\",\"limit\":".to_owned();
            let digits = u32_dec(*limit);
            s.append(digits.as_str());
            s.append("}");
            s
        },
        Command::Reset => "{\"cmd\":\"reset\"}".to_owned(),
    }
}

/// Render the full request line for a command: its JSON payload followed by a
/// newline, ready to be written to the worker's input in one piece.
pub fn render_request_line(c: &Command) -> (r: String)
    ensures
        r@ =~= request_line(*c),
{
    let mut s = render_request(c);
    s.append("\n");
    s
}

} // verus!
