//! How a worker is launched: the program, the argument list, the fixed state
//! file name, and the choice between the two candidate script locations.

use vstd::prelude::*;
use crate::response::WorkerError;

verus! {

/// The program that runs the worker script.
pub fn worker_program() -> (r: String)
    ensures
        r@ == "python"@,
{
    "python".to_owned()
}

/// The fixed name of the state file inside the application data directory.
pub fn state_file_name() -> (r: String)
    ensures
        r@ == "game_state.json"@,
{
    "game_state.json".to_owned()
}

/// The argument list a worker is launched with: run the script unbuffered, in
/// server mode, against the given state file.
pub fn launch_args(script: &str, state_path: &str) -> (r: Vec<String>)
    ensures
        r@.len() == 5,
        r@[0]@ == "-u"@,
        r@[1]@ == script@,
        r@[2]@ == "--state"@,
        r@[3]@ == state_path@,
        r@[4]@ == "--server"@,
{
    let mut v: Vec<String> = Vec::new();
    v.push("-u".to_owned());
    v.push(script.to_owned());
    v.push("--state".to_owned());
    v.push(state_path.to_owned());
    v.push("--server".to_owned());
    v
}

/// Choose the worker script location: the resource-bundle copy when it
/// exists, else the build-tree fallback when that exists; with neither, fail
/// at once, naming the path that was tried last. There is no retry.
pub fn choose_script_path(
    resource: String,
    resource_exists: bool,
    fallback: String,
    fallback_exists: bool,
) -> (r: Result<String, WorkerError>)
    ensures
        resource_exists ==> (r matches Ok(p) && p@ == resource@),
        !resource_exists && fallback_exists ==> (r matches Ok(p) && p@ == fallback@),
        !resource_exists && !fallback_exists ==> (r matches Err(e) && e
            matches WorkerError::ScriptNotFound(p) && p@ == fallback@),
{
    if resource_exists {
        Ok(resource)
    } else if fallback_exists {
        Ok(fallback)
    } else {
        Err(WorkerError::ScriptNotFound(fallback))
    }
}

/// The number of log entries to ask for: the caller's limit, or twenty when
/// none was given.
pub fn effective_limit(limit: Option<u32>) -> (r: u32)
    ensures
        r == (match limit {
            Some(l) => l,
            None => 20u32,
        }),
{
    match limit {
        Some(l) => l,
        None => 20,
    }
}

} // verus!
