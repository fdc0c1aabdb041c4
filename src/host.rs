//! What the tool needs from the machine it runs on: the tools that must be
//! present, and how a command line is handed to the host shell.

use vstd::prelude::*;
use crate::text::join3;

verus! {

/// The tools every command relies on.
pub open spec fn required_tool_names() -> Seq<Seq<char>> {
    seq!["npm"@, "npx"@]
}

/// The tools every command relies on, in the order they are checked.
pub fn required_tools() -> (r: Vec<String>)
    ensures
        r@.map_values(|s: String| s@) == required_tool_names(),
{
    let mut r: Vec<String> = Vec::new();
    r.push(String::from_str("npm"));
    r.push(String::from_str("npx"));
    assert(r@.map_values(|s: String| s@) =~= required_tool_names());
    r
}

/// The message for a tool that could not be started.
pub open spec fn missing_tool_message(tool: Seq<char>) -> Seq<char> {
    "Missing dependency: "@ + tool + ". Please install it."@
}

/// Whether every probe up to `n` found its tool.
pub open spec fn all_found(probes: Seq<(String, bool)>, n: int) -> bool {
    forall|i: int| 0 <= i < n ==> #[trigger] probes[i].1
}

/// Decides on the probes of the required tools, each a tool name and whether
/// it could be started: the first one missing is reported by name; with none
/// missing the check passes.
pub fn check_dependencies(probes: &Vec<(String, bool)>) -> (r: Result<(), String>)
    ensures
        r is Ok <==> all_found(probes@, probes@.len() as int),
        r matches Err(m) ==> exists|k: int|
            0 <= k < probes@.len() && !probes@[k].1 && all_found(probes@, k) && m@
                == missing_tool_message(probes@[k].0@),
{
    let mut i: usize = 0;
    while i < probes.len()
        invariant
            0 <= i <= probes@.len(),
            all_found(probes@, i as int),
        decreases probes.len() - i,
    {
        if !probes[i].1 {
            return Err(join3("Missing dependency: ", probes[i].0.as_str(), ". Please install it."));
        }
        i = i + 1;
    }
    Ok(())
}

/// The program and arguments that run `command` through the host shell:
/// `cmd /C` on Windows, `sh -c` elsewhere.
pub fn shell_invocation(command: &String, windows: bool) -> (r: (String, Vec<String>))
    ensures
        windows ==> r.0@ == "cmd"@ && r.1@.map_values(|s: String| s@) == seq!["/C"@, command@],
        !windows ==> r.0@ == "sh"@ && r.1@.map_values(|s: String| s@) == seq!["-c"@, command@],
{
    let mut args: Vec<String> = Vec::new();
    let program = if windows {
        args.push(String::from_str("/C"));
        String::from_str("cmd")
    } else {
        args.push(String::from_str("-c"));
        String::from_str("sh")
    };
    args.push(command.clone());
    if windows {
        assert(args@.map_values(|s: String| s@) =~= seq!["/C"@, command@]);
    } else {
        assert(args@.map_values(|s: String| s@) =~= seq!["-c"@, command@]);
    }
    (program, args)
}

} // verus!
