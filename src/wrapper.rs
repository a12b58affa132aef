use vstd::prelude::*;

use crate::platform::Os;

verus! {

/// The program that runs a wrapper script.
#[derive(Clone, Copy, Debug, PartialEq, Eq, Structural)]
pub enum Interpreter {
    PowerShell,
    Shell,
    UniversalRuntime,
}

/// Which of the recognised wrapper scripts exist on disk.
#[derive(Clone, Copy, Debug, PartialEq, Eq, Structural)]
pub struct WrapperPresence {
    pub powershell: bool,
    pub shell: bool,
    pub universal: bool,
}

/// A wrapper script found on disk, with the program that runs it.
#[derive(Debug)]
pub struct WrapperScript {
    pub interpreter: Interpreter,
    pub path: String,
}

/// Location of each wrapper script, relative to the working directory.
pub open spec fn script_path(i: Interpreter) -> Seq<char> {
    match i {
        Interpreter::PowerShell => "wrappers/github-mcp-wrapper.ps1"@,
        Interpreter::Shell => "wrappers/github-mcp-wrapper.sh"@,
        Interpreter::UniversalRuntime => "wrappers/github-mcp-wrapper.js"@,
    }
}

/// Executable name of each interpreter.
pub open spec fn command_of(i: Interpreter) -> Seq<char> {
    match i {
        Interpreter::PowerShell => "powershell"@,
        Interpreter::Shell => "bash"@,
        Interpreter::UniversalRuntime => "node"@,
    }
}

/// Human name of each interpreter, used when it cannot be started.
pub open spec fn dependency_of(i: Interpreter) -> Seq<char> {
    match i {
        Interpreter::PowerShell => "PowerShell"@,
        Interpreter::Shell => "Bash shell"@,
        Interpreter::UniversalRuntime => "Node.js"@,
    }
}

/// The platform's own script first, then the universal one; none if neither exists.
pub open spec fn spec_locate(os: Os, present: WrapperPresence) -> Option<Interpreter> {
    if os == Os::Windows && present.powershell {
        Some(Interpreter::PowerShell)
    } else if os != Os::Windows && present.shell {
        Some(Interpreter::Shell)
    } else if present.universal {
        Some(Interpreter::UniversalRuntime)
    } else {
        None
    }
}

/// The arguments that make `i` run the script at `path`.
pub open spec fn spec_wrapper_args(i: Interpreter, path: Seq<char>) -> Seq<Seq<char>> {
    match i {
        Interpreter::PowerShell => seq!["-ExecutionPolicy"@, "Bypass"@, "-File"@, path],
        _ => seq![path],
    }
}

pub open spec fn strings_view(v: Seq<String>) -> Seq<Seq<char>> {
    v.map_values(|s: String| s@)
}

/// Where the wrapper script run by `i` is looked for.
pub fn script_location(i: Interpreter) -> (r: String)
    ensures
        r@ == script_path(i),
{
    match i {
        Interpreter::PowerShell => String::from_str("wrappers/github-mcp-wrapper.ps1"),
        Interpreter::Shell => String::from_str("wrappers/github-mcp-wrapper.sh"),
        Interpreter::UniversalRuntime => String::from_str("wrappers/github-mcp-wrapper.js"),
    }
}

/// The executable that runs scripts for `i`.
pub fn interpreter_command(i: Interpreter) -> (r: String)
    ensures
        r@ == command_of(i),
{
    match i {
        Interpreter::PowerShell => String::from_str("powershell"),
        Interpreter::Shell => String::from_str("bash"),
        Interpreter::UniversalRuntime => String::from_str("node"),
    }
}

/// The name under which a missing `i` is reported.
pub fn dependency_name(i: Interpreter) -> (r: String)
    ensures
        r@ == dependency_of(i),
{
    match i {
        Interpreter::PowerShell => String::from_str("PowerShell"),
        Interpreter::Shell => String::from_str("Bash shell"),
        Interpreter::UniversalRuntime => String::from_str("Node.js"),
    }
}

/// Picks the wrapper script to run on `os`, given which scripts exist; absence is a
/// normal outcome, not an error.
pub fn locate_wrapper(os: Os, present: WrapperPresence) -> (r: Option<WrapperScript>)
    ensures
        r is Some <==> spec_locate(os, present) is Some,
        r matches Some(w) ==> spec_locate(os, present) == Some(w.interpreter) && w.path@
            == script_path(w.interpreter),
{
    let found = if os == Os::Windows && present.powershell {
        Some(Interpreter::PowerShell)
    } else if os != Os::Windows && present.shell {
        Some(Interpreter::Shell)
    } else if present.universal {
        Some(Interpreter::UniversalRuntime)
    } else {
        None
    };
    match found {
        Some(i) => Some(WrapperScript { interpreter: i, path: script_location(i) }),
        None => None,
    }
}

/// The arguments for running `script` with its interpreter: PowerShell gets
/// execution-policy bypass and file flags, the others take the path alone.
pub fn wrapper_args(script: &WrapperScript) -> (r: Vec<String>)
    ensures
        strings_view(r@) == spec_wrapper_args(script.interpreter, script.path@),
{
    let mut r: Vec<String> = Vec::new();
    if script.interpreter == Interpreter::PowerShell {
        r.push(String::from_str("-ExecutionPolicy"));
        r.push(String::from_str("Bypass"));
        r.push(String::from_str("-File"));
    }
    r.push(script.path.clone());
    assert(strings_view(r@) =~= spec_wrapper_args(script.interpreter, script.path@));
    r
}

/// With no wrapper script present in any recognised location, none is found on any
/// platform.
pub proof fn lemma_no_script_no_wrapper(os: Os)
    ensures
        spec_locate(os, WrapperPresence { powershell: false, shell: false, universal: false })
            is None,
{
}

} // verus!
