use vstd::prelude::*;

use crate::credential::{resolve_token, source_view, spec_token};
use crate::error::ResolveError;
use crate::wrapper::{
    command_of, dependency_name, dependency_of, interpreter_command, spec_wrapper_args,
    strings_view, wrapper_args, WrapperScript,
};

verus! {

/// Environment variable through which the launched server receives its token.
pub const TOKEN_ENV_VAR: &'static str = "GITHUB_PERSONAL_ACCESS_TOKEN";

/// The argument that makes the server speak over standard input and output.
pub const STDIO_ARG: &'static str = "stdio";

/// What the host supplies per invocation.
#[derive(Debug)]
pub struct Settings {
    pub token: Option<String>,
    pub use_wrapper: Option<bool>,
}

/// A process to launch: executable, arguments and extra environment.
#[derive(Debug)]
pub struct Command {
    pub command: String,
    pub args: Vec<String>,
    pub env: Vec<(String, String)>,
}

/// The outcome of the decisions taken before any binary is resolved.
#[derive(Debug)]
pub enum CommandPlan {
    /// The command is complete.
    Ready(Command),
    /// The release binary must be resolved, then launched with this token.
    NeedsBinary(String),
}

pub open spec fn env_view(v: Seq<(String, String)>) -> Seq<(Seq<char>, Seq<char>)> {
    v.map_values(|p: (String, String)| (p.0@, p.1@))
}

/// `c` launches `cmd` with `args` and exactly the variables `env`.
pub open spec fn command_is(
    c: Command,
    cmd: Seq<char>,
    args: Seq<Seq<char>>,
    env: Seq<(Seq<char>, Seq<char>)>,
) -> bool {
    &&& c.command@ == cmd
    &&& strings_view(c.args@) == args
    &&& env_view(c.env@) == env
}

pub open spec fn spec_wants_wrapper(s: Settings) -> bool {
    s.use_wrapper == Some(true)
}

/// The wrapper command: its interpreter with the interpreter's arguments and no extra
/// environment.
pub open spec fn is_wrapper_command(c: Command, w: WrapperScript) -> bool {
    command_is(c, command_of(w.interpreter), spec_wrapper_args(w.interpreter, w.path@), seq![])
}

/// The traditional command: the binary with the stdio argument and the token exported.
pub open spec fn is_binary_command(c: Command, path: Seq<char>, token: Seq<char>) -> bool {
    command_is(c, path, seq![STDIO_ARG@], seq![(TOKEN_ENV_VAR@, token)])
}

impl Settings {
    /// The settings used when the host supplies none: no token, no wrapper mode.
    pub fn empty() -> (r: Settings)
        ensures
            r.token is None,
            r.use_wrapper is None,
    {
        Settings { token: None, use_wrapper: None }
    }
}

/// Whether the settings ask for wrapper mode; unset means no.
pub fn wants_wrapper(settings: &Settings) -> (r: bool)
    ensures
        r == spec_wants_wrapper(*settings),
{
    match settings.use_wrapper {
        Some(b) => b,
        None => false,
    }
}

/// The command for wrapper mode, given the located script and whether its
/// interpreter could be started.
pub fn wrapper_command(found: Option<WrapperScript>, runnable: bool) -> (r: Result<Command, ResolveError>)
    ensures
        found is None ==> (r matches Err(e) && e is WrapperNotFound),
        found is Some && !runnable ==> (r matches Err(e)
            && e matches ResolveError::WrapperPrerequisiteMissing(n) && n@ == dependency_of(
            found->Some_0.interpreter,
        )),
        found is Some && runnable ==> (r matches Ok(c) && is_wrapper_command(c, found->Some_0)),
{
    match found {
        None => Err(ResolveError::WrapperNotFound),
        Some(w) => {
            if runnable {
                let args = wrapper_args(&w);
                let c = Command { command: interpreter_command(w.interpreter), args, env: Vec::new() };
                assert(env_view(c.env@) =~= seq![]);
                Ok(c)
            } else {
                Err(ResolveError::WrapperPrerequisiteMissing(dependency_name(w.interpreter)))
            }
        },
    }
}

/// The command that launches the resolved binary with the token.
pub fn binary_command(binary_path: String, token: String) -> (r: Command)
    ensures
        is_binary_command(r, binary_path@, token@),
{
    let mut args: Vec<String> = Vec::new();
    args.push(String::from_str(STDIO_ARG));
    let mut env: Vec<(String, String)> = Vec::new();
    env.push((String::from_str(TOKEN_ENV_VAR), token));
    let r = Command { command: binary_path, args, env };
    assert(strings_view(r.args@) =~= seq![STDIO_ARG@]);
    assert(env_view(r.env@) =~= seq![(TOKEN_ENV_VAR@, token@)]);
    r
}

/// Every decision before the binary is resolved. In wrapper mode the result is the
/// wrapper command or its error; otherwise the token is resolved first, so a missing
/// credential fails before any release is fetched.
pub fn plan_command(
    settings: &Settings,
    wrapper: Option<WrapperScript>,
    wrapper_runnable: bool,
    primary_env: &Option<String>,
    secondary_env: &Option<String>,
) -> (r: Result<CommandPlan, ResolveError>)
    ensures
        spec_wants_wrapper(*settings) && wrapper is None ==> (r matches Err(e) && e is WrapperNotFound),
        spec_wants_wrapper(*settings) && wrapper is Some && !wrapper_runnable ==> (r matches Err(e)
            && e matches ResolveError::WrapperPrerequisiteMissing(n) && n@ == dependency_of(
            wrapper->Some_0.interpreter,
        )),
        spec_wants_wrapper(*settings) && wrapper is Some && wrapper_runnable ==> (r matches Ok(
            CommandPlan::Ready(c),
        ) && is_wrapper_command(c, wrapper->Some_0)),
        !spec_wants_wrapper(*settings) ==> match spec_token(
            source_view(&settings.token),
            source_view(primary_env),
            source_view(secondary_env),
        ) {
            Some(t) => r matches Ok(CommandPlan::NeedsBinary(tok)) && tok@ == t,
            None => r matches Err(e) && e is MissingCredential,
        },
        r matches Err(e) && e is WrapperNotFound ==> spec_wants_wrapper(*settings),
{
    if wants_wrapper(settings) {
        match wrapper_command(wrapper, wrapper_runnable) {
            Ok(c) => Ok(CommandPlan::Ready(c)),
            Err(e) => Err(e),
        }
    } else {
        match resolve_token(&settings.token, primary_env, secondary_env) {
            Ok(t) => Ok(CommandPlan::NeedsBinary(t)),
            Err(e) => Err(e),
        }
    }
}

} // verus!
