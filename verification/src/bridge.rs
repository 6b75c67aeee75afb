use vstd::prelude::*;
use vstd::string::StringExecFns;
use crate::dialog::confirm_overwrite;
use crate::errors::DialogUnavailableError;
use crate::errors::PathResolutionError;
use crate::errors::StartupError;
use crate::greeting::greet;
use crate::greeting::greeting_of;
use crate::paths::get_root_path;
use crate::paths::spec_parent;

verus! {

/// A command of the surface that the bridge exposes to the front-end.
#[derive(Clone, Copy, Debug, PartialEq, Eq, Structural)]
pub enum Command {
    Greet,
    GetRootPath,
    ConfirmOverwrite,
}

/// The name under which a command is registered and invoked.
pub open spec fn spec_command_name(c: Command) -> Seq<char> {
    match c {
        Command::Greet => "greet"@,
        Command::GetRootPath => "get_root_path"@,
        Command::ConfirmOverwrite => "confirm_overwrite"@,
    }
}

/// The registered command set, in registration order.
pub open spec fn spec_registered() -> Seq<Command> {
    seq![Command::Greet, Command::GetRootPath, Command::ConfirmOverwrite]
}

/// Which command a name resolves to: exactly the three registered names
/// resolve, every other name resolves to nothing.
pub open spec fn spec_lookup(name: Seq<char>) -> Option<Command> {
    if name == "greet"@ {
        Some(Command::Greet)
    } else if name == "get_root_path"@ {
        Some(Command::GetRootPath)
    } else if name == "confirm_overwrite"@ {
        Some(Command::ConfirmOverwrite)
    } else {
        None
    }
}

fn str_eq(a: &str, b: &str) -> (r: bool)
    ensures
        r == (a@ == b@),
{
    let x: String = a.to_owned();
    let y: String = b.to_owned();
    x == y
}

/// The name under which a command is registered.
pub fn command_name(c: &Command) -> (r: String)
    ensures
        r@ == spec_command_name(*c),
{
    match c {
        Command::Greet => String::from_str("greet"),
        Command::GetRootPath => String::from_str("get_root_path"),
        Command::ConfirmOverwrite => String::from_str("confirm_overwrite"),
    }
}

/// Resolve an invocation name to a registered command, as the hosting
/// runtime's dispatcher does; an unregistered name resolves to `None`.
pub fn lookup_command(name: &str) -> (r: Option<Command>)
    ensures
        r == spec_lookup(name@),
{
    if str_eq(name, "greet") {
        Some(Command::Greet)
    } else if str_eq(name, "get_root_path") {
        Some(Command::GetRootPath)
    } else if str_eq(name, "confirm_overwrite") {
        Some(Command::ConfirmOverwrite)
    } else {
        None
    }
}

/// The command set that startup registers, in registration order.
pub fn registered_commands() -> (r: Vec<Command>)
    ensures
        r@ == spec_registered(),
{
    let mut r: Vec<Command> = Vec::new();
    r.push(Command::Greet);
    r.push(Command::GetRootPath);
    r.push(Command::ConfirmOverwrite);
    proof {
        assert(r@ =~= spec_registered());
    }
    r
}

/// The command surface is exactly the three operations and nothing else:
/// the registered set has three distinct commands, each resolves back from
/// its own name, and a name resolves to a command only when it is the name
/// of a registered command.
pub proof fn lemma_command_surface()
    ensures
        spec_registered().len() == 3,
        forall|i: int, j: int|
            0 <= i < j < spec_registered().len() ==> spec_registered()[i] != spec_registered()[j],
        forall|i: int|
            0 <= i < spec_registered().len() ==> spec_lookup(
                spec_command_name(#[trigger] spec_registered()[i]),
            ) == Some(spec_registered()[i]),
        forall|n: Seq<char>|
            (#[trigger] spec_lookup(n)) is Some <==> exists|i: int|
                0 <= i < spec_registered().len() && n == spec_command_name(spec_registered()[i]),
{
    reveal_strlit("greet");
    reveal_strlit("get_root_path");
    reveal_strlit("confirm_overwrite");
    assert(spec_command_name(spec_registered()[0]) == "greet"@);
    assert(spec_command_name(spec_registered()[1]) == "get_root_path"@);
    assert(spec_command_name(spec_registered()[2]) == "confirm_overwrite"@);
    assert("greet"@.len() == 5);
    assert("get_root_path"@.len() == 13);
    assert("confirm_overwrite"@.len() == 17);
    assert forall|n: Seq<char>| (#[trigger] spec_lookup(n)) is Some implies exists|i: int|
        0 <= i < spec_registered().len() && n == spec_command_name(spec_registered()[i]) by {
        if n == "greet"@ {
            assert(n == spec_command_name(spec_registered()[0]));
        } else if n == "get_root_path"@ {
            assert(n == spec_command_name(spec_registered()[1]));
        } else {
            assert(n == spec_command_name(spec_registered()[2]));
        }
    }
}

/// One request from the front-end: a command together with what the
/// hosting layer gathered for it (the resolved executable path, or the
/// user's dialog answer).
pub enum Invocation {
    Greet { name: String },
    GetRootPath { resolved_exe: Option<String> },
    ConfirmOverwrite { response: Option<bool> },
}

/// One response to the front-end: a string or a boolean, or the operation's
/// error carried back instead of a crash.
#[derive(Debug, PartialEq, Eq)]
pub enum Reply {
    Greeting(String),
    RootPath(Result<String, PathResolutionError>),
    Confirmation(Result<bool, DialogUnavailableError>),
}

/// Respond to one invocation: dispatch to the operation the request names
/// and wrap its result. Each arm's outcome is pinned to the operation's own
/// contract, so the bridge adds or loses nothing.
pub fn invoke(inv: &Invocation) -> (r: Reply)
    ensures
        (match *inv {
            Invocation::Greet { name } => r matches Reply::Greeting(g) && g@ == greeting_of(
                name@,
            ),
            Invocation::GetRootPath { resolved_exe } => r matches Reply::RootPath(res) && (
            match resolved_exe {
                Some(p) => match spec_parent(p@) {
                    Some(par) => res matches Ok(d) && d@ == par,
                    None => res == Err::<String, PathResolutionError>(
                        PathResolutionError::NoParent,
                    ),
                },
                None => res == Err::<String, PathResolutionError>(PathResolutionError::Unresolved),
            }),
            Invocation::ConfirmOverwrite { response } => r matches Reply::Confirmation(res) && (
            match response {
                Some(b) => res == Ok::<bool, DialogUnavailableError>(b),
                None => res == Err::<bool, DialogUnavailableError>(DialogUnavailableError),
            }),
        }),
{
    match inv {
        Invocation::Greet { name } => Reply::Greeting(greet(name.as_str())),
        Invocation::GetRootPath { resolved_exe } => match resolved_exe {
            Some(p) => Reply::RootPath(get_root_path(Some(p.as_str()))),
            None => Reply::RootPath(get_root_path(None)),
        },
        Invocation::ConfirmOverwrite { response } => Reply::Confirmation(
            confirm_overwrite(*response),
        ),
    }
}

/// How startup configures the one window it creates.
pub struct WindowConfig {
    pub label: String,
    pub title: String,
    pub entry: String,
}

/// The fixed configuration of the main window: its label, its title, and
/// the bundled front-end entry point it loads.
pub fn main_window_config() -> (c: WindowConfig)
    ensures
        c.label@ == "main"@,
        c.title@ == "Sonic: Lock & Load"@,
        c.entry@ == "index.html"@,
{
    WindowConfig {
        label: String::from_str("main"),
        title: String::from_str("Sonic: Lock & Load"),
        entry: String::from_str("index.html"),
    }
}

/// The process exit code for a finished run: 0 exactly when the runtime ran
/// and shut down normally, 1 when startup failed.
pub fn exit_code(run: Result<(), StartupError>) -> (code: i32)
    ensures
        code == 0 <==> run is Ok,
        run is Err ==> code == 1,
{
    match run {
        Ok(()) => 0,
        Err(_) => 1,
    }
}

} // verus!
