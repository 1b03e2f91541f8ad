//! Command invocations, command outcomes, and the success/failure rule.

use vstd::prelude::*;

verus! {

/// An external command invocation: a program name and its ordered arguments.
pub struct Cmd {
    pub program: String,
    pub args: Vec<String>,
}

/// The mathematical value of a `Cmd`: the program name and the arguments,
/// each as a sequence of characters.
#[verifier::ext_equal]
pub struct CmdView {
    pub program: Seq<char>,
    pub args: Seq<Seq<char>>,
}

impl View for Cmd {
    type V = CmdView;

    open spec fn view(&self) -> CmdView {
        CmdView { program: self.program@, args: self.args@.map_values(|a: String| a@) }
    }
}

/// The views of a list of commands.
pub open spec fn cmds_view(v: Vec<Cmd>) -> Seq<CmdView> {
    v@.map_values(|c: Cmd| c@)
}

/// Builds a command from a program name and argument slices.
pub fn make_cmd(program: &str, args: &[&str]) -> (r: Cmd)
    ensures
        r@.program == program@,
        r@.args.len() == args@.len(),
        forall|i: int| 0 <= i < args@.len() ==> r@.args[i] == #[trigger] args@[i]@,
{
    let mut v: Vec<String> = Vec::new();
    let mut i: usize = 0;
    while i < args.len()
        invariant
            i <= args@.len(),
            v@.len() == i,
            forall|j: int| 0 <= j < i ==> v@[j]@ == #[trigger] args@[j]@,
        decreases args@.len() - i,
    {
        v.push(String::from_str(args[i]));
        i = i + 1;
    }
    Cmd { program: String::from_str(program), args: v }
}

/// What the operating system reported about one spawned command.
pub enum CmdStatus {
    /// The program could not be started; carries the OS error text.
    SpawnError(String),
    /// The program ran and exited with this status code.
    Exited(i32),
    /// The program ran but was terminated without an exit code.
    SignalTerminated,
}

/// A failure that ends the run.
#[derive(Debug)]
pub enum SetupError {
    /// The host platform is not one of the supported tags.
    UnsupportedPlatform,
    /// A command could not be spawned; carries the OS error text.
    SpawnFailed(String),
    /// A command exited unsuccessfully; carries the exit code when known.
    CommandFailed(Option<i32>),
}

/// A command counts as successful exactly when it exited with status 0.
pub open spec fn cmd_ok(s: CmdStatus) -> bool {
    s matches CmdStatus::Exited(c) && c == 0
}

/// The error that an unsuccessful command outcome turns into.
pub open spec fn failure_of(s: CmdStatus) -> SetupError {
    match s {
        CmdStatus::SpawnError(m) => SetupError::SpawnFailed(m),
        CmdStatus::Exited(c) => SetupError::CommandFailed(Some(c)),
        CmdStatus::SignalTerminated => SetupError::CommandFailed(None),
    }
}

/// Whether a command outcome counts as success.
pub fn status_ok(s: &CmdStatus) -> (b: bool)
    ensures
        b == cmd_ok(*s),
{
    match s {
        CmdStatus::Exited(c) => *c == 0,
        _ => false,
    }
}

/// Turns a command outcome into the run's success/failure result: success
/// if and only if the command exited with status 0; otherwise the failure
/// carries the spawn error text, or the exit code when one is known.
pub fn command_result(status: CmdStatus) -> (r: Result<(), SetupError>)
    ensures
        r is Ok <==> cmd_ok(status),
        r is Err ==> r->Err_0 == failure_of(status),
{
    match status {
        CmdStatus::Exited(c) => {
            if c == 0 {
                Ok(())
            } else {
                Err(SetupError::CommandFailed(Some(c)))
            }
        },
        CmdStatus::SpawnError(m) => Err(SetupError::SpawnFailed(m)),
        CmdStatus::SignalTerminated => Err(SetupError::CommandFailed(None)),
    }
}

} // verus!
