//! The run as a state machine: every decision of the bootstrap sequence is a
//! transition here, while an unverified shell spawns the commands and hands
//! the outcomes back as events.
//!
//! The sequence is: create the named environment, activate it, install the
//! OCR tool for the detected platform, install every manifest entry in order,
//! run the four verification checks, then hand off to the companion script if
//! it is present. Any failed command up to the verification stage ends the
//! run with a failure; verification outcomes are only reported; a missing
//! companion script ends the run successfully.

use vstd::prelude::*;
use vstd::pervasive::unreached;
use crate::command::{
    Cmd, CmdView, CmdStatus, SetupError, cmd_ok, failure_of, command_result, make_cmd, status_ok,
};
use crate::platform::{Platform, platform_of, tag_of, detect_platform};
use crate::plan::{
    create_env_cmd, activate_env_cmd, ocr_cmds, req_count, requirement, pip_install_cmd,
    check_count, check_cmd, check_line, setup_conda_env, activate_env, ocr_len, ocr_cmd_at,
    dep_cmd_at, check_cmd_at, check_line_for,
};
use crate::text::{step_line_spec, header_view, lines_view, step_line, header_lines};

verus! {

/// Where the run stands: which command is in flight, or how it ended.
pub enum State {
    /// The environment-creation command is running.
    CreatingEnv { platform: Platform },
    /// The environment-activation command is running. Note that the
    /// activation runs in a child process of its own, so it cannot change
    /// the environment of the commands spawned after it; the step is kept
    /// because the sequence calls for it, but every later command runs in
    /// the ambient environment.
    ActivatingEnv { platform: Platform },
    /// OCR installation command `index` for this platform is running.
    InstallingOcr { platform: Platform, index: usize },
    /// The install command for manifest entry `index` is running.
    InstallingDeps { index: usize },
    /// Verification check `index` is running.
    Verifying { index: usize },
    /// The shell is asked whether the companion script is present.
    AwaitingMainCheck,
    /// The companion script is running.
    RunningMain,
    /// The run is over: the process exits with `code`, after reporting
    /// `error` if the run failed.
    Done { code: i32, error: Option<SetupError> },
}

/// What the shell reports back to the machine.
pub enum Event {
    /// The command the machine asked for has finished with this outcome.
    CommandDone(CmdStatus),
    /// Whether the companion script exists in the working directory.
    MainPresent(bool),
}

/// What the machine asks the shell to do next, after printing.
pub enum Op {
    /// Spawn this command, wait, and report the outcome.
    RunCmd(Cmd),
    /// Report whether the companion script is present.
    CheckMain,
    /// Exit the process with this code.
    Finish(i32),
}

/// The mathematical value of an `Op`.
#[verifier::ext_equal]
pub enum OpView {
    RunCmd(CmdView),
    CheckMain,
    Finish(int),
}

impl View for Op {
    type V = OpView;

    open spec fn view(&self) -> OpView {
        match self {
            Op::RunCmd(c) => OpView::RunCmd(c@),
            Op::CheckMain => OpView::CheckMain,
            Op::Finish(code) => OpView::Finish(*code as int),
        }
    }
}

/// One step's output: lines to print on standard output, then an operation.
pub struct Action {
    pub out_lines: Vec<String>,
    pub op: Op,
}

/// The mathematical value of an `Action`.
#[verifier::ext_equal]
pub struct ActionView {
    pub out_lines: Seq<Seq<char>>,
    pub op: OpView,
}

impl View for Action {
    type V = ActionView;

    open spec fn view(&self) -> ActionView {
        ActionView { out_lines: lines_view(self.out_lines), op: self.op@ }
    }
}

/// The banner title the run opens with.
pub open spec fn title() -> Seq<char> {
    "H2LooP-T-data Setup Script"@
}

/// The command that hands off to the companion script.
pub open spec fn run_main_cmd() -> CmdView {
    CmdView { program: "python"@, args: seq!["main.py"@] }
}

/// A well-formed state keeps every stage index within its table.
pub open spec fn wf_state(s: State) -> bool {
    match s {
        State::InstallingOcr { platform, index } => index < ocr_cmds(platform).len(),
        State::InstallingDeps { index } => index < req_count(),
        State::Verifying { index } => index < check_count(),
        _ => true,
    }
}

/// Which events can answer which states: a finished state takes no event,
/// the companion-script question takes a presence answer, and every other
/// state takes a command outcome.
pub open spec fn compat(s: State, e: Event) -> bool {
    match s {
        State::Done { .. } => false,
        State::AwaitingMainCheck => e is MainPresent,
        _ => e is CommandDone,
    }
}

/// The outcome carried by a command-done event.
pub open spec fn ev_status(e: Event) -> CmdStatus {
    e->CommandDone_0
}

/// The final state of a run that a failed command ended.
pub open spec fn fail_state(st: CmdStatus) -> State {
    State::Done { code: 1, error: Some(failure_of(st)) }
}

/// The action of a step that ends the run in failure: nothing more to print
/// on standard output, exit with code 1.
pub open spec fn fail_action() -> ActionView {
    ActionView { out_lines: Seq::empty(), op: OpView::Finish(1) }
}

/// The state the machine starts in for a host operating-system name: ready
/// to create the environment on a supported platform, and finished with an
/// unsupported-platform failure on any other.
pub open spec fn start_state(os: Seq<char>) -> State {
    match platform_of(os) {
        Some(p) => State::CreatingEnv { platform: p },
        None => State::Done { code: 1, error: Some(SetupError::UnsupportedPlatform) },
    }
}

/// The first action: the opening banner, then either the detected-platform
/// and environment-setup step lines followed by the creation command, or,
/// on an unsupported platform, an immediate exit with code 1 — no command
/// is ever issued.
pub open spec fn start_action(os: Seq<char>) -> ActionView {
    match platform_of(os) {
        Some(p) => ActionView {
            out_lines: header_view(title())
                + seq![
                    step_line_spec("Detected platform: "@ + tag_of(p)),
                    step_line_spec("Setting up Conda environment 'H2LooP-T-data'..."@),
                ],
            op: OpView::RunCmd(create_env_cmd()),
        },
        None => ActionView { out_lines: header_view(title()), op: OpView::Finish(1) },
    }
}

/// The transition rule on states: each command outcome either advances the
/// sequence or, in the stages where failure is fatal, ends the run; the
/// verification stage always advances; the handoff stage branches on whether
/// the companion script is present.
pub open spec fn next_state(s: State, e: Event) -> State {
    match s {
        State::CreatingEnv { platform } => if cmd_ok(ev_status(e)) {
            State::ActivatingEnv { platform }
        } else {
            fail_state(ev_status(e))
        },
        State::ActivatingEnv { platform } => if cmd_ok(ev_status(e)) {
            State::InstallingOcr { platform, index: 0 }
        } else {
            fail_state(ev_status(e))
        },
        State::InstallingOcr { platform, index } => if cmd_ok(ev_status(e)) {
            if index + 1 < ocr_cmds(platform).len() {
                State::InstallingOcr { platform, index: (index + 1) as usize }
            } else {
                State::InstallingDeps { index: 0 }
            }
        } else {
            fail_state(ev_status(e))
        },
        State::InstallingDeps { index } => if cmd_ok(ev_status(e)) {
            if index + 1 < req_count() {
                State::InstallingDeps { index: (index + 1) as usize }
            } else {
                State::Verifying { index: 0 }
            }
        } else {
            fail_state(ev_status(e))
        },
        State::Verifying { index } => if index + 1 < check_count() {
            State::Verifying { index: (index + 1) as usize }
        } else {
            State::AwaitingMainCheck
        },
        State::AwaitingMainCheck => if e->MainPresent_0 {
            State::RunningMain
        } else {
            State::Done { code: 0, error: None }
        },
        State::RunningMain => if cmd_ok(ev_status(e)) {
            State::Done { code: 0, error: None }
        } else {
            fail_state(ev_status(e))
        },
        State::Done { .. } => s,
    }
}

/// The output rule: what each transition prints and which operation it asks
/// for next.
pub open spec fn next_action(s: State, e: Event) -> ActionView {
    match s {
        State::CreatingEnv { platform } => if cmd_ok(ev_status(e)) {
            ActionView { out_lines: Seq::empty(), op: OpView::RunCmd(activate_env_cmd()) }
        } else {
            fail_action()
        },
        State::ActivatingEnv { platform } => if cmd_ok(ev_status(e)) {
            ActionView {
                out_lines: seq![step_line_spec("Installing Tesseract OCR..."@)],
                op: OpView::RunCmd(ocr_cmds(platform)[0]),
            }
        } else {
            fail_action()
        },
        State::InstallingOcr { platform, index } => if cmd_ok(ev_status(e)) {
            if index + 1 < ocr_cmds(platform).len() {
                ActionView {
                    out_lines: Seq::empty(),
                    op: OpView::RunCmd(ocr_cmds(platform)[index + 1]),
                }
            } else {
                ActionView {
                    out_lines: seq![step_line_spec("Installing Python requirements..."@)],
                    op: OpView::RunCmd(pip_install_cmd(requirement(0))),
                }
            }
        } else {
            fail_action()
        },
        State::InstallingDeps { index } => if cmd_ok(ev_status(e)) {
            if index + 1 < req_count() {
                ActionView {
                    out_lines: Seq::empty(),
                    op: OpView::RunCmd(pip_install_cmd(requirement(index + 1))),
                }
            } else {
                ActionView {
                    out_lines: seq![step_line_spec("Verifying installation..."@)],
                    op: OpView::RunCmd(check_cmd(0)),
                }
            }
        } else {
            fail_action()
        },
        State::Verifying { index } => if index + 1 < check_count() {
            ActionView {
                out_lines: seq![check_line(index as int, cmd_ok(ev_status(e)))],
                op: OpView::RunCmd(check_cmd(index + 1)),
            }
        } else {
            ActionView {
                out_lines: seq![check_line(index as int, cmd_ok(ev_status(e)))]
                    + header_view("Setup Complete!"@)
                    + seq![step_line_spec("Passing execution to main.py..."@)],
                op: OpView::CheckMain,
            }
        },
        State::AwaitingMainCheck => if e->MainPresent_0 {
            ActionView { out_lines: Seq::empty(), op: OpView::RunCmd(run_main_cmd()) }
        } else {
            ActionView {
                out_lines: seq!["Error: main.py not found in the current directory."@],
                op: OpView::Finish(0),
            }
        },
        State::RunningMain => if cmd_ok(ev_status(e)) {
            ActionView { out_lines: Seq::empty(), op: OpView::Finish(0) }
        } else {
            fail_action()
        },
        State::Done { code, .. } => ActionView {
            out_lines: Seq::empty(),
            op: OpView::Finish(code as int),
        },
    }
}

/// Begins a run for a host operating-system name.
pub fn start(os: &str) -> (r: (State, Action))
    ensures
        r.0 == start_state(os@),
        r.1@ == start_action(os@),
        wf_state(r.0),
{
    let mut lines = header_lines("H2LooP-T-data Setup Script");
    match detect_platform(os) {
        Ok(p) => {
            let mut msg = String::from_str("Detected platform: ");
            msg.append(p.tag());
            lines.push(step_line(msg.as_str()));
            lines.push(step_line("Setting up Conda environment 'H2LooP-T-data'..."));
            let act = Action { out_lines: lines, op: Op::RunCmd(setup_conda_env()) };
            proof {
                assert(act@ =~~= start_action(os@));
            }
            (State::CreatingEnv { platform: p }, act)
        },
        Err(_) => {
            let act = Action { out_lines: lines, op: Op::Finish(1) };
            proof {
                assert(act@ =~~= start_action(os@));
            }
            (State::Done { code: 1, error: Some(SetupError::UnsupportedPlatform) }, act)
        },
    }
}

/// An empty-output action around an operation.
fn quiet(op: Op) -> (a: Action)
    ensures
        a@.op == op@,
        a@.out_lines == Seq::<Seq<char>>::empty(),
{
    let a = Action { out_lines: Vec::new(), op };
    proof {
        assert(a@.out_lines =~= Seq::<Seq<char>>::empty());
    }
    a
}

/// The step that ends the run on a failed command.
fn fail_step(e: SetupError) -> (r: (State, Action))
    ensures
        r.0 == (State::Done { code: 1, error: Some(e) }),
        r.1@ == fail_action(),
{
    let act = quiet(Op::Finish(1));
    proof {
        assert(act@ =~~= fail_action());
    }
    (State::Done { code: 1, error: Some(e) }, act)
}

/// Performs one transition of the run.
pub fn step(state: State, event: Event) -> (r: (State, Action))
    requires
        compat(state, event),
        wf_state(state),
    ensures
        r.0 == next_state(state, event),
        r.1@ == next_action(state, event),
        wf_state(r.0),
{
    let ghost s0 = state;
    let ghost e0 = event;
    match state {
        State::CreatingEnv { platform } => match event {
            Event::CommandDone(st) => match command_result(st) {
                Ok(_) => {
                    let act = quiet(Op::RunCmd(activate_env()));
                    proof {
                        assert(act@ =~~= next_action(s0, e0));
                    }
                    (State::ActivatingEnv { platform }, act)
                },
                Err(e) => fail_step(e),
            },
            Event::MainPresent(_) => unreached(),
        },
        State::ActivatingEnv { platform } => match event {
            Event::CommandDone(st) => match command_result(st) {
                Ok(_) => {
                    let mut lines: Vec<String> = Vec::new();
                    lines.push(step_line("Installing Tesseract OCR..."));
                    let act = Action { out_lines: lines, op: Op::RunCmd(ocr_cmd_at(platform, 0)) };
                    proof {
                        assert(act@ =~~= next_action(s0, e0));
                    }
                    (State::InstallingOcr { platform, index: 0 }, act)
                },
                Err(e) => fail_step(e),
            },
            Event::MainPresent(_) => unreached(),
        },
        State::InstallingOcr { platform, index } => match event {
            Event::CommandDone(st) => match command_result(st) {
                Ok(_) => {
                    if index + 1 < ocr_len(platform) {
                        let act = quiet(Op::RunCmd(ocr_cmd_at(platform, index + 1)));
                        proof {
                            assert(act@ =~~= next_action(s0, e0));
                        }
                        (State::InstallingOcr { platform, index: index + 1 }, act)
                    } else {
                        let mut lines: Vec<String> = Vec::new();
                        lines.push(step_line("Installing Python requirements..."));
                        let act = Action { out_lines: lines, op: Op::RunCmd(dep_cmd_at(0)) };
                        proof {
                            assert(act@ =~~= next_action(s0, e0));
                        }
                        (State::InstallingDeps { index: 0 }, act)
                    }
                },
                Err(e) => fail_step(e),
            },
            Event::MainPresent(_) => unreached(),
        },
        State::InstallingDeps { index } => match event {
            Event::CommandDone(st) => match command_result(st) {
                Ok(_) => {
                    if index + 1 < 17 {
                        let act = quiet(Op::RunCmd(dep_cmd_at(index + 1)));
                        proof {
                            assert(act@ =~~= next_action(s0, e0));
                        }
                        (State::InstallingDeps { index: index + 1 }, act)
                    } else {
                        let mut lines: Vec<String> = Vec::new();
                        lines.push(step_line("Verifying installation..."));
                        let act = Action { out_lines: lines, op: Op::RunCmd(check_cmd_at(0)) };
                        proof {
                            assert(act@ =~~= next_action(s0, e0));
                        }
                        (State::Verifying { index: 0 }, act)
                    }
                },
                Err(e) => fail_step(e),
            },
            Event::MainPresent(_) => unreached(),
        },
        State::Verifying { index } => match event {
            Event::CommandDone(st) => {
                let ok = status_ok(&st);
                let line = check_line_for(index, ok);
                if index + 1 < 4 {
                    let mut lines: Vec<String> = Vec::new();
                    lines.push(line);
                    let act = Action { out_lines: lines, op: Op::RunCmd(check_cmd_at(index + 1)) };
                    proof {
                        assert(act@ =~~= next_action(s0, e0));
                    }
                    (State::Verifying { index: index + 1 }, act)
                } else {
                    let mut lines: Vec<String> = Vec::new();
                    lines.push(line);
                    let mut banner = header_lines("Setup Complete!");
                    lines.append(&mut banner);
                    lines.push(step_line("Passing execution to main.py..."));
                    let act = Action { out_lines: lines, op: Op::CheckMain };
                    proof {
                        assert(act@ =~~= next_action(s0, e0));
                    }
                    (State::AwaitingMainCheck, act)
                }
            },
            Event::MainPresent(_) => unreached(),
        },
        State::AwaitingMainCheck => match event {
            Event::MainPresent(present) => {
                if present {
                    let act = quiet(Op::RunCmd(make_cmd("python", &["main.py"])));
                    proof {
                        assert(act@ =~~= next_action(s0, e0));
                    }
                    (State::RunningMain, act)
                } else {
                    let mut lines: Vec<String> = Vec::new();
                    lines.push(
                        String::from_str("Error: main.py not found in the current directory."),
                    );
                    let act = Action { out_lines: lines, op: Op::Finish(0) };
                    proof {
                        assert(act@ =~~= next_action(s0, e0));
                    }
                    (State::Done { code: 0, error: None }, act)
                }
            },
            Event::CommandDone(_) => unreached(),
        },
        State::RunningMain => match event {
            Event::CommandDone(st) => match command_result(st) {
                Ok(_) => {
                    let act = quiet(Op::Finish(0));
                    proof {
                        assert(act@ =~~= next_action(s0, e0));
                    }
                    (State::Done { code: 0, error: None }, act)
                },
                Err(e) => fail_step(e),
            },
            Event::MainPresent(_) => unreached(),
        },
        State::Done { .. } => unreached(),
    }
}

/// Dependency installs stop at the first failure: a failed install of any
/// manifest entry ends the run at once with a failure, and the machine
/// issues no further command, so later entries are never attempted.
pub proof fn lemma_deps_stop_on_failure(index: usize, st: CmdStatus)
    requires
        index < req_count(),
        !cmd_ok(st),
    ensures
        next_state(State::InstallingDeps { index }, Event::CommandDone(st)) == (State::Done {
            code: 1,
            error: Some(failure_of(st)),
        }),
        next_action(State::InstallingDeps { index }, Event::CommandDone(st)).op == OpView::Finish(
            1,
        ),
{
}

/// Dependency installs go one per manifest entry, in manifest order: after a
/// successful install of entry `index`, the very next command issued installs
/// entry `index + 1`, and after the last entry the machine leaves the
/// dependency stage.
pub proof fn lemma_deps_in_order(index: usize, st: CmdStatus)
    requires
        index < req_count(),
        cmd_ok(st),
    ensures
        index + 1 < req_count() ==> next_state(
            State::InstallingDeps { index },
            Event::CommandDone(st),
        ) == (State::InstallingDeps { index: (index + 1) as usize }),
        index + 1 < req_count() ==> next_action(
            State::InstallingDeps { index },
            Event::CommandDone(st),
        ).op == OpView::RunCmd(pip_install_cmd(requirement(index + 1))),
        index + 1 == req_count() ==> next_state(
            State::InstallingDeps { index },
            Event::CommandDone(st),
        ) == (State::Verifying { index: 0 }),
{
}

/// The verifier never fails the run: whatever a check's outcome, the machine
/// moves forward — never to a failed final state — and prints exactly one
/// status line for the tool just checked (after the last check, the closing
/// banner follows that line).
pub proof fn lemma_verifier_never_fails(index: usize, st: CmdStatus)
    requires
        index < check_count(),
    ensures
        next_state(State::Verifying { index }, Event::CommandDone(st)) == (if index + 1
            < check_count() {
            State::Verifying { index: (index + 1) as usize }
        } else {
            State::AwaitingMainCheck
        }),
        next_action(State::Verifying { index }, Event::CommandDone(st)).out_lines[0] == check_line(
            index as int,
            cmd_ok(st),
        ),
        index + 1 < check_count() ==> next_action(
            State::Verifying { index },
            Event::CommandDone(st),
        ).out_lines.len() == 1,
        index + 1 == check_count() ==> next_action(
            State::Verifying { index },
            Event::CommandDone(st),
        ).op == OpView::CheckMain,
{
}

} // verus!
