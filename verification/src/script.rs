//! Procedures that run one command after another.
//!
//! A procedure is a function of the replies that its commands have given so
//! far. Called with no reply it names its first command; called again with one
//! reply more it names the next, until it is done. Whoever drives it runs the
//! commands and nothing else.

use vstd::prelude::*;

use crate::duct_util;
use crate::duct_util::{Cmd, CmdView, Layer};

verus! {

/// Where the standard error of a command goes.
#[derive(Debug, Clone, Copy, PartialEq, Eq, Structural)]
pub enum StderrMode {
    Inherit,
    ToStdout,
    Null,
}

/// What becomes of the standard output of a command.
#[derive(Debug, Clone, Copy, PartialEq, Eq, Structural)]
pub enum OutputMode {
    /// It goes where the driver's own output goes.
    Inherit,
    /// It is captured, and the line feeds at its end are taken off.
    Read,
    /// It is captured as it is.
    Capture,
    /// It is read as it comes.
    Stream,
}

/// A command together with the way it is to be run.
#[derive(Debug)]
pub struct Invocation {
    pub cmd: Cmd,
    pub stdin_null: bool,
    pub stderr: StderrMode,
    pub output: OutputMode,
    /// Whether an unsuccessful exit status is an ordinary reply.
    pub unchecked: bool,
}

/// What an [`Invocation`] holds.
pub struct InvocationView {
    pub cmd: CmdView,
    pub stdin_null: bool,
    pub stderr: StderrMode,
    pub output: OutputMode,
    pub unchecked: bool,
}

impl View for Invocation {
    type V = InvocationView;

    open spec fn view(&self) -> InvocationView {
        InvocationView {
            cmd: self.cmd@,
            stdin_null: self.stdin_null,
            stderr: self.stderr,
            output: self.output,
            unchecked: self.unchecked,
        }
    }
}

impl DeepView for Invocation {
    type V = InvocationView;

    open spec fn deep_view(&self) -> InvocationView {
        self@
    }
}

/// Calls `duct::Expression::stdin_null`, which wraps the expression and runs
/// nothing. Claimed: the result holds what the expression does, and that
/// standard input comes from the null device.
#[verifier::external_body]
fn expression_stdin_null(expr: &duct::Expression) -> (res: duct::Expression)
    ensures
        duct_util::duct_layers(res) == duct_util::duct_layers(*expr).push(Layer::StdinNull),
{
    expr.stdin_null()
}

/// Calls `duct::Expression::stderr_to_stdout`, which wraps the expression and runs
/// nothing. Claimed: the result holds what the expression does, and that
/// standard error is joined to the output.
#[verifier::external_body]
fn expression_stderr_to_stdout(expr: &duct::Expression) -> (res: duct::Expression)
    ensures
        duct_util::duct_layers(res) == duct_util::duct_layers(*expr).push(Layer::StderrToStdout),
{
    expr.stderr_to_stdout()
}

/// Calls `duct::Expression::stderr_null`, which wraps the expression and runs
/// nothing. Claimed: the result holds what the expression does, and that
/// standard error is dropped.
#[verifier::external_body]
fn expression_stderr_null(expr: &duct::Expression) -> (res: duct::Expression)
    ensures
        duct_util::duct_layers(res) == duct_util::duct_layers(*expr).push(Layer::StderrNull),
{
    expr.stderr_null()
}

/// Calls `duct::Expression::stdout_capture`, which wraps the expression and runs
/// nothing. Claimed: the result holds what the expression does, and that
/// the output is captured.
#[verifier::external_body]
fn expression_stdout_capture(expr: &duct::Expression) -> (res: duct::Expression)
    ensures
        duct_util::duct_layers(res) == duct_util::duct_layers(*expr).push(Layer::StdoutCapture),
{
    expr.stdout_capture()
}

/// Calls `duct::Expression::unchecked`, which wraps the expression and runs
/// nothing. Claimed: the result holds what the expression does, and that
/// any exit status is accepted.
#[verifier::external_body]
fn expression_unchecked(expr: &duct::Expression) -> (res: duct::Expression)
    ensures
        duct_util::duct_layers(res) == duct_util::duct_layers(*expr).push(Layer::Unchecked),
{
    expr.unchecked()
}

/// What the expression of an invocation holds: the command, then its standard
/// input, standard error, output and exit status, in this order. An invocation
/// that reads its output, at its end or as it comes, leaves the capture to the
/// read itself.
pub open spec fn invocation_layers(inv: InvocationView) -> Seq<Layer> {
    let layers = duct_util::command_layers(inv.cmd);
    let layers = if inv.stdin_null {
        layers.push(Layer::StdinNull)
    } else {
        layers
    };
    let layers = match inv.stderr {
        StderrMode::Inherit => layers,
        StderrMode::ToStdout => layers.push(Layer::StderrToStdout),
        StderrMode::Null => layers.push(Layer::StderrNull),
    };
    let layers = if inv.output == OutputMode::Capture {
        layers.push(Layer::StdoutCapture)
    } else {
        layers
    };
    if inv.unchecked {
        layers.push(Layer::Unchecked)
    } else {
        layers
    }
}

/// A command whose output is read.
pub open spec fn read_of(cmd: CmdView) -> InvocationView {
    InvocationView {
        cmd,
        stdin_null: false,
        stderr: StderrMode::Inherit,
        output: OutputMode::Read,
        unchecked: false,
    }
}

/// A command whose output and errors are read together.
pub open spec fn read_all_of(cmd: CmdView) -> InvocationView {
    InvocationView { stderr: StderrMode::ToStdout, ..read_of(cmd) }
}

/// A command whose output and errors are read together and which is given no input.
pub open spec fn read_all_no_input_of(cmd: CmdView) -> InvocationView {
    InvocationView { stdin_null: true, ..read_all_of(cmd) }
}

/// A command that must succeed and whose output is not looked at.
pub open spec fn run_of(cmd: CmdView) -> InvocationView {
    InvocationView { output: OutputMode::Inherit, ..read_of(cmd) }
}

/// A command that must succeed and whose errors are dropped.
pub open spec fn run_quiet_of(cmd: CmdView) -> InvocationView {
    InvocationView { stderr: StderrMode::Null, ..run_of(cmd) }
}

/// A command whose output and errors are captured together, whatever its exit status.
pub open spec fn capture_of(cmd: CmdView) -> InvocationView {
    InvocationView {
        stderr: StderrMode::ToStdout,
        output: OutputMode::Capture,
        unchecked: true,
        ..read_of(cmd)
    }
}

/// A command whose output and errors are read together as they come, whatever
/// its exit status.
pub open spec fn stream_of(cmd: CmdView) -> InvocationView {
    InvocationView { output: OutputMode::Stream, ..capture_of(cmd) }
}

/// A command that talks to the user, whatever its exit status.
pub open spec fn interactive_of(cmd: CmdView) -> InvocationView {
    InvocationView { unchecked: true, ..run_of(cmd) }
}

impl Invocation {
    /// The duct expression for the invocation.
    pub fn to_expression(&self) -> (res: duct::Expression)
        ensures
            duct_util::duct_layers(res) == invocation_layers(self@),
    {
        let mut e = self.cmd.to_expression();
        if self.stdin_null {
            e = expression_stdin_null(&e);
        }
        match self.stderr {
            StderrMode::Inherit => {},
            StderrMode::ToStdout => {
                e = expression_stderr_to_stdout(&e);
            },
            StderrMode::Null => {
                e = expression_stderr_null(&e);
            },
        }
        if self.output == OutputMode::Capture {
            e = expression_stdout_capture(&e);
        }
        if self.unchecked {
            e = expression_unchecked(&e);
        }
        e
    }

    /// A command whose output is read.
    pub fn read(cmd: Cmd) -> (res: Self)
        ensures
            res@ == read_of(cmd@),
    {
        Invocation {
            cmd,
            stdin_null: false,
            stderr: StderrMode::Inherit,
            output: OutputMode::Read,
            unchecked: false,
        }
    }

    /// A command whose output and errors are read together.
    pub fn read_all(cmd: Cmd) -> (res: Self)
        ensures
            res@ == read_all_of(cmd@),
    {
        Invocation {
            cmd,
            stdin_null: false,
            stderr: StderrMode::ToStdout,
            output: OutputMode::Read,
            unchecked: false,
        }
    }

    /// A command whose output and errors are read together and which is given no input.
    pub fn read_all_no_input(cmd: Cmd) -> (res: Self)
        ensures
            res@ == read_all_no_input_of(cmd@),
    {
        Invocation {
            cmd,
            stdin_null: true,
            stderr: StderrMode::ToStdout,
            output: OutputMode::Read,
            unchecked: false,
        }
    }

    /// A command that must succeed and whose output is not looked at.
    pub fn run(cmd: Cmd) -> (res: Self)
        ensures
            res@ == run_of(cmd@),
    {
        Invocation {
            cmd,
            stdin_null: false,
            stderr: StderrMode::Inherit,
            output: OutputMode::Inherit,
            unchecked: false,
        }
    }

    /// A command that must succeed and whose errors are dropped.
    pub fn run_quiet(cmd: Cmd) -> (res: Self)
        ensures
            res@ == run_quiet_of(cmd@),
    {
        Invocation {
            cmd,
            stdin_null: false,
            stderr: StderrMode::Null,
            output: OutputMode::Inherit,
            unchecked: false,
        }
    }

    /// A command whose output and errors are captured together, whatever its exit status.
    pub fn capture(cmd: Cmd) -> (res: Self)
        ensures
            res@ == capture_of(cmd@),
    {
        Invocation {
            cmd,
            stdin_null: false,
            stderr: StderrMode::ToStdout,
            output: OutputMode::Capture,
            unchecked: true,
        }
    }

    /// A command whose output and errors are read together as they come, whatever
    /// its exit status.
    pub fn stream(cmd: Cmd) -> (res: Self)
        ensures
            res@ == stream_of(cmd@),
    {
        Invocation {
            cmd,
            stdin_null: false,
            stderr: StderrMode::ToStdout,
            output: OutputMode::Stream,
            unchecked: true,
        }
    }

    /// A command that talks to the user, whatever its exit status.
    pub fn interactive(cmd: Cmd) -> (res: Self)
        ensures
            res@ == interactive_of(cmd@),
    {
        Invocation {
            cmd,
            stdin_null: false,
            stderr: StderrMode::Inherit,
            output: OutputMode::Inherit,
            unchecked: true,
        }
    }
}

/// What came of running one invocation.
#[derive(Debug)]
pub enum Reply {
    /// It ran. `text` is what was read or captured.
    Output { success: bool, text: String },
    /// It could not be run or, unless its exit status is ordinary, it failed.
    Failed(String),
}

/// What a procedure does next.
#[derive(Debug)]
pub enum Step<T, E> {
    /// Run this and call again with its reply added.
    Run(Invocation),
    /// The procedure is done.
    Done(T),
    /// The procedure is done and has failed.
    Fail(E),
    /// The output of a tool broke what the program rests on: stop with this message.
    Panic(String),
}

/// What a [`Step`] holds.
pub enum StepView<T, E> {
    Run(InvocationView),
    Done(T),
    Fail(E),
    Panic(Seq<char>),
}

impl<T: View, E: View> View for Step<T, E> {
    type V = StepView<T::V, E::V>;

    open spec fn view(&self) -> StepView<T::V, E::V> {
        match *self {
            Step::Run(inv) => StepView::Run(inv@),
            Step::Done(t) => StepView::Done(t@),
            Step::Fail(e) => StepView::Fail(e@),
            Step::Panic(m) => StepView::Panic(m@),
        }
    }
}

/// An expression says exactly what the invocation asks for: no input, joined or
/// dropped errors, captured output and an exit status that is not looked at, each
/// if and only if it was asked for. It holds the command first.
pub proof fn law_expressions_run_as_asked(inv: InvocationView)
    ensures
        ({
            let layers = invocation_layers(inv);
            let n = duct_util::command_layers(inv.cmd).len() as int;
            &&& layers.take(n) == duct_util::command_layers(inv.cmd)
            &&& layers.skip(n).contains(Layer::StdinNull) <==> inv.stdin_null
            &&& layers.skip(n).contains(Layer::StderrToStdout) <==> inv.stderr
                == StderrMode::ToStdout
            &&& layers.skip(n).contains(Layer::StderrNull) <==> inv.stderr == StderrMode::Null
            &&& layers.skip(n).contains(Layer::StdoutCapture) <==> inv.output
                == OutputMode::Capture
            &&& layers.skip(n).contains(Layer::Unchecked) <==> inv.unchecked
        }),
{
    broadcast use vstd::seq_lib::group_seq_properties;

    let layers = invocation_layers(inv);
    let n = duct_util::command_layers(inv.cmd).len() as int;
    let rest = (if inv.stdin_null {
        seq![Layer::StdinNull]
    } else {
        seq![]
    }) + match inv.stderr {
        StderrMode::Inherit => seq![],
        StderrMode::ToStdout => seq![Layer::StderrToStdout],
        StderrMode::Null => seq![Layer::StderrNull],
    } + (if inv.output == OutputMode::Capture {
        seq![Layer::StdoutCapture]
    } else {
        seq![]
    }) + (if inv.unchecked {
        seq![Layer::Unchecked]
    } else {
        seq![]
    });
    assert(layers =~= duct_util::command_layers(inv.cmd) + rest);
    assert(layers.take(n) =~= duct_util::command_layers(inv.cmd));
    assert(layers.skip(n) =~= rest);
}

/// The ways to run a command differ in what they look at: only the last three let
/// a command fail, only the first three hand its output back whole with the line
/// feeds at its end taken off, and only one gives it no input.
pub proof fn law_ways_to_run(cmd: CmdView)
    ensures
        read_of(cmd).cmd == cmd && read_all_of(cmd).cmd == cmd && read_all_no_input_of(cmd).cmd
            == cmd && run_of(cmd).cmd == cmd && run_quiet_of(cmd).cmd == cmd && capture_of(cmd).cmd
            == cmd && stream_of(cmd).cmd == cmd && interactive_of(cmd).cmd == cmd,
        !read_of(cmd).unchecked && !read_all_of(cmd).unchecked
            && !read_all_no_input_of(cmd).unchecked && !run_of(cmd).unchecked && !run_quiet_of(
            cmd,
        ).unchecked,
        capture_of(cmd).unchecked && stream_of(cmd).unchecked && interactive_of(cmd).unchecked,
        read_of(cmd).output == OutputMode::Read && read_all_of(cmd).output == OutputMode::Read
            && read_all_no_input_of(cmd).output == OutputMode::Read,
        run_of(cmd).output == OutputMode::Inherit && run_quiet_of(cmd).output == OutputMode::Inherit
            && interactive_of(cmd).output == OutputMode::Inherit,
        capture_of(cmd).output == OutputMode::Capture && stream_of(cmd).output
            == OutputMode::Stream,
        read_of(cmd).stderr == StderrMode::Inherit && run_of(cmd).stderr == StderrMode::Inherit
            && interactive_of(cmd).stderr == StderrMode::Inherit,
        read_all_of(cmd).stderr == StderrMode::ToStdout && read_all_no_input_of(cmd).stderr
            == StderrMode::ToStdout && capture_of(cmd).stderr == StderrMode::ToStdout && stream_of(
            cmd,
        ).stderr == StderrMode::ToStdout,
        run_quiet_of(cmd).stderr == StderrMode::Null,
        read_all_no_input_of(cmd).stdin_null && !interactive_of(cmd).stdin_null && !read_of(
            cmd,
        ).stdin_null && !read_all_of(cmd).stdin_null && !run_of(cmd).stdin_null && !run_quiet_of(
            cmd,
        ).stdin_null && !capture_of(cmd).stdin_null && !stream_of(cmd).stdin_null,
{
}

} // verus!
