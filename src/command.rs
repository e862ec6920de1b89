//! External commands, the steps of a plan, and how a finished command is judged.
use vstd::prelude::*;
use crate::template::{Params, ParamsView};

verus! {

/// An external program with its arguments.
#[derive(Debug, Clone, PartialEq, Eq)]
pub struct Command {
    pub program: String,
    pub args: Vec<String>,
}

/// A command seen as character sequences.
pub struct CommandView {
    pub program: Seq<char>,
    pub args: Seq<Seq<char>>,
}

/// The views of a sequence of strings.
pub open spec fn strings_view(s: Seq<String>) -> Seq<Seq<char>> {
    s.map_values(|w: String| w@)
}

impl View for Command {
    type V = CommandView;

    open spec fn view(&self) -> CommandView {
        CommandView { program: self.program@, args: strings_view(self.args@) }
    }
}

/// One step of a build or deploy run.
#[derive(Debug, Clone, PartialEq, Eq)]
pub enum Step {
    /// Read the template at `template_path`, apply `params`, write the result to `output_path`.
    Generate { template_path: String, output_path: String, params: Params },
    /// Run an external command; it must exit with status 0.
    Run(Command),
}

/// A step seen as values.
pub enum StepView {
    Generate { template_path: Seq<char>, output_path: Seq<char>, params: ParamsView },
    Run(CommandView),
}

impl View for Step {
    type V = StepView;

    open spec fn view(&self) -> StepView {
        match self {
            Step::Generate { template_path, output_path, params } => StepView::Generate {
                template_path: template_path@,
                output_path: output_path@,
                params: params@,
            },
            Step::Run(c) => StepView::Run(c@),
        }
    }
}

/// The views of a sequence of steps.
pub open spec fn steps_view(s: Seq<Step>) -> Seq<StepView> {
    s.map_values(|st: Step| st@)
}

/// Why an external command failed.
#[derive(Debug, Clone, PartialEq, Eq)]
pub enum RunnerFailure {
    /// The process could not be started; the cause as text.
    Spawn(String),
    /// The process ended with a non-zero status, or was ended by a signal (`None`).
    Status(Option<i32>),
}

/// A failed external command: the program and the cause.
#[derive(Debug, Clone, PartialEq, Eq)]
pub struct RunnerError {
    pub program: String,
    pub failure: RunnerFailure,
}

/// Judges a command that ran to its end: success exactly when it exited with status 0.
pub fn check_exit(program: String, code: Option<i32>) -> (r: Result<(), RunnerError>)
    ensures
        r is Ok <==> code == Some(0i32),
        r is Err ==> r->Err_0 == (RunnerError { program, failure: RunnerFailure::Status(code) }),
{
    match code {
        Some(0) => Ok(()),
        _ => Err(RunnerError { program, failure: RunnerFailure::Status(code) }),
    }
}

/// A command that could not be started.
pub fn spawn_failed(program: String, cause: String) -> (r: RunnerError)
    ensures
        r == (RunnerError { program, failure: RunnerFailure::Spawn(cause) }),
{
    RunnerError { program, failure: RunnerFailure::Spawn(cause) }
}

/// Appends the word `w` to `v`.
pub(crate) fn push_word(v: &mut Vec<String>, w: &str)
    ensures
        strings_view(final(v)@) == strings_view(old(v)@).push(w@),
{
    v.push(w.to_owned());
    assert(strings_view(v@) =~= strings_view(old(v)@).push(w@));
}

/// Appends a copy of `w` to `v`.
pub(crate) fn push_string(v: &mut Vec<String>, w: &String)
    ensures
        strings_view(final(v)@) == strings_view(old(v)@).push(w@),
{
    v.push(w.clone());
    assert(strings_view(v@) =~= strings_view(old(v)@).push(w@));
}

} // verus!
