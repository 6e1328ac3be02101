//! Plans: the changes to a system that a decision comes to, in the order in which
//! they are to be made.

use vstd::prelude::*;
use vstd::string::*;

use crate::text::strings;

verus! {

/// Where a program runs.
#[derive(Debug)]
pub enum ExecMode {
    /// In the running system.
    Direct,
    /// In the system whose root directory is `root`.
    Chroot { root: String },
}

/// What the failure of a program means.
#[derive(Debug, Clone, Copy, PartialEq, Eq, Structural)]
pub enum OnFail {
    Error,
    Continue,
}

/// One change to a system.
#[derive(Debug)]
pub enum Action {
    /// Runs a program.
    Exec { mode: ExecMode, program: String, args: Vec<String>, on_fail: OnFail },
    /// Runs a program in the running system and collects its output.
    Capture { program: String, args: Vec<String> },
    /// Creates a file.
    CreateFile { path: String },
    /// Appends to a file.
    AppendFile { path: String, text: String },
    /// Replaces what the regular expression `find` matches in a file.
    SedFile { path: String, find: String, replace: String },
    /// Creates a directory.
    CreateDirectory { path: String },
    /// Creates a directory and those above it, as far as they are missing.
    CreateDirectories { path: String },
    /// Gives a file new contents, whatever it held before.
    WriteFile { path: String, contents: String },
}

/// What becomes of the result of an action.
#[derive(Debug)]
pub enum Outcome {
    /// It is reported under a label, failure as well as success.
    Report { label: String },
    /// It is dropped.
    Ignore,
    /// A failure ends the plan and goes to whoever asked for it.
    Return,
    /// A failure ends the program with a message.
    Panic { message: String },
}

/// An action and what becomes of its result.
#[derive(Debug)]
pub struct Step {
    pub action: Action,
    pub outcome: Outcome,
}

/// Steps, first to last.
#[derive(Debug)]
pub struct Plan {
    pub steps: Vec<Step>,
}

/// What an `ExecMode` says.
pub enum ExecModeView {
    Direct,
    Chroot { root: Seq<char> },
}

/// What an `Action` says.
pub enum ActionView {
    Exec { mode: ExecModeView, program: Seq<char>, args: Seq<Seq<char>>, on_fail: OnFail },
    Capture { program: Seq<char>, args: Seq<Seq<char>> },
    CreateFile { path: Seq<char> },
    AppendFile { path: Seq<char>, text: Seq<char> },
    SedFile { path: Seq<char>, find: Seq<char>, replace: Seq<char> },
    CreateDirectory { path: Seq<char> },
    CreateDirectories { path: Seq<char> },
    WriteFile { path: Seq<char>, contents: Seq<char> },
}

/// What an `Outcome` says.
pub enum OutcomeView {
    Report { label: Seq<char> },
    Ignore,
    Return,
    Panic { message: Seq<char> },
}

/// What a `Step` says.
pub struct StepView {
    pub action: ActionView,
    pub outcome: OutcomeView,
}

impl View for ExecMode {
    type V = ExecModeView;

    open spec fn view(&self) -> ExecModeView {
        match self {
            ExecMode::Direct => ExecModeView::Direct,
            ExecMode::Chroot { root } => ExecModeView::Chroot { root: root@ },
        }
    }
}

impl View for Action {
    type V = ActionView;

    open spec fn view(&self) -> ActionView {
        match self {
            Action::Exec { mode, program, args, on_fail } => ActionView::Exec {
                mode: mode@,
                program: program@,
                args: strings(args@),
                on_fail: *on_fail,
            },
            Action::Capture { program, args } => ActionView::Capture {
                program: program@,
                args: strings(args@),
            },
            Action::CreateFile { path } => ActionView::CreateFile { path: path@ },
            Action::AppendFile { path, text } => ActionView::AppendFile {
                path: path@,
                text: text@,
            },
            Action::SedFile { path, find, replace } => ActionView::SedFile {
                path: path@,
                find: find@,
                replace: replace@,
            },
            Action::CreateDirectory { path } => ActionView::CreateDirectory { path: path@ },
            Action::CreateDirectories { path } => ActionView::CreateDirectories { path: path@ },
            Action::WriteFile { path, contents } => ActionView::WriteFile {
                path: path@,
                contents: contents@,
            },
        }
    }
}

impl View for Outcome {
    type V = OutcomeView;

    open spec fn view(&self) -> OutcomeView {
        match self {
            Outcome::Report { label } => OutcomeView::Report { label: label@ },
            Outcome::Ignore => OutcomeView::Ignore,
            Outcome::Return => OutcomeView::Return,
            Outcome::Panic { message } => OutcomeView::Panic { message: message@ },
        }
    }
}

impl View for Step {
    type V = StepView;

    open spec fn view(&self) -> StepView {
        StepView { action: self.action@, outcome: self.outcome@ }
    }
}

impl View for Plan {
    type V = Seq<StepView>;

    open spec fn view(&self) -> Seq<StepView> {
        Seq::new(self.steps@.len(), |i: int| self.steps@[i]@)
    }
}

/// A reported replacement in a file.
pub open spec fn sed_step(
    path: Seq<char>,
    find: Seq<char>,
    replace: Seq<char>,
    label: Seq<char>,
) -> StepView {
    StepView {
        action: ActionView::SedFile { path, find, replace },
        outcome: OutcomeView::Report { label },
    }
}

/// A reported addition to a file.
pub open spec fn append_step(path: Seq<char>, text: Seq<char>, label: Seq<char>) -> StepView {
    StepView {
        action: ActionView::AppendFile { path, text },
        outcome: OutcomeView::Report { label },
    }
}

/// The creation of a file, its result dropped.
pub open spec fn create_step(path: Seq<char>) -> StepView {
    StepView { action: ActionView::CreateFile { path }, outcome: OutcomeView::Ignore }
}

/// A reported run of a program.
pub open spec fn exec_step(
    mode: ExecModeView,
    program: Seq<char>,
    args: Seq<Seq<char>>,
    on_fail: OnFail,
    label: Seq<char>,
) -> StepView {
    StepView {
        action: ActionView::Exec { mode, program, args, on_fail },
        outcome: OutcomeView::Report { label },
    }
}

/// Runs a program in the running system and collects its output.
pub(crate) fn capture(program: &str, args: Vec<String>) -> (action: Action)
    ensures
        action@ == (ActionView::Capture { program: program@, args: strings(args@) }),
{
    Action::Capture { program: program.to_string(), args }
}

impl Plan {
    /// A plan without steps.
    pub fn new() -> (plan: Plan)
        ensures
            plan@ == Seq::<StepView>::empty(),
    {
        Plan { steps: Vec::new() }
    }

    /// Adds a step at the end.
    pub fn push(&mut self, step: Step)
        ensures
            final(self)@ == old(self)@.push(step@),
    {
        self.steps.push(step);
    }

    /// Adds a reported replacement in a file.
    pub fn sed(&mut self, path: &str, find: &str, replace: &str, label: &str)
        ensures
            final(self)@ == old(self)@.push(sed_step(path@, find@, replace@, label@)),
    {
        self.push(
            Step {
                action: Action::SedFile {
                    path: path.to_string(),
                    find: find.to_string(),
                    replace: replace.to_string(),
                },
                outcome: Outcome::Report { label: label.to_string() },
            },
        );
    }

    /// Adds a reported addition to a file.
    pub fn append(&mut self, path: &str, text: &str, label: &str)
        ensures
            final(self)@ == old(self)@.push(append_step(path@, text@, label@)),
    {
        self.push(
            Step {
                action: Action::AppendFile { path: path.to_string(), text: text.to_string() },
                outcome: Outcome::Report { label: label.to_string() },
            },
        );
    }

    /// Adds the creation of a file.
    pub fn create(&mut self, path: &str)
        ensures
            final(self)@ == old(self)@.push(create_step(path@)),
    {
        self.push(
            Step {
                action: Action::CreateFile { path: path.to_string() },
                outcome: Outcome::Ignore,
            },
        );
    }

    /// Adds a reported run of a program.
    pub fn exec(
        &mut self,
        mode: ExecMode,
        program: &str,
        args: Vec<String>,
        on_fail: OnFail,
        label: &str,
    )
        ensures
            final(self)@ == old(self)@.push(
                exec_step(mode@, program@, strings(args@), on_fail, label@),
            ),
    {
        self.push(
            Step {
                action: Action::Exec { mode, program: program.to_string(), args, on_fail },
                outcome: Outcome::Report { label: label.to_string() },
            },
        );
    }
}

} // verus!
