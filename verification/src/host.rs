//! What the library and its host say to each other. The library decides; the
//! host touches the machine. A command hands the host one [`Step`] at a time:
//! notices to show, then one [`Request`] to carry out. The host answers with
//! a [`Reply`], and gets the next step for it.

use crate::error::{Error, ErrorView};
use vstd::prelude::*;

verus! {

/// An external program and the arguments to start it with.
#[derive(Debug, PartialEq, Eq)]
pub struct Invocation {
    pub program: String,
    pub args: Vec<String>,
}

/// The mathematical value of an [`Invocation`].
pub struct InvocationView {
    pub program: Seq<char>,
    pub args: Seq<Seq<char>>,
}

impl View for Invocation {
    type V = InvocationView;

    open spec fn view(&self) -> InvocationView {
        InvocationView { program: self.program@, args: self.args.deep_view() }
    }
}

/// What became of one run of an external program.
#[derive(Debug, PartialEq, Eq)]
pub enum Outcome {
    /// The program could not be started; `message` says why.
    NotStarted { message: String },
    /// The program ran to its end: whether it reported success, and what it
    /// wrote to its standard output and its standard error.
    Exited { success: bool, stdout: String, stderr: String },
}

/// The mathematical value of an [`Outcome`].
pub enum OutcomeView {
    NotStarted { message: Seq<char> },
    Exited { success: bool, stdout: Seq<char>, stderr: Seq<char> },
}

impl View for Outcome {
    type V = OutcomeView;

    open spec fn view(&self) -> OutcomeView {
        match self {
            Outcome::NotStarted { message } => OutcomeView::NotStarted { message: message@ },
            Outcome::Exited { success, stdout, stderr } => OutcomeView::Exited {
                success: *success,
                stdout: stdout@,
                stderr: stderr@,
            },
        }
    }
}

/// Something to tell the user.
#[derive(Debug, PartialEq, Eq)]
pub enum Notice {
    /// The configure step begins.
    Configuring,
    /// The build step begins.
    Compiling,
    /// The project is built.
    Compiled,
    /// The project's binary is about to run.
    Running,
    /// What a step of the build-system generator wrote.
    ToolOutput { stdout: String, stderr: String },
    /// What the project's binary wrote.
    ProgramOutput { stdout: String, stderr: String },
    /// The installation of dependencies begins.
    Installing,
    /// The requirements list declares nothing.
    NoDependencies,
    /// The declarations that were read.
    Found { declarations: Vec<String> },
    /// The package manager is about to run.
    RunningPackageManager,
    /// What the package manager wrote to its standard output.
    PackageManagerOutput { stdout: String },
    /// The build file is about to be patched.
    UpdatingBuildFile,
    /// The build file is patched.
    BuildFileUpdated,
}

/// The mathematical value of a [`Notice`].
pub enum NoticeView {
    Configuring,
    Compiling,
    Compiled,
    Running,
    ToolOutput { stdout: Seq<char>, stderr: Seq<char> },
    ProgramOutput { stdout: Seq<char>, stderr: Seq<char> },
    Installing,
    NoDependencies,
    Found { declarations: Seq<Seq<char>> },
    RunningPackageManager,
    PackageManagerOutput { stdout: Seq<char> },
    UpdatingBuildFile,
    BuildFileUpdated,
}

impl DeepView for Notice {
    type V = NoticeView;

    open spec fn deep_view(&self) -> NoticeView {
        match self {
            Notice::Configuring => NoticeView::Configuring,
            Notice::Compiling => NoticeView::Compiling,
            Notice::Compiled => NoticeView::Compiled,
            Notice::Running => NoticeView::Running,
            Notice::ToolOutput { stdout, stderr } => NoticeView::ToolOutput {
                stdout: stdout@,
                stderr: stderr@,
            },
            Notice::ProgramOutput { stdout, stderr } => NoticeView::ProgramOutput {
                stdout: stdout@,
                stderr: stderr@,
            },
            Notice::Installing => NoticeView::Installing,
            Notice::NoDependencies => NoticeView::NoDependencies,
            Notice::Found { declarations } => NoticeView::Found {
                declarations: declarations.deep_view(),
            },
            Notice::RunningPackageManager => NoticeView::RunningPackageManager,
            Notice::PackageManagerOutput { stdout } => NoticeView::PackageManagerOutput {
                stdout: stdout@,
            },
            Notice::UpdatingBuildFile => NoticeView::UpdatingBuildFile,
            Notice::BuildFileUpdated => NoticeView::BuildFileUpdated,
        }
    }
}

/// Something for the host to do.
#[derive(Debug, PartialEq, Eq)]
pub enum Request {
    /// Create the directory `path` and those above it, unless they are
    /// there. Answered by [`Reply::Done`].
    EnsureDirectory { path: String },
    /// Run a program to its end and capture what it writes. Answered by
    /// [`Reply::Ran`].
    Run { invocation: Invocation },
    /// Say whether anything is at `path`. Answered by [`Reply::Exists`].
    Exists { path: String },
    /// Read the text file at `path`. Answered by [`Reply::Contents`].
    Read { path: String },
    /// Read the text file at `path` line by line, and leave out each line
    /// that is no text; the lines that are left stand in
    /// [`Reply::Contents`], a line feed behind each.
    ReadLines { path: String },
    /// Say the name of the current directory, which is the project's name.
    /// Answered by [`Reply::Name`].
    ProjectName,
    /// Write `contents` to the file at `path`. Answered by [`Reply::Done`].
    Write { path: String, contents: String },
    /// Remove the file at `path`. Answered by [`Reply::Done`].
    Remove { path: String },
    /// Nothing more: the command ends with `result`.
    Finish { result: Result<(), Error> },
}

/// The mathematical value of a [`Request`].
pub enum RequestView {
    EnsureDirectory { path: Seq<char> },
    Run { invocation: InvocationView },
    Exists { path: Seq<char> },
    Read { path: Seq<char> },
    ReadLines { path: Seq<char> },
    ProjectName,
    Write { path: Seq<char>, contents: Seq<char> },
    Remove { path: Seq<char> },
    Finish { result: Result<(), ErrorView> },
}

/// The mathematical value of a command's result.
pub open spec fn result_view(result: Result<(), Error>) -> Result<(), ErrorView> {
    match result {
        Ok(()) => Ok(()),
        Err(e) => Err(e@),
    }
}

impl View for Request {
    type V = RequestView;

    open spec fn view(&self) -> RequestView {
        match self {
            Request::EnsureDirectory { path } => RequestView::EnsureDirectory { path: path@ },
            Request::Run { invocation } => RequestView::Run { invocation: invocation@ },
            Request::Exists { path } => RequestView::Exists { path: path@ },
            Request::Read { path } => RequestView::Read { path: path@ },
            Request::ReadLines { path } => RequestView::ReadLines { path: path@ },
            Request::ProjectName => RequestView::ProjectName,
            Request::Write { path, contents } => RequestView::Write {
                path: path@,
                contents: contents@,
            },
            Request::Remove { path } => RequestView::Remove { path: path@ },
            Request::Finish { result } => RequestView::Finish { result: result_view(*result) },
        }
    }
}

/// The host's answer to a request.
#[derive(Debug, PartialEq, Eq)]
pub enum Reply {
    /// The directory is there, or the file is written or removed; or not,
    /// and `failure` says why.
    Done { failure: Option<String> },
    /// The program was run.
    Ran { outcome: Outcome },
    /// Whether anything is at the path.
    Exists { found: bool },
    /// The text of the file, or why it could not be read.
    Contents { text: Result<String, String> },
    /// The project's name, or why it could not be had.
    Name { name: Result<String, String> },
}

/// The mathematical value of a [`Reply`].
pub enum ReplyView {
    Done { failure: Option<Seq<char>> },
    Ran { outcome: OutcomeView },
    Exists { found: bool },
    Contents { text: Result<Seq<char>, Seq<char>> },
    Name { name: Result<Seq<char>, Seq<char>> },
}

impl View for Reply {
    type V = ReplyView;

    open spec fn view(&self) -> ReplyView {
        match self {
            Reply::Done { failure } => ReplyView::Done {
                failure: match failure {
                    Some(m) => Some(m@),
                    None => None,
                },
            },
            Reply::Ran { outcome } => ReplyView::Ran { outcome: outcome@ },
            Reply::Exists { found } => ReplyView::Exists { found: *found },
            Reply::Contents { text } => ReplyView::Contents {
                text: match text {
                    Ok(t) => Ok(t@),
                    Err(m) => Err(m@),
                },
            },
            Reply::Name { name } => ReplyView::Name {
                name: match name {
                    Ok(n) => Ok(n@),
                    Err(m) => Err(m@),
                },
            },
        }
    }
}

/// One step of a command: the notices to show, then the request to carry
/// out.
#[derive(Debug, PartialEq, Eq)]
pub struct Step {
    pub notices: Vec<Notice>,
    pub request: Request,
}

/// The mathematical value of a [`Step`].
pub struct StepView {
    pub notices: Seq<NoticeView>,
    pub request: RequestView,
}

impl View for Step {
    type V = StepView;

    open spec fn view(&self) -> StepView {
        StepView { notices: self.notices.deep_view(), request: self.request@ }
    }
}

/// What the host is told when it answers a request that was not made.
pub const UNEXPECTED_REPLY: &'static str = "unexpected reply from the host";

/// The step that ends a command in failure.
pub open spec fn failure(e: ErrorView) -> StepView {
    StepView { notices: Seq::empty(), request: RequestView::Finish { result: Err(e) } }
}

/// The step that ends a command because the host's reply answers no
/// request that was made.
pub open spec fn unexpected() -> StepView {
    failure(ErrorView::Host { message: UNEXPECTED_REPLY@ })
}

impl Step {
    /// The step that shows `notices` and then asks for `request`.
    pub fn new(notices: Vec<Notice>, request: Request) -> (step: Step)
        ensures
            step@ == (StepView { notices: notices.deep_view(), request: request@ }),
    {
        Step { notices, request }
    }

    /// The step that asks for `request` and shows nothing.
    pub fn ask(request: Request) -> (step: Step)
        ensures
            step@ == (StepView { notices: Seq::empty(), request: request@ }),
    {
        let notices: Vec<Notice> = Vec::new();
        assert(notices.deep_view() =~= Seq::empty());
        Step { notices, request }
    }

    /// The step that ends a command with the error `e`.
    pub fn fail(e: Error) -> (step: Step)
        ensures
            step@ == failure(e@),
    {
        Step::ask(Request::Finish { result: Err(e) })
    }

    /// The step that ends a command because of a reply that answers nothing.
    pub fn reject() -> (step: Step)
        ensures
            step@ == unexpected(),
    {
        Step::fail(Error::Host { message: String::from_str(UNEXPECTED_REPLY) })
    }
}

/// The notices `a`.
pub(crate) fn one_notice(a: Notice) -> (v: Vec<Notice>)
    ensures
        v.deep_view() == seq![a.deep_view()],
{
    let mut v: Vec<Notice> = Vec::new();
    v.push(a);
    assert(v.deep_view() =~= seq![a.deep_view()]);
    v
}

/// The notices `a` and `b`.
pub(crate) fn two_notices(a: Notice, b: Notice) -> (v: Vec<Notice>)
    ensures
        v.deep_view() == seq![a.deep_view(), b.deep_view()],
{
    let mut v: Vec<Notice> = Vec::new();
    v.push(a);
    v.push(b);
    assert(v.deep_view() =~= seq![a.deep_view(), b.deep_view()]);
    v
}

} // verus!
