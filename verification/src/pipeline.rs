//! The build pipeline and the run that follows it. The build-system
//! generator is asked to configure the build directory and then to build; a
//! step is taken only where the one before it succeeded. A run builds first,
//! then asks for the project's name, looks for the binary of that name and
//! executes it.

use crate::error::{
    headline, message_text, unstarted_headline, Artifact, Error, ErrorView, ToolStep,
};
use crate::host::{
    failure, one_notice, two_notices, unexpected, Invocation, InvocationView, Notice, NoticeView,
    Outcome, OutcomeView, Reply, ReplyView, Request, RequestView, Step, StepView,
};
use crate::platform::{binary_path, binary_path_text, Platform, BUILD_DIR};
use vstd::prelude::*;

verus! {

/// The program that generates the build system and drives it.
pub const GENERATOR: &'static str = "cmake";

/// The argument that hands the toolchain file to the configure step.
pub const TOOLCHAIN_ARGUMENT: &'static str =
    "-DCMAKE_TOOLCHAIN_FILE=packages/install/conan_toolchain.cmake";

/// A build under way, or a build and the run behind it: the request whose
/// answer it waits for, and what it has to remember. Up to the end of the
/// build, `run` is the platform on which the binary is to be run
/// afterwards, where the command is a run.
#[derive(Debug, PartialEq, Eq)]
pub enum Pipeline {
    /// The build directory is being made sure of.
    EnsuringDirectory { run: Option<Platform> },
    /// The configure step runs.
    Configuring { run: Option<Platform> },
    /// The build step runs.
    Building { run: Option<Platform> },
    /// The project's name is asked for.
    Naming { platform: Platform },
    /// The binary is looked for at `binary`.
    Locating { binary: String },
    /// The binary runs.
    Executing,
    /// The command has ended.
    Finished,
}

/// The mathematical value of a [`Pipeline`].
pub enum PipelineView {
    EnsuringDirectory { run: Option<Platform> },
    Configuring { run: Option<Platform> },
    Building { run: Option<Platform> },
    Naming { platform: Platform },
    Locating { binary: Seq<char> },
    Executing,
    Finished,
}

impl View for Pipeline {
    type V = PipelineView;

    open spec fn view(&self) -> PipelineView {
        match self {
            Pipeline::EnsuringDirectory { run } => PipelineView::EnsuringDirectory { run: *run },
            Pipeline::Configuring { run } => PipelineView::Configuring { run: *run },
            Pipeline::Building { run } => PipelineView::Building { run: *run },
            Pipeline::Naming { platform } => PipelineView::Naming { platform: *platform },
            Pipeline::Locating { binary } => PipelineView::Locating { binary: binary@ },
            Pipeline::Executing => PipelineView::Executing,
            Pipeline::Finished => PipelineView::Finished,
        }
    }
}

/// The configure step: the project's root is the source directory, the
/// build directory is the one to prepare, Ninja is the backend, and the
/// toolchain file is the one that the package manager wrote.
pub open spec fn configure_invocation() -> InvocationView {
    InvocationView {
        program: GENERATOR@,
        args: seq!["-S"@, "."@, "-B"@, BUILD_DIR@, "-G"@, "Ninja"@, TOOLCHAIN_ARGUMENT@],
    }
}

/// The build step, on the build directory.
pub open spec fn build_invocation() -> InvocationView {
    InvocationView { program: GENERATOR@, args: seq!["--build"@, BUILD_DIR@] }
}

/// The binary at `path`, started without arguments.
pub open spec fn binary_invocation(path: Seq<char>) -> InvocationView {
    InvocationView { program: path, args: Seq::empty() }
}

/// The error for a step that did not succeed. Where the tool ran, it
/// carries what the tool wrote to its standard error; where the tool could
/// not be started, it carries the host's message. Either way it names the
/// step.
pub open spec fn tool_failure(step: ToolStep, outcome: OutcomeView) -> ErrorView {
    match outcome {
        OutcomeView::Exited { stderr, .. } => ErrorView::ExternalToolFailure { step, stderr },
        OutcomeView::NotStarted { message } => ErrorView::NotStarted { step, message },
    }
}

/// The first step of a pipeline: the build directory is made sure of.
pub open spec fn pipeline_start() -> StepView {
    StepView {
        notices: seq![NoticeView::Configuring],
        request: RequestView::EnsureDirectory { path: BUILD_DIR@ },
    }
}

/// What follows a build that succeeded and wrote `stdout` and `stderr`: the
/// end of the command, or, for a run, the question for the project's name.
pub open spec fn after_build(run: Option<Platform>, stdout: Seq<char>, stderr: Seq<char>) -> (
    PipelineView,
    StepView,
) {
    match run {
        None => (
            PipelineView::Finished,
            StepView {
                notices: seq![NoticeView::ToolOutput { stdout, stderr }, NoticeView::Compiled],
                request: RequestView::Finish { result: Ok(()) },
            },
        ),
        Some(platform) => (
            PipelineView::Naming { platform },
            StepView {
                notices: seq![
                    NoticeView::ToolOutput { stdout, stderr },
                    NoticeView::Compiled,
                    NoticeView::Running,
                ],
                request: RequestView::ProjectName,
            },
        ),
    }
}

/// What the pipeline `s` does with `reply`: the pipeline afterwards, and the
/// step that it hands to the host.
pub open spec fn pipeline_step(s: PipelineView, reply: ReplyView) -> (PipelineView, StepView) {
    match (s, reply) {
        (PipelineView::EnsuringDirectory { run }, ReplyView::Done { failure: None }) => (
            PipelineView::Configuring { run },
            StepView {
                notices: Seq::empty(),
                request: RequestView::Run { invocation: configure_invocation() },
            },
        ),
        (PipelineView::EnsuringDirectory { .. }, ReplyView::Done { failure: Some(message) }) => (
            PipelineView::Finished,
            failure(ErrorView::Host { message }),
        ),
        (
            PipelineView::Configuring { run },
            ReplyView::Ran { outcome: OutcomeView::Exited { success: true, stdout, stderr } },
        ) => (
            PipelineView::Building { run },
            StepView {
                notices: seq![NoticeView::ToolOutput { stdout, stderr }, NoticeView::Compiling],
                request: RequestView::Run { invocation: build_invocation() },
            },
        ),
        (PipelineView::Configuring { .. }, ReplyView::Ran { outcome }) => (
            PipelineView::Finished,
            failure(tool_failure(ToolStep::Configure, outcome)),
        ),
        (
            PipelineView::Building { run },
            ReplyView::Ran { outcome: OutcomeView::Exited { success: true, stdout, stderr } },
        ) => after_build(run, stdout, stderr),
        (PipelineView::Building { .. }, ReplyView::Ran { outcome }) => (
            PipelineView::Finished,
            failure(tool_failure(ToolStep::Build, outcome)),
        ),
        (PipelineView::Naming { platform }, ReplyView::Name { name: Ok(name) }) => (
            PipelineView::Locating { binary: binary_path_text(platform, name) },
            StepView {
                notices: Seq::empty(),
                request: RequestView::Exists { path: binary_path_text(platform, name) },
            },
        ),
        (PipelineView::Naming { .. }, ReplyView::Name { name: Err(message) }) => (
            PipelineView::Finished,
            failure(ErrorView::Host { message }),
        ),
        (PipelineView::Locating { binary }, ReplyView::Exists { found: true }) => (
            PipelineView::Executing,
            StepView {
                notices: Seq::empty(),
                request: RequestView::Run { invocation: binary_invocation(binary) },
            },
        ),
        (PipelineView::Locating { binary }, ReplyView::Exists { found: false }) => (
            PipelineView::Finished,
            failure(ErrorView::NotFound { artifact: Artifact::Executable, path: binary }),
        ),
        (
            PipelineView::Executing,
            ReplyView::Ran { outcome: OutcomeView::Exited { success, stdout, stderr } },
        ) => (
            PipelineView::Finished,
            StepView {
                notices: seq![NoticeView::ProgramOutput { stdout, stderr }],
                request: RequestView::Finish {
                    result: if success {
                        Ok(())
                    } else {
                        Err(ErrorView::ExecutionFailure)
                    },
                },
            },
        ),
        (
            PipelineView::Executing,
            ReplyView::Ran { outcome: OutcomeView::NotStarted { message } },
        ) => (
            PipelineView::Finished,
            failure(ErrorView::NotStarted { step: ToolStep::Execute, message }),
        ),
        _ => (PipelineView::Finished, unexpected()),
    }
}

/// The configure step of the build-system generator.
pub fn configure_command() -> (invocation: Invocation)
    ensures
        invocation@ == configure_invocation(),
{
    let mut args: Vec<String> = Vec::new();
    args.push(String::from_str("-S"));
    args.push(String::from_str("."));
    args.push(String::from_str("-B"));
    args.push(String::from_str(BUILD_DIR));
    args.push(String::from_str("-G"));
    args.push(String::from_str("Ninja"));
    args.push(String::from_str(TOOLCHAIN_ARGUMENT));
    assert(args.deep_view() =~= configure_invocation().args);
    Invocation { program: String::from_str(GENERATOR), args }
}

/// The build step of the build-system generator.
pub fn build_command() -> (invocation: Invocation)
    ensures
        invocation@ == build_invocation(),
{
    let mut args: Vec<String> = Vec::new();
    args.push(String::from_str("--build"));
    args.push(String::from_str(BUILD_DIR));
    assert(args.deep_view() =~= build_invocation().args);
    Invocation { program: String::from_str(GENERATOR), args }
}

/// The error for the step `step` that ended as `outcome` says.
fn failed_tool(step: ToolStep, outcome: Outcome) -> (e: Error)
    ensures
        e@ == tool_failure(step, outcome@),
{
    match outcome {
        Outcome::Exited { success: _, stdout: _, stderr } => Error::ExternalToolFailure {
            step,
            stderr,
        },
        Outcome::NotStarted { message } => Error::NotStarted { step, message },
    }
}

/// The first step of a pipeline.
fn first_step() -> (step: Step)
    ensures
        step@ == pipeline_start(),
{
    Step::new(
        one_notice(Notice::Configuring),
        Request::EnsureDirectory { path: String::from_str(BUILD_DIR) },
    )
}

/// Begins a build: the pipeline, and its first step.
pub fn compile_project() -> (r: (Pipeline, Step))
    ensures
        r.0@ == (PipelineView::EnsuringDirectory { run: None }),
        r.1@ == pipeline_start(),
{
    (Pipeline::EnsuringDirectory { run: None }, first_step())
}

/// Begins a build and the run behind it: the pipeline, and its first step.
/// The binary that is executed after the build is the one that `platform`
/// names for the project.
pub fn run_project(platform: Platform) -> (r: (Pipeline, Step))
    ensures
        r.0@ == (PipelineView::EnsuringDirectory { run: Some(platform) }),
        r.1@ == pipeline_start(),
{
    (Pipeline::EnsuringDirectory { run: Some(platform) }, first_step())
}

/// What follows a build that succeeded.
fn built(run: Option<Platform>, stdout: String, stderr: String) -> (r: (Pipeline, Step))
    ensures
        (r.0@, r.1@) == after_build(run, stdout@, stderr@),
{
    let ghost output = NoticeView::ToolOutput { stdout: stdout@, stderr: stderr@ };
    let mut notices = two_notices(Notice::ToolOutput { stdout, stderr }, Notice::Compiled);
    match run {
        None => (Pipeline::Finished, Step::new(notices, Request::Finish { result: Ok(()) })),
        Some(platform) => {
            let ghost before = notices.deep_view();
            notices.push(Notice::Running);
            assert(notices.deep_view() =~= before.push(NoticeView::Running));
            assert(before.push(NoticeView::Running) =~= seq![
                output,
                NoticeView::Compiled,
                NoticeView::Running,
            ]);
            (Pipeline::Naming { platform }, Step::new(notices, Request::ProjectName))
        },
    }
}

impl Pipeline {
    /// Whether the command has ended.
    pub fn is_finished(&self) -> (r: bool)
        ensures
            r == (self@ is Finished),
    {
        match self {
            Pipeline::Finished => true,
            _ => false,
        }
    }

    /// Takes the host's reply to the last request, and gives the next step.
    pub fn step(self, reply: Reply) -> (r: (Pipeline, Step))
        ensures
            (r.0@, r.1@) == pipeline_step(self@, reply@),
    {
        match (self, reply) {
            (Pipeline::EnsuringDirectory { run }, Reply::Done { failure: None }) => {
                let step = Step::ask(Request::Run { invocation: configure_command() });
                (Pipeline::Configuring { run }, step)
            },
            (Pipeline::EnsuringDirectory { .. }, Reply::Done { failure: Some(message) }) => {
                (Pipeline::Finished, Step::fail(Error::Host { message }))
            },
            (
                Pipeline::Configuring { run },
                Reply::Ran { outcome: Outcome::Exited { success: true, stdout, stderr } },
            ) => {
                let notices = two_notices(Notice::ToolOutput { stdout, stderr }, Notice::Compiling);
                let step = Step::new(notices, Request::Run { invocation: build_command() });
                (Pipeline::Building { run }, step)
            },
            (Pipeline::Configuring { .. }, Reply::Ran { outcome }) => {
                (Pipeline::Finished, Step::fail(failed_tool(ToolStep::Configure, outcome)))
            },
            (
                Pipeline::Building { run },
                Reply::Ran { outcome: Outcome::Exited { success: true, stdout, stderr } },
            ) => built(run, stdout, stderr),
            (Pipeline::Building { .. }, Reply::Ran { outcome }) => {
                (Pipeline::Finished, Step::fail(failed_tool(ToolStep::Build, outcome)))
            },
            (Pipeline::Naming { platform }, Reply::Name { name: Ok(name) }) => {
                let binary = binary_path(platform, name.as_str());
                let step = Step::ask(Request::Exists { path: binary.clone() });
                (Pipeline::Locating { binary }, step)
            },
            (Pipeline::Naming { .. }, Reply::Name { name: Err(message) }) => {
                (Pipeline::Finished, Step::fail(Error::Host { message }))
            },
            (Pipeline::Locating { binary }, Reply::Exists { found: true }) => {
                let args: Vec<String> = Vec::new();
                assert(args.deep_view() =~= Seq::empty());
                let invocation = Invocation { program: binary, args };
                (Pipeline::Executing, Step::ask(Request::Run { invocation }))
            },
            (Pipeline::Locating { binary }, Reply::Exists { found: false }) => {
                let e = Error::NotFound { artifact: Artifact::Executable, path: binary };
                (Pipeline::Finished, Step::fail(e))
            },
            (
                Pipeline::Executing,
                Reply::Ran { outcome: Outcome::Exited { success, stdout, stderr } },
            ) => {
                let notices = one_notice(Notice::ProgramOutput { stdout, stderr });
                let result = if success {
                    Ok(())
                } else {
                    Err(Error::ExecutionFailure)
                };
                (Pipeline::Finished, Step::new(notices, Request::Finish { result }))
            },
            (Pipeline::Executing, Reply::Ran { outcome: Outcome::NotStarted { message } }) => {
                let e = Error::NotStarted { step: ToolStep::Execute, message };
                (Pipeline::Finished, Step::fail(e))
            },
            _ => (Pipeline::Finished, Step::reject()),
        }
    }
}

/// The step that a pipeline waits on, where it waits on a program.
pub open spec fn running(s: PipelineView) -> Option<ToolStep> {
    match s {
        PipelineView::Configuring { .. } => Some(ToolStep::Configure),
        PipelineView::Building { .. } => Some(ToolStep::Build),
        PipelineView::Executing => Some(ToolStep::Execute),
        _ => None,
    }
}

/// The build step is asked for only in answer to a configure step that
/// ran and reported success: after a configure step that failed or did not
/// start there is no build.
pub proof fn lemma_build_follows_configure(s: PipelineView, reply: ReplyView)
    requires
        pipeline_step(s, reply).1.request == (RequestView::Run { invocation: build_invocation() }),
    ensures
        s is Configuring,
        reply matches ReplyView::Ran { outcome: OutcomeView::Exited { success: true, .. } },
{
    assert(build_invocation().args.len() == 2);
    assert(configure_invocation().args.len() == 7);
}

/// A program without arguments is run only in answer to the host's word
/// that the binary is there, and it is the binary that was looked for:
/// where the binary is not found, nothing is executed.
pub proof fn lemma_run_follows_found(s: PipelineView, reply: ReplyView)
    requires
        pipeline_step(s, reply).1.request matches RequestView::Run { invocation }
            && invocation.args.len() == 0,
    ensures
        reply == (ReplyView::Exists { found: true }),
        s matches PipelineView::Locating { binary } && pipeline_step(s, reply).1.request == (
        RequestView::Run { invocation: binary_invocation(binary) }),
{
    assert(build_invocation().args.len() == 2);
    assert(configure_invocation().args.len() == 7);
}

/// The binary that is looked for is the one that the platform names for
/// the project, by the name that the host gave.
pub proof fn lemma_binary_is_named_after_the_project(platform: Platform, name: Seq<char>)
    ensures
        pipeline_step(PipelineView::Naming { platform }, ReplyView::Name { name: Ok(name) }) == (
            PipelineView::Locating { binary: binary_path_text(platform, name) },
            StepView {
                notices: Seq::empty(),
                request: RequestView::Exists { path: binary_path_text(platform, name) },
            },
        ),
{
}

/// A step of the build-system generator that ran and reported failure ends
/// the command, with an error whose line is the step's headline and then
/// what the tool wrote to its standard error.
pub proof fn lemma_failed_step_is_reported(
    s: PipelineView,
    stdout: Seq<char>,
    stderr: Seq<char>,
)
    requires
        s is Configuring || s is Building,
    ensures
        ({
            let outcome = OutcomeView::Exited { success: false, stdout, stderr };
            let (next, step) = pipeline_step(s, ReplyView::Ran { outcome });
            let tool = running(s).unwrap();
            &&& next is Finished
            &&& step == failure(ErrorView::ExternalToolFailure { step: tool, stderr })
            &&& message_text(ErrorView::ExternalToolFailure { step: tool, stderr }) == headline(
                tool,
            ) + stderr
        }),
{
}

/// A program that could not be started ends the command, whichever step it
/// was for: the configure step, the build step or the run of the binary.
/// The error names the step, is no `ExternalToolFailure`, and its line is
/// the headline that names the step and then the host's message. No further
/// program is asked for.
pub proof fn lemma_unstarted_step_is_reported(s: PipelineView, message: Seq<char>)
    requires
        running(s) is Some,
    ensures
        ({
            let outcome = OutcomeView::NotStarted { message };
            let (next, step) = pipeline_step(s, ReplyView::Ran { outcome });
            let tool = running(s).unwrap();
            &&& next is Finished
            &&& step == failure(ErrorView::NotStarted { step: tool, message })
            &&& message_text(ErrorView::NotStarted { step: tool, message }) == unstarted_headline(
                tool,
            ) + message
        }),
{
}

/// A command ends exactly when the host is told to finish, and a pipeline
/// that has ended takes no further reply.
pub proof fn lemma_finish_is_final(s: PipelineView, reply: ReplyView)
    ensures
        pipeline_step(s, reply).1.request is Finish <==> pipeline_step(s, reply).0 is Finished,
        s is Finished ==> pipeline_step(s, reply).1 == unexpected(),
{
}

} // verus!
