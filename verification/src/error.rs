//! What can go wrong in a command, and the line that reports it.

use crate::text::{to_chars, to_text};
use vstd::prelude::*;

verus! {

/// A step that a program outside the tool carries out.
#[derive(Debug, Clone, Copy, PartialEq, Eq, Structural)]
pub enum ToolStep {
    /// The package manager installs the dependencies.
    Install,
    /// The build-system generator configures the build directory.
    Configure,
    /// The build-system generator builds the project.
    Build,
    /// The project's own binary runs.
    Execute,
}

/// A thing that a command needs and does not find.
#[derive(Debug, Clone, Copy, PartialEq, Eq, Structural)]
pub enum Artifact {
    /// The requirements list.
    Requirements,
    /// The binary that the build should have produced.
    Executable,
}

/// Why a command failed.
#[derive(Debug, PartialEq, Eq)]
pub enum Error {
    /// Something that the command needs is not at `path`.
    NotFound { artifact: Artifact, path: String },
    /// The directory `name`, which was to be created, is there already.
    AlreadyExists { name: String },
    /// An external tool ran and reported failure; `stderr` is what it wrote
    /// to its standard error.
    ExternalToolFailure { step: ToolStep, stderr: String },
    /// The program of the step `step` could not be started at all;
    /// `message` is the host's account of why.
    NotStarted { step: ToolStep, message: String },
    /// The build file lacks the two markers, or holds them in the wrong
    /// order.
    MarkerNotFound,
    /// The project's own binary ran and reported failure.
    ExecutionFailure,
    /// The host could not do what was asked of it on a file or a directory,
    /// or answered a request that was not made; `message` is its own
    /// account.
    Host { message: String },
}

/// The mathematical value of an [`Error`].
pub enum ErrorView {
    NotFound { artifact: Artifact, path: Seq<char> },
    AlreadyExists { name: Seq<char> },
    ExternalToolFailure { step: ToolStep, stderr: Seq<char> },
    NotStarted { step: ToolStep, message: Seq<char> },
    MarkerNotFound,
    ExecutionFailure,
    Host { message: Seq<char> },
}

impl View for Error {
    type V = ErrorView;

    open spec fn view(&self) -> ErrorView {
        match self {
            Error::NotFound { artifact, path } => ErrorView::NotFound {
                artifact: *artifact,
                path: path@,
            },
            Error::AlreadyExists { name } => ErrorView::AlreadyExists { name: name@ },
            Error::ExternalToolFailure { step, stderr } => ErrorView::ExternalToolFailure {
                step: *step,
                stderr: stderr@,
            },
            Error::NotStarted { step, message } => ErrorView::NotStarted {
                step: *step,
                message: message@,
            },
            Error::MarkerNotFound => ErrorView::MarkerNotFound,
            Error::ExecutionFailure => ErrorView::ExecutionFailure,
            Error::Host { message } => ErrorView::Host { message: message@ },
        }
    }
}

/// `s` with a backslash before each backslash and each double quote.
pub open spec fn escaped(s: Seq<char>) -> Seq<char>
    decreases s.len(),
{
    if s.len() == 0 {
        Seq::empty()
    } else if s.last() == '\\' || s.last() == '"' {
        escaped(s.drop_last()).push('\\').push(s.last())
    } else {
        escaped(s.drop_last()).push(s.last())
    }
}

/// `s` between double quotes, escaped.
pub open spec fn quoted(s: Seq<char>) -> Seq<char> {
    seq!['"'] + escaped(s) + seq!['"']
}

/// Puts `s` between double quotes, with a backslash before each backslash
/// and each double quote in it.
pub fn quote(s: &str) -> (q: String)
    ensures
        q@ == quoted(s@),
{
    let v = to_chars(s);
    let mut out: Vec<char> = Vec::new();
    out.push('"');
    let mut i: usize = 0;
    assert(v@.take(0) =~= Seq::empty());
    while i < v.len()
        invariant
            i <= v.len(),
            out@ == seq!['"'] + escaped(v@.take(i as int)),
        decreases v.len() - i,
    {
        assert(v@.take(i + 1).drop_last() =~= v@.take(i as int));
        let c = v[i];
        if c == '\\' || c == '"' {
            out.push('\\');
        }
        out.push(c);
        assert(out@ =~= seq!['"'] + escaped(v@.take(i + 1)));
        i += 1;
    }
    assert(v@.take(i as int) =~= v@);
    out.push('"');
    assert(out@ =~= quoted(v@));
    assert(out@.subrange(0, out.len() as int) =~= out@);
    to_text(&out, 0, out.len())
}

/// The words that open the report of a step that ran and failed.
pub open spec fn headline(step: ToolStep) -> Seq<char> {
    match step {
        ToolStep::Install => "Conan install failed:\n"@,
        ToolStep::Configure => "CMake configuration failed:\n"@,
        ToolStep::Build => "CMake build failed:\n"@,
        ToolStep::Execute => "Project execution failed:\n"@,
    }
}

/// The words that open the report of a step whose program could not be
/// started.
pub open spec fn unstarted_headline(step: ToolStep) -> Seq<char> {
    match step {
        ToolStep::Install => "Conan install could not be started:\n"@,
        ToolStep::Configure => "CMake configuration could not be started:\n"@,
        ToolStep::Build => "CMake build could not be started:\n"@,
        ToolStep::Execute => "Project execution could not be started:\n"@,
    }
}

/// The line that reports an error.
pub open spec fn message_text(e: ErrorView) -> Seq<char> {
    match e {
        ErrorView::NotFound { artifact: Artifact::Requirements, path } => path
            + " not found. Are you in the project root?"@,
        ErrorView::NotFound { artifact: Artifact::Executable, path } =>
            "Executable not found at: "@ + quoted(path),
        ErrorView::AlreadyExists { name } => "Directory '"@ + name + "' already exists."@,
        ErrorView::ExternalToolFailure { step, stderr } => headline(step) + stderr,
        ErrorView::NotStarted { step, message } => unstarted_headline(step) + message,
        ErrorView::MarkerNotFound => "Could not find dependency markers in CMakeLists.txt"@,
        ErrorView::ExecutionFailure => "Project execution failed."@,
        ErrorView::Host { message } => message,
    }
}

impl Error {
    /// The line that reports this error.
    pub fn message(&self) -> (text: String)
        ensures
            text@ == message_text(self@),
    {
        match self {
            Error::NotFound { artifact: Artifact::Requirements, path } => {
                let mut text = path.clone();
                text.append(" not found. Are you in the project root?");
                text
            },
            Error::NotFound { artifact: Artifact::Executable, path } => {
                let mut text = String::from_str("Executable not found at: ");
                let q = quote(path.as_str());
                text.append(q.as_str());
                text
            },
            Error::AlreadyExists { name } => {
                let mut text = String::from_str("Directory '");
                text.append(name.as_str());
                text.append("' already exists.");
                text
            },
            Error::ExternalToolFailure { step, stderr } => {
                let mut text = match step {
                    ToolStep::Install => String::from_str("Conan install failed:\n"),
                    ToolStep::Configure => String::from_str("CMake configuration failed:\n"),
                    ToolStep::Build => String::from_str("CMake build failed:\n"),
                    ToolStep::Execute => String::from_str("Project execution failed:\n"),
                };
                text.append(stderr.as_str());
                text
            },
            Error::NotStarted { step, message } => {
                let mut text = match step {
                    ToolStep::Install => String::from_str("Conan install could not be started:\n"),
                    ToolStep::Configure => String::from_str(
                        "CMake configuration could not be started:\n",
                    ),
                    ToolStep::Build => String::from_str("CMake build could not be started:\n"),
                    ToolStep::Execute => String::from_str(
                        "Project execution could not be started:\n",
                    ),
                };
                text.append(message.as_str());
                text
            },
            Error::MarkerNotFound => String::from_str(
                "Could not find dependency markers in CMakeLists.txt",
            ),
            Error::ExecutionFailure => String::from_str("Project execution failed."),
            Error::Host { message } => message.clone(),
        }
    }
}

} // verus!
