//! The installation of dependencies. The requirements list is read; the
//! declarations go into a transient manifest; the package manager runs on
//! it; the manifest is removed, whatever the package manager did; the
//! project's name is asked for; and the dependency section of the build file
//! of that name is written anew.

use crate::error::{
    message_text, unstarted_headline, Artifact, Error, ErrorView, ToolStep,
};
use crate::host::{
    failure, one_notice, two_notices, unexpected, Invocation, InvocationView, Notice, NoticeView,
    Outcome, OutcomeView, Reply, ReplyView, Request, RequestView, Step, StepView,
    UNEXPECTED_REPLY,
};
use crate::manifest::{manifest_text, render_manifest};
use crate::patcher::{patch_dependency_section, patched};
use crate::requirements::{declarations, parse_requirements};
use vstd::prelude::*;

verus! {

/// Where the requirements list is looked for.
pub const REQUIREMENTS_FILE: &'static str = "packages/requirements.txt";

/// Where the transient manifest is written.
pub const MANIFEST_FILE: &'static str = "conanfile.txt";

/// The package manager.
pub const PACKAGE_MANAGER: &'static str = "conan";

/// The name of a build file, below the directory of its target.
pub const BUILD_FILE_NAME: &'static str = "/CMakeLists.txt";

/// The package manager's run: install what the manifest in the project's
/// root requires, build what is missing, and put what comes out under
/// `packages/install`.
pub open spec fn install_invocation() -> InvocationView {
    InvocationView {
        program: PACKAGE_MANAGER@,
        args: seq!["install"@, "."@, "--build=missing"@, "--output-folder=packages/install"@],
    }
}

/// The build file of the target `project`.
pub open spec fn build_file_path(project: Seq<char>) -> Seq<char> {
    project + BUILD_FILE_NAME@
}

/// What the package manager's run comes to: its standard output where it
/// succeeded, an error that names the step where it failed or could not be
/// started.
pub open spec fn verdict(outcome: OutcomeView) -> Result<Seq<char>, ErrorView> {
    match outcome {
        OutcomeView::Exited { success: true, stdout, .. } => Ok(stdout),
        OutcomeView::Exited { success: false, stderr, .. } => Err(
            ErrorView::ExternalToolFailure { step: ToolStep::Install, stderr },
        ),
        OutcomeView::NotStarted { message } => Err(
            ErrorView::NotStarted { step: ToolStep::Install, message },
        ),
    }
}

/// An installation under way: the request whose answer it waits for, and
/// what it has to remember.
#[derive(Debug, PartialEq, Eq)]
pub enum Installer {
    /// The requirements list is looked for.
    Locating,
    /// The requirements list is read.
    Reading,
    /// The manifest is written.
    WritingManifest { deps: Vec<String> },
    /// The package manager runs.
    Installing { deps: Vec<String> },
    /// The manifest is removed after the package manager's run, which came
    /// to `verdict`.
    Removing { deps: Vec<String>, verdict: Result<String, Error> },
    /// The manifest is removed after `error`, without the package manager
    /// having run.
    Discarding { error: Error },
    /// The project's name is asked for.
    Naming { deps: Vec<String> },
    /// The build file is read.
    ReadingBuildFile { project: String, deps: Vec<String> },
    /// The build file is written.
    WritingBuildFile,
    /// The command has ended.
    Finished,
}

/// The mathematical value of an [`Installer`].
pub enum InstallerView {
    Locating,
    Reading,
    WritingManifest { deps: Seq<Seq<char>> },
    Installing { deps: Seq<Seq<char>> },
    Removing { deps: Seq<Seq<char>>, verdict: Result<Seq<char>, ErrorView> },
    Discarding { error: ErrorView },
    Naming { deps: Seq<Seq<char>> },
    ReadingBuildFile { project: Seq<char>, deps: Seq<Seq<char>> },
    WritingBuildFile,
    Finished,
}

impl View for Installer {
    type V = InstallerView;

    open spec fn view(&self) -> InstallerView {
        match self {
            Installer::Locating => InstallerView::Locating,
            Installer::Reading => InstallerView::Reading,
            Installer::WritingManifest { deps } => InstallerView::WritingManifest {
                deps: deps.deep_view(),
            },
            Installer::Installing { deps } => InstallerView::Installing { deps: deps.deep_view() },
            Installer::Naming { deps } => InstallerView::Naming { deps: deps.deep_view() },
            Installer::Removing { deps, verdict } => InstallerView::Removing {
                deps: deps.deep_view(),
                verdict: match verdict {
                    Ok(stdout) => Ok(stdout@),
                    Err(e) => Err(e@),
                },
            },
            Installer::Discarding { error } => InstallerView::Discarding { error: error@ },
            Installer::ReadingBuildFile { project, deps } => InstallerView::ReadingBuildFile {
                project: project@,
                deps: deps.deep_view(),
            },
            Installer::WritingBuildFile => InstallerView::WritingBuildFile,
            Installer::Finished => InstallerView::Finished,
        }
    }
}

/// Whether the manifest may be there while the installation waits in the
/// state `s`: it is being written, or the package manager runs.
pub open spec fn holds_manifest(s: InstallerView) -> bool {
    s is WritingManifest || s is Installing
}

/// The request to remove the manifest.
pub open spec fn remove_manifest() -> StepView {
    StepView { notices: Seq::empty(), request: RequestView::Remove { path: MANIFEST_FILE@ } }
}

/// The first step of an installation: the requirements list is looked for.
pub open spec fn install_start() -> StepView {
    StepView {
        notices: seq![NoticeView::Installing],
        request: RequestView::Exists { path: REQUIREMENTS_FILE@ },
    }
}

/// What the installation `s` does with `reply`: the installation
/// afterwards, and the step that it hands to the host.
pub open spec fn install_step(s: InstallerView, reply: ReplyView) -> (InstallerView, StepView) {
    match (s, reply) {
        (InstallerView::Locating, ReplyView::Exists { found: true }) => (
            InstallerView::Reading,
            StepView {
                notices: Seq::empty(),
                request: RequestView::ReadLines { path: REQUIREMENTS_FILE@ },
            },
        ),
        (InstallerView::Locating, ReplyView::Exists { found: false }) => (
            InstallerView::Finished,
            failure(
                ErrorView::NotFound { artifact: Artifact::Requirements, path: REQUIREMENTS_FILE@ },
            ),
        ),
        (InstallerView::Reading, ReplyView::Contents { text: Ok(text) }) => {
            let deps = declarations(text);
            if deps.len() == 0 {
                (
                    InstallerView::Finished,
                    StepView {
                        notices: seq![NoticeView::NoDependencies],
                        request: RequestView::Finish { result: Ok(()) },
                    },
                )
            } else {
                (
                    InstallerView::WritingManifest { deps },
                    StepView {
                        notices: seq![NoticeView::Found { declarations: deps }],
                        request: RequestView::Write {
                            path: MANIFEST_FILE@,
                            contents: manifest_text(deps),
                        },
                    },
                )
            }
        },
        (InstallerView::Reading, ReplyView::Contents { text: Err(message) }) => (
            InstallerView::Finished,
            failure(ErrorView::Host { message }),
        ),
        (InstallerView::WritingManifest { deps }, ReplyView::Done { failure: None }) => (
            InstallerView::Installing { deps },
            StepView {
                notices: seq![NoticeView::RunningPackageManager],
                request: RequestView::Run { invocation: install_invocation() },
            },
        ),
        (InstallerView::WritingManifest { .. }, ReplyView::Done { failure: Some(message) }) => (
            InstallerView::Discarding { error: ErrorView::Host { message } },
            remove_manifest(),
        ),
        (InstallerView::WritingManifest { .. }, _) => (
            InstallerView::Discarding { error: ErrorView::Host { message: UNEXPECTED_REPLY@ } },
            remove_manifest(),
        ),
        (InstallerView::Installing { deps }, ReplyView::Ran { outcome }) => (
            InstallerView::Removing { deps, verdict: verdict(outcome) },
            remove_manifest(),
        ),
        (InstallerView::Installing { .. }, _) => (
            InstallerView::Discarding { error: ErrorView::Host { message: UNEXPECTED_REPLY@ } },
            remove_manifest(),
        ),
        (
            InstallerView::Removing { deps, verdict: Ok(stdout) },
            ReplyView::Done { failure: None },
        ) => (
            InstallerView::Naming { deps },
            StepView {
                notices: seq![
                    NoticeView::PackageManagerOutput { stdout },
                    NoticeView::UpdatingBuildFile,
                ],
                request: RequestView::ProjectName,
            },
        ),
        (
            InstallerView::Removing { verdict: Err(e), .. },
            ReplyView::Done { failure: None },
        ) => (InstallerView::Finished, failure(e)),
        (InstallerView::Removing { .. }, ReplyView::Done { failure: Some(message) }) => (
            InstallerView::Finished,
            failure(ErrorView::Host { message }),
        ),
        (InstallerView::Discarding { error }, _) => (InstallerView::Finished, failure(error)),
        (InstallerView::Naming { deps }, ReplyView::Name { name: Ok(project) }) => (
            InstallerView::ReadingBuildFile { project, deps },
            StepView {
                notices: Seq::empty(),
                request: RequestView::Read { path: build_file_path(project) },
            },
        ),
        (InstallerView::Naming { .. }, ReplyView::Name { name: Err(message) }) => (
            InstallerView::Finished,
            failure(ErrorView::Host { message }),
        ),
        (
            InstallerView::ReadingBuildFile { project, deps },
            ReplyView::Contents { text: Ok(text) },
        ) => match patched(text, deps, project) {
            Some(contents) => (
                InstallerView::WritingBuildFile,
                StepView {
                    notices: Seq::empty(),
                    request: RequestView::Write { path: build_file_path(project), contents },
                },
            ),
            None => (InstallerView::Finished, failure(ErrorView::MarkerNotFound)),
        },
        (InstallerView::ReadingBuildFile { .. }, ReplyView::Contents { text: Err(message) }) => (
            InstallerView::Finished,
            failure(ErrorView::Host { message }),
        ),
        (InstallerView::WritingBuildFile, ReplyView::Done { failure: None }) => (
            InstallerView::Finished,
            StepView {
                notices: seq![NoticeView::BuildFileUpdated],
                request: RequestView::Finish { result: Ok(()) },
            },
        ),
        (InstallerView::WritingBuildFile, ReplyView::Done { failure: Some(message) }) => (
            InstallerView::Finished,
            failure(ErrorView::Host { message }),
        ),
        _ => (InstallerView::Finished, unexpected()),
    }
}

/// The package manager's run.
pub fn install_command() -> (invocation: Invocation)
    ensures
        invocation@ == install_invocation(),
{
    let mut args: Vec<String> = Vec::new();
    args.push(String::from_str("install"));
    args.push(String::from_str("."));
    args.push(String::from_str("--build=missing"));
    args.push(String::from_str("--output-folder=packages/install"));
    assert(args.deep_view() =~= install_invocation().args);
    Invocation { program: String::from_str(PACKAGE_MANAGER), args }
}

/// What the package manager's run comes to.
fn judge(outcome: Outcome) -> (r: Result<String, Error>)
    ensures
        (match r {
            Ok(stdout) => Ok(stdout@),
            Err(e) => Err(e@),
        }) == verdict(outcome@),
{
    match outcome {
        Outcome::Exited { success: true, stdout, stderr: _ } => Ok(stdout),
        Outcome::Exited { success: false, stdout: _, stderr } => Err(
            Error::ExternalToolFailure { step: ToolStep::Install, stderr },
        ),
        Outcome::NotStarted { message } => Err(
            Error::NotStarted { step: ToolStep::Install, message },
        ),
    }
}

/// A copy of `v`.
fn copy_of(v: &Vec<String>) -> (r: Vec<String>)
    ensures
        r.deep_view() == v.deep_view(),
{
    let mut r: Vec<String> = Vec::new();
    let mut i: usize = 0;
    while i < v.len()
        invariant
            i <= v.len(),
            r.deep_view() == v.deep_view().take(i as int),
        decreases v.len() - i,
    {
        let ghost before = r.deep_view();
        let s = v[i].clone();
        r.push(s);
        assert(r.deep_view() =~= before.push(s@));
        i += 1;
        assert(v.deep_view().take(i as int) =~= before.push(s@));
    }
    assert(v.deep_view().take(i as int) =~= v.deep_view());
    r
}

/// The step that asks for the manifest's removal.
fn removal() -> (step: Step)
    ensures
        step@ == remove_manifest(),
{
    Step::ask(Request::Remove { path: String::from_str(MANIFEST_FILE) })
}

/// The path of the build file of the target `project`.
fn build_file(project: &String) -> (path: String)
    ensures
        path@ == build_file_path(project@),
{
    let mut path = project.clone();
    path.append(BUILD_FILE_NAME);
    path
}

/// Begins the installation of the project's dependencies: the installation,
/// and its first step.
pub fn install_dependencies() -> (r: (Installer, Step))
    ensures
        r.0@ == InstallerView::Locating,
        r.1@ == install_start(),
{
    let step = Step::new(
        one_notice(Notice::Installing),
        Request::Exists { path: String::from_str(REQUIREMENTS_FILE) },
    );
    (Installer::Locating, step)
}

impl Installer {
    /// Whether the command has ended.
    pub fn is_finished(&self) -> (r: bool)
        ensures
            r == (self@ is Finished),
    {
        match self {
            Installer::Finished => true,
            _ => false,
        }
    }

    /// Whether the manifest may be there at this moment, so that a host that
    /// gives up now has to remove it.
    pub fn holds_manifest(&self) -> (r: bool)
        ensures
            r == holds_manifest(self@),
    {
        match self {
            Installer::WritingManifest { .. } => true,
            Installer::Installing { .. } => true,
            _ => false,
        }
    }

    /// Takes the host's reply to the last request, and gives the next step.
    pub fn step(self, reply: Reply) -> (r: (Installer, Step))
        ensures
            (r.0@, r.1@) == install_step(self@, reply@),
    {
        match (self, reply) {
            (Installer::Locating, Reply::Exists { found: true }) => {
                let step = Step::ask(
                    Request::ReadLines { path: String::from_str(REQUIREMENTS_FILE) },
                );
                (Installer::Reading, step)
            },
            (Installer::Locating, Reply::Exists { found: false }) => {
                let step = Step::fail(
                    Error::NotFound {
                        artifact: Artifact::Requirements,
                        path: String::from_str(REQUIREMENTS_FILE),
                    },
                );
                (Installer::Finished, step)
            },
            (Installer::Reading, Reply::Contents { text: Ok(text) }) => {
                let deps = parse_requirements(text.as_str());
                if deps.len() == 0 {
                    let step = Step::new(
                        one_notice(Notice::NoDependencies),
                        Request::Finish { result: Ok(()) },
                    );
                    (Installer::Finished, step)
                } else {
                    let contents = render_manifest(&deps);
                    let step = Step::new(
                        one_notice(Notice::Found { declarations: copy_of(&deps) }),
                        Request::Write { path: String::from_str(MANIFEST_FILE), contents },
                    );
                    (Installer::WritingManifest { deps }, step)
                }
            },
            (Installer::Reading, Reply::Contents { text: Err(message) }) => {
                (Installer::Finished, Step::fail(Error::Host { message }))
            },
            (Installer::WritingManifest { deps }, Reply::Done { failure: None }) => {
                let step = Step::new(
                    one_notice(Notice::RunningPackageManager),
                    Request::Run { invocation: install_command() },
                );
                (Installer::Installing { deps }, step)
            },
            (Installer::WritingManifest { .. }, Reply::Done { failure: Some(message) }) => {
                (Installer::Discarding { error: Error::Host { message } }, removal())
            },
            (Installer::WritingManifest { .. }, _) => {
                let message = String::from_str(UNEXPECTED_REPLY);
                (Installer::Discarding { error: Error::Host { message } }, removal())
            },
            (Installer::Installing { deps }, Reply::Ran { outcome }) => {
                (Installer::Removing { deps, verdict: judge(outcome) }, removal())
            },
            (Installer::Installing { .. }, _) => {
                let message = String::from_str(UNEXPECTED_REPLY);
                (Installer::Discarding { error: Error::Host { message } }, removal())
            },
            (
                Installer::Removing { deps, verdict: Ok(stdout) },
                Reply::Done { failure: None },
            ) => {
                let step = Step::new(
                    two_notices(
                        Notice::PackageManagerOutput { stdout },
                        Notice::UpdatingBuildFile,
                    ),
                    Request::ProjectName,
                );
                (Installer::Naming { deps }, step)
            },
            (Installer::Removing { verdict: Err(e), .. }, Reply::Done { failure: None }) => {
                (Installer::Finished, Step::fail(e))
            },
            (Installer::Removing { .. }, Reply::Done { failure: Some(message) }) => {
                (Installer::Finished, Step::fail(Error::Host { message }))
            },
            (Installer::Discarding { error }, _) => (Installer::Finished, Step::fail(error)),
            (Installer::Naming { deps }, Reply::Name { name: Ok(project) }) => {
                let step = Step::ask(Request::Read { path: build_file(&project) });
                (Installer::ReadingBuildFile { project, deps }, step)
            },
            (Installer::Naming { .. }, Reply::Name { name: Err(message) }) => {
                (Installer::Finished, Step::fail(Error::Host { message }))
            },
            (
                Installer::ReadingBuildFile { project, deps },
                Reply::Contents { text: Ok(text) },
            ) => {
                match patch_dependency_section(text.as_str(), &deps, project.as_str()) {
                    Ok(contents) => {
                        let step = Step::ask(
                            Request::Write { path: build_file(&project), contents },
                        );
                        (Installer::WritingBuildFile, step)
                    },
                    Err(e) => (Installer::Finished, Step::fail(e)),
                }
            },
            (Installer::ReadingBuildFile { .. }, Reply::Contents { text: Err(message) }) => {
                (Installer::Finished, Step::fail(Error::Host { message }))
            },
            (Installer::WritingBuildFile, Reply::Done { failure: None }) => {
                let step = Step::new(
                    one_notice(Notice::BuildFileUpdated),
                    Request::Finish { result: Ok(()) },
                );
                (Installer::Finished, step)
            },
            (Installer::WritingBuildFile, Reply::Done { failure: Some(message) }) => {
                (Installer::Finished, Step::fail(Error::Host { message }))
            },
            _ => (Installer::Finished, Step::reject()),
        }
    }
}

/// Whether the manifest is there once the host has carried out `requests`
/// in order: it is there from the request that writes it until the request
/// that removes it.
pub open spec fn manifest_present(requests: Seq<RequestView>) -> bool
    decreases requests.len(),
{
    if requests.len() == 0 {
        false
    } else {
        match requests.last() {
            RequestView::Write { path, .. } => path == MANIFEST_FILE@ || manifest_present(
                requests.drop_last(),
            ),
            RequestView::Remove { path } => path != MANIFEST_FILE@ && manifest_present(
                requests.drop_last(),
            ),
            _ => manifest_present(requests.drop_last()),
        }
    }
}

/// An installation to which the host has answered with `replies`, in order:
/// the installation afterwards, and the requests that it has made, the
/// first one and one for each reply.
pub open spec fn install_run(replies: Seq<ReplyView>) -> (
    InstallerView,
    Seq<RequestView>,
)
    decreases replies.len(),
{
    if replies.len() == 0 {
        (InstallerView::Locating, seq![install_start().request])
    } else {
        let (s, requests) = install_run(replies.drop_last());
        let (next, step) = install_step(s, replies.last());
        (next, requests.push(step.request))
    }
}

/// The request that writes the manifest.
spec fn writes_manifest(request: RequestView) -> bool {
    request matches RequestView::Write { path, .. } && path == MANIFEST_FILE@
}

/// What holds of an installation and its requests after any replies.
proof fn lemma_install_run(replies: Seq<ReplyView>)
    ensures
        ({
            let (s, requests) = install_run(replies);
            &&& requests.len() == replies.len() + 1
            &&& manifest_present(requests) == holds_manifest(s)
            &&& s is WritingManifest ==> writes_manifest(requests.last())
            &&& s is Installing ==> requests.last() == (RequestView::Run {
                invocation: install_invocation(),
            })
            &&& requests.last() is Finish <==> s is Finished
        }),
    decreases replies.len(),
{
    reveal_strlit("conanfile.txt");
    reveal_strlit("/CMakeLists.txt");
    if replies.len() == 0 {
        let requests = seq![install_start().request];
        assert(!manifest_present(requests.drop_last()));
    } else {
        lemma_install_run(replies.drop_last());
        let (s, requests) = install_run(replies.drop_last());
        let (next, step) = install_step(s, replies.last());
        let more = requests.push(step.request);
        assert(more.drop_last() =~= requests);
        assert(more.last() == step.request);
        if let InstallerView::ReadingBuildFile { project, .. } = s {
            assert(build_file_path(project).len() >= 15);
        }
    }
}

/// The manifest does not outlive the installation: whatever the host
/// answers, and whether the package manager succeeded, failed or did not
/// start, the manifest is gone when the command ends. It is there only
/// while it is being written and while the package manager runs, which is
/// when the installation says that it holds the manifest.
pub proof fn lemma_manifest_is_transient(replies: Seq<ReplyView>)
    ensures
        ({
            let (s, requests) = install_run(replies);
            &&& requests.len() > 0
            &&& manifest_present(requests) == holds_manifest(s)
            &&& requests.last() is Finish ==> !manifest_present(requests)
            &&& manifest_present(requests) ==> {
                ||| requests.last() matches RequestView::Write { path, .. } && path
                    == MANIFEST_FILE@
                ||| requests.last() == (RequestView::Run { invocation: install_invocation() })
            }
        }),
{
    lemma_install_run(replies);
}

/// The package manager's run is always followed by the manifest's removal.
pub proof fn lemma_removal_follows_install(s: InstallerView, reply: ReplyView)
    requires
        s is Installing,
    ensures
        install_step(s, reply).1 == remove_manifest(),
{
}

/// A package manager that could not be started is reported once the
/// manifest is removed: the error names the installation, is no
/// `ExternalToolFailure`, and its line is the headline that names the step
/// and then the host's message.
pub proof fn lemma_unstarted_install_is_reported(deps: Seq<Seq<char>>, message: Seq<char>)
    ensures
        ({
            let outcome = OutcomeView::NotStarted { message };
            let e = ErrorView::NotStarted { step: ToolStep::Install, message };
            let (removing, first) = install_step(
                InstallerView::Installing { deps },
                ReplyView::Ran { outcome },
            );
            let (next, second) = install_step(removing, ReplyView::Done { failure: None });
            &&& first == remove_manifest()
            &&& next is Finished
            &&& second == failure(e)
            &&& message_text(e) == unstarted_headline(ToolStep::Install) + message
        }),
{
}

/// A requirements list that declares nothing ends the installation at once
/// and in success: nothing is written, and the package manager does not
/// run.
pub proof fn lemma_nothing_to_install(text: Seq<char>)
    requires
        declarations(text).len() == 0,
    ensures
        install_step(InstallerView::Reading, ReplyView::Contents { text: Ok(text) }) == (
            InstallerView::Finished,
            StepView {
                notices: seq![NoticeView::NoDependencies],
                request: RequestView::Finish { result: Ok(()) },
            },
        ),
{
}

/// A build file without its markers ends the installation with
/// `MarkerNotFound`, and nothing is written to it.
pub proof fn lemma_unmarked_build_file_is_kept(
    project: Seq<char>,
    deps: Seq<Seq<char>>,
    text: Seq<char>,
)
    requires
        patched(text, deps, project) is None,
    ensures
        install_step(
            InstallerView::ReadingBuildFile { project, deps },
            ReplyView::Contents { text: Ok(text) },
        ) == (InstallerView::Finished, failure(ErrorView::MarkerNotFound)),
{
}

} // verus!
