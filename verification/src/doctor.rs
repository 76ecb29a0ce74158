//! The tools that a project needs, how each is probed, and what a probe's
//! outcome says.

use crate::host::{Invocation, InvocationView, Outcome, OutcomeView};
use crate::platform::Platform;
use crate::text::{scan_until, span_until, to_chars, to_text, trim, trim_bounds};
use vstd::prelude::*;

verus! {

/// A tool to look for: its name, the arguments that make it print its
/// version, and how to install it.
#[derive(Debug, PartialEq, Eq)]
pub struct Probe {
    pub tool: String,
    pub args: Vec<String>,
    pub hint: String,
}

/// The mathematical value of a [`Probe`].
pub struct ProbeView {
    pub tool: Seq<char>,
    pub args: Seq<Seq<char>>,
    pub hint: Seq<char>,
}

impl DeepView for Probe {
    type V = ProbeView;

    open spec fn deep_view(&self) -> ProbeView {
        ProbeView { tool: self.tool@, args: self.args.deep_view(), hint: self.hint@ }
    }
}

/// What a probe found.
#[derive(Debug, PartialEq, Eq)]
pub enum Health {
    /// The tool is there; `version` is how it names itself.
    Present { version: String },
    /// The tool is not there, or does not work.
    NotFound,
    /// The program that would find the tool is not there.
    LocatorMissing,
}

/// The mathematical value of a [`Health`].
pub enum HealthView {
    Present { version: Seq<char> },
    NotFound,
    LocatorMissing,
}

impl View for Health {
    type V = HealthView;

    open spec fn view(&self) -> HealthView {
        match self {
            Health::Present { version } => HealthView::Present { version: version@ },
            Health::NotFound => HealthView::NotFound,
            Health::LocatorMissing => HealthView::LocatorMissing,
        }
    }
}

/// The probe for `tool`, which prints its version on `--version`.
pub open spec fn version_probe(tool: Seq<char>, hint: Seq<char>) -> ProbeView {
    ProbeView { tool, args: seq!["--version"@], hint }
}

/// The four tools that every project needs.
pub open spec fn required_tools() -> Seq<ProbeView> {
    seq![
        version_probe("cmake"@, "winget install Kitware.CMake"@),
        version_probe("ninja"@, "winget install Kitware.Ninja"@),
        version_probe("conan"@, "pip install conan"@),
        version_probe("clang"@, "winget install LLVM.LLVM"@),
    ]
}

/// The probe for `tool`.
fn probe(tool: &str, hint: &str) -> (p: Probe)
    ensures
        p.deep_view() == version_probe(tool@, hint@),
{
    let mut args: Vec<String> = Vec::new();
    args.push(String::from_str("--version"));
    assert(args.deep_view() =~= seq!["--version"@]);
    Probe { tool: String::from_str(tool), args, hint: String::from_str(hint) }
}

/// The probes for the tools that every project needs, in the order in which
/// they are reported.
pub fn check_tools() -> (probes: Vec<Probe>)
    ensures
        probes.deep_view() == required_tools(),
{
    let mut probes: Vec<Probe> = Vec::new();
    probes.push(probe("cmake", "winget install Kitware.CMake"));
    probes.push(probe("ninja", "winget install Kitware.Ninja"));
    probes.push(probe("conan", "pip install conan"));
    probes.push(probe("clang", "winget install LLVM.LLVM"));
    assert(probes.deep_view() =~= required_tools());
    probes
}

/// How a tool names itself: the first line of what it printed, without the
/// whitespace around it.
pub open spec fn version_line(stdout: Seq<char>) -> Seq<char> {
    trim(stdout.take(span_until(stdout, '\n') as int))
}

/// What the outcome of a version probe says: the tool is there where it ran
/// and reported success.
pub open spec fn tool_health(outcome: OutcomeView) -> HealthView {
    match outcome {
        OutcomeView::Exited { success: true, stdout, .. } => HealthView::Present {
            version: version_line(stdout),
        },
        _ => HealthView::NotFound,
    }
}

/// Reads the outcome of a version probe.
pub fn check_tool(outcome: &Outcome) -> (health: Health)
    ensures
        health@ == tool_health(outcome@),
{
    match outcome {
        Outcome::Exited { success: true, stdout, stderr: _ } => {
            let v = to_chars(stdout.as_str());
            assert(v@.subrange(0, v.len() as int) =~= v@);
            let end = scan_until(&v, 0, v.len(), '\n');
            assert(v@.subrange(0, end as int) =~= v@.take(end as int));
            let (a, b) = trim_bounds(&v, 0, end);
            Health::Present { version: to_text(&v, a, b) }
        },
        _ => Health::NotFound,
    }
}

impl Platform {
    /// Whether the platform's own build tools are looked for as well.
    pub fn checks_build_tools(self) -> (r: bool)
        ensures
            r == (self == Platform::Suffixed),
    {
        match self {
            Platform::Suffixed => true,
            Platform::Unsuffixed => false,
        }
    }
}

/// Where programs are installed, unless the environment says otherwise.
pub const DEFAULT_PROGRAM_FILES: &'static str = "C:\\Program Files (x86)";

/// The locator of the platform's build tools, below the directory where
/// programs are installed.
pub const LOCATOR: &'static str = "Microsoft Visual Studio/Installer/vswhere.exe";

/// How to install the platform's build tools.
pub const BUILD_TOOLS_HINT: &'static str =
    "Install from: https://visualstudio.microsoft.com/visual-cpp-build-tools/";

/// Whether a path ends so that a name can follow it directly.
pub open spec fn ends_open(base: Seq<char>) -> bool {
    base.len() == 0 || base.last() == '\\' || base.last() == '/'
}

/// The path of the locator: below `program_files`, or below the default
/// directory where that is not given.
pub open spec fn locator_path_text(program_files: Option<Seq<char>>) -> Seq<char> {
    let base = match program_files {
        Some(dir) => dir,
        None => DEFAULT_PROGRAM_FILES@,
    };
    if ends_open(base) {
        base + LOCATOR@
    } else {
        base + "\\"@ + LOCATOR@
    }
}

/// The path at which the locator of the platform's build tools is expected.
pub fn locator_path(program_files: Option<&str>) -> (path: String)
    ensures
        path@ == locator_path_text(
            match program_files {
                Some(dir) => Some(dir@),
                None => None,
            },
        ),
{
    let base = match program_files {
        Some(dir) => dir,
        None => DEFAULT_PROGRAM_FILES,
    };
    let v = to_chars(base);
    let mut path = String::from_str(base);
    if !(v.len() == 0 || v[v.len() - 1] == '\\' || v[v.len() - 1] == '/') {
        path.append("\\");
    }
    path.append(LOCATOR);
    path
}

/// The locator's run: the name of the latest installation.
pub open spec fn locator_invocation(path: Seq<char>) -> InvocationView {
    InvocationView { program: path, args: seq!["-latest"@, "-property"@, "displayName"@] }
}

/// What to do about the platform's build tools, given whether the locator
/// is at `path`: run it, or report that it is missing.
pub fn locate_build_tools(path: String, found: bool) -> (r: Result<Invocation, Health>)
    ensures
        match r {
            Ok(invocation) => found && invocation@ == locator_invocation(path@),
            Err(health) => !found && health == Health::LocatorMissing,
        },
{
    if !found {
        return Err(Health::LocatorMissing);
    }
    let mut args: Vec<String> = Vec::new();
    args.push(String::from_str("-latest"));
    args.push(String::from_str("-property"));
    args.push(String::from_str("displayName"));
    assert(args.deep_view() =~= locator_invocation(path@).args);
    Ok(Invocation { program: path, args })
}

/// What the locator's outcome says: the build tools are there where it ran,
/// reported success and printed something.
pub open spec fn build_tools_health(outcome: OutcomeView) -> HealthView {
    match outcome {
        OutcomeView::Exited { success: true, stdout, .. } => if stdout.len() > 0 {
            HealthView::Present { version: trim(stdout) }
        } else {
            HealthView::NotFound
        },
        _ => HealthView::NotFound,
    }
}

/// Reads the outcome of the locator's run.
pub fn check_vs_build_tools(outcome: &Outcome) -> (health: Health)
    ensures
        health@ == build_tools_health(outcome@),
{
    match outcome {
        Outcome::Exited { success: true, stdout, stderr: _ } => {
            let v = to_chars(stdout.as_str());
            if v.len() == 0 {
                return Health::NotFound;
            }
            assert(v@.subrange(0, v.len() as int) =~= v@);
            let (a, b) = trim_bounds(&v, 0, v.len());
            Health::Present { version: to_text(&v, a, b) }
        },
        _ => Health::NotFound,
    }
}

} // verus!
