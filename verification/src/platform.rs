//! What differs from one platform to the other: the extension of an
//! executable, and the separator of a path.

use vstd::prelude::*;

verus! {

/// The platform's policy on the names of executables.
#[derive(Debug, Clone, Copy, PartialEq, Eq, Structural)]
pub enum Platform {
    /// Executables carry the extension `.exe`, and `\` separates the parts
    /// of a path.
    Suffixed,
    /// Executables carry no extension, and `/` separates the parts of a
    /// path.
    Unsuffixed,
}

/// The directory that the build-system generator works in.
pub const BUILD_DIR: &'static str = "build";

impl Platform {
    /// What follows the name of an executable.
    pub open spec fn suffix(self) -> Seq<char> {
        match self {
            Platform::Suffixed => ".exe"@,
            Platform::Unsuffixed => Seq::empty(),
        }
    }

    /// What separates the parts of a path.
    pub open spec fn separator(self) -> Seq<char> {
        match self {
            Platform::Suffixed => "\\"@,
            Platform::Unsuffixed => "/"@,
        }
    }
}

/// The path of the binary that the build of `project` produces: in the
/// build directory, in a directory named after the project, the project's
/// name with the platform's suffix.
pub open spec fn binary_path_text(platform: Platform, project: Seq<char>) -> Seq<char> {
    BUILD_DIR@ + platform.separator() + project + platform.separator() + project
        + platform.suffix()
}

/// The path at which the binary of `project` is expected.
pub fn binary_path(platform: Platform, project: &str) -> (path: String)
    ensures
        path@ == binary_path_text(platform, project@),
{
    let mut path = String::from_str(BUILD_DIR);
    match platform {
        Platform::Suffixed => {
            path.append("\\");
            path.append(project);
            path.append("\\");
            path.append(project);
            path.append(".exe");
        },
        Platform::Unsuffixed => {
            path.append("/");
            path.append(project);
            path.append("/");
            path.append(project);
            assert(path@ =~= binary_path_text(platform, project@));
        },
    }
    path
}

} // verus!
