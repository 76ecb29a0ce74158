//! The layout of a new project: the directories to create and the files to
//! write into them. Only the two build files depend on the project's name.

use crate::error::{Error, ErrorView};
use crate::patcher::{
    lemma_marker_neighbours, lemma_marker_shapes, section, END_MARKER, START_MARKER,
};
use crate::text::{
    is_first_occurrence, lacks, lemma_first_occurrence_unique, lemma_no_occurrence_across_end,
    lemma_no_occurrence_across_start, lemma_no_occurrence_without_first, never_before,
    never_behind, occurs, occurs_at,
};
use vstd::prelude::*;

verus! {

/// The formatter's configuration.
pub const CLANG_FORMAT_CONTENT: &'static str = r#"
Language: Cpp
BasedOnStyle: LLVM
AccessModifierOffset: -2
AlignAfterOpenBracket: Align
AlignConsecutiveAssignments: false
AlignConsecutiveDeclarations: false
AlignEscapedNewlines: Left
AlignOperands: Align
AlignTrailingComments: true
AllowAllParametersOfDeclarationOnNextLine: true
AllowShortBlocksOnASingleLine: false
AllowShortCaseLabelsOnASingleLine: false
AllowShortFunctionsOnASingleLine: All
AllowShortIfStatementsOnASingleLine: Never
AllowShortLoopsOnASingleLine: false
AlwaysBreakAfterDefinitionReturnType: None
AlwaysBreakAfterReturnType: None
AlwaysBreakBeforeMultilineStrings: false
AlwaysBreakTemplateDeclarations: Yes
BinPackArguments: true
BinPackParameters: true
BraceWrapping:
  AfterClass: false
  AfterControlStatement: false
  AfterEnum: false
  AfterFunction: false
  AfterNamespace: false
  AfterObjCDeclaration: false
  AfterStruct: false
  AfterUnion: false
  AfterExternBlock: false
  BeforeCatch: false
  BeforeElse: false
  IndentBraces: false
BreakBeforeBraces: Custom
BreakBeforeBinaryOperators: None
BreakBeforeInheritanceComma: false
BreakBeforeTernaryOperators: true
BreakConstructorInitializers: BeforeColon
ColumnLimit: 80
ConstructorInitializerAllOnOneLineOrOnePerLine: false
ConstructorInitializerIndentWidth: 4
ContinuationIndentWidth: 4
Cpp11BracedListStyle: true
DerivePointerAlignment: false
DisableFormat: false
ExperimentalAutoDetectBinPacking: false
FixNamespaceComments: true
ForEachMacros:
  - foreach
  - Q_FOREACH
  - BOOST_FOREACH
IncludeBlocks: Preserve
IncludeCategories:
  - Regex: '^"(<project_name>|config)\.h"'
    Priority: 1
  - Regex: '^<.*\.h>'
    Priority: 2
  - Regex: '^<.*'
    Priority: 3
  - Regex: '.*'
    Priority: 4
IncludeIsMainRegex: '(Test)?\.cpp$'
IndentCaseLabels: false
IndentPPDirectives: None
IndentWidth: 4
IndentWrappedFunctionNames: false
JavaScriptQuotes: Leave
JavaScriptWrapImports: true
KeepEmptyLinesAtTheStartOfBlocks: true
MacroBlockBegin: ''
MacroBlockEnd: ''
MaxEmptyLinesToKeep: 1
NamespaceIndentation: None
ObjCBlockIndentWidth: 4
ObjCSpaceAfterProperty: false
ObjCSpaceBeforeProtocolList: true
PenaltyBreakAssignment: 2
PenaltyBreakBeforeFirstCallParameter: 19
PenaltyBreakComment: 300
PenaltyBreakFirstLessLess: 120
PenaltyBreakString: 1000
PenaltyReturnTypeOnItsOwnLine: 60
PointerAlignment: Left
ReflowComments: true
SortIncludes: true
SortUsingDeclarations: true
SpaceAfterCStyleCast: false
SpaceAfterTemplateKeyword: true
SpaceBeforeAssignmentOperators: true
SpaceBeforeCpp11BracedList: false
SpaceBeforeCtorInitializerColon: true
SpaceBeforeInheritanceColon: true
SpaceBeforeParens: ControlStatements
SpaceInEmptyParentheses: false
SpacesBeforeTrailingComments: 2
SpacesInAngles: false
SpacesInContainerLiterals: false
SpacesInCStyleCastParentheses: false
SpacesInParentheses: false
Standard: Cpp11
TabWidth: 4
UseTab: Never
"#;

/// The language server's configuration.
pub const CLANGD_CONTENT: &'static str = r#"
CompileFlags:
  Add: [-std=c++17]
"#;

/// The editor's configuration.
pub const EDITORCONFIG_CONTENT: &'static str = r#"
root = true

[*]
indent_style = space
indent_size = 4
end_of_line = lf
charset = utf-8
trim_trailing_whitespace = true
insert_final_newline = true
"#;

/// What version control is to pass over.
pub const GITIGNORE_CONTENT: &'static str = r#"
# CMake
build/
install/
*.VC.db
*.VC.VC.opendb

# Visual Studio
.vs/
*.suo
*.user
*.sln.docstates

# Packages
packages/

# Misc
*.log
"#;

/// The shim that includes the toolchain file where there is one, and warns
/// where there is none.
pub const CONFIG_CMAKE_CONTENT: &'static str = r#"
# This file is managed by cppsage.
# Manual edits might be overwritten.

# Check if conan_toolchain.cmake exists
if(EXISTS "${CMAKE_CURRENT_SOURCE_DIR}/packages/install/conan_toolchain.cmake")
    include("${CMAKE_CURRENT_SOURCE_DIR}/packages/install/conan_toolchain.cmake")
else()
    message(WARNING "Conan toolchain not found. Run 'sage install' to generate it.")
endif()
"#;

/// The program that a new project starts with.
pub const MAIN_CPP_CONTENT: &'static str = r#"
#include <iostream>

int main() {
    std::cout << "Hello, world!" << std::endl;
    return 0;
}
"#;

/// The requirements list that a new project starts with.
pub const REQUIREMENTS_TXT_CONTENT: &'static str = r#"
# Add your dependencies here
# e.g. fmt/10.2.1
"#;

/// The top build file, up to the project's name.
pub const TOP_HEAD: &'static str = r#"
cmake_minimum_required(VERSION 3.15)

# Conan package management
include(cmake/config.cmake)

project("#;

/// The top build file, between the two places of the project's name.
pub const TOP_BODY: &'static str = r#" VERSION 0.1.0 LANGUAGES CXX)

set(CMAKE_CXX_STANDARD 17)
set(CMAKE_CXX_STANDARD_REQUIRED ON)

add_subdirectory("#;

/// The top build file, behind the project's name.
pub const TOP_TAIL: &'static str = r#")
"#;

/// The target's build file, up to the target's name.
pub const SUB_HEAD: &'static str = r#"
add_executable("#;

/// The target's build file, between the two places of the target's name.
pub const SUB_BODY: &'static str = r#"
    src/main.cpp
)

target_include_directories("#;

/// The target's build file, from the target's name to the dependency
/// section.
pub const SUB_TAIL: &'static str = r#" PUBLIC
    "${CMAKE_CURRENT_SOURCE_DIR}/include"
)

"#;

/// The top build file of the project `name`.
pub open spec fn cmake_lists_top_text(name: Seq<char>) -> Seq<char> {
    TOP_HEAD@ + name + TOP_BODY@ + name + TOP_TAIL@
}

/// The build file of the target `name`: it ends with an empty dependency
/// section.
pub open spec fn cmake_lists_sub_text(name: Seq<char>) -> Seq<char> {
    SUB_HEAD@ + name + SUB_BODY@ + name + SUB_TAIL@ + START_MARKER@ + "\n"@ + END_MARKER@ + "\n"@
}

/// The top build file of the project `project_name`.
pub fn cmake_lists_top(project_name: &str) -> (text: String)
    ensures
        text@ == cmake_lists_top_text(project_name@),
{
    let mut text = String::from_str(TOP_HEAD);
    text.append(project_name);
    text.append(TOP_BODY);
    text.append(project_name);
    text.append(TOP_TAIL);
    text
}

/// The build file of the target `project_name`.
pub fn cmake_lists_sub(project_name: &str) -> (text: String)
    ensures
        text@ == cmake_lists_sub_text(project_name@),
{
    let mut text = String::from_str(SUB_HEAD);
    text.append(project_name);
    text.append(SUB_BODY);
    text.append(project_name);
    text.append(SUB_TAIL);
    text.append(START_MARKER);
    text.append("\n");
    text.append(END_MARKER);
    text.append("\n");
    text
}

/// The target's build file up to its dependency section.
pub open spec fn sub_preamble(name: Seq<char>) -> Seq<char> {
    SUB_HEAD@ + name + SUB_BODY@ + name + SUB_TAIL@
}

/// The head of the target's build file holds no `#` and ends with `e(`.
proof fn lemma_sub_head_shape()
    ensures
        lacks(SUB_HEAD@, '#'),
        SUB_HEAD@.len() >= 2,
        SUB_HEAD@[SUB_HEAD@.len() - 1] == '(',
        SUB_HEAD@[SUB_HEAD@.len() - 2] == 'e',
{
    reveal_strlit("\nadd_executable(");
}

/// The body of the target's build file holds no `#`, begins with a line
/// feed and a blank, and ends with `s(`.
proof fn lemma_sub_body_shape()
    ensures
        lacks(SUB_BODY@, '#'),
        SUB_BODY@.len() >= 2,
        SUB_BODY@[0] == '\n',
        SUB_BODY@[1] == ' ',
        SUB_BODY@[SUB_BODY@.len() - 1] == '(',
        SUB_BODY@[SUB_BODY@.len() - 2] == 's',
{
    reveal_strlit("\n    src/main.cpp\n)\n\ntarget_include_directories(");
}

/// The tail of the target's build file holds no `#`, begins with a blank
/// and `P`, and ends with a line feed.
proof fn lemma_sub_tail_shape()
    ensures
        lacks(SUB_TAIL@, '#'),
        SUB_TAIL@.len() >= 2,
        SUB_TAIL@[0] == ' ',
        SUB_TAIL@[1] == 'P',
        SUB_TAIL@[SUB_TAIL@.len() - 1] == '\n',
{
    reveal_strlit(" PUBLIC\n    \"${CMAKE_CURRENT_SOURCE_DIR}/include\"\n)\n\n");
}

/// A line feed is one character.
proof fn lemma_line_feed()
    ensures
        "\n"@ == seq!['\n'],
{
    reveal_strlit("\n");
    assert("\n"@ =~= seq!['\n']);
}

/// Whether `n` is shaped as the two markers are, as far as it matters for
/// where it can occur in a new build file.
spec fn marker_like(n: Seq<char>) -> bool {
    &&& n.len() > 0
    &&& n[0] == '#'
    &&& never_behind(n, '(', 'e')
    &&& never_behind(n, '(', 's')
    &&& never_before(n, '\n', ' ')
    &&& never_before(n, ' ', 'P')
}

/// What stands before the dependency section of a new build file holds no
/// marker, where the name holds none.
proof fn lemma_preamble_holds_no_marker(name: Seq<char>, n: Seq<char>)
    requires
        marker_like(n),
        !occurs(name, n),
    ensures
        !occurs(sub_preamble(name), n),
{
    lemma_sub_head_shape();
    lemma_sub_body_shape();
    lemma_sub_tail_shape();
    lemma_no_occurrence_without_first(SUB_HEAD@, n);
    lemma_no_occurrence_without_first(SUB_BODY@, n);
    lemma_no_occurrence_without_first(SUB_TAIL@, n);
    let s1 = SUB_HEAD@ + name;
    lemma_no_occurrence_across_end(SUB_HEAD@, name, n);
    let s2 = s1 + SUB_BODY@;
    lemma_no_occurrence_across_start(s1, SUB_BODY@, n);
    let s3 = s2 + name;
    assert(s2[s2.len() - 1] == '(' && s2[s2.len() - 2] == 's');
    lemma_no_occurrence_across_end(s2, name, n);
    lemma_no_occurrence_across_start(s3, SUB_TAIL@, n);
}

/// In a text made of a part that holds no marker and ends with a line feed,
/// a start marker, a line feed, an end marker and a line feed, the first
/// start marker is the one behind the first part, and the first end marker
/// the one behind the line feed.
#[verifier::rlimit(50)]
proof fn lemma_markers_behind(text: Seq<char>, pre: Seq<char>, sm: Seq<char>, em: Seq<char>)
    requires
        !occurs(pre, sm),
        !occurs(pre, em),
        pre.len() > 0,
        pre[pre.len() - 1] == '\n',
        lacks(sm, '\n'),
        lacks(em, '\n'),
        sm.len() == 28,
        em.len() == 26,
        sm[0] == '#',
        em[0] == '#',
        forall|k: int| 1 <= k < 28 ==> sm[k] != '#',
        sm[23] != em[23],
        text == pre + sm + seq!['\n'] + em + seq!['\n'],
    ensures
        is_first_occurrence(text, sm, pre.len() as int),
        is_first_occurrence(text, em, pre.len() as int + 29),
{
    let start = pre.len() as int;
    assert(text.len() == start + 56);
    assert forall|k: int| 0 <= k < start implies #[trigger] text[k] == pre[k] by {}
    assert forall|k: int| start <= k < start + 28 implies #[trigger] text[k] == sm[k - start] by {}
    assert(text[start + 28] == '\n');
    assert forall|k: int| start + 29 <= k < start + 55 implies #[trigger] text[k] == em[k - start
        - 29] by {}
    assert(text.subrange(start, start + 28) =~= sm);
    assert forall|j: int| 0 <= j < start implies !occurs_at(text, sm, j) by {
        if occurs_at(text, sm, j) {
            let w = text.subrange(j, j + 28);
            if j + 28 <= start {
                assert(pre.subrange(j, j + 28) =~= w);
                assert(occurs_at(pre, sm, j));
            } else {
                assert(w[start - 1 - j] == text[start - 1]);
            }
        }
    }
    assert(text.subrange(start + 29, start + 55) =~= em);
    assert forall|j: int| 0 <= j < start + 29 implies !occurs_at(text, em, j) by {
        if occurs_at(text, em, j) {
            let w = text.subrange(j, j + 26);
            assert(w[0] == text[j]);
            if j + 26 <= start {
                assert(pre.subrange(j, j + 26) =~= w);
                assert(occurs_at(pre, em, j));
            } else if j < start {
                assert(w[start - 1 - j] == text[start - 1]);
            } else if j == start {
                assert(w[23] == text[start + 23]);
            }
        }
    }
}

/// A new target's build file is ready to be patched: it holds the
/// dependency section, with one line feed between the markers. This holds of
/// a name that holds neither marker; with a marker inside the name, the
/// first marker of the file would be that one.
pub proof fn lemma_new_build_file_has_section(name: Seq<char>)
    requires
        !occurs(name, START_MARKER@),
        !occurs(name, END_MARKER@),
    ensures
        ({
            let text = cmake_lists_sub_text(name);
            section(text) == Some((text.len() - 28, text.len() - 27))
        }),
{
    let text = cmake_lists_sub_text(name);
    let pre = sub_preamble(name);
    lemma_marker_shapes();
    lemma_marker_neighbours();
    lemma_line_feed();
    lemma_sub_tail_shape();
    lemma_preamble_holds_no_marker(name, START_MARKER@);
    lemma_preamble_holds_no_marker(name, END_MARKER@);
    lemma_markers_behind(text, pre, START_MARKER@, END_MARKER@);
    lemma_first_occurrence_unique(text, START_MARKER@, pre.len() as int);
    lemma_first_occurrence_unique(text, END_MARKER@, pre.len() as int + 29);
}

/// A file to write.
#[derive(Debug, PartialEq, Eq)]
pub struct NewFile {
    pub path: String,
    pub contents: String,
}

/// The mathematical value of a [`NewFile`].
pub struct NewFileView {
    pub path: Seq<char>,
    pub contents: Seq<char>,
}

impl DeepView for NewFile {
    type V = NewFileView;

    open spec fn deep_view(&self) -> NewFileView {
        NewFileView { path: self.path@, contents: self.contents@ }
    }
}

/// The layout of a new project: the directories to create, each with those
/// above it, and then the files to write, both in order.
#[derive(Debug, PartialEq, Eq)]
pub struct Scaffold {
    pub directories: Vec<String>,
    pub files: Vec<NewFile>,
}

/// The mathematical value of a [`Scaffold`].
pub struct ScaffoldView {
    pub directories: Seq<Seq<char>>,
    pub files: Seq<NewFileView>,
}

impl View for Scaffold {
    type V = ScaffoldView;

    open spec fn view(&self) -> ScaffoldView {
        ScaffoldView {
            directories: self.directories.deep_view(),
            files: self.files.deep_view(),
        }
    }
}

/// The path `rest` below the directory `dir`.
pub open spec fn below(dir: Seq<char>, rest: Seq<char>) -> Seq<char> {
    dir + "/"@ + rest
}

/// The layout of the project `name`, in a directory of that name.
pub open spec fn scaffold(name: Seq<char>) -> ScaffoldView {
    ScaffoldView {
        directories: seq![
            below(name, "build/windows"@),
            below(name, "cmake"@),
            below(below(name, name), "include"@),
            below(below(name, name), "src"@),
            below(name, "install"@),
            below(name, "packages"@),
            below(name, "res"@),
        ],
        files: seq![
            NewFileView { path: below(name, ".clang-format"@), contents: CLANG_FORMAT_CONTENT@ },
            NewFileView { path: below(name, ".clang-tidy"@), contents: Seq::empty() },
            NewFileView { path: below(name, ".clangd"@), contents: CLANGD_CONTENT@ },
            NewFileView { path: below(name, ".editorconfig"@), contents: EDITORCONFIG_CONTENT@ },
            NewFileView { path: below(name, ".gitignore"@), contents: GITIGNORE_CONTENT@ },
            NewFileView {
                path: below(name, "CMakeLists.txt"@),
                contents: cmake_lists_top_text(name),
            },
            NewFileView {
                path: below(name, "cmake/config.cmake"@),
                contents: CONFIG_CMAKE_CONTENT@,
            },
            NewFileView {
                path: below(below(name, name), "CMakeLists.txt"@),
                contents: cmake_lists_sub_text(name),
            },
            NewFileView {
                path: below(below(name, name), "src/main.cpp"@),
                contents: MAIN_CPP_CONTENT@,
            },
            NewFileView {
                path: below(name, "packages/requirements.txt"@),
                contents: REQUIREMENTS_TXT_CONTENT@,
            },
        ],
    }
}

/// The path `rest` below the directory `dir`.
fn path_below(dir: &str, rest: &str) -> (path: String)
    ensures
        path@ == below(dir@, rest@),
{
    let mut path = String::from_str(dir);
    path.append("/");
    path.append(rest);
    path
}

/// The file at `rest` below `dir`, with `contents`.
fn file_below(dir: &str, rest: &str, contents: String) -> (file: NewFile)
    ensures
        file.deep_view() == (NewFileView { path: below(dir@, rest@), contents: contents@ }),
{
    NewFile { path: path_below(dir, rest), contents }
}

/// Lays out the project `project_name`. Where something of that name is
/// there already, nothing is laid out.
pub fn create_project(project_name: &str, exists: bool) -> (r: Result<Scaffold, Error>)
    ensures
        match r {
            Ok(plan) => !exists && plan@ == scaffold(project_name@),
            Err(e) => exists && e@ == (ErrorView::AlreadyExists { name: project_name@ }),
        },
{
    if exists {
        return Err(Error::AlreadyExists { name: String::from_str(project_name) });
    }
    let name = project_name;
    let target = path_below(name, name);
    let mut directories: Vec<String> = Vec::new();
    directories.push(path_below(name, "build/windows"));
    directories.push(path_below(name, "cmake"));
    directories.push(path_below(target.as_str(), "include"));
    directories.push(path_below(target.as_str(), "src"));
    directories.push(path_below(name, "install"));
    directories.push(path_below(name, "packages"));
    directories.push(path_below(name, "res"));
    assert(directories.deep_view() =~= scaffold(name@).directories);
    let mut files: Vec<NewFile> = Vec::new();
    files.push(file_below(name, ".clang-format", String::from_str(CLANG_FORMAT_CONTENT)));
    files.push(file_below(name, ".clang-tidy", String::new()));
    files.push(file_below(name, ".clangd", String::from_str(CLANGD_CONTENT)));
    files.push(file_below(name, ".editorconfig", String::from_str(EDITORCONFIG_CONTENT)));
    files.push(file_below(name, ".gitignore", String::from_str(GITIGNORE_CONTENT)));
    files.push(file_below(name, "CMakeLists.txt", cmake_lists_top(name)));
    files.push(file_below(name, "cmake/config.cmake", String::from_str(CONFIG_CMAKE_CONTENT)));
    files.push(file_below(target.as_str(), "CMakeLists.txt", cmake_lists_sub(name)));
    files.push(file_below(target.as_str(), "src/main.cpp", String::from_str(MAIN_CPP_CONTENT)));
    files.push(
        file_below(name, "packages/requirements.txt", String::from_str(REQUIREMENTS_TXT_CONTENT)),
    );
    assert(files.deep_view() =~= scaffold(name@).files);
    Ok(Scaffold { directories, files })
}

} // verus!
