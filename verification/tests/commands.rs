use cppsage::error::{Artifact, Error, ToolStep};
use cppsage::host::{Invocation, Notice, Outcome, Reply, Request, Step};
use cppsage::install::{
    install_command, install_dependencies, Installer, MANIFEST_FILE, REQUIREMENTS_FILE,
};
use cppsage::pipeline::{
    build_command, compile_project, configure_command, run_project, Pipeline,
};
use cppsage::platform::Platform;

fn strings(items: &[&str]) -> Vec<String> {
    items.iter().map(|s| s.to_string()).collect()
}

fn done() -> Reply {
    Reply::Done { failure: None }
}

fn failed(message: &str) -> Reply {
    Reply::Done { failure: Some(message.to_string()) }
}

fn exited(success: bool, stdout: &str, stderr: &str) -> Reply {
    Reply::Ran {
        outcome: Outcome::Exited {
            success,
            stdout: stdout.to_string(),
            stderr: stderr.to_string(),
        },
    }
}

fn not_started(message: &str) -> Reply {
    Reply::Ran { outcome: Outcome::NotStarted { message: message.to_string() } }
}

fn named(name: &str) -> Reply {
    Reply::Name { name: Ok(name.to_string()) }
}

fn contents(text: &str) -> Reply {
    Reply::Contents { text: Ok(text.to_string()) }
}

fn ask(request: Request) -> Step {
    Step { notices: Vec::new(), request }
}

fn fail(e: Error) -> Step {
    ask(Request::Finish { result: Err(e) })
}

fn unexpected() -> Step {
    fail(Error::Host { message: "unexpected reply from the host".to_string() })
}

fn remove_manifest() -> Step {
    ask(Request::Remove { path: "conanfile.txt".to_string() })
}

fn configured(start: (Pipeline, Step)) -> Pipeline {
    let (p, _) = start.0.step(done());
    let (p, _) = p.step(exited(true, "", ""));
    p
}

fn built(platform: Platform) -> Pipeline {
    configured(run_project(platform))
}

fn located(platform: Platform) -> Pipeline {
    let (p, _) = built(platform).step(exited(true, "", ""));
    let (p, _) = p.step(named("myapp"));
    p
}

fn installing(requirements: &str) -> Installer {
    let (i, _) = install_dependencies();
    let (i, _) = i.step(Reply::Exists { found: true });
    let (i, _) = i.step(contents(requirements));
    let (i, _) = i.step(done());
    i
}

fn installed(requirements: &str) -> Installer {
    let (i, _) = installing(requirements).step(exited(true, "", ""));
    let (i, _) = i.step(done());
    let (i, _) = i.step(named("myapp"));
    i
}

const BUILD_FILE: &str =
    "add_executable(myapp)\n# cppsage:dependencies_start\n# cppsage:dependencies_end\n";

#[test]
fn configure_invocation_names_sources_build_directory_backend_and_toolchain() {
    assert_eq!(
        configure_command(),
        Invocation {
            program: "cmake".to_string(),
            args: strings(&[
                "-S",
                ".",
                "-B",
                "build",
                "-G",
                "Ninja",
                "-DCMAKE_TOOLCHAIN_FILE=packages/install/conan_toolchain.cmake",
            ]),
        }
    );
}

#[test]
fn build_invocation_names_the_build_directory() {
    assert_eq!(
        build_command(),
        Invocation { program: "cmake".to_string(), args: strings(&["--build", "build"]) }
    );
}

#[test]
fn install_invocation_builds_what_is_missing() {
    assert_eq!(
        install_command(),
        Invocation {
            program: "conan".to_string(),
            args: strings(&[
                "install",
                ".",
                "--build=missing",
                "--output-folder=packages/install",
            ]),
        }
    );
}

#[test]
fn compile_starts_with_the_build_directory() {
    let (p, step) = compile_project();
    assert_eq!(p, Pipeline::EnsuringDirectory { run: None });
    assert!(!p.is_finished());
    assert_eq!(
        step,
        Step {
            notices: vec![Notice::Configuring],
            request: Request::EnsureDirectory { path: "build".to_string() },
        }
    );
}

#[test]
fn compile_configures_then_builds_then_ends() {
    let (p, _) = compile_project();
    let (p, step) = p.step(done());
    assert_eq!(p, Pipeline::Configuring { run: None });
    assert_eq!(step, ask(Request::Run { invocation: configure_command() }));
    let (p, step) = p.step(exited(true, "-- Configuring done", "a warning"));
    assert_eq!(p, Pipeline::Building { run: None });
    assert_eq!(
        step,
        Step {
            notices: vec![
                Notice::ToolOutput {
                    stdout: "-- Configuring done".to_string(),
                    stderr: "a warning".to_string(),
                },
                Notice::Compiling,
            ],
            request: Request::Run { invocation: build_command() },
        }
    );
    let (p, step) = p.step(exited(true, "[2/2] Linking", ""));
    assert!(p.is_finished());
    assert_eq!(
        step,
        Step {
            notices: vec![
                Notice::ToolOutput { stdout: "[2/2] Linking".to_string(), stderr: String::new() },
                Notice::Compiled,
            ],
            request: Request::Finish { result: Ok(()) },
        }
    );
}

#[test]
fn failed_configure_ends_the_compile_before_the_build() {
    let (p, _) = compile_project();
    let (p, _) = p.step(done());
    let (p, step) = p.step(exited(false, "some output", "CMake Error: no toolchain file"));
    assert!(p.is_finished());
    let error = Error::ExternalToolFailure {
        step: ToolStep::Configure,
        stderr: "CMake Error: no toolchain file".to_string(),
    };
    assert!(error.message().contains("CMake Error: no toolchain file"));
    assert_eq!(error.message(), "CMake configuration failed:\nCMake Error: no toolchain file");
    assert_eq!(step, fail(error));
    let (p, step) = p.step(exited(true, "", ""));
    assert!(p.is_finished());
    assert_eq!(step, unexpected());
}

#[test]
fn failed_build_ends_the_compile() {
    let (p, _) = compile_project();
    let (p, _) = p.step(done());
    let (p, _) = p.step(exited(true, "", ""));
    let (p, step) = p.step(exited(false, "", "ninja: build stopped"));
    assert!(p.is_finished());
    assert_eq!(
        step,
        fail(Error::ExternalToolFailure {
            step: ToolStep::Build,
            stderr: "ninja: build stopped".to_string(),
        })
    );
}

#[test]
fn build_directory_that_cannot_be_made_ends_the_compile() {
    let (p, _) = compile_project();
    let (p, step) = p.step(failed("Permission denied (os error 13)"));
    assert!(p.is_finished());
    assert_eq!(step, fail(Error::Host { message: "Permission denied (os error 13)".to_string() }));
}

#[test]
fn generator_that_does_not_start_is_reported_with_the_step() {
    let (p, _) = compile_project();
    let (p, _) = p.step(done());
    let (p, step) = p.step(not_started("No such file or directory (os error 2)"));
    assert!(p.is_finished());
    let error = Error::NotStarted {
        step: ToolStep::Configure,
        message: "No such file or directory (os error 2)".to_string(),
    };
    assert_eq!(
        error.message(),
        "CMake configuration could not be started:\nNo such file or directory (os error 2)"
    );
    assert_eq!(step, fail(error));
    let (p, step) = p.step(exited(true, "", ""));
    assert!(p.is_finished());
    assert_eq!(step, unexpected());
    let p = configured(compile_project());
    let (p, step) = p.step(not_started("gone"));
    assert!(p.is_finished());
    let error = Error::NotStarted { step: ToolStep::Build, message: "gone".to_string() };
    assert_eq!(error.message(), "CMake build could not be started:\ngone");
    assert_eq!(step, fail(error));
}

#[test]
fn binary_that_does_not_start_is_reported_with_the_step() {
    let (p, _) = located(Platform::Unsuffixed).step(Reply::Exists { found: true });
    let (p, step) = p.step(not_started("Permission denied (os error 13)"));
    assert!(p.is_finished());
    let error = Error::NotStarted {
        step: ToolStep::Execute,
        message: "Permission denied (os error 13)".to_string(),
    };
    assert_eq!(
        error.message(),
        "Project execution could not be started:\nPermission denied (os error 13)"
    );
    assert_eq!(step, fail(error));
}

#[test]
fn run_starts_like_a_compile() {
    let (p, step) = run_project(Platform::Unsuffixed);
    assert_eq!(p, Pipeline::EnsuringDirectory { run: Some(Platform::Unsuffixed) });
    assert_eq!(step, compile_project().1);
}

#[test]
fn run_asks_for_the_name_after_the_build() {
    let p = built(Platform::Unsuffixed);
    let (p, step) = p.step(exited(true, "out", "err"));
    assert_eq!(p, Pipeline::Naming { platform: Platform::Unsuffixed });
    assert_eq!(
        step,
        Step {
            notices: vec![
                Notice::ToolOutput { stdout: "out".to_string(), stderr: "err".to_string() },
                Notice::Compiled,
                Notice::Running,
            ],
            request: Request::ProjectName,
        }
    );
}

#[test]
fn run_looks_for_the_binary_of_the_projects_name() {
    let (p, _) = built(Platform::Unsuffixed).step(exited(true, "", ""));
    let (p, step) = p.step(named("myapp"));
    assert_eq!(p, Pipeline::Locating { binary: "build/myapp/myapp".to_string() });
    assert_eq!(step, ask(Request::Exists { path: "build/myapp/myapp".to_string() }));
}

#[test]
fn run_without_a_name_ends() {
    let (p, _) = built(Platform::Unsuffixed).step(exited(true, "", ""));
    let (p, step) = p.step(Reply::Name { name: Err("no current directory".to_string()) });
    assert!(p.is_finished());
    assert_eq!(step, fail(Error::Host { message: "no current directory".to_string() }));
}

#[test]
fn run_without_binary_reports_the_path_and_executes_nothing() {
    let (p, step) = located(Platform::Unsuffixed).step(Reply::Exists { found: false });
    assert!(p.is_finished());
    let error =
        Error::NotFound { artifact: Artifact::Executable, path: "build/myapp/myapp".to_string() };
    assert_eq!(error.message(), "Executable not found at: \"build/myapp/myapp\"");
    assert_eq!(step, fail(error));
}

#[test]
fn run_on_the_suffixed_platform_looks_for_an_exe() {
    let (p, _) = built(Platform::Suffixed).step(exited(true, "", ""));
    let (p, step) = p.step(named("myapp"));
    assert_eq!(step.request, Request::Exists { path: "build\\myapp\\myapp.exe".to_string() });
    let (_, step) = p.step(Reply::Exists { found: true });
    assert_eq!(
        step,
        ask(Request::Run {
            invocation: Invocation {
                program: "build\\myapp\\myapp.exe".to_string(),
                args: Vec::new(),
            },
        })
    );
}

#[test]
fn run_executes_the_binary_without_arguments() {
    let (p, step) = located(Platform::Unsuffixed).step(Reply::Exists { found: true });
    assert_eq!(p, Pipeline::Executing);
    assert_eq!(
        step,
        ask(Request::Run {
            invocation: Invocation { program: "build/myapp/myapp".to_string(), args: Vec::new() },
        })
    );
    let (p, step) = p.step(exited(true, "Hello, world!\n", ""));
    assert!(p.is_finished());
    assert_eq!(
        step,
        Step {
            notices: vec![Notice::ProgramOutput {
                stdout: "Hello, world!\n".to_string(),
                stderr: String::new(),
            }],
            request: Request::Finish { result: Ok(()) },
        }
    );
}

#[test]
fn failed_execution_is_reported_after_the_output() {
    let (p, _) = located(Platform::Unsuffixed).step(Reply::Exists { found: true });
    let (p, step) = p.step(exited(false, "partial", "panic"));
    assert!(p.is_finished());
    assert_eq!(
        step,
        Step {
            notices: vec![Notice::ProgramOutput {
                stdout: "partial".to_string(),
                stderr: "panic".to_string(),
            }],
            request: Request::Finish { result: Err(Error::ExecutionFailure) },
        }
    );
}

#[test]
fn failed_build_ends_the_run_before_the_binary_is_looked_for() {
    let p = built(Platform::Unsuffixed);
    let (p, step) = p.step(exited(false, "", "error: x"));
    assert!(p.is_finished());
    assert_eq!(
        step,
        fail(Error::ExternalToolFailure { step: ToolStep::Build, stderr: "error: x".to_string() })
    );
}

#[test]
fn reply_that_answers_nothing_ends_the_pipeline() {
    let (p, _) = compile_project();
    let (p, step) = p.step(Reply::Exists { found: true });
    assert!(p.is_finished());
    assert_eq!(step, unexpected());
}

#[test]
fn install_starts_with_the_requirements_list() {
    let (i, step) = install_dependencies();
    assert_eq!(i, Installer::Locating);
    assert!(!i.is_finished());
    assert_eq!(REQUIREMENTS_FILE, "packages/requirements.txt");
    assert_eq!(
        step,
        Step {
            notices: vec![Notice::Installing],
            request: Request::Exists { path: "packages/requirements.txt".to_string() },
        }
    );
}

#[test]
fn install_without_requirements_list_is_not_found() {
    let (i, _) = install_dependencies();
    let (i, step) = i.step(Reply::Exists { found: false });
    assert!(i.is_finished());
    let error = Error::NotFound {
        artifact: Artifact::Requirements,
        path: "packages/requirements.txt".to_string(),
    };
    assert_eq!(
        error.message(),
        "packages/requirements.txt not found. Are you in the project root?"
    );
    assert_eq!(step, fail(error));
}

#[test]
fn install_of_nothing_succeeds_without_the_package_manager() {
    let (i, _) = install_dependencies();
    let (i, step) = i.step(Reply::Exists { found: true });
    assert_eq!(step, ask(Request::ReadLines { path: "packages/requirements.txt".to_string() }));
    let (i, step) = i.step(contents("\n# Add your dependencies here\n# e.g. fmt/10.2.1\n"));
    assert!(i.is_finished());
    assert_eq!(
        step,
        Step {
            notices: vec![Notice::NoDependencies],
            request: Request::Finish { result: Ok(()) },
        }
    );
}

#[test]
fn install_of_an_empty_list_succeeds_without_the_package_manager() {
    let (i, _) = install_dependencies();
    let (i, _) = i.step(Reply::Exists { found: true });
    let (i, step) = i.step(contents(""));
    assert_eq!(i, Installer::Finished);
    assert_eq!(step.request, Request::Finish { result: Ok(()) });
}

#[test]
fn install_writes_the_manifest_then_runs_the_package_manager() {
    let (i, _) = install_dependencies();
    let (i, _) = i.step(Reply::Exists { found: true });
    let (i, step) = i.step(contents("fmt/10.2.1\n\n# comment"));
    assert_eq!(MANIFEST_FILE, "conanfile.txt");
    assert_eq!(
        step,
        Step {
            notices: vec![Notice::Found { declarations: strings(&["fmt/10.2.1"]) }],
            request: Request::Write {
                path: "conanfile.txt".to_string(),
                contents: "[requires]\nfmt/10.2.1\n\n[generators]\nCMakeDeps\nCMakeToolchain\n"
                    .to_string(),
            },
        }
    );
    let (i, step) = i.step(done());
    assert_eq!(i, Installer::Installing { deps: strings(&["fmt/10.2.1"]) });
    assert_eq!(
        step,
        Step {
            notices: vec![Notice::RunningPackageManager],
            request: Request::Run { invocation: install_command() },
        }
    );
}

#[test]
fn install_removes_the_manifest_then_patches_the_build_file() {
    let i = installing("fmt/10.2.1\n");
    let (i, step) = i.step(exited(true, "conan: done", "warnings"));
    assert_eq!(step, remove_manifest());
    let (i, step) = i.step(done());
    assert_eq!(i, Installer::Naming { deps: strings(&["fmt/10.2.1"]) });
    assert_eq!(
        step,
        Step {
            notices: vec![
                Notice::PackageManagerOutput { stdout: "conan: done".to_string() },
                Notice::UpdatingBuildFile,
            ],
            request: Request::ProjectName,
        }
    );
    let (i, step) = i.step(named("myapp"));
    assert_eq!(step, ask(Request::Read { path: "myapp/CMakeLists.txt".to_string() }));
    let (i, step) = i.step(contents(BUILD_FILE));
    assert_eq!(i, Installer::WritingBuildFile);
    assert_eq!(
        step,
        ask(Request::Write {
            path: "myapp/CMakeLists.txt".to_string(),
            contents: "add_executable(myapp)\n# cppsage:dependencies_start\n\
                       find_package(fmt)\ntarget_link_libraries(myapp PRIVATE fmt::fmt)\n\
                       \n# cppsage:dependencies_end\n"
                .to_string(),
        })
    );
    let (i, step) = i.step(done());
    assert!(i.is_finished());
    assert_eq!(
        step,
        Step {
            notices: vec![Notice::BuildFileUpdated],
            request: Request::Finish { result: Ok(()) },
        }
    );
}

#[test]
fn failed_package_manager_is_reported_after_the_manifest_is_removed() {
    let i = installing("fmt/10.2.1\n");
    let (i, step) = i.step(exited(false, "", "ERROR: package not found"));
    assert!(!i.is_finished());
    assert_eq!(step, remove_manifest());
    let (i, step) = i.step(done());
    assert!(i.is_finished());
    let error = Error::ExternalToolFailure {
        step: ToolStep::Install,
        stderr: "ERROR: package not found".to_string(),
    };
    assert_eq!(error.message(), "Conan install failed:\nERROR: package not found");
    assert_eq!(step, fail(error));
}

#[test]
fn package_manager_that_does_not_start_leaves_no_manifest() {
    let i = installing("fmt/10.2.1\n");
    let (i, step) = i.step(not_started("No such file or directory (os error 2)"));
    assert_eq!(step, remove_manifest());
    let (i, step) = i.step(done());
    assert!(i.is_finished());
    let error = Error::NotStarted {
        step: ToolStep::Install,
        message: "No such file or directory (os error 2)".to_string(),
    };
    assert_eq!(
        error.message(),
        "Conan install could not be started:\nNo such file or directory (os error 2)"
    );
    assert_eq!(step, fail(error));
}

#[test]
fn install_without_a_name_ends() {
    let (i, _) = installing("fmt/10.2.1\n").step(exited(true, "", ""));
    let (i, _) = i.step(done());
    let (i, step) = i.step(Reply::Name { name: Err("no current directory".to_string()) });
    assert!(i.is_finished());
    assert_eq!(step, fail(Error::Host { message: "no current directory".to_string() }));
}

#[test]
fn manifest_that_cannot_be_written_is_removed_and_reported() {
    let (i, _) = install_dependencies();
    let (i, _) = i.step(Reply::Exists { found: true });
    let (i, _) = i.step(contents("fmt/10.2.1\n"));
    let (i, step) = i.step(failed("disk full"));
    assert_eq!(i, Installer::Discarding { error: Error::Host { message: "disk full".to_string() } });
    assert_eq!(step, remove_manifest());
    let (i, step) = i.step(failed("No such file or directory (os error 2)"));
    assert!(i.is_finished());
    assert_eq!(step, fail(Error::Host { message: "disk full".to_string() }));
}

#[test]
fn manifest_that_cannot_be_removed_is_reported() {
    let i = installing("fmt/10.2.1\n");
    let (i, _) = i.step(exited(true, "", ""));
    let (i, step) = i.step(failed("Permission denied (os error 13)"));
    assert!(i.is_finished());
    assert_eq!(step, fail(Error::Host { message: "Permission denied (os error 13)".to_string() }));
}

#[test]
fn reply_that_answers_nothing_still_removes_the_manifest() {
    let i = installing("fmt/10.2.1\n");
    let (i, step) = i.step(Reply::Exists { found: true });
    assert_eq!(step, remove_manifest());
    let (i, step) = i.step(done());
    assert!(i.is_finished());
    assert_eq!(step, unexpected());
}

#[test]
fn build_file_without_markers_is_not_written() {
    let i = installed("fmt/10.2.1\n");
    let (i, step) = i.step(contents("add_executable(myapp)\n# cppsage:dependencies_start\n"));
    assert!(i.is_finished());
    assert_eq!(step, fail(Error::MarkerNotFound));
    assert_eq!(
        Error::MarkerNotFound.message(),
        "Could not find dependency markers in CMakeLists.txt"
    );
}

#[test]
fn build_file_that_cannot_be_read_is_reported() {
    let i = installed("fmt/10.2.1\n");
    let (i, step) = i.step(Reply::Contents { text: Err("gone".to_string()) });
    assert!(i.is_finished());
    assert_eq!(step, fail(Error::Host { message: "gone".to_string() }));
}

#[test]
fn requirements_list_that_cannot_be_read_is_reported() {
    let (i, _) = install_dependencies();
    let (i, _) = i.step(Reply::Exists { found: true });
    let (i, step) = i.step(Reply::Contents { text: Err("Is a directory".to_string()) });
    assert!(i.is_finished());
    assert_eq!(step, fail(Error::Host { message: "Is a directory".to_string() }));
}

#[test]
fn build_file_that_cannot_be_written_is_reported() {
    let i = installed("fmt/10.2.1\n");
    let (i, _) = i.step(contents(BUILD_FILE));
    let (i, step) = i.step(failed("read-only"));
    assert!(i.is_finished());
    assert_eq!(step, fail(Error::Host { message: "read-only".to_string() }));
}

#[test]
fn ended_installation_takes_no_further_reply() {
    let (i, step) = Installer::Finished.step(done());
    assert!(i.is_finished());
    assert_eq!(step, unexpected());
}

#[test]
fn manifest_is_gone_whenever_the_installation_ends() {
    let answers: [fn() -> Reply; 7] = [
        || Reply::Done { failure: None },
        || Reply::Done { failure: Some("no".to_string()) },
        || Reply::Exists { found: true },
        || Reply::Ran {
            outcome: Outcome::Exited { success: true, stdout: String::new(), stderr: String::new() },
        },
        || Reply::Ran { outcome: Outcome::NotStarted { message: "x".to_string() } },
        || Reply::Contents { text: Ok("fmt/10.2.1\n".to_string()) },
        || Reply::Name { name: Ok("myapp".to_string()) },
    ];
    let mut script = [0usize; 6];
    loop {
        let (mut i, mut step) = install_dependencies();
        let mut present = false;
        for pick in script {
            match &step.request {
                Request::Write { path, .. } if path == MANIFEST_FILE => present = true,
                Request::Remove { path } if path == MANIFEST_FILE => present = false,
                Request::Finish { .. } => assert!(!present),
                _ => {}
            }
            assert_eq!(i.holds_manifest(), present);
            let next = i.step(answers[pick]());
            i = next.0;
            step = next.1;
        }
        let mut k = 0;
        while k < script.len() && script[k] == answers.len() - 1 {
            script[k] = 0;
            k += 1;
        }
        if k == script.len() {
            break;
        }
        script[k] += 1;
    }
}
