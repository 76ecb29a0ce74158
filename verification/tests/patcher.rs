use cppsage::error::Error;
use cppsage::patcher::{
    patch_dependency_section, render_linkage_block, END_MARKER, START_MARKER,
};
use cppsage::requirements::parse_requirements;
use cppsage::scaffold::cmake_lists_sub;

fn strings(items: &[&str]) -> Vec<String> {
    items.iter().map(|s| s.to_string()).collect()
}

fn by_replace_range(contents: &str, deps: &[String], owner: &str) -> Option<String> {
    let mut text = contents.to_string();
    let mut block = String::new();
    for dep in deps {
        let name = dep.split('/').next().unwrap();
        block.push_str(&format!("find_package({})\n", name));
        block.push_str(&format!("target_link_libraries({} PRIVATE {}::{})\n", owner, name, name));
    }
    let start = text.find(START_MARKER)?;
    let end = text.find(END_MARKER)?;
    if start + START_MARKER.len() > end {
        return None;
    }
    text.replace_range(start + START_MARKER.len()..end, &format!("\n{}\n", block));
    Some(text)
}

#[test]
fn markers_are_the_two_comment_lines() {
    assert_eq!(START_MARKER, "# cppsage:dependencies_start");
    assert_eq!(END_MARKER, "# cppsage:dependencies_end");
}

#[test]
fn directives_for_fmt() {
    let deps = parse_requirements("fmt/10.2.1\n\n# comment");
    let block = render_linkage_block(&deps, "myapp");
    assert_eq!(block, "find_package(fmt)\ntarget_link_libraries(myapp PRIVATE fmt::fmt)\n");
    assert!(block.contains("find_package(fmt)"));
    assert!(block.contains("fmt::fmt"));
}

#[test]
fn directives_follow_the_declarations() {
    assert_eq!(
        render_linkage_block(&strings(&["zlib/1.3", "fmt/10.2.1"]), "app"),
        "find_package(zlib)\ntarget_link_libraries(app PRIVATE zlib::zlib)\n\
         find_package(fmt)\ntarget_link_libraries(app PRIVATE fmt::fmt)\n"
    );
}

#[test]
fn directives_for_a_declaration_without_version() {
    assert_eq!(
        render_linkage_block(&strings(&["zlib"]), "app"),
        "find_package(zlib)\ntarget_link_libraries(app PRIVATE zlib::zlib)\n"
    );
}

#[test]
fn no_declarations_no_directives() {
    assert_eq!(render_linkage_block(&Vec::new(), "app"), "");
}

#[test]
fn patch_fills_the_section() {
    let contents = "add_executable(app)\n# cppsage:dependencies_start\n# cppsage:dependencies_end\n";
    let patched = patch_dependency_section(contents, &strings(&["fmt/10.2.1"]), "app");
    assert_eq!(
        patched,
        Ok("add_executable(app)\n# cppsage:dependencies_start\n\
            find_package(fmt)\ntarget_link_libraries(app PRIVATE fmt::fmt)\n\
            \n# cppsage:dependencies_end\n"
            .to_string())
    );
}

#[test]
fn patch_replaces_what_was_in_the_section() {
    let contents = "head\n# cppsage:dependencies_start\nfind_package(old)\nstale\n# cppsage:dependencies_end\ntail\n";
    let patched = patch_dependency_section(contents, &strings(&["zlib/1.3"]), "app");
    assert_eq!(
        patched,
        Ok("head\n# cppsage:dependencies_start\n\
            find_package(zlib)\ntarget_link_libraries(app PRIVATE zlib::zlib)\n\
            \n# cppsage:dependencies_end\ntail\n"
            .to_string())
    );
}

#[test]
fn patch_without_declarations_empties_the_section() {
    let contents = "a# cppsage:dependencies_startXYZ# cppsage:dependencies_endb";
    assert_eq!(
        patch_dependency_section(contents, &Vec::new(), "app"),
        Ok("a# cppsage:dependencies_start\n\n# cppsage:dependencies_endb".to_string())
    );
}

#[test]
fn patch_keeps_what_is_outside_the_markers() {
    let head = "project(x)\n  # not a marker\né à ü\n";
    let tail = "\ninstall(TARGETS x)\n# cppsage:dependencies_end again\n";
    let contents = format!("{}{}\nold\n{}{}", head, START_MARKER, END_MARKER, tail);
    let patched = patch_dependency_section(&contents, &strings(&["fmt/10.2.1"]), "x").unwrap();
    assert!(patched.starts_with(&format!("{}{}", head, START_MARKER)));
    assert!(patched.ends_with(&format!("{}{}", END_MARKER, tail)));
}

#[test]
fn patch_twice_is_patch_once() {
    let deps = strings(&["fmt/10.2.1", "zlib/1.3"]);
    let contents = cmake_lists_sub("myapp");
    let once = patch_dependency_section(&contents, &deps, "myapp").unwrap();
    let twice = patch_dependency_section(&once, &deps, "myapp").unwrap();
    assert_eq!(once, twice);
    assert!(once != contents);
}

#[test]
fn patch_twice_is_patch_once_with_parts_of_a_marker_in_the_names() {
    let deps = strings(&[
        "# cppsage/1.0",
        "# cppsage:dependencies_en",
        "dependencies_end/2",
        "x# cppsage:dependencies_e/nd",
    ]);
    let owner = "own# cppsage";
    let contents = cmake_lists_sub("myapp");
    let once = patch_dependency_section(&contents, &deps, owner).unwrap();
    let twice = patch_dependency_section(&once, &deps, owner).unwrap();
    assert_eq!(once, twice);
    assert!(!render_linkage_block(&deps, owner).contains(END_MARKER));
}

#[test]
fn patch_twice_differs_when_directives_hold_the_end_marker() {
    let deps = strings(&["# cppsage:dependencies_end/1.0"]);
    let contents = cmake_lists_sub("myapp");
    let once = patch_dependency_section(&contents, &deps, "myapp").unwrap();
    let twice = patch_dependency_section(&once, &deps, "myapp").unwrap();
    assert!(once != twice);
}

#[test]
fn patch_of_a_new_build_file() {
    let contents = cmake_lists_sub("myapp");
    let patched = patch_dependency_section(&contents, &strings(&["fmt/10.2.1"]), "myapp").unwrap();
    assert_eq!(
        patched,
        "\nadd_executable(myapp\n    src/main.cpp\n)\n\ntarget_include_directories(myapp PUBLIC\n    \"${CMAKE_CURRENT_SOURCE_DIR}/include\"\n)\n\n# cppsage:dependencies_start\nfind_package(fmt)\ntarget_link_libraries(myapp PRIVATE fmt::fmt)\n\n# cppsage:dependencies_end\n"
    );
}

#[test]
fn missing_start_marker_is_refused() {
    let contents = "add_executable(app)\n# cppsage:dependencies_end\n";
    assert_eq!(
        patch_dependency_section(contents, &strings(&["fmt/10.2.1"]), "app"),
        Err(Error::MarkerNotFound)
    );
}

#[test]
fn missing_end_marker_is_refused() {
    let contents = "add_executable(app)\n# cppsage:dependencies_start\n";
    assert_eq!(
        patch_dependency_section(contents, &strings(&["fmt/10.2.1"]), "app"),
        Err(Error::MarkerNotFound)
    );
}

#[test]
fn missing_markers_are_refused() {
    assert_eq!(patch_dependency_section("", &Vec::new(), "app"), Err(Error::MarkerNotFound));
    assert_eq!(
        patch_dependency_section("# cppsage:dependencies", &Vec::new(), "app"),
        Err(Error::MarkerNotFound)
    );
}

#[test]
fn end_marker_before_start_marker_is_refused() {
    let contents = "# cppsage:dependencies_end\n# cppsage:dependencies_start\n";
    assert_eq!(
        patch_dependency_section(contents, &strings(&["fmt/10.2.1"]), "app"),
        Err(Error::MarkerNotFound)
    );
}

#[test]
fn first_of_several_markers_counts() {
    let contents = "# cppsage:dependencies_start A # cppsage:dependencies_start B # cppsage:dependencies_end C # cppsage:dependencies_end";
    assert_eq!(
        patch_dependency_section(contents, &Vec::new(), "app"),
        Ok("# cppsage:dependencies_start\n\n# cppsage:dependencies_end C # cppsage:dependencies_end"
            .to_string())
    );
}

#[test]
fn patch_agrees_with_find_and_replace_range() {
    let files = [
        "a\n# cppsage:dependencies_start\n# cppsage:dependencies_end\nb",
        "# cppsage:dependencies_start# cppsage:dependencies_end",
        "é# cppsage:dependencies_startüü# cppsage:dependencies_endß",
        "no markers",
        "# cppsage:dependencies_end # cppsage:dependencies_start",
        "# cppsage:dependencies_start only",
    ];
    let lists = [strings(&[]), strings(&["fmt/10.2.1"]), strings(&["a/1", "b", "c/d/e"])];
    for contents in files {
        for deps in &lists {
            assert_eq!(
                patch_dependency_section(contents, deps, "own").ok(),
                by_replace_range(contents, deps, "own")
            );
        }
    }
}
