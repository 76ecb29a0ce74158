use cppsage::manifest::render_manifest;
use cppsage::requirements::{package_name_len, parse_requirements};

fn strings(items: &[&str]) -> Vec<String> {
    items.iter().map(|s| s.to_string()).collect()
}

fn by_line_reader(text: &str) -> Vec<String> {
    text.lines()
        .map(|line| line.trim().to_string())
        .filter(|line| !line.is_empty() && !line.starts_with('#'))
        .collect()
}

#[test]
fn declaration_blank_line_and_comment() {
    assert_eq!(parse_requirements("fmt/10.2.1\n\n# comment"), strings(&["fmt/10.2.1"]));
}

#[test]
fn blank_and_comment_lines_are_left_out() {
    let text = "# first\n\n   \nfmt/10.2.1\n\t# indented comment\n#zlib/1.3\n";
    assert_eq!(parse_requirements(text), strings(&["fmt/10.2.1"]));
}

#[test]
fn surrounding_whitespace_is_stripped() {
    let text = "  fmt/10.2.1  \n\tzlib/1.3\r\n\u{00A0}boost/1.84.0\u{3000}\n";
    assert_eq!(parse_requirements(text), strings(&["fmt/10.2.1", "zlib/1.3", "boost/1.84.0"]));
}

#[test]
fn inner_whitespace_stays() {
    assert_eq!(parse_requirements(" a b/1 \n"), strings(&["a b/1"]));
}

#[test]
fn order_is_that_of_the_file() {
    let text = "zlib/1.3\nfmt/10.2.1\n# c\nabseil/20240116.1\nfmt/10.2.1\n";
    assert_eq!(
        parse_requirements(text),
        strings(&["zlib/1.3", "fmt/10.2.1", "abseil/20240116.1", "fmt/10.2.1"])
    );
}

#[test]
fn nothing_declared() {
    assert_eq!(parse_requirements(""), Vec::<String>::new());
    assert_eq!(parse_requirements("\n\n"), Vec::<String>::new());
    assert_eq!(parse_requirements("# only\n  # comments\n"), Vec::<String>::new());
    assert_eq!(
        parse_requirements("\n# Add your dependencies here\n# e.g. fmt/10.2.1\n"),
        Vec::<String>::new()
    );
}

#[test]
fn hash_inside_a_declaration_is_no_comment() {
    assert_eq!(parse_requirements("fmt/10.2.1#rev\n"), strings(&["fmt/10.2.1#rev"]));
}

#[test]
fn last_line_needs_no_line_feed() {
    assert_eq!(parse_requirements("a/1\nb/2"), strings(&["a/1", "b/2"]));
}

#[test]
fn parse_agrees_with_a_line_reader() {
    for text in [
        "",
        "\n",
        "fmt/10.2.1",
        "fmt/10.2.1\n",
        "fmt/10.2.1\r\nzlib/1.3\r\n",
        " a \n\n#b\n c/1 \n\u{2028} d \u{0085}\n",
        "#\n#\n",
        "x\r",
        "\r\n\r\n",
        "a\u{000B}\nb\u{000C}\n",
    ] {
        assert_eq!(parse_requirements(text), by_line_reader(text), "{:?}", text);
    }
}

#[test]
fn package_name_is_what_precedes_the_first_slash() {
    let fmt: Vec<char> = "fmt/10.2.1".chars().collect();
    assert_eq!(package_name_len(&fmt), 3);
    let two: Vec<char> = "a/b/c".chars().collect();
    assert_eq!(package_name_len(&two), 1);
    let none: Vec<char> = "zlib".chars().collect();
    assert_eq!(package_name_len(&none), 4);
    let empty: Vec<char> = "/1.0".chars().collect();
    assert_eq!(package_name_len(&empty), 0);
}

#[test]
fn manifest_lists_requirements_then_generators() {
    assert_eq!(
        render_manifest(&strings(&["fmt/10.2.1", "zlib/1.3"])),
        "[requires]\nfmt/10.2.1\nzlib/1.3\n\n[generators]\nCMakeDeps\nCMakeToolchain\n"
    );
}

#[test]
fn manifest_of_one_declaration() {
    assert_eq!(
        render_manifest(&strings(&["fmt/10.2.1"])),
        "[requires]\nfmt/10.2.1\n\n[generators]\nCMakeDeps\nCMakeToolchain\n"
    );
}

#[test]
fn manifest_without_declarations_has_both_sections() {
    assert_eq!(
        render_manifest(&Vec::new()),
        "[requires]\n\n[generators]\nCMakeDeps\nCMakeToolchain\n"
    );
}
