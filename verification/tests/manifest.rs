use build_worker::extract_crate_name;

#[test]
fn name_line_with_quotes() {
    let toml = "[package]\nname = \"demo\"\nversion = \"0.1.0\"\n";
    assert_eq!(extract_crate_name(toml), "demo");
}

#[test]
fn name_line_with_leading_blanks() {
    let toml = "[package]\n  name = \"my-pkg\"\n";
    assert_eq!(extract_crate_name(toml), "my-pkg");
}

#[test]
fn name_line_without_quotes() {
    let toml = "name = demo\n";
    assert_eq!(extract_crate_name(toml), "demo");
}

#[test]
fn name_line_without_trailing_newline() {
    let toml = "name = \"tail\"";
    assert_eq!(extract_crate_name(toml), "tail");
}

#[test]
fn missing_name_yields_unknown() {
    let toml = "[package]\nversion = \"0.1.0\"\n";
    assert_eq!(extract_crate_name(toml), "unknown");
}

#[test]
fn empty_manifest_yields_unknown() {
    assert_eq!(extract_crate_name(""), "unknown");
}

#[test]
fn name_without_space_before_equals_is_not_a_declaration() {
    let toml = "name= \"demo\"\n";
    assert_eq!(extract_crate_name(toml), "unknown");
}

#[test]
fn value_stops_at_second_equals() {
    let toml = "name = a=b\n";
    assert_eq!(extract_crate_name(toml), "a");
}

#[test]
fn first_declaration_wins() {
    let toml = "name = \"first\"\nname = \"second\"\n";
    assert_eq!(extract_crate_name(toml), "first");
}

#[test]
fn carriage_return_line_endings_are_handled() {
    let toml = "[package]\r\nname = \"crlf-pkg\"\r\nversion = \"1\"\r\n";
    assert_eq!(extract_crate_name(toml), "crlf-pkg");
}

#[test]
fn surrounding_quotes_are_stripped_repeatedly() {
    let toml = "name = \"\"odd\"\"\n";
    assert_eq!(extract_crate_name(toml), "odd");
}

#[test]
fn extraction_is_repeatable() {
    let toml = "[package]\nname = \"again\"\n";
    let first = extract_crate_name(toml);
    let second = extract_crate_name(toml);
    assert_eq!(first, second);
    assert_eq!(first, "again");
}
