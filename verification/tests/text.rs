use xtask::text::same_text;

#[test]
fn same_text_on_equal_strings() {
    assert!(same_text("", ""));
    assert!(same_text("build", "build"));
    assert!(same_text("./bin", "./bin"));
    assert!(same_text("caf\u{e9} \u{1f980}", "caf\u{e9} \u{1f980}"));
}

#[test]
fn same_text_on_different_strings() {
    assert!(!same_text("build", "serve"));
    assert!(!same_text("build", "buil"));
    assert!(!same_text("buil", "build"));
    assert!(!same_text("", "x"));
    assert!(!same_text("x", ""));
    assert!(!same_text("build", "buile"));
    assert!(!same_text("Build", "build"));
}

#[test]
fn same_text_on_strings_of_equal_length_in_bytes() {
    // Two bytes each: one character of two bytes against two of one.
    assert!(!same_text("\u{e9}", "ab"));
    assert!(!same_text("\u{e9}", "\u{e8}"));
}
