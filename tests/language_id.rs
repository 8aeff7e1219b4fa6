use zed_ruby::detect_language_id;
use zed_ruby::language_id::extract_language_id;

#[test]
fn detects_language_from_fixture_path() {
    let language = detect_language_id(
        "tests/languages/ruby/runnables.rb",
        "languages/ruby/runnables.scm",
    );
    assert_eq!(language, "ruby");
}

#[test]
fn detects_language_with_windows_separators() {
    let language = detect_language_id(
        "tests\\languages\\erb\\fixtures.rb",
        "languages\\erb\\runnables.scm",
    );
    assert_eq!(language, "erb");
}

#[test]
fn language_from_one_path_only() {
    assert_eq!(detect_language_id("fixtures/a.rb", "languages/erb/x.scm"), "erb");
    assert_eq!(extract_language_id("a//languages/./ruby/x"), Some("ruby".to_string()));
    assert_eq!(extract_language_id("a/languages"), None);
    assert_eq!(extract_language_id("plain/path"), None);
}
