use rev::text::{joined, contains, copy_strings, ends_with, strip_suffix, to_chars};

#[test]
fn contains_finds_a_run_anywhere() {
    assert!(contains("hello world", "hello"));
    assert!(contains("hello world", "o w"));
    assert!(contains("hello world", "world"));
    assert!(contains("hello", ""));
    assert!(contains("", ""));
    assert!(!contains("hello", "hello!"));
    assert!(!contains("hello", "lol"));
    assert!(!contains("", "a"));
}

#[test]
fn contains_tells_upper_from_lower_case() {
    assert!(!contains("template plugin", "Template Plugin"));
}

#[test]
fn contains_counts_characters_not_bytes() {
    assert!(contains("grüße an élise", "ße an é"));
    assert!(!contains("grüße", "use"));
}

#[test]
fn ends_with_looks_at_the_end_only() {
    assert!(ends_with("Library.dll", ".dll"));
    assert!(ends_with(".dll", ".dll"));
    assert!(ends_with("x", ""));
    assert!(!ends_with("Library.dll.bak", ".dll"));
    assert!(!ends_with("dll", ".dll"));
    assert!(!ends_with("Library.DLL", ".dll"));
}

#[test]
fn strip_suffix_takes_off_one_suffix() {
    assert_eq!(strip_suffix("App.csproj", ".csproj"), "App");
    assert_eq!(strip_suffix("My.App.csproj", ".csproj"), "My.App");
    assert_eq!(strip_suffix("a.csproj.csproj", ".csproj"), "a.csproj");
    assert_eq!(strip_suffix(".csproj", ".csproj"), "");
    assert_eq!(strip_suffix("Größe.csproj", ".csproj"), "Größe");
}

#[test]
fn strip_suffix_keeps_a_text_that_ends_otherwise() {
    assert_eq!(strip_suffix("App.vbproj", ".csproj"), "App.vbproj");
    assert_eq!(strip_suffix("", ".csproj"), "");
}

#[test]
fn joined_joins_in_order() {
    assert_eq!(joined("ab", "cd"), "abcd");
    assert_eq!(joined("", "cd"), "cd");
    assert_eq!(joined("ab", ""), "ab");
}

#[test]
fn to_chars_keeps_every_character() {
    assert_eq!(to_chars("aß€"), vec!['a', 'ß', '€']);
    assert!(to_chars("").is_empty());
}

#[test]
fn copy_strings_copies_in_order() {
    let v = vec!["one".to_string(), "two".to_string()];
    assert_eq!(copy_strings(&v), v);
}
