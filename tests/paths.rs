use unc::paths::{contains_text, equal_text, is_binary_extension, is_binary_file, should_skip_path};

#[test]
fn test_is_binary_file() {
    assert!(is_binary_file("file.exe"));
    assert!(is_binary_file("lib.dll"));
    assert!(is_binary_file("lib.so"));
    assert!(is_binary_file("lib.dylib"));
    assert!(!is_binary_file("file.txt"));
    assert!(!is_binary_file("file.rs"));
    assert!(!is_binary_file("Cargo.toml"));
}

#[test]
fn test_should_skip_path() {
    assert!(should_skip_path("src/target/debug/app"));
    assert!(should_skip_path("project\\target\\release\\app.exe"));
    assert!(should_skip_path("file.exe"));
    assert!(!should_skip_path("src/main.rs"));
    assert!(!should_skip_path("Cargo.toml"));
}

#[test]
fn binary_extensions_listed() {
    for e in ["exe", "dll", "so", "dylib", "bin", "o", "a"] {
        assert!(is_binary_extension(e));
    }
    assert!(!is_binary_extension("rs"));
    assert!(!is_binary_extension(""));
    assert!(!is_binary_extension("exe2"));
}

#[test]
fn extension_is_taken_from_the_file_name() {
    assert!(is_binary_file("dir/lib.a"));
    assert!(!is_binary_file("dir.exe/file"));
    assert!(!is_binary_file(".so"));
    assert!(!is_binary_file("noext"));
}

#[test]
fn text_search() {
    assert!(contains_text("a/target/b", "/target/"));
    assert!(!contains_text("target/", "/target/"));
    assert!(contains_text("x", ""));
    assert!(equal_text("abc", "abc"));
    assert!(!equal_text("abc", "abd"));
}
