use cpm::text::{
    contains_text, decimal_text, file_name, join_path, normalize_path_separator, same_text,
    starts_with_text, strip_suffix_all, trim_trailing_separators, windows_os,
};

#[test]
fn decimal_texts() {
    assert_eq!(decimal_text(0), "0");
    assert_eq!(decimal_text(7), "7");
    assert_eq!(decimal_text(46), "46");
    assert_eq!(decimal_text(1000), "1000");
}

#[test]
fn comparisons() {
    assert!(same_text("nt/msvc", "nt/msvc"));
    assert!(!same_text("nt/msvc", "nt/msv"));
    assert!(windows_os("windows"));
    assert!(!windows_os("Windows"));
    assert!(starts_with_text("codemodel-v2-1a2b.json", "codemodel-v2-"));
    assert!(!starts_with_text("codemodel-v2", "codemodel-v2-"));
    assert!(contains_text("abc fmt:x64", "fmt"));
    assert!(contains_text("abc", ""));
    assert!(!contains_text("fm", "fmt"));
}

#[test]
fn paths() {
    assert_eq!(join_path("/p", "build", false), "/p/build");
    assert_eq!(join_path("/p/", "build", false), "/p/build");
    assert_eq!(join_path("", "build", false), "build");
    assert_eq!(join_path("C:\\p", "Build", true), "C:\\p\\Build");
    assert_eq!(join_path("C:/p/", "Build", true), "C:/p/Build");
    assert_eq!(normalize_path_separator("C:/a/b", true), "C:\\a\\b");
    assert_eq!(normalize_path_separator("C:/a/b", false), "C:/a/b");
    assert_eq!(file_name("C:\\tools\\vcpkg", true), "vcpkg");
    assert_eq!(file_name("C:\\tools\\vcpkg", false), "C:\\tools\\vcpkg");
    assert_eq!(file_name("/opt/vcpkg", false), "vcpkg");
    assert_eq!(trim_trailing_separators("C:\\vcpkg\\/"), "C:\\vcpkg");
    assert_eq!(strip_suffix_all("C:\\v\\vcpkg.exe\\vcpkg.exe", "\\vcpkg.exe"), "C:\\v");
    assert_eq!(strip_suffix_all("C:\\v", "\\vcpkg.exe"), "C:\\v");
}
