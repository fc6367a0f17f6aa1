use rnl::commands::doctor::{shorten_version, version_line};

#[test]
fn the_version_is_the_first_line_trimmed() {
    assert_eq!(version_line("  cargo 1.75.0 (1d8b05cdd 2023-11-20)\nmore\n"), "cargo 1.75.0 (1d8b05cdd 2023-11-20)");
    assert_eq!(version_line("v20.10.0\r\n"), "v20.10.0");
    assert_eq!(version_line(""), "");
}

#[test]
fn long_versions_are_cut_after_thirty_bytes() {
    let long = "g++ (Ubuntu 13.2.0-23ubuntu4) 13.2.0";
    assert_eq!(shorten_version(long), "g++ (Ubuntu 13.2.0-23ubuntu4) ...");
    let exact = "123456789012345678901234567890";
    assert_eq!(shorten_version(exact), exact);
    assert_eq!(shorten_version("pkg-config 0.29.2"), "pkg-config 0.29.2");
    let wide = "ééééééééééééééééé";
    assert_eq!(wide.len(), 34);
    assert_eq!(shorten_version(wide), "ééééééééééééééé...");
}
