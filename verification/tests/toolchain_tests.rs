use banna::toolchain::{
    archive_top_level, command_diagnostic, missing_tool_error, node_archive,
    portable_node_notice, select_archive_from_manifest, sha256_hex, verify_download,
    ArchiveFormat,
};

#[test]
fn maps_supported_platform_archives() {
    assert_eq!(node_archive("linux", "x86_64").expect("linux archive").target, "linux-x64");
    assert_eq!(node_archive("macos", "aarch64").expect("macOS archive").target, "darwin-arm64");
    assert_eq!(
        node_archive("windows", "x86_64").expect("Windows archive").format,
        ArchiveFormat::Zip
    );
    assert!(node_archive("freebsd", "x86_64").is_err());
}

#[test]
fn selects_only_the_exact_platform_archive_and_hash() {
    let manifest = "aaaaaaaaaaaaaaaaaaaaaaaaaaaaaaaaaaaaaaaaaaaaaaaaaaaaaaaaaaaaaaaa  node-v24.18.1-linux-arm64.tar.gz\nbbbbbbbbbbbbbbbbbbbbbbbbbbbbbbbbbbbbbbbbbbbbbbbbbbbbbbbbbbbbbbbb  node-v24.18.1-linux-x64.tar.gz\n";
    let selected = select_archive_from_manifest(
        manifest,
        node_archive("linux", "x86_64").expect("archive"),
    )
    .expect("matching archive");
    assert_eq!(selected.0, "b".repeat(64));
    assert_eq!(selected.1, "node-v24.18.1-linux-x64.tar.gz");
}

#[test]
fn unsupported_platform_error_names_it() {
    let error = node_archive("freebsd", "x86_64").err().expect("unsupported");
    assert_eq!(
        error,
        "automatic npm bootstrap is not supported on freebsd/x86_64; install Node.js 24 LTS from https://nodejs.org/download"
    );
}

#[test]
fn manifest_lines_with_bad_hashes_or_extra_words_are_skipped() {
    let archive = node_archive("windows", "aarch64").expect("archive");
    let manifest = "zzzzzzzzzzzzzzzzzzzzzzzzzzzzzzzzzzzzzzzzzzzzzzzzzzzzzzzzzzzzzzzz  node-v24.1.0-win-arm64.zip\n\
cccccccccccccccccccccccccccccccccccccccccccccccccccccccccccccccc  node-v24.1.0-win-arm64.zip extra\n\
ddddddddddddddddddddddddddddddddddddddddddddddddddddddddddddddd  node-v24.1.0-win-arm64.zip\n\
EEEEEEEEEEEEEEEEEEEEEEEEEEEEEEEEEEEEEEEEEEEEEEEEEEEEEEEEEEEEEEEE\tnode-v24.1.0-win-arm64.zip\r\n";
    let selected = select_archive_from_manifest(manifest, archive).expect("last line matches");
    assert_eq!(selected.0, "E".repeat(64));
    assert!(select_archive_from_manifest("", archive).is_none());
}

#[test]
fn archive_top_level_strips_the_extension() {
    assert_eq!(
        archive_top_level("node-v24.1.0-linux-x64.tar.gz", ".tar.gz").as_deref(),
        Some("node-v24.1.0-linux-x64")
    );
    assert_eq!(archive_top_level(".zip", ".zip"), None);
    assert_eq!(archive_top_level("a/b.zip", ".zip"), None);
    assert_eq!(archive_top_level("a\\b.zip", ".zip"), None);
    assert_eq!(archive_top_level("node.tar.gz", ".zip"), None);
}

#[test]
fn missing_tool_errors_carry_guidance() {
    assert_eq!(
        missing_tool_error("npm"),
        "required tool 'npm' was not found on PATH. Banna could not use or bootstrap Node.js 24 LTS; check network access to https://nodejs.org and BANNA_TOOLCHAIN_DIR permissions"
    );
    assert_eq!(
        missing_tool_error("git"),
        "required tool 'git' was not found on PATH. Install the required executable and make sure it is available on PATH"
    );
}

#[test]
fn diagnostics_prefer_stderr() {
    assert_eq!(command_diagnostic(b" out ", b"  err\n"), "err");
    assert_eq!(command_diagnostic(b" out ", b"  \n"), "out");
}

#[test]
fn sha256_of_abc_is_the_published_vector() {
    assert_eq!(
        sha256_hex(b"abc"),
        "ba7816bf8f01cfea414140de5dae2223b00361a396177a9cb410ff61f20015ad"
    );
}

#[test]
fn downloads_are_checked_against_the_manifest_hash() {
    let expected = "BA7816BF8F01CFEA414140DE5DAE2223B00361A396177A9CB410FF61F20015AD";
    assert!(verify_download(b"abc", expected, "node.tar.gz").is_ok());
    let error = verify_download(b"abd", expected, "node.tar.gz").err().expect("mismatch");
    assert!(error.starts_with("portable Node.js checksum mismatch for node.tar.gz: expected BA78"));
}

#[test]
fn the_install_notice_names_the_version() {
    assert_eq!(
        portable_node_notice("node-v24.1.0-linux-x64", "linux", "x86_64"),
        "npm was not found; downloaded and verified portable Node.js v24.1.0 for linux/x86_64 into Banna's private tool cache"
    );
    assert!(portable_node_notice("custom", "linux", "x86_64").contains("Node.js LTS for"));
}
