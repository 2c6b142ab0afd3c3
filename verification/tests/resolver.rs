use blaupause::CopyEndpoints;
use blaupause::CopyOptions;
use blaupause::Platform;
use blaupause::native_copy_args;
use blaupause::native_copy_command;
use blaupause::resolve;

fn args_of(
    platform: Platform,
    preserve_metadata: bool,
    mirror_delete: bool,
    validate_content: bool,
    source: &str,
    target: &str,
) -> Vec<String> {
    native_copy_args(
        platform,
        &preserve_metadata,
        &mirror_delete,
        &validate_content,
        &source.to_string(),
        &target.to_string(),
    )
}

fn as_strs(args: &[String]) -> Vec<&str> {
    args.iter().map(|s| s.as_str()).collect()
}

#[test]
fn posix_executable_is_rsync() {
    assert_eq!(native_copy_command(Platform::Posix), "rsync");
}

#[test]
fn windows_executable_is_robocopy() {
    assert_eq!(native_copy_command(Platform::Windows), "ROBOCOPY");
}

#[test]
fn posix_base_arguments_without_any_option() {
    let args = args_of(Platform::Posix, false, false, false, "/data/in", "/data/out");
    assert_eq!(
        as_strs(&args),
        vec!["-h", "-r", "-l", "-v", "-P", "-W", "/data/in", "/data/out"]
    );
}

#[test]
fn posix_all_options_merge_archive_into_leading_cluster() {
    let args = args_of(Platform::Posix, true, true, true, "/data/in", "/data/out");
    assert_eq!(
        as_strs(&args),
        vec![
            "-ha",
            "-r",
            "-l",
            "-v",
            "-P",
            "-W",
            "--delete-during",
            "--checksum",
            "/data/in",
            "/data/out"
        ]
    );
}

#[test]
fn posix_delete_flag_absent_without_mirror_delete() {
    for &(preserve, validate) in &[(false, false), (false, true), (true, false), (true, true)] {
        let args = args_of(Platform::Posix, preserve, false, validate, "/a", "/b");
        assert_eq!(args.iter().filter(|a| *a == "--delete-during").count(), 0);
    }
}

#[test]
fn posix_delete_flag_appears_exactly_once_with_mirror_delete() {
    for &(preserve, validate) in &[(false, false), (false, true), (true, false), (true, true)] {
        let args = args_of(Platform::Posix, preserve, true, validate, "/a", "/b");
        assert_eq!(args.iter().filter(|a| *a == "--delete-during").count(), 1);
    }
}

#[test]
fn posix_checksum_flag_follows_validate_content() {
    let without = args_of(Platform::Posix, false, false, false, "/a", "/b");
    assert_eq!(without.iter().filter(|a| *a == "--checksum").count(), 0);
    let with = args_of(Platform::Posix, false, false, true, "/a", "/b");
    assert_eq!(with.iter().filter(|a| *a == "--checksum").count(), 1);
}

#[test]
fn posix_order_is_flags_then_source_then_target() {
    let args = args_of(Platform::Posix, true, true, true, "/src dir", "/tgt dir");
    let n = args.len();
    assert_eq!(args[n - 2], "/src dir");
    assert_eq!(args[n - 1], "/tgt dir");
    for flag in &args[..n - 2] {
        assert!(flag.starts_with('-'));
    }
}

#[test]
fn windows_checksum_flag_never_appears_even_when_requested() {
    for &(preserve, delete) in &[(false, false), (false, true), (true, false), (true, true)] {
        let args = args_of(Platform::Windows, preserve, delete, true, "/a/b/proj", "/x/y");
        assert_eq!(args.iter().filter(|a| *a == "--checksum").count(), 0);
    }
}

#[test]
fn windows_all_switches_with_both_options() {
    let args = args_of(Platform::Windows, true, true, true, "/a/b/proj", "/x/y");
    assert_eq!(
        as_strs(&args),
        vec![
            "/a/b/proj",
            "/x/y/proj",
            "/E",
            "/ETA",
            "/MT:2",
            "/R:0",
            "/V",
            "/COPYALL",
            "/PURGE"
        ]
    );
}

#[test]
fn windows_base_arguments_without_any_option() {
    let args = args_of(Platform::Windows, false, false, false, "/a/b/proj", "/x/y");
    assert_eq!(
        as_strs(&args),
        vec!["/a/b/proj", "/x/y/proj", "/E", "/ETA", "/MT:2", "/R:0", "/V"]
    );
}

#[test]
fn windows_target_is_rewritten_to_target_slash_basename() {
    let args = args_of(Platform::Windows, false, false, false, "/a/b/proj", "/x/y");
    assert_eq!(args[1], "/x/y/proj");
}

#[test]
fn windows_target_rewrite_ignores_trailing_separators() {
    let args = args_of(Platform::Windows, false, false, false, "/a/b/proj//", "/x/y");
    assert_eq!(args[1], "/x/y/proj");
}

#[test]
fn windows_target_rewrite_does_not_double_a_separator() {
    let args = args_of(Platform::Windows, false, false, false, "/a/b/proj", "/x/y/");
    assert_eq!(args[1], "/x/y/proj");
}

#[test]
fn windows_target_rewrite_falls_back_for_a_root_source() {
    let args = args_of(Platform::Windows, false, false, false, "/", "/x/y");
    assert_eq!(args[1], "/x/y/copy");
}

#[test]
fn windows_target_rewrite_falls_back_for_an_empty_source() {
    let args = args_of(Platform::Windows, false, false, false, "", "/x/y");
    assert_eq!(args[1], "/x/y/copy");
}

#[test]
fn windows_order_is_source_target_then_switches() {
    let args = args_of(Platform::Windows, true, true, false, "/a/b/proj", "/x/y");
    assert_eq!(args[0], "/a/b/proj");
    assert_eq!(args[1], "/x/y/proj");
    for switch in &args[2..] {
        assert!(switch.starts_with('/') && !switch.contains("proj"));
    }
}

#[test]
fn resolving_twice_yields_identical_commands() {
    let options = CopyOptions {
        preserve_metadata: true,
        mirror_delete: false,
        validate_content: true,
    };
    for platform in [Platform::Posix, Platform::Windows] {
        let endpoints = CopyEndpoints {
            source: "/data/in".to_string(),
            target: "/data/out".to_string(),
        };
        let first = resolve(platform, &options, &endpoints);
        let second = resolve(platform, &options, &endpoints);
        assert_eq!(first.executable, second.executable);
        assert_eq!(first.arguments, second.arguments);
    }
}

#[test]
fn resolve_and_native_copy_args_agree() {
    let options = CopyOptions {
        preserve_metadata: false,
        mirror_delete: true,
        validate_content: false,
    };
    let endpoints = CopyEndpoints {
        source: "/data/in".to_string(),
        target: "/data/out".to_string(),
    };
    let command = resolve(Platform::Posix, &options, &endpoints);
    assert_eq!(command.executable, native_copy_command(Platform::Posix));
    assert_eq!(
        command.arguments,
        args_of(Platform::Posix, false, true, false, "/data/in", "/data/out")
    );
}
