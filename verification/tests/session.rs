use blaupause::BlaupauseApp;
use blaupause::Platform;
use blaupause::get_string_from_buffer;
use blaupause::native_copy_args;
use blaupause::native_copy_command;

#[test]
fn a_fresh_session_has_placeholders_and_no_options() {
    let app = BlaupauseApp::new();
    assert_eq!(app.source_string, "[Source directory]");
    assert_eq!(app.target_string, "[Target directory]");
    assert_eq!(app.source_buffer, Some(String::new()));
    assert_eq!(app.target_buffer, Some(String::new()));
    assert!(!app.archive_copy);
    assert!(!app.delete_copy);
    assert!(!app.validate_copy);
    assert!(app.is_unix);
}

#[test]
fn default_equals_new() {
    let by_default = BlaupauseApp::default();
    let by_new = BlaupauseApp::new();
    assert_eq!(by_default.source_string, by_new.source_string);
    assert_eq!(by_default.target_string, by_new.target_string);
    assert_eq!(by_default.archive_copy, by_new.archive_copy);
    assert_eq!(by_default.delete_copy, by_new.delete_copy);
    assert_eq!(by_default.validate_copy, by_new.validate_copy);
    assert_eq!(by_default.is_unix, by_new.is_unix);
}

#[test]
fn get_string_from_buffer_shows_the_pick_or_nothing() {
    assert_eq!(get_string_from_buffer(&Some("/data/in".to_string())), "/data/in");
    assert_eq!(get_string_from_buffer(&None), "");
}

#[test]
fn choosing_a_directory_updates_buffer_and_text() {
    let mut app = BlaupauseApp::new();
    app.choose_source(Some("/data/in".to_string()));
    assert_eq!(app.source_buffer, Some("/data/in".to_string()));
    assert_eq!(app.source_string, "/data/in");
    app.choose_target(Some("/data/out".to_string()));
    assert_eq!(app.target_buffer, Some("/data/out".to_string()));
    assert_eq!(app.target_string, "/data/out");
}

#[test]
fn a_cancelled_pick_clears_the_text() {
    let mut app = BlaupauseApp::new();
    app.choose_source(Some("/data/in".to_string()));
    app.choose_source(None);
    assert_eq!(app.source_buffer, None);
    assert_eq!(app.source_string, "");
}

#[test]
fn ready_only_when_both_directories_exist() {
    let mut app = BlaupauseApp::new();
    assert!(!app.ready_to_copy());
    app.choose_source(Some(".".to_string()));
    assert!(!app.ready_to_copy());
    app.choose_target(Some("src".to_string()));
    assert!(app.ready_to_copy());
    app.choose_target(Some("Cargo.toml".to_string()));
    assert!(!app.ready_to_copy());
}

#[test]
fn the_current_command_follows_the_session_state() {
    let mut app = BlaupauseApp::new();
    app.choose_source(Some("/data/in".to_string()));
    app.choose_target(Some("/data/out".to_string()));
    app.archive_copy = true;
    app.delete_copy = true;
    app.validate_copy = true;
    let command = app.current_command();
    assert_eq!(command.executable, native_copy_command(Platform::Posix));
    assert_eq!(
        command.arguments,
        native_copy_args(
            Platform::Posix,
            &true,
            &true,
            &true,
            &"/data/in".to_string(),
            &"/data/out".to_string()
        )
    );
}

#[test]
fn switching_platform_switches_the_grammar() {
    let mut app = BlaupauseApp::new();
    app.choose_source(Some("/a/b/proj".to_string()));
    app.choose_target(Some("/x/y".to_string()));
    app.set_unix(false);
    assert!(!app.is_unix);
    let command = app.current_command();
    assert_eq!(command.executable, "ROBOCOPY");
    assert_eq!(command.arguments[0], "/a/b/proj");
    assert_eq!(command.arguments[1], "/x/y/proj");
    app.set_unix(true);
    let command = app.current_command();
    assert_eq!(command.executable, "rsync");
}
