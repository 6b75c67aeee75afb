use command_bridge::bridge::{
    command_name, exit_code, invoke, lookup_command, main_window_config, registered_commands,
    Command, Invocation, Reply,
};
use command_bridge::dialog::{confirm_overwrite, overwrite_dialog_request};
use command_bridge::errors::{DialogUnavailableError, PathResolutionError, StartupError};
use command_bridge::greeting::greet;
use command_bridge::paths::{get_app_data_dir, get_root_path, parent_of};

#[test]
fn greet_formats_name() {
    assert_eq!(greet("World"), "Hello, World! You've been greeted from Rust!");
}

#[test]
fn greet_contains_name_verbatim() {
    let name = "Sonic the Hedgehog";
    let r = greet(name);
    assert!(r.contains(name));
    assert_eq!(greet(name), r);
}

#[test]
fn greet_empty_name() {
    assert_eq!(greet(""), "Hello, ! You've been greeted from Rust!");
}

#[test]
fn root_path_is_parent_of_exe() {
    assert_eq!(get_root_path(Some("/usr/bin/app")), Ok("/usr/bin".to_string()));
}

#[test]
fn root_path_of_top_level_exe() {
    assert_eq!(get_root_path(Some("/app")), Ok("/".to_string()));
}

#[test]
fn root_path_of_root_fails() {
    assert_eq!(get_root_path(Some("/")), Err(PathResolutionError::NoParent));
}

#[test]
fn root_path_of_bare_name_fails() {
    assert_eq!(get_root_path(Some("app")), Err(PathResolutionError::NoParent));
}

#[test]
fn root_path_without_resolution_fails() {
    assert_eq!(get_root_path(None), Err(PathResolutionError::Unresolved));
}

#[test]
fn root_path_matches_app_data_dir() {
    assert_eq!(get_root_path(Some("/opt/tool/bin/x")), get_app_data_dir(Some("/opt/tool/bin/x")));
    assert_eq!(get_root_path(None), get_app_data_dir(None));
}

#[test]
fn parent_of_trailing_separator() {
    assert_eq!(parent_of("/usr/"), Ok("/usr".to_string()));
}

#[test]
fn confirm_overwrite_yes() {
    assert_eq!(confirm_overwrite(Some(true)), Ok(true));
}

#[test]
fn confirm_overwrite_no() {
    assert_eq!(confirm_overwrite(Some(false)), Ok(false));
}

#[test]
fn confirm_overwrite_unavailable() {
    assert_eq!(confirm_overwrite(None), Err(DialogUnavailableError));
}

#[test]
fn overwrite_dialog_fixed_title_and_message() {
    let req = overwrite_dialog_request("Overwrite saved data?");
    assert_eq!(req.title, "Files Already Exist");
    assert_eq!(req.body, "Overwrite saved data?");
}

#[test]
fn registered_command_set_is_exactly_three() {
    let cmds = registered_commands();
    assert_eq!(
        cmds,
        vec![Command::Greet, Command::GetRootPath, Command::ConfirmOverwrite]
    );
    let names: Vec<String> = cmds.iter().map(command_name).collect();
    assert_eq!(names, vec!["greet", "get_root_path", "confirm_overwrite"]);
}

#[test]
fn lookup_resolves_each_registered_name() {
    for cmd in registered_commands() {
        assert_eq!(lookup_command(&command_name(&cmd)), Some(cmd));
    }
}

#[test]
fn lookup_rejects_unregistered_names() {
    assert_eq!(lookup_command("quit"), None);
    assert_eq!(lookup_command(""), None);
    assert_eq!(lookup_command("Greet"), None);
    assert_eq!(lookup_command("greet "), None);
}

#[test]
fn invoke_dispatches_greet() {
    let r = invoke(&Invocation::Greet { name: "World".to_string() });
    assert_eq!(r, Reply::Greeting("Hello, World! You've been greeted from Rust!".to_string()));
}

#[test]
fn invoke_dispatches_root_path() {
    let r = invoke(&Invocation::GetRootPath { resolved_exe: Some("/usr/bin/app".to_string()) });
    assert_eq!(r, Reply::RootPath(Ok("/usr/bin".to_string())));
    let r = invoke(&Invocation::GetRootPath { resolved_exe: None });
    assert_eq!(r, Reply::RootPath(Err(PathResolutionError::Unresolved)));
}

#[test]
fn invoke_dispatches_confirm_overwrite() {
    let r = invoke(&Invocation::ConfirmOverwrite { response: Some(false) });
    assert_eq!(r, Reply::Confirmation(Ok(false)));
    let r = invoke(&Invocation::ConfirmOverwrite { response: None });
    assert_eq!(r, Reply::Confirmation(Err(DialogUnavailableError)));
}

#[test]
fn main_window_is_fixed() {
    let cfg = main_window_config();
    assert_eq!(cfg.label, "main");
    assert_eq!(cfg.title, "Sonic: Lock & Load");
    assert_eq!(cfg.entry, "index.html");
}

#[test]
fn normal_shutdown_exits_zero() {
    assert_eq!(exit_code(Ok(())), 0);
}

#[test]
fn startup_failure_exits_nonzero() {
    assert_ne!(exit_code(Err(StartupError::RuntimeInit)), 0);
    assert_ne!(exit_code(Err(StartupError::WindowCreation)), 0);
}

#[test]
fn error_messages_are_fixed() {
    assert_eq!(
        PathResolutionError::Unresolved.message(),
        "executable path could not be resolved"
    );
    assert_eq!(
        PathResolutionError::NoParent.message(),
        "executable path has no parent directory"
    );
    assert_eq!(DialogUnavailableError.message(), "dialog subsystem is unavailable");
    assert_eq!(StartupError::RuntimeInit.message(), "runtime failed to initialize");
    assert_eq!(
        StartupError::WindowCreation.message(),
        "main window could not be created"
    );
}
