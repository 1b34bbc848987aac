use mlw::command::{check_paths, get_command_config, launch_command, ConfigFile, RestartError};

fn config(script_type: Option<&str>, paths: &[&str], extra: Option<&[&str]>) -> ConfigFile {
    ConfigFile {
        path: paths.iter().map(|p| p.to_string()).collect(),
        script_args: extra.map(|e| e.iter().map(|a| a.to_string()).collect()),
        delay: 2,
        verbose: None,
        ignore_pattern: None,
        script_type: script_type.map(|s| s.to_string()),
    }
}

#[test]
fn known_script_types() {
    assert_eq!(get_command_config("python").unwrap(), ("python3", vec![]));
    assert_eq!(get_command_config("python2").unwrap(), ("python2", vec![]));
    assert_eq!(get_command_config("node").unwrap(), ("node", vec![]));
    assert_eq!(get_command_config("lua").unwrap(), ("lua", vec![]));
    assert_eq!(get_command_config("php").unwrap(), ("php", vec![]));
    assert_eq!(get_command_config("go").unwrap(), ("go", vec!["run"]));
    assert_eq!(get_command_config("rust").unwrap(), ("cargo", vec!["run", "--"]));
    assert_eq!(get_command_config("sh").unwrap(), ("sh", vec![]));
}

#[test]
fn unknown_script_type_is_an_error() {
    assert_eq!(
        get_command_config("cobol"),
        Err(RestartError::UnsupportedScriptType("cobol".to_string()))
    );
    assert!(get_command_config("Python").is_err());
    assert!(get_command_config("").is_err());
}

#[test]
fn node_launch_has_no_prefix() {
    let c = launch_command(&config(Some("node"), &["./src"], Some(&["--dev"]))).unwrap();
    assert_eq!(c.program, "node");
    assert_eq!(c.args, vec!["./src".to_string(), "--dev".to_string()]);
}

#[test]
fn go_launch_starts_with_run() {
    let c = launch_command(&config(Some("go"), &["./src"], Some(&["--dev"]))).unwrap();
    assert_eq!(c.program, "go");
    assert_eq!(c.args, vec!["run".to_string(), "./src".to_string(), "--dev".to_string()]);
}

#[test]
fn rust_launch_separates_cargo_arguments() {
    let c = launch_command(&config(Some("rust"), &["a", "b"], None)).unwrap();
    assert_eq!(c.program, "cargo");
    assert_eq!(
        c.args,
        vec!["run".to_string(), "--".to_string(), "a".to_string(), "b".to_string()]
    );
}

#[test]
fn python_launch_maps_to_python3() {
    let c = launch_command(&config(Some("python"), &["app.py"], Some(&[]))).unwrap();
    assert_eq!(c.program, "python3");
    assert_eq!(c.args, vec!["app.py".to_string()]);
}

#[test]
fn missing_script_type_is_an_error() {
    let r = launch_command(&config(None, &["./src"], None));
    assert_eq!(r.err(), Some(RestartError::MissingScriptType));
}

#[test]
fn unsupported_script_type_fails_launch() {
    let r = launch_command(&config(Some("ruby"), &["./src"], None));
    assert_eq!(r.err(), Some(RestartError::UnsupportedScriptType("ruby".to_string())));
}

#[test]
fn error_descriptions() {
    assert_eq!(RestartError::MissingScriptType.describe(), "Missing script type in config");
    assert_eq!(
        RestartError::UnsupportedScriptType("ruby".to_string()).describe(),
        "Unsupported script type: ruby"
    );
}

#[test]
fn path_checks() {
    assert!(!check_paths(&vec![]));
    assert!(check_paths(&vec![true]));
    assert!(check_paths(&vec![true, true, true]));
    assert!(!check_paths(&vec![true, false, true]));
    assert!(!check_paths(&vec![false]));
}
