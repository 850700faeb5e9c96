use backend_launcher::env::{sanitize, EnvOverrides, EnvVar};
use backend_launcher::error::LaunchError;
use backend_launcher::locate::Candidate;
use backend_launcher::platform::Platform;
use backend_launcher::port::PortLease;
use backend_launcher::spawn::{is_debug_mode, plan_launch, SpawnSpec, StdioMode};

fn strings(items: &[&str]) -> Vec<String> {
    items.iter().map(|s| s.to_string()).collect()
}

fn no_overrides() -> EnvOverrides {
    EnvOverrides { remove: Vec::new(), restored_path: None }
}

fn lease(port: u16) -> PortLease {
    PortLease::from_bound(Some(port)).unwrap()
}

#[test]
fn debug_flag_in_either_spelling() {
    assert!(is_debug_mode(&strings(&["launcher", "--debug"])));
    assert!(is_debug_mode(&strings(&["launcher", "/debug"])));
    assert!(is_debug_mode(&strings(&["--debug"])));
    assert!(is_debug_mode(&strings(&["launcher", "--verbose", "/debug", "x"])));
}

#[test]
fn no_debug_flag_without_an_exact_match() {
    assert!(!is_debug_mode(&Vec::new()));
    assert!(!is_debug_mode(&strings(&["launcher"])));
    assert!(!is_debug_mode(&strings(&["launcher", "-debug", "debug", "--DEBUG"])));
    assert!(!is_debug_mode(&strings(&["launcher", "--debug=1", " /debug"])));
}

#[test]
fn backend_gets_data_directory_and_port() {
    let spec = SpawnSpec::new(
        "/opt/app/lish-backend".to_string(),
        "/home/user/.local/share/app".to_string(),
        &lease(45678),
        no_overrides(),
        false,
        Platform::Linux,
    );
    assert_eq!(spec.program(), "/opt/app/lish-backend");
    assert_eq!(
        spec.args(),
        &strings(&["--datadir", "/home/user/.local/share/app", "--port", "45678"])
    );
    assert_eq!(spec.env(), &no_overrides());
}

#[test]
fn normal_mode_discards_output() {
    let spec = SpawnSpec::new(
        "b".to_string(),
        "d".to_string(),
        &lease(2000),
        no_overrides(),
        false,
        Platform::MacOs,
    );
    assert_eq!(spec.stdin(), StdioMode::Null);
    assert_eq!(spec.stdout(), StdioMode::Null);
    assert_eq!(spec.stderr(), StdioMode::Null);
    assert!(!spec.debug());
    assert!(!spec.hide_console());
}

#[test]
fn debug_mode_captures_output() {
    let spec = SpawnSpec::new(
        "b".to_string(),
        "d".to_string(),
        &lease(2000),
        no_overrides(),
        true,
        Platform::Linux,
    );
    assert_eq!(spec.stdin(), StdioMode::Null);
    assert_eq!(spec.stdout(), StdioMode::Piped);
    assert_eq!(spec.stderr(), StdioMode::Piped);
    assert!(spec.debug());
    assert!(!spec.hide_console());
}

#[test]
fn console_is_hidden_on_windows_outside_debug_mode_only() {
    for platform in [Platform::Windows, Platform::Linux, Platform::MacOs] {
        for debug in [false, true] {
            let spec = SpawnSpec::new(
                "b".to_string(),
                "d".to_string(),
                &lease(2000),
                no_overrides(),
                debug,
                platform,
            );
            assert_eq!(spec.hide_console(), platform == Platform::Windows && !debug);
        }
    }
}

#[test]
fn plan_uses_the_backend_that_was_found() {
    let env = vec![
        EnvVar { name: "APPIMAGE".to_string(), value: "/a.AppImage".to_string() },
        EnvVar { name: "APPIMAGE_ORIGINAL_PATH".to_string(), value: "/usr/bin".to_string() },
    ];
    let plan = plan_launch(
        true,
        Platform::Linux,
        &lease(40000),
        "/data".to_string(),
        Candidate { path: "/mnt/usr/bin/lish-backend".to_string(), exists: false },
        Some(Candidate { path: "/mnt/usr/lib/app/lish-backend".to_string(), exists: true }),
        &env,
    )
    .unwrap();
    assert_eq!(plan.program(), "/mnt/usr/lib/app/lish-backend");
    assert_eq!(plan.args(), &strings(&["--datadir", "/data", "--port", "40000"]));
    assert_eq!(plan.env(), &sanitize(&env, Platform::Linux));
    assert_eq!(plan.env().restored_path, Some("/usr/bin".to_string()));
    assert_eq!(plan.env().remove.len(), 14);
    assert_eq!(plan.stdout(), StdioMode::Piped);
    assert!(plan.debug());
    let same = SpawnSpec::new(
        "/mnt/usr/lib/app/lish-backend".to_string(),
        "/data".to_string(),
        &lease(40000),
        sanitize(&env, Platform::Linux),
        true,
        Platform::Linux,
    );
    assert_eq!(plan, same);
}

#[test]
fn plan_fails_where_no_backend_is_found() {
    let plan = plan_launch(
        false,
        Platform::Windows,
        &lease(40000),
        "C:\\data".to_string(),
        Candidate { path: "C:\\app\\lish-backend.exe".to_string(), exists: false },
        None,
        &Vec::new(),
    );
    assert_eq!(plan, Err(LaunchError::BackendNotFound));
}

#[test]
fn plan_on_windows_hides_the_console() {
    let plan = plan_launch(
        false,
        Platform::Windows,
        &lease(40000),
        "C:\\data".to_string(),
        Candidate { path: "C:\\app\\lish-backend.exe".to_string(), exists: true },
        None,
        &Vec::new(),
    )
    .unwrap();
    assert_eq!(plan.program(), "C:\\app\\lish-backend.exe");
    assert!(plan.hide_console());
    assert!(plan.env().is_empty());
    assert_eq!(plan.stdout(), StdioMode::Null);
}
