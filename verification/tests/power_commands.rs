use backend_launcher::platform::Platform;
use backend_launcher::power::{build_helper_script, power_command, HelperCommand, PowerAction};
use backend_launcher::text::render_decimal;

fn strings(items: &[&str]) -> Vec<String> {
    items.iter().map(|s| s.to_string()).collect()
}

#[test]
fn decimal_of_small_and_large_numbers() {
    assert_eq!(render_decimal(0), "0");
    assert_eq!(render_decimal(7), "7");
    assert_eq!(render_decimal(10), "10");
    assert_eq!(render_decimal(1024), "1024");
    assert_eq!(render_decimal(65535), "65535");
    assert_eq!(render_decimal(4294967295), "4294967295");
}

#[test]
fn decimal_agrees_with_the_standard_library() {
    let samples: [u32; 8] = [1, 9, 11, 99, 100, 12345, 1000000, 2147483648];
    for n in samples {
        assert_eq!(render_decimal(n), n.to_string());
    }
}

#[test]
fn windows_restart_waits_then_reboots() {
    let command = Platform::Windows.restart(4242);
    assert_eq!(
        command,
        HelperCommand {
            program: "powershell".to_string(),
            args: strings(&[
                "-WindowStyle",
                "Hidden",
                "-Command",
                "Wait-Process -Id 4242 -ErrorAction SilentlyContinue; shutdown /r /t 0",
            ]),
            detached: true,
        }
    );
}

#[test]
fn windows_shutdown_waits_then_powers_off() {
    let command = Platform::Windows.shutdown(4242);
    assert_eq!(command.program, "powershell");
    assert_eq!(
        command.args,
        strings(&[
            "-WindowStyle",
            "Hidden",
            "-Command",
            "Wait-Process -Id 4242 -ErrorAction SilentlyContinue; shutdown /s /t 0",
        ])
    );
    assert!(command.detached);
}

#[test]
fn linux_restart_tries_service_manager_first() {
    let command = Platform::Linux.restart(31337);
    assert_eq!(command.program, "sh");
    assert_eq!(
        command.args,
        strings(&[
            "-c",
            "tail --pid=31337 -f /dev/null 2>/dev/null; systemctl reboot 2>/dev/null || shutdown -r now 2>/dev/null || sudo shutdown -r now",
        ])
    );
    assert!(command.detached);
}

#[test]
fn linux_shutdown_tries_service_manager_first() {
    let command = Platform::Linux.shutdown(1);
    assert_eq!(command.program, "sh");
    assert_eq!(
        command.args,
        strings(&[
            "-c",
            "tail --pid=1 -f /dev/null 2>/dev/null; systemctl poweroff 2>/dev/null || shutdown -h now 2>/dev/null || sudo shutdown -h now",
        ])
    );
    assert!(command.detached);
}

#[test]
fn linux_fallbacks_come_in_order() {
    let script = build_helper_script(Platform::Linux, PowerAction::Restart, 5);
    let service = script.find("systemctl reboot").unwrap();
    let direct = script.find("|| shutdown -r now").unwrap();
    let elevated = script.find("|| sudo shutdown -r now").unwrap();
    assert!(service < direct);
    assert!(direct < elevated);
}

#[test]
fn macos_asks_system_events_and_waits_for_it() {
    let restart = Platform::MacOs.restart(77);
    assert_eq!(restart.program, "osascript");
    assert_eq!(
        restart.args,
        strings(&["-e", "tell application \"System Events\" to restart"])
    );
    assert!(!restart.detached);
    let shutdown = Platform::MacOs.shutdown(77);
    assert_eq!(shutdown.program, "osascript");
    assert_eq!(
        shutdown.args,
        strings(&["-e", "tell application \"System Events\" to shut down"])
    );
    assert!(!shutdown.detached);
}

#[test]
fn helper_script_holds_the_process_id_in_its_wait() {
    let pids: [u32; 5] = [0, 9, 4242, 65536, 4294967295];
    for pid in pids {
        let digits = pid.to_string();
        for action in [PowerAction::Restart, PowerAction::Shutdown] {
            let windows = power_command(Platform::Windows, action, pid);
            let script = windows.args.last().unwrap();
            assert!(script.contains(&digits));
            assert!(script.starts_with(&format!("Wait-Process -Id {} ", digits)));
            let linux = power_command(Platform::Linux, action, pid);
            let script = linux.args.last().unwrap();
            assert!(script.contains(&digits));
            assert!(script.starts_with(&format!("tail --pid={} ", digits)));
        }
    }
}

#[test]
fn restart_and_shutdown_are_the_two_actions() {
    for platform in [Platform::Windows, Platform::Linux, Platform::MacOs] {
        assert_eq!(
            platform.restart(12),
            power_command(platform, PowerAction::Restart, 12)
        );
        assert_eq!(
            platform.shutdown(12),
            power_command(platform, PowerAction::Shutdown, 12)
        );
        assert_ne!(platform.restart(12), platform.shutdown(12));
    }
}

#[test]
fn backend_file_name_per_platform() {
    assert_eq!(Platform::Windows.backend_file_name(), "lish-backend.exe");
    assert_eq!(Platform::Linux.backend_file_name(), "lish-backend");
    assert_eq!(Platform::MacOs.backend_file_name(), "lish-backend");
}
