//! Restarting and shutting down the machine once the launcher has exited.
//!
//! The launcher cannot reboot the machine while it is still tearing itself
//! down. On Windows and Linux it therefore starts a helper that first waits
//! for the launcher's own process to disappear and only then issues the
//! power command. On macOS the system's own automation orders the two.

use vstd::prelude::*;
use vstd::string::*;
use crate::platform::Platform;
use crate::text::{decimal, lemma_middle_occurs, occurs_in, render_decimal, texts};

verus! {

/// What the user asked the machine to do.
#[derive(Clone, Copy, Debug, PartialEq, Eq, Structural)]
pub enum PowerAction {
    Restart,
    Shutdown,
}

/// A command for the caller to run.
#[derive(Clone, Debug, PartialEq, Eq)]
pub struct HelperCommand {
    /// The program to start.
    pub program: String,
    /// Its arguments, in order.
    pub args: Vec<String>,
    /// `true`: start it and let it run on its own. `false`: run it and wait
    /// for it to finish.
    pub detached: bool,
}

/// The mathematical content of a [`HelperCommand`].
pub struct HelperCommandView {
    pub program: Seq<char>,
    pub args: Seq<Seq<char>>,
    pub detached: bool,
}

impl View for HelperCommand {
    type V = HelperCommandView;

    open spec fn view(&self) -> HelperCommandView {
        HelperCommandView {
            program: self.program@,
            args: texts(self.args@),
            detached: self.detached,
        }
    }
}

/// The part of the helper script that stands before the launcher's process
/// id: the start of the wait. Empty on macOS, where nothing waits.
pub open spec fn script_before_pid(platform: Platform) -> Seq<char> {
    match platform {
        Platform::Windows => "Wait-Process -Id "@,
        Platform::Linux => "tail --pid="@,
        Platform::MacOs => Seq::empty(),
    }
}

/// The part of the helper script that stands after the launcher's process
/// id: the end of the wait, then the power command. On Linux the service
/// manager is tried first, then the shutdown utility, then the same under
/// elevated privilege.
pub open spec fn script_after_pid(platform: Platform, action: PowerAction) -> Seq<char> {
    match (platform, action) {
        (Platform::Windows, PowerAction::Restart) => {
            " -ErrorAction SilentlyContinue; shutdown /r /t 0"@
        },
        (Platform::Windows, PowerAction::Shutdown) => {
            " -ErrorAction SilentlyContinue; shutdown /s /t 0"@
        },
        (Platform::Linux, PowerAction::Restart) => {
            " -f /dev/null 2>/dev/null; systemctl reboot 2>/dev/null || shutdown -r now 2>/dev/null || sudo shutdown -r now"@
        },
        (Platform::Linux, PowerAction::Shutdown) => {
            " -f /dev/null 2>/dev/null; systemctl poweroff 2>/dev/null || shutdown -h now 2>/dev/null || sudo shutdown -h now"@
        },
        (Platform::MacOs, PowerAction::Restart) => {
            "tell application \"System Events\" to restart"@
        },
        (Platform::MacOs, PowerAction::Shutdown) => {
            "tell application \"System Events\" to shut down"@
        },
    }
}

/// The wait predicate of the helper script: the command that blocks until
/// the process `pid` is gone, up to and including the process id.
pub open spec fn wait_predicate(platform: Platform, pid: nat) -> Seq<char> {
    script_before_pid(platform) + decimal(pid)
}

/// The script handed to the helper program.
pub open spec fn helper_script(platform: Platform, action: PowerAction, pid: nat) -> Seq<char> {
    match platform {
        Platform::MacOs => script_after_pid(platform, action),
        _ => wait_predicate(platform, pid) + script_after_pid(platform, action),
    }
}

/// The command that carries out `action` on `platform` for a launcher whose
/// process id is `pid`.
pub open spec fn helper_command(
    platform: Platform,
    action: PowerAction,
    pid: nat,
) -> HelperCommandView {
    let script = helper_script(platform, action, pid);
    match platform {
        Platform::Windows => HelperCommandView {
            program: "powershell"@,
            args: seq!["-WindowStyle"@, "Hidden"@, "-Command"@, script],
            detached: true,
        },
        Platform::Linux => HelperCommandView {
            program: "sh"@,
            args: seq!["-c"@, script],
            detached: true,
        },
        Platform::MacOs => HelperCommandView {
            program: "osascript"@,
            args: seq!["-e"@, script],
            detached: false,
        },
    }
}

fn text_before_pid(platform: Platform) -> (s: &'static str)
    ensures
        s@ == script_before_pid(platform),
{
    match platform {
        Platform::Windows => "Wait-Process -Id ",
        Platform::Linux => "tail --pid=",
        Platform::MacOs => {
            let s = "";
            proof {
                reveal_strlit("");
                assert(s@ =~= Seq::<char>::empty());
            }
            s
        },
    }
}

fn text_after_pid(platform: Platform, action: PowerAction) -> (s: &'static str)
    ensures
        s@ == script_after_pid(platform, action),
{
    match (platform, action) {
        (Platform::Windows, PowerAction::Restart) => {
            " -ErrorAction SilentlyContinue; shutdown /r /t 0"
        },
        (Platform::Windows, PowerAction::Shutdown) => {
            " -ErrorAction SilentlyContinue; shutdown /s /t 0"
        },
        (Platform::Linux, PowerAction::Restart) => {
            " -f /dev/null 2>/dev/null; systemctl reboot 2>/dev/null || shutdown -r now 2>/dev/null || sudo shutdown -r now"
        },
        (Platform::Linux, PowerAction::Shutdown) => {
            " -f /dev/null 2>/dev/null; systemctl poweroff 2>/dev/null || shutdown -h now 2>/dev/null || sudo shutdown -h now"
        },
        (Platform::MacOs, PowerAction::Restart) => "tell application \"System Events\" to restart",
        (Platform::MacOs, PowerAction::Shutdown) => {
            "tell application \"System Events\" to shut down"
        },
    }
}

/// Builds the script for the helper program.
pub fn build_helper_script(platform: Platform, action: PowerAction, pid: u32) -> (script: String)
    ensures
        script@ == helper_script(platform, action, pid as nat),
{
    match platform {
        Platform::MacOs => String::from_str(text_after_pid(platform, action)),
        _ => {
            let mut script = String::from_str(text_before_pid(platform));
            let digits = render_decimal(pid);
            script.append(digits.as_str());
            script.append(text_after_pid(platform, action));
            script
        },
    }
}

/// Builds the command that carries out `action` once the process `pid` has
/// exited.
pub fn power_command(platform: Platform, action: PowerAction, pid: u32) -> (command: HelperCommand)
    ensures
        command@ == helper_command(platform, action, pid as nat),
{
    let script = build_helper_script(platform, action, pid);
    let mut args: Vec<String> = Vec::new();
    let program = match platform {
        Platform::Windows => {
            args.push(String::from_str("-WindowStyle"));
            args.push(String::from_str("Hidden"));
            args.push(String::from_str("-Command"));
            "powershell"
        },
        Platform::Linux => {
            args.push(String::from_str("-c"));
            "sh"
        },
        Platform::MacOs => {
            args.push(String::from_str("-e"));
            "osascript"
        },
    };
    args.push(script);
    let detached = match platform {
        Platform::MacOs => false,
        _ => true,
    };
    let command = HelperCommand { program: String::from_str(program), args, detached };
    assert(command@.args =~= helper_command(platform, action, pid as nat).args);
    command
}

impl Platform {
    /// The command that restarts the machine once the launcher with process
    /// id `pid` has exited.
    pub fn restart(self, pid: u32) -> (command: HelperCommand)
        ensures
            command@ == helper_command(self, PowerAction::Restart, pid as nat),
    {
        power_command(self, PowerAction::Restart, pid)
    }

    /// The command that powers the machine off once the launcher with
    /// process id `pid` has exited.
    pub fn shutdown(self, pid: u32) -> (command: HelperCommand)
        ensures
            command@ == helper_command(self, PowerAction::Shutdown, pid as nat),
    {
        power_command(self, PowerAction::Shutdown, pid)
    }
}

/// On Windows and Linux the helper command's last argument is a script that
/// holds the launcher's process id, written in decimal, inside its wait
/// predicate, and the wait predicate opens the script.
pub proof fn lemma_helper_waits_for_launcher(platform: Platform, action: PowerAction, pid: u32)
    requires
        platform != Platform::MacOs,
    ensures
        helper_command(platform, action, pid as nat).args.last() == helper_script(
            platform,
            action,
            pid as nat,
        ),
        occurs_in(decimal(pid as nat), wait_predicate(platform, pid as nat)),
        occurs_in(decimal(pid as nat), helper_script(platform, action, pid as nat)),
        helper_script(platform, action, pid as nat).subrange(
            0,
            wait_predicate(platform, pid as nat).len() as int,
        ) == wait_predicate(platform, pid as nat),
{
    let before = script_before_pid(platform);
    let digits = decimal(pid as nat);
    let after = script_after_pid(platform, action);
    lemma_middle_occurs(before, digits, after);
    lemma_middle_occurs(before, digits, Seq::empty());
    assert(before + digits + Seq::<char>::empty() =~= before + digits);
    assert((before + digits + after).subrange(0, (before + digits).len() as int) =~= before
        + digits);
}

} // verus!
