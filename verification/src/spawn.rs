//! How the backend is started: program, arguments, environment and
//! standard streams, fixed once before the process is created.

use vstd::prelude::*;
use vstd::string::*;
use crate::env::{
    env_view, sanitize, sanitized, EnvOverrides, EnvOverridesView, EnvVar, EnvVarView,
};
use crate::error::LaunchError;
use crate::locate::{candidate_view, resolve, resolved, Candidate, CandidateView};
use crate::platform::Platform;
use crate::port::PortLease;
use crate::text::{decimal, render_decimal, texts};

verus! {

/// What a standard stream of the backend is connected to.
#[derive(Clone, Copy, Debug, PartialEq, Eq, Structural)]
pub enum StdioMode {
    /// Closed: reads end at once, writes are discarded.
    Null,
    /// A pipe whose other end the launcher holds.
    Piped,
}

/// Whether the launcher's arguments ask for debug mode: one of them is
/// `--debug` or `/debug`.
pub open spec fn debug_requested(args: Seq<Seq<char>>) -> bool {
    exists|i: int| 0 <= i < args.len() && is_debug_flag(#[trigger] args[i])
}

/// Whether `arg` is one of the two spellings of the debug flag.
pub open spec fn is_debug_flag(arg: Seq<char>) -> bool {
    arg == "--debug"@ || arg == "/debug"@
}

/// Tells from the launcher's arguments whether it runs in debug mode.
pub fn is_debug_mode(args: &Vec<String>) -> (debug: bool)
    ensures
        debug == debug_requested(texts(args@)),
{
    let dashed = String::from_str("--debug");
    let slashed = String::from_str("/debug");
    let mut i: usize = 0;
    while i < args.len()
        invariant
            0 <= i <= args.len(),
            dashed@ == "--debug"@,
            slashed@ == "/debug"@,
            forall|j: int| 0 <= j < i ==> !is_debug_flag(#[trigger] texts(args@)[j]),
        decreases args.len() - i,
    {
        if args[i] == dashed || args[i] == slashed {
            assert(is_debug_flag(texts(args@)[i as int]));
            return true;
        }
        i += 1;
    }
    false
}

/// Everything needed to start the backend. It is computed once, before the
/// process is created, and offers no way to change it afterwards.
#[derive(Clone, Debug, PartialEq, Eq)]
pub struct SpawnSpec {
    program: String,
    args: Vec<String>,
    env: EnvOverrides,
    stdin: StdioMode,
    stdout: StdioMode,
    stderr: StdioMode,
    debug: bool,
    hide_console: bool,
}

/// The mathematical content of a [`SpawnSpec`].
pub struct SpawnSpecView {
    /// Path of the backend executable.
    pub program: Seq<char>,
    /// The arguments, in order.
    pub args: Seq<Seq<char>>,
    /// The changes to the inherited environment.
    pub env: EnvOverridesView,
    pub stdin: StdioMode,
    pub stdout: StdioMode,
    pub stderr: StdioMode,
    /// Whether the launcher runs in debug mode.
    pub debug: bool,
    /// Whether the backend is created without a visible console window.
    pub hide_console: bool,
}

impl View for SpawnSpec {
    type V = SpawnSpecView;

    closed spec fn view(&self) -> SpawnSpecView {
        SpawnSpecView {
            program: self.program@,
            args: texts(self.args@),
            env: self.env@,
            stdin: self.stdin,
            stdout: self.stdout,
            stderr: self.stderr,
            debug: self.debug,
            hide_console: self.hide_console,
        }
    }
}

/// What the output streams of the backend are connected to: pipes in debug
/// mode, so that the output can be shown; nothing otherwise.
pub open spec fn output_mode(debug: bool) -> StdioMode {
    if debug {
        StdioMode::Piped
    } else {
        StdioMode::Null
    }
}

/// The arguments of the backend: its data directory and its port.
pub open spec fn backend_args(data_dir: Seq<char>, port: u16) -> Seq<Seq<char>> {
    seq!["--datadir"@, data_dir, "--port"@, decimal(port as nat)]
}

/// How the backend at `program` is started. Its input is always closed. A
/// console window is suppressed on Windows outside debug mode.
pub open spec fn spawn_spec(
    program: Seq<char>,
    data_dir: Seq<char>,
    port: u16,
    env: EnvOverridesView,
    debug: bool,
    platform: Platform,
) -> SpawnSpecView {
    SpawnSpecView {
        program,
        args: backend_args(data_dir, port),
        env,
        stdin: StdioMode::Null,
        stdout: output_mode(debug),
        stderr: output_mode(debug),
        debug,
        hide_console: platform == Platform::Windows && !debug,
    }
}

impl SpawnSpec {
    /// Fixes how the backend at `program` is started.
    pub fn new(
        program: String,
        data_dir: String,
        lease: &PortLease,
        env: EnvOverrides,
        debug: bool,
        platform: Platform,
    ) -> (spec: SpawnSpec)
        ensures
            spec@ == spawn_spec(program@, data_dir@, lease@, env@, debug, platform),
    {
        let mut args: Vec<String> = Vec::new();
        args.push(String::from_str("--datadir"));
        args.push(data_dir);
        args.push(String::from_str("--port"));
        args.push(render_decimal(lease.port() as u32));
        assert(texts(args@) =~= backend_args(data_dir@, lease@));
        let output = if debug {
            StdioMode::Piped
        } else {
            StdioMode::Null
        };
        let hide_console = match platform {
            Platform::Windows => !debug,
            _ => false,
        };
        SpawnSpec {
            program,
            args,
            env,
            stdin: StdioMode::Null,
            stdout: output,
            stderr: output,
            debug,
            hide_console,
        }
    }

    /// Path of the backend executable.
    pub fn program(&self) -> (program: &String)
        ensures
            program@ == self@.program,
    {
        &self.program
    }

    /// The arguments, in order.
    pub fn args(&self) -> (args: &Vec<String>)
        ensures
            texts(args@) == self@.args,
    {
        &self.args
    }

    /// The changes to the inherited environment.
    pub fn env(&self) -> (env: &EnvOverrides)
        ensures
            env@ == self@.env,
    {
        &self.env
    }

    /// What the backend's input is connected to.
    pub fn stdin(&self) -> (mode: StdioMode)
        ensures
            mode == self@.stdin,
    {
        self.stdin
    }

    /// What the backend's output is connected to.
    pub fn stdout(&self) -> (mode: StdioMode)
        ensures
            mode == self@.stdout,
    {
        self.stdout
    }

    /// What the backend's error output is connected to.
    pub fn stderr(&self) -> (mode: StdioMode)
        ensures
            mode == self@.stderr,
    {
        self.stderr
    }

    /// Whether the launcher runs in debug mode.
    pub fn debug(&self) -> (debug: bool)
        ensures
            debug == self@.debug,
    {
        self.debug
    }

    /// Whether the backend is created without a visible console window.
    pub fn hide_console(&self) -> (hide: bool)
        ensures
            hide == self@.hide_console,
    {
        self.hide_console
    }
}

/// Outcome of [`plan_launch`]: the backend is started from the place where
/// it was found, with the environment cleaned for the platform; where it
/// was not found, nothing is started.
pub open spec fn launch_plan(
    debug: bool,
    platform: Platform,
    port: u16,
    data_dir: Seq<char>,
    adjacent: CandidateView,
    resource: Option<CandidateView>,
    env: Seq<EnvVarView>,
) -> Result<SpawnSpecView, LaunchError> {
    match resolved(adjacent, resource) {
        Ok(program) => Ok(
            spawn_spec(program, data_dir, port, sanitized(env, platform), debug, platform),
        ),
        Err(e) => Err(e),
    }
}

/// Decides how the backend is started, from what the launcher found out
/// about its surroundings: whether it runs in debug mode, the platform, the
/// port, the data directory, the two places where the backend may be, and
/// the launcher's own environment.
pub fn plan_launch(
    debug: bool,
    platform: Platform,
    lease: &PortLease,
    data_dir: String,
    adjacent: Candidate,
    resource: Option<Candidate>,
    env: &Vec<EnvVar>,
) -> (plan: Result<SpawnSpec, LaunchError>)
    ensures
        match plan {
            Ok(spec) => launch_plan(
                debug,
                platform,
                lease@,
                data_dir@,
                adjacent@,
                candidate_view(resource),
                env_view(env@),
            ) == Ok::<SpawnSpecView, LaunchError>(spec@),
            Err(e) => launch_plan(
                debug,
                platform,
                lease@,
                data_dir@,
                adjacent@,
                candidate_view(resource),
                env_view(env@),
            ) == Err::<SpawnSpecView, LaunchError>(e),
        },
{
    match resolve(adjacent, resource) {
        Ok(program) => {
            let overrides = sanitize(env, platform);
            Ok(SpawnSpec::new(program, data_dir, lease, overrides, debug, platform))
        },
        Err(e) => Err(e),
    }
}

} // verus!
