//! Planning how the resolved worker artifact is spawned.
//!
//! Spawning itself is an operating-system effect performed by the host; this
//! module fixes every decision the spawn depends on: which program runs,
//! from which working directory, what happens to its standard streams, and
//! which platform process-creation flags suppress a console window.  The
//! teardown side is planned here too.

use vstd::prelude::*;
use crate::fspath::FsPath;
use crate::resolver::{LaunchMode, ResolvedLocation};

verus! {

/// The platform the worker is spawned on, as far as spawning differs.
#[derive(Clone, Copy, Debug, PartialEq, Eq)]
pub enum Platform {
    Windows,
    Other,
}

/// What a standard stream of the worker is connected to.
#[derive(Clone, Copy, Debug, PartialEq, Eq)]
pub enum StreamMode {
    /// Discarded (null device): production, where output must not pile up.
    Discard,
    /// Captured through a pipe: development diagnostics.
    Piped,
    /// Left connected to the parent's stream.
    Inherit,
}

/// Windows process-creation flag: no console window for the new process.
pub const CREATE_NO_WINDOW: u32 = 0x0800_0000;

/// Windows process-creation flag: detach the process from the console of
/// its parent.
pub const DETACHED_PROCESS: u32 = 0x0000_0008;

/// Everything the host needs to issue the spawn.
#[derive(Debug)]
pub struct LaunchPlan {
    /// `Some(interpreter)` runs the artifact as a script through that
    /// interpreter; `None` runs the artifact directly.
    pub interpreter: Option<String>,
    /// The resolved script or executable.
    pub artifact: FsPath,
    /// Directory the worker is started in.
    pub working_dir: FsPath,
    pub stdin: StreamMode,
    pub stdout: StreamMode,
    pub stderr: StreamMode,
    /// Raw process-creation flags; meaningful on Windows only, zero
    /// elsewhere.
    pub creation_flags: u32,
}

/// The process-creation flags for a mode on a platform.
pub open spec fn spec_creation_flags(mode: LaunchMode, platform: Platform) -> u32 {
    match platform {
        Platform::Windows => match mode {
            LaunchMode::Development => CREATE_NO_WINDOW | DETACHED_PROCESS,
            LaunchMode::Production => CREATE_NO_WINDOW,
        },
        Platform::Other => 0u32,
    }
}

/// Plans the spawn of a resolved artifact: interpreter for development,
/// direct execution for production; working directory is the artifact's
/// parent, falling back to the executable directory; output suppressed in
/// production and on Windows, piped for development diagnostics elsewhere.
pub fn build_launch_plan(loc: &ResolvedLocation, exe_dir: &FsPath, platform: Platform) -> (p:
    LaunchPlan)
    ensures
        p.artifact@ == loc.artifact@,
        p.working_dir@ == (if loc.artifact@.len() >= 2 {
            loc.artifact@.drop_last()
        } else {
            exe_dir@
        }),
        loc.mode is Development ==> (p.interpreter matches Some(s) && s@ == "python"@),
        loc.mode is Production ==> p.interpreter is None,
        p.creation_flags == spec_creation_flags(loc.mode, platform),
        loc.mode is Development && platform is Windows ==> p.stdin is Discard && p.stdout
            is Discard && p.stderr is Discard,
        loc.mode is Development && platform is Other ==> p.stdin is Inherit && p.stdout is Piped
            && p.stderr is Piped,
        loc.mode is Production ==> p.stdin is Inherit && p.stdout is Discard && p.stderr
            is Discard,
{
    let working_dir = loc.artifact.parent_or(exe_dir);
    let artifact = loc.artifact.duplicate();
    match loc.mode {
        LaunchMode::Development => {
            let flags: u32 = if matches!(platform, Platform::Windows) {
                CREATE_NO_WINDOW | DETACHED_PROCESS
            } else {
                0u32
            };
            let (stdin, stdout, stderr) = if matches!(platform, Platform::Windows) {
                (StreamMode::Discard, StreamMode::Discard, StreamMode::Discard)
            } else {
                (StreamMode::Inherit, StreamMode::Piped, StreamMode::Piped)
            };
            LaunchPlan {
                interpreter: Some(String::from_str("python")),
                artifact,
                working_dir,
                stdin,
                stdout,
                stderr,
                creation_flags: flags,
            }
        },
        LaunchMode::Production => {
            let flags: u32 = if matches!(platform, Platform::Windows) {
                CREATE_NO_WINDOW
            } else {
                0u32
            };
            LaunchPlan {
                interpreter: None,
                artifact,
                working_dir,
                stdin: StreamMode::Inherit,
                stdout: StreamMode::Discard,
                stderr: StreamMode::Discard,
                creation_flags: flags,
            }
        },
    }
}

/// The live worker process: its opaque OS identifier, the mode it was
/// launched in, and the working directory it was started from.
#[derive(Debug)]
pub struct WorkerHandle {
    pub pid: u32,
    pub mode: LaunchMode,
    pub working_dir: FsPath,
}

/// On the platform where a terminate signal is unreliable, teardown also
/// force-kills the worker by executable name after the primary
/// terminate-and-wait; returns that name, or `None` where the signal is
/// enough.
pub fn force_kill_target(platform: Platform) -> (r: Option<String>)
    ensures
        platform is Windows ==> (r matches Some(n) && n@ == "backend_server.exe"@),
        platform is Other ==> r is None,
{
    match platform {
        Platform::Windows => Some(String::from_str("backend_server.exe")),
        Platform::Other => None,
    }
}

} // verus!
