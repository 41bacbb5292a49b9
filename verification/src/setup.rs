//! The setup sequence's computed parts: which command launches the agent,
//! what the handshake declares, and how setup failures read. Spawning the
//! process and performing the two handshake calls is the surrounding
//! program's; any failure there is fatal and the runtime never starts.

use vstd::prelude::*;
use vstd::string::StringExecFns;

verus! {

/// How the agent subprocess is launched: a program, its arguments, and
/// extra environment variables. Standard input and output are piped.
pub struct LaunchPlan {
    pub program: String,
    pub args: Vec<String>,
    pub env: Vec<(String, String)>,
}

/// Select the launch command for the agent named by the caller. With CLI
/// authentication the agent's package runs through the package runner
/// (`npx`, or `npx.cmd` on Windows), with the permission mode pinned to
/// auto-accepting edits; otherwise the agent's locally installed binary
/// runs directly, with no extra arguments or environment.
pub fn launch_plan(use_cli_auth: bool, windows: bool, agent_binary: &str, agent_package: &str) -> (p:
    LaunchPlan)
    ensures
        use_cli_auth ==> {
            &&& windows ==> p.program@ == "npx.cmd"@
            &&& !windows ==> p.program@ == "npx"@
            &&& p.args@.len() == 1
            &&& p.args@[0]@ == agent_package@
            &&& p.env@.len() == 1
            &&& p.env@[0].0@ == "ACP_PERMISSION_MODE"@
            &&& p.env@[0].1@ == "acceptEdits"@
        },
        !use_cli_auth ==> {
            &&& p.program@ == agent_binary@
            &&& p.args@.len() == 0
            &&& p.env@.len() == 0
        },
{
    if use_cli_auth {
        let program = if windows {
            String::from_str("npx.cmd")
        } else {
            String::from_str("npx")
        };
        let mut args: Vec<String> = Vec::new();
        args.push(String::from_str(agent_package));
        let mut env: Vec<(String, String)> = Vec::new();
        env.push((String::from_str("ACP_PERMISSION_MODE"), String::from_str("acceptEdits")));
        LaunchPlan { program, args, env }
    } else {
        LaunchPlan {
            program: String::from_str(agent_binary),
            args: Vec::new(),
            env: Vec::new(),
        }
    }
}

/// What the initialize request declares about this host: text files can be
/// read and written, terminals are unsupported.
pub struct HostCapabilities {
    pub read_text_file: bool,
    pub write_text_file: bool,
    pub terminal: bool,
}

/// The capabilities declared in the handshake's initialize call.
pub fn declared_capabilities() -> (c: HostCapabilities)
    ensures
        c.read_text_file,
        c.write_text_file,
        !c.terminal,
{
    HostCapabilities { read_text_file: true, write_text_file: true, terminal: false }
}

/// What the new-session request supplies: the project root as working
/// directory, and no auxiliary servers.
pub struct SessionPlan {
    pub cwd: String,
    pub mcp_servers: Vec<String>,
}

pub fn new_session_plan(root: String) -> (s: SessionPlan)
    ensures
        s.cwd@ == root@,
        s.mcp_servers@.len() == 0,
{
    SessionPlan { cwd: root, mcp_servers: Vec::new() }
}

/// Which step of setup failed before the handshake could run.
#[derive(Clone, Copy, PartialEq, Eq, Structural, Debug)]
pub enum SetupStage {
    SpawnProcess,
    ChildStdout,
    ChildStdin,
}

/// How each pre-handshake setup failure reads.
pub fn setup_failure_message(stage: SetupStage) -> (m: String)
    ensures
        stage == SetupStage::SpawnProcess ==> m@ == "failed to spawn ACP process"@,
        stage == SetupStage::ChildStdout ==> m@ == "ACP child has no stdout"@,
        stage == SetupStage::ChildStdin ==> m@ == "ACP child has no stdin"@,
{
    match stage {
        SetupStage::SpawnProcess => String::from_str("failed to spawn ACP process"),
        SetupStage::ChildStdout => String::from_str("ACP child has no stdout"),
        SetupStage::ChildStdin => String::from_str("ACP child has no stdin"),
    }
}

/// How a failure to start the runtime's execution context reads.
pub fn runtime_thread_error(detail: &str) -> (m: String)
    ensures
        m@ == "failed to spawn ACP runtime thread: "@ + detail@,
{
    let mut m = String::from_str("failed to spawn ACP runtime thread: ");
    m.append(detail);
    m
}

/// How it reads when the runtime ends before reporting readiness.
pub fn runtime_aborted_error(detail: &str) -> (m: String)
    ensures
        m@ == "ACP runtime aborted before initialization: "@ + detail@,
{
    let mut m = String::from_str("ACP runtime aborted before initialization: ");
    m.append(detail);
    m
}

} // verus!
