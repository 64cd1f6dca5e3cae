//! The description of a process to start, before anything is started.

use vstd::prelude::*;

verus! {

/// What becomes of one standard stream of a new process.
#[derive(Clone, Copy, Debug, PartialEq, Eq, Structural)]
pub enum StdioMode {
    /// The stream is closed to the process.
    Null,
    /// The stream is captured by the launcher.
    Piped,
}

/// Everything the operating system is asked when a process is started.
#[derive(Clone, Debug, PartialEq, Eq)]
pub struct CommandPlan {
    /// The program to run.
    pub program: String,
    /// Its arguments, in order.
    pub args: Vec<String>,
    /// The user to run as, where the platform enforces one.
    pub uid: Option<u32>,
    /// The group to run as, where the platform enforces one.
    pub gid: Option<u32>,
    /// Whether the process leads a process group of its own.
    pub own_process_group: bool,
    pub stdin: StdioMode,
    pub stdout: StdioMode,
    pub stderr: StdioMode,
    /// Variables added to the environment, in order; a later one wins.
    pub env: Vec<(String, String)>,
}

/// A plan as a mathematical value.
pub struct CommandPlanView {
    pub program: Seq<char>,
    pub args: Seq<Seq<char>>,
    pub uid: Option<u32>,
    pub gid: Option<u32>,
    pub own_process_group: bool,
    pub stdin: StdioMode,
    pub stdout: StdioMode,
    pub stderr: StdioMode,
    pub env: Seq<(Seq<char>, Seq<char>)>,
}

/// The arguments as character sequences.
pub open spec fn texts(args: Seq<String>) -> Seq<Seq<char>> {
    args.map_values(|s: String| s@)
}

/// The environment bindings as pairs of character sequences.
pub open spec fn bindings(env: Seq<(String, String)>) -> Seq<(Seq<char>, Seq<char>)> {
    env.map_values(|b: (String, String)| (b.0@, b.1@))
}

impl View for CommandPlan {
    type V = CommandPlanView;

    open spec fn view(&self) -> CommandPlanView {
        CommandPlanView {
            program: self.program@,
            args: texts(self.args@),
            uid: self.uid,
            gid: self.gid,
            own_process_group: self.own_process_group,
            stdin: self.stdin,
            stdout: self.stdout,
            stderr: self.stderr,
            env: bindings(self.env@),
        }
    }
}

} // verus!
