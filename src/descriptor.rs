//! What to run, and how the child's standard streams are wired.
use vstd::prelude::*;

verus! {

/// Where the child's standard input comes from.
#[derive(PartialEq, Eq, Structural, Clone, Copy, Debug)]
pub enum StdinMode {
    /// Nothing: the child reads end-of-file at once.
    Empty,
    /// A pipe that a worker fills with the given bytes, then closes.
    Fed,
}

/// Where one of the child's output streams goes.
#[derive(PartialEq, Eq, Structural, Clone, Copy, Debug)]
pub enum OutputMode {
    /// A pipe drained into a bounded sink.
    Captured,
    /// The parent's own stream.
    Inherited,
}

/// How the three standard streams of one child are wired.
#[derive(PartialEq, Eq, Structural, Clone, Copy, Debug)]
pub struct StdioPlan {
    pub stdin: StdinMode,
    pub stdout: OutputMode,
    pub stderr: OutputMode,
}

/// A program to run: its path, arguments, working directory and environment
/// overrides (applied in order over the inherited environment, or over an
/// empty one when `env_clear` is set), and which output streams to capture.
pub struct ProcessDescriptor {
    pub program: String,
    pub args: Vec<String>,
    pub cwd: Option<String>,
    pub env: Vec<(String, String)>,
    pub env_clear: bool,
    pub capture_stdout: bool,
    pub capture_stderr: bool,
}

impl ProcessDescriptor {
    /// Runs `program` with no arguments, in the caller's directory and
    /// environment, capturing both output streams.
    pub fn new(program: String) -> (r: ProcessDescriptor)
        ensures
            r.program@ == program@,
            r.args@ == Seq::<String>::empty(),
            r.cwd is None,
            r.env@ == Seq::<(String, String)>::empty(),
            !r.env_clear,
            r.capture_stdout,
            r.capture_stderr,
    {
        ProcessDescriptor {
            program,
            args: Vec::new(),
            cwd: None,
            env: Vec::new(),
            env_clear: false,
            capture_stdout: true,
            capture_stderr: true,
        }
    }

    /// Appends an argument.
    pub fn arg(&mut self, a: String)
        ensures
            final(self).args@ == old(self).args@.push(a),
            final(self).program == old(self).program,
            final(self).cwd == old(self).cwd,
            final(self).env == old(self).env,
            final(self).env_clear == old(self).env_clear,
            final(self).capture_stdout == old(self).capture_stdout,
            final(self).capture_stderr == old(self).capture_stderr,
    {
        self.args.push(a);
    }

    /// Overrides one environment variable; a later override of the same key wins.
    pub fn env(&mut self, key: String, value: String)
        ensures
            final(self).env@ == old(self).env@.push((key, value)),
            final(self).program == old(self).program,
            final(self).args == old(self).args,
            final(self).cwd == old(self).cwd,
            final(self).env_clear == old(self).env_clear,
            final(self).capture_stdout == old(self).capture_stdout,
            final(self).capture_stderr == old(self).capture_stderr,
    {
        self.env.push((key, value));
    }
}

/// The wiring of the streams: input is fed exactly when bytes are supplied,
/// and each output is captured exactly when the descriptor asks for it.
pub open spec fn stdio_plan_of(capture_stdout: bool, capture_stderr: bool, has_stdin: bool) -> StdioPlan {
    StdioPlan {
        stdin: if has_stdin {
            StdinMode::Fed
        } else {
            StdinMode::Empty
        },
        stdout: if capture_stdout {
            OutputMode::Captured
        } else {
            OutputMode::Inherited
        },
        stderr: if capture_stderr {
            OutputMode::Captured
        } else {
            OutputMode::Inherited
        },
    }
}

/// Decides how the child's streams are wired.
pub fn plan_stdio(desc: &ProcessDescriptor, has_stdin: bool) -> (r: StdioPlan)
    ensures
        r == stdio_plan_of(desc.capture_stdout, desc.capture_stderr, has_stdin),
{
    StdioPlan {
        stdin: if has_stdin {
            StdinMode::Fed
        } else {
            StdinMode::Empty
        },
        stdout: if desc.capture_stdout {
            OutputMode::Captured
        } else {
            OutputMode::Inherited
        },
        stderr: if desc.capture_stderr {
            OutputMode::Captured
        } else {
            OutputMode::Inherited
        },
    }
}

} // verus!
