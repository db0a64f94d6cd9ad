//! The image lookup: which command line is run for an image reference, and
//! what the end of that process means.
use vstd::prelude::*;
use vstd::string::*;

verus! {

/// Where a standard stream of the child process goes.
#[derive(Clone, Copy, Debug, PartialEq, Eq, Structural)]
pub enum StreamSink {
    /// The child shares the parent's stream.
    Inherit,
    /// The stream is thrown away.
    Discard,
    /// The stream is collected for the parent.
    Capture,
}

/// A command line, ready to be run as a child process.
#[derive(Debug, PartialEq, Eq)]
pub struct Invocation {
    /// Path or name of the executable.
    pub program: String,
    /// The arguments, each passed verbatim as one argument.
    pub args: Vec<String>,
    pub stdout: StreamSink,
    pub stderr: StreamSink,
}

impl Invocation {
    /// The arguments as sequences of characters.
    pub open spec fn spec_args(&self) -> Seq<Seq<char>> {
        Seq::new(self.args@.len(), |i: int| self.args@[i]@)
    }

    /// `self` is `<cmd> manifest <image>` with both output streams discarded.
    pub open spec fn is_manifest_lookup(&self, cmd: Seq<char>, image: Seq<char>) -> bool {
        &&& self.program@ == cmd
        &&& self.spec_args() == seq!["manifest"@, image]
        &&& self.stdout == StreamSink::Discard
        &&& self.stderr == StreamSink::Discard
    }
}

/// How an attempt to run the lookup tool ended.
#[derive(Debug, PartialEq, Eq)]
pub enum ProcessEnd {
    /// The process ran and ended; `code` is its exit code, `None` where it
    /// was ended by a signal.
    Exited { code: Option<i32> },
    /// The operating system could not start or await the process.
    SpawnFailed { error: String },
}

/// Result of a lookup.
#[derive(Debug, PartialEq, Eq)]
pub enum Outcome {
    /// The tool exited with code 0.
    Exists,
    /// The tool ended in any other way.
    NotFound,
    /// The tool could not be run; `error` is the operating system's message.
    LookupFailed { error: String },
}

impl Outcome {
    /// The outcome that a process end stands for.
    pub open spec fn spec_of(end: ProcessEnd) -> Outcome {
        match end {
            ProcessEnd::Exited { code } => if code == Some(0i32) {
                Outcome::Exists
            } else {
                Outcome::NotFound
            },
            ProcessEnd::SpawnFailed { error } => Outcome::LookupFailed { error },
        }
    }

    /// Maps the end of the lookup process to the lookup's outcome: exit code
    /// 0 means the image exists, every other end of a started process means
    /// it was not found, and a process that never started is a failed
    /// lookup that keeps the error.
    pub fn of(end: ProcessEnd) -> (outcome: Outcome)
        ensures
            outcome == Outcome::spec_of(end),
    {
        match end {
            ProcessEnd::Exited { code } => match code {
                Some(c) => if c == 0 {
                    Outcome::Exists
                } else {
                    Outcome::NotFound
                },
                None => Outcome::NotFound,
            },
            ProcessEnd::SpawnFailed { error } => Outcome::LookupFailed { error },
        }
    }
}

/// Looks images up with one fixed external tool.
#[derive(Debug)]
pub struct ImageChecker {
    cmd: String,
}

impl View for ImageChecker {
    type V = Seq<char>;

    /// The path or name of the lookup tool.
    closed spec fn view(&self) -> Seq<char> {
        self.cmd@
    }
}

impl Clone for ImageChecker {
    fn clone(&self) -> (copy: Self)
        ensures
            copy@ == self@,
    {
        ImageChecker { cmd: self.cmd.clone() }
    }
}

impl ImageChecker {
    /// A checker that runs `cmd` as its lookup tool.
    pub fn new(cmd: &str) -> (checker: Self)
        ensures
            checker@ == cmd@,
    {
        ImageChecker { cmd: String::from_str(cmd) }
    }

    /// The tool's path or name.
    pub fn cmd(&self) -> (cmd: &str)
        ensures
            cmd@ == self@,
    {
        self.cmd.as_str()
    }

    /// The command line that looks `image` up: the tool, the word
    /// `manifest`, then the image reference as it was given, empty or not.
    /// Neither output stream of the child is kept.
    pub fn invocation(&self, image: &str) -> (inv: Invocation)
        ensures
            inv.is_manifest_lookup(self@, image@),
    {
        let mut args: Vec<String> = Vec::new();
        args.push(String::from_str("manifest"));
        args.push(String::from_str(image));
        let inv = Invocation {
            program: self.cmd.clone(),
            args,
            stdout: StreamSink::Discard,
            stderr: StreamSink::Discard,
        };
        assert(inv.spec_args() =~= seq!["manifest"@, image@]);
        inv
    }
}

} // verus!
