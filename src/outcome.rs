use vstd::prelude::*;

use crate::command::{OutputRule, SpawnPlan};

verus! {

/// One of the three standard streams of a child process.
#[derive(Clone, Copy, Debug, PartialEq, Eq, Structural)]
pub enum Stream {
    Stdin,
    Stdout,
    Stderr,
}

/// Why a call produced no normal result.
#[derive(Clone, Debug, PartialEq, Eq)]
pub enum InvokeError {
    /// The project's marker file is missing; no process was started.
    ProjectMarkerNotFound,
    /// The interpreter could not be started.
    ProcessSpawnError { binary: String, cause: String },
    /// Writing to or reading from one of the child's streams failed.
    IoStreamError { stream: Stream, cause: String },
    /// The child exited with a failure status; `stderr` is what it printed.
    NonZeroExit { stderr: String },
    /// The child did not finish in time and was stopped.
    TimedOut,
    /// The child's exit status could not be learned.
    WaitFailed { cause: String },
}

/// What the host observed of one child process that was started.
#[derive(Debug, PartialEq, Eq)]
pub struct ChildReport {
    /// Writing the planned bytes to stdin and closing it; the error text on failure.
    pub stdin: Result<(), String>,
    /// Everything the child wrote to stdout, or why it could not be read.
    pub stdout: Result<String, String>,
    /// Everything the child wrote to stderr, or why it could not be read.
    pub stderr: Result<String, String>,
    /// Whether the child exited with a success status, or why its exit
    /// status could not be learned.
    pub exit: Result<bool, String>,
    /// Whether the child was stopped because it ran too long.
    pub timed_out: bool,
}

/// The name of a stream as it appears in messages.
pub open spec fn stream_name_of(stream: Stream) -> Seq<char> {
    match stream {
        Stream::Stdin => "stdin"@,
        Stream::Stdout => "stdout"@,
        Stream::Stderr => "stderr"@,
    }
}

/// The fixed text shown when the project's marker file is missing.
pub open spec fn not_found_message() -> Seq<char> {
    "Artisan command not found"@
}

/// The text shown to the user for an error.
pub open spec fn message_of(e: InvokeError) -> Seq<char> {
    match e {
        InvokeError::ProjectMarkerNotFound => not_found_message(),
        InvokeError::ProcessSpawnError { binary, cause } => "Failed to start "@ + binary@ + ": "@
            + cause@,
        InvokeError::IoStreamError { stream, cause } => "Error "@ + stream_name_of(stream) + ": "@
            + cause@,
        InvokeError::NonZeroExit { stderr } => stderr@,
        InvokeError::TimedOut => "Timed out waiting for the process"@,
        InvokeError::WaitFailed { cause } => "Error waiting for the process: "@ + cause@,
    }
}

/// A machine-readable name for the kind of an error.
pub open spec fn kind_of(e: InvokeError) -> Seq<char> {
    match e {
        InvokeError::ProjectMarkerNotFound => "ProjectMarkerNotFound"@,
        InvokeError::ProcessSpawnError { .. } => "ProcessSpawnError"@,
        InvokeError::IoStreamError { .. } => "IoStreamError"@,
        InvokeError::NonZeroExit { .. } => "NonZeroExit"@,
        InvokeError::TimedOut => "TimedOut"@,
        InvokeError::WaitFailed { .. } => "WaitFailed"@,
    }
}

/// The result of a child run, as text on success.
pub open spec fn reduce(rule: OutputRule, report: ChildReport) -> Result<Seq<char>, InvokeError> {
    if report.timed_out {
        Err(InvokeError::TimedOut)
    } else {
        match (report.stdin, report.stdout, report.stderr) {
            (Err(cause), _, _) => Err(InvokeError::IoStreamError { stream: Stream::Stdin, cause }),
            (Ok(_), Err(cause), _) => Err(
                InvokeError::IoStreamError { stream: Stream::Stdout, cause },
            ),
            (Ok(_), Ok(_), Err(cause)) => Err(
                InvokeError::IoStreamError { stream: Stream::Stderr, cause },
            ),
            (Ok(_), Ok(out), Ok(err)) => match report.exit {
                Err(cause) => Err(InvokeError::WaitFailed { cause }),
                Ok(success) => match rule {
                    OutputRule::Concatenate => Ok(out@ + err@),
                    OutputRule::StdoutOrStderr => if success {
                        Ok(out@)
                    } else {
                        Err(InvokeError::NonZeroExit { stderr: err })
                    },
                },
            },
        }
    }
}

/// A result with its text seen as a sequence of characters.
pub open spec fn result_view(r: Result<String, InvokeError>) -> Result<Seq<char>, InvokeError> {
    match r {
        Ok(s) => Ok(s@),
        Err(e) => Err(e),
    }
}

/// The single text a host shows for a result.
pub open spec fn text_of(r: Result<Seq<char>, InvokeError>) -> Seq<char> {
    match r {
        Ok(s) => s,
        Err(e) => message_of(e),
    }
}

/// The name of a stream as it appears in messages.
pub fn stream_name(stream: Stream) -> (r: &'static str)
    ensures
        r@ == stream_name_of(stream),
{
    match stream {
        Stream::Stdin => "stdin",
        Stream::Stdout => "stdout",
        Stream::Stderr => "stderr",
    }
}

impl InvokeError {
    /// The text shown to the user for this error.
    pub fn message(&self) -> (r: String)
        ensures
            r@ == message_of(*self),
    {
        match self {
            InvokeError::ProjectMarkerNotFound => String::from_str("Artisan command not found"),
            InvokeError::ProcessSpawnError { binary, cause } => String::from_str(
                "Failed to start ",
            ).concat(binary.as_str()).concat(": ").concat(cause.as_str()),
            InvokeError::IoStreamError { stream, cause } => String::from_str("Error ").concat(
                stream_name(*stream),
            ).concat(": ").concat(cause.as_str()),
            InvokeError::NonZeroExit { stderr } => stderr.clone(),
            InvokeError::TimedOut => String::from_str("Timed out waiting for the process"),
            InvokeError::WaitFailed { cause } => String::from_str(
                "Error waiting for the process: ",
            ).concat(cause.as_str()),
        }
    }
}

impl SpawnPlan {
    /// The error for a failure to start this plan's program, naming it.
    pub fn spawn_failed(&self, cause: String) -> (r: InvokeError)
        ensures
            r == (InvokeError::ProcessSpawnError { binary: self.program, cause }),
    {
        InvokeError::ProcessSpawnError { binary: self.program.clone(), cause }
    }

    /// The result of a child started from this plan, from what the host
    /// observed of it. A stopped child, then a failing stream (stdin, stdout,
    /// stderr, in that order), then an unknown exit status comes first;
    /// otherwise the plan's output rule decides.
    pub fn finish(&self, report: ChildReport) -> (r: Result<String, InvokeError>)
        ensures
            result_view(r) == reduce(self.output, report),
    {
        if report.timed_out {
            return Err(InvokeError::TimedOut);
        }
        if let Err(cause) = report.stdin {
            return Err(InvokeError::IoStreamError { stream: Stream::Stdin, cause });
        }
        let out = match report.stdout {
            Ok(out) => out,
            Err(cause) => {
                return Err(InvokeError::IoStreamError { stream: Stream::Stdout, cause });
            },
        };
        let err = match report.stderr {
            Ok(err) => err,
            Err(cause) => {
                return Err(InvokeError::IoStreamError { stream: Stream::Stderr, cause });
            },
        };
        let success = match report.exit {
            Ok(success) => success,
            Err(cause) => {
                return Err(InvokeError::WaitFailed { cause });
            },
        };
        match self.output {
            OutputRule::Concatenate => Ok(out.concat(err.as_str())),
            OutputRule::StdoutOrStderr => {
                if success {
                    Ok(out)
                } else {
                    Err(InvokeError::NonZeroExit { stderr: err })
                }
            },
        }
    }
}

/// The single text a host shows for a result: the output on success, the
/// error's message otherwise.
pub fn outcome_text(r: &Result<String, InvokeError>) -> (t: String)
    ensures
        t@ == text_of(result_view(*r)),
{
    match r {
        Ok(s) => s.clone(),
        Err(e) => e.message(),
    }
}

impl InvokeError {
    /// A machine-readable name for the kind of this error, for a host that
    /// branches on it beside showing the text.
    pub fn kind(&self) -> (r: &'static str)
        ensures
            r@ == kind_of(*self),
    {
        match self {
            InvokeError::ProjectMarkerNotFound => "ProjectMarkerNotFound",
            InvokeError::ProcessSpawnError { .. } => "ProcessSpawnError",
            InvokeError::IoStreamError { .. } => "IoStreamError",
            InvokeError::NonZeroExit { .. } => "NonZeroExit",
            InvokeError::TimedOut => "TimedOut",
            InvokeError::WaitFailed { .. } => "WaitFailed",
        }
    }
}

/// Whether a child that has run for `elapsed_ms` milliseconds must be
/// stopped: only when a timeout was given and that much time has passed.
pub fn time_is_up(timeout_ms: Option<u64>, elapsed_ms: u64) -> (r: bool)
    ensures
        r == (timeout_ms matches Some(t) && elapsed_ms >= t),
{
    match timeout_ms {
        Some(t) => elapsed_ms >= t,
        None => false,
    }
}

/// A call whose project lacks its marker file shows the fixed not-found text.
pub proof fn lemma_missing_marker_shows_not_found()
    ensures
        text_of(Err(InvokeError::ProjectMarkerNotFound)) == "Artisan command not found"@,
{
}

/// A child that failed after all its streams were transferred shows exactly
/// its stderr under the stdout-or-stderr rule, and its stdout followed by its
/// stderr under the concatenating rule.
pub proof fn lemma_failed_child_shows_stderr(report: ChildReport)
    requires
        !report.timed_out,
        report.exit == Ok::<bool, String>(false),
        report.stdin is Ok,
        report.stdout is Ok,
        report.stderr is Ok,
    ensures
        text_of(reduce(OutputRule::StdoutOrStderr, report)) == report.stderr->Ok_0@,
        text_of(reduce(OutputRule::Concatenate, report)) == report.stdout->Ok_0@
            + report.stderr->Ok_0@,
{
}

/// What a child writes to stdout reaches the result unchanged when it writes
/// nothing to stderr: under the concatenating rule always, under the
/// stdout-or-stderr rule when it succeeds.
pub proof fn lemma_stdout_passes_through(report: ChildReport)
    requires
        !report.timed_out,
        report.stdin is Ok,
        report.stdout is Ok,
        report.stderr matches Ok(err) && err@.len() == 0,
        report.exit is Ok,
    ensures
        reduce(OutputRule::Concatenate, report) == Ok::<Seq<char>, InvokeError>(
            report.stdout->Ok_0@,
        ),
        report.exit == Ok::<bool, String>(true) ==> reduce(OutputRule::StdoutOrStderr, report) == Ok::<
            Seq<char>,
            InvokeError,
        >(report.stdout->Ok_0@),
{
    assert(report.stdout->Ok_0@ + report.stderr->Ok_0@ =~= report.stdout->Ok_0@);
}

} // verus!
