//! Supervision of one external command: what to do with what its two output
//! streams deliver, and what its exit means.
//!
//! The caller starts the process, reads whichever stream has a line ready and
//! waits for the exit. Each stream is read until it ends or fails; the end of
//! one stream never ends the other, and the exit is judged in every case.

use vstd::prelude::*;
use vstd::string::*;
use crate::text::{join2, join3, signed_decimal, signed_decimal_digits};

verus! {

/// One of the two output streams of a process.
#[derive(Clone, Copy, Debug, PartialEq, Eq, Structural)]
pub enum Stream {
    Stdout,
    Stderr,
}

/// What reading a stream gave.
pub enum ReadResult {
    /// A line of output.
    Line(String),
    /// The stream has ended.
    End,
    /// Reading failed; the text says how.
    Failed(String),
}

/// What is to be done with what was read.
pub enum DrainStep {
    /// Hand the line on to be interpreted and logged.
    Deliver(String),
    /// Log the warning; the stream is not read any further.
    Warn(String),
    /// Nothing to log; the stream is not read any further.
    Closed,
    /// The stream was closed before: what was read is dropped.
    Ignored,
}

/// The name by which the stream is called in warnings.
pub open spec fn stream_name(stream: Stream) -> Seq<char> {
    match stream {
        Stream::Stdout => "stdout"@,
        Stream::Stderr => "stderr"@,
    }
}

/// The warning logged when reading a stream fails.
pub open spec fn read_warning(stream: Stream, why: Seq<char>) -> Seq<char> {
    "❌ Error reading "@ + stream_name(stream) + ": "@ + why
}

/// The failure reported for an exit with a status other than zero, or without one.
pub open spec fn exit_failure(command: Seq<char>, code: Option<i32>) -> Seq<char> {
    match code {
        Some(c) => command + " exited with status "@ + signed_decimal_digits(c as int),
        None => command + " was terminated by a signal"@,
    }
}

/// The failure reported when the process could not be started.
pub open spec fn spawn_failure(command: Seq<char>, why: Seq<char>) -> Seq<char> {
    "Failed to start "@ + command + ": "@ + why
}

/// The failure reported when an output stream of the process could not be captured.
pub open spec fn capture_failure(command: Seq<char>, stream: Stream) -> Seq<char> {
    "Failed to capture "@ + stream_name(stream) + " of "@ + command
}

/// The state of the supervision of one command.
pub struct ProcessSupervisor {
    /// The command as it is named in messages.
    pub command: String,
    /// Whether standard output is still being read.
    pub stdout_open: bool,
    /// Whether standard error is still being read.
    pub stderr_open: bool,
}

impl ProcessSupervisor {
    /// The supervision of a process that has just been started: both streams are open.
    pub fn new(command: &str) -> (s: ProcessSupervisor)
        ensures
            s.command@ == command@,
            s.stdout_open,
            s.stderr_open,
    {
        ProcessSupervisor { command: String::from_str(command), stdout_open: true, stderr_open: true }
    }

    /// Whether `stream` is still being read.
    pub open spec fn is_open(&self, stream: Stream) -> bool {
        match stream {
            Stream::Stdout => self.stdout_open,
            Stream::Stderr => self.stderr_open,
        }
    }

    /// Whether `stream` is still to be read.
    pub fn reads(&self, stream: Stream) -> (r: bool)
        ensures
            r == self.is_open(stream),
    {
        match stream {
            Stream::Stdout => self.stdout_open,
            Stream::Stderr => self.stderr_open,
        }
    }

    /// Whether a stream is still to be read. Once none is, the caller waits for the exit.
    pub fn is_draining(&self) -> (r: bool)
        ensures
            r == (self.stdout_open || self.stderr_open),
    {
        self.stdout_open || self.stderr_open
    }

    /// Takes in what reading `stream` gave. A line is handed on. The end of
    /// the stream and a failure to read close this stream, and this stream
    /// only; the failure leaves a warning.
    pub fn on_read(&mut self, stream: Stream, result: ReadResult) -> (step: DrainStep)
        ensures
            final(self).command == old(self).command,
            final(self).stdout_open == (old(self).stdout_open && (stream != Stream::Stdout
                || result is Line)),
            final(self).stderr_open == (old(self).stderr_open && (stream != Stream::Stderr
                || result is Line)),
            !old(self).is_open(stream) ==> step is Ignored,
            old(self).is_open(stream) ==> match result {
                ReadResult::Line(line) => step == DrainStep::Deliver(line),
                ReadResult::End => step is Closed,
                ReadResult::Failed(why) => step matches DrainStep::Warn(w) && w@ == read_warning(
                    stream,
                    why@,
                ),
            },
    {
        if !self.reads(stream) {
            return DrainStep::Ignored;
        }
        match result {
            ReadResult::Line(line) => DrainStep::Deliver(line),
            ReadResult::End => {
                self.close(stream);
                DrainStep::Closed
            },
            ReadResult::Failed(why) => {
                self.close(stream);
                let mut warning = String::from_str("❌ Error reading ");
                match stream {
                    Stream::Stdout => warning.append("stdout"),
                    Stream::Stderr => warning.append("stderr"),
                }
                warning.append(": ");
                warning.append(why.as_str());
                DrainStep::Warn(warning)
            },
        }
    }

    /// Stops reading `stream`.
    fn close(&mut self, stream: Stream)
        ensures
            final(self).command == old(self).command,
            final(self).stdout_open == (old(self).stdout_open && stream != Stream::Stdout),
            final(self).stderr_open == (old(self).stderr_open && stream != Stream::Stderr),
    {
        match stream {
            Stream::Stdout => {
                self.stdout_open = false;
            },
            Stream::Stderr => {
                self.stderr_open = false;
            },
        }
    }

    /// Judges the exit of the process: status zero is success; any other
    /// status, and an exit without a status, is a failure that names the
    /// command and the status.
    pub fn conclude(&self, code: Option<i32>) -> (outcome: Result<(), String>)
        ensures
            outcome is Ok <==> code == Some(0i32),
            outcome matches Err(message) ==> message@ == exit_failure(self.command@, code),
    {
        match code {
            Some(c) => {
                if c == 0 {
                    Ok(())
                } else {
                    let status = signed_decimal(c);
                    Err(join3(self.command.as_str(), " exited with status ", status.as_str()))
                }
            },
            None => Err(join2(self.command.as_str(), " was terminated by a signal")),
        }
    }

    /// The failure to report when the process could not be started.
    pub fn could_not_start(command: &str, why: &str) -> (message: String)
        ensures
            message@ == spawn_failure(command@, why@),
    {
        let mut message = String::from_str("Failed to start ");
        message.append(command);
        message.append(": ");
        message.append(why);
        message
    }

    /// The failure to report when an output stream of the process could not be captured.
    pub fn could_not_capture(command: &str, stream: Stream) -> (message: String)
        ensures
            message@ == capture_failure(command@, stream),
    {
        let mut message = String::from_str("Failed to capture ");
        match stream {
            Stream::Stdout => message.append("stdout"),
            Stream::Stderr => message.append("stderr"),
        }
        message.append(" of ");
        message.append(command);
        message
    }
}

} // verus!
