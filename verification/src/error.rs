//! The kinds of failure and what each of them ends.
use vstd::prelude::*;

verus! {

/// What went wrong.
#[derive(Clone, Copy, Debug, PartialEq, Eq, Structural)]
pub enum ErrorKind {
    /// The setting that names the watched folder is missing or unusable.
    Configuration,
    /// The watched folder could not be listed.
    DirectoryRead,
    /// The folder of a category could not be created.
    SubdirectoryCreate,
    /// A file could not be moved: it is gone, or its target lies on another
    /// file system.
    Move,
    /// The queue between the watcher and the mover is broken.
    Channel,
}

/// When a failure happened: before the first snapshot was taken, or after.
#[derive(Clone, Copy, Debug, PartialEq, Eq, Structural)]
pub enum Phase {
    Startup,
    Running,
}

/// What a failure ends.
#[derive(Clone, Copy, Debug, PartialEq, Eq, Structural)]
pub enum Disposition {
    /// The process: it exits with a failure status.
    Abort,
    /// The current reading of the folder: the next one is made as usual.
    SkipPoll,
    /// The handling of one file: the next file is handled as usual.
    AbandonEvent,
}

impl ErrorKind {
    /// What a failure of this kind ends when it happens in `phase`.
    pub open spec fn ends(self, phase: Phase) -> Disposition {
        match self {
            ErrorKind::Configuration => Disposition::Abort,
            ErrorKind::DirectoryRead => match phase {
                Phase::Startup => Disposition::Abort,
                Phase::Running => Disposition::SkipPoll,
            },
            ErrorKind::SubdirectoryCreate => Disposition::AbandonEvent,
            ErrorKind::Move => Disposition::AbandonEvent,
            ErrorKind::Channel => Disposition::Abort,
        }
    }

    /// What a failure of this kind ends when it happens in `phase`. A failure
    /// of the configuration or of the queue ends the process; a folder that
    /// cannot be listed ends it only at startup; a failure with one file ends
    /// the handling of that file alone.
    pub fn disposition(self, phase: Phase) -> (d: Disposition)
        ensures
            d == self.ends(phase),
    {
        match self {
            ErrorKind::Configuration | ErrorKind::Channel => Disposition::Abort,
            ErrorKind::DirectoryRead => match phase {
                Phase::Startup => Disposition::Abort,
                Phase::Running => Disposition::SkipPoll,
            },
            ErrorKind::SubdirectoryCreate | ErrorKind::Move => Disposition::AbandonEvent,
        }
    }

    /// The words that name the operation that failed.
    pub open spec fn operation_text(self) -> Seq<char> {
        match self {
            ErrorKind::Configuration => "Failed to read environment variable"@,
            ErrorKind::DirectoryRead => "Failed to read directory"@,
            ErrorKind::SubdirectoryCreate => "Failed to create subdirectory"@,
            ErrorKind::Move => "Failed to move file"@,
            ErrorKind::Channel => "Failed to pass on event"@,
        }
    }

    /// The words that name the operation that failed.
    pub fn operation(self) -> (words: &'static str)
        ensures
            words@ == self.operation_text(),
    {
        match self {
            ErrorKind::Configuration => "Failed to read environment variable",
            ErrorKind::DirectoryRead => "Failed to read directory",
            ErrorKind::SubdirectoryCreate => "Failed to create subdirectory",
            ErrorKind::Move => "Failed to move file",
            ErrorKind::Channel => "Failed to pass on event",
        }
    }
}

/// The line that reports a failure: the operation, what it was applied to,
/// a colon and the cause.
pub open spec fn error_text(kind: ErrorKind, subject: Seq<char>, cause: Seq<char>) -> Seq<char> {
    kind.operation_text() + " "@ + subject + ": "@ + cause
}

/// The line that reports a failure of `kind` on `subject` (a path, or the
/// name of a setting) with the given cause.
pub fn error_line(kind: ErrorKind, subject: &str, cause: &str) -> (line: String)
    ensures
        line@ == error_text(kind, subject@, cause@),
{
    let mut line = String::from_str(kind.operation());
    line.append(" ");
    line.append(subject);
    line.append(": ");
    line.append(cause);
    line
}

/// A failure never ends more than it must: only a failure of the
/// configuration, of the queue, or of the first listing ends the process.
pub proof fn lemma_abort_only_when_fatal(kind: ErrorKind, phase: Phase)
    ensures
        kind.ends(phase) == Disposition::Abort <==> (kind == ErrorKind::Configuration || kind
            == ErrorKind::Channel || (kind == ErrorKind::DirectoryRead && phase
            == Phase::Startup)),
        phase == Phase::Running && (kind == ErrorKind::SubdirectoryCreate || kind
            == ErrorKind::Move) ==> kind.ends(phase) == Disposition::AbandonEvent,
{
}

} // verus!
