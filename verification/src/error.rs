//! The ways a run can fail, and how a failure is reported to the caller of
//! the program: the stage it happened at, a process status and one line of
//! text.

use vstd::prelude::*;

verus! {

/// Why a run failed.
#[derive(Debug, Copy, Clone, PartialEq, Eq, Structural)]
pub enum GzipError {
    /// The source could not be read.
    Input,
    /// The destination could not be created or written.
    Output,
    /// The input of a decode run is not a valid gzip stream.
    Format,
    /// The engine failed, or made a stream that does not decode back to the
    /// input.
    Codec,
}

/// The three stages of a run, in order.
#[derive(Debug, Copy, Clone, PartialEq, Eq, Structural)]
pub enum Stage {
    /// Reading the source into memory.
    SourceRead,
    /// Encoding or decoding the buffer.
    Transform,
    /// Writing the result to the destination.
    DestinationWrite,
}

/// Process status of a run that succeeded.
pub const STATUS_OK: u8 = 0;

/// Process status for [`GzipError::Format`].
pub const STATUS_FORMAT: u8 = 65;

/// Process status for [`GzipError::Input`].
pub const STATUS_INPUT: u8 = 66;

/// Process status for [`GzipError::Codec`].
pub const STATUS_CODEC: u8 = 70;

/// Process status for [`GzipError::Output`].
pub const STATUS_OUTPUT: u8 = 73;

impl GzipError {
    /// The stage at which this failure happens.
    pub open spec fn stage_of(self) -> Stage {
        match self {
            GzipError::Input => Stage::SourceRead,
            GzipError::Format => Stage::Transform,
            GzipError::Codec => Stage::Transform,
            GzipError::Output => Stage::DestinationWrite,
        }
    }

    /// The process status that stands for this failure.
    pub open spec fn status_of(self) -> u8 {
        match self {
            GzipError::Input => STATUS_INPUT,
            GzipError::Output => STATUS_OUTPUT,
            GzipError::Format => STATUS_FORMAT,
            GzipError::Codec => STATUS_CODEC,
        }
    }

    /// The line that names this failure.
    pub open spec fn wording(self) -> Seq<char> {
        match self {
            GzipError::Input => "unable to read input file"@,
            GzipError::Output => "unable to write output file"@,
            GzipError::Format => "input is not a valid gzip stream"@,
            GzipError::Codec => "compression engine failed"@,
        }
    }

    /// Returns the stage at which this failure happens.
    pub fn stage(&self) -> (stage: Stage)
        ensures
            stage == self.stage_of(),
    {
        match self {
            GzipError::Input => Stage::SourceRead,
            GzipError::Format => Stage::Transform,
            GzipError::Codec => Stage::Transform,
            GzipError::Output => Stage::DestinationWrite,
        }
    }

    /// Returns the process status that stands for this failure. It is never
    /// the status of success, and no two failures share one.
    pub fn status(&self) -> (status: u8)
        ensures
            status == self.status_of(),
            status != STATUS_OK,
    {
        match self {
            GzipError::Input => STATUS_INPUT,
            GzipError::Output => STATUS_OUTPUT,
            GzipError::Format => STATUS_FORMAT,
            GzipError::Codec => STATUS_CODEC,
        }
    }

    /// Returns the line that names this failure.
    pub fn message(&self) -> (text: String)
        ensures
            text@ == self.wording(),
    {
        match self {
            GzipError::Input => "unable to read input file".to_owned(),
            GzipError::Output => "unable to write output file".to_owned(),
            GzipError::Format => "input is not a valid gzip stream".to_owned(),
            GzipError::Codec => "compression engine failed".to_owned(),
        }
    }
}

/// The process status of a run with the result `result`.
pub open spec fn status_of_run(result: Result<(), GzipError>) -> u8 {
    match result {
        Ok(_) => STATUS_OK,
        Err(e) => e.status_of(),
    }
}

/// Returns the process status of a run: zero if and only if it succeeded.
pub fn exit_status(result: &Result<(), GzipError>) -> (status: u8)
    ensures
        status == status_of_run(*result),
        status == STATUS_OK <==> *result is Ok,
{
    match result {
        Ok(_) => STATUS_OK,
        Err(e) => e.status(),
    }
}

/// A failure is told by its status: two failures with one status are the same.
pub proof fn lemma_status_tells_failure(a: GzipError, b: GzipError)
    requires
        a.status_of() == b.status_of(),
    ensures
        a == b,
{
}

} // verus!
