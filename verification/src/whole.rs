//! Reading a file whole: probe, advise, read, and check that the read gave
//! exactly the bytes the probe had seen.

use vstd::prelude::*;
use crate::advisory::{advisories_for, classify, Advisory};
use crate::error::{ErrorReport, IoErrorKind};
use crate::probe::{probe, probe_outcome, FileDescriptor};

verus! {

/// A failed read, as the system reported it.
#[derive(Debug, Clone, PartialEq, Eq)]
pub struct IoFailure {
    /// The class of the failure.
    pub kind: IoErrorKind,
    /// The system's text for it.
    pub message: String,
}

/// The report for a failed read of a file of `size` bytes.
pub open spec fn read_failure(failure: IoFailure, size: u64) -> ErrorReport {
    match failure.kind {
        IoErrorKind::OutOfMemory => ErrorReport::OutOfMemory { size },
        IoErrorKind::PermissionDenied => ErrorReport::Permission,
        IoErrorKind::NotFound => ErrorReport::NotFound,
        IoErrorKind::Other => ErrorReport::GenericIo { message: failure.message },
    }
}

/// What a whole-file read returns when the probe saw `expected` bytes and
/// the read answered `outcome`.
pub open spec fn whole_outcome(expected: u64, outcome: Result<Vec<u8>, IoFailure>) -> Result<
    Vec<u8>,
    ErrorReport,
> {
    match outcome {
        Ok(data) => if data.len() == expected {
            Ok(data)
        } else {
            Err(ErrorReport::IncompleteRead { expected, actual: data.len() as u64 })
        },
        Err(failure) => Err(read_failure(failure, expected)),
    }
}

/// The report for a failed read of a file of `size` bytes: out of memory,
/// access denied and a missing file each have their own kind; everything
/// else is a generic failure that carries the system's text.
pub fn classify_read_failure(failure: IoFailure, size: u64) -> (report: ErrorReport)
    ensures
        report == read_failure(failure, size),
{
    match failure.kind {
        IoErrorKind::OutOfMemory => ErrorReport::OutOfMemory { size },
        IoErrorKind::PermissionDenied => ErrorReport::Permission,
        IoErrorKind::NotFound => ErrorReport::NotFound,
        IoErrorKind::Other => ErrorReport::GenericIo { message: failure.message },
    }
}

/// A whole-file read that has probed its file and waits for the bytes.
pub struct WholeRead {
    file: FileDescriptor,
    available: u64,
}

impl WholeRead {
    /// The file as the probe saw it.
    pub closed spec fn file(&self) -> FileDescriptor {
        self.file
    }

    /// The estimate of available memory that the advisories go by.
    pub closed spec fn spec_available(&self) -> u64 {
        self.available
    }

    /// The estimate of available memory that the advisories go by.
    #[verifier::when_used_as_spec(spec_available)]
    pub fn available(&self) -> (bytes: u64)
        ensures
            bytes == self.available(),
    {
        self.available
    }

    /// The file as the probe saw it.
    pub fn descriptor(&self) -> (file: &FileDescriptor)
        ensures
            *file == self.file(),
    {
        &self.file
    }

    /// Starts a whole-file read of `path` from the answer of the metadata
    /// query, with `available` bytes of memory estimated to be free.
    ///
    /// A failed query ends the read with the probe's `Metadata` error. The
    /// estimate is kept for the advisories only.
    pub fn begin(path: String, stat: Result<u64, String>, available: u64) -> (result: Result<
        WholeRead,
        ErrorReport,
    >)
        ensures
            match stat {
                Ok(size) => result matches Ok(read) && read.file() == (FileDescriptor {
                    path,
                    size,
                }) && read.available() == available,
                Err(cause) => result == Err::<WholeRead, ErrorReport>(
                    ErrorReport::Metadata { cause },
                ),
            },
    {
        match probe(path, stat) {
            Ok(file) => Ok(WholeRead { file, available }),
            Err(report) => Err(report),
        }
    }

    /// The size that the probe saw, which the read has to match.
    pub fn expected_size(&self) -> (size: u64)
        ensures
            size == self.file().size,
    {
        self.file.size
    }

    /// The advisories to emit before the read. They change nothing in what
    /// `finish` returns.
    pub fn advisories(&self) -> (list: Vec<Advisory>)
        ensures
            list@ == advisories_for(self.file().size, self.available()),
    {
        classify(self.file.size, self.available)
    }

    /// Ends the read with the answer of the file system: the file's bytes,
    /// or the failure.
    ///
    /// The bytes are returned untouched if and only if there are exactly as
    /// many as the probe saw; any other count is an `IncompleteRead`.
    pub fn finish(self, outcome: Result<Vec<u8>, IoFailure>) -> (result: Result<
        Vec<u8>,
        ErrorReport,
    >)
        ensures
            result == whole_outcome(self.file().size, outcome),
            result matches Ok(data) ==> data.len() == self.file().size,
    {
        match outcome {
            Ok(data) => {
                let actual = data.len() as u64;
                if actual == self.file.size {
                    Ok(data)
                } else {
                    Err(ErrorReport::IncompleteRead { expected: self.file.size, actual })
                }
            },
            Err(failure) => Err(classify_read_failure(failure, self.file.size)),
        }
    }
}

/// Two reads of one file end alike on the same answer, whatever memory was
/// estimated to be available and whatever advisories that gave.
pub proof fn advisories_leave_the_result_alone(
    first: WholeRead,
    second: WholeRead,
    outcome: Result<Vec<u8>, IoFailure>,
)
    requires
        first.file() == second.file(),
    ensures
        whole_outcome(first.file().size, outcome) == whole_outcome(second.file().size, outcome),
{
}

/// A whole read that succeeds returns the very bytes that were read, and
/// exactly as many as the probe saw.
pub proof fn whole_read_is_exact(expected: u64, outcome: Result<Vec<u8>, IoFailure>)
    ensures
        whole_outcome(expected, outcome) matches Ok(data) ==> outcome == Ok::<
            Vec<u8>,
            IoFailure,
        >(data) && data.len() == expected,
        outcome matches Ok(data) ==> (data.len() == expected ==> whole_outcome(expected, outcome)
            == Ok::<Vec<u8>, ErrorReport>(data)),
{
}

/// A missing file has its own kinds: a probe that finds no file is a
/// `Metadata` error with the system's text, a read whose file is gone is
/// `NotFound`, and neither is ever the generic failure.
pub proof fn missing_file_is_never_generic(
    path: String,
    cause: String,
    expected: u64,
    failure: IoFailure,
)
    requires
        failure.kind == IoErrorKind::NotFound,
    ensures
        probe_outcome(path, Err(cause)) == Err::<FileDescriptor, ErrorReport>(
            ErrorReport::Metadata { cause },
        ),
        whole_outcome(expected, Err(failure)) == Err::<Vec<u8>, ErrorReport>(
            ErrorReport::NotFound,
        ),
        whole_outcome(expected, Err(failure)) matches Err(report) && !(report is GenericIo),
{
}

} // verus!
