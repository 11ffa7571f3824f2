//! The probe: what is known of a file from its metadata alone.

use vstd::prelude::*;
use crate::error::ErrorReport;
use crate::size_label::{size_label, size_label_text};

verus! {

/// A file as the probe saw it.
#[derive(Debug, Clone, PartialEq, Eq)]
pub struct FileDescriptor {
    /// The path that was probed.
    pub path: String,
    /// The file's size in bytes.
    pub size: u64,
}

/// What the probe of `path` reports when the metadata query answered `stat`:
/// the file's size, or the text of the system's error.
pub open spec fn probe_outcome(path: String, stat: Result<u64, String>) -> Result<
    FileDescriptor,
    ErrorReport,
> {
    match stat {
        Ok(size) => Ok(FileDescriptor { path, size }),
        Err(cause) => Err(ErrorReport::Metadata { cause }),
    }
}

/// Turns the answer of the metadata query on `path` into the probe's report.
///
/// A failed query, whatever its reason, is a `Metadata` error that carries
/// the system's text.
pub fn probe(path: String, stat: Result<u64, String>) -> (result: Result<
    FileDescriptor,
    ErrorReport,
>)
    ensures
        result == probe_outcome(path, stat),
{
    match stat {
        Ok(size) => Ok(FileDescriptor { path, size }),
        Err(cause) => Err(ErrorReport::Metadata { cause }),
    }
}

impl FileDescriptor {
    /// The size in binary megabytes with two decimal places, as in
    /// `12.50 MB`.
    pub fn size_label(&self) -> (label: String)
        ensures
            label@ == size_label_text(self.size as nat),
    {
        size_label(self.size)
    }
}

} // verus!
