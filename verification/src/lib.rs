//! Decision core of a PDF loader: how a file is probed, read whole or read in
//! bounded chunks, and how each failure is reported.
//!
//! The library never touches the file system. Each operation is a short
//! sequence of stages; the caller performs the metadata query, the open, the
//! seek or the read that a stage asks for and hands back the answer:
//!
//! - a probe is one call of [`probe::probe`] with the answer of the metadata
//!   query;
//! - a whole read starts with [`whole::WholeRead::begin`] on that same
//!   answer, offers its advisories, and ends with
//!   [`whole::WholeRead::finish`] on the bytes that were read;
//! - a chunk read goes from [`chunk::ChunkRequest::opened`] through
//!   [`chunk::ChunkSeek::sought`], where the offset is above zero, to
//!   [`chunk::ChunkFill::filled`], which cuts the buffer to the bytes read.
//!
//! Every failure is an [`error::ErrorReport`]. What the chunk reads of one
//! file add up to is stated and proved in [`paging`].

pub mod advisory;
pub mod chunk;
pub mod error;
pub mod greeting;
pub mod memory;
pub mod paging;
pub mod picker;
pub mod probe;
pub mod size_label;
pub mod text;
pub mod whole;
