//! Reading one bounded chunk of a file: open, seek if the offset asks for
//! it, read once into a buffer of the chunk's size, and cut the buffer to
//! what was read.

use vstd::prelude::*;
use crate::error::ErrorReport;

verus! {

/// The chunk size used where the caller names none: one binary megabyte.
pub const DEFAULT_CHUNK_SIZE: usize = 1048576;

/// The least of three lengths.
pub open spec fn least(a: nat, b: nat, c: nat) -> nat {
    if a <= b && a <= c {
        a
    } else if b <= c {
        b
    } else {
        c
    }
}

/// The bytes that a chunk read hands back when `count` bytes were read into
/// `buffer`: the first `count` of them, and never more than `chunk_size`.
pub open spec fn kept(buffer: Seq<u8>, count: nat, chunk_size: nat) -> Seq<u8> {
    buffer.take(least(count, buffer.len(), chunk_size) as int)
}

/// A request for one chunk: at most `chunk_size` bytes from `offset` on.
#[derive(Debug, Clone, Copy, PartialEq, Eq)]
pub struct ChunkRequest {
    /// The most bytes that the read may return.
    pub chunk_size: usize,
    /// Where in the file the chunk starts, in bytes from the start.
    pub offset: u64,
}

/// A chunk read whose file is open and has to be positioned first.
#[derive(Debug)]
pub struct ChunkSeek {
    chunk_size: usize,
    target: u64,
}

/// A chunk read whose file is open and positioned, ready for its one read.
#[derive(Debug)]
pub struct ChunkFill {
    chunk_size: usize,
    position: u64,
}

/// What an opened file calls for next.
#[derive(Debug)]
pub enum ChunkStep {
    /// Seek to the target, then read.
    Seek(ChunkSeek),
    /// Read at once: the file is where the chunk starts.
    Fill(ChunkFill),
}

impl ChunkRequest {
    /// A request with the caller's choices, or the defaults where there is
    /// none: `DEFAULT_CHUNK_SIZE` bytes, from the start of the file.
    pub fn new(chunk_size: Option<usize>, offset: Option<u64>) -> (request: ChunkRequest)
        ensures
            request.chunk_size == match chunk_size {
                Some(size) => size,
                None => DEFAULT_CHUNK_SIZE,
            },
            request.offset == match offset {
                Some(start) => start,
                None => 0,
            },
    {
        let chunk_size = match chunk_size {
            Some(size) => size,
            None => DEFAULT_CHUNK_SIZE,
        };
        let offset = match offset {
            Some(start) => start,
            None => 0,
        };
        ChunkRequest { chunk_size, offset }
    }

    /// Takes the answer to opening the file.
    ///
    /// A failure is an `Open` error with the system's text. An open file is
    /// read at once if the chunk starts at offset 0, and has to seek to the
    /// offset first otherwise.
    pub fn opened(self, outcome: Result<(), String>) -> (result: Result<ChunkStep, ErrorReport>)
        ensures
            match outcome {
                Ok(_) => if self.offset > 0 {
                    result matches Ok(ChunkStep::Seek(seek)) && seek.chunk_size()
                        == self.chunk_size && seek.target() == self.offset
                } else {
                    result matches Ok(ChunkStep::Fill(fill)) && fill.chunk_size()
                        == self.chunk_size && fill.position() == 0
                },
                Err(cause) => result == Err::<ChunkStep, ErrorReport>(ErrorReport::Open { cause }),
            },
    {
        match outcome {
            Ok(_) => {
                if self.offset > 0 {
                    Ok(ChunkStep::Seek(ChunkSeek { chunk_size: self.chunk_size, target: self.offset }))
                } else {
                    Ok(ChunkStep::Fill(ChunkFill { chunk_size: self.chunk_size, position: 0 }))
                }
            },
            Err(cause) => Err(ErrorReport::Open { cause }),
        }
    }
}

impl ChunkSeek {
    /// The most bytes that the read may return.
    pub closed spec fn spec_chunk_size(&self) -> usize {
        self.chunk_size
    }

    /// The most bytes that the read may return.
    #[verifier::when_used_as_spec(spec_chunk_size)]
    pub fn chunk_size(&self) -> (size: usize)
        ensures
            size == self.chunk_size(),
    {
        self.chunk_size
    }

    /// The absolute offset to seek to, in bytes from the start of the file.
    pub closed spec fn spec_target(&self) -> u64 {
        self.target
    }

    /// The absolute offset to seek to, in bytes from the start of the file.
    #[verifier::when_used_as_spec(spec_target)]
    pub fn target(&self) -> (target: u64)
        ensures
            target == self.target(),
    {
        self.target
    }

    /// Takes the answer to the seek.
    ///
    /// A failure is a `Seek` error with the system's text; after a seek that
    /// succeeded the file stands at the target.
    pub fn sought(self, outcome: Result<(), String>) -> (result: Result<ChunkFill, ErrorReport>)
        ensures
            match outcome {
                Ok(_) => result matches Ok(fill) && fill.chunk_size() == self.chunk_size()
                    && fill.position() == self.target(),
                Err(cause) => result == Err::<ChunkFill, ErrorReport>(ErrorReport::Seek { cause }),
            },
    {
        match outcome {
            Ok(_) => Ok(ChunkFill { chunk_size: self.chunk_size, position: self.target }),
            Err(cause) => Err(ErrorReport::Seek { cause }),
        }
    }
}

impl ChunkFill {
    /// The most bytes that the read may return.
    pub closed spec fn spec_chunk_size(&self) -> usize {
        self.chunk_size
    }

    /// The most bytes that the read may return.
    #[verifier::when_used_as_spec(spec_chunk_size)]
    pub fn chunk_size(&self) -> (size: usize)
        ensures
            size == self.chunk_size(),
    {
        self.chunk_size
    }

    /// Where the file stands: the offset of the chunk's first byte.
    pub closed spec fn spec_position(&self) -> u64 {
        self.position
    }

    /// Where the file stands: the offset of the chunk's first byte.
    #[verifier::when_used_as_spec(spec_position)]
    pub fn position(&self) -> (position: u64)
        ensures
            position == self.position(),
    {
        self.position
    }

    /// The buffer for the one read: exactly `chunk_size` zero bytes, so that
    /// a chunk read never holds more than one chunk in memory.
    pub fn buffer(&self) -> (buffer: Vec<u8>)
        ensures
            buffer@ == Seq::new(self.chunk_size() as nat, |i: int| 0u8),
    {
        let buffer = vec![0u8; self.chunk_size];
        assert(buffer@ =~= Seq::new(self.chunk_size() as nat, |i: int| 0u8));
        buffer
    }

    /// Takes the buffer back with the answer to the read: the number of
    /// bytes read into it, or the failure.
    ///
    /// The chunk is the buffer cut to the bytes read. It is empty at the end
    /// of the file, which is no error, and never longer than the chunk size.
    /// A failed read is a `GenericIo` error with the system's text.
    pub fn filled(self, buffer: Vec<u8>, outcome: Result<usize, String>) -> (result: Result<
        Vec<u8>,
        ErrorReport,
    >)
        ensures
            match outcome {
                Ok(count) => result matches Ok(chunk) && chunk@ == kept(
                    buffer@,
                    count as nat,
                    self.chunk_size() as nat,
                ),
                Err(cause) => result == Err::<Vec<u8>, ErrorReport>(
                    ErrorReport::GenericIo { message: cause },
                ),
            },
            result matches Ok(chunk) ==> chunk.len() <= self.chunk_size(),
    {
        match outcome {
            Ok(count) => {
                let mut chunk = buffer;
                chunk.truncate(count);
                chunk.truncate(self.chunk_size);
                assert(chunk@ =~= kept(buffer@, count as nat, self.chunk_size() as nat));
                Ok(chunk)
            },
            Err(cause) => Err(ErrorReport::GenericIo { message: cause }),
        }
    }
}

} // verus!
