//! What chunk reads amount to on a file whose bytes are known: each call
//! returns a slice of the file, paging from the start reaches the end of the
//! file and stays there, and the chunks joined are the file.
//!
//! Nothing here runs. The functions are a model of the file and of the
//! caller that pages through it, and the proofs are what the library states
//! of chunk reads on it.
//!
//! A read may stop short of its buffer, as reads through a bounded
//! intermediate buffer do for large chunks. Paging at fixed offsets relies
//! on reads that do not; paging by the length of each chunk does not care.

use vstd::prelude::*;
use vstd::arithmetic::div_mod::lemma_fundamental_div_mod;
use crate::chunk::{kept, ChunkFill};
use crate::whole::{whole_outcome, IoFailure};

verus! {

/// The bytes left in a file of `len` bytes from `position` on.
pub open spec fn bytes_left(len: nat, position: nat) -> nat {
    if position < len {
        (len - position) as nat
    } else {
        0
    }
}

/// The chunk of `contents` at `offset`: the next `chunk_size` bytes, fewer
/// where the file ends sooner, none at or past its end.
pub open spec fn chunk_at(contents: Seq<u8>, chunk_size: nat, offset: nat) -> Seq<u8> {
    if offset >= contents.len() {
        Seq::empty()
    } else if bytes_left(contents.len(), offset) <= chunk_size {
        contents.subrange(offset as int, contents.len() as int)
    } else {
        contents.subrange(offset as int, (offset + chunk_size) as int)
    }
}

/// Whether `count` and `buffer` are what one read may leave behind when the
/// file holds `contents` and stands at `position`: the read takes bytes the
/// file has left, as many as it likes up to the buffer's length but at least
/// one if it can, and puts them at the front of the buffer.
pub open spec fn read_may_answer(
    contents: Seq<u8>,
    position: nat,
    buffer: Seq<u8>,
    count: nat,
) -> bool {
    &&& count <= buffer.len()
    &&& count <= bytes_left(contents.len(), position)
    &&& count == 0 ==> buffer.len() == 0 || bytes_left(contents.len(), position) == 0
    &&& forall|i: int| 0 <= i < count ==> buffer[i] == contents[position + i]
}

/// Whether `count` and `buffer` are what a read leaves behind that does not
/// stop short: it takes all that the file has left, up to the buffer's
/// length.
pub open spec fn read_answers(contents: Seq<u8>, position: nat, buffer: Seq<u8>, count: nat) -> bool {
    &&& read_may_answer(contents, position, buffer, count)
    &&& count == buffer.len() || count == bytes_left(contents.len(), position)
}

/// The offset before call number `calls` when a caller pages from the start
/// of the file and moves on by the length of each chunk it gets.
pub open spec fn paging_offset(contents: Seq<u8>, chunk_size: nat, calls: nat) -> nat
    decreases calls,
{
    if calls == 0 {
        0
    } else {
        let before = paging_offset(contents, chunk_size, (calls - 1) as nat);
        before + chunk_at(contents, chunk_size, before).len()
    }
}

/// The chunks at offsets 0, `chunk_size`, twice `chunk_size` and so on,
/// `calls` of them, joined in order.
pub open spec fn paged(contents: Seq<u8>, chunk_size: nat, calls: nat) -> Seq<u8>
    decreases calls,
{
    if calls == 0 {
        Seq::empty()
    } else {
        paged(contents, chunk_size, (calls - 1) as nat) + chunk_at(
            contents,
            chunk_size,
            ((calls - 1) * chunk_size) as nat,
        )
    }
}

/// A chunk is never longer than the chunk size, nor than what the file has
/// left, and is as long as the lesser of them.
pub proof fn chunk_is_bounded(contents: Seq<u8>, chunk_size: nat, offset: nat)
    ensures
        chunk_at(contents, chunk_size, offset).len() <= chunk_size,
        chunk_at(contents, chunk_size, offset).len() <= bytes_left(contents.len(), offset),
        chunk_at(contents, chunk_size, offset).len() == chunk_size || chunk_at(
            contents,
            chunk_size,
            offset,
        ).len() == bytes_left(contents.len(), offset),
        forall|i: int|
            0 <= i < chunk_at(contents, chunk_size, offset).len() ==> chunk_at(
                contents,
                chunk_size,
                offset,
            )[i] == contents[offset + i],
{
}

/// A chunk read whose buffer has the chunk's size returns what its one read
/// took from the file: the bytes of `contents` from the position where the
/// file stood, as many as were read, and none only at the end of the file
/// or with a chunk size of zero.
pub proof fn filled_chunk_is_slice_of_file(
    fill: ChunkFill,
    contents: Seq<u8>,
    buffer: Seq<u8>,
    count: nat,
)
    requires
        buffer.len() == fill.chunk_size(),
        read_may_answer(contents, fill.position() as nat, buffer, count),
    ensures
        kept(buffer, count, fill.chunk_size() as nat).len() == count,
        count <= fill.chunk_size(),
        count <= bytes_left(contents.len(), fill.position() as nat),
        count == 0 && fill.chunk_size() > 0 ==> bytes_left(
            contents.len(),
            fill.position() as nat,
        ) == 0,
        forall|i: int|
            0 <= i < count ==> kept(buffer, count, fill.chunk_size() as nat)[i]
                == contents[fill.position() + i],
{
}

/// A chunk read whose buffer has the chunk's size and whose one read did
/// not stop short returns the chunk of `contents` at the position where the
/// file stood.
pub proof fn filled_chunk_is_chunk_of_file(
    fill: ChunkFill,
    contents: Seq<u8>,
    buffer: Seq<u8>,
    count: nat,
)
    requires
        buffer.len() == fill.chunk_size(),
        read_answers(contents, fill.position() as nat, buffer, count),
    ensures
        kept(buffer, count, fill.chunk_size() as nat) == chunk_at(
            contents,
            fill.chunk_size() as nat,
            fill.position() as nat,
        ),
{
    let chunk = chunk_at(contents, fill.chunk_size() as nat, fill.position() as nat);
    chunk_is_bounded(contents, fill.chunk_size() as nat, fill.position() as nat);
    assert(kept(buffer, count, fill.chunk_size() as nat) =~= chunk);
}

/// Seeking past the end of the file is no error: the chunk there is empty.
pub proof fn chunk_past_the_end_is_empty(contents: Seq<u8>, chunk_size: nat, offset: nat)
    requires
        offset >= contents.len(),
    ensures
        chunk_at(contents, chunk_size, offset) == Seq::<u8>::empty(),
{
}

/// The number of calls that return bytes when a file of `len` bytes is paged
/// in chunks of `chunk_size`: `len / chunk_size`, rounded up.
pub open spec fn chunk_count(len: nat, chunk_size: nat) -> nat
    recommends
        chunk_size > 0,
{
    ((len + chunk_size - 1) / (chunk_size as int)) as nat
}

/// `calls` chunks reach the end of a file of `len` bytes exactly when there
/// are at least `chunk_count` of them.
pub proof fn chunk_count_reaches_the_end(len: nat, chunk_size: nat, calls: nat)
    requires
        chunk_size > 0,
    ensures
        calls * chunk_size >= len <==> calls >= chunk_count(len, chunk_size),
{
    let count = chunk_count(len, chunk_size);
    let rest = (len + chunk_size - 1) % (chunk_size as int);
    lemma_fundamental_div_mod(len + chunk_size - 1, chunk_size as int);
    assert(chunk_size * count + rest == len + chunk_size - 1);
    if calls >= count {
        assert(calls * chunk_size >= count * chunk_size) by (nonlinear_arith)
            requires
                calls >= count,
                chunk_size > 0,
        ;
        assert(count * chunk_size == chunk_size * count) by (nonlinear_arith);
    } else {
        assert(calls * chunk_size <= (count - 1) * chunk_size) by (nonlinear_arith)
            requires
                calls <= count - 1,
                chunk_size > 0,
        ;
        assert((count - 1) * chunk_size == chunk_size * count - chunk_size) by (nonlinear_arith);
    }
}

/// Paging with a chunk size above zero ends at the end of the file, once.
///
/// Before call number `calls` the offset is `calls` chunks into the file, or
/// at its end if that comes sooner. Each of the first `chunk_count` calls
/// returns bytes and moves the offset on. Every later call finds the offset
/// at the end of the file, returns nothing and leaves the offset there.
pub proof fn paging_ends_at_end_of_file(contents: Seq<u8>, chunk_size: nat, calls: nat)
    requires
        chunk_size > 0,
    ensures
        paging_offset(contents, chunk_size, calls) == if calls * chunk_size <= contents.len() {
            calls * chunk_size
        } else {
            contents.len()
        },
        calls < chunk_count(contents.len(), chunk_size) ==> {
            &&& paging_offset(contents, chunk_size, calls) < contents.len()
            &&& chunk_at(contents, chunk_size, paging_offset(contents, chunk_size, calls)).len()
                > 0
            &&& paging_offset(contents, chunk_size, calls + 1) > paging_offset(
                contents,
                chunk_size,
                calls,
            )
        },
        calls >= chunk_count(contents.len(), chunk_size) ==> {
            &&& paging_offset(contents, chunk_size, calls) == contents.len()
            &&& chunk_at(contents, chunk_size, paging_offset(contents, chunk_size, calls)).len()
                == 0
            &&& paging_offset(contents, chunk_size, calls + 1) == contents.len()
        },
    decreases calls,
{
    chunk_count_reaches_the_end(contents.len(), chunk_size, calls);
    if calls > 0 {
        let earlier = (calls - 1) as nat;
        paging_ends_at_end_of_file(contents, chunk_size, earlier);
        assert(earlier * chunk_size + chunk_size == calls * chunk_size) by (nonlinear_arith)
            requires
                earlier + 1 == calls,
        ;
    } else {
        assert(calls * chunk_size == 0) by (nonlinear_arith)
            requires
                calls == 0,
        ;
    }
    let here = paging_offset(contents, chunk_size, calls);
    assert(paging_offset(contents, chunk_size, calls + 1) == here + chunk_at(
        contents,
        chunk_size,
        here,
    ).len());
}

/// The first `calls` chunks joined are the start of the file, as far as
/// `calls` chunks reach.
pub proof fn paged_is_prefix_of_file(contents: Seq<u8>, chunk_size: nat, calls: nat)
    ensures
        calls * chunk_size <= contents.len() ==> paged(contents, chunk_size, calls)
            == contents.take((calls * chunk_size) as int),
        calls * chunk_size >= contents.len() ==> paged(contents, chunk_size, calls) == contents,
    decreases calls,
{
    if calls == 0 {
        assert(calls * chunk_size == 0) by (nonlinear_arith)
            requires
                calls == 0,
        ;
        assert(contents.take(0) =~= Seq::<u8>::empty());
        if contents.len() == 0 {
            assert(contents =~= Seq::<u8>::empty());
        }
    } else {
        let earlier = (calls - 1) as nat;
        paged_is_prefix_of_file(contents, chunk_size, earlier);
        assert(earlier * chunk_size + chunk_size == calls * chunk_size) by (nonlinear_arith)
            requires
                earlier + 1 == calls,
        ;
        let start = (earlier * chunk_size) as nat;
        if start >= contents.len() {
            assert(paged(contents, chunk_size, calls) =~= contents);
        } else if calls * chunk_size >= contents.len() {
            assert(paged(contents, chunk_size, calls) =~= contents);
        } else {
            assert(paged(contents, chunk_size, calls) =~= contents.take(
                (calls * chunk_size) as int,
            ));
        }
    }
}

/// The chunks at offsets 0, `chunk_size`, twice `chunk_size` and so on,
/// joined until they reach the end of the file, are the very bytes that a
/// whole read of the same file returns.
pub proof fn paged_chunks_are_the_whole_read(data: Vec<u8>, chunk_size: nat, calls: nat)
    requires
        calls * chunk_size >= data.len(),
    ensures
        whole_outcome(data.len() as u64, Ok::<Vec<u8>, IoFailure>(data)) == Ok::<
            Vec<u8>,
            crate::error::ErrorReport,
        >(data),
        paged(data@, chunk_size, calls) == data@,
{
    paged_is_prefix_of_file(data@, chunk_size, calls);
}

/// The first `calls` of `chunks`, joined in order.
pub open spec fn joined(chunks: Seq<Seq<u8>>, calls: nat) -> Seq<u8>
    recommends
        calls <= chunks.len(),
    decreases calls,
{
    if calls == 0 {
        Seq::empty()
    } else {
        joined(chunks, (calls - 1) as nat) + chunks[calls - 1]
    }
}

/// Whether chunk number `k` is one that a read may return to a caller that
/// pages by length, that is, reads where the chunks before it end. The read
/// may stop short of the chunk size; with a chunk size above zero it returns
/// nothing only at the end of the file.
pub open spec fn chunk_follows(
    contents: Seq<u8>,
    chunk_size: nat,
    chunks: Seq<Seq<u8>>,
    k: int,
) -> bool {
    let offset = joined(chunks, k as nat).len();
    let left = bytes_left(contents.len(), offset);
    &&& chunks[k].len() <= chunk_size
    &&& chunks[k].len() <= left
    &&& chunks[k].len() == 0 && chunk_size > 0 ==> left == 0
    &&& forall|i: int| 0 <= i < chunks[k].len() ==> chunks[k][i] == contents[offset + i]
}

/// Paging by length, also where reads stop short: what the caller has
/// joined is always the start of the file; a chunk that is empty tells that
/// the whole file has been joined; and as long as no chunk was empty, there
/// were no more calls than bytes joined, so that an empty chunk comes after
/// at most as many calls as the file has bytes.
pub proof fn paging_by_length_rebuilds_the_file(
    contents: Seq<u8>,
    chunk_size: nat,
    chunks: Seq<Seq<u8>>,
    calls: nat,
)
    requires
        chunk_size > 0,
        calls <= chunks.len(),
        forall|k: int| 0 <= k < calls ==> chunk_follows(contents, chunk_size, chunks, k),
    ensures
        joined(chunks, calls).len() <= contents.len(),
        joined(chunks, calls) == contents.take(joined(chunks, calls).len() as int),
        forall|k: int|
            0 <= k < calls && chunks[k].len() == 0 ==> #[trigger] joined(chunks, k as nat)
                == contents,
        (forall|k: int| 0 <= k < calls ==> chunks[k].len() > 0) ==> calls <= joined(
            chunks,
            calls,
        ).len(),
    decreases calls,
{
    if calls == 0 {
        assert(joined(chunks, calls) =~= contents.take(0));
    } else {
        let earlier = (calls - 1) as nat;
        paging_by_length_rebuilds_the_file(contents, chunk_size, chunks, earlier);
        let before = joined(chunks, earlier);
        let last = chunks[earlier as int];
        assert(chunk_follows(contents, chunk_size, chunks, earlier as int));
        let now = joined(chunks, calls);
        assert(now == before + last);
        assert(now =~= contents.take(now.len() as int));
        assert forall|k: int| 0 <= k < calls && chunks[k].len() == 0 implies #[trigger] joined(
            chunks,
            k as nat,
        ) == contents by {
            if k == earlier {
                assert(before.len() == contents.len());
                assert(before =~= contents);
            }
        }
    }
}

} // verus!
