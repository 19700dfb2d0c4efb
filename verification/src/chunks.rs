//! Cutting a file into chunks, and putting the chunks together again.
//!
//! A file travels as a sequence of chunks of at most [`CHUNK_SIZE`] bytes.
//! Encryption lengthens every chunk by [`OVERHEAD`] bytes, so an encrypted file
//! is read back in steps of [`ENCRYPTED_CHUNK_SIZE`] bytes.

use vstd::prelude::*;

verus! {

/// Number of plaintext bytes that one chunk carries at most.
pub const CHUNK_SIZE: u64 = 1048576;

/// Bytes that encryption adds to a chunk.
pub const OVERHEAD: u64 = 44;

/// Length of a full chunk after encryption.
pub const ENCRYPTED_CHUNK_SIZE: u64 = CHUNK_SIZE + OVERHEAD;

/// The least number of pieces of at most `width` bytes that hold `size` bytes.
pub open spec fn pieces(size: nat, width: nat) -> nat
    recommends
        width > 0,
{
    if size % width == 0 {
        size / width
    } else {
        size / width + 1
    }
}

/// Number of chunks sent for a file of `size` bytes: an empty file still
/// travels as one (empty) chunk, so that the receiver creates it.
pub open spec fn spec_num_chunks(size: nat) -> nat {
    if size == 0 {
        1
    } else {
        pieces(size, CHUNK_SIZE as nat)
    }
}

/// Number of reads that the decrypting pass makes on a stored file of `size` bytes.
pub open spec fn spec_num_encrypted_chunks(size: nat) -> nat {
    pieces(size, ENCRYPTED_CHUNK_SIZE as nat)
}

/// Length of piece `index` when `size` bytes are cut every `width` bytes.
pub open spec fn piece_len(size: nat, width: nat, index: nat) -> nat {
    if (index + 1) * width <= size {
        width
    } else if index * width <= size {
        (size - index * width) as nat
    } else {
        0
    }
}

/// Where a chunk lies in its file.
#[derive(Clone, Copy, Debug, PartialEq, Eq, Structural)]
pub struct ChunkRange {
    pub offset: u64,
    pub length: u64,
}

pub proof fn lemma_pieces_bounds(size: nat, width: nat)
    requires
        width > 0,
    ensures
        pieces(size, width) * width >= size,
        size > 0 ==> (pieces(size, width) - 1) * width < size,
        size > 0 ==> pieces(size, width) >= 1,
        size == 0 ==> pieces(size, width) == 0,
        pieces(size, width) <= size,
{
    let q = size / width;
    let r = size % width;
    assert(size == q * width + r) by {
        vstd::arithmetic::div_mod::lemma_fundamental_div_mod(size as int, width as int);
        assert(width * q == q * width) by (nonlinear_arith);
    }
    assert((q + 1) * width == q * width + width) by (nonlinear_arith);
    assert((q - 1) * width == q * width - width) by (nonlinear_arith);
    assert(q * width >= q) by (nonlinear_arith)
        requires
            width >= 1,
            q >= 0,
    ;
}

/// The number of chunks of a file: one for an empty file, else the least
/// number of chunks of `CHUNK_SIZE` bytes that hold it.
pub fn num_chunks(size: u64) -> (n: u64)
    ensures
        n == spec_num_chunks(size as nat),
        size == 0 ==> n == 1,
        size > 0 ==> (n - 1) * CHUNK_SIZE < size <= n * CHUNK_SIZE,
{
    proof {
        lemma_pieces_bounds(size as nat, CHUNK_SIZE as nat);
    }
    if size == 0 {
        1
    } else if size % CHUNK_SIZE == 0 {
        size / CHUNK_SIZE
    } else {
        size / CHUNK_SIZE + 1
    }
}

/// The number of reads of `ENCRYPTED_CHUNK_SIZE` bytes that cover a stored
/// file; none for an empty one.
pub fn num_encrypted_chunks(size: u64) -> (n: u64)
    ensures
        n == spec_num_encrypted_chunks(size as nat),
        size == 0 ==> n == 0,
        size > 0 ==> (n - 1) * ENCRYPTED_CHUNK_SIZE < size <= n * ENCRYPTED_CHUNK_SIZE,
{
    proof {
        lemma_pieces_bounds(size as nat, ENCRYPTED_CHUNK_SIZE as nat);
    }
    if size % ENCRYPTED_CHUNK_SIZE == 0 {
        size / ENCRYPTED_CHUNK_SIZE
    } else {
        size / ENCRYPTED_CHUNK_SIZE + 1
    }
}

/// The place of chunk `index` of a file of `size` bytes when it is cut every
/// `width` bytes, or `None` past the last piece. `count` is the number of
/// chunks of the file, which is never less than `pieces(size, width)`.
fn piece_range(size: u64, width: u64, count: u64, index: u64) -> (r: Option<ChunkRange>)
    requires
        width > 0,
        count >= pieces(size as nat, width as nat),
        count >= 1 ==> (count - 1) * width <= size,
    ensures
        r is Some <==> index < count,
        r matches Some(c) ==> c.offset == index * width && c.length == piece_len(
            size as nat,
            width as nat,
            index as nat,
        ) && c.offset + c.length <= size,
{
    if index >= count {
        return None;
    }
    proof {
        lemma_pieces_bounds(size as nat, width as nat);
        assert(index * width <= (count - 1) * width) by (nonlinear_arith)
            requires
                index <= count - 1,
                width > 0,
        ;
        assert((index + 1) * width == index * width + width) by (nonlinear_arith);
    }
    let offset: u64 = index * width;
    let rest: u64 = size - offset;
    let length: u64 = if rest < width {
        rest
    } else {
        width
    };
    Some(ChunkRange { offset, length })
}

/// Where chunk `index` of a file of `size` bytes lies: it starts at
/// `index * CHUNK_SIZE` and holds `CHUNK_SIZE` bytes, or what is left of the
/// file. `None` when the file has no such chunk.
pub fn chunk_range(size: u64, index: u64) -> (r: Option<ChunkRange>)
    ensures
        r is Some <==> index < spec_num_chunks(size as nat),
        r matches Some(c) ==> c.offset == index * CHUNK_SIZE && c.length == piece_len(
            size as nat,
            CHUNK_SIZE as nat,
            index as nat,
        ) && c.offset + c.length <= size,
{
    piece_range(size, CHUNK_SIZE, num_chunks(size), index)
}

/// Where read `index` of the decrypting pass lies in a stored file of `size`
/// bytes: it starts at `index * ENCRYPTED_CHUNK_SIZE` and holds
/// `ENCRYPTED_CHUNK_SIZE` bytes, or what is left of the file.
pub fn encrypted_chunk_range(size: u64, index: u64) -> (r: Option<ChunkRange>)
    ensures
        r is Some <==> index < spec_num_encrypted_chunks(size as nat),
        r matches Some(c) ==> c.offset == index * ENCRYPTED_CHUNK_SIZE && c.length == piece_len(
            size as nat,
            ENCRYPTED_CHUNK_SIZE as nat,
            index as nat,
        ) && c.offset + c.length <= size,
{
    piece_range(size, ENCRYPTED_CHUNK_SIZE, num_encrypted_chunks(size), index)
}

/// Whether a buffer of `len` bytes holds `expected` bytes.
pub fn same_length(len: usize, expected: u64) -> (r: bool)
    ensures
        r == (len == expected),
{
    len as u64 == expected && (len as u64) as usize == len
}

/// Where piece `index` starts when `size` bytes are cut every `width` bytes;
/// past the end it is the end.
pub open spec fn piece_start(size: nat, width: nat, index: nat) -> nat {
    if index * width <= size {
        index * width
    } else {
        size
    }
}

/// Piece `index` of `data` cut every `width` bytes.
pub open spec fn piece(data: Seq<u8>, width: nat, index: nat) -> Seq<u8> {
    data.subrange(
        piece_start(data.len(), width, index) as int,
        (piece_start(data.len(), width, index) + piece_len(data.len(), width, index)) as int,
    )
}

/// The first `count` pieces of `data` cut every `width` bytes.
pub open spec fn cut(data: Seq<u8>, width: nat, count: nat) -> Seq<Seq<u8>> {
    Seq::new(count, |i: int| piece(data, width, i as nat))
}

/// The chunks in which a file with content `data` is sent.
pub open spec fn plain_chunks(data: Seq<u8>) -> Seq<Seq<u8>> {
    cut(data, CHUNK_SIZE as nat, spec_num_chunks(data.len()))
}

/// The pieces in which the decrypting pass reads a stored file.
pub open spec fn stored_chunks(data: Seq<u8>) -> Seq<Seq<u8>> {
    cut(data, ENCRYPTED_CHUNK_SIZE as nat, spec_num_encrypted_chunks(data.len()))
}

/// What a file holds after the chunks were appended to it in order.
pub open spec fn join(chunks: Seq<Seq<u8>>) -> Seq<u8>
    decreases chunks.len(),
{
    if chunks.len() == 0 {
        Seq::empty()
    } else {
        join(chunks.drop_last()) + chunks.last()
    }
}

/// What the decrypting pass writes for a stored file when `dec` is the
/// decryption under the password in use: the plaintexts of the stored chunks,
/// in order; `None` when a chunk does not decrypt.
pub open spec fn opened(dec: spec_fn(Seq<u8>) -> Option<Seq<u8>>, stored: Seq<u8>) -> Option<
    Seq<u8>,
> {
    let chunks = stored_chunks(stored);
    if forall|i: int| 0 <= i < chunks.len() ==> (#[trigger] dec(chunks[i])) is Some {
        Some(join(Seq::new(chunks.len(), |i: int| dec(chunks[i])->0)))
    } else {
        None
    }
}

proof fn lemma_mul_next(k: nat, width: nat)
    ensures
        (k + 1) * width == k * width + width,
{
    assert((k + 1) * width == k * width + width) by (nonlinear_arith);
}

/// The first `count` pieces, put together, are the bytes before piece `count`.
pub proof fn lemma_join_cut(data: Seq<u8>, width: nat, count: nat)
    requires
        width > 0,
    ensures
        join(cut(data, width, count)) == data.subrange(
            0,
            piece_start(data.len(), width, count) as int,
        ),
    decreases count,
{
    let size = data.len();
    if count == 0 {
        assert(join(cut(data, width, count)) =~= data.subrange(0, 0));
    } else {
        let before = (count - 1) as nat;
        lemma_join_cut(data, width, before);
        lemma_mul_next(before, width);
        assert(cut(data, width, count).drop_last() =~= cut(data, width, before));
        assert(cut(data, width, count).last() == piece(data, width, before));
        assert(piece_start(size, width, before) + piece_len(size, width, before) == piece_start(
            size,
            width,
            count,
        ));
        assert(join(cut(data, width, count)) =~= data.subrange(
            0,
            piece_start(size, width, count) as int,
        ));
    }
}

/// Chunk count law. A file of `size` bytes travels in `spec_num_chunks(size)`
/// chunks: every chunk before the last is full, the last holds the rest, and
/// chunk `i` starts where the chunks before it end.
pub proof fn lemma_chunk_lengths(size: nat)
    ensures
        spec_num_chunks(size) >= 1,
        size == 0 ==> spec_num_chunks(size) == 1,
        size > 0 ==> (spec_num_chunks(size) - 1) * CHUNK_SIZE < size <= spec_num_chunks(size)
            * CHUNK_SIZE,
        forall|i: nat|
            i + 1 < spec_num_chunks(size) ==> #[trigger] piece_len(size, CHUNK_SIZE as nat, i)
                == CHUNK_SIZE,
        piece_len(size, CHUNK_SIZE as nat, (spec_num_chunks(size) - 1) as nat) == size - (
        spec_num_chunks(size) - 1) * CHUNK_SIZE,
        forall|i: nat|
            i < spec_num_chunks(size) ==> #[trigger] piece_start(size, CHUNK_SIZE as nat, i) == i
                * CHUNK_SIZE,
{
    let n = spec_num_chunks(size);
    let w = CHUNK_SIZE as nat;
    lemma_pieces_bounds(size, w);
    lemma_mul_next((n - 1) as nat, w);
    assert forall|i: nat| i + 1 < n implies #[trigger] piece_len(size, w, i) == w by {
        lemma_mul_next(i, w);
        assert((i + 1) * w <= (n - 1) * w) by (nonlinear_arith)
            requires
                i + 1 <= n - 1,
        ;
    }
    assert forall|i: nat| i < n implies #[trigger] piece_start(size, w, i) == i * w by {
        assert(i * w <= (n - 1) * w) by (nonlinear_arith)
            requires
                i <= n - 1,
        ;
    }
}

/// The sum of the lengths of the first `count` chunks of a file.
pub open spec fn sent_bytes(size: nat, count: nat) -> nat
    decreases count,
{
    if count == 0 {
        0
    } else {
        sent_bytes(size, (count - 1) as nat) + piece_len(size, CHUNK_SIZE as nat, (count - 1) as nat)
    }
}

proof fn lemma_sent_bytes_upto(size: nat, count: nat)
    ensures
        sent_bytes(size, count) == piece_start(size, CHUNK_SIZE as nat, count),
    decreases count,
{
    if count > 0 {
        lemma_sent_bytes_upto(size, (count - 1) as nat);
        lemma_mul_next((count - 1) as nat, CHUNK_SIZE as nat);
    }
}

/// The lengths of all the chunks of a file add up to its size.
pub proof fn lemma_chunk_lengths_sum(size: nat)
    ensures
        sent_bytes(size, spec_num_chunks(size)) == size,
{
    lemma_sent_bytes_upto(size, spec_num_chunks(size));
    lemma_pieces_bounds(size, CHUNK_SIZE as nat);
}

/// Plain transfer. The chunks of a file, appended in the order in which they
/// were sent, give the file again.
pub proof fn lemma_plain_chunks_join(data: Seq<u8>)
    ensures
        join(plain_chunks(data)) == data,
{
    lemma_join_cut(data, CHUNK_SIZE as nat, spec_num_chunks(data.len()));
    lemma_pieces_bounds(data.len(), CHUNK_SIZE as nat);
    assert(data.subrange(0, data.len() as int) =~= data);
}

proof fn lemma_join_full(chunks: Seq<Seq<u8>>, width: nat)
    requires
        forall|i: int| 0 <= i < chunks.len() ==> (#[trigger] chunks[i]).len() == width,
    ensures
        join(chunks).len() == chunks.len() * width,
        forall|i: int|
            0 <= i < chunks.len() ==> join(chunks).subrange(i * width, i * width + width)
                == #[trigger] chunks[i],
    decreases chunks.len(),
{
    if chunks.len() == 0 {
        assert(chunks.len() * width == 0) by (nonlinear_arith)
            requires
                chunks.len() == 0,
        ;
    } else {
        let init = chunks.drop_last();
        let k = init.len();
        lemma_join_full(init, width);
        lemma_mul_next(k, width);
        assert(chunks.len() == k + 1);
        assert(join(chunks).len() == k * width + width);
        assert forall|i: int| 0 <= i < chunks.len() implies join(chunks).subrange(
            i * width,
            i * width + width,
        ) == #[trigger] chunks[i] by {
            if i < k {
                assert(i * width + width <= k * width) by (nonlinear_arith)
                    requires
                        0 <= i < k,
                ;
                assert(init[i] == chunks[i]);
                assert(join(chunks).subrange(i * width, i * width + width) =~= join(init).subrange(
                    i * width,
                    i * width + width,
                ));
            } else {
                assert(join(chunks).subrange(i * width, i * width + width) =~= chunks.last());
            }
        }
    }
}

/// Stored chunks line up again. Chunks of `width` bytes, of which only the
/// last may be shorter (but not empty), appended to one file and read back
/// `width` bytes at a time, come out as they went in.
pub proof fn lemma_cut_join(chunks: Seq<Seq<u8>>, width: nat)
    requires
        width > 0,
        chunks.len() > 0,
        forall|i: int| 0 <= i < chunks.len() - 1 ==> (#[trigger] chunks[i]).len() == width,
        0 < chunks.last().len() <= width,
    ensures
        pieces(join(chunks).len(), width) == chunks.len(),
        cut(join(chunks), width, chunks.len()) == chunks,
{
    let init = chunks.drop_last();
    let last = chunks.last();
    let k = init.len();
    let all = join(chunks);
    lemma_join_full(init, width);
    lemma_mul_next(k, width);
    assert(all.len() == k * width + last.len());
    if last.len() == width {
        vstd::arithmetic::div_mod::lemma_fundamental_div_mod_converse(
            all.len() as int,
            width as int,
            (k + 1) as int,
            0,
        );
    } else {
        vstd::arithmetic::div_mod::lemma_fundamental_div_mod_converse(
            all.len() as int,
            width as int,
            k as int,
            last.len() as int,
        );
    }
    assert forall|i: int| 0 <= i < chunks.len() implies #[trigger] cut(
        all,
        width,
        chunks.len(),
    )[i] == chunks[i] by {
        lemma_mul_next(i as nat, width);
        if i < k {
            assert(i * width + width <= k * width) by (nonlinear_arith)
                requires
                    0 <= i < k,
            ;
            assert(init[i] == chunks[i]);
            assert(piece(all, width, i as nat) =~= join(init).subrange(
                i * width,
                i * width + width,
            ));
        } else {
            assert(piece(all, width, i as nat) =~= last);
        }
    }
    assert(cut(all, width, chunks.len()) =~= chunks);
}

/// Round trip of an encrypted file. Let a file with content `data` be sent
/// encrypted: `sent` holds one ciphertext for each of its chunks, each
/// `OVERHEAD` bytes longer than its chunk, and `dec` gives back the chunk from
/// its ciphertext. After the ciphertexts were appended to one stored file in
/// order, the decrypting pass reads them at their boundaries and writes `data`.
pub proof fn lemma_round_trip(
    data: Seq<u8>,
    sent: Seq<Seq<u8>>,
    dec: spec_fn(Seq<u8>) -> Option<Seq<u8>>,
)
    requires
        sent.len() == plain_chunks(data).len(),
        forall|i: int|
            0 <= i < sent.len() ==> (#[trigger] sent[i]).len() == plain_chunks(data)[i].len()
                + OVERHEAD,
        forall|i: int| 0 <= i < sent.len() ==> dec(#[trigger] sent[i]) == Some(plain_chunks(data)[i]),
    ensures
        stored_chunks(join(sent)) == sent,
        opened(dec, join(sent)) == Some(data),
{
    let n = spec_num_chunks(data.len());
    let plain = plain_chunks(data);
    lemma_chunk_lengths(data.len());
    lemma_pieces_bounds(data.len(), CHUNK_SIZE as nat);
    assert forall|i: int| 0 <= i < sent.len() - 1 implies (#[trigger] sent[i]).len()
        == ENCRYPTED_CHUNK_SIZE by {
        assert(piece_len(data.len(), CHUNK_SIZE as nat, i as nat) == CHUNK_SIZE);
        assert(piece_start(data.len(), CHUNK_SIZE as nat, i as nat) == i * CHUNK_SIZE);
        assert(plain[i].len() == CHUNK_SIZE);
    }
    assert(0 < sent.last().len() <= ENCRYPTED_CHUNK_SIZE) by {
        assert(plain[n - 1].len() <= CHUNK_SIZE);
    }
    lemma_cut_join(sent, ENCRYPTED_CHUNK_SIZE as nat);
    assert(stored_chunks(join(sent)) == sent);
    assert(Seq::new(sent.len(), |i: int| dec(sent[i])->0) =~= plain);
    lemma_plain_chunks_join(data);
}

/// What is read for a chunk is the chunk. The bytes that a file with content
/// `data` holds in the range of chunk `index` are that chunk; the same holds
/// of a stored file and the ranges in which the decrypting pass reads it.
pub proof fn lemma_range_is_chunk(data: Seq<u8>, index: nat)
    ensures
        index < spec_num_chunks(data.len()) ==> plain_chunks(data)[index as int] == data.subrange(
            index * CHUNK_SIZE,
            index * CHUNK_SIZE + piece_len(data.len(), CHUNK_SIZE as nat, index),
        ),
        index < spec_num_encrypted_chunks(data.len()) ==> stored_chunks(data)[index as int]
            == data.subrange(
            index * ENCRYPTED_CHUNK_SIZE,
            index * ENCRYPTED_CHUNK_SIZE + piece_len(
                data.len(),
                ENCRYPTED_CHUNK_SIZE as nat,
                index,
            ),
        ),
{
    lemma_pieces_bounds(data.len(), CHUNK_SIZE as nat);
    lemma_pieces_bounds(data.len(), ENCRYPTED_CHUNK_SIZE as nat);
    if index < spec_num_chunks(data.len()) {
        assert(index * CHUNK_SIZE <= (spec_num_chunks(data.len()) - 1) * CHUNK_SIZE)
            by (nonlinear_arith)
            requires
                index <= spec_num_chunks(data.len()) - 1,
        ;
    }
    if index < spec_num_encrypted_chunks(data.len()) {
        assert(index * ENCRYPTED_CHUNK_SIZE <= (spec_num_encrypted_chunks(data.len()) - 1)
            * ENCRYPTED_CHUNK_SIZE) by (nonlinear_arith)
            requires
                index <= spec_num_encrypted_chunks(data.len()) - 1,
        ;
    }
}

} // verus!
