//! The framing codec: a value of any size crosses the wire as a key frame
//! followed by value frames of at most [`MAX_BYTE_SIZE`] bytes each.
use crate::error::{ErrorKind, Fault};
use crate::MAX_BYTE_SIZE;
use vstd::prelude::*;
use vstd::slice::{slice_subrange, slice_to_vec};

verus! {

/// The frame bodies that a vector of frames holds.
pub open spec fn bodies(frames: Seq<Vec<u8>>) -> Seq<Seq<u8>> {
    Seq::new(frames.len(), |i: int| frames[i]@)
}

/// The number of value frames that `len` bytes take: `len / MAX_BYTE_SIZE`,
/// rounded up.
pub open spec fn chunk_count(len: nat) -> nat {
    if len % (MAX_BYTE_SIZE as nat) == 0 {
        len / (MAX_BYTE_SIZE as nat)
    } else {
        len / (MAX_BYTE_SIZE as nat) + 1
    }
}

/// Where the value frame `i` ends in a value of `len` bytes.
pub open spec fn chunk_end(len: nat, i: int) -> int {
    if (i + 1) * MAX_BYTE_SIZE <= len {
        (i + 1) * MAX_BYTE_SIZE
    } else {
        len as int
    }
}

/// The value frame `i` of `value`: the bytes from `i * MAX_BYTE_SIZE` up to
/// the next multiple of the frame size, or to the end of the value.
pub open spec fn chunk(value: Seq<u8>, i: int) -> Seq<u8> {
    value.subrange(i * MAX_BYTE_SIZE, chunk_end(value.len(), i))
}

/// The first `n` value frames of `value`.
pub open spec fn chunks_upto(value: Seq<u8>, n: nat) -> Seq<Seq<u8>> {
    Seq::new(n, |i: int| chunk(value, i))
}

/// All value frames of `value`, in order.
pub open spec fn chunks(value: Seq<u8>) -> Seq<Seq<u8>> {
    chunks_upto(value, chunk_count(value.len()))
}

/// The stream that carries `value` under `key`: the key frame, then the
/// value frames.
pub open spec fn stream(key: Seq<u8>, value: Seq<u8>) -> Seq<Seq<u8>> {
    seq![key] + chunks(value)
}

/// The frame bodies `parts` laid end to end.
pub open spec fn joined(parts: Seq<Seq<u8>>) -> Seq<u8>
    decreases parts.len(),
{
    if parts.len() == 0 {
        Seq::empty()
    } else {
        joined(parts.drop_last()) + parts.last()
    }
}

/// What a received stream carries: the first frame is the key and the rest,
/// laid end to end, is the value. An empty stream carries nothing.
pub open spec fn carried(frames: Seq<Seq<u8>>) -> Option<(Seq<u8>, Seq<u8>)> {
    if frames.len() == 0 {
        None
    } else {
        Some((frames[0], joined(frames.subrange(1, frames.len() as int))))
    }
}

/// What receiving an empty stream fails with.
pub open spec fn malformed() -> (ErrorKind, Seq<char>) {
    (ErrorKind::MalformedStream, "Stream without a key frame"@)
}

/// The chunking decision: a value goes out as a stream exactly when it is
/// longer than one frame.
pub open spec fn oversize_len(len: nat) -> bool {
    len > MAX_BYTE_SIZE
}

/// True when a value of `len` bytes must go out as a stream.
pub fn is_oversize(len: usize) -> (streamed: bool)
    ensures
        streamed == oversize_len(len as nat),
{
    len > MAX_BYTE_SIZE
}

/// The number of value frames that a value of `len` bytes is sent in.
pub fn frame_count(len: usize) -> (n: usize)
    ensures
        n == chunk_count(len as nat),
{
    if len % MAX_BYTE_SIZE == 0 {
        len / MAX_BYTE_SIZE
    } else {
        len / MAX_BYTE_SIZE + 1
    }
}

/// Every value frame but the last is full, and none is longer than a frame.
pub proof fn lemma_chunk_len(value: Seq<u8>, i: int)
    requires
        0 <= i < chunk_count(value.len()),
    ensures
        0 <= i * MAX_BYTE_SIZE < value.len(),
        i * MAX_BYTE_SIZE < chunk_end(value.len(), i) <= value.len(),
        chunk(value, i).len() == chunk_end(value.len(), i) - i * MAX_BYTE_SIZE,
        0 < chunk(value, i).len() <= MAX_BYTE_SIZE,
        i + 1 < chunk_count(value.len()) ==> chunk(value, i).len() == MAX_BYTE_SIZE,
        i + 1 == chunk_count(value.len()) ==> chunk_end(value.len(), i) == value.len(),
{
    let len = value.len() as int;
    let max = MAX_BYTE_SIZE as int;
    assert(len == max * (len / max) + len % max) by (nonlinear_arith)
        requires
            max > 0,
    ;
    let q = len / max;
    assert(i * max <= q * max - max || i >= q) by (nonlinear_arith)
        requires
            max > 0,
    ;
}

/// The value frame `i` of `value`, copied out.
pub fn chunk_at(value: &[u8], i: usize) -> (body: Vec<u8>)
    requires
        i < chunk_count(value@.len()),
    ensures
        body@ == chunk(value@, i as int),
{
    proof {
        lemma_chunk_len(value@, i as int);
    }
    let len = value.len();
    let start: usize = i * MAX_BYTE_SIZE;
    let end: usize = if len - start > MAX_BYTE_SIZE {
        start + MAX_BYTE_SIZE
    } else {
        len
    };
    slice_to_vec(slice_subrange(value, start, end))
}

/// The first `n` value frames, laid end to end, are the first bytes of the
/// value: up to the end of frame `n - 1`.
pub proof fn lemma_joined_chunks_upto(value: Seq<u8>, n: nat)
    requires
        n <= chunk_count(value.len()),
    ensures
        joined(chunks_upto(value, n)) == value.subrange(
            0,
            if n == 0 {
                0
            } else {
                chunk_end(value.len(), n - 1)
            },
        ),
    decreases n,
{
    if n > 0 {
        let m = (n - 1) as nat;
        lemma_joined_chunks_upto(value, m);
        lemma_chunk_len(value, m as int);
        if m > 0 {
            lemma_chunk_len(value, m - 1);
        }
        assert(chunks_upto(value, n).drop_last() =~= chunks_upto(value, m));
    }
}

/// The value frames of a value, laid end to end, are the value.
pub proof fn lemma_joined_chunks(value: Seq<u8>)
    ensures
        joined(chunks(value)) == value,
{
    let n = chunk_count(value.len());
    lemma_joined_chunks_upto(value, n);
    if n > 0 {
        lemma_chunk_len(value, n - 1);
    }
}

/// Framing loses nothing: the stream emitted for a key and a value carries
/// that key and that value.
pub proof fn lemma_stream_round_trip(key: Seq<u8>, value: Seq<u8>)
    ensures
        carried(stream(key, value)) == Some((key, value)),
{
    let s = stream(key, value);
    lemma_joined_chunks(value);
    assert(s.subrange(1, s.len() as int) =~= chunks(value));
}

/// A stream has one key frame and as many value frames as the value's length
/// asks for.
pub proof fn lemma_stream_len(key: Seq<u8>, value: Seq<u8>)
    ensures
        stream(key, value).len() == 1 + chunk_count(value.len()),
        stream(key, value)[0] == key,
        forall|i: int|
            0 <= i < chunk_count(value.len()) ==> #[trigger] stream(key, value)[i + 1] == chunk(
                value,
                i,
            ),
{
}

/// Splits `value` into frames and puts the key frame in front.
pub fn emit(key: &[u8], value: &[u8]) -> (frames: Vec<Vec<u8>>)
    ensures
        bodies(frames@) == stream(key@, value@),
{
    let count = frame_count(value.len());
    let mut frames: Vec<Vec<u8>> = Vec::new();
    frames.push(slice_to_vec(key));
    let mut i: usize = 0;
    while i < count
        invariant
            i <= count,
            count == chunk_count(value@.len()),
            frames@.len() == i + 1,
            bodies(frames@) == seq![key@] + chunks_upto(value@, i as nat),
        decreases count - i,
    {
        let ghost sent = frames@;
        let body = chunk_at(value, i);
        frames.push(body);
        i += 1;
        assert forall|j: int| 0 <= j < frames@.len() implies bodies(frames@)[j] == (seq![key@]
            + chunks_upto(value@, i as nat))[j] by {
            if j < sent.len() {
                assert(bodies(sent)[j] == (seq![key@] + chunks_upto(value@, (i - 1) as nat))[j]);
            }
        }
    }
    frames
}

/// Puts a received stream back together: the key from the first frame, the
/// value from the rest. A stream without frames is malformed.
pub fn receive(frames: &Vec<Vec<u8>>) -> (r: Result<(Vec<u8>, Vec<u8>), Fault>)
    ensures
        match carried(bodies(frames@)) {
            Some((key, value)) => r matches Ok((k, v)) && k@ == key && v@ == value,
            None => r matches Err(fault) && fault@ == malformed(),
        },
{
    if frames.len() == 0 {
        return Err(Fault::new(ErrorKind::MalformedStream, "Stream without a key frame"));
    }
    let key = frames[0].clone();
    let mut value: Vec<u8> = Vec::new();
    let ghost all = bodies(frames@);
    let mut i: usize = 1;
    while i < frames.len()
        invariant
            1 <= i <= frames.len(),
            all == bodies(frames@),
            value@ == joined(all.subrange(1, i as int)),
        decreases frames.len() - i,
    {
        let body = frames[i].as_slice();
        value.extend_from_slice(body);
        assert(all.subrange(1, i + 1).drop_last() =~= all.subrange(1, i as int));
        i += 1;
    }
    Ok((key, value))
}

} // verus!
