//! Concatenating the buffered chunks of a message body into one contiguous
//! buffer.
//!
//! The streaming side — awaiting each chunk as the body produces it — is the
//! host's business; once the chunks are in hand, [`to_bytes`] flattens them
//! into a single `bytes::Bytes` value. With no chunk the result is empty, and
//! with a single chunk its buffer is handed over without copying.

use vstd::prelude::*;

verus! {

#[verifier::external_type_specification]
#[verifier::external_body]
pub struct ExBytes(bytes::Bytes);

/// The bytes a `bytes::Bytes` value holds, in order.
pub uninterp spec fn bytes_of(b: bytes::Bytes) -> Seq<u8>;

/// Relies on bytes::Bytes::new: creates an empty Bytes value.
#[verifier::external_body]
fn bytes_new() -> (r: bytes::Bytes)
    ensures
        bytes_of(r) == Seq::<u8>::empty(),
{
    bytes::Bytes::new()
}

/// Relies on the From<Vec<u8>> impl of bytes::Bytes: it takes over the
/// vector's buffer, so the Bytes holds exactly the vector's bytes.
#[verifier::external_body]
fn bytes_from_vec(v: Vec<u8>) -> (r: bytes::Bytes)
    ensures
        bytes_of(r) == v@,
{
    bytes::Bytes::from(v)
}

/// The views of a vector of chunks, in order.
pub open spec fn chunks_view(chunks: Seq<Vec<u8>>) -> Seq<Seq<u8>> {
    chunks.map_values(|c: Vec<u8>| c@)
}

/// The concatenation of a sequence of chunks, in order.
pub open spec fn concat_of(chunks: Seq<Seq<u8>>) -> Seq<u8>
    decreases chunks.len(),
{
    if chunks.len() == 0 {
        Seq::empty()
    } else {
        concat_of(chunks.drop_last()) + chunks.last()
    }
}

/// Extending a concatenation by one more chunk appends that chunk.
proof fn lemma_concat_take_step(chunks: Seq<Seq<u8>>, i: int)
    requires
        0 <= i < chunks.len(),
    ensures
        concat_of(chunks.take(i + 1)) == concat_of(chunks.take(i)) + chunks[i],
{
    assert(chunks.take(i + 1).drop_last() =~= chunks.take(i));
    assert(chunks.take(i + 1).last() == chunks[i]);
}

/// Concatenate the buffered chunks of a body into a single contiguous value:
/// the result holds exactly the chunks' bytes, in order.
pub fn to_bytes(chunks: Vec<Vec<u8>>) -> (r: bytes::Bytes)
    ensures
        bytes_of(r) == concat_of(chunks_view(chunks@)),
{
    let ghost target: Seq<Seq<u8>> = chunks_view(chunks@);
    if chunks.len() == 0 {
        return bytes_new();
    }
    if chunks.len() == 1 {
        // One chunk: hand its buffer over without flattening.
        let mut chunks = chunks;
        let only = chunks.pop().unwrap();
        proof {
            assert(target =~= target.take(1));
            lemma_concat_take_step(target, 0);
            assert(concat_of(target.take(0)) =~= Seq::<u8>::empty());
            assert(concat_of(target) =~= only@);
        }
        return bytes_from_vec(only);
    }
    let mut flat: Vec<u8> = Vec::new();
    let mut i: usize = 0;
    proof {
        assert(concat_of(target.take(0)) =~= Seq::<u8>::empty());
    }
    while i < chunks.len()
        invariant
            i <= chunks.len(),
            target == chunks_view(chunks@),
            flat@ == concat_of(target.take(i as int)),
        decreases chunks.len() - i,
    {
        let chunk = &chunks[i];
        proof {
            assert(flat@ =~= concat_of(target.take(i as int)) + chunk@.take(0));
        }
        let mut j: usize = 0;
        while j < chunk.len()
            invariant
                j <= chunk.len(),
                i < chunks.len(),
                target == chunks_view(chunks@),
                chunk@ == target[i as int],
                flat@ == concat_of(target.take(i as int)) + chunk@.take(j as int),
            decreases chunk.len() - j,
        {
            flat.push(chunk[j]);
            j = j + 1;
        }
        proof {
            assert(chunk@.take(chunk@.len() as int) =~= chunk@);
            lemma_concat_take_step(target, i as int);
        }
        i = i + 1;
    }
    proof {
        assert(target.take(chunks@.len() as int) =~= target);
    }
    bytes_from_vec(flat)
}

} // verus!
