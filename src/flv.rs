//! The FLV container signature and the header that repairs a stream that
//! starts without one.
use vstd::prelude::*;

verus! {

/// The three signature bytes `F`, `L`, `V`.
pub open spec fn flv_signature() -> Seq<u8> {
    seq![0x46u8, 0x4cu8, 0x56u8]
}

/// A minimal FLV file header: signature, version 1, flags for audio and
/// video, a header length of 9 (big-endian), then a zero `PreviousTagSize0`.
pub open spec fn flv_header() -> Seq<u8> {
    seq![
        0x46u8, 0x4cu8, 0x56u8, 0x01u8, 0x05u8,
        0x00u8, 0x00u8, 0x00u8, 0x09u8,
        0x00u8, 0x00u8, 0x00u8, 0x00u8,
    ]
}

/// A chunk lacks the signature when it holds at least three bytes and they
/// are not `FLV`. A shorter chunk is never taken to lack it.
pub open spec fn lacks_signature(chunk: Seq<u8>) -> bool {
    chunk.len() >= 3 && chunk.subrange(0, 3) != flv_signature()
}

/// What a client is sent for the first chunk of the upstream body.
pub open spec fn repaired(chunk: Seq<u8>) -> Seq<u8> {
    if lacks_signature(chunk) {
        flv_header() + chunk
    } else {
        chunk
    }
}

/// The bytes put in front of the upstream body: the header when the first
/// chunk lacks the signature, nothing otherwise.
pub open spec fn header_prefix(injected: bool) -> Seq<u8> {
    if injected {
        flv_header()
    } else {
        Seq::empty()
    }
}

/// Builds the minimal FLV file header.
pub fn flv_header_bytes() -> (r: Vec<u8>)
    ensures
        r@ == flv_header(),
{
    let r: Vec<u8> = vec![
        0x46u8, 0x4cu8, 0x56u8, 0x01u8, 0x05u8,
        0x00u8, 0x00u8, 0x00u8, 0x09u8,
        0x00u8, 0x00u8, 0x00u8, 0x00u8,
    ];
    assert(r@ =~= flv_header());
    r
}

/// Whether `chunk` holds at least three bytes that are not the signature.
pub fn chunk_lacks_signature(chunk: &[u8]) -> (r: bool)
    ensures
        r == lacks_signature(chunk@),
{
    if chunk.len() < 3 {
        return false;
    }
    let same = chunk[0] == 0x46u8 && chunk[1] == 0x4cu8 && chunk[2] == 0x56u8;
    if same {
        assert(chunk@.subrange(0, 3) =~= flv_signature());
    } else {
        assert(chunk@.subrange(0, 3)[0] == chunk@[0]);
        assert(chunk@.subrange(0, 3)[1] == chunk@[1]);
        assert(chunk@.subrange(0, 3)[2] == chunk@[2]);
    }
    !same
}

/// The bytes a client receives for the first upstream chunk: the chunk
/// itself, behind a synthesized header when it lacks the signature.
pub fn repair_first_chunk(chunk: &[u8]) -> (r: Vec<u8>)
    ensures
        r@ == repaired(chunk@),
{
    let mut out: Vec<u8> = if chunk_lacks_signature(chunk) {
        flv_header_bytes()
    } else {
        Vec::new()
    };
    let ghost start = out@;
    out.extend_from_slice(chunk);
    assert(out@ =~= start + chunk@);
    proof {
        if lacks_signature(chunk@) {
            assert(start == flv_header());
        } else {
            assert(start =~= Seq::<u8>::empty());
        }
    }
    out
}

/// A chunk that starts with `FLV` passes unchanged; one of at least three
/// bytes that does not gets exactly the minimal header in front of it.
pub proof fn lemma_signature_repair(chunk: Seq<u8>)
    ensures
        chunk.len() >= 3 && chunk.subrange(0, 3) == flv_signature() ==> repaired(chunk) == chunk,
        lacks_signature(chunk) ==> repaired(chunk) == flv_header() + chunk
            && repaired(chunk).subrange(0, 13) == flv_header()
            && repaired(chunk).subrange(13, repaired(chunk).len() as int) == chunk,
        chunk.len() < 3 ==> repaired(chunk) == chunk,
{
    if lacks_signature(chunk) {
        let r = flv_header() + chunk;
        assert(r.subrange(0, 13) =~= flv_header());
        assert(r.subrange(13, r.len() as int) =~= chunk);
    }
}

} // verus!
