use vstd::bytes::lemma_auto_spec_u32_to_from_le_bytes;
use vstd::bytes::spec_u32_from_le_bytes;
use vstd::bytes::spec_u32_to_le_bytes;
use vstd::bytes::u32_from_le_bytes;
use vstd::bytes::u32_to_le_bytes;
use vstd::prelude::*;

verus! {

/// Largest payload one frame may declare, in bytes.
pub const MAX_MESSAGE_SIZE: u32 = 1024 * 1024;

/// The payload length a frame header declares: its four bytes read as a
/// little-endian unsigned integer.
pub open spec fn frame_declared_len(header: Seq<u8>) -> u32 {
    spec_u32_from_le_bytes(header)
}

/// Reads a frame header and returns the declared payload length. A
/// declaration above the 1 MiB bound is rejected here, on the four header
/// bytes alone, so a corrupt or hostile stream never causes a payload-sized
/// allocation.
pub fn decode_frame_len(header: &[u8]) -> (r: Result<u32, String>)
    requires
        header@.len() == 4,
    ensures
        r is Ok <==> frame_declared_len(header@) <= MAX_MESSAGE_SIZE,
        r matches Ok(n) ==> n == frame_declared_len(header@),
        r matches Err(e) ==> e@ == "Message too large"@,
{
    let n = u32_from_le_bytes(header);
    if n > MAX_MESSAGE_SIZE {
        Err(String::from_str("Message too large"))
    } else {
        Ok(n)
    }
}

/// Builds one frame: the payload length as four little-endian bytes, then
/// the payload itself.
pub fn encode_frame(msg: &[u8]) -> (r: Vec<u8>)
    requires
        msg@.len() <= u32::MAX,
    ensures
        r@ == spec_u32_to_le_bytes(msg@.len() as u32) + msg@,
{
    let len_bytes = u32_to_le_bytes(msg.len() as u32);
    let mut out = len_bytes;
    let mut i: usize = 0;
    while i < msg.len()
        invariant
            0 <= i <= msg@.len(),
            out@ == spec_u32_to_le_bytes(msg@.len() as u32) + msg@.take(i as int),
        decreases msg@.len() - i,
    {
        out.push(msg[i]);
        i += 1;
        proof {
            assert(out@ =~= spec_u32_to_le_bytes(msg@.len() as u32) + msg@.take(i as int));
        }
    }
    proof {
        assert(msg@.take(msg@.len() as int) =~= msg@);
    }
    out
}

/// A frame built from a payload declares exactly that payload's length, and
/// the bytes after its header are the payload again: framing loses nothing,
/// and a payload within the 1 MiB bound is always accepted on the way back.
pub proof fn lemma_frame_roundtrip(msg: Seq<u8>)
    requires
        msg.len() <= MAX_MESSAGE_SIZE,
    ensures
        ({
            let framed = spec_u32_to_le_bytes(msg.len() as u32) + msg;
            &&& frame_declared_len(framed.take(4)) == msg.len()
            &&& framed.skip(4) == msg
        }),
{
    lemma_auto_spec_u32_to_from_le_bytes();
    let framed = spec_u32_to_le_bytes(msg.len() as u32) + msg;
    assert(framed.take(4) =~= spec_u32_to_le_bytes(msg.len() as u32));
    assert(framed.skip(4) =~= msg);
}

} // verus!
