//! The simulator's fake serial friends: COBS framing of the messages they
//! exchange, and the accumulator that decodes the frames received.
use vstd::prelude::*;

verus! {

/// The network friends of the simulator.
pub struct NetFriends {}

/// What `cobs::decode_vec` makes of `src`: the decoded message, or `None`
/// where it fails.
pub uninterp spec fn cobs_decoding(src: Seq<u8>) -> Option<Seq<u8>>;

/// What `cobs::encode_vec` makes of `src`.
pub uninterp spec fn cobs_encoding(src: Seq<u8>) -> Seq<u8>;

/// Calls `cobs::decode_vec`. Its result is named `cobs_decoding(src)`; as
/// the crate's source shows, a decoded message is no longer than its
/// encoding. What the decoding is, is not stated here.
#[verifier::external_body]
fn cobs_decode_vec(src: &[u8]) -> (r: Result<Vec<u8>, ()>)
    ensures
        match r {
            Ok(v) => cobs_decoding(src@) == Some(v@) && v@.len() <= src@.len(),
            Err(_) => cobs_decoding(src@) is None,
        },
{
    cobs::decode_vec(src)
}

/// Calls `cobs::encode_vec`. Its result is named `cobs_encoding(src)`; as
/// the crate's source shows, it is at most `max_encoding_length` bytes
/// long, and empty for an empty message. The encoding itself is not stated
/// here.
#[verifier::external_body]
fn cobs_encode_vec(src: &[u8]) -> (r: Vec<u8>)
    requires
        src@.len() + src@.len() / 254 + 1 <= usize::MAX,
    ensures
        r@ == cobs_encoding(src@),
        r@.len() <= src@.len() + src@.len() / 254 + (if src@.len() % 254 > 0 { 1int } else { 0int }),
        src@.len() == 0 ==> r@.len() == 0,
{
    cobs::encode_vec(src)
}

/// COBS-encodes a message.
pub fn encode(src: &[u8]) -> (r: Vec<u8>)
    requires
        src@.len() + src@.len() / 254 + 1 <= usize::MAX,
    ensures
        r@ == cobs_encoding(src@),
        src@.len() == 0 ==> r@.len() == 0,
{
    cobs_encode_vec(src)
}

/// What feeding bytes to the accumulator gives.
pub enum AccOut {
    /// A frame was decoded; the bytes from `rem` on are left over.
    MessageRem { msg: Vec<u8>, rem: usize },
    /// A frame failed to decode; the bytes from `rem` on are left over.
    ErrorRem { rem: usize },
    /// Every byte was taken in; no frame ended.
    Consumed,
}

/// Collects the bytes of a COBS frame until it ends.
pub struct Accumulator {
    pub buffer: Vec<u8>,
}

/// `e` is where the first frame of a non-empty `s` ends: just past its
/// first zero byte, or at its end when it has none.
pub open spec fn frame_end(s: Seq<u8>, e: int) -> bool {
    &&& 0 < e <= s.len()
    &&& forall|j: int| 0 <= j < e - 1 ==> s[j] != 0
    &&& (s[e - 1] == 0 || e == s.len())
}

/// The outcome for a frame whose decoding came out as `decoded`, with the
/// bytes from `rem` on left over.
pub fn frame_outcome(decoded: Result<Vec<u8>, ()>, rem: usize) -> (r: AccOut)
    ensures
        match decoded {
            Ok(v) => r matches AccOut::MessageRem { msg, rem: k } && msg@ == v@ && k == rem,
            Err(_) => r matches AccOut::ErrorRem { rem: k } && k == rem,
        },
{
    match decoded {
        Ok(v) => AccOut::MessageRem { msg: v, rem },
        Err(_) => AccOut::ErrorRem { rem },
    }
}

impl Accumulator {
    /// An empty accumulator.
    pub fn new() -> (r: Accumulator)
        ensures
            r.buffer@ == Seq::<u8>::empty(),
    {
        Accumulator { buffer: Vec::new() }
    }

    /// Feeds bytes in. From a non-empty `buf` the bytes up to and including
    /// the first zero (or all of them, without one) end the frame begun in
    /// the buffer: it is decoded, the buffer is emptied, and the outcome
    /// tells where the rest of `buf` begins. An empty `buf` changes nothing.
    pub fn feed(&mut self, buf: &[u8]) -> (r: AccOut)
        requires
            old(self).buffer@.len() + buf@.len() <= usize::MAX,
        ensures
            buf@.len() == 0 ==> r is Consumed && final(self).buffer@ == old(self).buffer@,
            buf@.len() > 0 ==> exists|e: int| frame_end(buf@, e) && final(self).buffer@ == Seq::<u8>::empty()
                && match cobs_decoding(old(self).buffer@ + buf@.take(e)) {
                    Some(m) => r matches AccOut::MessageRem { msg, rem } && msg@ == m && rem == e,
                    None => r matches AccOut::ErrorRem { rem } && rem == e,
                },
    {
        if buf.len() == 0 {
            return AccOut::Consumed;
        }
        let mut e: usize = 0;
        while e < buf.len() && buf[e] != 0
            invariant
                e <= buf@.len(),
                forall|j: int| 0 <= j < e ==> buf@[j] != 0,
            decreases buf@.len() - e,
        {
            e += 1;
        }
        let end = if e < buf.len() { e + 1 } else { e };
        let ghost b0 = self.buffer@;
        let mut i: usize = 0;
        while i < end
            invariant
                end <= buf@.len(),
                i <= end,
                b0.len() + buf@.len() <= usize::MAX,
                self.buffer@ == b0 + buf@.take(i as int),
            decreases end - i,
        {
            self.buffer.push(buf[i]);
            proof {
                assert(buf@.take(i + 1) == buf@.take(i as int).push(buf@[i as int]));
            }
            i += 1;
        }
        let out = cobs_decode_vec(self.buffer.as_slice());
        self.buffer.clear();
        proof {
            assert(frame_end(buf@, end as int));
        }
        frame_outcome(out, end)
    }
}

} // verus!
