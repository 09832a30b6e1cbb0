//! The transcript into which the commitment engines absorb commitments.

use vstd::prelude::*;

verus! {

/// The label under which a polynomial commitment is absorbed.
pub open spec fn poly_com_label_bytes() -> Seq<u8> {
    seq![112u8, 111u8, 108u8, 121u8, 95u8, 99u8, 111u8, 109u8]
}

/// The bytes of the label `poly_com`.
pub fn poly_com_label() -> (r: Vec<u8>)
    ensures
        r@ == poly_com_label_bytes(),
{
    let r: Vec<u8> = vec![112u8, 111u8, 108u8, 121u8, 95u8, 99u8, 111u8, 109u8];
    assert(r@ =~= poly_com_label_bytes());
    r
}

/// A Fiat-Shamir transcript. Its model is the stream of bytes absorbed so far:
/// absorbing a labelled message appends the label, then the message.
pub trait TranscriptEngineTrait {
    spec fn absorbed(&self) -> Seq<u8>;

    fn absorb(&mut self, label: &[u8], bytes: &[u8])
        ensures
            final(self).absorbed() == old(self).absorbed() + label@ + bytes@,
    ;
}

/// Appends `src` to `dst`.
pub fn push_all(dst: &mut Vec<u8>, src: &[u8])
    ensures
        final(dst)@ == old(dst)@ + src@,
{
    let ghost start = dst@;
    let mut i: usize = 0;
    while i < src.len()
        invariant
            i <= src@.len(),
            dst@ == start + src@.take(i as int),
        decreases src@.len() - i,
    {
        dst.push(src[i]);
        i = i + 1;
        assert(dst@ =~= start + src@.take(i as int));
    }
    assert(src@.take(src@.len() as int) =~= src@);
}

/// A transcript that keeps the absorbed byte stream as it is.
pub struct ByteTranscript {
    bytes: Vec<u8>,
}

impl ByteTranscript {
    /// An empty transcript.
    pub fn new() -> (t: ByteTranscript)
        ensures
            t.absorbed() == Seq::<u8>::empty(),
    {
        ByteTranscript { bytes: Vec::new() }
    }

    /// The bytes absorbed so far.
    pub fn as_bytes(&self) -> (r: &[u8])
        ensures
            r@ == self.absorbed(),
    {
        self.bytes.as_slice()
    }
}

impl TranscriptEngineTrait for ByteTranscript {
    closed spec fn absorbed(&self) -> Seq<u8> {
        self.bytes@
    }

    fn absorb(&mut self, label: &[u8], bytes: &[u8]) {
        push_all(&mut self.bytes, label);
        push_all(&mut self.bytes, bytes);
    }
}

} // verus!
