//! Fixed-capacity, NUL-padded byte buffers, as the control record holds its
//! backing path and its label.
use vstd::prelude::*;

verus! {

/// `bytes` followed by NUL bytes up to `capacity` bytes in all.
pub open spec fn padded(bytes: Seq<u8>, capacity: nat) -> Seq<u8> {
    bytes + Seq::new((capacity - bytes.len()) as nat, |_i: int| 0u8)
}

/// `bytes` fits a buffer of `capacity` bytes together with its terminator.
pub open spec fn fits(bytes: Seq<u8>, capacity: nat) -> bool {
    bytes.len() < capacity
}

/// `bytes` holds no NUL byte.
pub open spec fn nul_free(bytes: Seq<u8>) -> bool {
    forall|i: int| 0 <= i < bytes.len() ==> bytes[i] != 0u8
}

/// `text` is what a reader of the NUL-terminated buffer `buf` finds in it: the
/// bytes before the first NUL.
pub open spec fn is_text_of(text: Seq<u8>, buf: Seq<u8>) -> bool {
    &&& text.len() < buf.len()
    &&& buf.take(text.len() as int) == text
    &&& nul_free(text)
    &&& buf[text.len() as int] == 0u8
}

/// Copies `bytes` into a buffer of `capacity` bytes, padded with NULs, or
/// gives `None` where `bytes` and a terminator do not fit.
pub fn encode_fixed(bytes: &[u8], capacity: usize) -> (r: Option<Vec<u8>>)
    ensures
        r.is_some() <==> fits(bytes@, capacity as nat),
        r.is_some() ==> r.unwrap()@ == padded(bytes@, capacity as nat),
{
    if bytes.len() >= capacity {
        return None;
    }
    let mut buf: Vec<u8> = Vec::with_capacity(capacity);
    let mut i: usize = 0;
    while i < bytes.len()
        invariant
            i <= bytes@.len(),
            buf@ == bytes@.take(i as int),
        decreases bytes@.len() - i,
    {
        buf.push(bytes[i]);
        i = i + 1;
        assert(buf@ =~= bytes@.take(i as int));
    }
    assert(bytes@.take(bytes@.len() as int) =~= bytes@);
    while buf.len() < capacity
        invariant
            bytes@.len() <= buf@.len() <= capacity,
            buf@ == padded(bytes@, (buf@.len()) as nat),
        decreases capacity - buf@.len(),
    {
        buf.push(0u8);
        assert(buf@ =~= padded(bytes@, (buf@.len()) as nat));
    }
    Some(buf)
}

/// A NUL-free text that fits is read back unchanged from its padded buffer.
pub proof fn lemma_padded_text(bytes: Seq<u8>, capacity: nat)
    requires
        fits(bytes, capacity),
        nul_free(bytes),
    ensures
        is_text_of(bytes, padded(bytes, capacity)),
{
    let buf = padded(bytes, capacity);
    assert(buf.take(bytes.len() as int) =~= bytes);
}

} // verus!
