//! Nul-terminated argument buffers and the small vector that holds them.
use vstd::prelude::*;

use crate::error::NulError;

verus! {

/// Whether `b` holds a nul byte anywhere.
pub open spec fn has_nul(b: Seq<u8>) -> bool {
    exists|i: int| 0 <= i < b.len() && b[i] == 0
}

/// Whether `i` is the position of the first nul byte of `b`.
pub open spec fn is_first_nul(b: Seq<u8>, i: int) -> bool {
    &&& 0 <= i < b.len()
    &&& b[i] == 0
    &&& forall|j: int| 0 <= j < i ==> b[j] != 0
}

/// The buffer handed across the boundary for the text `text`: its bytes and
/// one terminating nul.
pub open spec fn c_buffer_of(text: Seq<u8>) -> Seq<u8> {
    text.push(0)
}

/// Whether `buf` is a valid nul-terminated buffer: it ends with its only nul.
pub open spec fn is_c_buffer(buf: Seq<u8>) -> bool {
    &&& buf.len() > 0
    &&& buf.last() == 0
    &&& !has_nul(buf.drop_last())
}

/// The text that a nul-terminated buffer holds: all bytes before the nul.
pub open spec fn text_of(buf: Seq<u8>) -> Seq<u8> {
    buf.drop_last()
}

/// Turning a text without nul into a buffer and reading it back gives the
/// same bytes, and a valid buffer read and turned back again is unchanged:
/// the terminating nul is added once, never twice.
pub proof fn lemma_c_buffer_round_trip(text: Seq<u8>, buf: Seq<u8>)
    requires
        !has_nul(text),
        is_c_buffer(buf),
    ensures
        is_c_buffer(c_buffer_of(text)),
        text_of(c_buffer_of(text)) == text,
        c_buffer_of(text_of(buf)) == buf,
        !has_nul(text_of(buf)),
{
    assert(c_buffer_of(text).drop_last() =~= text);
    assert(c_buffer_of(text_of(buf)) =~= buf);
}

/// Turns `bytes` into a nul-terminated buffer, refusing bytes that hold a
/// nul of their own.
pub fn c_buffer(bytes: Vec<u8>) -> (r: Result<Vec<u8>, NulError>)
    ensures
        r is Ok <==> !has_nul(bytes@),
        r matches Ok(buf) ==> buf@ == c_buffer_of(bytes@),
        r matches Err(e) ==> e.bytes@ == bytes@ && is_first_nul(bytes@, e.position as int),
{
    let n = bytes.len();
    let mut i: usize = 0;
    while i < n
        invariant
            n == bytes.len(),
            i <= n,
            forall|j: int| 0 <= j < i ==> bytes@[j] != 0,
        decreases n - i,
    {
        if bytes[i] == 0 {
            return Err(NulError { position: i, bytes });
        }
        i = i + 1;
    }
    let mut buf = bytes;
    buf.push(0);
    Ok(buf)
}

/// The most arguments a command holds, program name included.
pub const MAX_ARGS: usize = 0x0400_0000;

/// The argument buffers, held in smallvec's vector so that up to five stay
/// inline. Opaque to the proofs: its items are named by [`arg_vec_items`].
#[verifier::external_body]
pub struct ArgVec {
    items: smallvec::SmallVec<[Vec<u8>; 5]>,
}

/// The items of a vector of argument buffers, in order.
pub uninterp spec fn arg_vec_items(v: ArgVec) -> Seq<Vec<u8>>;

/// Relies on `SmallVec::new`: a vector without items.
#[verifier::external_body]
pub(crate) fn arg_vec_new() -> (r: ArgVec)
    ensures
        arg_vec_items(r).len() == 0,
{
    ArgVec { items: smallvec::SmallVec::new() }
}

/// Relies on `SmallVec::push`: the item is appended after the others. It
/// panics only when the grown capacity overflows, which below
/// [`MAX_ARGS`] items cannot happen on a 32-bit or a 64-bit target.
#[verifier::external_body]
pub(crate) fn arg_vec_push(v: &mut ArgVec, item: Vec<u8>)
    requires
        arg_vec_items(*old(v)).len() < MAX_ARGS,
    ensures
        arg_vec_items(*final(v)) == arg_vec_items(*old(v)).push(item),
{
    v.items.push(item)
}

/// Relies on `SmallVec::len`: the number of items.
#[verifier::external_body]
pub(crate) fn arg_vec_len(v: &ArgVec) -> (r: usize)
    ensures
        r == arg_vec_items(*v).len(),
{
    v.items.len()
}

/// Relies on `SmallVec::as_slice`: the item at index `i`.
#[verifier::external_body]
pub(crate) fn arg_vec_get(v: &ArgVec, i: usize) -> (r: &Vec<u8>)
    requires
        i < arg_vec_items(*v).len(),
    ensures
        *r == arg_vec_items(*v)[i as int],
{
    &v.items.as_slice()[i]
}

} // verus!
