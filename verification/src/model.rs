//! Views of sequences and of optional values, element by element.

use vstd::prelude::*;

verus! {

/// The views of the elements of a sequence.
pub open spec fn views<T: View>(items: Seq<T>) -> Seq<T::V> {
    Seq::new(items.len(), |i: int| items[i]@)
}

/// The view of an optional value.
pub open spec fn opt_view<T: View>(value: Option<T>) -> Option<T::V> {
    match value {
        Some(inner) => Some(inner@),
        None => None,
    }
}

/// A copy of an optional text.
pub fn copy_opt_text(text: &Option<String>) -> (r: Option<String>)
    ensures
        r == *text,
{
    match text {
        Some(inner) => Some(inner.clone()),
        None => None,
    }
}

/// A copy of a byte sequence.
pub fn copy_bytes(bytes: &Vec<u8>) -> (r: Vec<u8>)
    ensures
        r@ == bytes@,
{
    let mut out: Vec<u8> = Vec::new();
    let mut i: usize = 0;
    while i < bytes.len()
        invariant
            i <= bytes.len(),
            out@ == bytes@.subrange(0, i as int),
        decreases bytes.len() - i,
    {
        out.push(bytes[i]);
        i = i + 1;
        assert(out@ =~= bytes@.subrange(0, i as int));
    }
    assert(out@ =~= bytes@);
    out
}

}
