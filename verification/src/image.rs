//! A module's image as bytes, and the overwriting of a part of it in place.

use vstd::prelude::*;

verus! {

/// `image` with the bytes from index `at` on replaced by `bytes`.
pub open spec fn overwritten(image: Seq<u8>, at: int, bytes: Seq<u8>) -> Seq<u8> {
    image.subrange(0, at) + bytes + image.subrange(at + bytes.len(), image.len() as int)
}

/// The bytes of an overwritten image: the new ones in the region, the old
/// ones elsewhere.
pub proof fn lemma_overwritten_bytes(image: Seq<u8>, at: int, bytes: Seq<u8>)
    requires
        0 <= at,
        at + bytes.len() <= image.len(),
    ensures
        overwritten(image, at, bytes).len() == image.len(),
        forall|i: int|
            at <= i < at + bytes.len() ==> #[trigger] overwritten(image, at, bytes)[i] == bytes[i
                - at],
        forall|i: int|
            0 <= i < image.len() && !(at <= i < at + bytes.len()) ==> #[trigger] overwritten(
                image,
                at,
                bytes,
            )[i] == image[i],
{
}

/// Replaces the bytes of `image` from index `at` on by `bytes`.
pub fn overwrite(image: &mut Vec<u8>, at: usize, bytes: &[u8])
    requires
        at + bytes@.len() <= old(image)@.len(),
    ensures
        final(image)@ == overwritten(old(image)@, at as int, bytes@),
{
    let count: usize = bytes.len();
    let length: usize = image.len();
    let mut k: usize = 0;
    while k < count
        invariant
            count == bytes@.len(),
            length == image@.len(),
            k <= count,
            at + count <= image@.len(),
            image@.len() == old(image)@.len(),
            forall|i: int| 0 <= i < k ==> image@[at + i] == bytes@[i],
            forall|i: int|
                0 <= i < image@.len() && !(at <= i < at + k) ==> image@[i] == old(image)@[i],
        decreases count - k,
    {
        image.set(at + k, bytes[k]);
        k += 1;
    }
    assert(image@ =~= overwritten(old(image)@, at as int, bytes@));
}

} // verus!
