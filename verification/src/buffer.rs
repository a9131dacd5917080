use vstd::prelude::*;

verus! {

/// What growing a buffer to `min_len` slots guarantees: a buffer already at
/// least `min_len` long is left exactly as it was; a shorter one keeps its
/// original elements unchanged and in order, and every newly created slot
/// holds a clone of `fill`.
pub open spec fn resize_post<T: Clone>(pre: Seq<T>, min_len: int, fill: T, post: Seq<T>) -> bool {
    &&& pre.len() >= min_len ==> post == pre
    &&& pre.len() < min_len ==> {
        &&& post.len() == min_len
        &&& post.subrange(0, pre.len() as int) == pre
        &&& forall|i: int| pre.len() <= i < min_len ==> cloned::<T>(fill, #[trigger] post[i])
    }
}

/// Grows `vec` in place so its length is at least `min_len`, filling newly
/// created slots with clones of `value`; a no-op if `vec` is already long
/// enough.
///
/// The buffer grows one slot at a time, so its reported length never
/// exceeds the number of slots actually initialized.
pub fn vec_resize<T: Clone>(vec: &mut Vec<T>, min_len: usize, value: T)
    ensures
        resize_post(old(vec)@, min_len as int, value, final(vec)@),
        final(vec)@.len() >= min_len,
{
    let ghost pre = vec@;
    while vec.len() < min_len
        invariant
            pre.len() <= vec@.len(),
            vec@.subrange(0, pre.len() as int) == pre,
            pre.len() >= min_len ==> vec@ == pre,
            pre.len() < min_len ==> vec@.len() <= min_len,
            forall|i: int| pre.len() <= i < vec@.len() ==> cloned::<T>(value, #[trigger] vec@[i]),
        decreases min_len - vec.len(),
    {
        let item = value.clone();
        vec.push(item);
    }
}

/// Allocates a new buffer of exactly `size` slots, each initialized to a
/// clone of `value`.
pub fn vec_with_size<T: Clone>(size: usize, value: T) -> (v: Vec<T>)
    ensures
        v@.len() == size,
        forall|i: int| 0 <= i < size ==> cloned::<T>(value, #[trigger] v@[i]),
{
    let mut v: Vec<T> = Vec::new();
    vec_resize(&mut v, size, value);
    v
}

/// Idempotence: growing a buffer to `min_len` a second time, with the same
/// target length and fill value, changes nothing.
pub proof fn lemma_resize_idempotent<T: Clone>(
    pre: Seq<T>,
    min_len: int,
    fill: T,
    once: Seq<T>,
    twice: Seq<T>,
)
    requires
        resize_post(pre, min_len, fill, once),
        resize_post(once, min_len, fill, twice),
    ensures
        twice == once,
{
}

} // verus!
