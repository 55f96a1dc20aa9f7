use vstd::prelude::*;

verus! {

/// `needle` occurs in `haystack` starting at index `i`.
pub open spec fn occurs_at(haystack: Seq<u8>, needle: Seq<u8>, i: int) -> bool {
    &&& 0 <= i
    &&& i + needle.len() <= haystack.len()
    &&& haystack.subrange(i, i + needle.len()) =~= needle
}

/// `needle` occurs somewhere in `haystack` (the empty needle occurs everywhere).
pub open spec fn has_subslice(haystack: Seq<u8>, needle: Seq<u8>) -> bool {
    exists|i: int| occurs_at(haystack, needle, i)
}

/// A needle placed between any two byte strings occurs in the result.
pub proof fn lemma_embedded(pre: Seq<u8>, needle: Seq<u8>, post: Seq<u8>)
    ensures
        has_subslice(pre + needle + post, needle),
{
    let h = pre + needle + post;
    assert(h.subrange(pre.len() as int, (pre.len() + needle.len()) as int) =~= needle);
    assert(occurs_at(h, needle, pre.len() as int));
}

/// The number of bytes `copy_min` moves: the source length, at most 64.
pub open spec fn clipped_len(n: nat) -> nat {
    if n < 64 { n } else { 64 }
}

/// Naive substring search over bytes.
pub fn contains(haystack: &[u8], needle: &[u8]) -> (found: bool)
    ensures
        found == has_subslice(haystack@, needle@),
{
    if needle.len() > haystack.len() {
        proof {
            assert forall|i: int| !occurs_at(haystack@, needle@, i) by {}
        }
        return false;
    }
    let last = haystack.len() - needle.len();
    let mut i: usize = 0;
    while i <= last
        invariant
            needle@.len() <= haystack@.len(),
            last == haystack@.len() - needle@.len(),
            forall|k: int| 0 <= k < i ==> !occurs_at(haystack@, needle@, k),
        decreases haystack.len() - i,
    {
        let mut ok = true;
        let mut j: usize = 0;
        while j < needle.len()
            invariant_except_break
                ok,
            invariant
                haystack@.len() <= usize::MAX,
                i <= last,
                last == haystack@.len() - needle@.len(),
                i + needle@.len() <= haystack@.len(),
                j <= needle@.len(),
                forall|m: int| 0 <= m < j ==> haystack@[i + m] == needle@[m],
            ensures
                ok ==> j == needle@.len(),
                ok ==> forall|m: int| 0 <= m < needle@.len() ==> haystack@[i + m] == needle@[m],
                !ok ==> exists|m: int| 0 <= m < needle@.len() && haystack@[i + m] != needle@[m],
            decreases needle.len() - j,
        {
            let at = i + j;
            if haystack[at] != needle[j] {
                ok = false;
                break;
            }
            j += 1;
        }
        if ok {
            assert(occurs_at(haystack@, needle@, i as int)) by {
                assert(haystack@.subrange(i as int, i + needle@.len()) =~= needle@);
            }
            return true;
        }
        proof {
            let m = choose|m: int| 0 <= m < needle@.len() && haystack@[i + m] != needle@[m];
            assert(haystack@.subrange(i as int, i + needle@.len())[m] != needle@[m]);
        }
        i += 1;
    }
    proof {
        assert forall|k: int| !occurs_at(haystack@, needle@, k) by {
            if 0 <= k < i {
            } else if k >= i {
                assert(k + needle@.len() > haystack@.len());
            }
        }
    }
    false
}

/// Copies the first `min(src.len(), 64)` bytes of `src` into `dst` and returns that count.
pub fn copy_min(src: &[u8], dst: &mut [u8; 64]) -> (n: usize)
    ensures
        n == clipped_len(src@.len()),
        final(dst)@.len() == 64,
        forall|k: int| 0 <= k < n ==> final(dst)@[k] == src@[k],
        forall|k: int| n <= k < 64 ==> final(dst)@[k] == old(dst)@[k],
{
    let n = if src.len() < 64 { src.len() } else { 64 };
    let mut i: usize = 0;
    while i < n
        invariant
            n == clipped_len(src@.len()),
            i <= n,
            dst@.len() == 64,
            forall|k: int| 0 <= k < i ==> dst@[k] == src@[k],
            forall|k: int| i <= k < 64 ==> dst@[k] == old(dst)@[k],
        decreases n - i,
    {
        dst[i] = src[i];
        i += 1;
    }
    n
}

/// A filtered prefix of a sequence is a prefix of the filtered sequence.
pub proof fn lemma_filter_take_prefix<A>(s: Seq<A>, pred: spec_fn(A) -> bool, i: int)
    requires
        0 <= i <= s.len(),
    ensures
        s.take(i).filter(pred).len() <= s.filter(pred).len(),
        forall|k: int|
            0 <= k < s.take(i).filter(pred).len() ==> #[trigger] s.take(i).filter(pred)[k]
                == s.filter(pred)[k],
    decreases s.len(),
{
    reveal(Seq::filter);
    if i == s.len() {
        assert(s.take(i) =~= s);
    } else {
        let d = s.drop_last();
        assert(s.take(i) =~= d.take(i));
        lemma_filter_take_prefix(d, pred, i);
    }
}

/// Filtering one more element either keeps the filtered sequence or appends that element.
pub proof fn lemma_filter_take_step<A>(s: Seq<A>, pred: spec_fn(A) -> bool, i: int)
    requires
        0 <= i < s.len(),
    ensures
        s.take(i + 1).filter(pred) == if pred(s[i]) {
            s.take(i).filter(pred).push(s[i])
        } else {
            s.take(i).filter(pred)
        },
{
    reveal(Seq::filter);
    let t = s.take(i + 1);
    assert(t.drop_last() =~= s.take(i));
    assert(t.last() == s[i]);
}

} // verus!
