//! Common-prefix diff between the last rendered transcript and a new one.
//!
//! Live transcription re-renders the current utterance many times. Instead of
//! replacing the whole text, only the characters past the longest common
//! prefix are erased and only the new tail is typed.

use vstd::prelude::*;
use crate::chars::chars_of;

verus! {

/// Length of the longest common prefix of `a` and `b`, counted in characters.
pub open spec fn common_prefix_len(a: Seq<char>, b: Seq<char>) -> nat
    decreases a.len(),
{
    if a.len() == 0 || b.len() == 0 || a[0] != b[0] {
        0
    } else {
        1 + common_prefix_len(a.drop_first(), b.drop_first())
    }
}

/// Number of characters of `old` past the common prefix with `new`.
pub open spec fn chars_to_delete(old: Seq<char>, new: Seq<char>) -> nat {
    (old.len() - common_prefix_len(old, new)) as nat
}

/// The tail of `new` past the common prefix with `old`.
pub open spec fn text_to_append(old: Seq<char>, new: Seq<char>) -> Seq<char> {
    new.skip(common_prefix_len(old, new) as int)
}

/// The common prefix is a prefix of both sequences, and cannot be extended.
pub proof fn lemma_common_prefix_len(a: Seq<char>, b: Seq<char>)
    ensures
        common_prefix_len(a, b) <= a.len(),
        common_prefix_len(a, b) <= b.len(),
        a.take(common_prefix_len(a, b) as int) == b.take(common_prefix_len(a, b) as int),
        common_prefix_len(a, b) == a.len() || common_prefix_len(a, b) == b.len()
            || a[common_prefix_len(a, b) as int] != b[common_prefix_len(a, b) as int],
    decreases a.len(),
{
    let k = common_prefix_len(a, b);
    if a.len() == 0 || b.len() == 0 || a[0] != b[0] {
        assert(a.take(0) =~= b.take(0));
    } else {
        let (ta, tb) = (a.drop_first(), b.drop_first());
        lemma_common_prefix_len(ta, tb);
        let j = common_prefix_len(ta, tb);
        assert forall|i: int| 0 <= i < k implies a.take(k as int)[i] == b.take(k as int)[i] by {
            if i > 0 {
                assert(ta.take(j as int)[i - 1] == tb.take(j as int)[i - 1]);
            }
        }
        assert(a.take(k as int) =~= b.take(k as int));
    }
}

/// A common prefix of length `k` that cannot be extended has the length
/// `common_prefix_len`.
proof fn lemma_prefix_len_unique(a: Seq<char>, b: Seq<char>, k: int)
    requires
        0 <= k <= a.len(),
        k <= b.len(),
        forall|i: int| 0 <= i < k ==> a[i] == b[i],
        k == a.len() || k == b.len() || a[k] != b[k],
    ensures
        common_prefix_len(a, b) == k,
    decreases k,
{
    if k > 0 {
        let (ta, tb) = (a.drop_first(), b.drop_first());
        assert(a[0] == b[0]);
        assert forall|i: int| 0 <= i < k - 1 implies ta[i] == tb[i] by {
            assert(a[i + 1] == b[i + 1]);
        }
        lemma_prefix_len_unique(ta, tb, k - 1);
    }
}

/// What has to be erased and typed to turn the rendered `old` text into `new`.
pub struct TextUpdate {
    /// Characters to erase from the end of the rendered text.
    pub delete_count: usize,
    /// Text to type after erasing.
    pub append: String,
}

/// Length of the longest common prefix of `old` and `new`, in characters.
pub fn common_prefix(old: &str, new: &str) -> (r: usize)
    ensures
        r == common_prefix_len(old@, new@),
{
    let a = chars_of(old);
    let b = chars_of(new);
    let mut k: usize = 0;
    while k < a.len() && k < b.len() && a[k] == b[k]
        invariant
            a@ == old@,
            b@ == new@,
            k <= a.len(),
            k <= b.len(),
            forall|i: int| 0 <= i < k ==> a@[i] == b@[i],
        decreases a.len() - k,
    {
        k += 1;
    }
    proof {
        lemma_prefix_len_unique(old@, new@, k as int);
    }
    k
}

/// Plans the incremental update from the rendered `old` text to `new`.
pub fn diff_text(old: &str, new: &str) -> (r: TextUpdate)
    ensures
        r.delete_count == chars_to_delete(old@, new@),
        r.append@ == text_to_append(old@, new@),
{
    proof {
        lemma_common_prefix_len(old@, new@);
    }
    let k = common_prefix(old, new);
    let old_len = old.unicode_len();
    let new_len = new.unicode_len();
    let tail = new.substring_char(k, new_len);
    TextUpdate { delete_count: old_len - k, append: tail.to_owned() }
}

/// Erasing the planned characters from `old` leaves the common prefix, that
/// prefix followed by the erased characters gives back `old`, typing the
/// planned text after it gives `new`, and no longer prefix is shared.
pub proof fn law_diff_reconstructs(old: Seq<char>, new: Seq<char>)
    ensures
        ({
            let kept = old.take(old.len() - chars_to_delete(old, new));
            let deleted = old.skip(old.len() - chars_to_delete(old, new));
            &&& kept == new.take(common_prefix_len(old, new) as int)
            &&& kept + deleted == old
            &&& kept + text_to_append(old, new) == new
            &&& forall|j: int|
                common_prefix_len(old, new) < j <= old.len() && j <= new.len() ==> old.take(j)
                    != new.take(j)
        }),
{
    lemma_common_prefix_len(old, new);
    let k = common_prefix_len(old, new) as int;
    assert(old.take(k) + old.skip(k) =~= old);
    assert(new.take(k) + new.skip(k) =~= new);
    assert forall|j: int| k < j <= old.len() && j <= new.len() implies old.take(j) != new.take(
        j,
    ) by {
        assert(old.take(j)[k] == old[k]);
        assert(new.take(j)[k] == new[k]);
    }
}

} // verus!
