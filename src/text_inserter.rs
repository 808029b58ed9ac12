//! Text injection into the focused window, through a platform capability.

use vstd::prelude::*;
use crate::text_diff::{chars_to_delete, diff_text, text_to_append, TextUpdate};

verus! {

/// Failure reported by a platform text action.
pub struct ActionError {
    pub message: String,
}

/// One request to the platform, as a value.
pub enum TextEdit {
    /// Erase this many characters before the caret.
    Delete(nat),
    /// Type these characters at the caret.
    Insert(Seq<char>),
}

/// A request that reached the platform, with whether it succeeded.
pub struct TextCall {
    pub edit: TextEdit,
    pub ok: bool,
}

/// Platform capability that types into, or erases from, the focused field.
pub trait TextAction: Send + Sync {
    /// Types `text` at the caret.
    fn insert(&mut self, text: &str) -> Result<(), ActionError>;

    /// Erases `count` characters before the caret.
    fn delete_chars(&mut self, count: usize) -> Result<(), ActionError>;
}

/// Requests that carry out an update: erase `delete` characters if there
/// are any, then type `append` if it is not empty.
pub open spec fn update_edits(delete: nat, append: Seq<char>) -> Seq<TextEdit> {
    (if delete > 0 {
        seq![TextEdit::Delete(delete)]
    } else {
        Seq::empty()
    }) + (if append.len() > 0 {
        seq![TextEdit::Insert(append)]
    } else {
        Seq::empty()
    })
}

/// The calls from `before` to `after` are the requests of `plan` in order,
/// stopping right after the first one that failed; `ok` holds exactly when
/// the whole plan was sent and every call succeeded.
pub open spec fn performed(before: Seq<TextCall>, after: Seq<TextCall>, plan: Seq<TextEdit>, ok: bool) -> bool {
    let b = before.len() as int;
    let n = after.len() - b;
    &&& b <= after.len()
    &&& after.take(b) == before
    &&& n <= plan.len()
    &&& forall|i: int| 0 <= i < n ==> #[trigger] after[b + i].edit == plan[i]
    &&& forall|i: int| 0 <= i < n - 1 ==> #[trigger] after[b + i].ok
    &&& n < plan.len() ==> n > 0 && !after[b + n - 1].ok
    &&& ok == (n == plan.len() && (n == 0 || after[b + n - 1].ok))
}

/// Field contents after one request, the caret at the end.
pub open spec fn apply_edit(field: Seq<char>, e: TextEdit) -> Seq<char> {
    match e {
        TextEdit::Delete(k) => if k <= field.len() {
            field.take(field.len() - k)
        } else {
            Seq::empty()
        },
        TextEdit::Insert(x) => field + x,
    }
}

/// Field contents after a sequence of requests.
pub open spec fn apply_edits(field: Seq<char>, edits: Seq<TextEdit>) -> Seq<char>
    decreases edits.len(),
{
    if edits.len() == 0 {
        field
    } else {
        apply_edit(apply_edits(field, edits.drop_last()), edits.last())
    }
}

/// With committed text `s` followed by the rendered `old` text before the
/// caret, the requests of the incremental update leave `s` followed by
/// `new`: no more than `old` is ever erased.
pub proof fn law_update_renders_new_text(s: Seq<char>, old: Seq<char>, new: Seq<char>)
    ensures
        chars_to_delete(old, new) <= old.len(),
        apply_edits(s + old, update_edits(chars_to_delete(old, new), text_to_append(old, new)))
            == s + new,
{
    crate::text_diff::law_diff_reconstructs(old, new);
    crate::text_diff::lemma_common_prefix_len(old, new);
    let d = chars_to_delete(old, new);
    let a = text_to_append(old, new);
    let kept = old.take(old.len() - d);
    let field = s + old;
    let after_delete = if d > 0 {
        field.take(field.len() - d)
    } else {
        field
    };
    assert(after_delete =~= s + kept);
    let edits = update_edits(d, a);
    let one = seq![TextEdit::Delete(d)];
    assert(one.drop_last() =~= Seq::<TextEdit>::empty());
    assert(apply_edits(field, Seq::<TextEdit>::empty()) == field);
    if d > 0 {
        assert(apply_edits(field, one) == apply_edit(field, TextEdit::Delete(d)));
        assert(apply_edits(field, one) == after_delete);
    }
    if d > 0 && a.len() > 0 {
        assert(edits.drop_last() =~= seq![TextEdit::Delete(d)]);
        assert(edits.drop_last().drop_last() =~= Seq::<TextEdit>::empty());
        assert(apply_edits(field, edits.drop_last()) == after_delete);
        assert(s + kept + a =~= s + new);
    } else if d > 0 {
        assert(edits =~= seq![TextEdit::Delete(d)]);
        assert(edits.drop_last() =~= Seq::<TextEdit>::empty());
        assert(apply_edits(field, edits) == after_delete);
        assert(a =~= Seq::<char>::empty());
        assert(s + kept =~= s + new) by {
            assert(kept + a =~= kept);
        }
    } else if a.len() > 0 {
        assert(edits =~= seq![TextEdit::Insert(a)]);
        assert(edits.drop_last() =~= Seq::<TextEdit>::empty());
        assert(apply_edits(field, edits) == field + a);
        assert(kept =~= old);
        assert(s + old + a =~= s + new);
    } else {
        assert(edits =~= Seq::<TextEdit>::empty());
        assert(kept =~= old);
        assert(old + a =~= old);
    }
}

/// Text inserter service over one platform capability. It records every
/// request it hands to the platform, with the outcome.
pub struct TextInserter<A: TextAction> {
    inner: A,
    log: Ghost<Seq<TextCall>>,
}

impl<A: TextAction> TextInserter<A> {
    /// The requests handed to the platform so far, in order.
    pub closed spec fn received(&self) -> Seq<TextCall> {
        self.log@
    }

    /// Creates an inserter that acts through `inner`.
    pub fn new(inner: A) -> (r: Self)
        ensures
            r.received() == Seq::<TextCall>::empty(),
    {
        TextInserter { inner, log: Ghost(Seq::empty()) }
    }

    /// Types `text` into the currently focused window.
    pub fn insert(&mut self, text: &str) -> (r: Result<(), ActionError>)
        ensures
            final(self).received() == old(self).received().push(
                TextCall { edit: TextEdit::Insert(text@), ok: r is Ok },
            ),
    {
        let r = self.inner.insert(text);
        self.log = Ghost(self.log@.push(TextCall { edit: TextEdit::Insert(text@), ok: r is Ok }));
        r
    }

    /// Erases `count` characters (simulated backspace).
    pub fn delete_chars(&mut self, count: usize) -> (r: Result<(), ActionError>)
        ensures
            final(self).received() == old(self).received().push(
                TextCall { edit: TextEdit::Delete(count as nat), ok: r is Ok },
            ),
    {
        let r = self.inner.delete_chars(count);
        self.log = Ghost(self.log@.push(TextCall { edit: TextEdit::Delete(count as nat), ok: r is Ok }));
        r
    }
}

/// Applies a planned update: erases first, then types; nothing is asked of
/// the platform for an empty part, and a failed erase stops the update.
pub fn apply_update<A: TextAction>(inserter: &mut TextInserter<A>, update: &TextUpdate) -> (r: Result<(), ActionError>)
    ensures
        performed(
            old(inserter).received(),
            final(inserter).received(),
            update_edits(update.delete_count as nat, update.append@),
            r is Ok,
        ),
{
    let ghost before = inserter.received();
    let ghost plan = update_edits(update.delete_count as nat, update.append@);
    if update.delete_count > 0 {
        let d = inserter.delete_chars(update.delete_count);
        if d.is_err() {
            assert(inserter.received().take(before.len() as int) =~= before);
            return d;
        }
    }
    if update.append.unicode_len() > 0 {
        let i = inserter.insert(update.append.as_str());
        assert(inserter.received().take(before.len() as int) =~= before);
        return i;
    }
    assert(inserter.received().take(before.len() as int) =~= before);
    Ok(())
}

/// Replaces the rendered `old_text` by `new_text` through the common-prefix
/// diff; returns the update that was planned, with the platform's outcome.
pub fn update_text<A: TextAction>(inserter: &mut TextInserter<A>, old_text: &str, new_text: &str) -> (r: (TextUpdate, Result<(), ActionError>))
    ensures
        r.0.delete_count == chars_to_delete(old_text@, new_text@),
        r.0.append@ == text_to_append(old_text@, new_text@),
        performed(
            old(inserter).received(),
            final(inserter).received(),
            update_edits(chars_to_delete(old_text@, new_text@), text_to_append(old_text@, new_text@)),
            r.1 is Ok,
        ),
        old_text@ == new_text@ ==> r.1 is Ok && final(inserter).received() == old(inserter).received(),
{
    let update = diff_text(old_text, new_text);
    proof {
        crate::text_diff::lemma_common_prefix_len(old_text@, new_text@);
        if old_text@ == new_text@ {
            assert(new_text@.skip(new_text@.len() as int) =~= Seq::<char>::empty());
            assert(update_edits(0, Seq::<char>::empty()) =~= Seq::<TextEdit>::empty());
        }
    }
    let outcome = apply_update(inserter, &update);
    proof {
        if old_text@ == new_text@ {
            assert(final(inserter).received() =~= old(inserter).received().take(old(inserter).received().len() as int));
        }
    }
    (update, outcome)
}

} // verus!
