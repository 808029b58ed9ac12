//! Hotkey specifications: key names and chords such as `Ctrl+Shift+V`.

use vstd::prelude::*;
use crate::chars::same_text;

verus! {

/// Upper-case form of `s`, as `str::to_uppercase` gives it.
pub uninterp spec fn upper_of(s: Seq<char>) -> Seq<char>;

/// Lower-case form of `s`, as `str::to_lowercase` gives it.
pub uninterp spec fn lower_of(s: Seq<char>) -> Seq<char>;

/// Characters with the Unicode `White_Space` property, which
/// `char::is_whitespace` tests.
pub open spec fn is_white_space(c: char) -> bool {
    ('\u{9}' <= c && c <= '\u{d}') || c == ' ' || c == '\u{85}' || c == '\u{a0}' || c == '\u{1680}'
        || ('\u{2000}' <= c && c <= '\u{200a}') || c == '\u{2028}' || c == '\u{2029}'
        || c == '\u{202f}' || c == '\u{205f}' || c == '\u{3000}'
}

/// `s` without its leading white space.
pub open spec fn trim_start_of(s: Seq<char>) -> Seq<char>
    decreases s.len(),
{
    if s.len() > 0 && is_white_space(s[0]) {
        trim_start_of(s.drop_first())
    } else {
        s
    }
}

/// `s` without its trailing white space.
pub open spec fn trim_end_of(s: Seq<char>) -> Seq<char>
    decreases s.len(),
{
    if s.len() > 0 && is_white_space(s.last()) {
        trim_end_of(s.drop_last())
    } else {
        s
    }
}

/// `s` without leading and trailing white space, as `str::trim` gives it.
pub open spec fn trim_of(s: Seq<char>) -> Seq<char> {
    trim_end_of(trim_start_of(s))
}

/// Relies on `str::to_uppercase`: Unicode upper-casing, which depends on the
/// characters alone.
#[verifier::external_body]
pub(crate) fn uppercase(s: &str) -> (r: String)
    ensures
        r@ == upper_of(s@),
{
    s.to_uppercase()
}

/// Relies on `str::to_lowercase`: Unicode lower-casing, which depends on the
/// characters alone.
#[verifier::external_body]
pub(crate) fn lowercase(s: &str) -> (r: String)
    ensures
        r@ == lower_of(s@),
{
    s.to_lowercase()
}

/// Relies on `str::trim`: removal of the leading and trailing characters
/// with the Unicode `White_Space` property.
#[verifier::external_body]
pub(crate) fn trim(s: &str) -> (r: &str)
    ensures
        r@ == trim_of(s@),
{
    s.trim()
}

/// A non-modifier key that a hotkey can use.
#[derive(Clone, Copy, PartialEq, Eq, Debug, Structural)]
pub enum KeyCode {
    /// A letter key, `'A'` to `'Z'`.
    Letter(char),
    /// A digit key of the main row, 0 to 9.
    Digit(u8),
    /// A function key, F1 to F12.
    Function(u8),
    Space,
    Enter,
    Escape,
}

/// Modifier keys held in a chord.
#[derive(Clone, Copy, PartialEq, Eq, Debug)]
pub struct Modifiers {
    pub ctrl: bool,
    pub shift: bool,
    pub alt: bool,
    pub meta: bool,
}

/// A chord: modifiers plus one key.
#[derive(Clone, Copy, PartialEq, Eq, Debug)]
pub struct ComboKey {
    pub modifiers: Modifiers,
    pub key: KeyCode,
}

/// Why a hotkey specification or provider was refused.
#[derive(PartialEq, Eq, Debug)]
pub enum HotkeyError {
    /// A key name that is not known.
    UnknownKey(String),
    /// A chord without a non-modifier key.
    NoKey(String),
    /// The platform could not set up the listener.
    Provider(String),
}

/// A modifier key named in a chord.
#[derive(Clone, Copy, PartialEq, Eq, Debug)]
pub enum ModifierKey {
    Ctrl,
    Shift,
    Alt,
    Meta,
}

/// The modifier named by the lower-case name `l`.
pub open spec fn modifier_of(l: Seq<char>) -> Option<ModifierKey> {
    if l == "ctrl"@ || l == "control"@ {
        Some(ModifierKey::Ctrl)
    } else if l == "shift"@ {
        Some(ModifierKey::Shift)
    } else if l == "alt"@ {
        Some(ModifierKey::Alt)
    } else if l == "super"@ || l == "win"@ || l == "meta"@ {
        Some(ModifierKey::Meta)
    } else {
        None
    }
}

/// The modifier named by the lower-case name `l`.
pub fn modifier_from_lower(l: &str) -> (r: Option<ModifierKey>)
    ensures
        r == modifier_of(l@),
{
    if same_text(l, "ctrl") || same_text(l, "control") {
        Some(ModifierKey::Ctrl)
    } else if same_text(l, "shift") {
        Some(ModifierKey::Shift)
    } else if same_text(l, "alt") {
        Some(ModifierKey::Alt)
    } else if same_text(l, "super") || same_text(l, "win") || same_text(l, "meta") {
        Some(ModifierKey::Meta)
    } else {
        None
    }
}

/// The key named by the upper-case name `u`: a single letter or digit, F1 to
/// F12, SPACE, ENTER or RETURN, ESCAPE or ESC.
pub open spec fn key_code_of(u: Seq<char>) -> Option<KeyCode> {
    if u.len() == 1 && 'A' <= u[0] <= 'Z' {
        Some(KeyCode::Letter(u[0]))
    } else if u.len() == 1 && '0' <= u[0] <= '9' {
        Some(KeyCode::Digit((u[0] as u32 - '0' as u32) as u8))
    } else if u.len() == 2 && u[0] == 'F' && '1' <= u[1] <= '9' {
        Some(KeyCode::Function((u[1] as u32 - '0' as u32) as u8))
    } else if u.len() == 3 && u[0] == 'F' && u[1] == '1' && '0' <= u[2] <= '2' {
        Some(KeyCode::Function((10 + u[2] as u32 - '0' as u32) as u8))
    } else if u == "SPACE"@ {
        Some(KeyCode::Space)
    } else if u == "ENTER"@ || u == "RETURN"@ {
        Some(KeyCode::Enter)
    } else if u == "ESCAPE"@ || u == "ESC"@ {
        Some(KeyCode::Escape)
    } else {
        None
    }
}

/// The key named by the upper-case name `u`.
pub fn key_code_from_upper(u: &str) -> (r: Option<KeyCode>)
    ensures
        r == key_code_of(u@),
{
    let n = u.unicode_len();
    if n == 1 {
        let c = u.get_char(0);
        if 'A' <= c && c <= 'Z' {
            return Some(KeyCode::Letter(c));
        }
        if '0' <= c && c <= '9' {
            return Some(KeyCode::Digit((c as u32 - '0' as u32) as u8));
        }
    }
    if n == 2 {
        let f = u.get_char(0);
        let d = u.get_char(1);
        if f == 'F' && '1' <= d && d <= '9' {
            return Some(KeyCode::Function((d as u32 - '0' as u32) as u8));
        }
    }
    if n == 3 {
        let f = u.get_char(0);
        let t = u.get_char(1);
        let d = u.get_char(2);
        if f == 'F' && t == '1' && '0' <= d && d <= '2' {
            return Some(KeyCode::Function((10 + d as u32 - '0' as u32) as u8));
        }
    }
    if same_text(u, "SPACE") {
        Some(KeyCode::Space)
    } else if same_text(u, "ENTER") || same_text(u, "RETURN") {
        Some(KeyCode::Enter)
    } else if same_text(u, "ESCAPE") || same_text(u, "ESC") {
        Some(KeyCode::Escape)
    } else {
        None
    }
}

/// Parses a key name, ignoring case.
pub fn parse_key_code(key: &str) -> (r: Result<KeyCode, HotkeyError>)
    ensures
        match key_code_of(upper_of(key@)) {
            Some(c) => r == Ok::<KeyCode, HotkeyError>(c),
            None => r matches Err(HotkeyError::UnknownKey(k)) && k@ == key@,
        },
{
    let upper = uppercase(key);
    match key_code_from_upper(upper.as_str()) {
        Some(c) => Ok(c),
        None => Err(HotkeyError::UnknownKey(key.to_owned())),
    }
}

} // verus!

verus! {

/// Pieces of `s` between `+` signs, as `str::split('+')` gives them: one
/// more than there are signs, empty ones included.
pub open spec fn split_plus(s: Seq<char>) -> Seq<Seq<char>>
    decreases s.len(),
{
    if s.len() == 0 {
        seq![Seq::<char>::empty()]
    } else {
        let init = split_plus(s.drop_last());
        if s.last() == '+' {
            init.push(Seq::<char>::empty())
        } else {
            init.update(init.len() - 1, init.last().push(s.last()))
        }
    }
}

/// The trimmed pieces of a chord specification.
pub open spec fn combo_parts(s: Seq<char>) -> Seq<Seq<char>> {
    split_plus(s).map_values(|p: Seq<char>| trim_of(p))
}

/// Modifiers and key gathered so far from a chord.
pub struct ComboAcc {
    pub modifiers: Modifiers,
    pub key: Option<KeyCode>,
}

/// Takes one trimmed piece into the chord, given its lower-case form `l`
/// and upper-case form `u`: a modifier name sets that modifier; anything
/// else must be a key name and replaces the key. A piece that is neither is
/// returned as the error.
pub open spec fn combo_step_cased(acc: ComboAcc, part: Seq<char>, l: Seq<char>, u: Seq<char>) -> Result<ComboAcc, Seq<char>> {
    let m = acc.modifiers;
    match modifier_of(l) {
        Some(ModifierKey::Ctrl) => Ok(ComboAcc { modifiers: Modifiers { ctrl: true, ..m }, ..acc }),
        Some(ModifierKey::Shift) => Ok(ComboAcc { modifiers: Modifiers { shift: true, ..m }, ..acc }),
        Some(ModifierKey::Alt) => Ok(ComboAcc { modifiers: Modifiers { alt: true, ..m }, ..acc }),
        Some(ModifierKey::Meta) => Ok(ComboAcc { modifiers: Modifiers { meta: true, ..m }, ..acc }),
        None => match key_code_of(u) {
            Some(c) => Ok(ComboAcc { key: Some(c), ..acc }),
            None => Err(part),
        },
    }
}

/// Takes one trimmed piece into the chord; names are taken in any case.
pub open spec fn combo_step(acc: ComboAcc, part: Seq<char>) -> Result<ComboAcc, Seq<char>> {
    combo_step_cased(acc, part, lower_of(part), upper_of(part))
}

/// Takes the trimmed piece `part`, with its lower-case form `lower` and
/// upper-case form `upper`, into the chord gathered so far.
pub fn take_combo_part(modifiers: Modifiers, key: Option<KeyCode>, part: &str, lower: &str, upper: &str) -> (r: Result<(Modifiers, Option<KeyCode>), HotkeyError>)
    ensures
        match combo_step_cased(ComboAcc { modifiers, key }, part@, lower@, upper@) {
            Ok(acc) => r == Ok::<(Modifiers, Option<KeyCode>), HotkeyError>((acc.modifiers, acc.key)),
            Err(p) => r matches Err(HotkeyError::UnknownKey(k)) && k@ == p,
        },
{
    let mut m = modifiers;
    match modifier_from_lower(lower) {
        Some(ModifierKey::Ctrl) => {
            m.ctrl = true;
            Ok((m, key))
        },
        Some(ModifierKey::Shift) => {
            m.shift = true;
            Ok((m, key))
        },
        Some(ModifierKey::Alt) => {
            m.alt = true;
            Ok((m, key))
        },
        Some(ModifierKey::Meta) => {
            m.meta = true;
            Ok((m, key))
        },
        None => match key_code_from_upper(upper) {
            Some(c) => Ok((m, Some(c))),
            None => Err(HotkeyError::UnknownKey(part.to_owned())),
        },
    }
}

/// No modifier held.
pub open spec fn no_modifiers() -> Modifiers {
    Modifiers { ctrl: false, shift: false, alt: false, meta: false }
}

/// The pieces taken in order, stopping at the first that is refused.
pub open spec fn combo_fold(parts: Seq<Seq<char>>) -> Result<ComboAcc, Seq<char>>
    decreases parts.len(),
{
    if parts.len() == 0 {
        Ok(ComboAcc { modifiers: no_modifiers(), key: None })
    } else {
        match combo_fold(parts.drop_last()) {
            Ok(acc) => combo_step(acc, parts.last()),
            Err(p) => Err(p),
        }
    }
}

proof fn lemma_split_plus_nonempty(s: Seq<char>)
    ensures
        split_plus(s).len() >= 1,
    decreases s.len(),
{
    if s.len() > 0 {
        lemma_split_plus_nonempty(s.drop_last());
    }
}

/// Extending `s` by one character that is not `+` extends its last piece.
proof fn lemma_split_plus_step(s: Seq<char>, i: int, start: int)
    requires
        0 <= start <= i < s.len(),
        s[i] != '+',
        split_plus(s.take(i)).last() == s.subrange(start, i),
    ensures
        split_plus(s.take(i + 1)) == split_plus(s.take(i)).drop_last().push(s.subrange(start, i + 1)),
        split_plus(s.take(i + 1)).last() == s.subrange(start, i + 1),
{
    lemma_split_plus_nonempty(s.take(i));
    assert(s.take(i + 1).drop_last() =~= s.take(i));
    assert(s.subrange(start, i).push(s[i]) =~= s.subrange(start, i + 1));
    let init = split_plus(s.take(i));
    assert(init.update(init.len() - 1, s.subrange(start, i + 1)) =~= init.drop_last().push(
        s.subrange(start, i + 1),
    ));
}

/// Extending `s` by a `+` closes its last piece and opens an empty one.
proof fn lemma_split_plus_sep(s: Seq<char>, i: int)
    requires
        0 <= i < s.len(),
        s[i] == '+',
    ensures
        split_plus(s.take(i + 1)) == split_plus(s.take(i)).push(Seq::<char>::empty()),
{
    assert(s.take(i + 1).drop_last() =~= s.take(i));
}

/// The closed pieces of a prefix of `s` stay the first pieces of `s`.
proof fn lemma_split_plus_prefix(s: Seq<char>, j: int, k: int)
    requires
        0 <= j <= k <= s.len(),
    ensures
        split_plus(s.take(j)).len() <= split_plus(s.take(k)).len(),
        split_plus(s.take(k)).take(split_plus(s.take(j)).len() - 1) == split_plus(
            s.take(j),
        ).drop_last(),
    decreases k - j,
{
    lemma_split_plus_nonempty(s.take(j));
    if j < k {
        lemma_split_plus_prefix(s, j, k - 1);
        lemma_split_plus_nonempty(s.take(k - 1));
        assert(s.take(k).drop_last() =~= s.take(k - 1));
        let a = split_plus(s.take(k - 1));
        let b = split_plus(s.take(k));
        let m = split_plus(s.take(j)).len() - 1;
        assert(b.take(m) =~= a.take(m));
    } else {
        let b = split_plus(s.take(k));
        assert(b.take(b.len() - 1) =~= b.drop_last());
    }
}

/// Once a piece is refused, later pieces do not matter.
proof fn lemma_fold_err_prefix(p: Seq<Seq<char>>, q: Seq<Seq<char>>)
    requires
        combo_fold(p) is Err,
    ensures
        combo_fold(p + q) == combo_fold(p),
    decreases q.len(),
{
    if q.len() == 0 {
        assert(p + q =~= p);
    } else {
        lemma_fold_err_prefix(p, q.drop_last());
        assert((p + q).drop_last() =~= p + q.drop_last());
    }
}

/// A refusal among the pieces closed before position `i` is the outcome for
/// the whole of `s`.
proof fn lemma_fold_stays_err(s: Seq<char>, i: int, closed: Seq<Seq<char>>)
    requires
        0 <= i < s.len(),
        s[i] == '+',
        split_plus(s.take(i + 1)) == closed.push(Seq::<char>::empty()),
        combo_fold(closed.map_values(|p: Seq<char>| trim_of(p))) is Err,
    ensures
        combo_fold(combo_parts(s)) == combo_fold(closed.map_values(|p: Seq<char>| trim_of(p))),
{
    lemma_split_plus_prefix(s, i + 1, s.len() as int);
    assert(s.take(s.len() as int) =~= s);
    let full = split_plus(s);
    let m = closed.len() as int;
    assert(closed.push(Seq::<char>::empty()).drop_last() =~= closed);
    assert(full.take(m) == closed);
    let tail = full.skip(m).map_values(|p: Seq<char>| trim_of(p));
    let head = closed.map_values(|p: Seq<char>| trim_of(p));
    assert(combo_parts(s) =~= head + tail);
    lemma_fold_err_prefix(head, tail);
}

/// Whether `r` is the outcome of parsing the chord `s`: the first refused
/// piece as an unknown key, no key at all, or the chord.
pub open spec fn combo_outcome(s: Seq<char>, r: Result<ComboKey, HotkeyError>) -> bool {
    match combo_fold(combo_parts(s)) {
        Err(p) => r matches Err(HotkeyError::UnknownKey(k)) && k@ == p,
        Ok(acc) => match acc.key {
            Some(c) => r == Ok::<ComboKey, HotkeyError>(ComboKey { modifiers: acc.modifiers, key: c }),
            None => r matches Err(HotkeyError::NoKey(k)) && k@ == s,
        },
    }
}

/// Parses a chord such as `Ctrl+Shift+V`: pieces between `+` signs are
/// trimmed, modifier names are taken in any case, and the last other piece
/// names the key.
pub fn parse_combo_key(key_str: &str) -> (r: Result<ComboKey, HotkeyError>)
    ensures
        combo_outcome(key_str@, r),
{
    let n = key_str.unicode_len();
    let ghost s = key_str@;
    let mut modifiers = Modifiers { ctrl: false, shift: false, alt: false, meta: false };
    let mut key: Option<KeyCode> = None;
    let ghost mut done: Seq<Seq<char>> = Seq::empty();
    let mut start: usize = 0;
    let mut i: usize = 0;
    assert(s.take(0) =~= Seq::<char>::empty());
    assert(s.subrange(0, 0) =~= Seq::<char>::empty());
    loop
        invariant
            n == s.len(),
            s == key_str@,
            start <= i <= n,
            split_plus(s.take(i as int)) == done.push(s.subrange(start as int, i as int)),
            combo_fold(done.map_values(|p: Seq<char>| trim_of(p))) == Ok::<ComboAcc, Seq<char>>(
                ComboAcc { modifiers, key },
            ),
        decreases n - i + 1,
    {
        if i == n || key_str.get_char(i) == '+' {
            let ghost piece = s.subrange(start as int, i as int);
            let raw = key_str.substring_char(start, i);
            let part = trim(raw);
            let ghost before = done.map_values(|p: Seq<char>| trim_of(p));
            proof {
                assert(done.push(piece).map_values(|p: Seq<char>| trim_of(p)) =~= before.push(
                    trim_of(piece),
                ));
                assert(before.push(trim_of(piece)).drop_last() =~= before);
            }
            let lower = lowercase(part);
            let upper = uppercase(part);
            match take_combo_part(modifiers, key, part, lower.as_str(), upper.as_str()) {
                Ok((m, k)) => {
                    modifiers = m;
                    key = k;
                },
                Err(e) => {
                    proof {
                        if i < n {
                            lemma_split_plus_sep(s, i as int);
                            lemma_fold_stays_err(s, i as int, done.push(piece));
                        } else {
                            assert(s.take(n as int) =~= s);
                        }
                    }
                    return Err(e);
                },
            }
            if i == n {
                proof {
                    assert(s.take(n as int) =~= s);
                }
                return match key {
                    Some(c) => Ok(ComboKey { modifiers, key: c }),
                    None => Err(HotkeyError::NoKey(key_str.to_owned())),
                };
            }
            proof {
                lemma_split_plus_sep(s, i as int);
                done = done.push(piece);
                assert(s.subrange(i + 1, i + 1) =~= Seq::<char>::empty());
            }
            i += 1;
            start = i;
        } else {
            proof {
                lemma_split_plus_nonempty(s.take(i as int));
                lemma_split_plus_step(s, i as int, start as int);
            }
            i += 1;
        }
    }
}

} // verus!
