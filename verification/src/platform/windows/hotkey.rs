//! The global hotkey: its shortcut grammar and its errors.
//!
//! A shortcut is a `+`-separated list of components. Each component, with
//! surrounding white space trimmed, is either a modifier (`Ctrl`/`Control`,
//! `Shift`, `Alt`, `Win`/`Windows`/`Super`, in any ASCII case) or the one key,
//! an ASCII letter or digit. The registration always carries `MOD_NOREPEAT`.
use vstd::prelude::*;

use super::win32::{
    mod_alt, mod_control, mod_norepeat, mod_shift, mod_win, win32_failure_message,
    win32_failure_text, win32_mod_alt, win32_mod_control, win32_mod_norepeat, win32_mod_shift,
    win32_mod_win, win32_wm_hotkey, wm_hotkey,
};
use crate::text::{
    ascii_lowercase, ascii_upper, char_is_ascii_alphanumeric, char_to_ascii_uppercase, chars_of,
    is_ascii_alphanumeric, is_whitespace, owned, push_str, range_eq_ascii_lowercase, split_on,
    split_ranges, string_from_range, trim, trim_bounds, trim_end, trim_start,
};

verus! {

/// The identifier under which the hotkey is registered with Win32.
pub const HOTKEY_ID: i32 = 1;

/// An error of the global hotkey.
#[derive(Debug, Clone, PartialEq, Eq)]
pub struct HotkeyError {
    message: String,
}

impl View for HotkeyError {
    type V = Seq<char>;

    closed spec fn view(&self) -> Seq<char> {
        self.message@
    }
}

impl HotkeyError {
    /// An error with the given message.
    pub fn new(message: String) -> (r: Self)
        ensures
            r@ == message@,
    {
        HotkeyError { message }
    }

    /// The error of a failed Win32 call.
    pub fn win32(operation: &str, error: u32) -> (r: Self)
        ensures
            r@ == win32_failure_text(operation@, error),
    {
        HotkeyError { message: win32_failure_message(operation, error) }
    }

    /// The error's message.
    pub fn message(&self) -> (r: &str)
        ensures
            r@ == self@,
    {
        self.message.as_str()
    }

    /// The error's message, as its `Display` would write it.
    pub fn to_string(&self) -> (r: String)
        ensures
            r@ == self@,
    {
        owned(self.message.as_str())
    }
}

/// What `RegisterHotKey` is called with.
#[derive(Debug, Clone, Copy, PartialEq, Eq)]
pub struct HotkeyRegistration {
    pub modifiers: u32,
    pub virtual_key: u32,
}

pub open spec fn empty_component_text() -> Seq<char> {
    "hotkey shortcut contains an empty component"@
}

pub open spec fn several_keys_text() -> Seq<char> {
    "hotkey shortcut must contain exactly one key"@
}

pub open spec fn missing_key_text() -> Seq<char> {
    "hotkey shortcut must contain a key"@
}

pub open spec fn unsupported_key_text(token: Seq<char>) -> Seq<char> {
    "unsupported hotkey key: "@ + token
}

/// Modifiers gathered so far, and the key if one was seen.
pub type ShortcutState = (u32, Option<char>);

/// One component of a shortcut applied to what the earlier ones gave.
pub open spec fn shortcut_step(state: ShortcutState, part: Seq<char>) -> Result<
    ShortcutState,
    Seq<char>,
> {
    let token = trim(part);
    let lower = ascii_lowercase(token);
    if token.len() == 0 {
        Err(empty_component_text())
    } else if lower == "ctrl"@ || lower == "control"@ {
        Ok((state.0 | mod_control(), state.1))
    } else if lower == "shift"@ {
        Ok((state.0 | mod_shift(), state.1))
    } else if lower == "alt"@ {
        Ok((state.0 | mod_alt(), state.1))
    } else if lower == "win"@ || lower == "windows"@ || lower == "super"@ {
        Ok((state.0 | mod_win(), state.1))
    } else if state.1 is Some {
        Err(several_keys_text())
    } else if token.len() != 1 || !is_ascii_alphanumeric(token[0]) {
        Err(unsupported_key_text(token))
    } else {
        Ok((state.0, Some(ascii_upper(token[0]))))
    }
}

/// The components applied in order; the first error stops the walk.
pub open spec fn shortcut_fold(parts: Seq<Seq<char>>) -> Result<ShortcutState, Seq<char>>
    decreases parts.len(),
{
    if parts.len() == 0 {
        Ok((mod_norepeat(), None))
    } else {
        match shortcut_fold(parts.drop_last()) {
            Err(e) => Err(e),
            Ok(state) => shortcut_step(state, parts.last()),
        }
    }
}

/// The registration a shortcut text stands for: its modifiers and the
/// virtual-key code of its key (the upper-case character's code), or the
/// message of the first problem found.
pub open spec fn shortcut_registration(shortcut: Seq<char>) -> Result<(u32, u32), Seq<char>> {
    match shortcut_fold(split_on(shortcut, '+')) {
        Err(e) => Err(e),
        Ok((modifiers, None)) => Err(missing_key_text()),
        Ok((modifiers, Some(key))) => Ok((modifiers, key as u32)),
    }
}

proof fn lemma_or_keeps_norepeat(x: u32, c: u32)
    requires
        x & 0x4000u32 == 0x4000u32,
    ensures
        (x | c) & 0x4000u32 == 0x4000u32,
{
    assert((x | c) & 0x4000u32 == 0x4000u32) by (bit_vector)
        requires
            x & 0x4000u32 == 0x4000u32,
    ;
}

proof fn lemma_fold_keeps_norepeat(parts: Seq<Seq<char>>)
    ensures
        shortcut_fold(parts) matches Ok(state) ==> state.0 & mod_norepeat() == mod_norepeat(),
    decreases parts.len(),
{
    if parts.len() == 0 {
        assert(0x4000u32 & 0x4000u32 == 0x4000u32) by (bit_vector);
    } else {
        lemma_fold_keeps_norepeat(parts.drop_last());
        if let Ok(state) = shortcut_fold(parts.drop_last()) {
            lemma_or_keeps_norepeat(state.0, mod_control());
            lemma_or_keeps_norepeat(state.0, mod_shift());
            lemma_or_keeps_norepeat(state.0, mod_alt());
            lemma_or_keeps_norepeat(state.0, mod_win());
        }
    }
}

/// Every shortcut that registers carries `MOD_NOREPEAT`, so holding the keys
/// down fires the hotkey once.
pub proof fn lemma_registration_never_repeats(shortcut: Seq<char>)
    ensures
        shortcut_registration(shortcut) matches Ok((modifiers, key)) ==> modifiers & mod_norepeat()
            == mod_norepeat(),
{
    lemma_fold_keeps_norepeat(split_on(shortcut, '+'));
}

proof fn lemma_fold_keys_are_upper_case(parts: Seq<Seq<char>>)
    ensures
        shortcut_fold(parts) matches Ok(state) ==> (state.1 matches Some(c) ==> ('A' <= c <= 'Z'
            || '0' <= c <= '9')),
    decreases parts.len(),
{
    if parts.len() > 0 {
        lemma_fold_keys_are_upper_case(parts.drop_last());
        if let Ok(state) = shortcut_fold(parts.drop_last()) {
            let token = trim(parts.last());
            if token.len() > 0 {
                let c = token[0];
                if 'a' <= c <= 'z' {
                    assert('A' <= ascii_upper(c) <= 'Z');
                }
            }
        }
    }
}

/// The key a shortcut registers is always the code of an upper-case ASCII
/// letter or of a digit, whatever the case in which the key was written.
pub proof fn lemma_registered_key_is_upper_case(shortcut: Seq<char>)
    ensures
        shortcut_registration(shortcut) matches Ok((modifiers, key)) ==> (65 <= key <= 90 || 48
            <= key <= 57),
{
    lemma_fold_keys_are_upper_case(split_on(shortcut, '+'));
}

proof fn lemma_split_with_key(modifiers: Seq<char>, c: char)
    requires
        c != '+',
    ensures
        split_on(modifiers + seq!['+', c], '+') == split_on(modifiers, '+').push(seq![c]),
{
    let s = modifiers + seq!['+', c];
    let t = modifiers.push('+');
    assert(s.drop_last() =~= t);
    assert(s.last() == c);
    assert(t.drop_last() =~= modifiers);
    assert(t.last() == '+');
    assert(split_on(t, '+') == split_on(modifiers, '+').push(Seq::<char>::empty()));
    assert(Seq::<char>::empty().push(c) =~= seq![c]);
    assert(split_on(s, '+') =~= split_on(modifiers, '+').push(seq![c]));
}

proof fn lemma_step_on_letter(modifiers: u32, c: char)
    requires
        ('a' <= c <= 'z') || ('A' <= c <= 'Z'),
    ensures
        shortcut_step((modifiers, None), seq![c]) == Ok::<ShortcutState, Seq<char>>(
            (modifiers, Some(ascii_upper(c))),
        ),
{
    let one = seq![c];
    assert(!is_whitespace(c));
    assert(one.last() == c && one[0] == c);
    assert(trim_start(one) == one);
    assert(trim_end(one) == one);
    assert(trim(one) == one);
    assert(ascii_lowercase(one).len() == 1);
    reveal_strlit("ctrl");
    reveal_strlit("control");
    reveal_strlit("shift");
    reveal_strlit("alt");
    reveal_strlit("win");
    reveal_strlit("windows");
    reveal_strlit("super");
    assert(is_ascii_alphanumeric(c));
}

/// A key letter written after a list of modifiers registers as the code of
/// its upper-case letter, with those modifiers: `Ctrl+z` and `Ctrl+Z` both
/// register the `Z` key.
pub proof fn lemma_key_letter_registers_upper_case(modifiers: Seq<char>, held: u32, c: char)
    requires
        shortcut_fold(split_on(modifiers, '+')) == Ok::<ShortcutState, Seq<char>>((held, None)),
        'a' <= c <= 'z',
    ensures
        shortcut_registration(modifiers + seq!['+', c]) == Ok::<(u32, u32), Seq<char>>(
            (held, ((c as u32) - 32) as u32),
        ),
        shortcut_registration(modifiers + seq!['+', ((c as u32) - 32) as char]) == Ok::<
            (u32, u32),
            Seq<char>,
        >((held, ((c as u32) - 32) as u32)),
{
    let upper = ((c as u32) - 32) as char;
    assert('A' <= upper <= 'Z');
    lemma_split_with_key(modifiers, c);
    lemma_split_with_key(modifiers, upper);
    let parts = split_on(modifiers, '+');
    assert(parts.push(seq![c]).drop_last() =~= parts);
    assert(parts.push(seq![upper]).drop_last() =~= parts);
    lemma_step_on_letter(held, c);
    lemma_step_on_letter(held, upper);
    assert(ascii_upper(c) == upper);
    assert(ascii_upper(upper) == upper);
}

proof fn lemma_fold_error_sticks(parts: Seq<Seq<char>>, i: int, j: int)
    requires
        0 <= i <= j <= parts.len(),
        shortcut_fold(parts.take(i)) is Err,
    ensures
        shortcut_fold(parts.take(j)) == shortcut_fold(parts.take(i)),
    decreases j - i,
{
    if j > i {
        lemma_fold_error_sticks(parts, i, j - 1);
        assert(parts.take(j).drop_last() =~= parts.take(j - 1));
    }
}

/// Parses a shortcut text such as `Ctrl+Shift+Alt+L` into what
/// `RegisterHotKey` takes.
pub fn parse_shortcut(shortcut: &str) -> (r: Result<HotkeyRegistration, HotkeyError>)
    ensures
        match shortcut_registration(shortcut@) {
            Ok((modifiers, key)) => r == Ok::<HotkeyRegistration, HotkeyError>(
                HotkeyRegistration { modifiers, virtual_key: key },
            ),
            Err(message) => r matches Err(e) && e@ == message,
        },
{
    let cs = chars_of(shortcut);
    let parts = split_ranges(&cs, '+');
    let ghost pieces = split_on(cs@, '+');
    let mut modifiers: u32 = win32_mod_norepeat();
    let mut key: Option<char> = None;
    let mut i: usize = 0;
    assert(pieces.take(0) =~= Seq::<Seq<char>>::empty());
    while i < parts.len()
        invariant
            cs@ == shortcut@,
            pieces == split_on(cs@, '+'),
            parts@.len() == pieces.len(),
            forall|j: int|
                #![trigger parts@[j]]
                0 <= j < parts@.len() ==> parts@[j].0 <= parts@[j].1 <= cs@.len()
                    && cs@.subrange(parts@[j].0 as int, parts@[j].1 as int) == pieces[j],
            i <= parts@.len(),
            shortcut_fold(pieces.take(i as int)) == Ok::<ShortcutState, Seq<char>>((modifiers, key)),
        decreases parts@.len() - i,
    {
        let (lo, hi) = parts[i];
        let ghost part = pieces[i as int];
        proof {
            assert(pieces.take(i + 1).drop_last() =~= pieces.take(i as int));
            assert(pieces.take(i + 1).last() == part);
        }
        let (a, b) = trim_bounds(&cs, lo, hi);
        let ghost token = cs@.subrange(a as int, b as int);
        assert(token == trim(part));
        if a == b {
            proof {
                lemma_fold_error_sticks(pieces, i + 1, pieces.len() as int);
                assert(pieces.take(pieces.len() as int) =~= pieces);
            }
            return Err(HotkeyError::new(owned("hotkey shortcut contains an empty component")));
        }
        if range_eq_ascii_lowercase(&cs, a, b, "ctrl") || range_eq_ascii_lowercase(
            &cs,
            a,
            b,
            "control",
        ) {
            modifiers = modifiers | win32_mod_control();
        } else if range_eq_ascii_lowercase(&cs, a, b, "shift") {
            modifiers = modifiers | win32_mod_shift();
        } else if range_eq_ascii_lowercase(&cs, a, b, "alt") {
            modifiers = modifiers | win32_mod_alt();
        } else if range_eq_ascii_lowercase(&cs, a, b, "win") || range_eq_ascii_lowercase(
            &cs,
            a,
            b,
            "windows",
        ) || range_eq_ascii_lowercase(&cs, a, b, "super") {
            modifiers = modifiers | win32_mod_win();
        } else {
            if key.is_some() {
                proof {
                    lemma_fold_error_sticks(pieces, i + 1, pieces.len() as int);
                    assert(pieces.take(pieces.len() as int) =~= pieces);
                }
                return Err(
                    HotkeyError::new(owned("hotkey shortcut must contain exactly one key")),
                );
            }
            if b - a != 1 || !char_is_ascii_alphanumeric(cs[a]) {
                proof {
                    lemma_fold_error_sticks(pieces, i + 1, pieces.len() as int);
                    assert(pieces.take(pieces.len() as int) =~= pieces);
                }
                let mut message = owned("unsupported hotkey key: ");
                let token_text = string_from_range(&cs, a, b);
                push_str(&mut message, token_text.as_str());
                return Err(HotkeyError::new(message));
            }
            key = Some(char_to_ascii_uppercase(cs[a]));
        }
        i = i + 1;
    }
    proof {
        assert(pieces.take(pieces.len() as int) =~= pieces);
    }
    match key {
        None => Err(HotkeyError::new(owned("hotkey shortcut must contain a key"))),
        Some(k) => Ok(HotkeyRegistration { modifiers, virtual_key: k as u32 }),
    }
}

/// Whether the hotkey thread's message loop goes on after `GetMessageW`
/// returned `result`: it stops on `WM_QUIT` (zero) and on failure (-1).
pub fn message_loop_continues(result: i32) -> (r: bool)
    ensures
        r == (result != 0 && result != -1),
{
    result != 0 && result != -1
}

/// Whether a thread message is the press of the registered hotkey.
pub fn is_hotkey_press(message: u32, w_param: usize) -> (r: bool)
    ensures
        r == (message == wm_hotkey() && w_param == HOTKEY_ID as usize),
{
    message == win32_wm_hotkey() && w_param == HOTKEY_ID as usize
}

} // verus!
