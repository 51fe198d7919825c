//! Simulated key presses sent to a target player: parsing the key strings of
//! rules (`"]"`, `"Ctrl+Up"`, `"F5"`) and ordering the key events so that
//! modifiers the user is still holding do not leak into the combination.

use vstd::prelude::*;
use crate::text::{
    ascii_lower_seq, ascii_upper, chars_eq_str, chars_of, lower_ascii_chars,
    string_of, to_ascii_upper, trim, trimmed,
};

verus! {

// Win32 virtual-key codes (winuser.h).
pub const VK_BACK: u16 = 0x08;
pub const VK_TAB: u16 = 0x09;
pub const VK_RETURN: u16 = 0x0D;
pub const VK_SHIFT: u16 = 0x10;
pub const VK_CONTROL: u16 = 0x11;
pub const VK_MENU: u16 = 0x12;
pub const VK_ESCAPE: u16 = 0x1B;
pub const VK_SPACE: u16 = 0x20;
pub const VK_PRIOR: u16 = 0x21;
pub const VK_NEXT: u16 = 0x22;
pub const VK_END: u16 = 0x23;
pub const VK_HOME: u16 = 0x24;
pub const VK_LEFT: u16 = 0x25;
pub const VK_UP: u16 = 0x26;
pub const VK_RIGHT: u16 = 0x27;
pub const VK_DOWN: u16 = 0x28;
pub const VK_SNAPSHOT: u16 = 0x2C;
pub const VK_INSERT: u16 = 0x2D;
pub const VK_DELETE: u16 = 0x2E;
pub const VK_LWIN: u16 = 0x5B;
pub const VK_RWIN: u16 = 0x5C;
pub const VK_APPS: u16 = 0x5D;
pub const VK_DIVIDE: u16 = 0x6F;
pub const VK_F1: u16 = 0x70;
pub const VK_NUMLOCK: u16 = 0x90;
pub const VK_LSHIFT: u16 = 0xA0;
pub const VK_RSHIFT: u16 = 0xA1;
pub const VK_LCONTROL: u16 = 0xA2;
pub const VK_RCONTROL: u16 = 0xA3;
pub const VK_LMENU: u16 = 0xA4;
pub const VK_RMENU: u16 = 0xA5;

/// A key combination sent to the target player.
#[derive(Debug, Clone, Copy, PartialEq, Eq, Structural)]
pub struct KeyCombo {
    pub ctrl: bool,
    pub alt: bool,
    pub shift: bool,
    /// Win32 virtual-key code.
    pub vk: u16,
}

/// Result of parsing up to the main key.
pub enum KeyParse {
    /// Parsing is complete.
    Done(Option<KeyCombo>),
    /// The main key is a printable character whose key depends on the current
    /// keyboard layout: the combination so far and the UTF-16 unit to look up.
    Layout(KeyCombo, u16),
}

/// How a main key resolves without the keyboard layout.
pub enum MainKey {
    Bad,
    Vk(u16),
    Layout(u16),
}

/// Pieces of a sequence separated by `sep` (always at least one piece).
pub open spec fn split_on(s: Seq<char>, sep: char) -> Seq<Seq<char>>
    decreases s.len(),
{
    if s.len() == 0 {
        seq![Seq::<char>::empty()]
    } else {
        let rest = split_on(s.drop_last(), sep);
        if s.last() == sep {
            rest.push(Seq::<char>::empty())
        } else {
            rest.update(rest.len() - 1, rest.last().push(s.last()))
        }
    }
}

proof fn lemma_split_nonempty(s: Seq<char>, sep: char)
    ensures
        split_on(s, sep).len() >= 1,
    decreases s.len(),
{
    if s.len() > 0 {
        lemma_split_nonempty(s.drop_last(), sep);
    }
}

/// The main key and the modifier pieces: a trailing `"++"` (two empty pieces)
/// means the main key is `+` itself.
pub open spec fn main_and_mods(parts: Seq<Seq<char>>) -> (Seq<char>, Seq<Seq<char>>) {
    let n = parts.len();
    if n >= 2 && parts[n - 1].len() == 0 && parts[n - 2].len() == 0 {
        (seq!['+'], parts.subrange(0, n - 2))
    } else {
        (parts[n - 1], parts.subrange(0, n - 1))
    }
}

/// Which modifier a piece names: 0 Ctrl, 1 Alt, 2 Shift.
pub open spec fn modifier_flag(m: Seq<char>) -> Option<int> {
    let l = ascii_lower_seq(trimmed(m));
    if l == "ctrl"@ || l == "control"@ {
        Some(0)
    } else if l == "alt"@ {
        Some(1)
    } else if l == "shift"@ {
        Some(2)
    } else {
        None
    }
}

pub open spec fn mods_ok(mods: Seq<Seq<char>>) -> bool {
    forall|i: int| 0 <= i < mods.len() ==> (#[trigger] modifier_flag(mods[i])) is Some
}

pub open spec fn has_mod(mods: Seq<Seq<char>>, f: int) -> bool {
    exists|i: int| 0 <= i < mods.len() && #[trigger] modifier_flag(mods[i]) == Some(f)
}

/// Named keys (lower case) → virtual key.
pub open spec fn named_vk(l: Seq<char>) -> Option<u16> {
    if l == "up"@ {
        Some(VK_UP)
    } else if l == "down"@ {
        Some(VK_DOWN)
    } else if l == "left"@ {
        Some(VK_LEFT)
    } else if l == "right"@ {
        Some(VK_RIGHT)
    } else if l == "space"@ {
        Some(VK_SPACE)
    } else if l == "enter"@ || l == "return"@ {
        Some(VK_RETURN)
    } else if l == "tab"@ {
        Some(VK_TAB)
    } else if l == "esc"@ || l == "escape"@ {
        Some(VK_ESCAPE)
    } else if l == "backspace"@ {
        Some(VK_BACK)
    } else if l == "home"@ {
        Some(VK_HOME)
    } else if l == "end"@ {
        Some(VK_END)
    } else if l == "pageup"@ {
        Some(VK_PRIOR)
    } else if l == "pagedown"@ {
        Some(VK_NEXT)
    } else if l == "insert"@ {
        Some(VK_INSERT)
    } else if l == "delete"@ {
        Some(VK_DELETE)
    } else {
        None
    }
}

pub open spec fn is_digit(c: char) -> bool {
    '0' <= c && c <= '9'
}

pub open spec fn digit_value(c: char) -> int {
    (c as int) - ('0' as int)
}

/// Decimal value of a digit sequence.
pub open spec fn dec_value(s: Seq<char>) -> int
    decreases s.len(),
{
    if s.len() == 0 {
        0
    } else {
        dec_value(s.drop_last()) * 10 + digit_value(s.last())
    }
}

/// The digits of an unsigned number: without a leading `+`.
pub open spec fn digits_part(s: Seq<char>) -> Seq<char> {
    if s.len() > 0 && s[0] == '+' {
        s.drop_first()
    } else {
        s
    }
}

pub open spec fn all_digits(d: Seq<char>) -> bool {
    forall|i: int| 0 <= i < d.len() ==> is_digit(#[trigger] d[i])
}

/// `str::parse::<u16>`: an optional `+`, then one or more digits, at most 65535.
pub open spec fn parse_u16_spec(s: Seq<char>) -> Option<int> {
    let d = digits_part(s);
    if d.len() == 0 || !all_digits(d) {
        None
    } else if dec_value(d) > 65535 {
        None
    } else {
        Some(dec_value(d))
    }
}

/// The main key after trimming, without the keyboard layout.
pub open spec fn resolve_spec(main: Seq<char>) -> MainKey {
    let l = ascii_lower_seq(main);
    if main.len() == 0 {
        MainKey::Bad
    } else if named_vk(l) is Some {
        MainKey::Vk(named_vk(l)->0)
    } else if l[0] == 'f' && parse_u16_spec(l.drop_first()) is Some && 1 <= parse_u16_spec(
        l.drop_first(),
    )->0 <= 24 {
        MainKey::Vk((VK_F1 + parse_u16_spec(l.drop_first())->0 - 1) as u16)
    } else if l[0] == 'f' && main.len() > 1 {
        MainKey::Bad
    } else if main.len() != 1 {
        MainKey::Bad
    } else if ('a' <= main[0] && main[0] <= 'z') || ('A' <= main[0] && main[0] <= 'Z') || is_digit(main[0]) {
        MainKey::Vk(ascii_upper(main[0]) as u16)
    } else if (main[0] as int) > 0xFFFF {
        MainKey::Bad
    } else {
        MainKey::Layout(main[0] as u16)
    }
}

/// Parse of a key string up to the layout lookup.
pub open spec fn parse_plan(s: Seq<char>) -> KeyParse {
    let t = trimmed(s);
    if t.len() == 0 {
        KeyParse::Done(None)
    } else {
        let (main, mods) = main_and_mods(split_on(t, '+'));
        if !mods_ok(mods) {
            KeyParse::Done(None)
        } else {
            let base = KeyCombo { ctrl: has_mod(mods, 0), alt: has_mod(mods, 1), shift: has_mod(mods, 2), vk: 0 };
            match resolve_spec(trimmed(main)) {
                MainKey::Bad => KeyParse::Done(None),
                MainKey::Vk(v) => KeyParse::Done(Some(KeyCombo { vk: v, ..base })),
                MainKey::Layout(u) => KeyParse::Layout(base, u),
            }
        }
    }
}

/// Completion with the layout lookup result (`VkKeyScanW`: low byte the key,
/// high byte Shift 1 / Ctrl 2 / Alt 4; -1 for no key).
pub open spec fn finish_layout(base: KeyCombo, ret: i16) -> Option<KeyCombo> {
    let vk = (ret as int) % 256;
    let state = ((ret as int) / 256) % 256;
    if ret == -1 || vk == 0 || vk == 0xFF {
        None
    } else {
        Some(
            KeyCombo {
                ctrl: base.ctrl || (state / 2) % 2 == 1,
                alt: base.alt || (state / 4) % 2 == 1,
                shift: base.shift || state % 2 == 1,
                vk: vk as u16,
            },
        )
    }
}

fn split_plus(v: &Vec<char>) -> (parts: Vec<Vec<char>>)
    ensures
        parts@.map_values(|p: Vec<char>| p@) == split_on(v@, '+'),
{
    let mut parts: Vec<Vec<char>> = Vec::new();
    parts.push(Vec::new());
    let mut i: usize = 0;
    proof {
        assert(parts@.map_values(|p: Vec<char>| p@) =~= split_on(v@.subrange(0, 0), '+'));
    }
    while i < v.len()
        invariant
            i <= v.len(),
            parts@.len() >= 1,
            parts@.map_values(|p: Vec<char>| p@) == split_on(v@.subrange(0, i as int), '+'),
        decreases v.len() - i,
    {
        let c = v[i];
        let ghost prev = parts@.map_values(|p: Vec<char>| p@);
        proof {
            assert(v@.subrange(0, i + 1).drop_last() =~= v@.subrange(0, i as int));
        }
        if c == '+' {
            parts.push(Vec::new());
            assert(parts@.map_values(|p: Vec<char>| p@) =~= prev.push(Seq::<char>::empty()));
        } else {
            let last = parts.len() - 1;
            let mut cur = parts[last].clone();
            cur.push(c);
            parts.set(last, cur);
            assert(parts@.map_values(|p: Vec<char>| p@) =~= prev.update(
                prev.len() - 1,
                prev.last().push(c),
            ));
        }
        i = i + 1;
    }
    assert(v@.subrange(0, v.len() as int) =~= v@);
    parts
}

/// Which modifier a piece names (see [`modifier_flag`]).
fn modifier_of(m: &Vec<char>) -> (r: Option<u8>)
    ensures
        r matches Some(f) ==> modifier_flag(m@) == Some(f as int),
        r is None ==> modifier_flag(m@) is None,
{
    let s = string_of(m);
    let t = chars_of(trim(s.as_str()).as_str());
    let l = lower_ascii_chars(&t);
    if chars_eq_str(&l, "ctrl") || chars_eq_str(&l, "control") {
        Some(0)
    } else if chars_eq_str(&l, "alt") {
        Some(1)
    } else if chars_eq_str(&l, "shift") {
        Some(2)
    } else {
        None
    }
}

fn named_key(l: &Vec<char>) -> (r: Option<u16>)
    ensures
        r == named_vk(l@),
{
    if chars_eq_str(l, "up") {
        Some(VK_UP)
    } else if chars_eq_str(l, "down") {
        Some(VK_DOWN)
    } else if chars_eq_str(l, "left") {
        Some(VK_LEFT)
    } else if chars_eq_str(l, "right") {
        Some(VK_RIGHT)
    } else if chars_eq_str(l, "space") {
        Some(VK_SPACE)
    } else if chars_eq_str(l, "enter") || chars_eq_str(l, "return") {
        Some(VK_RETURN)
    } else if chars_eq_str(l, "tab") {
        Some(VK_TAB)
    } else if chars_eq_str(l, "esc") || chars_eq_str(l, "escape") {
        Some(VK_ESCAPE)
    } else if chars_eq_str(l, "backspace") {
        Some(VK_BACK)
    } else if chars_eq_str(l, "home") {
        Some(VK_HOME)
    } else if chars_eq_str(l, "end") {
        Some(VK_END)
    } else if chars_eq_str(l, "pageup") {
        Some(VK_PRIOR)
    } else if chars_eq_str(l, "pagedown") {
        Some(VK_NEXT)
    } else if chars_eq_str(l, "insert") {
        Some(VK_INSERT)
    } else if chars_eq_str(l, "delete") {
        Some(VK_DELETE)
    } else {
        None
    }
}

proof fn lemma_dec_step(s: Seq<char>, i: int)
    requires
        0 <= i < s.len(),
    ensures
        dec_value(s.subrange(0, i + 1)) == dec_value(s.subrange(0, i)) * 10 + digit_value(s[i]),
{
    assert(s.subrange(0, i + 1).drop_last() =~= s.subrange(0, i));
}

proof fn lemma_dec_nonneg(s: Seq<char>)
    requires
        forall|i: int| 0 <= i < s.len() ==> is_digit(#[trigger] s[i]),
    ensures
        dec_value(s) >= 0,
    decreases s.len(),
{
    if s.len() > 0 {
        lemma_dec_nonneg(s.drop_last());
    }
}

/// `str::parse::<u16>` over characters (see [`parse_u16_spec`]).
pub(crate) fn parse_u16(s: &Vec<char>, from: usize) -> (r: Option<u16>)
    requires
        from <= s@.len(),
    ensures
        r matches Some(n) ==> parse_u16_spec(s@.subrange(from as int, s@.len() as int)) == Some(n as int),
        r is None ==> parse_u16_spec(s@.subrange(from as int, s@.len() as int)) is None,
{
    let ghost whole = s@.subrange(from as int, s@.len() as int);
    let mut start = from;
    if start < s.len() && s[start] == '+' {
        start = start + 1;
    }
    let ghost d = s@.subrange(start as int, s@.len() as int);
    proof {
        if whole.len() > 0 && whole[0] == '+' {
            assert(whole.drop_first() =~= d);
        } else {
            assert(whole =~= d);
        }
    }
    if start >= s.len() {
        return None;
    }
    let mut i = start;
    while i < s.len()
        invariant
            start < s.len(),
            start <= i <= s.len(),
            d == s@.subrange(start as int, s@.len() as int),
            whole == s@.subrange(from as int, s@.len() as int),
            (whole.len() > 0 && whole[0] == '+') ==> whole.drop_first() == d,
            !(whole.len() > 0 && whole[0] == '+') ==> whole == d,
            forall|k: int| 0 <= k < i - start ==> is_digit(#[trigger] d[k]),
        decreases s.len() - i,
    {
        if !('0' <= s[i] && s[i] <= '9') {
            assert(d[i - start] == s@[i as int]);
            assert(!is_digit(d[i - start]));
            assert(digits_part(whole) == d);
            return None;
        }
        i = i + 1;
    }
    let mut v: u32 = 0;
    let mut j = start;
    while j < s.len()
        invariant
            start <= j <= s.len(),
            d == s@.subrange(start as int, s@.len() as int),
            forall|k: int| 0 <= k < d.len() ==> is_digit(#[trigger] d[k]),
            v as int == if dec_value(d.subrange(0, j - start)) < 70000 {
                dec_value(d.subrange(0, j - start))
            } else {
                70000
            },
        decreases s.len() - j,
    {
        proof {
            lemma_dec_step(d, j - start);
            lemma_dec_nonneg(d.subrange(0, j - start));
            assert(is_digit(d[j - start]));
        }
        let digit = (s[j] as u32) - ('0' as u32);
        let next = v * 10 + digit;
        v = if next < 70000 {
            next
        } else {
            70000
        };
        j = j + 1;
    }
    assert(d.subrange(0, d.len() as int) =~= d);
    if v > 65535 {
        None
    } else {
        Some(v as u16)
    }
}

fn resolve_main(main: &Vec<char>) -> (r: MainKey)
    ensures
        r == resolve_spec(main@),
{
    if main.len() == 0 {
        return MainKey::Bad;
    }
    let lower = lower_ascii_chars(main);
    if let Some(vk) = named_key(&lower) {
        return MainKey::Vk(vk);
    }
    if lower[0] == 'f' {
        if let Some(n) = parse_u16(&lower, 1) {
            assert(lower@.subrange(1, lower@.len() as int) =~= lower@.drop_first());
            if 1 <= n && n <= 24 {
                return MainKey::Vk(VK_F1 + n - 1);
            }
        } else {
            assert(lower@.subrange(1, lower@.len() as int) =~= lower@.drop_first());
        }
        if main.len() > 1 {
            return MainKey::Bad;
        }
    }
    if main.len() != 1 {
        return MainKey::Bad;
    }
    let c = main[0];
    if ('a' <= c && c <= 'z') || ('A' <= c && c <= 'Z') || ('0' <= c && c <= '9') {
        return MainKey::Vk(to_ascii_upper(c) as u16);
    }
    let unit = c as u32;
    if unit > 0xFFFF {
        MainKey::Bad
    } else {
        MainKey::Layout(unit as u16)
    }
}

/// Parses a rule's key string up to the layout lookup (see [`parse_plan`]).
pub fn parse_key_plan(s: &str) -> (r: KeyParse)
    ensures
        r == parse_plan(s@),
{
    let t = trim(s);
    if t.as_str().is_empty() {
        return KeyParse::Done(None);
    }
    let chars = chars_of(t.as_str());
    let parts = split_plus(&chars);
    let ghost pv = parts@.map_values(|p: Vec<char>| p@);
    proof {
        lemma_split_nonempty(t@, '+');
    }
    let n = parts.len();
    let plus_main = n >= 2 && parts[n - 1].len() == 0 && parts[n - 2].len() == 0;
    let nmods = if plus_main {
        n - 2
    } else {
        n - 1
    };
    let ghost (mainv, mods) = main_and_mods(pv);
    proof {
        assert(mods =~= pv.subrange(0, nmods as int));
    }
    let mut ctrl = false;
    let mut alt = false;
    let mut shift = false;
    let mut i: usize = 0;
    while i < nmods
        invariant
            nmods <= n,
            n == parts@.len(),
            pv == parts@.map_values(|p: Vec<char>| p@),
            trimmed(s@).len() > 0,
            pv == split_on(trimmed(s@), '+'),
            mods == main_and_mods(pv).1,
            mods == pv.subrange(0, nmods as int),
            i <= nmods,
            forall|k: int| 0 <= k < i ==> (#[trigger] modifier_flag(mods[k])) is Some,
            ctrl == exists|k: int| 0 <= k < i && #[trigger] modifier_flag(mods[k]) == Some(0int),
            alt == exists|k: int| 0 <= k < i && #[trigger] modifier_flag(mods[k]) == Some(1int),
            shift == exists|k: int| 0 <= k < i && #[trigger] modifier_flag(mods[k]) == Some(2int),
        decreases nmods - i,
    {
        assert(mods[i as int] == parts@[i as int]@);
        match modifier_of(&parts[i]) {
            Some(0) => {
                ctrl = true;
            },
            Some(1) => {
                alt = true;
            },
            Some(_) => {
                shift = true;
            },
            None => {
                assert(modifier_flag(mods[i as int]) is None);
                return KeyParse::Done(None);
            },
        }
        i = i + 1;
    }
    let main_chars: Vec<char> = if plus_main {
        let mut p: Vec<char> = Vec::new();
        p.push('+');
        p
    } else {
        parts[n - 1].clone()
    };
    assert(main_chars@ =~= mainv);
    let ms = string_of(&main_chars);
    let main = chars_of(trim(ms.as_str()).as_str());
    let base = KeyCombo { ctrl, alt, shift, vk: 0 };
    match resolve_main(&main) {
        MainKey::Bad => KeyParse::Done(None),
        MainKey::Vk(v) => KeyParse::Done(Some(KeyCombo { vk: v, ..base })),
        MainKey::Layout(u) => KeyParse::Layout(base, u),
    }
}

/// Completes a combination with the layout lookup result (see
/// [`finish_layout`]).
pub fn finish_with_layout(base: KeyCombo, ret: i16) -> (r: Option<KeyCombo>)
    ensures
        r == finish_layout(base, ret),
{
    if ret == -1 {
        return None;
    }
    let vk: i16 = ret & 0xFF;
    let state: i16 = (ret >> 8) & 0xFF;
    assert(vk == (ret as int) % 256 && state == ((ret as int) / 256) % 256) by (bit_vector)
        requires
            vk == ret & 0xFF,
            state == (ret >> 8) & 0xFF,
    ;
    if vk == 0 || vk == 0xFF {
        return None;
    }
    assert((state & 1 != 0) == (state % 2 == 1) && (state & 2 != 0) == ((state / 2) % 2 == 1)
        && (state & 4 != 0) == ((state / 4) % 2 == 1)) by (bit_vector)
        requires
            0 <= state < 256,
    ;
    Some(
        KeyCombo {
            ctrl: base.ctrl || state & 2 != 0,
            alt: base.alt || state & 4 != 0,
            shift: base.shift || state & 1 != 0,
            vk: vk as u16,
        },
    )
}

/// Parses a rule's key string (`"]"`, `"Ctrl+Up"`, `"F5"`, `"Shift+."`).
/// Named keys, F1–F24 and single letters / digits (by physical key, no Shift)
/// resolve directly; any other printable character is looked up in the current
/// keyboard layout through `layout` (`VkKeyScanW`), whose Shift / Ctrl / Alt
/// state joins the combination. `None` for anything else.
pub fn parse_key<F: Fn(u16) -> i16>(s: &str, layout: F) -> (r: Option<KeyCombo>)
    requires
        forall|u: u16| call_requires(layout, (u,)),
    ensures
        match parse_plan(s@) {
            KeyParse::Done(d) => r == d,
            KeyParse::Layout(base, u) => exists|ret: i16| call_ensures(layout, (u,), ret) && r == finish_layout(base, ret),
        },
{
    match parse_key_plan(s) {
        KeyParse::Done(d) => d,
        KeyParse::Layout(base, u) => {
            let ret = layout(u);
            finish_with_layout(base, ret)
        },
    }
}

/// Physical modifiers lifted for the length of a sent combination, left and
/// right apart, in the order they are lifted (Ctrl last, see
/// [`build_sequence`]).
pub const NEUTRALIZE_ORDER: [u16; 8] = [
    VK_LSHIFT,
    VK_RSHIFT,
    VK_LWIN,
    VK_RWIN,
    VK_LMENU,
    VK_RMENU,
    VK_LCONTROL,
    VK_RCONTROL,
];

/// Key-down events of the keys, in order.
pub open spec fn downs(s: Seq<u16>) -> Seq<(u16, bool)> {
    s.map_values(|v: u16| (v, false))
}

/// Key-up events of the keys, in order.
pub open spec fn ups(s: Seq<u16>) -> Seq<(u16, bool)> {
    s.map_values(|v: u16| (v, true))
}

/// The keys of a combination in pressing order: Ctrl, Alt, Shift, main key.
pub open spec fn combo_order(c: KeyCombo) -> Seq<u16> {
    (if c.ctrl {
        seq![VK_CONTROL]
    } else {
        Seq::empty()
    }) + (if c.alt {
        seq![VK_MENU]
    } else {
        Seq::empty()
    }) + (if c.shift {
        seq![VK_SHIFT]
    } else {
        Seq::empty()
    }) + seq![c.vk]
}

/// Whether lifting the held keys needs a Ctrl pressed around it: a lone Alt
/// or Win release would open the window menu or the Start menu, but not while
/// Ctrl is down.
pub open spec fn needs_mask(held: Seq<u16>) -> bool {
    !held.contains(VK_LCONTROL) && !held.contains(VK_RCONTROL) && (held.contains(VK_LMENU)
        || held.contains(VK_RMENU) || held.contains(VK_LWIN) || held.contains(VK_RWIN))
}

/// The full event sequence of one send (`(vk, key_up)`): lift the held
/// modifiers (masked by Ctrl when needed), press the combination, release it
/// in reverse, press the held modifiers back in reverse.
pub open spec fn sequence_spec(held: Seq<u16>, c: KeyCombo) -> Seq<(u16, bool)> {
    let mask = needs_mask(held);
    (if mask {
        seq![(VK_LCONTROL, false)]
    } else {
        Seq::empty()
    }) + ups(held) + (if mask {
        seq![(VK_LCONTROL, true)]
    } else {
        Seq::empty()
    }) + downs(combo_order(c)) + ups(combo_order(c).reverse()) + downs(held.reverse())
}

fn contains_vk(v: &[u16], vk: u16) -> (r: bool)
    ensures
        r == v@.contains(vk),
{
    let mut i: usize = 0;
    while i < v.len()
        invariant
            i <= v.len(),
            forall|k: int| 0 <= k < i ==> v@[k] != vk,
        decreases v.len() - i,
    {
        if v[i] == vk {
            assert(v@[i as int] == vk);
            return true;
        }
        i = i + 1;
    }
    false
}

fn push_all(out: &mut Vec<(u16, bool)>, keys: &Vec<u16>, up: bool, reversed: bool)
    ensures
        final(out)@ == old(out)@ + (if reversed {
            keys@.reverse()
        } else {
            keys@
        }).map_values(|v: u16| (v, up)),
{
    let ghost start = out@;
    let ghost src = if reversed {
        keys@.reverse()
    } else {
        keys@
    };
    let n = keys.len();
    let mut i: usize = 0;
    while i < n
        invariant
            n == keys@.len(),
            i <= n,
            src == (if reversed {
                keys@.reverse()
            } else {
                keys@
            }),
            out@ == start + src.subrange(0, i as int).map_values(|v: u16| (v, up)),
        decreases n - i,
    {
        let vk = if reversed {
            keys[n - 1 - i]
        } else {
            keys[i]
        };
        assert(vk == src[i as int]);
        out.push((vk, up));
        assert(src.subrange(0, i + 1).map_values(|v: u16| (v, up)) =~= src.subrange(0, i as int).map_values(
            |v: u16| (v, up),
        ).push((vk, up)));
        i = i + 1;
    }
    assert(src.subrange(0, n as int) =~= src);
}

/// The events of one send (see [`sequence_spec`]). The combination the user
/// triggered the hotkey with is usually still held; sent as is, the player
/// would get `Ctrl+Alt+.` instead of `.` and drop it. Pressing the held keys
/// back afterwards keeps a held hotkey repeating.
pub fn build_sequence(held: &Vec<u16>, combo: KeyCombo) -> (r: Vec<(u16, bool)>)
    ensures
        r@ == sequence_spec(held@, combo),
{
    let has_ctrl = contains_vk(held.as_slice(), VK_LCONTROL) || contains_vk(held.as_slice(), VK_RCONTROL);
    let mask = !has_ctrl && (contains_vk(held.as_slice(), VK_LMENU) || contains_vk(held.as_slice(), VK_RMENU)
        || contains_vk(held.as_slice(), VK_LWIN) || contains_vk(held.as_slice(), VK_RWIN));
    let mut seq: Vec<(u16, bool)> = Vec::new();
    if mask {
        seq.push((VK_LCONTROL, false));
    }
    push_all(&mut seq, held, true, false);
    if mask {
        seq.push((VK_LCONTROL, true));
    }
    let mut order: Vec<u16> = Vec::new();
    if combo.ctrl {
        order.push(VK_CONTROL);
    }
    if combo.alt {
        order.push(VK_MENU);
    }
    if combo.shift {
        order.push(VK_SHIFT);
    }
    order.push(combo.vk);
    assert(order@ =~= combo_order(combo));
    push_all(&mut seq, &order, false, false);
    push_all(&mut seq, &order, true, true);
    push_all(&mut seq, held, false, true);
    assert(seq@ =~= sequence_spec(held@, combo));
    seq
}

/// A send leaves the keyboard as it found it: the held modifiers are lifted
/// first (after at most the masking Ctrl) and pressed back last, in reverse
/// order; the combination's own keys are pressed in order and released in
/// reverse.
pub proof fn law_sequence_restores_held(held: Seq<u16>, c: KeyCombo)
    ensures
        ({
            let s = sequence_spec(held, c);
            let m: int = if needs_mask(held) {
                1
            } else {
                0
            };
            let n = held.len() as int;
            let k = combo_order(c).len() as int;
            &&& s.len() == 2 * m + 2 * n + 2 * k
            &&& s.subrange(m, m + n) == ups(held)
            &&& s.subrange(s.len() - n, s.len() as int) == downs(held.reverse())
            &&& s.subrange(2 * m + n, 2 * m + n + k) == downs(combo_order(c))
            &&& s.subrange(2 * m + n + k, 2 * m + n + 2 * k) == ups(combo_order(c).reverse())
        }),
{
    let s = sequence_spec(held, c);
    let m: int = if needs_mask(held) {
        1
    } else {
        0
    };
    let n = held.len() as int;
    let k = combo_order(c).len() as int;
    let pre: Seq<(u16, bool)> = if needs_mask(held) {
        seq![(VK_LCONTROL, false)]
    } else {
        Seq::empty()
    };
    let mid: Seq<(u16, bool)> = if needs_mask(held) {
        seq![(VK_LCONTROL, true)]
    } else {
        Seq::empty()
    };
    let a = pre + ups(held);
    let b = a + mid;
    let d = b + downs(combo_order(c));
    let e = d + ups(combo_order(c).reverse());
    assert(s == e + downs(held.reverse()));
    assert(s.subrange(m, m + n) =~= ups(held));
    assert(s.subrange(s.len() - n, s.len() as int) =~= downs(held.reverse()));
    assert(s.subrange(2 * m + n, 2 * m + n + k) =~= downs(combo_order(c)));
    assert(s.subrange(2 * m + n + k, 2 * m + n + 2 * k) =~= ups(combo_order(c).reverse()));
}

/// With nothing held, a send is exactly the combination pressed and released.
pub proof fn law_nothing_held_sends_combo_only(c: KeyCombo)
    ensures
        sequence_spec(Seq::empty(), c) == downs(combo_order(c)) + ups(combo_order(c).reverse()),
{
    let e: Seq<u16> = Seq::empty();
    assert(!needs_mask(e));
    assert(ups(e) =~= Seq::empty());
    assert(e.reverse() =~= e);
    assert(downs(e.reverse()) =~= Seq::empty());
    assert(sequence_spec(e, c) =~= downs(combo_order(c)) + ups(combo_order(c).reverse()));
}

/// Keys that need `KEYEVENTF_EXTENDEDKEY` (otherwise some programs read the
/// arrow keys as the number pad's).
pub open spec fn is_extended_spec(vk: u16) -> bool {
    vk == VK_UP || vk == VK_DOWN || vk == VK_LEFT || vk == VK_RIGHT || vk == VK_HOME || vk == VK_END
        || vk == VK_PRIOR || vk == VK_NEXT || vk == VK_INSERT || vk == VK_DELETE || vk == VK_DIVIDE
        || vk == VK_NUMLOCK || vk == VK_RCONTROL || vk == VK_RMENU || vk == VK_LWIN || vk == VK_RWIN
        || vk == VK_APPS || vk == VK_SNAPSHOT
}

/// Whether a virtual key is an extended key (see [`is_extended_spec`]).
pub fn is_extended_key(vk: u16) -> (r: bool)
    ensures
        r == is_extended_spec(vk),
{
    vk == VK_UP || vk == VK_DOWN || vk == VK_LEFT || vk == VK_RIGHT || vk == VK_HOME || vk == VK_END
        || vk == VK_PRIOR || vk == VK_NEXT || vk == VK_INSERT || vk == VK_DELETE || vk == VK_DIVIDE
        || vk == VK_NUMLOCK || vk == VK_RCONTROL || vk == VK_RMENU || vk == VK_LWIN || vk == VK_RWIN
        || vk == VK_APPS || vk == VK_SNAPSHOT
}

/// Each key name resolves to a virtual-key code of its own: two names give
/// the same code only when they are spellings of one key (`enter` and
/// `return`, `esc` and `escape`). So a rule's speed-up and slow-down keys
/// never press the same key.
pub proof fn law_named_keys_distinct(a: Seq<char>, b: Seq<char>)
    requires
        named_vk(a) is Some,
        named_vk(a) == named_vk(b),
    ensures
        a == b || ((a == "enter"@ || a == "return"@) && (b == "enter"@ || b == "return"@)) || ((a == "esc"@
            || a == "escape"@) && (b == "esc"@ || b == "escape"@)),
{
}

/// Direction `d` of the Win32 arrow-key block, in its code order: left, up,
/// right, down.
pub open spec fn arrow_word(d: int) -> Seq<char> {
    if d == 0 {
        "left"@
    } else if d == 1 {
        "up"@
    } else if d == 2 {
        "right"@
    } else {
        "down"@
    }
}

/// Arrow names keep their direction: the four arrow names resolve to the
/// four consecutive arrow codes in Win32's order (left 0x25, up 0x26, right
/// 0x27, down 0x28).
pub proof fn law_arrow_names_keep_direction(d: int)
    requires
        0 <= d < 4,
    ensures
        named_vk(arrow_word(d)) == Some((0x25 + d) as u16),
{
    reveal_strlit("left");
    reveal_strlit("up");
    reveal_strlit("right");
    reveal_strlit("down");
    assert("left"@[0] == 'l' && "up"@[0] == 'u' && "right"@[0] == 'r' && "down"@[0] == 'd');
}

} // verus!
