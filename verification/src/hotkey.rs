//! Global hotkeys: turning the front end's key combinations into accelerator
//! text, and what one hotkey press does to the core state.

use vstd::prelude::*;
use crate::grid::{grid_ok, step_target_spec};
use crate::input::{is_digit, parse_u16, parse_u16_spec};
use crate::ladder::ladder_step_spec;
use crate::rate::{clamp_rate_spec, clamp_signed_rate, RATE_MAX, RATE_MIN, RATE_NORMAL};
use crate::rules::{can_read_back_spec, AppKind};
use crate::state::{current_rule_index, keys_unique, lookup, memory_key_spec, Core, ShortcutAction};
use crate::text::{chars_of, owned, str_eq};

verus! {

/// What the front end and the OSD are told after a hotkey press.
#[derive(Debug, Clone, PartialEq)]
pub struct HotkeyPayload {
    pub action: ShortcutAction,
    pub rate: u32,
    pub seq: u64,
    /// Second line of the OSD (such as the muted-audio notice above 4×).
    pub notice: Option<String>,
}

/// How a rate reaches the current target.
#[derive(Debug, Clone, Copy, PartialEq, Eq, Structural)]
pub enum PushMode {
    /// Hotkey step: exact rate where the channel takes one, otherwise one step
    /// of the player's own (`dir` is `+1` or `-1`).
    Step { dir: i32 },
    /// Back to 1×: exact rate where possible, otherwise the player's reset.
    Reset,
    /// Slider, preset, "apply to current media": exact rates only.
    ExactOnly,
}

/// What is sent to the target after the state changed.
#[derive(Debug, Clone, Copy, PartialEq, Eq, Structural)]
pub enum HotkeyDispatch {
    Push(PushMode),
    PlayPause,
}

/// Outcome of one hotkey press.
#[derive(Debug, Clone, PartialEq)]
pub enum HotkeyEffect {
    /// Show or hide the main window; the state is unchanged.
    TogglePanel,
    /// Feedback to show now, whether the rate memory must be saved, and what to
    /// send to the target afterwards.
    Feedback { payload: HotkeyPayload, remembered: bool, dispatch: HotkeyDispatch },
}

/// Front-end modifier name → accelerator modifier name.
pub open spec fn modifier_token_spec(k: Seq<char>) -> Option<Seq<char>> {
    if k == "Ctrl"@ {
        Some("Control"@)
    } else if k == "Alt"@ {
        Some("Alt"@)
    } else if k == "Shift"@ {
        Some("Shift"@)
    } else if k == "Win"@ {
        Some("Super"@)
    } else {
        None
    }
}

/// Symbols the front end shows for keys, with their key-code names.
pub open spec fn symbol_token(k: Seq<char>) -> Option<Seq<char>> {
    if k == "↑"@ {
        Some("ArrowUp"@)
    } else if k == "↓"@ {
        Some("ArrowDown"@)
    } else if k == "←"@ {
        Some("ArrowLeft"@)
    } else if k == "→"@ {
        Some("ArrowRight"@)
    } else if k == "="@ {
        Some("Equal"@)
    } else if k == "-"@ {
        Some("Minus"@)
    } else if k == ","@ {
        Some("Comma"@)
    } else if k == "."@ {
        Some("Period"@)
    } else if k == "/"@ {
        Some("Slash"@)
    } else if k == ";"@ {
        Some("Semicolon"@)
    } else if k == "'"@ {
        Some("Quote"@)
    } else if k == "["@ {
        Some("BracketLeft"@)
    } else if k == "]"@ {
        Some("BracketRight"@)
    } else if k == "\\"@ {
        Some("Backslash"@)
    } else if k == "`"@ {
        Some("Backquote"@)
    } else {
        None
    }
}

/// Key names the front end already writes as key codes.
pub open spec fn same_name_key(k: Seq<char>) -> bool {
    k == "Space"@ || k == "Enter"@ || k == "Tab"@ || k == "Backspace"@ || k == "Home"@ || k
        == "End"@ || k == "PageUp"@ || k == "PageDown"@ || k == "Insert"@ || k == "Delete"@
}

pub open spec fn is_upper(c: char) -> bool {
    'A' <= c && c <= 'Z'
}

/// `F1` … `F24` (the number as `u8::from_str` reads it).
pub open spec fn is_function_key(k: Seq<char>) -> bool {
    k.len() > 0 && k[0] == 'F' && parse_u16_spec(k.drop_first()) is Some && 1
        <= parse_u16_spec(k.drop_first())->0 <= 24
}

/// Front-end main key (display form) → key-code name.
pub open spec fn key_token_spec(k: Seq<char>) -> Option<Seq<char>> {
    if symbol_token(k) is Some {
        symbol_token(k)
    } else if same_name_key(k) {
        Some(k)
    } else if k.len() == 1 && is_digit(k[0]) {
        Some("Digit"@ + k)
    } else if k.len() == 1 && is_upper(k[0]) {
        Some("Key"@ + k)
    } else if is_function_key(k) {
        Some(k)
    } else {
        None
    }
}

/// The modifiers' accelerator tokens, each followed by `+`.
pub open spec fn mods_text(ms: Seq<Seq<char>>) -> Seq<char>
    decreases ms.len(),
{
    if ms.len() == 0 {
        Seq::empty()
    } else {
        mods_text(ms.drop_last()) + modifier_token_spec(ms.last())->0 + "+"@
    }
}

/// The first modifier without a token, if any.
pub open spec fn first_bad_mod(ms: Seq<Seq<char>>, i: int) -> Option<int>
    decreases ms.len() - i,
{
    if i < 0 || i >= ms.len() {
        None
    } else if modifier_token_spec(ms[i]) is None {
        Some(i)
    } else {
        first_bad_mod(ms, i + 1)
    }
}

/// What [`parse_combo`] gives for a combination in display form.
pub open spec fn combo_text_spec(combo: Seq<Seq<char>>) -> Result<Seq<char>, Seq<char>> {
    if combo.len() < 2 {
        Err("需要包含修饰键的组合键"@)
    } else {
        let ms = combo.drop_last();
        let main = combo.last();
        match first_bad_mod(ms, 0) {
            Some(i) => Err("无法识别的修饰键 "@ + ms[i]),
            None => match key_token_spec(main) {
                Some(t) => Ok(mods_text(ms) + t),
                None => Err("无法识别的按键 "@ + main),
            },
        }
    }
}

/// Front-end modifier (`Ctrl`, `Alt`, `Shift`, `Win`) → accelerator modifier.
pub fn modifier_token(key: &str) -> (r: Option<&'static str>)
    ensures
        r matches Some(t) ==> modifier_token_spec(key@) == Some(t@),
        r is None ==> modifier_token_spec(key@) is None,
{
    if str_eq(key, "Ctrl") {
        Some("Control")
    } else if str_eq(key, "Alt") {
        Some("Alt")
    } else if str_eq(key, "Shift") {
        Some("Shift")
    } else if str_eq(key, "Win") {
        Some("Super")
    } else {
        None
    }
}

fn symbol_of(key: &str) -> (r: Option<&'static str>)
    ensures
        r matches Some(t) ==> symbol_token(key@) == Some(t@),
        r is None ==> symbol_token(key@) is None,
{
    if str_eq(key, "↑") {
        Some("ArrowUp")
    } else if str_eq(key, "↓") {
        Some("ArrowDown")
    } else if str_eq(key, "←") {
        Some("ArrowLeft")
    } else if str_eq(key, "→") {
        Some("ArrowRight")
    } else if str_eq(key, "=") {
        Some("Equal")
    } else if str_eq(key, "-") {
        Some("Minus")
    } else if str_eq(key, ",") {
        Some("Comma")
    } else if str_eq(key, ".") {
        Some("Period")
    } else if str_eq(key, "/") {
        Some("Slash")
    } else if str_eq(key, ";") {
        Some("Semicolon")
    } else if str_eq(key, "'") {
        Some("Quote")
    } else if str_eq(key, "[") {
        Some("BracketLeft")
    } else if str_eq(key, "]") {
        Some("BracketRight")
    } else if str_eq(key, "\\") {
        Some("Backslash")
    } else if str_eq(key, "`") {
        Some("Backquote")
    } else {
        None
    }
}

/// Front-end main key (display form such as `↑`, `]`, `A`, `7`, `F5`) →
/// key-code name (`ArrowUp`, `BracketRight`, `KeyA`, `Digit7`, `F5`).
pub fn key_token(key: &str) -> (r: Option<String>)
    ensures
        r matches Some(t) ==> key_token_spec(key@) == Some(t@),
        r is None ==> key_token_spec(key@) is None,
{
    if let Some(t) = symbol_of(key) {
        return Some(owned(t));
    }
    if str_eq(key, "Space") || str_eq(key, "Enter") || str_eq(key, "Tab") || str_eq(key, "Backspace")
        || str_eq(key, "Home") || str_eq(key, "End") || str_eq(key, "PageUp") || str_eq(
        key,
        "PageDown",
    ) || str_eq(key, "Insert") || str_eq(key, "Delete") {
        return Some(owned(key));
    }
    let chars = chars_of(key);
    if chars.len() == 1 && '0' <= chars[0] && chars[0] <= '9' {
        let mut s = owned("Digit");
        s.append(key);
        return Some(s);
    }
    if chars.len() == 1 && 'A' <= chars[0] && chars[0] <= 'Z' {
        let mut s = owned("Key");
        s.append(key);
        return Some(s);
    }
    if chars.len() > 0 && chars[0] == 'F' {
        let n = parse_u16(&chars, 1);
        assert(chars@.subrange(1, chars@.len() as int) =~= key@.drop_first());
        match n {
            Some(v) => {
                if 1 <= v && v <= 24 {
                    return Some(owned(key));
                }
            },
            None => {},
        }
    }
    None
}

proof fn lemma_first_bad_none(ms: Seq<Seq<char>>, i: int)
    requires
        0 <= i <= ms.len(),
        forall|k: int| i <= k < ms.len() ==> (#[trigger] modifier_token_spec(ms[k])) is Some,
    ensures
        first_bad_mod(ms, i) is None,
    decreases ms.len() - i,
{
    if i < ms.len() {
        lemma_first_bad_none(ms, i + 1);
    }
}

proof fn lemma_first_bad_some(ms: Seq<Seq<char>>, i: int, j: int)
    requires
        0 <= i <= j < ms.len(),
        forall|k: int| i <= k < j ==> (#[trigger] modifier_token_spec(ms[k])) is Some,
        modifier_token_spec(ms[j]) is None,
    ensures
        first_bad_mod(ms, i) == Some(j),
    decreases j - i,
{
    if i < j {
        lemma_first_bad_some(ms, i + 1, j);
    }
}

/// A combination in display form (`["Ctrl", "Alt", "↑"]`) → accelerator text
/// (`"Control+Alt+ArrowUp"`). At least one modifier is required; the first
/// unknown modifier, or an unknown main key, is reported.
pub fn parse_combo(combo: &Vec<String>) -> (r: Result<String, String>)
    ensures
        match r {
            Ok(t) => combo_text_spec(combo@.map_values(|s: String| s@)) == Ok::<Seq<char>, Seq<char>>(t@),
            Err(e) => combo_text_spec(combo@.map_values(|s: String| s@)) == Err::<Seq<char>, Seq<char>>(e@),
        },
{
    let ghost cv = combo@.map_values(|s: String| s@);
    if combo.len() < 2 {
        return Err(owned("需要包含修饰键的组合键"));
    }
    let n = combo.len() - 1;
    let ghost ms = cv.drop_last();
    let mut text = String::new();
    let mut i: usize = 0;
    while i < n
        invariant
            n + 1 == combo@.len(),
            cv == combo@.map_values(|s: String| s@),
            ms == cv.drop_last(),
            i <= n,
            forall|k: int| 0 <= k < i ==> (#[trigger] modifier_token_spec(ms[k])) is Some,
            text@ == mods_text(ms.subrange(0, i as int)),
        decreases n - i,
    {
        assert(ms[i as int] == combo@[i as int]@);
        match modifier_token(combo[i].as_str()) {
            Some(t) => {
                assert(ms.subrange(0, i + 1).drop_last() =~= ms.subrange(0, i as int));
                text.append(t);
                text.append("+");
            },
            None => {
                proof {
                    lemma_first_bad_some(ms, 0, i as int);
                }
                let mut e = owned("无法识别的修饰键 ");
                e.append(combo[i].as_str());
                return Err(e);
            },
        }
        i = i + 1;
    }
    proof {
        lemma_first_bad_none(ms, 0);
        assert(ms.subrange(0, n as int) =~= ms);
    }
    assert(cv.last() == combo@[n as int]@);
    match key_token(combo[n].as_str()) {
        Some(t) => {
            text.append(t.as_str());
            Ok(text)
        },
        None => {
            let mut e = owned("无法识别的按键 ");
            e.append(combo[n].as_str());
            Err(e)
        },
    }
}

/// Every key grid of a rule table is usable (see [`grid_ok`]).
pub open spec fn grids_ok(rules: Seq<crate::rules::AppRule>) -> bool {
    forall|i: int|
        0 <= i < rules.len() ==> ((#[trigger] rules[i]).key_rate matches Some(g) ==> grid_ok(g))
}

/// Whether the hotkeys act on a browser: the current target is one, or there
/// is no target and some extension is connected.
pub open spec fn is_browser_target_spec(c: Core) -> bool {
    (match current_rule_index(c) {
        Some(i) => c.rules@[i].kind == AppKind::Browser,
        None => false,
    }) || (c.current is None && c.connected_browsers@.len() > 0)
}

/// Highest rate a hotkey reaches: 16× for browsers, the slider's limit
/// otherwise.
pub open spec fn hotkey_cap_spec(c: Core) -> int {
    if is_browser_target_spec(c) {
        RATE_MAX as int
    } else {
        c.settings.slider_max as int
    }
}

/// Target of one hotkey step (`dir`: `+1` / `-1`), before clamping: along the
/// rule's rate ladder when it has one; the plain step for channels that read
/// the rate back; along the key grid for channels that do not; the plain step
/// otherwise.
pub open spec fn stepped_spec(c: Core, dir: int) -> int {
    let fallback = c.rate + c.settings.step * dir;
    match current_rule_index(c) {
        None => fallback,
        Some(i) => {
            let r = c.rules@[i];
            let rung = match r.rate_ladder {
                Some(l) => ladder_step_spec(l@, c.rate as int, dir),
                None => None,
            };
            match rung {
                Some(x) => x as int,
                None => if can_read_back_spec(r) {
                    fallback
                } else {
                    match r.key_rate {
                        Some(g) => match step_target_spec(g, c.rate as int, c.settings.step as int, dir) {
                            Some(t) => t,
                            None => fallback,
                        },
                        None => fallback,
                    }
                },
            }
        },
    }
}

/// OSD notice above 4× on browsers (which mute the audio there).
pub open spec fn notice_spec(c: Core) -> Option<Seq<char>> {
    if c.settings.high_speed_warning && c.rate > 4000 && is_browser_target_spec(c) {
        Some("浏览器已静音"@)
    } else {
        None
    }
}

/// Rate after a hotkey press.
pub open spec fn hotkey_rate_spec(c: Core, a: ShortcutAction) -> int {
    match a {
        ShortcutAction::SpeedUp => clamp_rate_spec(stepped_spec(c, 1), hotkey_cap_spec(c)),
        ShortcutAction::SpeedDown => clamp_rate_spec(stepped_spec(c, -1), hotkey_cap_spec(c)),
        ShortcutAction::Reset => RATE_NORMAL as int,
        _ => c.rate as int,
    }
}

pub open spec fn changes_rate(a: ShortcutAction) -> bool {
    a == ShortcutAction::SpeedUp || a == ShortcutAction::SpeedDown || a == ShortcutAction::Reset
}

pub open spec fn dispatch_spec(a: ShortcutAction) -> HotkeyDispatch {
    match a {
        ShortcutAction::SpeedUp => HotkeyDispatch::Push(PushMode::Step { dir: 1i32 }),
        ShortcutAction::SpeedDown => HotkeyDispatch::Push(PushMode::Step { dir: -1i32 }),
        ShortcutAction::Reset => HotkeyDispatch::Push(PushMode::Reset),
        _ => HotkeyDispatch::PlayPause,
    }
}

pub open spec fn opt_text(o: Option<String>) -> Option<Seq<char>> {
    match o {
        Some(s) => Some(s@),
        None => None,
    }
}

impl Core {
    /// Whether the hotkeys act on a browser (see [`is_browser_target_spec`]).
    pub fn is_browser_target(&self) -> (r: bool)
        ensures
            r == is_browser_target_spec(*self),
    {
        let browser_rule = match self.current_rule_index() {
            Some(i) => self.rules[i].kind == AppKind::Browser,
            None => false,
        };
        browser_rule || (self.current.is_none() && self.connected_browsers.len() > 0)
    }

    /// Highest rate a hotkey reaches: the browser engines' 16× for browsers
    /// (the slider's limit only binds the control page), the slider's limit
    /// otherwise.
    pub fn hotkey_rate_cap(&self) -> (r: u32)
        ensures
            r == hotkey_cap_spec(*self),
    {
        if self.is_browser_target() {
            RATE_MAX
        } else {
            self.settings.slider_max
        }
    }

    /// Target of one hotkey step from the current rate (see [`stepped_spec`]):
    /// players that only reach a few rates move along their own rungs, so the
    /// OSD shows at once what the player will really do.
    pub fn stepped_rate(&self, dir: i32) -> (r: i128)
        requires
            grids_ok(self.rules@),
        ensures
            r == stepped_spec(*self, dir as int),
    {
        let step = self.settings.step;
        assert(-0x1_0000_0000_0000_0000 <= (step as int) * (dir as int) <= 0x1_0000_0000_0000_0000)
            by (nonlinear_arith)
            requires
                0 <= step <= 0xffff_ffff,
                -0x8000_0000 <= dir <= 0x7fff_ffff,
        ;
        let fallback: i128 = self.rate as i128 + (step as i128) * (dir as i128);
        let i = match self.current_rule_index() {
            Some(i) => i,
            None => {
                return fallback;
            },
        };
        let rule = &self.rules[i];
        if let Some(rung) = rule.ladder_step(self.rate, dir) {
            return rung as i128;
        }
        if rule.can_read_back_rate() {
            return fallback;
        }
        match &rule.key_rate {
            Some(g) => {
                assert(grid_ok(*g));
                match g.step_target(self.rate, step, dir) {
                    Some(t) => t as i128,
                    None => fallback,
                }
            },
            None => fallback,
        }
    }

    /// OSD notice: browsers mute the audio above 4×.
    pub fn high_speed_notice(&self) -> (r: Option<String>)
        ensures
            opt_text(r) == notice_spec(*self),
    {
        if self.settings.high_speed_warning && self.rate > 4000 && self.is_browser_target() {
            Some(owned("浏览器已静音"))
        } else {
            None
        }
    }

    /// Whether every rule's key grid is usable (see [`grids_ok`]).
    pub fn grids_usable(&self) -> (r: bool)
        ensures
            r == grids_ok(self.rules@),
    {
        let mut i: usize = 0;
        while i < self.rules.len()
            invariant
                i <= self.rules.len(),
                forall|k: int|
                    0 <= k < i ==> ((#[trigger] self.rules@[k]).key_rate matches Some(g) ==> grid_ok(g)),
            decreases self.rules.len() - i,
        {
            match &self.rules[i].key_rate {
                Some(g) => {
                    if !crate::grid::grid_usable(g) {
                        return false;
                    }
                },
                None => {},
            }
            i = i + 1;
        }
        true
    }

    /// Whether [`Core::on_hotkey`] may be called: usable grids, a slider end at
    /// or above the lowest rate, and room in both counters.
    pub fn hotkey_ready(&self) -> (r: bool)
        ensures
            r == (grids_ok(self.rules@) && self.settings.slider_max >= RATE_MIN && self.memory_seq < u64::MAX
                && self.osd_seq < u64::MAX),
    {
        self.grids_usable() && self.settings.slider_max >= RATE_MIN && self.memory_seq < u64::MAX
            && self.osd_seq < u64::MAX
    }

    /// Whether the OSD counter has room for one more popup (what
    /// [`Core::on_media`], [`Core::maybe_smart_slowdown`] and
    /// [`Core::takeover_hint`] need).
    pub fn osd_room(&self) -> (r: bool)
        ensures
            r == (self.osd_seq < u64::MAX),
    {
        self.osd_seq < u64::MAX
    }

    /// Whether the memory counter has room for one more change (what
    /// [`Core::remember_rate`] and [`Core::set_rate_from_ui`] need).
    pub fn memory_room(&self) -> (r: bool)
        ensures
            r == (self.memory_seq < u64::MAX),
    {
        self.memory_seq < u64::MAX
    }

    /// One hotkey press: the new target rate (clamped to the hotkey limit),
    /// the rate memory, the OSD sequence number and what to send afterwards.
    /// Holding a key down repeats the press.
    pub fn on_hotkey(&mut self, action: ShortcutAction) -> (r: HotkeyEffect)
        requires
            grids_ok(old(self).rules@),
            old(self).settings.slider_max >= RATE_MIN,
            old(self).memory_seq < u64::MAX,
            old(self).osd_seq < u64::MAX,
        ensures
            action == ShortcutAction::TogglePanel ==> r == HotkeyEffect::TogglePanel && *final(self)
                == *old(self),
            action != ShortcutAction::TogglePanel ==> match r {
                HotkeyEffect::Feedback { payload, remembered, dispatch } => {
                    &&& final(self).rate == hotkey_rate_spec(*old(self), action)
                    &&& final(self).osd_seq == old(self).osd_seq + 1
                    &&& payload.action == action
                    &&& payload.rate == final(self).rate
                    &&& payload.seq == final(self).osd_seq
                    &&& opt_text(payload.notice) == notice_spec(*final(self))
                    &&& dispatch == dispatch_spec(action)
                    &&& remembered == (changes_rate(action) && old(self).settings.remember_per_app
                        && memory_key_spec(*old(self)) is Some && lookup(
                        old(self).memory@,
                        memory_key_spec(*old(self))->0,
                    ) != Some(final(self).rate))
                    &&& remembered ==> lookup(final(self).memory@, memory_key_spec(*old(self))->0)
                        == Some(final(self).rate) && final(self).memory_seq == old(self).memory_seq
                        + 1
                    &&& remembered ==> forall|k: Seq<char>|
                        k != memory_key_spec(*old(self))->0 ==> #[trigger] lookup(final(self).memory@, k)
                            == lookup(old(self).memory@, k)
                    &&& !remembered ==> final(self).memory@ == old(self).memory@
                        && final(self).memory_seq == old(self).memory_seq
                },
                HotkeyEffect::TogglePanel => false,
            },
            final(self).current == old(self).current,
            final(self).rules@ == old(self).rules@,
            final(self).browser_media@ == old(self).browser_media@,
            final(self).settings == old(self).settings,
            final(self).listening == old(self).listening,
            final(self).connected_browsers@ == old(self).connected_browsers@,
            final(self).site_rules@ == old(self).site_rules@,
            final(self).shortcuts == old(self).shortcuts,
            final(self).conflicts@ == old(self).conflicts@,
            final(self).hotkeys_enabled == old(self).hotkeys_enabled,
            final(self).slowdown_at == old(self).slowdown_at,
            keys_unique(old(self).memory@) ==> keys_unique(final(self).memory@),
    {
        let ghost before = *self;
        let remembered = match action {
            ShortcutAction::SpeedUp | ShortcutAction::SpeedDown => {
                let dir: i32 = if action == ShortcutAction::SpeedUp {
                    1
                } else {
                    -1
                };
                let cap = self.hotkey_rate_cap();
                let next = self.stepped_rate(dir);
                self.rate = clamp_signed_rate(next, cap);
                self.remember_rate()
            },
            ShortcutAction::Reset => {
                self.rate = RATE_NORMAL;
                self.remember_rate()
            },
            ShortcutAction::PlayPause => false,
            ShortcutAction::TogglePanel => {
                return HotkeyEffect::TogglePanel;
            },
        };
        self.osd_seq = self.osd_seq + 1;
        let payload = HotkeyPayload {
            action,
            rate: self.rate,
            seq: self.osd_seq,
            notice: self.high_speed_notice(),
        };
        let dispatch = match action {
            ShortcutAction::SpeedUp => HotkeyDispatch::Push(PushMode::Step { dir: 1 }),
            ShortcutAction::SpeedDown => HotkeyDispatch::Push(PushMode::Step { dir: -1 }),
            ShortcutAction::Reset => HotkeyDispatch::Push(PushMode::Reset),
            _ => HotkeyDispatch::PlayPause,
        };
        HotkeyEffect::Feedback { payload, remembered, dispatch }
    }
}

/// A hotkey that changes the rate leaves it within the product range
/// (0.25×–16×) on a hundredth; a step also stays within the hotkey limit (16×
/// for browsers, the slider's end for players) when that limit is itself on
/// a hundredth.
pub proof fn law_hotkey_rate_in_bounds(c: Core, a: ShortcutAction)
    requires
        c.settings.slider_max >= RATE_MIN,
        changes_rate(a),
    ensures
        RATE_MIN <= hotkey_rate_spec(c, a) <= RATE_MAX,
        hotkey_rate_spec(c, a) % 10 == 0,
        (a == ShortcutAction::SpeedUp || a == ShortcutAction::SpeedDown) && hotkey_cap_spec(c) % 10
            == 0 ==> hotkey_rate_spec(c, a) <= hotkey_cap_spec(c),
{
    if a == ShortcutAction::SpeedUp || a == ShortcutAction::SpeedDown {
        let dir: int = if a == ShortcutAction::SpeedUp {
            1
        } else {
            -1
        };
        let cap = hotkey_cap_spec(c);
        let hi = crate::rate::min_int(cap, RATE_MAX as int);
        let y = crate::rate::clamp_int(stepped_spec(c, dir), RATE_MIN as int, hi);
        if cap % 10 == 0 {
            assert(hi % 10 == 0);
            assert((y + 5) / 10 * 10 <= hi) by (nonlinear_arith)
                requires
                    0 <= y <= hi,
                    hi % 10 == 0,
            ;
        }
    }
}

/// Lengths and a few characters of the key-name literals (enough to tell
/// any two of them apart).
proof fn lemma_token_literals()
    ensures
        "ArrowUp"@.len() == 7 && "ArrowUp"@[0] == 'A' && "ArrowUp"@[1] == 'r' && "ArrowUp"@[3] == 'o' && "ArrowUp"@[5] == 'U',
        "ArrowDown"@.len() == 9 && "ArrowDown"@[0] == 'A' && "ArrowDown"@[1] == 'r' && "ArrowDown"@[3] == 'o' && "ArrowDown"@[5] == 'D',
        "ArrowLeft"@.len() == 9 && "ArrowLeft"@[0] == 'A' && "ArrowLeft"@[1] == 'r' && "ArrowLeft"@[3] == 'o' && "ArrowLeft"@[5] == 'L',
        "ArrowRight"@.len() == 10 && "ArrowRight"@[0] == 'A' && "ArrowRight"@[1] == 'r' && "ArrowRight"@[3] == 'o' && "ArrowRight"@[5] == 'R',
        "Equal"@.len() == 5 && "Equal"@[0] == 'E' && "Equal"@[1] == 'q' && "Equal"@[3] == 'a',
        "Minus"@.len() == 5 && "Minus"@[0] == 'M' && "Minus"@[1] == 'i' && "Minus"@[3] == 'u',
        "Comma"@.len() == 5 && "Comma"@[0] == 'C' && "Comma"@[1] == 'o' && "Comma"@[3] == 'm',
        "Period"@.len() == 6 && "Period"@[0] == 'P' && "Period"@[1] == 'e' && "Period"@[3] == 'i' && "Period"@[5] == 'd',
        "Slash"@.len() == 5 && "Slash"@[0] == 'S' && "Slash"@[1] == 'l' && "Slash"@[3] == 's',
        "Semicolon"@.len() == 9 && "Semicolon"@[0] == 'S' && "Semicolon"@[1] == 'e' && "Semicolon"@[3] == 'i' && "Semicolon"@[5] == 'o',
        "Quote"@.len() == 5 && "Quote"@[0] == 'Q' && "Quote"@[1] == 'u' && "Quote"@[3] == 't',
        "BracketLeft"@.len() == 11 && "BracketLeft"@[0] == 'B' && "BracketLeft"@[1] == 'r' && "BracketLeft"@[3] == 'c' && "BracketLeft"@[5] == 'e',
        "BracketRight"@.len() == 12 && "BracketRight"@[0] == 'B' && "BracketRight"@[1] == 'r' && "BracketRight"@[3] == 'c' && "BracketRight"@[5] == 'e',
        "Backslash"@.len() == 9 && "Backslash"@[0] == 'B' && "Backslash"@[1] == 'a' && "Backslash"@[3] == 'k' && "Backslash"@[5] == 'l',
        "Backquote"@.len() == 9 && "Backquote"@[0] == 'B' && "Backquote"@[1] == 'a' && "Backquote"@[3] == 'k' && "Backquote"@[5] == 'u',
        "Space"@.len() == 5 && "Space"@[0] == 'S' && "Space"@[1] == 'p' && "Space"@[3] == 'c',
        "Enter"@.len() == 5 && "Enter"@[0] == 'E' && "Enter"@[1] == 'n' && "Enter"@[3] == 'e',
        "Tab"@.len() == 3 && "Tab"@[0] == 'T' && "Tab"@[1] == 'a',
        "Backspace"@.len() == 9 && "Backspace"@[0] == 'B' && "Backspace"@[1] == 'a' && "Backspace"@[3] == 'k' && "Backspace"@[5] == 'p',
        "Home"@.len() == 4 && "Home"@[0] == 'H' && "Home"@[1] == 'o' && "Home"@[3] == 'e',
        "End"@.len() == 3 && "End"@[0] == 'E' && "End"@[1] == 'n',
        "PageUp"@.len() == 6 && "PageUp"@[0] == 'P' && "PageUp"@[1] == 'a' && "PageUp"@[3] == 'e' && "PageUp"@[5] == 'p',
        "PageDown"@.len() == 8 && "PageDown"@[0] == 'P' && "PageDown"@[1] == 'a' && "PageDown"@[3] == 'e' && "PageDown"@[5] == 'o',
        "Insert"@.len() == 6 && "Insert"@[0] == 'I' && "Insert"@[1] == 'n' && "Insert"@[3] == 'e' && "Insert"@[5] == 't',
        "Delete"@.len() == 6 && "Delete"@[0] == 'D' && "Delete"@[1] == 'e' && "Delete"@[3] == 'e' && "Delete"@[5] == 'e',
        "Digit"@.len() == 5 && "Digit"@[0] == 'D' && "Digit"@[1] == 'i' && "Digit"@[3] == 'i',
        "Key"@.len() == 3 && "Key"@[0] == 'K' && "Key"@[1] == 'e',
{
    reveal_strlit("ArrowUp");
    reveal_strlit("ArrowDown");
    reveal_strlit("ArrowLeft");
    reveal_strlit("ArrowRight");
    reveal_strlit("Equal");
    reveal_strlit("Minus");
    reveal_strlit("Comma");
    reveal_strlit("Period");
    reveal_strlit("Slash");
    reveal_strlit("Semicolon");
    reveal_strlit("Quote");
    reveal_strlit("BracketLeft");
    reveal_strlit("BracketRight");
    reveal_strlit("Backslash");
    reveal_strlit("Backquote");
    reveal_strlit("Space");
    reveal_strlit("Enter");
    reveal_strlit("Tab");
    reveal_strlit("Backspace");
    reveal_strlit("Home");
    reveal_strlit("End");
    reveal_strlit("PageUp");
    reveal_strlit("PageDown");
    reveal_strlit("Insert");
    reveal_strlit("Delete");
    reveal_strlit("Digit");
    reveal_strlit("Key");
}

/// The shape of a main key's token by class: digits and letters are
/// prefixed, function keys and key names pass through.
proof fn lemma_token_shape(k: Seq<char>)
    requires
        key_token_spec(k) is Some,
        symbol_token(k) is None,
        !same_name_key(k),
    ensures
        k.len() == 1 && is_digit(k[0]) ==> key_token_spec(k)->0.len() == 6 && key_token_spec(k)->0[0] == 'D'
            && key_token_spec(k)->0[1] == 'i' && key_token_spec(k)->0[5] == k[0],
        !(k.len() == 1 && is_digit(k[0])) && k.len() == 1 && is_upper(k[0]) ==> key_token_spec(k)->0.len()
            == 4 && key_token_spec(k)->0[0] == 'K' && key_token_spec(k)->0[1] == 'e' && key_token_spec(k)->0[3]
            == k[0],
        !(k.len() == 1 && (is_digit(k[0]) || is_upper(k[0]))) ==> key_token_spec(k)->0 == k && k[0] == 'F',
{
    lemma_token_literals();
}

/// Distinct main keys give distinct key names in the accelerator: no two
/// keys the front end offers register as the same system key (the default
/// speed-up ↑ and slow-down ↓ among them).
pub proof fn law_key_tokens_distinct(a: Seq<char>, b: Seq<char>)
    requires
        key_token_spec(a) is Some,
        key_token_spec(a) == key_token_spec(b),
    ensures
        a == b,
{
    lemma_token_literals();
    if symbol_token(a) is None && !same_name_key(a) {
        lemma_token_shape(a);
    }
    if symbol_token(b) is None && !same_name_key(b) {
        lemma_token_shape(b);
    }
    if a.len() == 1 && b.len() == 1 {
        assert(a[0] == b[0] ==> a =~= b);
    }
}

/// The glyph the front end shows for arrow direction `d` (left, up, right,
/// down, as [`crate::input::arrow_word`] orders them).
pub open spec fn arrow_glyph(d: int) -> Seq<char> {
    if d == 0 {
        "←"@
    } else if d == 1 {
        "↑"@
    } else if d == 2 {
        "→"@
    } else {
        "↓"@
    }
}

/// Arrow glyphs keep their direction: the accelerator key of each arrow
/// glyph is `Arrow` followed by its direction word, capitalised.
pub proof fn law_arrow_glyphs_keep_direction(d: int)
    requires
        0 <= d < 4,
    ensures
        key_token_spec(arrow_glyph(d)) is Some,
        key_token_spec(arrow_glyph(d))->0.len() == 5 + crate::input::arrow_word(d).len(),
        key_token_spec(arrow_glyph(d))->0.subrange(0, 5) == "Arrow"@,
        key_token_spec(arrow_glyph(d))->0[5] == crate::text::ascii_upper(crate::input::arrow_word(d)[0]),
        key_token_spec(arrow_glyph(d))->0.subrange(6, key_token_spec(arrow_glyph(d))->0.len() as int)
            == crate::input::arrow_word(d).subrange(1, crate::input::arrow_word(d).len() as int),
{
    lemma_token_literals();
    reveal_strlit("←");
    reveal_strlit("↑");
    reveal_strlit("→");
    reveal_strlit("↓");
    reveal_strlit("Arrow");
    reveal_strlit("left");
    reveal_strlit("up");
    reveal_strlit("right");
    reveal_strlit("down");
    reveal_strlit("ArrowLeft");
    reveal_strlit("ArrowUp");
    reveal_strlit("ArrowRight");
    reveal_strlit("ArrowDown");
    assert("↑"@ != "↓"@ && "↑"@ != "←"@ && "↑"@ != "→"@ && "↓"@ != "←"@ && "↓"@ != "→"@ && "←"@ != "→"@) by {
        assert("↑"@[0] != "↓"@[0] && "↑"@[0] != "←"@[0] && "↑"@[0] != "→"@[0]);
        assert("↓"@[0] != "←"@[0] && "↓"@[0] != "→"@[0] && "←"@[0] != "→"@[0]);
    }
    if d == 0 {
        assert("ArrowLeft"@.subrange(0, 5) =~= "Arrow"@);
        assert("ArrowLeft"@.subrange(6, 9) =~= "left"@.subrange(1, 4));
    } else if d == 1 {
        assert("ArrowUp"@.subrange(0, 5) =~= "Arrow"@);
        assert("ArrowUp"@.subrange(6, 7) =~= "up"@.subrange(1, 2));
    } else if d == 2 {
        assert("ArrowRight"@.subrange(0, 5) =~= "Arrow"@);
        assert("ArrowRight"@.subrange(6, 10) =~= "right"@.subrange(1, 5));
    } else {
        assert("ArrowDown"@.subrange(0, 5) =~= "Arrow"@);
        assert("ArrowDown"@.subrange(6, 9) =~= "down"@.subrange(1, 4));
    }
}

/// A target whose rate is read back (mpv, VLC or a DevTools client, driven
/// through its interface) and that has no rate ladder steps by the plain
/// setting step, clamped to the hotkey limit, whatever key grid its rule
/// carries: the read-back corrects the rate afterwards, so only players
/// without read-back are quantised onto their key grid.
pub proof fn law_read_back_steps_plainly(c: Core)
    requires
        current_rule_index(c) matches Some(i) && c.rules@[i].rate_ladder is None && (c.rules@[i].method
            == crate::rules::RuleMethod::Auto || c.rules@[i].method == crate::rules::RuleMethod::Ipc) && (
        c.rules@[i].ipc == crate::rules::IpcKind::MpvIpc || c.rules@[i].ipc == crate::rules::IpcKind::VlcHttp
            || c.rules@[i].ipc == crate::rules::IpcKind::Cdp),
    ensures
        hotkey_rate_spec(c, ShortcutAction::SpeedUp) == clamp_rate_spec(
            c.rate + c.settings.step,
            hotkey_cap_spec(c),
        ),
        hotkey_rate_spec(c, ShortcutAction::SpeedDown) == clamp_rate_spec(
            c.rate - c.settings.step,
            hotkey_cap_spec(c),
        ),
{
}

/// Reset always lands on 1×, whatever the target and its channels.
pub proof fn law_reset_is_normal_speed(c: Core)
    ensures
        hotkey_rate_spec(c, ShortcutAction::Reset) == RATE_NORMAL,
{
}

} // verus!
