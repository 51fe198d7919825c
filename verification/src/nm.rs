//! Native-messaging bridge between the browser extension and the core.
//!
//! Frames are Chrome's native-messaging frames (a four-byte little-endian
//! length, then UTF-8 JSON), on the browser's stdio and on the local pipe
//! alike. This module holds the framing, the configuration mirror pushed to
//! the extensions, the table of connected extensions, and what the core does
//! with `hello` and `media` frames.

use vstd::prelude::*;
use crate::hotkey::{opt_text, HotkeyPayload};
use crate::rate::{clamp_rate, clamp_rate_spec, max_int, RATE_MAX, RATE_NORMAL};
use crate::rules::names_contain;
use crate::sites::{site_for, site_views, SiteRule};
use crate::state::{
    add_name, find_key, keys_unique, find_matching_rule, lookup, match_rule, names_without, remove_key,
    remove_name, session_spec, store, stored, without, law_lookup_after_store, BrowserMedia, Core, CurrentTarget,
    MediaSession, ShortcutAction,
};
use crate::text::{owned, str_eq};

verus! {

/// Name of the local pipe the relay process connects to.
pub const PIPE_NAME: &'static str = "\\\\.\\pipe\\omnispeed-nm";

/// Name of the native-messaging host in the browsers' registries.
pub const HOST_NAME: &'static str = "com.omnispeed.host";

/// Chromium extension ID (fixed by the extension's manifest key).
pub const EXTENSION_ID: &'static str = "ejpnpjbhmgckjfdednjgfhdpobencmpb";

/// Firefox (Gecko) extension ID.
pub const GECKO_EXTENSION_ID: &'static str = "connector@omnispeed.app";

/// Largest frame accepted (the extension side caps at 1 MiB; this leaves
/// room and still refuses corrupt lengths).
pub const MAX_FRAME: u32 = 4194304;

/// Milliseconds smart slow-down waits before acting again.
pub const SLOWDOWN_COOLDOWN_MS: u64 = 8000;

/// The little-endian value of four bytes.
pub open spec fn le_value(b: Seq<u8>) -> int {
    b[0] + b[1] * 256 + b[2] * 65536 + b[3] * 16777216
}

/// The four little-endian bytes of a length.
pub open spec fn le_bytes(n: int) -> Seq<u8> {
    seq![(n % 256) as u8, ((n / 256) % 256) as u8, ((n / 65536) % 256) as u8, ((n / 16777216) % 256) as u8]
}

/// What a frame header announces: the body length, or `None` for an empty or
/// oversized frame (the connection is then treated as finished).
pub open spec fn frame_len_spec(header: Seq<u8>) -> Option<int> {
    let n = le_value(header);
    if n == 0 || n > MAX_FRAME {
        None
    } else {
        Some(n)
    }
}

/// Body length announced by a frame header (`u32::from_le_bytes`); `None`
/// for zero or more than [`MAX_FRAME`].
pub fn frame_len(header: [u8; 4]) -> (r: Option<u32>)
    ensures
        r matches Some(n) ==> frame_len_spec(header@) == Some(n as int),
        r is None ==> frame_len_spec(header@) is None,
{
    let n: u32 = header[0] as u32 + (header[1] as u32) * 256 + (header[2] as u32) * 65536
        + (header[3] as u32) * 16777216;
    if n == 0 || n > MAX_FRAME {
        None
    } else {
        Some(n)
    }
}

/// A frame: the body's length in four little-endian bytes, then the body.
pub fn encode_frame(body: &Vec<u8>) -> (r: Vec<u8>)
    requires
        body.len() <= u32::MAX,
    ensures
        r@ == le_bytes(body.len() as int) + body@,
{
    let n = body.len() as u32;
    let mut r: Vec<u8> = Vec::new();
    r.push((n % 256) as u8);
    r.push(((n / 256) % 256) as u8);
    r.push(((n / 65536) % 256) as u8);
    r.push(((n / 16777216) % 256) as u8);
    let mut i: usize = 0;
    while i < body.len()
        invariant
            i <= body.len(),
            r@ == le_bytes(n as int) + body@.subrange(0, i as int),
        decreases body.len() - i,
    {
        r.push(body[i]);
        assert(le_bytes(n as int) + body@.subrange(0, i + 1) =~= (le_bytes(n as int) + body@.subrange(
            0,
            i as int,
        )).push(body@[i as int]));
        i = i + 1;
    }
    assert(body@.subrange(0, body.len() as int) =~= body@);
    r
}

/// Reading back the header of a frame that was written gives the body's
/// length, for every body the reader accepts (1 byte up to [`MAX_FRAME`]).
pub proof fn law_frame_round_trip(body: Seq<u8>)
    requires
        0 < body.len() <= MAX_FRAME,
    ensures
        frame_len_spec((le_bytes(body.len() as int) + body).subrange(0, 4)) == Some(body.len() as int),
        (le_bytes(body.len() as int) + body).subrange(4, 4 + body.len() as int) == body,
{
    let n = body.len() as int;
    let f = le_bytes(n) + body;
    assert(f.subrange(0, 4) =~= le_bytes(n));
    assert(f.subrange(4, 4 + n) =~= body);
    assert((n % 256) + ((n / 256) % 256) * 256 + ((n / 65536) % 256) * 65536 + ((n / 16777216) % 256)
        * 16777216 == n) by (nonlinear_arith)
        requires
            0 <= n <= 4194304,
    ;
}

/// A site rule as the extension's configuration carries it.
#[derive(Debug, Clone, PartialEq)]
pub struct SiteRuleConfig {
    pub host: String,
    pub max_rate: u32,
    pub rate_lock: bool,
    pub follow: bool,
}

/// The `config` frame pushed to the extensions.
#[derive(Debug, Clone, PartialEq)]
pub struct ConfigFrame {
    /// Session target rate; `None` leaves the page's rate alone.
    pub target_rate: Option<u32>,
    /// The global lock is always on; per-site locks ride in `site_rules`.
    pub rate_lock: bool,
    pub max_rate: u32,
    pub preserves_pitch: bool,
    pub site_rules: Vec<SiteRuleConfig>,
}

/// Settings mirrored for frames built away from the core state: pitch
/// preservation and the site rules in the extension's form.
#[derive(Debug)]
pub struct BridgeConfig {
    pub preserves_pitch: bool,
    pub site_rules: Vec<SiteRuleConfig>,
}

pub open spec fn site_config_of(r: SiteRule) -> (Seq<char>, u32, bool, bool) {
    (r.host@, r.max_rate, r.rate_lock, r.follow)
}

pub open spec fn config_view(c: SiteRuleConfig) -> (Seq<char>, u32, bool, bool) {
    (c.host@, c.max_rate, c.rate_lock, c.follow)
}

impl BridgeConfig {
    /// Pitch preserved, no site rules yet.
    pub fn new() -> (r: Self)
        ensures
            r.preserves_pitch,
            r.site_rules@.len() == 0,
    {
        BridgeConfig { preserves_pitch: true, site_rules: Vec::new() }
    }

    /// Mirrors the "change speed without changing pitch" setting; the caller
    /// then pushes [`BridgeConfig::config_frame`] to every connected browser.
    pub fn set_preserves_pitch(&mut self, on: bool)
        ensures
            final(self).preserves_pitch == on,
            final(self).site_rules@ == old(self).site_rules@,
    {
        self.preserves_pitch = on;
    }

    /// Mirrors the site rules in the extension's form (host, limit, lock,
    /// follow; the restore rate stays on the desktop side).
    pub fn set_site_rules(&mut self, rules: &Vec<SiteRule>)
        ensures
            final(self).preserves_pitch == old(self).preserves_pitch,
            final(self).site_rules@.len() == rules@.len(),
            forall|i: int|
                0 <= i < rules@.len() ==> config_view(#[trigger] final(self).site_rules@[i])
                    == site_config_of(rules@[i]),
    {
        let mut out: Vec<SiteRuleConfig> = Vec::new();
        let mut i: usize = 0;
        while i < rules.len()
            invariant
                i <= rules.len(),
                out@.len() == i,
                forall|k: int| 0 <= k < i ==> config_view(#[trigger] out@[k]) == site_config_of(rules@[k]),
            decreases rules.len() - i,
        {
            let r = &rules[i];
            out.push(
                SiteRuleConfig {
                    host: r.host.clone(),
                    max_rate: r.max_rate,
                    rate_lock: r.rate_lock,
                    follow: r.follow,
                },
            );
            i = i + 1;
        }
        self.site_rules = out;
    }

    /// The `config` frame for a target rate (`None` keeps the page's rate).
    pub fn config_frame(&self, target_rate: Option<u32>) -> (r: ConfigFrame)
        ensures
            r.target_rate == target_rate,
            r.rate_lock,
            r.max_rate == RATE_MAX,
            r.preserves_pitch == self.preserves_pitch,
            r.site_rules@.len() == self.site_rules@.len(),
            forall|i: int|
                0 <= i < self.site_rules@.len() ==> config_view(#[trigger] r.site_rules@[i])
                    == config_view(self.site_rules@[i]),
    {
        let mut out: Vec<SiteRuleConfig> = Vec::new();
        let mut i: usize = 0;
        while i < self.site_rules.len()
            invariant
                i <= self.site_rules.len(),
                out@.len() == i,
                forall|k: int|
                    0 <= k < i ==> config_view(#[trigger] out@[k]) == config_view(self.site_rules@[k]),
            decreases self.site_rules.len() - i,
        {
            let c = &self.site_rules[i];
            out.push(
                SiteRuleConfig {
                    host: c.host.clone(),
                    max_rate: c.max_rate,
                    rate_lock: c.rate_lock,
                    follow: c.follow,
                },
            );
            i = i + 1;
        }
        ConfigFrame {
            target_rate,
            rate_lock: true,
            max_rate: RATE_MAX,
            preserves_pitch: self.preserves_pitch,
            site_rules: out,
        }
    }
}

/// Connected extensions by browser process name; a later connection of the
/// same browser replaces the earlier one.
#[derive(Debug)]
pub struct Senders<T> {
    pub entries: Vec<(String, T)>,
}

impl<T> Senders<T> {
    pub fn new() -> (r: Self)
        ensures
            r.entries@.len() == 0,
            keys_unique(r.entries@),
    {
        Senders { entries: Vec::new() }
    }

    /// Registers the sending end for a browser.
    pub fn senders_insert(&mut self, browser: &str, tx: T)
        ensures
            keys_unique(old(self).entries@) ==> keys_unique(final(self).entries@),
            lookup(final(self).entries@, browser@) == Some(tx),
            forall|other: Seq<char>|
                other != browser@ ==> #[trigger] lookup(final(self).entries@, other) == lookup(
                    old(self).entries@,
                    other,
                ),
    {
        let k = owned(browser);
        let ghost before = self.entries@;
        store(&mut self.entries, k, tx);
        proof {
            assert forall|other: Seq<char>| other != browser@ implies #[trigger] lookup(
                self.entries@,
                other,
            ) == lookup(before, other) by {
                law_lookup_after_store(before, k, tx, other);
            }
            law_lookup_after_store(before, k, tx, browser@);
        }
    }

    /// Forgets a browser's sending end (its connection closed).
    pub fn senders_remove(&mut self, browser: &str)
        ensures
            keys_unique(old(self).entries@) ==> keys_unique(final(self).entries@),
            final(self).entries@ == without(old(self).entries@, browser@),
    {
        remove_key(&mut self.entries, browser);
    }

    /// The sending end of a browser.
    pub fn sender_of(&self, browser: &str) -> (r: Option<&T>)
        ensures
            r matches Some(t) ==> lookup(self.entries@, browser@) == Some(*t),
            r is None ==> lookup(self.entries@, browser@) is None,
    {
        match find_key(&self.entries, browser) {
            Some(i) => Some(&self.entries[i].1),
            None => None,
        }
    }

    /// Every sending end (for broadcasting the configuration).
    pub fn all(&self) -> (r: Vec<&T>)
        ensures
            r@.len() == self.entries@.len(),
            forall|i: int| 0 <= i < r@.len() ==> *(#[trigger] r@[i]) == self.entries@[i].1,
    {
        let mut out: Vec<&T> = Vec::new();
        let mut i: usize = 0;
        while i < self.entries.len()
            invariant
                i <= self.entries.len(),
                out@.len() == i,
                forall|k: int| 0 <= k < i ==> *(#[trigger] out@[k]) == self.entries@[k].1,
            decreases self.entries.len() - i,
        {
            out.push(&self.entries[i].1);
            i = i + 1;
        }
        out
    }
}

/// Browser process names the relay looks for among its ancestors.
pub open spec fn known_browser(name: Seq<char>) -> bool {
    name == "chrome.exe"@ || name == "msedge.exe"@ || name == "firefox.exe"@ || name == "brave.exe"@
}

/// The first known browser among the relay's ancestors (nearest first, at
/// most five looked at), or `unknown`.
pub open spec fn browser_in_chain_spec(names: Seq<Seq<char>>, i: int) -> Seq<char>
    decreases names.len() - i,
{
    if i < 0 || i >= names.len() || i >= 5 {
        "unknown"@
    } else if known_browser(names[i]) {
        names[i]
    } else {
        browser_in_chain_spec(names, i + 1)
    }
}

/// Names the browser that launched the relay from the lower-case process names
/// of its ancestry, nearest first (the relay itself, then its parents).
pub fn browser_in_chain(names: &Vec<String>) -> (r: String)
    ensures
        r@ == browser_in_chain_spec(names@.map_values(|s: String| s@), 0),
{
    let ghost v = names@.map_values(|s: String| s@);
    let mut i: usize = 0;
    while i < names.len() && i < 5
        invariant
            i <= names.len(),
            v == names@.map_values(|s: String| s@),
            browser_in_chain_spec(v, 0) == browser_in_chain_spec(v, i as int),
        decreases names.len() - i,
    {
        let n = names[i].as_str();
        if str_eq(n, "chrome.exe") || str_eq(n, "msedge.exe") || str_eq(n, "firefox.exe") || str_eq(
            n,
            "brave.exe",
        ) {
            return names[i].clone();
        }
        i = i + 1;
    }
    owned("unknown")
}

/// Whether the current target is the given browser.
pub open spec fn is_current_spec(c: Core, browser: Seq<char>) -> bool {
    c.current matches Some(t) && t.process_name@ == browser
}

/// Content of a target: rule id, window, process name.
pub open spec fn target_view(t: Option<CurrentTarget>) -> Option<(Seq<char>, isize, Seq<char>)> {
    match t {
        Some(x) => Some((x.rule_id@, x.hwnd, x.process_name@)),
        None => None,
    }
}

/// The target after a browser connected or reported media while nothing was
/// targeted: the first rule claiming it, with the window the lookup found
/// (`0` when none).
pub open spec fn adopted(c: Core, browser: Seq<char>, hwnd: Option<isize>) -> Option<(Seq<char>, isize, Seq<char>)> {
    if c.current is Some {
        target_view(c.current)
    } else {
        match match_rule(c.rules@, browser, 0) {
            Some(i) => Some(
                (
                    c.rules@[i].id@,
                    match hwnd {
                        Some(h) => h,
                        None => 0,
                    },
                    browser,
                ),
            ),
            None => None,
        }
    }
}

/// Rate restored when the current browser tab enters a new host: the rate
/// remembered for the host (when per-app memory is on), else the site rule's
/// restore rate; only for media that is not live, and only on the change of
/// host (heartbeats of the same host restore nothing).
pub open spec fn restore_spec(c: Core, browser: Seq<char>, m: BrowserMedia, is_current: bool) -> Option<u32> {
    let prev_host = match lookup(c.browser_media@, browser) {
        Some(p) => if p.has_media {
            Some(p.host@)
        } else {
            None
        },
        None => None,
    };
    if !(is_current && m.has_media && !m.is_live) || prev_host == Some(m.host@) {
        None
    } else {
        let remembered = if c.settings.remember_per_app {
            lookup(c.memory@, m.host@)
        } else {
            None
        };
        let site_default = match site_for(site_views(c.site_rules@), m.host@, 0) {
            Some(i) => c.site_rules@[i].default_rate,
            None => None,
        };
        match remembered {
            Some(x) => Some(clamp_rate_spec(x as int, RATE_MAX as int) as u32),
            None => match site_default {
                Some(x) => Some(clamp_rate_spec(x as int, RATE_MAX as int) as u32),
                None => None,
            },
        }
    }
}

/// Rate smart slow-down falls back to when the buffer ahead of the current
/// browser's playhead holds less than five seconds of playback at the target
/// rate: the highest quarter step the buffer sustains (at least 1×), unless
/// that is no real drop, or the last slow-down is under eight seconds old.
pub open spec fn slowdown_spec(
    rate: int,
    smart: bool,
    m: Option<BrowserMedia>,
    is_current: bool,
    last: Option<u64>,
    now: u64,
) -> Option<int> {
    if !is_current || !smart {
        None
    } else {
        match m {
            None => None,
            Some(media) => {
                if !media.has_media || media.is_live || media.ad_playing {
                    None
                } else {
                    match media.buffered_ahead {
                        None => None,
                        Some(b) => {
                            if rate <= 1050 || b >= rate * 5 {
                                None
                            } else if (last matches Some(t) && (if now >= t {
                                now - t
                            } else {
                                0
                            }) < SLOWDOWN_COOLDOWN_MS) {
                                None
                            } else {
                                let target = clamp_rate_spec(
                                    max_int((b / 1250) * 250, RATE_NORMAL as int),
                                    RATE_MAX as int,
                                );
                                if target >= rate - 10 {
                                    None
                                } else {
                                    Some(target)
                                }
                            }
                        },
                    }
                }
            },
        }
    }
}

/// What the core asks for after a `media` frame.
#[derive(Debug)]
pub struct MediaOutcome {
    /// Rate to send back to the browser on entering a site.
    pub restore: Option<u32>,
    /// Smart slow-down: OSD payload (its rate is also sent to the browser).
    pub slowdown: Option<HotkeyPayload>,
    /// Session to broadcast when the browser is the current target.
    pub session: Option<MediaSession>,
}

pub open spec fn opt_session_view(
    s: Option<MediaSession>,
) -> Option<(Seq<char>, Seq<char>, Seq<char>, crate::rules::AppKind, crate::rules::AppStatus, Option<u32>, bool)> {
    match s {
        Some(x) => Some(crate::state::session_view(x)),
        None => None,
    }
}

impl Core {
    /// Takes a connected browser as the target while nothing is targeted, so
    /// the hotkeys keep driving web video with the focus elsewhere.
    /// `find_window` looks a browser's window up by process name.
    pub fn adopt_browser_if_idle<F: Fn(&str) -> Option<isize>>(&mut self, browser: &str, find_window: &F)
        requires
            forall|s: &str| call_requires(*find_window, (s,)),
        ensures
            exists|h: Option<isize>|
                (old(self).current is None && match_rule(old(self).rules@, browser@, 0) is Some
                    ==> call_ensures(*find_window, (browser,), h)) && target_view(final(self).current)
                    == adopted(*old(self), browser@, h),
            old(self).current is Some ==> final(self).current == old(self).current,
            final(self).rate == old(self).rate,
            final(self).rules@ == old(self).rules@,
            final(self).browser_media@ == old(self).browser_media@,
            final(self).settings == old(self).settings,
            final(self).memory@ == old(self).memory@,
            final(self).memory_seq == old(self).memory_seq,
            final(self).site_rules@ == old(self).site_rules@,
            final(self).connected_browsers@ == old(self).connected_browsers@,
            final(self).listening == old(self).listening,
            final(self).osd_seq == old(self).osd_seq,
            final(self).slowdown_at == old(self).slowdown_at,
    {
        if self.current.is_some() {
            assert(target_view(self.current) == adopted(*old(self), browser@, None));
            return;
        }
        let i = match find_matching_rule(&self.rules, browser) {
            Some(i) => i,
            None => {
                assert(target_view(self.current) == adopted(*old(self), browser@, None));
                return;
            },
        };
        let rule_id = self.rules[i].id.clone();
        let found = find_window(browser);
        let hwnd = match found {
            Some(h) => h,
            None => 0,
        };
        let name = owned(browser);
        self.current = Some(CurrentTarget { rule_id, hwnd, process_name: name });
        assert(target_view(self.current) == adopted(*old(self), browser@, found));
    }
}

impl Core {
    /// Rate restored on entering a site (see [`restore_spec`]).
    pub fn restore_target(&self, browser: &str, m: &BrowserMedia, is_current: bool) -> (r: Option<u32>)
        ensures
            r == restore_spec(*self, browser@, *m, is_current),
    {
        if !(is_current && m.has_media && !m.is_live) {
            return None;
        }
        let same_host = match find_key(&self.browser_media, browser) {
            Some(j) => self.browser_media[j].1.has_media && str_eq(
                self.browser_media[j].1.host.as_str(),
                m.host.as_str(),
            ),
            None => false,
        };
        if same_host {
            return None;
        }
        let remembered = if self.settings.remember_per_app {
            match find_key(&self.memory, m.host.as_str()) {
                Some(j) => Some(self.memory[j].1),
                None => None,
            }
        } else {
            None
        };
        let site_default = match self.site_rule_for(m.host.as_str()) {
            Some(r) => r.default_rate,
            None => None,
        };
        match remembered {
            Some(x) => Some(clamp_rate(x, RATE_MAX)),
            None => match site_default {
                Some(x) => Some(clamp_rate(x, RATE_MAX)),
                None => None,
            },
        }
    }

    /// Smart slow-down (a setting): when the buffer ahead holds less than five
    /// seconds at the target rate, fall back to the highest quarter step it
    /// sustains (at least 1×). Eight seconds of cool-down keep it from
    /// oscillating with the buffer; it never speeds back up by itself. `now`
    /// is the caller's monotonic clock in milliseconds.
    pub fn maybe_smart_slowdown(&mut self, browser: &str, is_current: bool, now: u64) -> (r: Option<HotkeyPayload>)
        requires
            old(self).osd_seq < u64::MAX,
        ensures
            match slowdown_spec(
                old(self).rate as int,
                old(self).settings.smart_slowdown,
                lookup(old(self).browser_media@, browser@),
                is_current,
                old(self).slowdown_at,
                now,
            ) {
                Some(t) => {
                    &&& r is Some
                    &&& r->0.action == ShortcutAction::SpeedDown
                    &&& r->0.rate == t
                    &&& r->0.seq == final(self).osd_seq
                    &&& opt_text(r->0.notice) == Some("缓冲不足，已自动降速"@)
                    &&& final(self).rate == t
                    &&& final(self).slowdown_at == Some(now)
                    &&& final(self).osd_seq == old(self).osd_seq + 1
                },
                None => {
                    &&& r is None
                    &&& final(self).rate == old(self).rate
                    &&& final(self).slowdown_at == old(self).slowdown_at
                    &&& final(self).osd_seq == old(self).osd_seq
                },
            },
            final(self).current == old(self).current,
            final(self).rules@ == old(self).rules@,
            final(self).browser_media@ == old(self).browser_media@,
            final(self).settings == old(self).settings,
            final(self).memory@ == old(self).memory@,
            final(self).memory_seq == old(self).memory_seq,
            final(self).site_rules@ == old(self).site_rules@,
            final(self).connected_browsers@ == old(self).connected_browsers@,
            final(self).listening == old(self).listening,
    {
        if !is_current || !self.settings.smart_slowdown {
            return None;
        }
        let j = match find_key(&self.browser_media, browser) {
            Some(j) => j,
            None => {
                return None;
            },
        };
        let media = &self.browser_media[j].1;
        if !media.has_media || media.is_live || media.ad_playing {
            return None;
        }
        let buffered = match media.buffered_ahead {
            Some(b) => b,
            None => {
                return None;
            },
        };
        if self.rate <= 1050 || buffered >= (self.rate as u64) * 5 {
            return None;
        }
        match self.slowdown_at {
            Some(t) => {
                let elapsed = if now >= t {
                    now - t
                } else {
                    0
                };
                if elapsed < SLOWDOWN_COOLDOWN_MS {
                    return None;
                }
            },
            None => {},
        }
        let sustainable: u64 = (buffered / 1250) * 250;
        assert(sustainable < (self.rate as u64) * 5);
        let floor: u32 = if sustainable > RATE_NORMAL as u64 {
            sustainable as u32
        } else {
            RATE_NORMAL
        };
        let target = clamp_rate(floor, RATE_MAX);
        if target as u64 + 10 >= self.rate as u64 {
            return None;
        }
        self.rate = target;
        self.slowdown_at = Some(now);
        self.osd_seq = self.osd_seq + 1;
        Some(
            HotkeyPayload {
                action: ShortcutAction::SpeedDown,
                rate: target,
                seq: self.osd_seq,
                notice: Some(owned("缓冲不足，已自动降速")),
            },
        )
    }
}

/// The media entry stored for a report: the report itself, with the restored
/// rate written in when one was restored (the page follows the `setRate`).
pub open spec fn stored_media(m: BrowserMedia, restore: Option<u32>) -> BrowserMedia {
    match restore {
        Some(t) => BrowserMedia { rate: t, ..m },
        None => m,
    }
}

impl Core {
    fn session_if_current(&self, browser: &str) -> (r: Option<MediaSession>)
        ensures
            opt_session_view(r) == (if is_current_spec(*self, browser@) {
                session_spec(*self, None)
            } else {
                None
            }),
    {
        let is_current = match &self.current {
            Some(t) => str_eq(t.process_name.as_str(), browser),
            None => false,
        };
        if is_current {
            self.current_session(None)
        } else {
            None
        }
    }

    /// An extension said `hello`: it is connected, may become the target
    /// while nothing is targeted, and the session is returned for broadcast
    /// when it is the target. The caller then sends it the configuration.
    pub fn on_hello<F: Fn(&str) -> Option<isize>>(&mut self, browser: &str, find_window: &F) -> (r: Option<MediaSession>)
        requires
            forall|s: &str| call_requires(*find_window, (s,)),
        ensures
            final(self).connected_browsers@.map_values(|s: String| s@) == (if names_contain(
                old(self).connected_browsers@,
                browser@,
            ) {
                old(self).connected_browsers@.map_values(|s: String| s@)
            } else {
                old(self).connected_browsers@.map_values(|s: String| s@).push(browser@)
            }),
            exists|h: Option<isize>|
                (old(self).current is None && match_rule(old(self).rules@, browser@, 0) is Some
                    ==> call_ensures(*find_window, (browser,), h)) && target_view(final(self).current)
                    == adopted(*old(self), browser@, h),
            old(self).current is Some ==> final(self).current == old(self).current,
            opt_session_view(r) == (if is_current_spec(*final(self), browser@) {
                session_spec(*final(self), None)
            } else {
                None
            }),
            final(self).rate == old(self).rate,
            final(self).rules@ == old(self).rules@,
            final(self).browser_media@ == old(self).browser_media@,
            final(self).settings == old(self).settings,
            final(self).memory@ == old(self).memory@,
            final(self).listening == old(self).listening,
    {
        add_name(&mut self.connected_browsers, browser);
        let ghost mid = *self;
        self.adopt_browser_if_idle(browser, find_window);
        proof {
            let h = choose|h: Option<isize>|
                (mid.current is None && match_rule(mid.rules@, browser@, 0) is Some ==> call_ensures(
                    *find_window,
                    (browser,),
                    h,
                )) && target_view(self.current) == adopted(mid, browser@, h);
            assert(adopted(mid, browser@, h) == adopted(*old(self), browser@, h));
        }
        self.session_if_current(browser)
    }

    /// The extension's connection closed: it is no longer connected, its media
    /// is forgotten, and the session is returned for broadcast when it was the
    /// target.
    pub fn on_disconnect(&mut self, browser: &str) -> (r: Option<MediaSession>)
        ensures
            final(self).connected_browsers@.map_values(|s: String| s@) == names_without(
                old(self).connected_browsers@.map_values(|s: String| s@),
                browser@,
            ),
            final(self).browser_media@ == without(old(self).browser_media@, browser@),
            keys_unique(old(self).browser_media@) ==> keys_unique(final(self).browser_media@),
            final(self).current == old(self).current,
            opt_session_view(r) == (if is_current_spec(*final(self), browser@) {
                session_spec(*final(self), None)
            } else {
                None
            }),
            final(self).rate == old(self).rate,
            final(self).rules@ == old(self).rules@,
            final(self).settings == old(self).settings,
            final(self).listening == old(self).listening,
    {
        remove_name(&mut self.connected_browsers, browser);
        remove_key(&mut self.browser_media, browser);
        self.session_if_current(browser)
    }

    /// A `media` frame (`None`: the active tab has no media state). The report
    /// is cached (never written into the target rate: a late 1× heartbeat
    /// must not undo a step in flight); entering a new site restores the
    /// remembered or site rate; otherwise smart slow-down may act.
    pub fn on_media<F: Fn(&str) -> Option<isize>>(
        &mut self,
        browser: &str,
        media: Option<BrowserMedia>,
        now: u64,
        find_window: &F,
    ) -> (r: MediaOutcome)
        requires
            forall|s: &str| call_requires(*find_window, (s,)),
            old(self).osd_seq < u64::MAX,
        ensures
            opt_session_view(r.session) == (if is_current_spec(*final(self), browser@) {
                session_spec(*final(self), None)
            } else {
                None
            }),
            final(self).rules@ == old(self).rules@,
            final(self).settings == old(self).settings,
            final(self).memory@ == old(self).memory@,
            final(self).connected_browsers@ == old(self).connected_browsers@,
            final(self).listening == old(self).listening,
            keys_unique(old(self).browser_media@) ==> keys_unique(final(self).browser_media@),
            match media {
                None => {
                    &&& final(self).browser_media@ == without(old(self).browser_media@, browser@)
                    &&& final(self).current == old(self).current
                    &&& final(self).rate == old(self).rate
                    &&& r.restore is None && r.slowdown is None
                },
                Some(m) => {
                    let cur = is_current_spec(*final(self), browser@);
                    &&& m.has_media ==> exists|h: Option<isize>|
                        (old(self).current is None && match_rule(old(self).rules@, browser@, 0) is Some
                            ==> call_ensures(*find_window, (browser,), h)) && target_view(
                            final(self).current,
                        ) == adopted(*old(self), browser@, h)
                    &&& (!m.has_media || old(self).current is Some) ==> final(self).current == old(
                        self,
                    ).current
                    &&& r.restore == restore_spec(*old(self), browser@, m, cur)
                    &&& lookup(final(self).browser_media@, browser@) == Some(stored_media(m, r.restore))
                    &&& forall|other: Seq<char>|
                        other != browser@ ==> #[trigger] lookup(final(self).browser_media@, other)
                            == lookup(old(self).browser_media@, other)
                    &&& match r.restore {
                        Some(t) => final(self).rate == t && r.slowdown is None && final(self).osd_seq
                            == old(self).osd_seq && final(self).slowdown_at == old(self).slowdown_at,
                        None => match slowdown_spec(
                            old(self).rate as int,
                            old(self).settings.smart_slowdown,
                            Some(m),
                            cur,
                            old(self).slowdown_at,
                            now,
                        ) {
                            Some(t) => {
                                &&& r.slowdown is Some
                                &&& r.slowdown->0.action == ShortcutAction::SpeedDown
                                &&& r.slowdown->0.rate == t
                                &&& r.slowdown->0.seq == final(self).osd_seq
                                &&& final(self).rate == t
                                &&& final(self).osd_seq == old(self).osd_seq + 1
                                &&& final(self).slowdown_at == Some(now)
                            },
                            None => r.slowdown is None && final(self).rate == old(self).rate
                                && final(self).osd_seq == old(self).osd_seq && final(self).slowdown_at
                                == old(self).slowdown_at,
                        },
                    }
                },
            },
    {
        match media {
            None => {
                remove_key(&mut self.browser_media, browser);
                let session = self.session_if_current(browser);
                MediaOutcome { restore: None, slowdown: None, session }
            },
            Some(m) => {
                let mut m = m;
                let ghost m0 = m;
                if m.has_media {
                    self.adopt_browser_if_idle(browser, find_window);
                }
                let is_current = match &self.current {
                    Some(t) => str_eq(t.process_name.as_str(), browser),
                    None => false,
                };
                let restore = self.restore_target(browser, &m, is_current);
                match restore {
                    Some(t) => {
                        self.rate = t;
                        m.rate = t;
                    },
                    None => {},
                }
                assert(m == stored_media(m0, restore));
                let ghost before = self.browser_media@;
                let k = owned(browser);
                store(&mut self.browser_media, k, m);
                proof {
                    law_lookup_after_store(before, k, stored_media(m0, restore), browser@);
                    assert forall|other: Seq<char>| other != browser@ implies #[trigger] lookup(
                        self.browser_media@,
                        other,
                    ) == lookup(before, other) by {
                        law_lookup_after_store(before, k, stored_media(m0, restore), other);
                    }
                }
                let slowdown = if restore.is_none() {
                    self.maybe_smart_slowdown(browser, is_current, now)
                } else {
                    None
                };
                let session = self.session_if_current(browser);
                MediaOutcome { restore, slowdown, session }
            },
        }
    }
}

/// Description written into the host manifests.
pub const HOST_DESCRIPTION: &'static str = "OmniSpeed Native Messaging host（浏览器扩展 ⟷ 桌面核心）";

/// Registry roots the host is registered under (`HKEY_CURRENT_USER`), and
/// whether the root takes the Firefox manifest (Firefox lists allowed
/// extensions by Gecko ID, Chromium browsers by origin).
pub const REGISTRY_ROOTS: [(&'static str, bool); 3] = [
    ("Software\\Google\\Chrome\\NativeMessagingHosts", false),
    ("Software\\Microsoft\\Edge\\NativeMessagingHosts", false),
    ("Software\\Mozilla\\NativeMessagingHosts", true),
];

/// The batch launcher the manifests point at (Chromium manifests pass no
/// arguments, so the launcher adds `--nm-host`).
pub fn launcher_script(exe: &str) -> (r: String)
    ensures
        r@ == "@echo off\r\n\""@ + exe@ + "\" --nm-host %*\r\n"@,
{
    let mut s = owned("@echo off\r\n\"");
    s.append(exe);
    s.append("\" --nm-host %*\r\n");
    s
}

/// File name of the Chromium manifest.
pub fn chromium_manifest_file() -> (r: String)
    ensures
        r@ == HOST_NAME@ + ".json"@,
{
    let mut s = owned(HOST_NAME);
    s.append(".json");
    s
}

/// File name of the Firefox manifest.
pub fn firefox_manifest_file() -> (r: String)
    ensures
        r@ == HOST_NAME@ + ".firefox.json"@,
{
    let mut s = owned(HOST_NAME);
    s.append(".firefox.json");
    s
}

/// The extension origin Chromium manifests allow.
pub fn chromium_origin() -> (r: String)
    ensures
        r@ == "chrome-extension://"@ + EXTENSION_ID@ + "/"@,
{
    let mut s = owned("chrome-extension://");
    s.append(EXTENSION_ID);
    s.append("/");
    s
}

/// Registry key of the host under a root.
pub fn registry_key(root: &str) -> (r: String)
    ensures
        r@ == root@ + "\\"@ + HOST_NAME@,
{
    let mut s = owned(root);
    s.append("\\");
    s.append(HOST_NAME);
    s
}

/// Smart slow-down only ever slows down, by more than a hundredth, and never
/// below 1×.
pub proof fn law_slowdown_only_slows(
    rate: int,
    smart: bool,
    m: Option<BrowserMedia>,
    is_current: bool,
    last: Option<u64>,
    now: u64,
)
    ensures
        slowdown_spec(rate, smart, m, is_current, last, now) matches Some(t) ==> RATE_NORMAL <= t && t
            + 10 < rate,
{
}

/// On entering a site (the current browser reports media that is not live
/// under a host other than the one it last reported with media), a rate
/// remembered for that host wins over the site rule's default rate: it is
/// restored, clamped to the product range. Without a remembered rate the
/// site's default rate, clamped, is restored if the site rule has one.
pub proof fn law_memory_wins_on_entry(c: Core, browser: Seq<char>, m: BrowserMedia)
    requires
        m.has_media,
        !m.is_live,
        !(lookup(c.browser_media@, browser) matches Some(p) && p.has_media && p.host@ == m.host@),
    ensures
        c.settings.remember_per_app && lookup(c.memory@, m.host@) is Some ==> restore_spec(c, browser, m, true)
            == Some(clamp_rate_spec(lookup(c.memory@, m.host@)->0 as int, RATE_MAX as int) as u32),
        (!c.settings.remember_per_app || lookup(c.memory@, m.host@) is None) ==> restore_spec(
            c,
            browser,
            m,
            true,
        ) == match site_for(site_views(c.site_rules@), m.host@, 0) {
            Some(i) => match c.site_rules@[i].default_rate {
                Some(x) => Some(clamp_rate_spec(x as int, RATE_MAX as int) as u32),
                None => None,
            },
            None => None,
        },
{
}

/// Heartbeats never restore: a report of the host the cached media already
/// had (with media) restores nothing, so a hotkey target in flight stays.
pub proof fn law_same_host_never_restores(c: Core, browser: Seq<char>, m: BrowserMedia, is_current: bool)
    requires
        lookup(c.browser_media@, browser) matches Some(p) && p.has_media && p.host@ == m.host@,
    ensures
        restore_spec(c, browser, m, is_current) is None,
{
}

} // verus!
