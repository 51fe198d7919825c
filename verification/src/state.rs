//! The core state: the authoritative rate, settings, shortcut table, rule
//! table, the current take-over target and the per-app / per-site rate memory.

use vstd::prelude::*;
use crate::rate::RATE_NORMAL;
use crate::rules::{
    built_in_rules, clone_strings, find_id, find_rule, rule_views, status_spec, AppKind,
    AppRule, AppStatus,
};
use crate::settings::Settings;
use crate::sites::{default_site_rules, find_site_for, site_for, site_views, SiteRule};
use crate::text::{owned, str_eq};
use crate::rules::{contains_name, names_contain, rule_matches};

verus! {

/// Hotkey actions.
#[derive(Debug, Clone, Copy, PartialEq, Eq, Hash, Structural)]
pub enum ShortcutAction {
    SpeedUp,
    SpeedDown,
    Reset,
    PlayPause,
    TogglePanel,
}

/// Every action, in registration order.
pub const SHORTCUT_ACTIONS: [ShortcutAction; 5] = [
    ShortcutAction::SpeedUp,
    ShortcutAction::SpeedDown,
    ShortcutAction::Reset,
    ShortcutAction::PlayPause,
    ShortcutAction::TogglePanel,
];

/// Key combination per action, in display form such as `["Ctrl", "Alt", "↑"]`;
/// each action occurs at most once.
#[derive(Debug, Clone)]
pub struct ShortcutMap {
    pub entries: Vec<(ShortcutAction, Vec<String>)>,
}

/// The combination bound to an action (first entry for it).
pub open spec fn combo_of(entries: Seq<(ShortcutAction, Vec<String>)>, a: ShortcutAction, i: int) -> Option<int>
    decreases entries.len() - i,
{
    if i < 0 || i >= entries.len() {
        None
    } else if entries[i].0 == a {
        Some(i)
    } else {
        combo_of(entries, a, i + 1)
    }
}

proof fn lemma_combo_of(entries: Seq<(ShortcutAction, Vec<String>)>, a: ShortcutAction, i: int)
    requires
        0 <= i,
    ensures
        combo_of(entries, a, i) matches Some(j) ==> i <= j < entries.len() && entries[j].0 == a,
        combo_of(entries, a, i) is None ==> forall|k: int| i <= k < entries.len() ==> entries[k].0 != a,
    decreases entries.len() - i,
{
    if i < entries.len() && entries[i].0 != a {
        lemma_combo_of(entries, a, i + 1);
    }
}

/// The names of a combination.
pub open spec fn combo_view(v: Vec<String>) -> Seq<Seq<char>> {
    v@.map_values(|s: String| s@)
}

/// What the map binds an action to.
pub open spec fn shortcut_get(m: ShortcutMap, a: ShortcutAction) -> Option<Seq<Seq<char>>> {
    match combo_of(m.entries@, a, 0) {
        Some(j) => Some(combo_view(m.entries@[j].1)),
        None => None,
    }
}

fn combo(keys: &[&str]) -> (r: Vec<String>)
    ensures
        r@.len() == keys@.len(),
        forall|i: int| 0 <= i < keys@.len() ==> (#[trigger] r@[i])@ == keys@[i]@,
{
    let mut v: Vec<String> = Vec::new();
    let mut i: usize = 0;
    while i < keys.len()
        invariant
            i <= keys.len(),
            v@.len() == i,
            forall|k: int| 0 <= k < i ==> (#[trigger] v@[k])@ == keys@[k]@,
        decreases keys.len() - i,
    {
        v.push(owned(keys[i]));
        i = i + 1;
    }
    v
}

impl ShortcutMap {
    pub fn new() -> (r: Self)
        ensures
            r.entries@.len() == 0,
    {
        ShortcutMap { entries: Vec::new() }
    }

    /// The combination bound to `action`.
    pub fn get(&self, action: ShortcutAction) -> (r: Option<&Vec<String>>)
        ensures
            r matches Some(v) ==> shortcut_get(*self, action) == Some(combo_view(*v)),
            r is None ==> shortcut_get(*self, action) is None,
    {
        proof {
            lemma_combo_of(self.entries@, action, 0);
        }
        let mut i: usize = 0;
        while i < self.entries.len()
            invariant
                i <= self.entries.len(),
                combo_of(self.entries@, action, 0) == combo_of(self.entries@, action, i as int),
            decreases self.entries.len() - i,
        {
            if self.entries[i].0 == action {
                return Some(&self.entries[i].1);
            }
            i = i + 1;
        }
        None
    }

    /// Binds `action` to `keys`, replacing an earlier binding.
    pub fn insert(&mut self, action: ShortcutAction, keys: Vec<String>)
        ensures
            shortcut_get(*final(self), action) == Some(combo_view(keys)),
            forall|b: ShortcutAction| b != action ==> shortcut_get(*final(self), b) == shortcut_get(*old(self), b),
    {
        proof {
            lemma_combo_of(self.entries@, action, 0);
        }
        let mut i: usize = 0;
        while i < self.entries.len()
            invariant
                i <= self.entries.len(),
                self.entries@ == old(self).entries@,
                forall|k: int| 0 <= k < i ==> self.entries@[k].0 != action,
            decreases self.entries.len() - i,
        {
            if self.entries[i].0 == action {
                let ghost before = self.entries@;
                self.entries.set(i, (action, keys));
                proof {
                    lemma_combo_of(self.entries@, action, 0);
                    lemma_combo_of(before, action, 0);
                    assert forall|b: ShortcutAction| b != action implies shortcut_get(*self, b) == shortcut_get(*old(self), b) by {
                        lemma_combo_of(self.entries@, b, 0);
                        lemma_combo_of(before, b, 0);
                        assert forall|k: int| 0 <= k < before.len() implies (self.entries@[k].0 == b) == (before[k].0 == b) by {}
                        lemma_combo_same(before, self.entries@, b, 0);
                    }
                    lemma_combo_first(self.entries@, action, i as int);
                }
                return;
            }
            i = i + 1;
        }
        let ghost before = self.entries@;
        self.entries.push((action, keys));
        proof {
            lemma_combo_first(self.entries@, action, before.len() as int);
            assert forall|b: ShortcutAction| b != action implies shortcut_get(*self, b) == shortcut_get(*old(self), b) by {
                lemma_combo_of(before, b, 0);
                lemma_combo_prefix(before, self.entries@, b, 0);
            }
        }
    }
}

proof fn lemma_combo_first(e: Seq<(ShortcutAction, Vec<String>)>, a: ShortcutAction, j: int)
    requires
        0 <= j < e.len(),
        e[j].0 == a,
        forall|k: int| 0 <= k < j ==> e[k].0 != a,
    ensures
        combo_of(e, a, 0) == Some(j),
{
    lemma_combo_walk(e, a, 0, j);
}

proof fn lemma_combo_walk(e: Seq<(ShortcutAction, Vec<String>)>, a: ShortcutAction, i: int, j: int)
    requires
        0 <= i <= j < e.len(),
        e[j].0 == a,
        forall|k: int| i <= k < j ==> e[k].0 != a,
    ensures
        combo_of(e, a, i) == Some(j),
    decreases j - i,
{
    if i < j {
        lemma_combo_walk(e, a, i + 1, j);
    }
}

proof fn lemma_combo_same(
    e1: Seq<(ShortcutAction, Vec<String>)>,
    e2: Seq<(ShortcutAction, Vec<String>)>,
    b: ShortcutAction,
    i: int,
)
    requires
        0 <= i,
        e1.len() == e2.len(),
        forall|k: int| 0 <= k < e1.len() ==> (e1[k].0 == b) == (e2[k].0 == b),
        forall|k: int| 0 <= k < e1.len() && e1[k].0 == b ==> e1[k] == e2[k],
    ensures
        combo_of(e1, b, i) == combo_of(e2, b, i),
        combo_of(e1, b, i) matches Some(j) ==> e1[j] == e2[j],
    decreases e1.len() - i,
{
    if i < e1.len() && e1[i].0 != b {
        lemma_combo_same(e1, e2, b, i + 1);
    }
}

proof fn lemma_combo_prefix(
    e1: Seq<(ShortcutAction, Vec<String>)>,
    e2: Seq<(ShortcutAction, Vec<String>)>,
    b: ShortcutAction,
    i: int,
)
    requires
        0 <= i,
        e2.len() == e1.len() + 1,
        forall|k: int| 0 <= k < e1.len() ==> e1[k] == e2[k],
        e2[e1.len() as int].0 != b,
    ensures
        combo_of(e1, b, i) == combo_of(e2, b, i),
    decreases e2.len() - i,
{
    if i < e1.len() && e1[i].0 != b {
        lemma_combo_prefix(e1, e2, b, i + 1);
    } else if i == e1.len() {
        assert(combo_of(e2, b, i + 1) is None);
    }
}

/// Factory combination of an action.
pub open spec fn default_combo(a: ShortcutAction) -> Seq<Seq<char>> {
    match a {
        ShortcutAction::SpeedUp => seq!["Ctrl"@, "Alt"@, "↑"@],
        ShortcutAction::SpeedDown => seq!["Ctrl"@, "Alt"@, "↓"@],
        ShortcutAction::Reset => seq!["Ctrl"@, "Alt"@, "0"@],
        ShortcutAction::PlayPause => seq!["Ctrl"@, "Alt"@, "Space"@],
        ShortcutAction::TogglePanel => seq!["Ctrl"@, "Alt"@, "S"@],
    }
}

/// Factory shortcuts: Ctrl+Alt+↑ / ↓ / 0 / Space / S.
pub fn default_shortcuts() -> (r: ShortcutMap)
    ensures
        forall|a: ShortcutAction| shortcut_get(r, a) == Some(default_combo(a)),
        shortcut_get(r, ShortcutAction::SpeedUp) == Some(seq!["Ctrl"@, "Alt"@, "↑"@]),
        shortcut_get(r, ShortcutAction::SpeedDown) == Some(seq!["Ctrl"@, "Alt"@, "↓"@]),
        shortcut_get(r, ShortcutAction::Reset) == Some(seq!["Ctrl"@, "Alt"@, "0"@]),
        shortcut_get(r, ShortcutAction::PlayPause) == Some(seq!["Ctrl"@, "Alt"@, "Space"@]),
        shortcut_get(r, ShortcutAction::TogglePanel) == Some(seq!["Ctrl"@, "Alt"@, "S"@]),
{
    let mut m = ShortcutMap::new();
    m.insert(ShortcutAction::SpeedUp, combo(&["Ctrl", "Alt", "↑"]));
    m.insert(ShortcutAction::SpeedDown, combo(&["Ctrl", "Alt", "↓"]));
    m.insert(ShortcutAction::Reset, combo(&["Ctrl", "Alt", "0"]));
    m.insert(ShortcutAction::PlayPause, combo(&["Ctrl", "Alt", "Space"]));
    m.insert(ShortcutAction::TogglePanel, combo(&["Ctrl", "Alt", "S"]));
    proof {
        let v = shortcut_get(m, ShortcutAction::SpeedUp)->0;
        assert(v =~= seq!["Ctrl"@, "Alt"@, "↑"@]);
        let v = shortcut_get(m, ShortcutAction::SpeedDown)->0;
        assert(v =~= seq!["Ctrl"@, "Alt"@, "↓"@]);
        let v = shortcut_get(m, ShortcutAction::Reset)->0;
        assert(v =~= seq!["Ctrl"@, "Alt"@, "0"@]);
        let v = shortcut_get(m, ShortcutAction::PlayPause)->0;
        assert(v =~= seq!["Ctrl"@, "Alt"@, "Space"@]);
        let v = shortcut_get(m, ShortcutAction::TogglePanel)->0;
        assert(v =~= seq!["Ctrl"@, "Alt"@, "S"@]);
    }
    m
}


/// The take-over target matched in the foreground.
#[derive(Debug, Clone, PartialEq)]
pub struct CurrentTarget {
    pub rule_id: String,
    pub hwnd: isize,
    pub process_name: String,
}

impl CurrentTarget {
    pub fn duplicate(&self) -> (r: Self)
        ensures
            r == *self,
    {
        CurrentTarget {
            rule_id: self.rule_id.clone(),
            hwnd: self.hwnd,
            process_name: self.process_name.clone(),
        }
    }
}

/// Media state of a browser's active tab, as the extension reports it.
#[derive(Debug, Clone, PartialEq)]
pub struct BrowserMedia {
    pub has_media: bool,
    /// Real rate of the page's media, in thousandths.
    pub rate: u32,
    pub title: String,
    pub host: String,
    pub is_live: bool,
    pub ad_playing: bool,
    /// Buffered time ahead of the playhead, in milliseconds.
    pub buffered_ahead: Option<u64>,
    pub adapter: String,
}

impl BrowserMedia {
    pub fn duplicate(&self) -> (r: Self)
        ensures
            r == *self,
    {
        BrowserMedia {
            has_media: self.has_media,
            rate: self.rate,
            title: self.title.clone(),
            host: self.host.clone(),
            is_live: self.is_live,
            ad_playing: self.ad_playing,
            buffered_ahead: self.buffered_ahead,
            adapter: self.adapter.clone(),
        }
    }
}

/// Core state. The rate held here is the authority; adapters carry it to the
/// target and correct it from read-backs.
#[derive(Debug)]
pub struct Core {
    /// Current target rate.
    pub rate: u32,
    pub settings: Settings,
    pub hotkeys_enabled: bool,
    pub shortcuts: ShortcutMap,
    /// Shortcuts that failed to register → reason shown to the user.
    pub conflicts: Vec<(ShortcutAction, String)>,
    /// OSD generation: a newer popup outlives older hide timers.
    pub osd_seq: u64,
    /// Global listening switch: when off, nothing follows the foreground and
    /// nothing is sent.
    pub listening: bool,
    pub rules: Vec<AppRule>,
    pub current: Option<CurrentTarget>,
    /// Lower-case process names of browsers whose extension is connected.
    pub connected_browsers: Vec<String>,
    /// Active-tab media per browser process (each process at most once).
    pub browser_media: Vec<(String, BrowserMedia)>,
    pub site_rules: Vec<SiteRule>,
    /// Remembered rate per process name (players) or host (web pages), each
    /// key at most once.
    pub memory: Vec<(String, u32)>,
    /// Memory generation, for debounced saving.
    pub memory_seq: u64,
    /// When smart slow-down last acted, in milliseconds of the caller's
    /// monotonic clock.
    pub slowdown_at: Option<u64>,
}

/// Index of the first entry at or after `i` keyed `key`.
pub open spec fn key_index<V>(entries: Seq<(String, V)>, key: Seq<char>, i: int) -> Option<int>
    decreases entries.len() - i,
{
    if i < 0 || i >= entries.len() {
        None
    } else if entries[i].0@ == key {
        Some(i)
    } else {
        key_index(entries, key, i + 1)
    }
}

/// The value stored under `key`.
pub open spec fn lookup<V>(entries: Seq<(String, V)>, key: Seq<char>) -> Option<V> {
    match key_index(entries, key, 0) {
        Some(i) => Some(entries[i].1),
        None => None,
    }
}

proof fn lemma_key_index<V>(entries: Seq<(String, V)>, key: Seq<char>, i: int)
    requires
        0 <= i,
    ensures
        key_index(entries, key, i) matches Some(j) ==> i <= j < entries.len() && entries[j].0@ == key
            && forall|k: int| i <= k < j ==> entries[k].0@ != key,
        key_index(entries, key, i) is None ==> forall|k: int| i <= k < entries.len() ==> entries[k].0@ != key,
    decreases entries.len() - i,
{
    if i < entries.len() && entries[i].0@ != key {
        lemma_key_index(entries, key, i + 1);
    }
}

proof fn lemma_key_index_first<V>(entries: Seq<(String, V)>, key: Seq<char>, i: int, j: int)
    requires
        0 <= i <= j < entries.len(),
        entries[j].0@ == key,
        forall|k: int| i <= k < j ==> entries[k].0@ != key,
    ensures
        key_index(entries, key, i) == Some(j),
    decreases j - i,
{
    if i < j {
        lemma_key_index_first(entries, key, i + 1, j);
    }
}

/// Position of the entry keyed `key`.
pub fn find_key<V>(entries: &Vec<(String, V)>, key: &str) -> (r: Option<usize>)
    ensures
        r matches Some(j) ==> key_index(entries@, key@, 0) == Some(j as int) && j < entries@.len(),
        r is None ==> key_index(entries@, key@, 0) is None,
{
    proof {
        lemma_key_index(entries@, key@, 0);
    }
    let mut i: usize = 0;
    while i < entries.len()
        invariant
            i <= entries.len(),
            key_index(entries@, key@, 0) == key_index(entries@, key@, i as int),
        decreases entries.len() - i,
    {
        if str_eq(entries[i].0.as_str(), key) {
            return Some(i);
        }
        i = i + 1;
    }
    None
}

/// The entries after storing `v` under `key`: the first entry with that key is
/// replaced, or a new entry appended.
pub open spec fn stored<V>(entries: Seq<(String, V)>, key: String, v: V) -> Seq<(String, V)> {
    match key_index(entries, key@, 0) {
        Some(i) => entries.update(i, (entries[i].0, v)),
        None => entries.push((key, v)),
    }
}

/// Reading a key right after storing it gives the stored value; other keys
/// keep theirs.
pub proof fn law_lookup_after_store<V>(entries: Seq<(String, V)>, key: String, v: V, other: Seq<char>)
    ensures
        lookup(stored(entries, key, v), key@) == Some(v),
        other != key@ ==> lookup(stored(entries, key, v), other) == lookup(entries, other),
{
    lemma_key_index(entries, key@, 0);
    lemma_key_index(entries, other, 0);
    let s = stored(entries, key, v);
    lemma_key_index(s, key@, 0);
    lemma_key_index(s, other, 0);
    match key_index(entries, key@, 0) {
        Some(i) => {
            assert forall|k: int| 0 <= k < i implies s[k].0@ != key@ by {
                assert(s[k] == entries[k]);
            }
            lemma_key_index_first(s, key@, 0, i);
            if other != key@ {
                assert forall|k: int| 0 <= k < s.len() implies (s[k].0@ == other) == (entries[k].0@ == other) by {
                    if k != i {
                        assert(s[k] == entries[k]);
                    }
                }
                match key_index(entries, other, 0) {
                    Some(j) => {
                        assert(s[j].1 == entries[j].1);
                        lemma_key_index_first(s, other, 0, j);
                    },
                    None => {
                        assert(key_index(s, other, 0) is None) by {
                            if key_index(s, other, 0) is Some {
                                let j = key_index(s, other, 0)->0;
                                assert(s[j].0@ == other);
                            }
                        }
                    },
                }
            }
        },
        None => {
            assert forall|k: int| 0 <= k < entries.len() implies s[k].0@ != key@ by {
                assert(s[k] == entries[k]);
            }
            lemma_key_index_first(s, key@, 0, entries.len() as int);
            if other != key@ {
                match key_index(entries, other, 0) {
                    Some(j) => {
                        assert forall|k: int| 0 <= k < j implies s[k].0@ != other by {
                            assert(s[k] == entries[k]);
                        }
                        assert(s[j] == entries[j]);
                        lemma_key_index_first(s, other, 0, j);
                    },
                    None => {
                        assert forall|k: int| 0 <= k < s.len() implies s[k].0@ != other by {
                            if k < entries.len() {
                                assert(s[k] == entries[k]);
                            }
                        }
                        assert(key_index(s, other, 0) is None) by {
                            lemma_key_index(s, other, 0);
                            if key_index(s, other, 0) is Some {
                                let j = key_index(s, other, 0)->0;
                                assert(s[j].0@ == other);
                            }
                        }
                    },
                }
            }
        },
    }
}

/// Each key occurs at most once: the invariant of the keyed tables (rate
/// memory, media per browser, connected extensions).
pub open spec fn keys_unique<V>(entries: Seq<(String, V)>) -> bool {
    forall|i: int, j: int| 0 <= i < j < entries.len() ==> #[trigger] entries[i].0@ != #[trigger] entries[j].0@
}

proof fn lemma_stored_unique<V>(entries: Seq<(String, V)>, key: String, v: V)
    requires
        keys_unique(entries),
    ensures
        keys_unique(stored(entries, key, v)),
{
    lemma_key_index(entries, key@, 0);
    let s = stored(entries, key, v);
    assert forall|i: int, j: int| 0 <= i < j < s.len() implies #[trigger] s[i].0@ != #[trigger] s[j].0@ by {
        if j < entries.len() {
            assert(s[i].0 == entries[i].0);
            assert(s[j].0 == entries[j].0);
        } else {
            assert(s[i] == entries[i]);
        }
    }
}

proof fn lemma_present_key<V>(entries: Seq<(String, V)>, m: int)
    requires
        0 <= m < entries.len(),
    ensures
        lookup(entries, entries[m].0@) is Some,
{
    lemma_key_index(entries, entries[m].0@, 0);
}

proof fn lemma_without_unique<V>(entries: Seq<(String, V)>, key: Seq<char>)
    requires
        keys_unique(entries),
    ensures
        keys_unique(without(entries, key)),
    decreases entries.len(),
{
    if entries.len() > 0 {
        let rest = entries.drop_last();
        let last = entries.last();
        assert(keys_unique(rest)) by {
            assert forall|i: int, j: int| 0 <= i < j < rest.len() implies #[trigger] rest[i].0@
                != #[trigger] rest[j].0@ by {
                assert(rest[i] == entries[i] && rest[j] == entries[j]);
            }
        }
        lemma_without_unique(rest, key);
        if last.0@ != key {
            let w = without(rest, key);
            let t = w.push(last);
            assert forall|i: int, j: int| 0 <= i < j < t.len() implies #[trigger] t[i].0@ != #[trigger] t[j].0@ by {
                if j < w.len() {
                    assert(t[i] == w[i] && t[j] == w[j]);
                } else {
                    assert(t[i] == w[i]);
                    if w[i].0@ == last.0@ {
                        lemma_present_key(w, i);
                        lemma_without_key_index(rest, key, last.0@);
                        lemma_key_index(rest, last.0@, 0);
                        let k = key_index(rest, last.0@, 0)->0;
                        assert(rest[k] == entries[k]);
                        assert(entries[k].0@ != entries[entries.len() - 1].0@);
                    }
                }
            }
        }
    }
}

/// Stores `v` under `key`.
pub fn store<V>(entries: &mut Vec<(String, V)>, key: String, v: V)
    ensures
        final(entries)@ == stored(old(entries)@, key, v),
        keys_unique(old(entries)@) ==> keys_unique(final(entries)@),
{
    proof {
        if keys_unique(entries@) {
            lemma_stored_unique(entries@, key, v);
        }
    }
    match find_key(entries, key.as_str()) {
        Some(i) => {
            let k = entries[i].0.clone();
            entries.set(i, (k, v));
        },
        None => {
            entries.push((key, v));
        },
    }
}

/// The entries without any entry keyed `key`.
pub open spec fn without<V>(entries: Seq<(String, V)>, key: Seq<char>) -> Seq<(String, V)>
    decreases entries.len(),
{
    if entries.len() == 0 {
        entries
    } else if entries.last().0@ == key {
        without(entries.drop_last(), key)
    } else {
        without(entries.drop_last(), key).push(entries.last())
    }
}

proof fn lemma_lookup_push<V>(s: Seq<(String, V)>, x: (String, V), k: Seq<char>)
    ensures
        lookup(s.push(x), k) == (if lookup(s, k) is Some {
            lookup(s, k)
        } else if x.0@ == k {
            Some(x.1)
        } else {
            None
        }),
{
    let t = s.push(x);
    lemma_key_index(s, k, 0);
    lemma_key_index(t, k, 0);
    match key_index(s, k, 0) {
        Some(j) => {
            assert forall|m: int| 0 <= m < j implies t[m].0@ != k by {
                assert(t[m] == s[m]);
            }
            assert(t[j] == s[j]);
            lemma_key_index_first(t, k, 0, j);
        },
        None => {
            if x.0@ == k {
                assert forall|m: int| 0 <= m < s.len() implies t[m].0@ != k by {
                    assert(t[m] == s[m]);
                }
                lemma_key_index_first(t, k, 0, s.len() as int);
            } else {
                assert forall|m: int| 0 <= m < t.len() implies t[m].0@ != k by {
                    if m < s.len() {
                        assert(t[m] == s[m]);
                    }
                }
            }
        },
    }
}

proof fn lemma_without_key_index<V>(entries: Seq<(String, V)>, key: Seq<char>, other: Seq<char>)
    ensures
        lookup(without(entries, key), key) is None,
        other != key ==> lookup(without(entries, key), other) == lookup(entries, other),
    decreases entries.len(),
{
    if entries.len() == 0 {
        lemma_key_index(entries, key, 0);
    } else {
        let rest = entries.drop_last();
        let last = entries.last();
        assert(entries =~= rest.push(last));
        lemma_without_key_index(rest, key, other);
        let w = without(rest, key);
        lemma_lookup_push(rest, last, other);
        if last.0@ != key {
            lemma_lookup_push(w, last, key);
            lemma_lookup_push(w, last, other);
        }
    }
}

/// Removing a key leaves no value under it and keeps every other key's value.
pub proof fn law_lookup_after_remove<V>(entries: Seq<(String, V)>, key: Seq<char>, other: Seq<char>)
    ensures
        lookup(without(entries, key), key) is None,
        other != key ==> lookup(without(entries, key), other) == lookup(entries, other),
{
    lemma_without_key_index(entries, key, other);
}

/// Removes every entry keyed `key`.
pub fn remove_key<V>(entries: &mut Vec<(String, V)>, key: &str)
    ensures
        final(entries)@ == without(old(entries)@, key@),
        keys_unique(old(entries)@) ==> keys_unique(final(entries)@),
{
    proof {
        if keys_unique(entries@) {
            lemma_without_unique(entries@, key@);
        }
    }
    let ghost orig = entries@;
    let ghost mut j: int = 0;
    let mut i: usize = 0;
    assert(orig.subrange(0, 0) =~= Seq::<(String, V)>::empty());
    assert(entries@ =~= without(orig.subrange(0, 0), key@) + orig.subrange(0, orig.len() as int));
    while i < entries.len()
        invariant
            0 <= j <= orig.len(),
            entries@ == without(orig.subrange(0, j), key@) + orig.subrange(j, orig.len() as int),
            i == without(orig.subrange(0, j), key@).len(),
        decreases entries.len() - i,
    {
        let ghost kept = without(orig.subrange(0, j), key@);
        assert(entries@[i as int] == orig[j]);
        assert(orig.subrange(0, j + 1).drop_last() =~= orig.subrange(0, j));
        assert(orig.subrange(0, j + 1).last() == orig[j]);
        if str_eq(entries[i].0.as_str(), key) {
            entries.remove(i);
            assert(entries@ =~= kept + orig.subrange(j + 1, orig.len() as int));
        } else {
            assert(entries@ =~= kept.push(orig[j]) + orig.subrange(j + 1, orig.len() as int));
            i = i + 1;
        }
        proof {
            j = j + 1;
        }
    }
    assert(orig.subrange(0, orig.len() as int) =~= orig);
    assert(j == orig.len()) by {
        if j < orig.len() {
            assert(entries@.len() > i);
        }
    }
    assert(entries@ =~= without(orig, key@));
}

/// Adds a name to a list of distinct names.
pub fn add_name(v: &mut Vec<String>, name: &str)
    ensures
        final(v)@.map_values(|s: String| s@) == (if names_contain(old(v)@, name@) {
            old(v)@.map_values(|s: String| s@)
        } else {
            old(v)@.map_values(|s: String| s@).push(name@)
        }),
        names_contain(final(v)@, name@),
{
    if !contains_name(v, name) {
        let ghost before = v@;
        v.push(owned(name));
        assert(v@.map_values(|s: String| s@) =~= before.map_values(|s: String| s@).push(name@));
        assert(v@[v@.len() - 1]@ == name@);
    }
}

/// The names without `name`.
pub open spec fn names_without(v: Seq<Seq<char>>, name: Seq<char>) -> Seq<Seq<char>> {
    v.filter(|s: Seq<char>| s != name)
}

/// Removes every occurrence of a name.
pub fn remove_name(v: &mut Vec<String>, name: &str)
    ensures
        final(v)@.map_values(|s: String| s@) == names_without(old(v)@.map_values(|s: String| s@), name@),
        !names_contain(final(v)@, name@),
{
    let ghost orig = v@.map_values(|s: String| s@);
    let mut out: Vec<String> = Vec::new();
    let mut i: usize = 0;
    while i < v.len()
        invariant
            i <= v.len(),
            orig == v@.map_values(|s: String| s@),
            out@.map_values(|s: String| s@) == names_without(orig.subrange(0, i as int), name@),
            forall|k: int| 0 <= k < out@.len() ==> (#[trigger] out@[k])@ != name@,
        decreases v.len() - i,
    {
        let ghost prev = out@.map_values(|s: String| s@);
        assert(orig.subrange(0, i + 1).drop_last() =~= orig.subrange(0, i as int));
        reveal_with_fuel(Seq::filter, 1);
        assert(names_without(orig.subrange(0, i + 1), name@) == {
            let f = names_without(orig.subrange(0, i as int), name@);
            if orig[i as int] != name@ {
                f.push(orig[i as int])
            } else {
                f
            }
        });
        if !str_eq(v[i].as_str(), name) {
            out.push(v[i].clone());
            assert(out@.map_values(|s: String| s@) =~= prev.push(orig[i as int]));
        }
        i = i + 1;
    }
    assert(orig.subrange(0, v.len() as int) =~= orig);
    *v = out;
}

/// The first rule claiming a process name.
pub open spec fn match_rule(rules: Seq<AppRule>, name: Seq<char>, i: int) -> Option<int>
    decreases rules.len() - i,
{
    if i < 0 || i >= rules.len() {
        None
    } else if rule_matches(rules[i], name) {
        Some(i)
    } else {
        match_rule(rules, name, i + 1)
    }
}

proof fn lemma_match_rule(rules: Seq<AppRule>, name: Seq<char>, i: int)
    requires
        0 <= i,
    ensures
        match_rule(rules, name, i) matches Some(j) ==> i <= j < rules.len() && rule_matches(rules[j], name),
    decreases rules.len() - i,
{
    if i < rules.len() && !rule_matches(rules[i], name) {
        lemma_match_rule(rules, name, i + 1);
    }
}

/// Position of the first rule claiming a process name.
pub fn find_matching_rule(rules: &Vec<AppRule>, name: &str) -> (r: Option<usize>)
    ensures
        r matches Some(j) ==> match_rule(rules@, name@, 0) == Some(j as int) && j < rules@.len(),
        r is None ==> match_rule(rules@, name@, 0) is None,
{
    proof {
        lemma_match_rule(rules@, name@, 0);
    }
    let mut i: usize = 0;
    while i < rules.len()
        invariant
            i <= rules.len(),
            match_rule(rules@, name@, 0) == match_rule(rules@, name@, i as int),
        decreases rules.len() - i,
    {
        if rules[i].matches(name) {
            return Some(i);
        }
        i = i + 1;
    }
    None
}

/// Index of the rule the current target refers to.
pub open spec fn current_rule_index(c: Core) -> Option<int> {
    match c.current {
        Some(t) => find_id(rule_views(c.rules@), t.rule_id@, 0),
        None => None,
    }
}

/// Where the rate of the current target is remembered: the host of the active
/// tab for a browser with media, otherwise the process name.
pub open spec fn memory_key_spec(c: Core) -> Option<Seq<char>> {
    match (c.current, current_rule_index(c)) {
        (Some(t), Some(i)) => {
            if c.rules@[i].kind == AppKind::Browser && (match lookup(c.browser_media@, t.process_name@) {
                Some(m) => m.has_media && m.host@.len() > 0,
                None => false,
            }) {
                Some(lookup(c.browser_media@, t.process_name@)->0.host@)
            } else {
                Some(t.process_name@)
            }
        },
        _ => None,
    }
}

/// Current media session shown on the control page.
#[derive(Debug, Clone, PartialEq)]
pub struct MediaSession {
    pub app_id: String,
    pub name: String,
    pub source: String,
    pub kind: AppKind,
    pub status: AppStatus,
    /// Real rate when the channel reads it back.
    pub rate: Option<u32>,
    pub can_read_back: bool,
}

/// Snapshot pulled once by the front end.
#[derive(Debug, Clone)]
pub struct CoreSnapshot {
    pub rate: u32,
    pub hotkeys_enabled: bool,
    pub shortcuts: ShortcutMap,
    pub conflicts: Vec<(ShortcutAction, String)>,
    pub listening: bool,
    pub settings: Settings,
}

/// What [`Core::current_session`] reports for the current target. Browsers
/// report the extension's media (title, host, real rate) when there is any,
/// and are `Connected` exactly when their extension is.
pub open spec fn session_spec(c: Core, rate: Option<u32>) -> Option<(Seq<char>, Seq<char>, Seq<char>, AppKind, AppStatus, Option<u32>, bool)> {
    if !c.listening {
        None
    } else {
        match (c.current, current_rule_index(c)) {
            (Some(t), Some(i)) => {
                let r = c.rules@[i];
                if r.kind == AppKind::Browser {
                    let m = match lookup(c.browser_media@, t.process_name@) {
                        Some(x) => if x.has_media {
                            Some(x)
                        } else {
                            None
                        },
                        None => None,
                    };
                    Some(
                        (
                            r.id@,
                            match m {
                                Some(x) => x.title@,
                                None => r.name@,
                            },
                            match m {
                                Some(x) => x.host@,
                                None => t.process_name@,
                            },
                            r.kind,
                            if names_contain(c.connected_browsers@, t.process_name@) {
                                AppStatus::Connected
                            } else {
                                AppStatus::NeedsSetup
                            },
                            match m {
                                Some(x) => Some(x.rate),
                                None => None,
                            },
                            m is Some,
                        ),
                    )
                } else {
                    Some((r.id@, r.name@, t.process_name@, r.kind, status_spec(r), rate, rate is Some))
                }
            },
            _ => None,
        }
    }
}

pub open spec fn session_view(s: MediaSession) -> (Seq<char>, Seq<char>, Seq<char>, AppKind, AppStatus, Option<u32>, bool) {
    (s.app_id@, s.name@, s.source@, s.kind, s.status, s.rate, s.can_read_back)
}

impl Settings {
    pub fn duplicate(&self) -> (r: Self)
        ensures
            r.default_rate == self.default_rate,
            r.step == self.step,
            r.slider_max == self.slider_max,
            r.presets@ == self.presets@,
            r.high_speed_warning == self.high_speed_warning,
            r.smart_slowdown == self.smart_slowdown,
            r.preserves_pitch == self.preserves_pitch,
            r.remember_per_app == self.remember_per_app,
            r.start_on_boot == self.start_on_boot,
            r.minimize_to_tray == self.minimize_to_tray,
            r.auto_update == self.auto_update,
    {
        Settings {
            default_rate: self.default_rate,
            step: self.step,
            slider_max: self.slider_max,
            presets: crate::rules::clone_rates(&self.presets),
            high_speed_warning: self.high_speed_warning,
            smart_slowdown: self.smart_slowdown,
            preserves_pitch: self.preserves_pitch,
            remember_per_app: self.remember_per_app,
            start_on_boot: self.start_on_boot,
            minimize_to_tray: self.minimize_to_tray,
            auto_update: self.auto_update,
        }
    }
}

impl ShortcutMap {
    pub fn duplicate(&self) -> (r: Self)
        ensures
            forall|a: ShortcutAction| shortcut_get(r, a) == shortcut_get(*self, a),
    {
        let mut entries: Vec<(ShortcutAction, Vec<String>)> = Vec::new();
        let mut i: usize = 0;
        while i < self.entries.len()
            invariant
                i <= self.entries.len(),
                entries@.len() == i,
                forall|k: int| 0 <= k < i ==> (#[trigger] entries@[k]).0 == self.entries@[k].0
                    && combo_view(entries@[k].1) == combo_view(self.entries@[k].1),
            decreases self.entries.len() - i,
        {
            entries.push((self.entries[i].0, clone_strings(&self.entries[i].1)));
            i = i + 1;
        }
        let r = ShortcutMap { entries };
        proof {
            assert forall|a: ShortcutAction| shortcut_get(r, a) == shortcut_get(*self, a) by {
                lemma_combo_views(r.entries@, self.entries@, a, 0);
            }
        }
        r
    }
}

proof fn lemma_combo_views(
    e1: Seq<(ShortcutAction, Vec<String>)>,
    e2: Seq<(ShortcutAction, Vec<String>)>,
    a: ShortcutAction,
    i: int,
)
    requires
        0 <= i,
        e1.len() == e2.len(),
        forall|k: int| 0 <= k < e1.len() ==> (#[trigger] e1[k]).0 == e2[k].0 && combo_view(e1[k].1) == combo_view(e2[k].1),
    ensures
        combo_of(e1, a, i) == combo_of(e2, a, i),
        combo_of(e1, a, i) matches Some(j) ==> combo_view(e1[j].1) == combo_view(e2[j].1),
    decreases e1.len() - i,
{
    if i < e1.len() {
        assert(e1[i].0 == e2[i].0);
        if e1[i].0 != a {
            lemma_combo_views(e1, e2, a, i + 1);
        }
    }
}

fn clone_conflicts(v: &Vec<(ShortcutAction, String)>) -> (r: Vec<(ShortcutAction, String)>)
    ensures
        r@ == v@,
{
    let mut r: Vec<(ShortcutAction, String)> = Vec::new();
    let mut i: usize = 0;
    while i < v.len()
        invariant
            i <= v.len(),
            r@ == v@.subrange(0, i as int),
        decreases v.len() - i,
    {
        r.push((v[i].0, v[i].1.clone()));
        assert(v@.subrange(0, i + 1) =~= v@.subrange(0, i as int).push(v@[i as int]));
        i = i + 1;
    }
    assert(v@.subrange(0, v.len() as int) =~= v@);
    r
}

impl Default for Core {
    fn default() -> (r: Self)
        ensures
            r.rate == RATE_NORMAL,
            crate::settings::default_settings_spec(r.settings),
            forall|a: ShortcutAction| shortcut_get(r.shortcuts, a) == Some(default_combo(a)),
            r.hotkeys_enabled,
            r.conflicts@.len() == 0,
            r.osd_seq == 0,
            r.listening,
            crate::rules::builtin_rules_spec(r.rules@),
            r.current is None,
            r.connected_browsers@.len() == 0,
            r.browser_media@.len() == 0,
            crate::sites::default_sites_spec(r.site_rules@),
            r.memory@.len() == 0,
            keys_unique(r.memory@),
            keys_unique(r.browser_media@),
            r.memory_seq == 0,
            r.slowdown_at is None,
    {
        Core {
            rate: RATE_NORMAL,
            settings: Settings::default(),
            hotkeys_enabled: true,
            shortcuts: default_shortcuts(),
            conflicts: Vec::new(),
            osd_seq: 0,
            listening: true,
            rules: built_in_rules(),
            current: None,
            connected_browsers: Vec::new(),
            browser_media: Vec::new(),
            site_rules: default_site_rules(),
            memory: Vec::new(),
            memory_seq: 0,
            slowdown_at: None,
        }
    }
}

impl Core {
    /// State pulled by the front end on start-up.
    pub fn snapshot(&self) -> (r: CoreSnapshot)
        ensures
            r.rate == self.rate,
            r.hotkeys_enabled == self.hotkeys_enabled,
            forall|a: ShortcutAction| shortcut_get(r.shortcuts, a) == shortcut_get(self.shortcuts, a),
            r.conflicts@ == self.conflicts@,
            r.listening == self.listening,
            r.settings.presets@ == self.settings.presets@,
            r.settings.default_rate == self.settings.default_rate,
            r.settings.step == self.settings.step,
            r.settings.slider_max == self.settings.slider_max,
    {
        CoreSnapshot {
            rate: self.rate,
            hotkeys_enabled: self.hotkeys_enabled,
            shortcuts: self.shortcuts.duplicate(),
            conflicts: clone_conflicts(&self.conflicts),
            listening: self.listening,
            settings: self.settings.duplicate(),
        }
    }

    /// Position of the rule of the current target.
    pub fn current_rule_index(&self) -> (r: Option<usize>)
        ensures
            r matches Some(i) ==> current_rule_index(*self) == Some(i as int) && i < self.rules@.len(),
            r is None ==> current_rule_index(*self) is None,
    {
        match &self.current {
            Some(t) => {
                proof {
                    crate::rules::lemma_find_id_pub(rule_views(self.rules@), t.rule_id@, 0);
                }
                find_rule(&self.rules, &t.rule_id)
            },
            None => None,
        }
    }

    /// The rule of the current target.
    pub fn current_rule(&self) -> (r: Option<&AppRule>)
        ensures
            r matches Some(x) ==> current_rule_index(*self) matches Some(i) && *x == self.rules@[i],
            r is None ==> current_rule_index(*self) is None,
    {
        match self.current_rule_index() {
            Some(i) => Some(&self.rules[i]),
            None => None,
        }
    }

    /// The first site rule whose host `host` matches (suffix at a label
    /// boundary).
    pub fn site_rule_for(&self, host: &str) -> (r: Option<&SiteRule>)
        ensures
            r matches Some(x) ==> site_for(site_views(self.site_rules@), host@, 0) matches Some(i)
                && *x == self.site_rules@[i],
            r is None ==> site_for(site_views(self.site_rules@), host@, 0) is None,
    {
        match find_site_for(&self.site_rules, host) {
            Some(i) => Some(&self.site_rules[i]),
            None => None,
        }
    }

    /// Where the current target's rate is remembered: the active tab's host
    /// for browsers with media, the process name otherwise.
    pub fn memory_key(&self) -> (r: Option<String>)
        ensures
            r matches Some(k) ==> memory_key_spec(*self) == Some(k@),
            r is None ==> memory_key_spec(*self) is None,
    {
        let target = match &self.current {
            Some(t) => t,
            None => {
                return None;
            },
        };
        let idx = match self.current_rule_index() {
            Some(i) => i,
            None => {
                return None;
            },
        };
        if self.rules[idx].kind == AppKind::Browser {
            match find_key(&self.browser_media, target.process_name.as_str()) {
                Some(j) => {
                    let m = &self.browser_media[j].1;
                    if m.has_media && !m.host.as_str().is_empty() {
                        return Some(m.host.clone());
                    }
                },
                None => {},
            }
        }
        Some(target.process_name.clone())
    }

    /// Records the current rate for the current target after a user change.
    /// Returns whether the memory changed (the caller then schedules a save).
    pub fn remember_rate(&mut self) -> (changed: bool)
        requires
            old(self).memory_seq < u64::MAX,
        ensures
            changed == (old(self).settings.remember_per_app && memory_key_spec(*old(self)) is Some
                && lookup(old(self).memory@, memory_key_spec(*old(self))->0) != Some(old(self).rate)),
            changed ==> lookup(final(self).memory@, memory_key_spec(*old(self))->0) == Some(old(self).rate)
                && final(self).memory_seq == old(self).memory_seq + 1,
            changed ==> forall|k: Seq<char>|
                k != memory_key_spec(*old(self))->0 ==> #[trigger] lookup(final(self).memory@, k) == lookup(
                    old(self).memory@,
                    k,
                ),
            !changed ==> final(self).memory@ == old(self).memory@ && final(self).memory_seq == old(self).memory_seq,
            keys_unique(old(self).memory@) ==> keys_unique(final(self).memory@),
            final(self).rate == old(self).rate,
            final(self).site_rules@ == old(self).site_rules@,
            final(self).shortcuts == old(self).shortcuts,
            final(self).conflicts@ == old(self).conflicts@,
            final(self).hotkeys_enabled == old(self).hotkeys_enabled,
            final(self).slowdown_at == old(self).slowdown_at,
            final(self).osd_seq == old(self).osd_seq,
            final(self).current == old(self).current,
            final(self).rules@ == old(self).rules@,
            final(self).browser_media@ == old(self).browser_media@,
            final(self).settings == old(self).settings,
            final(self).listening == old(self).listening,
            final(self).connected_browsers@ == old(self).connected_browsers@,
    {
        if !self.settings.remember_per_app {
            return false;
        }
        let key = match self.memory_key() {
            Some(k) => k,
            None => {
                return false;
            },
        };
        match find_key(&self.memory, key.as_str()) {
            Some(i) => {
                if self.memory[i].1 == self.rate {
                    proof {
                        lemma_key_index(self.memory@, key@, 0);
                    }
                    return false;
                }
            },
            None => {},
        }
        let ghost before = self.memory@;
        let ghost kv = key@;
        let rate = self.rate;
        store(&mut self.memory, key, rate);
        proof {
            law_lookup_after_store(before, key, rate, kv);
            assert forall|k: Seq<char>| k != kv implies #[trigger] lookup(self.memory@, k) == lookup(before, k) by {
                law_lookup_after_store(before, key, rate, k);
            }
        }
        self.memory_seq = self.memory_seq + 1;
        true
    }

    /// The control page's current media session; `None` while listening is off
    /// or without a target. `rate` is the read-back of a player channel, if any.
    pub fn current_session(&self, rate: Option<u32>) -> (r: Option<MediaSession>)
        ensures
            r matches Some(s) ==> session_spec(*self, rate) == Some(session_view(s)),
            r is None ==> session_spec(*self, rate) is None,
    {
        if !self.listening {
            return None;
        }
        let target = match &self.current {
            Some(t) => t,
            None => {
                return None;
            },
        };
        let idx = match self.current_rule_index() {
            Some(i) => i,
            None => {
                return None;
            },
        };
        let rule = &self.rules[idx];
        if rule.kind == AppKind::Browser {
            let connected = contains_name(&self.connected_browsers, target.process_name.as_str());
            let media: Option<&BrowserMedia> = match find_key(&self.browser_media, target.process_name.as_str()) {
                Some(j) => if self.browser_media[j].1.has_media {
                    Some(&self.browser_media[j].1)
                } else {
                    None
                },
                None => None,
            };
            let name = match media {
                Some(m) => m.title.clone(),
                None => rule.name.clone(),
            };
            let source = match media {
                Some(m) => m.host.clone(),
                None => target.process_name.clone(),
            };
            let mrate = match media {
                Some(m) => Some(m.rate),
                None => None,
            };
            return Some(
                MediaSession {
                    app_id: rule.id.clone(),
                    name,
                    source,
                    kind: rule.kind,
                    status: if connected {
                        AppStatus::Connected
                    } else {
                        AppStatus::NeedsSetup
                    },
                    rate: mrate,
                    can_read_back: media.is_some(),
                },
            );
        }
        Some(
            MediaSession {
                app_id: rule.id.clone(),
                name: rule.name.clone(),
                source: target.process_name.clone(),
                kind: rule.kind,
                status: rule.status(),
                rate,
                can_read_back: rate.is_some(),
            },
        )
    }
}

/// Remembering twice in a row changes nothing the second time: the first call
/// stores the rate under the current key, so the second finds it there.
pub proof fn law_remember_is_idempotent(c: Core, after: Core)
    requires
        c.settings.remember_per_app,
        memory_key_spec(c) is Some,
        lookup(after.memory@, memory_key_spec(c)->0) == Some(c.rate),
        after.rate == c.rate,
        after.current == c.current,
        after.rules@ == c.rules@,
        after.browser_media@ == c.browser_media@,
        after.settings == c.settings,
    ensures
        memory_key_spec(after) == memory_key_spec(c),
        !(after.settings.remember_per_app && memory_key_spec(after) is Some && lookup(
            after.memory@,
            memory_key_spec(after)->0,
        ) != Some(after.rate)),
{
}

} // verus!
