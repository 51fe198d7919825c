//! Application rules: who a process is, which channel controls it (control
//! interface first, key presses as fallback) and which keys to press.

use vstd::prelude::*;
use crate::grid::{KeyBindings, KeyRateGrid, RateAnchor};
use crate::ladder::{ladder_step, ladder_step_spec};
use crate::text::{owned, str_eq, to_lowercase, lowercased};

verus! {

#[derive(Debug, Clone, Copy, PartialEq, Eq, Structural)]
pub enum AppKind {
    Browser,
    Player,
    /// Platform desktop clients (Chromium shells driven over CDP).
    Client,
    Unknown,
}

/// Take-over state: extension connected / rule usable / a channel is missing.
#[derive(Debug, Clone, Copy, PartialEq, Eq, Structural)]
pub enum AppStatus {
    Connected,
    Adapted,
    NeedsSetup,
}

/// Control method; `Auto` tries the control interface first and falls back to
/// key presses.
#[derive(Debug, Clone, Copy, PartialEq, Eq, Structural)]
pub enum RuleMethod {
    Auto,
    Ipc,
    Hotkey,
    Extension,
}

#[derive(Debug, Clone, Copy, PartialEq, Eq, Structural)]
pub enum IpcKind {
    MpvIpc,
    VlcHttp,
    WmCommand,
    /// DevTools debugging port of a Chromium shell (`port`).
    Cdp,
    /// No control interface.
    NoIpc,
}

/// Control-interface parameters (each kind uses its own field).
#[derive(Debug, Clone, PartialEq)]
pub struct IpcSettings {
    pub pipe: Option<String>,
    pub port: Option<u16>,
    pub password: Option<String>,
}

#[derive(Debug, Clone)]
pub struct AppRule {
    pub id: String,
    pub name: String,
    /// Lower-case main process name, e.g. `vlc.exe`.
    pub process: String,
    /// Other process names of the same software.
    pub aliases: Vec<String>,
    pub kind: AppKind,
    pub method: RuleMethod,
    pub ipc: IpcKind,
    pub ipc_config: Option<IpcSettings>,
    pub keys: Option<KeyBindings>,
    /// Rate grid of the player's own keys; comes from code, never from saved
    /// configuration.
    pub key_rate: Option<KeyRateGrid>,
    /// Exact rates the control channel sets in one message (ascending); comes
    /// from code, never from saved configuration.
    pub rate_ladder: Option<Vec<u32>>,
    pub builtin: bool,
}

/// Content of a key grid.
pub struct GridView {
    pub anchors: Seq<RateAnchor>,
    pub step: u32,
    pub min: u32,
    pub max: u32,
    pub step_gap_ms: u64,
}

pub open spec fn grid_view(g: KeyRateGrid) -> GridView {
    GridView { anchors: g.anchors@, step: g.step, min: g.min, max: g.max, step_gap_ms: g.step_gap_ms }
}

pub open spec fn opt_grid_view(g: Option<KeyRateGrid>) -> Option<GridView> {
    match g {
        Some(x) => Some(grid_view(x)),
        None => None,
    }
}

pub open spec fn opt_ladder_view(l: Option<Vec<u32>>) -> Option<Seq<u32>> {
    match l {
        Some(x) => Some(x@),
        None => None,
    }
}

/// Content of a rule.
pub struct AppRuleView {
    pub id: Seq<char>,
    pub name: Seq<char>,
    pub process: Seq<char>,
    pub aliases: Seq<Seq<char>>,
    pub kind: AppKind,
    pub method: RuleMethod,
    pub ipc: IpcKind,
    pub ipc_config: Option<IpcSettings>,
    pub keys: Option<KeyBindings>,
    pub key_rate: Option<GridView>,
    pub rate_ladder: Option<Seq<u32>>,
    pub builtin: bool,
}

impl View for AppRule {
    type V = AppRuleView;

    open spec fn view(&self) -> AppRuleView {
        AppRuleView {
            id: self.id@,
            name: self.name@,
            process: self.process@,
            aliases: self.aliases@.map_values(|a: String| a@),
            kind: self.kind,
            method: self.method,
            ipc: self.ipc,
            ipc_config: self.ipc_config,
            keys: self.keys,
            key_rate: opt_grid_view(self.key_rate),
            rate_ladder: opt_ladder_view(self.rate_ladder),
            builtin: self.builtin,
        }
    }
}

/// Contents of a rule list.
pub open spec fn rule_views(rules: Seq<AppRule>) -> Seq<AppRuleView> {
    rules.map_values(|r: AppRule| r@)
}

pub fn clone_opt_string(o: &Option<String>) -> (r: Option<String>)
    ensures
        r == *o,
{
    match o {
        Some(s) => Some(s.clone()),
        None => None,
    }
}

pub fn clone_strings(v: &Vec<String>) -> (r: Vec<String>)
    ensures
        r@ == v@,
{
    let mut r: Vec<String> = Vec::new();
    let mut i: usize = 0;
    while i < v.len()
        invariant
            i <= v.len(),
            r@ == v@.subrange(0, i as int),
        decreases v.len() - i,
    {
        r.push(v[i].clone());
        assert(v@.subrange(0, i + 1) =~= v@.subrange(0, i as int).push(v@[i as int]));
        i = i + 1;
    }
    assert(v@.subrange(0, v.len() as int) =~= v@);
    r
}

pub fn clone_rates(v: &Vec<u32>) -> (r: Vec<u32>)
    ensures
        r@ == v@,
{
    let mut r: Vec<u32> = Vec::new();
    let mut i: usize = 0;
    while i < v.len()
        invariant
            i <= v.len(),
            r@ == v@.subrange(0, i as int),
        decreases v.len() - i,
    {
        r.push(v[i]);
        assert(v@.subrange(0, i + 1) =~= v@.subrange(0, i as int).push(v@[i as int]));
        i = i + 1;
    }
    assert(v@.subrange(0, v.len() as int) =~= v@);
    r
}

impl IpcSettings {
    pub fn duplicate(&self) -> (r: Self)
        ensures
            r == *self,
    {
        IpcSettings {
            pipe: clone_opt_string(&self.pipe),
            port: self.port,
            password: clone_opt_string(&self.password),
        }
    }
}

pub fn clone_opt_settings(o: &Option<IpcSettings>) -> (r: Option<IpcSettings>)
    ensures
        r == *o,
{
    match o {
        Some(s) => Some(s.duplicate()),
        None => None,
    }
}

impl KeyBindings {
    pub fn duplicate(&self) -> (r: Self)
        ensures
            r == *self,
    {
        KeyBindings { up: self.up.clone(), down: self.down.clone(), reset: self.reset.clone() }
    }
}

pub fn clone_opt_keys(o: &Option<KeyBindings>) -> (r: Option<KeyBindings>)
    ensures
        r == *o,
{
    match o {
        Some(k) => Some(k.duplicate()),
        None => None,
    }
}

impl KeyRateGrid {
    pub fn duplicate(&self) -> (r: Self)
        ensures
            r.anchors@ == self.anchors@,
            r.step == self.step,
            r.min == self.min,
            r.max == self.max,
            r.step_gap_ms == self.step_gap_ms,
    {
        let mut anchors: Vec<RateAnchor> = Vec::new();
        let mut i: usize = 0;
        while i < self.anchors.len()
            invariant
                i <= self.anchors.len(),
                anchors@ == self.anchors@.subrange(0, i as int),
            decreases self.anchors.len() - i,
        {
            anchors.push(RateAnchor { key: self.anchors[i].key.clone(), rate: self.anchors[i].rate });
            assert(self.anchors@.subrange(0, i + 1) =~= self.anchors@.subrange(0, i as int).push(
                self.anchors@[i as int],
            ));
            i = i + 1;
        }
        assert(self.anchors@.subrange(0, self.anchors.len() as int) =~= self.anchors@);
        KeyRateGrid {
            anchors,
            step: self.step,
            min: self.min,
            max: self.max,
            step_gap_ms: self.step_gap_ms,
        }
    }
}

/// Two grids with the same content.
pub open spec fn same_grid(a: KeyRateGrid, b: KeyRateGrid) -> bool {
    &&& a.anchors@ == b.anchors@
    &&& a.step == b.step
    &&& a.min == b.min
    &&& a.max == b.max
    &&& a.step_gap_ms == b.step_gap_ms
}

pub open spec fn same_opt_grid(a: Option<KeyRateGrid>, b: Option<KeyRateGrid>) -> bool {
    match (a, b) {
        (Some(x), Some(y)) => same_grid(x, y),
        (None, None) => true,
        _ => false,
    }
}

pub open spec fn same_opt_ladder(a: Option<Vec<u32>>, b: Option<Vec<u32>>) -> bool {
    match (a, b) {
        (Some(x), Some(y)) => x@ == y@,
        (None, None) => true,
        _ => false,
    }
}

pub fn clone_opt_grid(o: &Option<KeyRateGrid>) -> (r: Option<KeyRateGrid>)
    ensures
        same_opt_grid(r, *o),
{
    match o {
        Some(g) => Some(g.duplicate()),
        None => None,
    }
}

pub fn clone_opt_ladder(o: &Option<Vec<u32>>) -> (r: Option<Vec<u32>>)
    ensures
        same_opt_ladder(r, *o),
{
    match o {
        Some(l) => Some(clone_rates(l)),
        None => None,
    }
}

/// Whether a list of names holds `name`.
pub open spec fn names_contain(v: Seq<String>, name: Seq<char>) -> bool {
    exists|i: int| 0 <= i < v.len() && #[trigger] v[i]@ == name
}

pub fn contains_name(v: &Vec<String>, name: &str) -> (r: bool)
    ensures
        r == names_contain(v@, name@),
{
    let mut i: usize = 0;
    while i < v.len()
        invariant
            i <= v.len(),
            forall|j: int| 0 <= j < i ==> #[trigger] v@[j]@ != name@,
        decreases v.len() - i,
    {
        if str_eq(v[i].as_str(), name) {
            return true;
        }
        i = i + 1;
    }
    false
}

/// Whether a rule claims a process name (main name or alias).
pub open spec fn rule_matches(rule: AppRule, name: Seq<char>) -> bool {
    rule.process@ == name || names_contain(rule.aliases@, name)
}

/// Whether the rule's channel can read the real rate back.
pub open spec fn can_read_back_spec(rule: AppRule) -> bool {
    (rule.method == RuleMethod::Auto || rule.method == RuleMethod::Ipc) && match rule.ipc {
        IpcKind::MpvIpc | IpcKind::VlcHttp | IpcKind::Cdp => true,
        IpcKind::WmCommand => rule.id@ == "potplayer"@,
        IpcKind::NoIpc => false,
    }
}

/// Take-over state of a rule (browsers wait for the extension; a player is
/// adapted as soon as it has a control interface or keys).
pub open spec fn status_spec(rule: AppRule) -> AppStatus {
    if rule.kind == AppKind::Browser {
        AppStatus::NeedsSetup
    } else if rule.ipc != IpcKind::NoIpc || rule.keys is Some {
        AppStatus::Adapted
    } else {
        AppStatus::NeedsSetup
    }
}

/// Label shown for the control method.
pub open spec fn method_label_spec(rule: AppRule) -> Seq<char> {
    match rule.method {
        RuleMethod::Extension => "浏览器扩展"@,
        RuleMethod::Hotkey => if rule.key_rate is Some {
            "播放器快捷键 · 精确设速"@
        } else {
            "快捷键"@
        },
        RuleMethod::Ipc => if rule.ipc == IpcKind::Cdp {
            "CDP 接管"@
        } else {
            "IPC 接口"@
        },
        RuleMethod::Auto => if rule.ipc == IpcKind::Cdp {
            "CDP 接管"@
        } else if rule.rate_ladder is Some {
            "控制消息 · 档位设速"@
        } else if rule.ipc != IpcKind::NoIpc {
            "IPC 接口 · 按键兜底"@
        } else {
            "快捷键"@
        },
    }
}

impl AppRule {
    pub fn duplicate(&self) -> (r: Self)
        ensures
            r@ == self@,
    {
        AppRule {
            id: self.id.clone(),
            name: self.name.clone(),
            process: self.process.clone(),
            aliases: clone_strings(&self.aliases),
            kind: self.kind,
            method: self.method,
            ipc: self.ipc,
            ipc_config: clone_opt_settings(&self.ipc_config),
            keys: clone_opt_keys(&self.keys),
            key_rate: clone_opt_grid(&self.key_rate),
            rate_ladder: clone_opt_ladder(&self.rate_ladder),
            builtin: self.builtin,
        }
    }

    /// Whether this rule claims the process (its main name or an alias).
    pub fn matches(&self, process_name: &str) -> (r: bool)
        ensures
            r == rule_matches(*self, process_name@),
    {
        str_eq(self.process.as_str(), process_name) || contains_name(&self.aliases, process_name)
    }

    /// One hotkey press along the rule's rate ladder (`dir`: `+1` / `-1`);
    /// `None` without a ladder or for `dir == 0`.
    pub fn ladder_step(&self, from: u32, dir: i32) -> (r: Option<u32>)
        ensures
            r == (match self.rate_ladder {
                Some(l) => ladder_step_spec(l@, from as int, dir as int),
                None => None,
            }),
    {
        match &self.rate_ladder {
            Some(l) => ladder_step(l.as_slice(), from, dir),
            None => None,
        }
    }

    /// Whether the rule has a channel that reads the real rate back: decides
    /// whether hotkey steps are quantised to the key grid first.
    pub fn can_read_back_rate(&self) -> (r: bool)
        ensures
            r == can_read_back_spec(*self),
    {
        match self.method {
            RuleMethod::Auto | RuleMethod::Ipc => {},
            _ => {
                return false;
            },
        }
        match self.ipc {
            IpcKind::MpvIpc | IpcKind::VlcHttp | IpcKind::Cdp => true,
            IpcKind::WmCommand => str_eq(self.id.as_str(), "potplayer"),
            IpcKind::NoIpc => false,
        }
    }

    /// Take-over state derived from the rule.
    pub fn status(&self) -> (r: AppStatus)
        ensures
            r == status_spec(*self),
    {
        match self.kind {
            AppKind::Browser => AppStatus::NeedsSetup,
            _ => {
                if self.ipc != IpcKind::NoIpc || self.keys.is_some() {
                    AppStatus::Adapted
                } else {
                    AppStatus::NeedsSetup
                }
            },
        }
    }

    /// Label shown for the control method.
    pub fn method_label(&self) -> (r: String)
        ensures
            r@ == method_label_spec(*self),
    {
        match self.method {
            RuleMethod::Extension => String::from_str("浏览器扩展"),
            RuleMethod::Hotkey => {
                if self.key_rate.is_some() {
                    String::from_str("播放器快捷键 · 精确设速")
                } else {
                    String::from_str("快捷键")
                }
            },
            RuleMethod::Ipc => {
                if self.ipc == IpcKind::Cdp {
                    String::from_str("CDP 接管")
                } else {
                    String::from_str("IPC 接口")
                }
            },
            RuleMethod::Auto => {
                if self.ipc == IpcKind::Cdp {
                    String::from_str("CDP 接管")
                } else if self.rate_ladder.is_some() {
                    String::from_str("控制消息 · 档位设速")
                } else if self.ipc != IpcKind::NoIpc {
                    String::from_str("IPC 接口 · 按键兜底")
                } else {
                    String::from_str("快捷键")
                }
            },
        }
    }
}


fn keys3(up: &str, down: &str, reset: &str) -> (r: Option<KeyBindings>)
    ensures
        r matches Some(k) && k.up@ == up@ && k.down@ == down@ && k.reset@ == reset@,
{
    Some(KeyBindings { up: owned(up), down: owned(down), reset: owned(reset) })
}

fn anchor(key: &str, rate: u32) -> (r: RateAnchor)
    ensures
        r.key@ == key@,
        r.rate == rate,
{
    RateAnchor { key: owned(key), rate }
}

fn rule(
    id: &str,
    name: &str,
    process: &str,
    aliases: Vec<String>,
    kind: AppKind,
    method: RuleMethod,
    ipc: IpcKind,
) -> (r: AppRule)
    ensures
        r.id@ == id@,
        r.name@ == name@,
        r.process@ == process@,
        r.aliases@ == aliases@,
        r.kind == kind,
        r.method == method,
        r.ipc == ipc,
        r.ipc_config is None,
        r.keys is None,
        r.key_rate is None,
        r.rate_ladder is None,
        r.builtin,
{
    AppRule {
        id: owned(id),
        name: owned(name),
        process: owned(process),
        aliases,
        kind,
        method,
        ipc,
        ipc_config: None,
        keys: None,
        key_rate: None,
        rate_ladder: None,
        builtin: true,
    }
}

fn names1(a: &str) -> (r: Vec<String>)
    ensures
        r@.len() == 1,
        r@[0]@ == a@,
{
    let mut v: Vec<String> = Vec::new();
    v.push(owned(a));
    v
}

pub open spec fn opt_seq(o: Option<String>) -> Option<Seq<char>> {
    match o {
        Some(s) => Some(s@),
        None => None,
    }
}

pub open spec fn keys_are(k: Option<KeyBindings>, up: Seq<char>, down: Seq<char>, reset: Seq<char>) -> bool {
    k matches Some(b) && b.up@ == up && b.down@ == down && b.reset@ == reset
}

pub open spec fn rule_is(
    r: AppRule,
    id: Seq<char>,
    process: Seq<char>,
    kind: AppKind,
    method: RuleMethod,
    ipc: IpcKind,
) -> bool {
    &&& r.id@ == id
    &&& r.process@ == process
    &&& r.kind == kind
    &&& r.method == method
    &&& r.ipc == ipc
    &&& r.builtin
}

/// The built-in table, entry by entry.
pub open spec fn builtin_rules_spec(r: Seq<AppRule>) -> bool {
    &&& r.len() == 10
    &&& r[0].name@ == "mpv"@
    &&& r[1].name@ == "VLC media player"@
    &&& r[2].name@ == "PotPlayer"@
    &&& r[3].name@ == "MPC-HC"@
    &&& r[4].name@ == "MPC-BE"@
    &&& r[5].name@ == "哔哩哔哩桌面端"@
    &&& r[6].name@ == "百度网盘"@
    &&& r[7].name@ == "Google Chrome"@
    &&& r[8].name@ == "Microsoft Edge"@
    &&& r[9].name@ == "Firefox"@
    &&& rule_is(r[0], "mpv"@, "mpv.exe"@, AppKind::Player, RuleMethod::Auto, IpcKind::MpvIpc)
    &&& r[0].aliases@.len() == 1 && r[0].aliases@[0]@ == "mpvnet.exe"@
    &&& r[0].ipc_config matches Some(c) && opt_seq(c.pipe) == Some("\\\\.\\pipe\\mpvsocket"@)
        && c.port is None && c.password is None
    &&& keys_are(r[0].keys, "]"@, "["@, "Backspace"@)
    &&& r[0].key_rate is None && r[0].rate_ladder is None
    &&& rule_is(r[1], "vlc"@, "vlc.exe"@, AppKind::Player, RuleMethod::Auto, IpcKind::VlcHttp)
    &&& r[1].aliases@.len() == 0
    &&& r[1].ipc_config matches Some(c) && c.pipe is None && c.port == Some(8080u16)
        && c.password is None
    &&& keys_are(r[1].keys, "]"@, "["@, "="@)
    &&& r[1].key_rate matches Some(g) && g.anchors@.len() == 1 && g.anchors@[0].key@ == "="@
        && g.anchors@[0].rate == 1000 && g.step == 100 && g.min == 250 && g.max == 2100
        && g.step_gap_ms == 20
    &&& r[1].rate_ladder is None
    &&& rule_is(
        r[2],
        "potplayer"@,
        "potplayermini64.exe"@,
        AppKind::Player,
        RuleMethod::Auto,
        IpcKind::WmCommand,
    )
    &&& r[2].aliases@.len() == 3 && r[2].aliases@[0]@ == "potplayermini.exe"@
        && r[2].aliases@[1]@ == "potplayer64.exe"@ && r[2].aliases@[2]@ == "potplayer.exe"@
    &&& r[2].ipc_config is None
    &&& keys_are(r[2].keys, "C"@, "X"@, "Z"@)
    &&& r[2].key_rate is None && r[2].rate_ladder is None
    &&& rule_is(r[3], "mpc-hc"@, "mpc-hc64.exe"@, AppKind::Player, RuleMethod::Auto, IpcKind::WmCommand)
    &&& r[3].aliases@.len() == 1 && r[3].aliases@[0]@ == "mpc-hc.exe"@
    &&& r[3].ipc_config is None
    &&& keys_are(r[3].keys, "Ctrl+Up"@, "Ctrl+Down"@, "R"@)
    &&& r[3].key_rate is None
    &&& r[3].rate_ladder matches Some(l) && l@ == crate::mpc_hc::ladder_rates()
    &&& rule_is(r[4], "mpc-be"@, "mpc-be64.exe"@, AppKind::Player, RuleMethod::Auto, IpcKind::WmCommand)
    &&& r[4].aliases@.len() == 1 && r[4].aliases@[0]@ == "mpc-be.exe"@
    &&& r[4].ipc_config is None
    &&& keys_are(r[4].keys, "Ctrl+Up"@, "Ctrl+Down"@, "R"@)
    &&& r[4].key_rate is None && r[4].rate_ladder is None
    &&& rule_is(r[5], "bilibili-client"@, "哔哩哔哩.exe"@, AppKind::Client, RuleMethod::Ipc, IpcKind::Cdp)
    &&& r[5].aliases@.len() == 1 && r[5].aliases@[0]@ == "bilibili.exe"@
    &&& r[5].ipc_config matches Some(c) && c.pipe is None && c.port == Some(9333u16)
        && c.password is None
    &&& r[5].keys is None && r[5].key_rate is None && r[5].rate_ladder is None
    &&& rule_is(
        r[6],
        "baidu-netdisk"@,
        "baidunetdiskunite.exe"@,
        AppKind::Client,
        RuleMethod::Hotkey,
        IpcKind::NoIpc,
    )
    &&& r[6].aliases@.len() == 1 && r[6].aliases@[0]@ == "baidunetdisk.exe"@
    &&& r[6].ipc_config is None
    &&& keys_are(r[6].keys, "."@, ","@, "1"@)
    &&& r[6].key_rate matches Some(g) && g.anchors@.len() == 5 && g.anchors@[0].key@ == "1"@
        && g.anchors@[0].rate == 1000 && g.anchors@[1].key@ == "2"@ && g.anchors@[1].rate == 2000
        && g.anchors@[2].key@ == "3"@ && g.anchors@[2].rate == 3000 && g.anchors@[3].key@ == "4"@
        && g.anchors@[3].rate == 4000 && g.anchors@[4].key@ == "5"@ && g.anchors@[4].rate == 5000
        && g.step == 100 && g.min == 500 && g.max == 5000 && g.step_gap_ms == 150
    &&& r[6].rate_ladder is None
    &&& rule_is(r[7], "chrome"@, "chrome.exe"@, AppKind::Browser, RuleMethod::Extension, IpcKind::NoIpc)
    &&& rule_is(r[8], "edge"@, "msedge.exe"@, AppKind::Browser, RuleMethod::Extension, IpcKind::NoIpc)
    &&& rule_is(r[9], "firefox"@, "firefox.exe"@, AppKind::Browser, RuleMethod::Extension, IpcKind::NoIpc)
    &&& forall|i: int| 7 <= i < 10 ==> (#[trigger] r[i]).aliases@.len() == 0 && r[i].ipc_config is None
        && r[i].keys is None && r[i].key_rate is None && r[i].rate_ladder is None
}

/// The built-in rule table: mpv, VLC, PotPlayer, MPC-HC, MPC-BE, the bilibili
/// and Baidu Netdisk desktop clients, and the three browsers. Keys are each
/// player's factory defaults.
pub fn built_in_rules() -> (r: Vec<AppRule>)
    ensures
        builtin_rules_spec(r@),
{
    let mut v: Vec<AppRule> = Vec::new();

    let mut mpv = rule(
        "mpv",
        "mpv",
        "mpv.exe",
        names1("mpvnet.exe"),
        AppKind::Player,
        RuleMethod::Auto,
        IpcKind::MpvIpc,
    );
    mpv.ipc_config = Some(
        IpcSettings { pipe: Some(owned("\\\\.\\pipe\\mpvsocket")), port: None, password: None },
    );
    mpv.keys = keys3("]", "[", "Backspace");
    v.push(mpv);

    let mut vlc = rule(
        "vlc",
        "VLC media player",
        "vlc.exe",
        Vec::new(),
        AppKind::Player,
        RuleMethod::Auto,
        IpcKind::VlcHttp,
    );
    vlc.ipc_config = Some(IpcSettings { pipe: None, port: Some(8080), password: None });
    vlc.keys = keys3("]", "[", "=");
    let mut vlc_anchors: Vec<RateAnchor> = Vec::new();
    vlc_anchors.push(anchor("=", 1000));
    vlc.key_rate = Some(
        KeyRateGrid { anchors: vlc_anchors, step: 100, min: 250, max: 2100, step_gap_ms: 20 },
    );
    v.push(vlc);

    let mut pot_aliases: Vec<String> = Vec::new();
    pot_aliases.push(owned("potplayermini.exe"));
    pot_aliases.push(owned("potplayer64.exe"));
    pot_aliases.push(owned("potplayer.exe"));
    let mut pot = rule(
        "potplayer",
        "PotPlayer",
        "potplayermini64.exe",
        pot_aliases,
        AppKind::Player,
        RuleMethod::Auto,
        IpcKind::WmCommand,
    );
    pot.keys = keys3("C", "X", "Z");
    v.push(pot);

    let mut hc = rule(
        "mpc-hc",
        "MPC-HC",
        "mpc-hc64.exe",
        names1("mpc-hc.exe"),
        AppKind::Player,
        RuleMethod::Auto,
        IpcKind::WmCommand,
    );
    hc.keys = keys3("Ctrl+Up", "Ctrl+Down", "R");
    hc.rate_ladder = Some(crate::mpc_hc::rate_ladder());
    v.push(hc);

    let mut be = rule(
        "mpc-be",
        "MPC-BE",
        "mpc-be64.exe",
        names1("mpc-be.exe"),
        AppKind::Player,
        RuleMethod::Auto,
        IpcKind::WmCommand,
    );
    be.keys = keys3("Ctrl+Up", "Ctrl+Down", "R");
    v.push(be);

    let mut bili = rule(
        "bilibili-client",
        "哔哩哔哩桌面端",
        "哔哩哔哩.exe",
        names1("bilibili.exe"),
        AppKind::Client,
        RuleMethod::Ipc,
        IpcKind::Cdp,
    );
    bili.ipc_config = Some(IpcSettings { pipe: None, port: Some(9333), password: None });
    v.push(bili);

    let mut baidu = rule(
        "baidu-netdisk",
        "百度网盘",
        "baidunetdiskunite.exe",
        names1("baidunetdisk.exe"),
        AppKind::Client,
        RuleMethod::Hotkey,
        IpcKind::NoIpc,
    );
    baidu.keys = keys3(".", ",", "1");
    let mut baidu_anchors: Vec<RateAnchor> = Vec::new();
    baidu_anchors.push(anchor("1", 1000));
    baidu_anchors.push(anchor("2", 2000));
    baidu_anchors.push(anchor("3", 3000));
    baidu_anchors.push(anchor("4", 4000));
    baidu_anchors.push(anchor("5", 5000));
    baidu.key_rate = Some(
        KeyRateGrid { anchors: baidu_anchors, step: 100, min: 500, max: 5000, step_gap_ms: 150 },
    );
    v.push(baidu);

    v.push(
        rule(
            "chrome",
            "Google Chrome",
            "chrome.exe",
            Vec::new(),
            AppKind::Browser,
            RuleMethod::Extension,
            IpcKind::NoIpc,
        ),
    );
    v.push(
        rule(
            "edge",
            "Microsoft Edge",
            "msedge.exe",
            Vec::new(),
            AppKind::Browser,
            RuleMethod::Extension,
            IpcKind::NoIpc,
        ),
    );
    v.push(
        rule(
            "firefox",
            "Firefox",
            "firefox.exe",
            Vec::new(),
            AppKind::Browser,
            RuleMethod::Extension,
            IpcKind::NoIpc,
        ),
    );
    v
}


/// Index of the first rule at or after `i` with the given id.
pub open spec fn find_id(rules: Seq<AppRuleView>, id: Seq<char>, i: int) -> Option<int>
    decreases rules.len() - i,
{
    if i < 0 || i >= rules.len() {
        None
    } else if rules[i].id == id {
        Some(i)
    } else {
        find_id(rules, id, i + 1)
    }
}

/// One saved rule merged into the table: a known id takes over the editable
/// fields (method, control interface and its settings, keys); an unknown id
/// is appended as a custom rule.
pub open spec fn merge_one(rules: Seq<AppRuleView>, s: AppRuleView) -> Seq<AppRuleView> {
    match find_id(rules, s.id, 0) {
        Some(j) => rules.update(
            j,
            AppRuleView {
                method: s.method,
                ipc: s.ipc,
                ipc_config: s.ipc_config,
                keys: s.keys,
                ..rules[j]
            },
        ),
        None => rules.push(AppRuleView { builtin: false, ..s }),
    }
}

/// All saved rules merged into the table, in order.
pub open spec fn merge_all(rules: Seq<AppRuleView>, saved: Seq<AppRuleView>) -> Seq<AppRuleView>
    decreases saved.len(),
{
    if saved.len() == 0 {
        rules
    } else {
        merge_one(merge_all(rules, saved.drop_last()), saved.last())
    }
}

proof fn lemma_find_id(rules: Seq<AppRuleView>, id: Seq<char>, i: int)
    requires
        0 <= i,
    ensures
        find_id(rules, id, i) matches Some(j) ==> i <= j < rules.len() && rules[j].id == id,
        find_id(rules, id, i) is None ==> forall|k: int| i <= k < rules.len() ==> rules[k].id != id,
    decreases rules.len() - i,
{
    if i < rules.len() && rules[i].id != id {
        lemma_find_id(rules, id, i + 1);
    }
}

/// Position of the first rule with the given id.
pub fn find_rule(rules: &Vec<AppRule>, id: &String) -> (r: Option<usize>)
    ensures
        r matches Some(j) ==> find_id(rule_views(rules@), id@, 0) == Some(j as int),
        r is None ==> find_id(rule_views(rules@), id@, 0) is None,
{
    let ghost v = rule_views(rules@);
    proof {
        lemma_find_id(v, id@, 0);
    }
    let mut j: usize = 0;
    while j < rules.len()
        invariant
            j <= rules.len(),
            v == rule_views(rules@),
            find_id(v, id@, 0) == find_id(v, id@, j as int),
        decreases rules.len() - j,
    {
        if rules[j].id == *id {
            return Some(j);
        }
        j = j + 1;
    }
    None
}

/// Where the first rule with `id` at or after `i` stands.
pub proof fn lemma_find_id_pub(rules: Seq<AppRuleView>, id: Seq<char>, i: int)
    requires
        0 <= i,
    ensures
        find_id(rules, id, i) matches Some(j) ==> i <= j < rules.len() && rules[j].id == id,
{
    lemma_find_id(rules, id, i);
}

/// Merges saved rules into the built-in table. Built-in entries keep what comes
/// from code (process, kind, key grid, rate ladder); the saved copy only
/// overrides the editable fields. Unknown ids are appended as custom rules.
pub fn merge_saved(rules: &mut Vec<AppRule>, saved: Vec<AppRule>)
    ensures
        rule_views(final(rules)@) == merge_all(rule_views(old(rules)@), rule_views(saved@)),
{
    let ghost start = rule_views(rules@);
    let mut i: usize = 0;
    while i < saved.len()
        invariant
            i <= saved.len(),
            rule_views(rules@) == merge_all(start, rule_views(saved@).subrange(0, i as int)),
        decreases saved.len() - i,
    {
        let s = &saved[i];
        let ghost before = rule_views(rules@);
        proof {
            lemma_find_id(before, s.id@, 0);
        }
        let found = find_rule(rules, &s.id);
        if let Some(j) = found {
            let old_rule = rules[j].duplicate();
            let updated = AppRule {
                method: s.method,
                ipc: s.ipc,
                ipc_config: clone_opt_settings(&s.ipc_config),
                keys: clone_opt_keys(&s.keys),
                ..old_rule
            };
            rules.set(j, updated);
            assert(rule_views(rules@) =~= merge_one(before, s@));
        } else {
            let mut added = s.duplicate();
            added.builtin = false;
            rules.push(added);
            assert(rule_views(rules@) =~= merge_one(before, s@));
        }
        assert(rule_views(saved@).subrange(0, i + 1).drop_last() =~= rule_views(saved@).subrange(
            0,
            i as int,
        ));
        i = i + 1;
    }
    assert(rule_views(saved@).subrange(0, saved.len() as int) =~= rule_views(saved@));
}

/// Code assets survive a merge: every entry present before keeps its id, name,
/// process names, kind, key grid, rate ladder and built-in flag, and whatever
/// the merge appends is a custom rule.
pub proof fn law_merge_keeps_code_assets(rules: Seq<AppRuleView>, saved: Seq<AppRuleView>)
    ensures
        merge_all(rules, saved).len() >= rules.len(),
        forall|k: int|
            0 <= k < rules.len() ==> {
                let n = #[trigger] merge_all(rules, saved)[k];
                &&& n.id == rules[k].id
                &&& n.name == rules[k].name
                &&& n.process == rules[k].process
                &&& n.aliases == rules[k].aliases
                &&& n.kind == rules[k].kind
                &&& n.key_rate == rules[k].key_rate
                &&& n.rate_ladder == rules[k].rate_ladder
                &&& n.builtin == rules[k].builtin
            },
        forall|k: int|
            rules.len() <= k < merge_all(rules, saved).len() ==> !(#[trigger] merge_all(
                rules,
                saved,
            )[k]).builtin,
    decreases saved.len(),
{
    if saved.len() > 0 {
        let prev = merge_all(rules, saved.drop_last());
        law_merge_keeps_code_assets(rules, saved.drop_last());
        lemma_find_id(prev, saved.last().id, 0);
    }
}

/// A saved rule with the id of an entry takes effect on that entry: after the
/// merge the first entry with this id carries the saved method and keys.
pub proof fn law_merge_applies_edits(rules: Seq<AppRuleView>, s: AppRuleView)
    requires
        find_id(rules, s.id, 0) is Some,
    ensures
        ({
            let j = find_id(rules, s.id, 0)->0;
            let m = merge_all(rules, seq![s]);
            &&& m.len() == rules.len()
            &&& m[j].method == s.method
            &&& m[j].keys == s.keys
            &&& m[j].ipc_config == s.ipc_config
        }),
{
    lemma_find_id(rules, s.id, 0);
    assert(seq![s].drop_last() =~= Seq::<AppRuleView>::empty());
    reveal_with_fuel(merge_all, 2);
}



/// Rule edit sent by the apps page.
#[derive(Debug, Clone)]
pub struct AppRulePatch {
    pub id: String,
    pub process: String,
    pub name: String,
    pub method: RuleMethod,
    pub keys: Option<KeyBindings>,
    pub ipc_config: Option<IpcSettings>,
}

/// The table after an edit from the apps page: an existing id takes the new
/// method, keys and interface settings (custom rules also the name and the
/// lower-cased process name); an unknown id becomes a new custom rule that is
/// driven by keys only.
pub open spec fn patch_spec(rules: Seq<AppRuleView>, p: AppRulePatch) -> Seq<AppRuleView> {
    match find_id(rules, p.id@, 0) {
        Some(j) => {
            let r = rules[j];
            let edited = AppRuleView { method: p.method, keys: p.keys, ipc_config: p.ipc_config, ..r };
            rules.update(
                j,
                if r.builtin {
                    edited
                } else {
                    AppRuleView { name: p.name@, process: lowercased(p.process@), ..edited }
                },
            )
        },
        None => rules.push(
            AppRuleView {
                id: p.id@,
                name: p.name@,
                process: lowercased(p.process@),
                aliases: Seq::empty(),
                kind: AppKind::Unknown,
                method: p.method,
                ipc: IpcKind::NoIpc,
                ipc_config: p.ipc_config,
                keys: p.keys,
                key_rate: None,
                rate_ladder: None,
                builtin: false,
            },
        ),
    }
}

/// Applies an edit from the apps page to the rule table.
pub fn apply_rule_patch(rules: &mut Vec<AppRule>, patch: AppRulePatch)
    ensures
        rule_views(final(rules)@) == patch_spec(rule_views(old(rules)@), patch),
{
    let ghost before = rule_views(rules@);
    proof {
        lemma_find_id(before, patch.id@, 0);
    }
    match find_rule(rules, &patch.id) {
        Some(j) => {
            let mut r = rules[j].duplicate();
            r.method = patch.method;
            r.keys = patch.keys;
            r.ipc_config = patch.ipc_config;
            if !r.builtin {
                r.name = patch.name;
                r.process = to_lowercase(patch.process.as_str());
            }
            rules.set(j, r);
            assert(rule_views(rules@) =~= patch_spec(before, patch));
        },
        None => {
            let r = AppRule {
                id: patch.id,
                name: patch.name,
                process: to_lowercase(patch.process.as_str()),
                aliases: Vec::new(),
                kind: AppKind::Unknown,
                method: patch.method,
                ipc: IpcKind::NoIpc,
                ipc_config: patch.ipc_config,
                keys: patch.keys,
                key_rate: None,
                rate_ladder: None,
                builtin: false,
            };
            rules.push(r);
            assert(r.aliases@.map_values(|a: String| a@) =~= Seq::<Seq<char>>::empty());
            assert(rule_views(rules@) =~= patch_spec(before, patch));
        },
    }
}

/// Apps page entry.
#[derive(Debug, Clone)]
pub struct AppInfo {
    pub id: String,
    pub name: String,
    pub process: String,
    pub kind: AppKind,
    pub status: AppStatus,
    pub method: RuleMethod,
    pub method_label: String,
    pub ipc: IpcKind,
    pub running: bool,
    pub builtin: bool,
    pub keys: Option<KeyBindings>,
    pub ipc_config: Option<IpcSettings>,
    /// Present when the player's keys can set exact rates.
    pub key_rate: Option<KeyRateGrid>,
    /// Present when the channel only lands on these exact rates.
    pub rate_ladder: Option<Vec<u32>>,
}

/// Whether a list of process names holds the rule's process or an alias.
pub open spec fn rule_listed(rule: AppRule, names: Seq<String>) -> bool {
    names_contain(names, rule.process@) || exists|i: int|
        0 <= i < rule.aliases@.len() && names_contain(names, #[trigger] rule.aliases@[i]@)
}

fn any_listed(rule: &AppRule, names: &Vec<String>) -> (r: bool)
    ensures
        r == rule_listed(*rule, names@),
{
    if contains_name(names, rule.process.as_str()) {
        return true;
    }
    let mut i: usize = 0;
    while i < rule.aliases.len()
        invariant
            i <= rule.aliases.len(),
            forall|k: int| 0 <= k < i ==> !names_contain(names@, #[trigger] rule.aliases@[k]@),
        decreases rule.aliases.len() - i,
    {
        if contains_name(names, rule.aliases[i].as_str()) {
            return true;
        }
        i = i + 1;
    }
    false
}

/// Apps page entry for a rule. `running` and `connected` are the lower-case
/// names of running processes and of browsers whose extension is connected; a
/// browser entry is `Connected` when its process (or an alias) is connected.
pub fn to_app_info(rule: &AppRule, running: &Vec<String>, connected: &Vec<String>) -> (r: AppInfo)
    ensures
        r.id == rule.id,
        r.name == rule.name,
        r.process == rule.process,
        r.kind == rule.kind,
        r.status == (if rule.kind == AppKind::Browser && rule_listed(*rule, connected@) {
            AppStatus::Connected
        } else {
            status_spec(*rule)
        }),
        r.method == rule.method,
        r.method_label@ == method_label_spec(*rule),
        r.ipc == rule.ipc,
        r.running == rule_listed(*rule, running@),
        r.builtin == rule.builtin,
        r.keys == rule.keys,
        r.ipc_config == rule.ipc_config,
        opt_grid_view(r.key_rate) == opt_grid_view(rule.key_rate),
        opt_ladder_view(r.rate_ladder) == opt_ladder_view(rule.rate_ladder),
{
    let mut status = rule.status();
    if rule.kind == AppKind::Browser && any_listed(rule, connected) {
        status = AppStatus::Connected;
    }
    AppInfo {
        id: rule.id.clone(),
        name: rule.name.clone(),
        process: rule.process.clone(),
        kind: rule.kind,
        status,
        method: rule.method,
        method_label: rule.method_label(),
        ipc: rule.ipc,
        running: any_listed(rule, running),
        builtin: rule.builtin,
        keys: clone_opt_keys(&rule.keys),
        ipc_config: clone_opt_settings(&rule.ipc_config),
        key_rate: clone_opt_grid(&rule.key_rate),
        rate_ladder: clone_opt_ladder(&rule.rate_ladder),
    }
}

} // verus!
