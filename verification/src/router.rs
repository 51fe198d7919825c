//! Routing rate changes to the current target: which control channels a rule
//! offers (control interface first, key presses last), what each channel is
//! asked to do, and how the core state follows a push.

use vstd::prelude::*;
use crate::clients::{CdpClient, MpvClient, VlcHttpClient};
use crate::grid::{grid_ok, plan_spec, KeyBindings, KeyPlan, KeyRateGrid};
use crate::hotkey::{HotkeyPayload, PushMode};
use crate::ladder::{snap_spec, snap_to_ladder};
use crate::mpc_hc::{command_for, command_spec};
use crate::potplayer::{speed_to_lparam, speed_to_lparam_spec, POT_SPEED_MAX, POT_SPEED_MIN};
use crate::rate::{clamp_rate, clamp_rate_spec, RATE_MAX, RATE_NORMAL};
use crate::rules::{opt_grid_view, opt_ladder_view, AppKind, AppRule, GridView, IpcKind, RuleMethod};
use crate::state::{
    current_rule_index, find_key, find_matching_rule, lookup, match_rule, memory_key_spec,
    session_spec, Core, CurrentTarget, MediaSession, ShortcutAction,
};
use crate::text::{owned, str_eq};
use crate::nm::opt_session_view;

verus! {

/// DevTools port used when a client rule gives none.
pub const CDP_DEFAULT_PORT: u16 = 9333;

/// A control channel of the current target.
#[derive(Debug)]
pub enum Adapter {
    Mpv(MpvClient),
    Vlc(VlcHttpClient),
    /// PotPlayer's `WM_USER` SDK: exact rate and read-back, no focus needed.
    PotPlayer { hwnd: isize },
    /// MPC `WM_COMMAND` codes; with a ladder the version has absolute rate
    /// commands, without one it only steps.
    MpcHc { hwnd: isize, ladder: Option<Vec<u32>> },
    /// The browser extension over native messaging.
    Browser { process: String },
    /// DevTools port of a Chromium shell.
    Cdp(CdpClient),
    /// The player's own shortcut keys (needs the window in front); with a grid
    /// the keys reach exact rates.
    Keys { hwnd: isize, keys: KeyBindings, grid: Option<KeyRateGrid> },
}

/// Content of a channel.
pub enum AdapterView {
    Mpv(Seq<char>),
    Vlc(u16, Seq<char>),
    PotPlayer(isize),
    MpcHc(isize, Option<Seq<u32>>),
    Browser(Seq<char>),
    Cdp(u16),
    Keys(isize, KeyBindings, Option<GridView>),
}

pub open spec fn adapter_view(a: Adapter) -> AdapterView {
    match a {
        Adapter::Mpv(c) => AdapterView::Mpv(c.pipe@),
        Adapter::Vlc(c) => AdapterView::Vlc(c.port, c.password@),
        Adapter::PotPlayer { hwnd } => AdapterView::PotPlayer(hwnd),
        Adapter::MpcHc { hwnd, ladder } => AdapterView::MpcHc(hwnd, opt_ladder_view(ladder)),
        Adapter::Browser { process } => AdapterView::Browser(process@),
        Adapter::Cdp(c) => AdapterView::Cdp(c.port),
        Adapter::Keys { hwnd, keys, grid } => AdapterView::Keys(hwnd, keys, opt_grid_view(grid)),
    }
}

pub open spec fn adapter_views(v: Seq<Adapter>) -> Seq<AdapterView> {
    v.map_values(|a: Adapter| adapter_view(a))
}

/// Window classes a window-message rule looks its player up by.
pub open spec fn window_classes(rule_id: Seq<char>) -> Seq<&'static str> {
    if rule_id == "potplayer"@ {
        seq![crate::potplayer::WINDOW_CLASS_64, crate::potplayer::WINDOW_CLASS_32]
    } else if rule_id == "mpc-hc"@ {
        seq![crate::mpc_hc::WINDOW_CLASS]
    } else if rule_id == "mpc-be"@ {
        seq![crate::mpc_hc::WINDOW_CLASS_MPC_BE]
    } else {
        Seq::empty()
    }
}

/// Whether building the channels looks a window up by class.
pub open spec fn needs_window(rule: AppRule) -> bool {
    rule.method != RuleMethod::Extension && (rule.method == RuleMethod::Auto || rule.method
        == RuleMethod::Ipc) && rule.ipc == IpcKind::WmCommand && window_classes(rule.id@).len() > 0
}

/// `h` is what looking the classes up in order gives: the first class found,
/// or `fallback` when none is.
pub open spec fn resolves<F: Fn(&str) -> Option<isize>>(f: F, classes: Seq<&'static str>, fallback: isize, h: isize) -> bool
    decreases classes.len(),
{
    if classes.len() == 0 {
        h == fallback
    } else {
        call_ensures(f, (classes[0],), Some(h)) || (call_ensures(f, (classes[0],), None) && resolves(
            f,
            classes.drop_first(),
            fallback,
            h,
        ))
    }
}

/// The channels of a rule for a target, in priority order; `h` is the window
/// the class lookup resolved (window-message rules only).
pub open spec fn adapters_spec(rule: AppRule, t: CurrentTarget, h: isize) -> Seq<AdapterView> {
    if rule.method == RuleMethod::Extension {
        seq![AdapterView::Browser(t.process_name@)]
    } else {
        let want_ipc = rule.method == RuleMethod::Auto || rule.method == RuleMethod::Ipc;
        let want_keys = rule.method == RuleMethod::Auto || rule.method == RuleMethod::Hotkey;
        let ipc: Seq<AdapterView> = if !want_ipc {
            Seq::empty()
        } else {
            match rule.ipc {
                IpcKind::MpvIpc => match rule.ipc_config {
                    Some(c) => match c.pipe {
                        Some(p) => seq![AdapterView::Mpv(p@)],
                        None => Seq::empty(),
                    },
                    None => Seq::empty(),
                },
                IpcKind::VlcHttp => match rule.ipc_config {
                    Some(c) => match c.port {
                        Some(port) => seq![
                            AdapterView::Vlc(
                                port,
                                match c.password {
                                    Some(pw) => pw@,
                                    None => Seq::empty(),
                                },
                            ),
                        ],
                        None => Seq::empty(),
                    },
                    None => Seq::empty(),
                },
                IpcKind::WmCommand => if rule.id@ == "potplayer"@ {
                    seq![AdapterView::PotPlayer(h)]
                } else if rule.id@ == "mpc-hc"@ || rule.id@ == "mpc-be"@ {
                    seq![AdapterView::MpcHc(h, opt_ladder_view(rule.rate_ladder))]
                } else {
                    Seq::empty()
                },
                IpcKind::Cdp => seq![
                    AdapterView::Cdp(
                        match rule.ipc_config {
                            Some(c) => match c.port {
                                Some(p) => p,
                                None => CDP_DEFAULT_PORT,
                            },
                            None => CDP_DEFAULT_PORT,
                        },
                    ),
                ],
                IpcKind::NoIpc => Seq::empty(),
            }
        };
        let keys: Seq<AdapterView> = if want_keys && rule.keys is Some {
            seq![AdapterView::Keys(t.hwnd, rule.keys->0, opt_grid_view(rule.key_rate))]
        } else {
            Seq::empty()
        };
        ipc + keys
    }
}

/// `Auto` means the control interface first and the player's own keys as
/// the fallback: for an `Auto` rule with keys, the last channel is the keys
/// channel on the target's window, and every channel before it (at most one)
/// is an interface channel.
pub proof fn law_auto_falls_back_to_keys(rule: AppRule, t: CurrentTarget, h: isize)
    requires
        rule.method == RuleMethod::Auto,
        rule.keys is Some,
    ensures
        adapters_spec(rule, t, h).len() >= 1,
        adapters_spec(rule, t, h).len() <= 2,
        adapters_spec(rule, t, h).last() == AdapterView::Keys(t.hwnd, rule.keys->0, opt_grid_view(rule.key_rate)),
        forall|i: int|
            0 <= i < adapters_spec(rule, t, h).len() - 1 ==> !(#[trigger] adapters_spec(rule, t, h)[i] is Keys),
{
}

/// Window of a window-message channel: looked up by class now (the window the
/// foreground watcher saw may have been recreated), else the recorded one.
fn resolve_hwnd<F: Fn(&str) -> Option<isize>>(classes: &[&'static str], fallback: isize, find_window: &F) -> (h: isize)
    requires
        forall|s: &str| call_requires(*find_window, (s,)),
    ensures
        resolves(*find_window, classes@, fallback, h),
{
    let n = classes.len();
    let mut i: usize = 0;
    assert(classes@.subrange(0, n as int) =~= classes@);
    while i < n
        invariant
            n == classes@.len(),
            i <= n,
            forall|s: &str| call_requires(*find_window, (s,)),
            forall|x: isize|
                #[trigger] resolves(*find_window, classes@.subrange(i as int, n as int), fallback, x)
                    ==> resolves(*find_window, classes@, fallback, x),
        decreases n - i,
    {
        let ghost sub = classes@.subrange(i as int, n as int);
        assert(sub[0] == classes@[i as int]);
        assert(sub.drop_first() =~= classes@.subrange(i + 1, n as int));
        let found = find_window(classes[i]);
        match found {
            Some(x) => {
                assert(resolves(*find_window, sub, fallback, x));
                return x;
            },
            None => {
                assert forall|x: isize|
                    #[trigger] resolves(*find_window, classes@.subrange(i + 1, n as int), fallback, x)
                        implies resolves(*find_window, classes@, fallback, x) by {
                    assert(resolves(*find_window, sub, fallback, x));
                }
            },
        }
        i = i + 1;
    }
    assert(resolves(*find_window, classes@.subrange(n as int, n as int), fallback, fallback));
    fallback
}

fn clone_grid(g: &Option<KeyRateGrid>) -> (r: Option<KeyRateGrid>)
    ensures
        opt_grid_view(r) == opt_grid_view(*g),
{
    crate::rules::clone_opt_grid(g)
}

/// The channels of a rule for the current target, in priority order:
/// extension rules use the browser extension alone; otherwise the control
/// interface (when the method allows it) and then the player's keys (when the
/// method allows them and the rule has keys). `find_window` looks a window up
/// by class name.
pub fn adapters_for<F: Fn(&str) -> Option<isize>>(rule: &AppRule, target: &CurrentTarget, find_window: &F) -> (r: Vec<Adapter>)
    requires
        forall|s: &str| call_requires(*find_window, (s,)),
    ensures
        exists|h: isize|
            (needs_window(*rule) ==> resolves(*find_window, window_classes(rule.id@), target.hwnd, h))
                && adapter_views(r@) == adapters_spec(*rule, *target, h),
{
    let mut list: Vec<Adapter> = Vec::new();
    if rule.method == RuleMethod::Extension {
        list.push(Adapter::Browser { process: target.process_name.clone() });
        assert(adapter_views(list@) =~= adapters_spec(*rule, *target, 0));
        return list;
    }
    let want_ipc = rule.method == RuleMethod::Auto || rule.method == RuleMethod::Ipc;
    let want_keys = rule.method == RuleMethod::Auto || rule.method == RuleMethod::Hotkey;
    let mut h: isize = target.hwnd;
    if want_ipc {
        match rule.ipc {
            IpcKind::MpvIpc => {
                match &rule.ipc_config {
                    Some(c) => match &c.pipe {
                        Some(p) => {
                            list.push(Adapter::Mpv(MpvClient::new(p.as_str())));
                        },
                        None => {},
                    },
                    None => {},
                }
            },
            IpcKind::VlcHttp => {
                match &rule.ipc_config {
                    Some(c) => match c.port {
                        Some(port) => {
                            let pw = match &c.password {
                                Some(p) => p.clone(),
                                None => String::new(),
                            };
                            list.push(Adapter::Vlc(VlcHttpClient::new(port, pw.as_str())));
                        },
                        None => {},
                    },
                    None => {},
                }
            },
            IpcKind::WmCommand => {
                if str_eq(rule.id.as_str(), "potplayer") {
                    let classes: [&'static str; 2] = [
                        crate::potplayer::WINDOW_CLASS_64,
                        crate::potplayer::WINDOW_CLASS_32,
                    ];
                    assert(classes@ =~= window_classes(rule.id@));
                    h = resolve_hwnd(&classes, target.hwnd, find_window);
                    list.push(Adapter::PotPlayer { hwnd: h });
                } else if str_eq(rule.id.as_str(), "mpc-hc") {
                    let classes: [&'static str; 1] = [crate::mpc_hc::WINDOW_CLASS];
                    assert(classes@ =~= window_classes(rule.id@));
                    h = resolve_hwnd(&classes, target.hwnd, find_window);
                    list.push(
                        Adapter::MpcHc { hwnd: h, ladder: crate::rules::clone_opt_ladder(&rule.rate_ladder) },
                    );
                } else if str_eq(rule.id.as_str(), "mpc-be") {
                    let classes: [&'static str; 1] = [crate::mpc_hc::WINDOW_CLASS_MPC_BE];
                    assert(classes@ =~= window_classes(rule.id@));
                    h = resolve_hwnd(&classes, target.hwnd, find_window);
                    list.push(
                        Adapter::MpcHc { hwnd: h, ladder: crate::rules::clone_opt_ladder(&rule.rate_ladder) },
                    );
                }
            },
            IpcKind::Cdp => {
                let port = match &rule.ipc_config {
                    Some(c) => match c.port {
                        Some(p) => p,
                        None => CDP_DEFAULT_PORT,
                    },
                    None => CDP_DEFAULT_PORT,
                };
                list.push(Adapter::Cdp(CdpClient::new(port)));
            },
            IpcKind::NoIpc => {},
        }
    }
    let ghost ipc_part = adapter_views(list@);
    if want_keys {
        match &rule.keys {
            Some(k) => {
                list.push(Adapter::Keys { hwnd: target.hwnd, keys: k.duplicate(), grid: clone_grid(&rule.key_rate) });
            },
            None => {},
        }
    }
    assert(adapter_views(list@) =~= adapters_spec(*rule, *target, h));
    list
}

/// Connected browsers whose active tab is not live: candidates for taking
/// the hotkeys when nothing is targeted.
pub open spec fn fallback_candidates(c: Core) -> Seq<Seq<char>> {
    c.connected_browsers@.map_values(|s: String| s@).filter(
        |p: Seq<char>| !(lookup(c.browser_media@, p) matches Some(m) && m.is_live),
    )
}

/// The browser fallback: the one candidate when there is exactly one.
pub open spec fn fallback_spec(c: Core) -> Seq<AdapterView> {
    if fallback_candidates(c).len() == 1 {
        seq![AdapterView::Browser(fallback_candidates(c)[0])]
    } else {
        Seq::empty()
    }
}

/// The channels hotkeys and pushes go to: the current target's (none for a
/// browser whose active tab is live), else the single connected browser that
/// is not on a live stream.
pub open spec fn current_adapters_spec(c: Core, h: isize) -> Seq<AdapterView> {
    match (c.current, current_rule_index(c)) {
        (Some(t), Some(i)) => {
            let r = c.rules@[i];
            if r.kind == AppKind::Browser && (lookup(c.browser_media@, t.process_name@) matches Some(m)
                && m.is_live) {
                Seq::empty()
            } else if adapters_spec(r, t, h).len() > 0 {
                adapters_spec(r, t, h)
            } else {
                fallback_spec(c)
            }
        },
        _ => fallback_spec(c),
    }
}

/// Whether building the current target's channels looks a window up (not
/// for a browser on a live stream, which gets no channel).
pub open spec fn current_needs_window(c: Core) -> bool {
    match (c.current, current_rule_index(c)) {
        (Some(t), Some(i)) => needs_window(c.rules@[i]) && !(c.rules@[i].kind == AppKind::Browser
            && (lookup(c.browser_media@, t.process_name@) matches Some(m) && m.is_live)),
        _ => false,
    }
}

pub open spec fn current_classes(c: Core) -> Seq<&'static str> {
    match current_rule_index(c) {
        Some(i) => window_classes(c.rules@[i].id@),
        None => Seq::empty(),
    }
}

pub open spec fn current_hwnd(c: Core) -> isize {
    match c.current {
        Some(t) => t.hwnd,
        None => 0,
    }
}

impl Core {
    /// The browser fallback (see [`fallback_spec`]).
    pub fn browser_fallback_adapters(&self) -> (r: Vec<Adapter>)
        ensures
            adapter_views(r@) == fallback_spec(*self),
    {
        let ghost names = self.connected_browsers@.map_values(|s: String| s@);
        let ghost pred = |p: Seq<char>| !(lookup(self.browser_media@, p) matches Some(m) && m.is_live);
        let mut found: Vec<Adapter> = Vec::new();
        let mut i: usize = 0;
        while i < self.connected_browsers.len()
            invariant
                i <= self.connected_browsers.len(),
                names == self.connected_browsers@.map_values(|s: String| s@),
                pred == (|p: Seq<char>| !(lookup(self.browser_media@, p) matches Some(m) && m.is_live)),
                adapter_views(found@) == names.subrange(0, i as int).filter(pred).map_values(
                    |p: Seq<char>| AdapterView::Browser(p),
                ),
            decreases self.connected_browsers.len() - i,
        {
            let process = &self.connected_browsers[i];
            assert(names.subrange(0, i + 1).drop_last() =~= names.subrange(0, i as int));
            reveal_with_fuel(Seq::filter, 1);
            let live = match find_key(&self.browser_media, process.as_str()) {
                Some(j) => self.browser_media[j].1.is_live,
                None => false,
            };
            assert(live == !pred(names[i as int]));
            let ghost before = found@;
            if !live {
                found.push(Adapter::Browser { process: process.clone() });
                assert(adapter_views(found@) =~= adapter_views(before).push(
                    AdapterView::Browser(names[i as int]),
                ));
            }
            i = i + 1;
        }
        assert(names.subrange(0, self.connected_browsers.len() as int) =~= names);
        assert(fallback_candidates(*self) == names.filter(pred));
        if found.len() == 1 {
            found
        } else {
            Vec::new()
        }
    }

    /// The channels of the current target, else the browser fallback (see
    /// [`current_adapters_spec`]).
    pub fn adapters_for_current_or_browser<F: Fn(&str) -> Option<isize>>(&self, find_window: &F) -> (r: Vec<Adapter>)
        requires
            forall|s: &str| call_requires(*find_window, (s,)),
        ensures
            exists|h: isize|
                (current_needs_window(*self) ==> resolves(*find_window, current_classes(*self), current_hwnd(*self), h))
                    && adapter_views(r@) == current_adapters_spec(*self, h),
    {
        let target = match &self.current {
            Some(t) => t,
            None => {
                let r = self.browser_fallback_adapters();
                assert(adapter_views(r@) == current_adapters_spec(*self, 0));
                return r;
            },
        };
        let i = match self.current_rule_index() {
            Some(i) => i,
            None => {
                let r = self.browser_fallback_adapters();
                assert(adapter_views(r@) == current_adapters_spec(*self, 0));
                return r;
            },
        };
        let rule = &self.rules[i];
        if rule.kind == AppKind::Browser {
            let live = match find_key(&self.browser_media, target.process_name.as_str()) {
                Some(j) => self.browser_media[j].1.is_live,
                None => false,
            };
            if live {
                let r: Vec<Adapter> = Vec::new();
                assert(adapter_views(r@) =~= current_adapters_spec(*self, 0));
                return r;
            }
        }
        let list = adapters_for(rule, target, find_window);
        let ghost h = choose|h: isize|
            (needs_window(*rule) ==> resolves(*find_window, window_classes(rule.id@), target.hwnd, h))
                && adapter_views(list@) == adapters_spec(*rule, *target, h);
        if list.len() > 0 {
            assert(adapter_views(list@) == current_adapters_spec(*self, h));
            return list;
        }
        let r = self.browser_fallback_adapters();
        assert(adapter_views(r@) == current_adapters_spec(*self, h));
        r
    }
}

/// What to do on a channel; the caller performs it.
#[derive(Debug)]
pub enum ChannelAction {
    /// The channel client's own exact-rate call (mpv, VLC, DevTools, the
    /// extension), with this rate.
    ClientRate(u32),
    /// The channel client's play / pause.
    ClientPlayPause,
    /// `SendMessage(hwnd, msg, wparam, lparam)`; `declared` is the rate the
    /// message sets whatever the player's state, reported as read-back.
    Message { hwnd: isize, msg: u32, wparam: usize, lparam: isize, declared: Option<u32> },
    /// PotPlayer: set the speed, then read it back (`POT_GET_SPEED`).
    PotSetSpeed { hwnd: isize, lparam: isize },
    /// Press the keys of a plan (it lands on `plan.rate`, the read-back).
    KeyPlan { hwnd: isize, plan: KeyPlan },
    /// Press one of the player's keys.
    Key { hwnd: isize, key: String },
}

/// Whether a window lookup says the window exists: a non-zero handle whose
/// process id `window_pid` finds non-zero.
pub open spec fn alive_by<F: Fn(isize) -> u32>(f: F, hwnd: isize, r: bool) -> bool {
    if hwnd == 0 {
        !r
    } else {
        exists|pid: u32| call_ensures(f, (hwnd,), pid) && r == (pid != 0)
    }
}

/// Whether a window still exists (`window_pid` gives a window's process id,
/// 0 for none).
pub fn window_alive<F: Fn(isize) -> u32>(hwnd: isize, window_pid: &F) -> (r: bool)
    requires
        forall|h: isize| call_requires(*window_pid, (h,)),
    ensures
        alive_by(*window_pid, hwnd, r),
{
    if hwnd == 0 {
        return false;
    }
    let pid = window_pid(hwnd);
    pid != 0
}

/// The key grid of a channel is usable.
pub open spec fn adapter_ok(a: Adapter) -> bool {
    a matches Adapter::Keys { grid: Some(g), .. } ==> grid_ok(g)
}

/// `PotPlayer`'s read-back (`POT_GET_SPEED`): the rate in thousandths when
/// inside the SDK range; anything else (0 for a window that did not answer)
/// is no reading.
pub fn pot_speed_reading(raw: isize) -> (r: Option<u32>)
    ensures
        r == (if POT_SPEED_MIN <= raw <= POT_SPEED_MAX {
            Some(raw as u32)
        } else {
            None::<u32>
        }),
{
    if POT_SPEED_MIN <= raw && raw <= POT_SPEED_MAX {
        Some(raw as u32)
    } else {
        None
    }
}

impl Adapter {
    /// Whether the channel's key grid, if any, is usable (see [`adapter_ok`]).
    pub fn grid_usable(&self) -> (r: bool)
        ensures
            r == adapter_ok(*self),
    {
        match self {
            Adapter::Keys { grid: Some(g), .. } => crate::grid::grid_usable(g),
            _ => true,
        }
    }

    /// Action for an exact rate. Channels with exact control use it directly;
    /// key grids press a plan that lands on a known rate; MPC-HC sends the
    /// absolute command of the nearest rung (that rung is the read-back).
    /// Step-only channels refuse, and the caller falls back to a step.
    pub fn set_rate_action<F: Fn(isize) -> u32>(&self, rate: u32, window_pid: &F) -> (r: Result<ChannelAction, String>)
        requires
            adapter_ok(*self),
            forall|h: isize| call_requires(*window_pid, (h,)),
        ensures
            match *self {
                Adapter::Mpv(_) | Adapter::Vlc(_) | Adapter::Browser { .. } | Adapter::Cdp(_) => r
                    matches Ok(ChannelAction::ClientRate(x)) && x == rate,
                Adapter::PotPlayer { hwnd } => exists|alive: bool|
                    alive_by(*window_pid, hwnd, alive) && if alive {
                        r matches Ok(ChannelAction::PotSetSpeed { hwnd: h, lparam }) && h == hwnd && lparam
                            == speed_to_lparam_spec(rate)
                    } else {
                        r matches Err(e) && e@ == "PotPlayer 窗口不存在"@
                    },
                Adapter::Keys { hwnd, keys, grid: Some(g) } => match plan_spec(g, keys, rate as int) {
                    Some(p) => r matches Ok(ChannelAction::KeyPlan { hwnd: h, plan }) && h == hwnd && plan@
                        == p,
                    None => r matches Err(e) && e@ == "该播放器的按键档位拼不出目标倍速"@,
                },
                Adapter::MpcHc { hwnd, ladder: Some(l) } => exists|alive: bool|
                    alive_by(*window_pid, hwnd, alive) && if !alive {
                        r matches Err(e) && e@ == "MPC-HC 窗口不存在"@
                    } else {
                        match snap_spec(l@, rate as int) {
                            None => r matches Err(e) && e@ == "倍速非法，取不到 MPC-HC 档位"@,
                            Some(exact) => match command_spec(exact, 0) {
                                None => r matches Err(e) && e@ == "该档位没有对应的绝对倍速命令"@,
                                Some(cmd) => r matches Ok(
                                    ChannelAction::Message { hwnd: h, msg, wparam, lparam, declared },
                                ) && h == hwnd && msg == crate::ipc::WM_COMMAND && wparam == cmd && lparam
                                    == 0 && declared == Some(exact),
                            },
                        }
                    },
                _ => r matches Err(e) && e@ == "该通道仅支持步进，不支持设置精确倍速"@,
            },
    {
        match self {
            Adapter::Mpv(_) | Adapter::Vlc(_) | Adapter::Browser { .. } | Adapter::Cdp(_) => Ok(
                ChannelAction::ClientRate(rate),
            ),
            Adapter::PotPlayer { hwnd } => {
                if !window_alive(*hwnd, window_pid) {
                    return Err(owned("PotPlayer 窗口不存在"));
                }
                Ok(ChannelAction::PotSetSpeed { hwnd: *hwnd, lparam: speed_to_lparam(rate) })
            },
            Adapter::Keys { hwnd, keys, grid: Some(g) } => match g.plan(keys, rate) {
                Some(plan) => Ok(ChannelAction::KeyPlan { hwnd: *hwnd, plan }),
                None => Err(owned("该播放器的按键档位拼不出目标倍速")),
            },
            Adapter::MpcHc { hwnd, ladder: Some(l) } => {
                if !window_alive(*hwnd, window_pid) {
                    return Err(owned("MPC-HC 窗口不存在"));
                }
                let exact = match snap_to_ladder(l.as_slice(), rate) {
                    Some(x) => x,
                    None => {
                        return Err(owned("倍速非法，取不到 MPC-HC 档位"));
                    },
                };
                match command_for(exact) {
                    Some(cmd) => Ok(
                        ChannelAction::Message {
                            hwnd: *hwnd,
                            msg: crate::ipc::WM_COMMAND,
                            wparam: cmd,
                            lparam: 0,
                            declared: Some(exact),
                        },
                    ),
                    None => Err(owned("该档位没有对应的绝对倍速命令")),
                }
            },
            _ => Err(owned("该通道仅支持步进，不支持设置精确倍速")),
        }
    }

    /// Action for one step of the player's own (`dir > 0` up, otherwise
    /// down). Exact channels refuse (the caller sets the rate instead).
    pub fn step_action<F: Fn(isize) -> u32>(&self, dir: i32, window_pid: &F) -> (r: Result<ChannelAction, String>)
        requires
            forall|h: isize| call_requires(*window_pid, (h,)),
        ensures
            match *self {
                Adapter::MpcHc { hwnd, .. } => exists|alive: bool|
                    alive_by(*window_pid, hwnd, alive) && if !alive {
                        r matches Err(e) && e@ == "MPC-HC 窗口不存在"@
                    } else {
                        r matches Ok(ChannelAction::Message { hwnd: h, msg, wparam, lparam, declared }) && h
                            == hwnd && msg == crate::ipc::WM_COMMAND && wparam == (if dir > 0 {
                            crate::mpc_hc::ID_PLAY_INCRATE
                        } else {
                            crate::mpc_hc::ID_PLAY_DECRATE
                        }) && lparam == 0 && declared is None
                    },
                Adapter::Keys { hwnd, keys, .. } => r matches Ok(ChannelAction::Key { hwnd: h, key }) && h
                    == hwnd && key@ == (if dir > 0 {
                    keys.up@
                } else {
                    keys.down@
                }),
                _ => r matches Err(e) && e@ == "该通道请使用 set_rate"@,
            },
    {
        match self {
            Adapter::MpcHc { hwnd, .. } => {
                if !window_alive(*hwnd, window_pid) {
                    return Err(owned("MPC-HC 窗口不存在"));
                }
                let cmd = if dir > 0 {
                    crate::mpc_hc::ID_PLAY_INCRATE
                } else {
                    crate::mpc_hc::ID_PLAY_DECRATE
                };
                Ok(ChannelAction::Message { hwnd: *hwnd, msg: crate::ipc::WM_COMMAND, wparam: cmd, lparam: 0, declared: None })
            },
            Adapter::Keys { hwnd, keys, .. } => {
                let key = if dir > 0 {
                    keys.up.clone()
                } else {
                    keys.down.clone()
                };
                Ok(ChannelAction::Key { hwnd: *hwnd, key })
            },
            _ => Err(owned("该通道请使用 set_rate")),
        }
    }

    /// Action for going back to 1×: exact channels and key grids set 1×;
    /// MPC sends its reset command (every MPC variant has it; the rate is then
    /// 1× for sure); plain keys press the player's reset key.
    pub fn reset_action<F: Fn(isize) -> u32>(&self, window_pid: &F) -> (r: Result<ChannelAction, String>)
        requires
            adapter_ok(*self),
            forall|h: isize| call_requires(*window_pid, (h,)),
        ensures
            match *self {
                Adapter::MpcHc { hwnd, .. } => exists|alive: bool|
                    alive_by(*window_pid, hwnd, alive) && if !alive {
                        r matches Err(e) && e@ == "MPC-HC 窗口不存在"@
                    } else {
                        r matches Ok(ChannelAction::Message { hwnd: h, msg, wparam, lparam, declared }) && h
                            == hwnd && msg == crate::ipc::WM_COMMAND && wparam
                            == crate::mpc_hc::ID_PLAY_RESETRATE && lparam == 0 && declared == Some(
                            RATE_NORMAL,
                        )
                    },
                Adapter::Keys { hwnd, keys, grid: None } => r matches Ok(ChannelAction::Key { hwnd: h, key })
                    && h == hwnd && key@ == keys.reset@,
                Adapter::Keys { hwnd, keys, grid: Some(g) } => match plan_spec(g, keys, RATE_NORMAL as int) {
                    Some(p) => r matches Ok(ChannelAction::KeyPlan { hwnd: h, plan }) && h == hwnd && plan@
                        == p,
                    None => r matches Err(e) && e@ == "该播放器的按键档位拼不出目标倍速"@,
                },
                Adapter::Mpv(_) | Adapter::Vlc(_) | Adapter::Browser { .. } | Adapter::Cdp(_) => r
                    matches Ok(ChannelAction::ClientRate(x)) && x == RATE_NORMAL,
                Adapter::PotPlayer { hwnd } => exists|alive: bool|
                    alive_by(*window_pid, hwnd, alive) && if alive {
                        r matches Ok(ChannelAction::PotSetSpeed { hwnd: h, lparam }) && h == hwnd && lparam
                            == speed_to_lparam_spec(RATE_NORMAL)
                    } else {
                        r matches Err(e) && e@ == "PotPlayer 窗口不存在"@
                    },
            },
    {
        match self {
            Adapter::MpcHc { hwnd, .. } => {
                if !window_alive(*hwnd, window_pid) {
                    return Err(owned("MPC-HC 窗口不存在"));
                }
                Ok(
                    ChannelAction::Message {
                        hwnd: *hwnd,
                        msg: crate::ipc::WM_COMMAND,
                        wparam: crate::mpc_hc::ID_PLAY_RESETRATE,
                        lparam: 0,
                        declared: Some(RATE_NORMAL),
                    },
                )
            },
            Adapter::Keys { hwnd, keys, grid: None } => Ok(ChannelAction::Key { hwnd: *hwnd, key: keys.reset.clone() }),
            _ => self.set_rate_action(RATE_NORMAL, window_pid),
        }
    }

    /// Action for play / pause: the client's toggle, PotPlayer's and MPC's
    /// toggle messages, or the space bar (most players' default key).
    pub fn play_pause_action<F: Fn(isize) -> u32>(&self, window_pid: &F) -> (r: Result<ChannelAction, String>)
        requires
            forall|h: isize| call_requires(*window_pid, (h,)),
        ensures
            match *self {
                Adapter::PotPlayer { hwnd } => exists|alive: bool|
                    alive_by(*window_pid, hwnd, alive) && if !alive {
                        r matches Err(e) && e@ == "PotPlayer 窗口不存在"@
                    } else {
                        r matches Ok(ChannelAction::Message { hwnd: h, msg, wparam, lparam, declared }) && h
                            == hwnd && msg == crate::ipc::WM_USER && wparam
                            == crate::potplayer::POT_SET_PLAY_STATUS && lparam
                            == crate::potplayer::POT_PLAY_STATUS_TOGGLE && declared is None
                    },
                Adapter::MpcHc { hwnd, .. } => exists|alive: bool|
                    alive_by(*window_pid, hwnd, alive) && if !alive {
                        r matches Err(e) && e@ == "MPC-HC 窗口不存在"@
                    } else {
                        r matches Ok(ChannelAction::Message { hwnd: h, msg, wparam, lparam, declared }) && h
                            == hwnd && msg == crate::ipc::WM_COMMAND && wparam
                            == crate::mpc_hc::ID_PLAY_PLAYPAUSE && lparam == 0 && declared is None
                    },
                Adapter::Keys { hwnd, .. } => r matches Ok(ChannelAction::Key { hwnd: h, key }) && h == hwnd
                    && key@ == "Space"@,
                _ => r matches Ok(ChannelAction::ClientPlayPause),
            },
    {
        match self {
            Adapter::PotPlayer { hwnd } => {
                if !window_alive(*hwnd, window_pid) {
                    return Err(owned("PotPlayer 窗口不存在"));
                }
                Ok(
                    ChannelAction::Message {
                        hwnd: *hwnd,
                        msg: crate::ipc::WM_USER,
                        wparam: crate::potplayer::POT_SET_PLAY_STATUS,
                        lparam: crate::potplayer::POT_PLAY_STATUS_TOGGLE,
                        declared: None,
                    },
                )
            },
            Adapter::MpcHc { hwnd, .. } => {
                if !window_alive(*hwnd, window_pid) {
                    return Err(owned("MPC-HC 窗口不存在"));
                }
                Ok(
                    ChannelAction::Message {
                        hwnd: *hwnd,
                        msg: crate::ipc::WM_COMMAND,
                        wparam: crate::mpc_hc::ID_PLAY_PLAYPAUSE,
                        lparam: 0,
                        declared: None,
                    },
                )
            },
            Adapter::Keys { hwnd, .. } => Ok(ChannelAction::Key { hwnd: *hwnd, key: owned("Space") }),
            _ => Ok(ChannelAction::ClientPlayPause),
        }
    }
}

/// One attempt on a channel during a push.
#[derive(Debug, Clone, Copy, PartialEq, Eq, Structural)]
pub enum Attempt {
    SetRate,
    Step(i32),
    Reset,
}

/// What is tried on each channel, in order.
pub open spec fn attempts_spec(mode: PushMode) -> Seq<Attempt> {
    match mode {
        PushMode::Step { dir } => seq![Attempt::SetRate, Attempt::Step(dir)],
        PushMode::Reset => seq![Attempt::Reset],
        PushMode::ExactOnly => seq![Attempt::SetRate],
    }
}

impl PushMode {
    /// What is tried on each channel, in order, until one attempt succeeds:
    /// hotkey steps set the exact rate and fall back to a step of the
    /// player's own; resets reset; exact pushes only set the rate.
    pub fn attempts(&self) -> (r: Vec<Attempt>)
        ensures
            r@ == attempts_spec(*self),
    {
        let mut v: Vec<Attempt> = Vec::new();
        match *self {
            PushMode::Step { dir } => {
                v.push(Attempt::SetRate);
                v.push(Attempt::Step(dir));
            },
            PushMode::Reset => v.push(Attempt::Reset),
            PushMode::ExactOnly => v.push(Attempt::SetRate),
        }
        assert(v@ =~= match *self {
            PushMode::Step { dir } => seq![Attempt::SetRate, Attempt::Step(dir)],
            PushMode::Reset => seq![Attempt::Reset],
            PushMode::ExactOnly => seq![Attempt::SetRate],
        });
        v
    }
}

/// What a push works from, taken under the lock (no I/O there).
#[derive(Debug)]
pub struct PushJob {
    pub target_rate: u32,
    pub adapters: Vec<Adapter>,
    /// The target is a desktop client (driven over DevTools).
    pub is_client: bool,
}

/// What [`Core::push_job`] gives, with `h` the window the class lookup
/// resolved.
pub open spec fn push_job_spec<F: Fn(&str) -> Option<isize>>(c: Core, f: F, r: Option<PushJob>, h: isize) -> bool {
    &&& (c.listening && current_needs_window(c) ==> resolves(f, current_classes(c), current_hwnd(c), h))
    &&& match r {
        Some(j) => {
            &&& c.listening
            &&& j.target_rate == c.rate
            &&& adapter_views(j.adapters@) == current_adapters_spec(c, h)
            &&& j.adapters@.len() > 0
            &&& j.is_client == (current_rule_index(c) matches Some(i) && c.rules@[i].kind == AppKind::Client)
        },
        None => !c.listening || current_adapters_spec(c, h).len() == 0,
    }
}

/// The next move of a push.
#[derive(Debug, Clone, Copy, PartialEq, Eq, Structural)]
pub enum PushNext {
    /// Try `attempt` on channel `channel` (an index into the job's channels).
    Try { channel: usize, attempt: Attempt },
    /// An attempt succeeded, with this read-back: the push is over.
    Applied(Option<u32>),
    /// Every attempt on every channel failed.
    NothingApplied,
}

/// The push after `pos` failed tries (`done` is the read-back of the try just
/// made when it succeeded): channels in order, each with the attempts of
/// the mode in order; the first success ends the push.
pub open spec fn push_next_spec(mode: PushMode, channels: int, pos: int, done: Option<Option<u32>>) -> PushNext {
    let k = attempts_spec(mode).len() as int;
    match done {
        Some(rb) => PushNext::Applied(rb),
        None => if pos / k >= channels {
            PushNext::NothingApplied
        } else {
            PushNext::Try { channel: (pos / k) as usize, attempt: attempts_spec(mode)[pos % k] }
        },
    }
}

impl PushJob {
    /// What the push does next (see [`push_next_spec`]); `pos` counts the
    /// tries made so far, `done` holds the read-back of the last one if it
    /// succeeded.
    pub fn next_try(&self, mode: PushMode, pos: usize, done: Option<Option<u32>>) -> (r: PushNext)
        ensures
            r == push_next_spec(mode, self.adapters@.len() as int, pos as int, done),
    {
        match done {
            Some(rb) => PushNext::Applied(rb),
            None => {
                let k: usize = match mode {
                    PushMode::Step { .. } => 2,
                    _ => 1,
                };
                let channel = pos / k;
                if channel >= self.adapters.len() {
                    return PushNext::NothingApplied;
                }
                let attempt = match mode {
                    PushMode::Step { dir } => if pos % 2 == 0 {
                        Attempt::SetRate
                    } else {
                        Attempt::Step(dir)
                    },
                    PushMode::Reset => Attempt::Reset,
                    PushMode::ExactOnly => Attempt::SetRate,
                };
                PushNext::Try { channel, attempt }
            },
        }
    }
}

/// Whether a failed push on a client should tell the user it is not taken
/// over: only for hotkeys (steps and resets), and only when its DevTools port
/// is really offline (not for "taken over but nothing playing").
pub fn needs_takeover_hint(is_client: bool, mode: PushMode, cdp_offline: bool) -> (r: bool)
    ensures
        r == (is_client && (mode is Step || mode is Reset) && cdp_offline),
{
    is_client && match mode {
        PushMode::Step { .. } | PushMode::Reset => true,
        PushMode::ExactOnly => false,
    } && cdp_offline
}

/// Action shown by the OSD for a push mode.
pub open spec fn hint_action(mode: PushMode) -> ShortcutAction {
    match mode {
        PushMode::Step { dir } => if dir < 0 {
            ShortcutAction::SpeedDown
        } else {
            ShortcutAction::SpeedUp
        },
        PushMode::Reset => ShortcutAction::Reset,
        PushMode::ExactOnly => ShortcutAction::SpeedUp,
    }
}

/// What reading the current target's rate back takes.
#[derive(Debug)]
pub enum ReadBackPlan {
    /// No target (or its rule is gone): no reading.
    Nothing,
    /// Browsers: the extension's last report (no I/O).
    Known(Option<u32>),
    /// Ask the channels in order; the first reading wins.
    Ask(Vec<Adapter>),
}

/// Outcome of a foreground change.
#[derive(Debug)]
pub enum ForegroundEffect {
    /// No rule claims the foreground process: the target stays, so the
    /// remote keeps working from other windows.
    Ignored,
    /// New target, but listening is off.
    Silent,
    /// The rate remembered for the new target was restored: broadcast the
    /// session and push the rate exactly.
    Restored(Option<MediaSession>),
    /// Read the target's real rate back, then apply it
    /// ([`Core::apply_read_back`]).
    ReadBack,
}

impl Core {
    /// The push snapshot: the target rate and the channels; `None` while
    /// listening is off or without any channel.
    pub fn push_job<F: Fn(&str) -> Option<isize>>(&self, find_window: &F) -> (r: Option<PushJob>)
        requires
            forall|s: &str| call_requires(*find_window, (s,)),
        ensures
            exists|h: isize| push_job_spec(*self, *find_window, r, h),
    {
        if !self.listening {
            assert(push_job_spec(*self, *find_window, None, 0));
            return None;
        }
        let adapters = self.adapters_for_current_or_browser(find_window);
        let ghost h = choose|h: isize|
            (current_needs_window(*self) ==> resolves(*find_window, current_classes(*self), current_hwnd(*self), h))
                && adapter_views(adapters@) == current_adapters_spec(*self, h);
        if adapters.len() == 0 {
            assert(push_job_spec(*self, *find_window, None, h));
            return None;
        }
        let is_client = match self.current_rule_index() {
            Some(i) => self.rules[i].kind == AppKind::Client,
            None => false,
        };
        let r = Some(PushJob { target_rate: self.rate, adapters, is_client });
        assert(push_job_spec(*self, *find_window, r, h));
        r
    }

    /// Follows a read-back: the real rate (clamped) becomes the target rate,
    /// and the session is returned for broadcast.
    pub fn apply_read_back(&mut self, read_back: Option<u32>) -> (r: Option<MediaSession>)
        ensures
            final(self).rate == match read_back {
                Some(x) => clamp_rate_spec(x as int, RATE_MAX as int) as u32,
                None => old(self).rate,
            },
            opt_session_view(r) == session_spec(*final(self), read_back),
            final(self).current == old(self).current,
            final(self).rules@ == old(self).rules@,
            final(self).memory@ == old(self).memory@,
            final(self).settings == old(self).settings,
            final(self).listening == old(self).listening,
    {
        match read_back {
            Some(x) => {
                self.rate = clamp_rate(x, RATE_MAX);
            },
            None => {},
        }
        self.current_session(read_back)
    }

    /// OSD payload telling that a client is not taken over (it replaces the
    /// optimistic feedback of the hotkey; the rate shown is the target, which
    /// applies once taken over).
    pub fn takeover_hint(&mut self, rate: u32, mode: PushMode) -> (r: HotkeyPayload)
        requires
            old(self).osd_seq < u64::MAX,
        ensures
            final(self).osd_seq == old(self).osd_seq + 1,
            r.action == hint_action(mode),
            r.rate == rate,
            r.seq == final(self).osd_seq,
            crate::hotkey::opt_text(r.notice) == Some("客户端未接管 · 应用页一键接管"@),
            final(self).rate == old(self).rate,
            final(self).current == old(self).current,
    {
        self.osd_seq = self.osd_seq + 1;
        let action = match mode {
            PushMode::Step { dir } => if dir < 0 {
                ShortcutAction::SpeedDown
            } else {
                ShortcutAction::SpeedUp
            },
            PushMode::Reset => ShortcutAction::Reset,
            PushMode::ExactOnly => ShortcutAction::SpeedUp,
        };
        HotkeyPayload { action, rate, seq: self.osd_seq, notice: Some(owned("客户端未接管 · 应用页一键接管")) }
    }

    /// How to read the current target's rate back without side effects.
    pub fn read_back_plan<F: Fn(&str) -> Option<isize>>(&self, find_window: &F) -> (r: ReadBackPlan)
        requires
            forall|s: &str| call_requires(*find_window, (s,)),
        ensures
            match (self.current, current_rule_index(*self)) {
                (Some(t), Some(i)) => if self.rules@[i].kind == AppKind::Browser {
                    r matches ReadBackPlan::Known(x) && x == match lookup(self.browser_media@, t.process_name@) {
                        Some(m) => if m.has_media {
                            Some(m.rate)
                        } else {
                            None
                        },
                        None => None,
                    }
                } else {
                    r matches ReadBackPlan::Ask(list) && exists|h: isize|
                        (needs_window(self.rules@[i]) ==> resolves(
                            *find_window,
                            window_classes(self.rules@[i].id@),
                            t.hwnd,
                            h,
                        )) && adapter_views(list@) == adapters_spec(self.rules@[i], t, h)
                },
                _ => r is Nothing,
            },
    {
        let target = match &self.current {
            Some(t) => t,
            None => {
                return ReadBackPlan::Nothing;
            },
        };
        let i = match self.current_rule_index() {
            Some(i) => i,
            None => {
                return ReadBackPlan::Nothing;
            },
        };
        let rule = &self.rules[i];
        if rule.kind == AppKind::Browser {
            let x = match find_key(&self.browser_media, target.process_name.as_str()) {
                Some(j) => if self.browser_media[j].1.has_media {
                    Some(self.browser_media[j].1.rate)
                } else {
                    None
                },
                None => None,
            };
            return ReadBackPlan::Known(x);
        }
        ReadBackPlan::Ask(adapters_for(rule, target, find_window))
    }

    /// The foreground changed to `process_name` (window `hwnd`). A process a
    /// rule claims becomes the target; others keep the target. With per-app
    /// memory on and a new memory key that has a rate, that rate is restored;
    /// otherwise the caller reads the player back (a new instance must not
    /// inherit the old one's rate, and changes made in the player's own UI are
    /// respected).
    pub fn on_foreground(&mut self, process_name: &str, hwnd: isize) -> (r: ForegroundEffect)
        ensures
            match match_rule(old(self).rules@, process_name@, 0) {
                None => r is Ignored && *final(self) == *old(self),
                Some(i) => {
                    &&& crate::nm::target_view(final(self).current) == Some(
                        (old(self).rules@[i].id@, hwnd, process_name@),
                    )
                    &&& if !old(self).listening {
                        r is Silent && final(self).rate == old(self).rate
                    } else if old(self).settings.remember_per_app && memory_key_spec(*final(self))
                        != memory_key_spec(*old(self)) && memory_key_spec(*final(self)) is Some && lookup(
                        old(self).memory@,
                        memory_key_spec(*final(self))->0,
                    ) is Some {
                        &&& final(self).rate == clamp_rate_spec(
                            lookup(old(self).memory@, memory_key_spec(*final(self))->0)->0 as int,
                            RATE_MAX as int,
                        )
                        &&& r matches ForegroundEffect::Restored(s) && opt_session_view(s) == session_spec(
                            *final(self),
                            Some(final(self).rate),
                        )
                    } else {
                        r is ReadBack && final(self).rate == old(self).rate
                    }
                },
            },
            final(self).rules@ == old(self).rules@,
            final(self).memory@ == old(self).memory@,
            final(self).settings == old(self).settings,
            final(self).listening == old(self).listening,
            final(self).browser_media@ == old(self).browser_media@,
    {
        let i = match find_matching_rule(&self.rules, process_name) {
            Some(i) => i,
            None => {
                return ForegroundEffect::Ignored;
            },
        };
        let old_key = self.memory_key();
        let rule_id = self.rules[i].id.clone();
        self.current = Some(CurrentTarget { rule_id, hwnd, process_name: owned(process_name) });
        if !self.listening {
            return ForegroundEffect::Silent;
        }
        let new_key = self.memory_key();
        if self.settings.remember_per_app {
            let differs = match (&new_key, &old_key) {
                (Some(a), Some(b)) => !str_eq(a.as_str(), b.as_str()),
                (None, None) => false,
                _ => true,
            };
            if differs {
                match &new_key {
                    Some(k) => match find_key(&self.memory, k.as_str()) {
                        Some(j) => {
                            let saved = self.memory[j].1;
                            self.rate = clamp_rate(saved, RATE_MAX);
                            let rate = self.rate;
                            let session = self.current_session(Some(rate));
                            return ForegroundEffect::Restored(session);
                        },
                        None => {},
                    },
                    None => {},
                }
            }
        }
        ForegroundEffect::ReadBack
    }
}

} // verus!
