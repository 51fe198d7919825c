//! What the front end's commands do to the core state: rates set from the
//! control page, settings and site rules saved, listening switched, the
//! shortcut table registered, clients taken over, and the state restored
//! from the configuration file.

use vstd::prelude::*;
use crate::hotkey::{combo_text_spec, parse_combo};
use crate::rate::{clamp_rate, clamp_rate_spec, RATE_MAX, RATE_MIN};
use crate::rules::{names_contain, rule_views, AppRule, IpcKind};
use crate::router::CDP_DEFAULT_PORT;
use crate::settings::{presets_ok, Settings};
use crate::sites::{merge_saved_site_rules, merge_site, merge_sites, site_normalized, site_views, SiteRule};
use crate::state::{
    combo_view, default_shortcuts, keys_unique, lookup, memory_key_spec, session_spec, shortcut_get, Core,
    MediaSession, ShortcutAction, ShortcutMap, SHORTCUT_ACTIONS,
};
use crate::text::{dec_text, decimal_text, owned, str_eq};
use crate::nm::opt_session_view;
use crate::rules::find_id;

verus! {

/// Which system-facing settings a save changed.
#[derive(Debug, Clone, Copy, PartialEq, Eq, Structural)]
pub struct SettingsChange {
    /// Pitch preservation changed: push the configuration to the browsers.
    pub pitch_changed: bool,
    /// Start-on-boot changed: align the system's autostart entry.
    pub autostart_changed: bool,
}

/// Whether a rate change stores the rate in the memory.
pub open spec fn remembers(c: Core, rate: int) -> bool {
    c.settings.remember_per_app && memory_key_spec(c) is Some && lookup(c.memory@, memory_key_spec(c)->0)
        != Some(rate as u32)
}

impl Core {
    /// A rate set from the control page (slider, preset, recent media, "apply
    /// to current media"): clamped to the product range and remembered.
    /// Returns the rate and whether the memory must be saved.
    pub fn set_rate_from_ui(&mut self, rate: u32) -> (r: (u32, bool))
        requires
            old(self).memory_seq < u64::MAX,
        ensures
            final(self).rate == clamp_rate_spec(rate as int, RATE_MAX as int),
            r.0 == final(self).rate,
            r.1 == remembers(*old(self), final(self).rate as int),
            r.1 ==> lookup(final(self).memory@, memory_key_spec(*old(self))->0) == Some(final(self).rate),
            r.1 ==> forall|k: Seq<char>|
                k != memory_key_spec(*old(self))->0 ==> #[trigger] lookup(final(self).memory@, k) == lookup(
                    old(self).memory@,
                    k,
                ),
            r.1 ==> final(self).memory_seq == old(self).memory_seq + 1,
            !r.1 ==> final(self).memory@ == old(self).memory@ && final(self).memory_seq == old(self).memory_seq,
            keys_unique(old(self).memory@) ==> keys_unique(final(self).memory@),
            final(self).current == old(self).current,
            final(self).settings == old(self).settings,
            final(self).osd_seq == old(self).osd_seq,
            final(self).rules@ == old(self).rules@,
            final(self).browser_media@ == old(self).browser_media@,
            final(self).listening == old(self).listening,
            final(self).connected_browsers@ == old(self).connected_browsers@,
            final(self).site_rules@ == old(self).site_rules@,
            final(self).shortcuts == old(self).shortcuts,
            final(self).conflicts@ == old(self).conflicts@,
            final(self).hotkeys_enabled == old(self).hotkeys_enabled,
            final(self).slowdown_at == old(self).slowdown_at,
    {
        self.rate = clamp_rate(rate, RATE_MAX);
        let remembered = self.remember_rate();
        (self.rate, remembered)
    }

    /// The settings page saved: the repaired settings replace the old ones and
    /// the rate is brought under the slider's (possibly lower) end.
    pub fn apply_settings(&mut self, settings: Settings) -> (r: SettingsChange)
        ensures
            final(self).settings.default_rate == clamp_rate_spec(settings.default_rate as int, RATE_MAX as int),
            final(self).settings.step == crate::rate::clamp_int(settings.step as int, 50, 1000),
            final(self).settings.slider_max == crate::rate::clamp_int(
                settings.slider_max as int,
                1000,
                RATE_MAX as int,
            ),
            presets_ok(final(self).settings.presets@, settings.presets@),
            final(self).settings.preserves_pitch == settings.preserves_pitch,
            final(self).settings.start_on_boot == settings.start_on_boot,
            final(self).settings.remember_per_app == settings.remember_per_app,
            final(self).settings.smart_slowdown == settings.smart_slowdown,
            final(self).settings.high_speed_warning == settings.high_speed_warning,
            final(self).settings.minimize_to_tray == settings.minimize_to_tray,
            final(self).settings.auto_update == settings.auto_update,
            final(self).rate == clamp_rate_spec(old(self).rate as int, final(self).settings.slider_max as int),
            r.pitch_changed == (old(self).settings.preserves_pitch != settings.preserves_pitch),
            r.autostart_changed == (old(self).settings.start_on_boot != settings.start_on_boot),
            final(self).current == old(self).current,
            final(self).memory@ == old(self).memory@,
    {
        let mut s = settings;
        s.normalize();
        let change = SettingsChange {
            pitch_changed: self.settings.preserves_pitch != s.preserves_pitch,
            autostart_changed: self.settings.start_on_boot != s.start_on_boot,
        };
        self.settings = s;
        self.rate = clamp_rate(self.rate, self.settings.slider_max);
        change
    }

    /// Saves one site rule (the host is its key): after repair an empty host
    /// is refused; a known host keeps its name and takes the other fields; an
    /// unknown host is added as a custom site.
    pub fn save_site_rule(&mut self, rule: SiteRule) -> (r: Result<(), String>)
        ensures
            site_normalized(rule@).host.len() == 0 ==> (r matches Err(e) && e@ == "站点 host 不能为空"@
                && final(self).site_rules@ == old(self).site_rules@),
            site_normalized(rule@).host.len() > 0 ==> r is Ok && site_views(final(self).site_rules@)
                == merge_site(site_views(old(self).site_rules@), rule@),
            final(self).rate == old(self).rate,
            final(self).rules@ == old(self).rules@,
    {
        let mut probe = rule.duplicate();
        probe.normalize();
        if probe.host.as_str().is_empty() {
            return Err(owned("站点 host 不能为空"));
        }
        let ghost before = site_views(self.site_rules@);
        let ghost rv = rule@;
        let mut saved: Vec<SiteRule> = Vec::new();
        saved.push(rule);
        assert(site_views(saved@) =~= seq![rv]);
        merge_saved_site_rules(&mut self.site_rules, saved);
        assert(seq![rv].drop_last() =~= Seq::<crate::sites::SiteRuleView>::empty());
        assert(merge_sites(before, Seq::<crate::sites::SiteRuleView>::empty()) == before);
        assert(seq![rv].last() == rv);
        assert(merge_sites(before, seq![rv]) == merge_site(before, rv));
        Ok(())
    }

    /// Listening on or off; while off the control page shows no media.
    pub fn set_listening(&mut self, enabled: bool) -> (r: Option<MediaSession>)
        ensures
            final(self).listening == enabled,
            opt_session_view(r) == session_spec(*final(self), None),
            final(self).rate == old(self).rate,
            final(self).current == old(self).current,
    {
        self.listening = enabled;
        self.current_session(None)
    }

    /// Restores the start-up rate: the default rate under the slider's end.
    pub fn reset_to_default_rate(&mut self)
        requires
            old(self).settings.slider_max >= RATE_MIN,
        ensures
            final(self).rate == clamp_rate_spec(
                old(self).settings.default_rate as int,
                old(self).settings.slider_max as int,
            ),
            final(self).settings == old(self).settings,
    {
        self.rate = clamp_rate(self.settings.default_rate, self.settings.slider_max);
    }
}

/// The saved rate memory, every rate brought into the product range.
pub fn clamp_memory(saved: Vec<(String, u32)>) -> (r: Vec<(String, u32)>)
    ensures
        r@.len() == saved@.len(),
        keys_unique(saved@) ==> keys_unique(r@),
        forall|i: int|
            0 <= i < saved@.len() ==> (#[trigger] r@[i]).0 == saved@[i].0 && r@[i].1 == clamp_rate_spec(
                saved@[i].1 as int,
                RATE_MAX as int,
            ),
{
    let mut out: Vec<(String, u32)> = Vec::new();
    let mut i: usize = 0;
    while i < saved.len()
        invariant
            i <= saved.len(),
            out@.len() == i,
            forall|k: int|
                0 <= k < i ==> (#[trigger] out@[k]).0 == saved@[k].0 && out@[k].1 == clamp_rate_spec(
                    saved@[k].1 as int,
                    RATE_MAX as int,
                ),
        decreases saved.len() - i,
    {
        out.push((saved[i].0.clone(), clamp_rate(saved[i].1, RATE_MAX)));
        i = i + 1;
    }
    out
}

/// The combination a saved table gives an action: its last non-empty entry.
pub open spec fn saved_combo(saved: Seq<(ShortcutAction, Vec<String>)>, a: ShortcutAction) -> Option<Seq<Seq<char>>>
    decreases saved.len(),
{
    if saved.len() == 0 {
        None
    } else if saved.last().0 == a && saved.last().1@.len() > 0 {
        Some(combo_view(saved.last().1))
    } else {
        saved_combo(saved.drop_last(), a)
    }
}

/// The shortcut table after loading: the defaults, overridden by every saved
/// non-empty combination (so actions added by a newer version keep theirs).
pub fn shortcuts_from_saved(saved: Vec<(ShortcutAction, Vec<String>)>) -> (r: ShortcutMap)
    ensures
        forall|a: ShortcutAction|
            shortcut_get(r, a) == match saved_combo(saved@, a) {
                Some(c) => Some(c),
                None => Some(crate::state::default_combo(a)),
            },
{
    let mut merged = default_shortcuts();
    let ghost base = merged;
    let mut i: usize = 0;
    let n = saved.len();
    let ghost sv = saved@;
    let mut rest = saved;
    let mut items: Vec<(ShortcutAction, Vec<String>)> = Vec::new();
    while rest.len() > 0
        invariant
            sv.len() == n,
            rest@.len() + items@.len() == n,
            forall|k: int| 0 <= k < rest@.len() ==> rest@[k] == sv[k],
            forall|k: int| 0 <= k < items@.len() ==> items@[k] == sv[n - 1 - k],
        decreases rest.len(),
    {
        let e = rest.pop().unwrap();
        items.push(e);
    }
    while i < n
        invariant
            i <= n,
            sv.len() == n,
            items@.len() == n - i,
            forall|k: int| 0 <= k < n - i ==> items@[k] == sv[n - 1 - k],
            forall|a: ShortcutAction|
                shortcut_get(merged, a) == match saved_combo(sv.subrange(0, i as int), a) {
                    Some(c) => Some(c),
                    None => shortcut_get(base, a),
                },
        decreases n - i,
    {
        let e = items.pop().unwrap();
        assert(e == sv[i as int]);
        let ghost before = merged;
        assert(sv.subrange(0, i + 1).drop_last() =~= sv.subrange(0, i as int));
        assert(sv.subrange(0, i + 1).last() == sv[i as int]);
        if e.1.len() > 0 {
            let ghost cv = combo_view(e.1);
            merged.insert(e.0, e.1);
        }
        i = i + 1;
    }
    assert(sv.subrange(0, n as int) =~= sv);
    merged
}

/// A client rule resolved for taking over: who it is and which port its
/// DevTools interface is opened on.
#[derive(Debug, Clone)]
pub struct TakeoverTarget {
    pub name: String,
    pub process: String,
    pub aliases: Vec<String>,
    pub port: u16,
}

/// Pause between two checks while a client exits or its port comes up, in
/// milliseconds.
pub const TAKEOVER_TICK_MS: u64 = 200;

/// Checks while waiting for the old instance to exit (single-instance locks
/// would hand the new arguments to it otherwise).
pub const EXIT_CHECKS: u32 = 20;

/// Checks while waiting for the debugging port after the restart.
pub const PORT_CHECKS: u32 = 50;

/// What taking over a rule resolves to.
pub open spec fn takeover_spec(rules: Seq<AppRule>, id: Seq<char>) -> Result<(Seq<char>, Seq<char>, Seq<Seq<char>>, u16), Seq<char>> {
    match find_id(rule_views(rules), id, 0) {
        None => Err("未知应用规则："@ + id),
        Some(i) => {
            let r = rules[i];
            if r.ipc != IpcKind::Cdp {
                Err(r.name@ + " 不使用 CDP 接管"@)
            } else {
                Ok(
                    (
                        r.name@,
                        r.process@,
                        r.aliases@.map_values(|a: String| a@),
                        match r.ipc_config {
                            Some(c) => match c.port {
                                Some(p) => p,
                                None => CDP_DEFAULT_PORT,
                            },
                            None => CDP_DEFAULT_PORT,
                        },
                    ),
                )
            }
        },
    }
}

pub open spec fn takeover_view(t: TakeoverTarget) -> (Seq<char>, Seq<char>, Seq<Seq<char>>, u16) {
    (t.name@, t.process@, t.aliases@.map_values(|a: String| a@), t.port)
}

impl Core {
    /// The client rule `id` for the take-over button: unknown ids and rules
    /// not driven over DevTools are refused.
    pub fn takeover_target(&self, id: &str) -> (r: Result<TakeoverTarget, String>)
        ensures
            match takeover_spec(self.rules@, id@) {
                Ok(v) => r matches Ok(t) && takeover_view(t) == v,
                Err(m) => r matches Err(e) && e@ == m,
            },
    {
        let key = owned(id);
        proof {
            crate::rules::lemma_find_id_pub(rule_views(self.rules@), id@, 0);
        }
        let i = match crate::rules::find_rule(&self.rules, &key) {
            Some(i) => i,
            None => {
                let mut e = owned("未知应用规则：");
                e.append(id);
                return Err(e);
            },
        };
        let rule = &self.rules[i];
        if rule.ipc != IpcKind::Cdp {
            let mut e = rule.name.clone();
            e.append(" 不使用 CDP 接管");
            return Err(e);
        }
        let port = match &rule.ipc_config {
            Some(c) => match c.port {
                Some(p) => p,
                None => CDP_DEFAULT_PORT,
            },
            None => CDP_DEFAULT_PORT,
        };
        Ok(
            TakeoverTarget {
                name: rule.name.clone(),
                process: rule.process.clone(),
                aliases: crate::rules::clone_strings(&rule.aliases),
                port,
            },
        )
    }
}

/// The argument a client is restarted with.
pub open spec fn debug_port_text(port: u16) -> Seq<char> {
    "--remote-debugging-port="@ + dec_text(port as nat)
}

/// Reply when the port is already online.
pub open spec fn already_online_text(name: Seq<char>, port: u16) -> Seq<char> {
    "「"@ + name + "」已在接管中（本机控制端口 "@ + dec_text(port as nat) + " 在线）"@
}

/// Error when the client is not running.
pub open spec fn not_running_text(name: Seq<char>) -> Seq<char> {
    "「"@ + name + "」未在运行。请先打开它再点「接管」（接管会重启客户端并开启仅本机可见的控制端口）"@
}

/// Reply when the port came up after the restart.
pub open spec fn taken_over_text(name: Seq<char>, port: u16) -> Seq<char> {
    "已接管「"@ + name + "」：控制端口 "@ + dec_text(port as nat) + " 在线，播放视频后全局快捷键即刻可用"@
}

/// Error when the port never came up.
pub open spec fn port_down_text(name: Seq<char>, port: u16) -> Seq<char> {
    "「"@ + name + "」已重启，但控制端口 "@ + dec_text(port as nat) + " 未上线；该客户端版本可能不接受调试参数"@
}

/// Error when the executable could not be started again.
pub open spec fn spawn_failed_text(exe: Seq<char>, reason: Seq<char>) -> Seq<char> {
    "重启 "@ + exe + " 失败："@ + reason
}

/// Error for an event the take-over does not expect in its state.
pub open spec fn unexpected_event_text() -> Seq<char> {
    "接管流程已结束"@
}

impl TakeoverTarget {
    /// Whether a (lower-case) process name is this client's.
    pub fn claims(&self, process_name: &str) -> (r: bool)
        ensures
            r == (self.process@ == process_name@ || names_contain(self.aliases@, process_name@)),
    {
        str_eq(self.process.as_str(), process_name) || crate::rules::contains_name(&self.aliases, process_name)
    }

    /// The argument the client is restarted with.
    pub fn debug_port_arg(&self) -> (r: String)
        ensures
            r@ == debug_port_text(self.port),
    {
        let mut a = owned("--remote-debugging-port=");
        let p = decimal_text(self.port as u64);
        a.append(p.as_str());
        a
    }

    /// Reply when the port is already online.
    pub fn already_online_message(&self) -> (r: String)
        ensures
            r@ == already_online_text(self.name@, self.port),
    {
        let mut m = owned("「");
        m.append(self.name.as_str());
        m.append("」已在接管中（本机控制端口 ");
        let p = decimal_text(self.port as u64);
        m.append(p.as_str());
        m.append(" 在线）");
        m
    }

    /// Error when the client is not running.
    pub fn not_running_message(&self) -> (r: String)
        ensures
            r@ == not_running_text(self.name@),
    {
        let mut m = owned("「");
        m.append(self.name.as_str());
        m.append("」未在运行。请先打开它再点「接管」（接管会重启客户端并开启仅本机可见的控制端口）");
        m
    }

    /// Reply when the port came up after the restart.
    pub fn taken_over_message(&self) -> (r: String)
        ensures
            r@ == taken_over_text(self.name@, self.port),
    {
        let mut m = owned("已接管「");
        m.append(self.name.as_str());
        m.append("」：控制端口 ");
        let p = decimal_text(self.port as u64);
        m.append(p.as_str());
        m.append(" 在线，播放视频后全局快捷键即刻可用");
        m
    }

    /// Error when the port never came up.
    pub fn port_down_message(&self) -> (r: String)
        ensures
            r@ == port_down_text(self.name@, self.port),
    {
        let mut m = owned("「");
        m.append(self.name.as_str());
        m.append("」已重启，但控制端口 ");
        let p = decimal_text(self.port as u64);
        m.append(p.as_str());
        m.append(" 未上线；该客户端版本可能不接受调试参数");
        m
    }
}

/// Where a take-over stands.
#[derive(Debug, Clone, Copy, PartialEq, Eq, Structural)]
pub enum TakeoverState {
    Start,
    /// Asked whether the port is online.
    Probing,
    /// Asked for the running instances.
    Scanning,
    /// Waiting for the ended instances to exit; the count of checks made
    /// before the one now reported.
    Exiting(u32),
    /// Asked to start the client again.
    Spawning,
    /// Waiting for the port; the count of checks made before the one now
    /// reported.
    Polling(u32),
    Done,
}

/// What the caller observed for the last action.
#[derive(Debug)]
pub enum TakeoverEvent {
    Begin,
    /// Whether the port answered.
    PortChecked(bool),
    /// Whether a running instance, and its executable, was found.
    Scanned(bool),
    /// Whether every instance has exited.
    ExitChecked(bool),
    /// The restart, or the executable shown and why it could not start.
    Spawned(Result<(), (String, String)>),
}

/// What the caller does next.
#[derive(Debug, PartialEq)]
pub enum TakeoverAction {
    /// Ask whether the port is online.
    ProbePort,
    /// List the running instances of the client and find its executable.
    ScanProcesses,
    /// End every running instance, wait [`TAKEOVER_TICK_MS`], and check
    /// whether they exited.
    KillAndCheckExit,
    /// Wait [`TAKEOVER_TICK_MS`] and check again whether they exited.
    CheckExit,
    /// Start the executable with this argument.
    Spawn(String),
    /// Wait [`TAKEOVER_TICK_MS`] and ask whether the port is online.
    PollPort,
    /// The take-over ends with this reply or error.
    Finish(Result<String, String>),
}

pub enum TakeoverActionView {
    ProbePort,
    ScanProcesses,
    KillAndCheckExit,
    CheckExit,
    Spawn(Seq<char>),
    PollPort,
    Finish(Result<Seq<char>, Seq<char>>),
}

pub open spec fn takeover_action_view(a: TakeoverAction) -> TakeoverActionView {
    match a {
        TakeoverAction::ProbePort => TakeoverActionView::ProbePort,
        TakeoverAction::ScanProcesses => TakeoverActionView::ScanProcesses,
        TakeoverAction::KillAndCheckExit => TakeoverActionView::KillAndCheckExit,
        TakeoverAction::CheckExit => TakeoverActionView::CheckExit,
        TakeoverAction::Spawn(x) => TakeoverActionView::Spawn(x@),
        TakeoverAction::PollPort => TakeoverActionView::PollPort,
        TakeoverAction::Finish(Ok(m)) => TakeoverActionView::Finish(Ok(m@)),
        TakeoverAction::Finish(Err(m)) => TakeoverActionView::Finish(Err(m@)),
    }
}

/// Taking over a client (`t` as [`takeover_view`] gives it): a port already
/// online is reported at once; a client not running is refused; otherwise
/// every instance is ended, at most [`EXIT_CHECKS`] checks wait for them to
/// exit, the client is started with the debugging argument, and at most
/// [`PORT_CHECKS`] checks wait for the port, which ends in the taken-over
/// reply or the port-down error.
pub open spec fn takeover_step_spec(
    t: (Seq<char>, Seq<char>, Seq<Seq<char>>, u16),
    s: TakeoverState,
    e: TakeoverEvent,
) -> (TakeoverState, TakeoverActionView) {
    let (name, port) = (t.0, t.3);
    match (s, e) {
        (TakeoverState::Start, TakeoverEvent::Begin) => (TakeoverState::Probing, TakeoverActionView::ProbePort),
        (TakeoverState::Probing, TakeoverEvent::PortChecked(up)) => if up {
            (TakeoverState::Done, TakeoverActionView::Finish(Ok(already_online_text(name, port))))
        } else {
            (TakeoverState::Scanning, TakeoverActionView::ScanProcesses)
        },
        (TakeoverState::Scanning, TakeoverEvent::Scanned(found)) => if found {
            (TakeoverState::Exiting(0), TakeoverActionView::KillAndCheckExit)
        } else {
            (TakeoverState::Done, TakeoverActionView::Finish(Err(not_running_text(name))))
        },
        (TakeoverState::Exiting(n), TakeoverEvent::ExitChecked(gone)) => if gone || n + 1 >= EXIT_CHECKS {
            (TakeoverState::Spawning, TakeoverActionView::Spawn(debug_port_text(port)))
        } else {
            (TakeoverState::Exiting((n + 1) as u32), TakeoverActionView::CheckExit)
        },
        (TakeoverState::Spawning, TakeoverEvent::Spawned(r)) => match r {
            Ok(_) => (TakeoverState::Polling(0), TakeoverActionView::PollPort),
            Err(x) => (TakeoverState::Done, TakeoverActionView::Finish(Err(spawn_failed_text(x.0@, x.1@)))),
        },
        (TakeoverState::Polling(n), TakeoverEvent::PortChecked(up)) => if up {
            (TakeoverState::Done, TakeoverActionView::Finish(Ok(taken_over_text(name, port))))
        } else if n + 1 >= PORT_CHECKS {
            (TakeoverState::Done, TakeoverActionView::Finish(Err(port_down_text(name, port))))
        } else {
            (TakeoverState::Polling((n + 1) as u32), TakeoverActionView::PollPort)
        },
        _ => (TakeoverState::Done, TakeoverActionView::Finish(Err(unexpected_event_text()))),
    }
}

/// One step of taking over a client (see [`takeover_step_spec`]); the caller
/// performs the action and reports what it observed as the next event.
pub fn takeover_step(t: &TakeoverTarget, s: TakeoverState, e: TakeoverEvent) -> (r: (TakeoverState, TakeoverAction))
    ensures
        (r.0, takeover_action_view(r.1)) == takeover_step_spec(takeover_view(*t), s, e),
{
    match (s, e) {
        (TakeoverState::Start, TakeoverEvent::Begin) => (TakeoverState::Probing, TakeoverAction::ProbePort),
        (TakeoverState::Probing, TakeoverEvent::PortChecked(up)) => if up {
            (TakeoverState::Done, TakeoverAction::Finish(Ok(t.already_online_message())))
        } else {
            (TakeoverState::Scanning, TakeoverAction::ScanProcesses)
        },
        (TakeoverState::Scanning, TakeoverEvent::Scanned(found)) => if found {
            (TakeoverState::Exiting(0), TakeoverAction::KillAndCheckExit)
        } else {
            (TakeoverState::Done, TakeoverAction::Finish(Err(t.not_running_message())))
        },
        (TakeoverState::Exiting(n), TakeoverEvent::ExitChecked(gone)) => if gone || n >= EXIT_CHECKS - 1 {
            (TakeoverState::Spawning, TakeoverAction::Spawn(t.debug_port_arg()))
        } else {
            (TakeoverState::Exiting(n + 1), TakeoverAction::CheckExit)
        },
        (TakeoverState::Spawning, TakeoverEvent::Spawned(r)) => match r {
            Ok(_) => (TakeoverState::Polling(0), TakeoverAction::PollPort),
            Err((exe, why)) => {
                let mut m = owned("重启 ");
                m.append(exe.as_str());
                m.append(" 失败：");
                m.append(why.as_str());
                (TakeoverState::Done, TakeoverAction::Finish(Err(m)))
            },
        },
        (TakeoverState::Polling(n), TakeoverEvent::PortChecked(up)) => if up {
            (TakeoverState::Done, TakeoverAction::Finish(Ok(t.taken_over_message())))
        } else if n >= PORT_CHECKS - 1 {
            (TakeoverState::Done, TakeoverAction::Finish(Err(t.port_down_message())))
        } else {
            (TakeoverState::Polling(n + 1), TakeoverAction::PollPort)
        },
        _ => (TakeoverState::Done, TakeoverAction::Finish(Err(owned("接管流程已结束")))),
    }
}

/// What registering an action's combination starts from: its accelerator
/// text, or why it has none.
pub open spec fn plan_entry(m: ShortcutMap, a: ShortcutAction) -> Option<Result<Seq<char>, Seq<char>>> {
    match shortcut_get(m, a) {
        None => None,
        Some(c) => Some(combo_text_spec(c)),
    }
}

pub open spec fn text_result_view(r: Option<Result<String, String>>) -> Option<Result<Seq<char>, Seq<char>>> {
    match r {
        None => None,
        Some(Ok(t)) => Some(Ok(t@)),
        Some(Err(e)) => Some(Err(e@)),
    }
}

impl Core {
    /// The accelerators to register, one entry per action in order (`None`
    /// for an action without a combination); nothing while hotkeys are off.
    /// Registering, and refusing duplicates and combinations the system
    /// holds, is the caller's.
    pub fn shortcut_plan(&self) -> (r: Vec<(ShortcutAction, Option<Result<String, String>>)>)
        ensures
            !self.hotkeys_enabled ==> r@.len() == 0,
            self.hotkeys_enabled ==> r@.len() == 5 && forall|k: int|
                0 <= k < 5 ==> (#[trigger] r@[k]).0 == SHORTCUT_ACTIONS@[k] && text_result_view(r@[k].1)
                    == plan_entry(self.shortcuts, SHORTCUT_ACTIONS@[k]),
    {
        let mut out: Vec<(ShortcutAction, Option<Result<String, String>>)> = Vec::new();
        if !self.hotkeys_enabled {
            return out;
        }
        let mut k: usize = 0;
        while k < 5
            invariant
                k <= 5,
                out@.len() == k,
                forall|j: int|
                    0 <= j < k ==> (#[trigger] out@[j]).0 == SHORTCUT_ACTIONS@[j] && text_result_view(out@[j].1)
                        == plan_entry(self.shortcuts, SHORTCUT_ACTIONS@[j]),
            decreases 5 - k,
        {
            let a = SHORTCUT_ACTIONS[k];
            let entry = match self.shortcuts.get(a) {
                Some(combo) => {
                    let r = parse_combo(combo);
                    Some(r)
                },
                None => None,
            };
            out.push((a, entry));
            k = k + 1;
        }
        out
    }
}

} // verus!
