use omnispeed::grid::{grid_usable, KeyRateGrid};
use omnispeed::clients::{extract_rate, rate_query};
use omnispeed::commands::{
    clamp_memory, shortcuts_from_saved, takeover_step, TakeoverAction, TakeoverEvent, TakeoverState, TakeoverTarget,
    EXIT_CHECKS, PORT_CHECKS,
};
use omnispeed::hotkey::PushMode;
use omnispeed::router::{Attempt, PushJob, PushNext};
use omnispeed::nm::{chromium_manifest_file, chromium_origin, launcher_script, registry_key};
use omnispeed::settings::Settings;
use omnispeed::sites::SiteRule;
use omnispeed::state::{default_shortcuts, Core, CurrentTarget, ShortcutAction};
use omnispeed::window::to_wide;

fn core_on_mpv() -> Core {
    let mut core = Core::default();
    core.current = Some(CurrentTarget { rule_id: "mpv".into(), hwnd: 7, process_name: "mpv.exe".into() });
    core
}

fn strings(v: &[&str]) -> Vec<String> {
    v.iter().map(|s| s.to_string()).collect()
}

fn site_rule(host: &str, max_rate: u32, default_rate: Option<u32>) -> SiteRule {
    SiteRule { host: host.into(), name: "x".into(), default_rate, max_rate, rate_lock: false, follow: false }
}

#[test]
fn ui_rate_is_clamped_and_remembered() {
    let mut core = core_on_mpv();
    let (rate, remembered) = core.set_rate_from_ui(20000);
    assert_eq!(rate, 16000);
    assert!(remembered);
    assert_eq!(core.rate, 16000);
    // The same rate again changes nothing in the memory.
    let (_, again) = core.set_rate_from_ui(16000);
    assert!(!again);
}

#[test]
fn ui_rate_without_a_target_is_not_remembered() {
    let mut core = Core::default();
    let (rate, remembered) = core.set_rate_from_ui(50);
    assert_eq!(rate, 250);
    assert!(!remembered);
    assert!(core.memory.is_empty());
}

#[test]
fn saving_settings_repairs_them_and_lowers_the_rate() {
    let mut core = Core::default();
    core.rate = 5000;
    let mut s = Settings::default();
    s.slider_max = 3000;
    s.step = 5;
    s.default_rate = 99999;
    s.preserves_pitch = false;
    let change = core.apply_settings(s);
    assert!(change.pitch_changed);
    assert!(!change.autostart_changed);
    assert_eq!(core.settings.step, 50);
    assert_eq!(core.settings.slider_max, 3000);
    assert_eq!(core.settings.default_rate, 16000);
    assert_eq!(core.rate, 3000);
}

#[test]
fn site_rule_with_an_empty_host_is_refused() {
    let mut core = Core::default();
    let before = core.site_rules.len();
    let err = core.save_site_rule(site_rule("   ", 4000, None)).unwrap_err();
    assert_eq!(err, "站点 host 不能为空");
    assert_eq!(core.site_rules.len(), before);
}

#[test]
fn site_rule_updates_a_known_host_and_adds_a_new_one() {
    let mut core = Core::default();
    core.save_site_rule(site_rule(" BiliBili.com ", 3000, Some(9000))).unwrap();
    assert_eq!(core.site_rules.len(), 8);
    let bili = &core.site_rules[0];
    assert_eq!(bili.name, "哔哩哔哩");
    assert_eq!(bili.max_rate, 3000);
    assert_eq!(bili.default_rate, Some(3000));
    assert!(!bili.rate_lock);
    core.save_site_rule(site_rule("example.org", 2000, None)).unwrap();
    assert_eq!(core.site_rules.len(), 9);
    assert_eq!(core.site_rules[8].host, "example.org");
}

#[test]
fn listening_off_hides_the_session() {
    let mut core = core_on_mpv();
    assert!(core.set_listening(false).is_none());
    assert!(!core.listening);
    assert!(core.set_listening(true).is_some());
}

#[test]
fn reset_goes_to_the_default_rate_under_the_slider() {
    let mut core = Core::default();
    core.rate = 2500;
    core.settings.default_rate = 8000;
    core.settings.slider_max = 4000;
    core.reset_to_default_rate();
    assert_eq!(core.rate, 4000);
}

#[test]
fn loaded_memory_is_clamped() {
    let out = clamp_memory(vec![("mpv.exe".to_string(), 40000), ("a.com".to_string(), 10)]);
    assert_eq!(out, vec![("mpv.exe".to_string(), 16000), ("a.com".to_string(), 250)]);
}

#[test]
fn saved_shortcuts_override_defaults_but_empty_ones_do_not() {
    let saved = vec![
        (ShortcutAction::SpeedUp, strings(&["Ctrl", "Shift", "U"])),
        (ShortcutAction::Reset, Vec::new()),
    ];
    let map = shortcuts_from_saved(saved);
    let defaults = default_shortcuts();
    assert_eq!(map.get(ShortcutAction::SpeedUp), Some(&strings(&["Ctrl", "Shift", "U"])));
    assert_eq!(map.get(ShortcutAction::Reset), defaults.get(ShortcutAction::Reset));
    assert_eq!(map.get(ShortcutAction::PlayPause), defaults.get(ShortcutAction::PlayPause));
}

#[test]
fn takeover_resolves_cdp_clients_only() {
    let core = Core::default();
    let t: TakeoverTarget = core.takeover_target("bilibili-client").unwrap();
    assert_eq!(t.port, 9333);
    assert_eq!(t.process, "哔哩哔哩.exe");
    assert!(t.claims("bilibili.exe"));
    assert!(!t.claims("mpv.exe"));
    assert_eq!(t.debug_port_arg(), "--remote-debugging-port=9333");
    assert_eq!(t.already_online_message(), "「哔哩哔哩桌面端」已在接管中（本机控制端口 9333 在线）");
    assert_eq!(
        t.port_down_message(),
        "「哔哩哔哩桌面端」已重启，但控制端口 9333 未上线；该客户端版本可能不接受调试参数"
    );
    assert_eq!(
        t.taken_over_message(),
        "已接管「哔哩哔哩桌面端」：控制端口 9333 在线，播放视频后全局快捷键即刻可用"
    );
    assert!(t.not_running_message().starts_with("「哔哩哔哩桌面端」未在运行。"));
    assert_eq!(core.takeover_target("nope").unwrap_err(), "未知应用规则：nope");
    let mpv = core.takeover_target("mpv").unwrap_err();
    assert!(mpv.ends_with(" 不使用 CDP 接管"));
}

#[test]
fn shortcut_plan_lists_every_action_or_nothing() {
    let mut core = Core::default();
    let plan = core.shortcut_plan();
    assert_eq!(plan.len(), 5);
    assert_eq!(plan[0].0, ShortcutAction::SpeedUp);
    assert!(plan.iter().all(|(_, e)| matches!(e, Some(Ok(_)))));
    core.hotkeys_enabled = false;
    assert!(core.shortcut_plan().is_empty());
}

#[test]
fn wide_strings_end_in_nul_and_pair_surrogates() {
    assert_eq!(to_wide("ab"), vec![0x61, 0x62, 0]);
    assert_eq!(to_wide("😀"), vec![0xD83D, 0xDE00, 0]);
    assert_eq!(to_wide(""), vec![0]);
}

#[test]
fn native_host_registration_texts() {
    assert_eq!(launcher_script("C:\\a b\\o.exe"), "@echo off\r\n\"C:\\a b\\o.exe\" --nm-host %*\r\n");
    assert_eq!(chromium_manifest_file(), "com.omnispeed.host.json");
    assert_eq!(chromium_origin(), "chrome-extension://ejpnpjbhmgckjfdednjgfhdpobencmpb/");
    assert_eq!(registry_key("Software\\Google\\Chrome\\NativeMessagingHosts"), "Software\\Google\\Chrome\\NativeMessagingHosts\\com.omnispeed.host");
}

#[test]
fn a_sent_rate_reads_back_the_same() {
    for rate in [250u32, 1000, 1250, 2005, 16000] {
        let q = rate_query(rate);
        let value = q.trim_start_matches("command=rate&val=");
        let xml = format!("<root><rate>{value}</rate></root>");
        assert_eq!(extract_rate(&xml).unwrap(), rate);
    }
}

fn bili() -> TakeoverTarget {
    Core::default().takeover_target("bilibili-client").unwrap()
}

#[test]
fn takeover_of_an_online_port_stops_at_once() {
    let t = bili();
    let (s, a) = takeover_step(&t, TakeoverState::Start, TakeoverEvent::Begin);
    assert_eq!((s, a), (TakeoverState::Probing, TakeoverAction::ProbePort));
    let (s, a) = takeover_step(&t, s, TakeoverEvent::PortChecked(true));
    assert_eq!(s, TakeoverState::Done);
    assert_eq!(a, TakeoverAction::Finish(Ok(t.already_online_message())));
}

#[test]
fn takeover_of_a_client_not_running_is_refused() {
    let t = bili();
    let (s, _) = takeover_step(&t, TakeoverState::Probing, TakeoverEvent::PortChecked(false));
    assert_eq!(s, TakeoverState::Scanning);
    let (_, a) = takeover_step(&t, s, TakeoverEvent::Scanned(false));
    assert_eq!(a, TakeoverAction::Finish(Err(t.not_running_message())));
}

#[test]
fn takeover_waits_bounded_for_exit_and_port() {
    let t = bili();
    let (mut s, a) = takeover_step(&t, TakeoverState::Scanning, TakeoverEvent::Scanned(true));
    assert_eq!(a, TakeoverAction::KillAndCheckExit);
    let mut checks = 0;
    loop {
        checks += 1;
        let (next, a) = takeover_step(&t, s, TakeoverEvent::ExitChecked(false));
        s = next;
        if let TakeoverAction::Spawn(arg) = a {
            assert_eq!(arg, "--remote-debugging-port=9333");
            break;
        }
        assert_eq!(a, TakeoverAction::CheckExit);
    }
    assert_eq!(checks, EXIT_CHECKS);
    let (mut s, a) = takeover_step(&t, s, TakeoverEvent::Spawned(Ok(())));
    assert_eq!(a, TakeoverAction::PollPort);
    let mut polls = 0;
    let last = loop {
        polls += 1;
        let (next, a) = takeover_step(&t, s, TakeoverEvent::PortChecked(false));
        s = next;
        if a != TakeoverAction::PollPort {
            break a;
        }
    };
    assert_eq!(polls, PORT_CHECKS);
    assert_eq!(last, TakeoverAction::Finish(Err(t.port_down_message())));
    let (_, a) = takeover_step(&t, TakeoverState::Polling(3), TakeoverEvent::PortChecked(true));
    assert_eq!(a, TakeoverAction::Finish(Ok(t.taken_over_message())));
    let (_, a) = takeover_step(
        &t,
        TakeoverState::Spawning,
        TakeoverEvent::Spawned(Err(("C:\\b.exe".into(), "denied".into()))),
    );
    assert_eq!(a, TakeoverAction::Finish(Err("重启 C:\\b.exe 失败：denied".into())));
}

#[test]
fn push_tries_channels_in_order_and_stops_at_success() {
    let job = PushJob { target_rate: 1500, adapters: vec![
        omnispeed::router::Adapter::PotPlayer { hwnd: 1 },
        omnispeed::router::Adapter::PotPlayer { hwnd: 2 },
    ], is_client: false };
    let step = PushMode::Step { dir: 1 };
    assert_eq!(job.next_try(step, 0, None), PushNext::Try { channel: 0, attempt: Attempt::SetRate });
    assert_eq!(job.next_try(step, 1, None), PushNext::Try { channel: 0, attempt: Attempt::Step(1) });
    assert_eq!(job.next_try(step, 2, None), PushNext::Try { channel: 1, attempt: Attempt::SetRate });
    assert_eq!(job.next_try(step, 4, None), PushNext::NothingApplied);
    assert_eq!(job.next_try(step, 1, Some(Some(1500))), PushNext::Applied(Some(1500)));
    assert_eq!(job.next_try(PushMode::Reset, 1, None), PushNext::Try { channel: 1, attempt: Attempt::Reset });
    assert_eq!(job.next_try(PushMode::ExactOnly, 2, None), PushNext::NothingApplied);
}

#[test]
fn remembering_keeps_other_entries() {
    let mut core = core_on_mpv();
    core.memory = vec![("vlc.exe".to_string(), 2000), ("a.com".to_string(), 1500)];
    let (_, remembered) = core.set_rate_from_ui(3000);
    assert!(remembered);
    assert_eq!(
        core.memory,
        vec![("vlc.exe".to_string(), 2000), ("a.com".to_string(), 1500), ("mpv.exe".to_string(), 3000)]
    );
}

#[test]
fn site_hosts_lose_unicode_white_space() {
    let mut core = Core::default();
    core.save_site_rule(site_rule("\u{3000}\tYouTube.COM\u{a0}\n", 4000, None)).unwrap();
    assert_eq!(core.site_rules.len(), 8);
    assert_eq!(core.site_rules[2].max_rate, 4000);
}

#[test]
fn factory_core_holds_the_defaults() {
    let core = Core::default();
    assert!(core.hotkey_ready());
    assert!(core.osd_room() && core.memory_room());
    assert_eq!(core.settings.step, 250);
    assert_eq!(core.settings.slider_max, 6000);
    assert_eq!(core.site_rules[3].host, "v.qq.com");
    assert!(!core.site_rules[3].follow);
    let defaults = default_shortcuts();
    for a in omnispeed::state::SHORTCUT_ACTIONS {
        assert_eq!(core.shortcuts.get(a), defaults.get(a));
    }
}

#[test]
fn unusable_grids_are_reported() {
    let g = KeyRateGrid { anchors: Vec::new(), step: 100, min: 3000, max: 1000, step_gap_ms: 0 };
    assert!(!grid_usable(&g));
    let ok = KeyRateGrid { min: 250, max: 2000, ..g.clone() };
    assert!(grid_usable(&ok));
    let mut core = Core::default();
    core.rules[0].key_rate = Some(g);
    assert!(!core.grids_usable());
    assert!(!core.hotkey_ready());
}
