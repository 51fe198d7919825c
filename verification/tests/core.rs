use omnispeed::hotkey::{key_token, modifier_token, parse_combo, HotkeyDispatch, HotkeyEffect, PushMode};
use omnispeed::nm::{browser_in_chain, encode_frame, frame_len, BridgeConfig, Senders, MAX_FRAME};
use omnispeed::router::{
    adapters_for, needs_takeover_hint, pot_speed_reading, window_alive, Adapter, Attempt, ChannelAction,
    ForegroundEffect, ReadBackPlan,
};
use omnispeed::rules::built_in_rules;
use omnispeed::sites::default_site_rules;
use omnispeed::state::{default_shortcuts, BrowserMedia, Core, CurrentTarget, ShortcutAction};

fn core_with_target(process: &str, rule_id: &str) -> Core {
    let mut core = Core::default();
    core.current = Some(CurrentTarget { rule_id: rule_id.into(), hwnd: 7, process_name: process.into() });
    core
}

fn media(host: &str, rate: u32, buffered_ms: Option<u64>) -> BrowserMedia {
    BrowserMedia {
        has_media: true,
        rate,
        title: "t".into(),
        host: host.into(),
        is_live: false,
        ad_playing: false,
        buffered_ahead: buffered_ms,
        adapter: "generic".into(),
    }
}

fn no_window(_: &str) -> Option<isize> {
    None
}

fn strings(v: &[&str]) -> Vec<String> {
    v.iter().map(|s| s.to_string()).collect()
}

#[test]
fn combos_become_accelerators() {
    assert_eq!(parse_combo(&strings(&["Ctrl", "Alt", "↑"])).unwrap(), "Control+Alt+ArrowUp");
    assert_eq!(parse_combo(&strings(&["Win", "Shift", "7"])).unwrap(), "Super+Shift+Digit7");
    assert_eq!(parse_combo(&strings(&["Ctrl", "F13"])).unwrap(), "Control+F13");
    assert_eq!(parse_combo(&strings(&["↑"])).unwrap_err(), "需要包含修饰键的组合键");
    assert_eq!(parse_combo(&strings(&["Meta", "A"])).unwrap_err(), "无法识别的修饰键 Meta");
    assert_eq!(parse_combo(&strings(&["Ctrl", "F25"])).unwrap_err(), "无法识别的按键 F25");
}

#[test]
fn key_tokens_follow_key_codes() {
    assert_eq!(key_token("]").as_deref(), Some("BracketRight"));
    assert_eq!(key_token("A").as_deref(), Some("KeyA"));
    assert_eq!(key_token("a"), None);
    assert_eq!(key_token("PageUp").as_deref(), Some("PageUp"));
    assert_eq!(modifier_token("Ctrl"), Some("Control"));
    assert_eq!(modifier_token("ctrl"), None);
}

#[test]
fn default_shortcuts_cover_every_action() {
    let map = default_shortcuts();
    for a in omnispeed::state::SHORTCUT_ACTIONS {
        let combo = map.get(a).expect("bound");
        assert!(parse_combo(combo).is_ok(), "{a:?} parses");
    }
}

#[test]
fn hotkey_step_on_a_player_uses_the_setting_step() {
    let mut core = core_with_target("mpv.exe", "mpv");
    match core.on_hotkey(ShortcutAction::SpeedUp) {
        HotkeyEffect::Feedback { payload, remembered, dispatch } => {
            assert_eq!(payload.rate, 1250);
            assert_eq!(payload.seq, 1);
            assert!(remembered);
            assert_eq!(dispatch, HotkeyDispatch::Push(PushMode::Step { dir: 1 }));
        }
        other => panic!("unexpected {other:?}"),
    }
    assert_eq!(core.rate, 1250);
}

#[test]
fn hotkey_step_on_mpc_hc_walks_the_ladder() {
    let mut core = core_with_target("mpc-hc64.exe", "mpc-hc");
    core.rate = 2000;
    core.on_hotkey(ShortcutAction::SpeedUp);
    assert_eq!(core.rate, 3000);
    core.on_hotkey(ShortcutAction::SpeedDown);
    core.on_hotkey(ShortcutAction::SpeedDown);
    assert_eq!(core.rate, 1750);
}

#[test]
fn hotkey_step_on_keys_without_read_back_lands_on_the_grid() {
    let mut core = core_with_target("baidunetdiskunite.exe", "baidu-netdisk");
    core.on_hotkey(ShortcutAction::SpeedUp);
    assert_eq!(core.rate, 1300);
}

#[test]
fn hotkey_cap_is_the_slider_for_players_and_16x_for_browsers() {
    let mut player = core_with_target("mpv.exe", "mpv");
    player.rate = 6000;
    player.on_hotkey(ShortcutAction::SpeedUp);
    assert_eq!(player.rate, 6000);
    let mut browser = core_with_target("msedge.exe", "edge");
    browser.rate = 6000;
    match browser.on_hotkey(ShortcutAction::SpeedUp) {
        HotkeyEffect::Feedback { payload, .. } => {
            assert_eq!(payload.rate, 6250);
            assert_eq!(payload.notice.as_deref(), Some("浏览器已静音"));
        }
        other => panic!("unexpected {other:?}"),
    }
}

#[test]
fn hotkey_step_down_never_goes_below_quarter_speed() {
    let mut core = core_with_target("mpv.exe", "mpv");
    core.rate = 250;
    core.on_hotkey(ShortcutAction::SpeedDown);
    assert_eq!(core.rate, 250);
}

#[test]
fn reset_and_toggle_panel() {
    let mut core = core_with_target("mpv.exe", "mpv");
    core.rate = 3000;
    match core.on_hotkey(ShortcutAction::Reset) {
        HotkeyEffect::Feedback { dispatch, .. } => assert_eq!(dispatch, HotkeyDispatch::Push(PushMode::Reset)),
        other => panic!("unexpected {other:?}"),
    }
    assert_eq!(core.rate, 1000);
    let seq = core.osd_seq;
    assert_eq!(core.on_hotkey(ShortcutAction::TogglePanel), HotkeyEffect::TogglePanel);
    assert_eq!(core.osd_seq, seq);
}

#[test]
fn frames_round_trip() {
    let body = br#"{"type":"hello"}"#.to_vec();
    let frame = encode_frame(&body);
    let header = [frame[0], frame[1], frame[2], frame[3]];
    assert_eq!(frame_len(header), Some(body.len() as u32));
    assert_eq!(&frame[4..], &body[..]);
    assert_eq!(frame_len([0, 0, 0, 0]), None);
    assert_eq!(frame_len((MAX_FRAME + 1).to_le_bytes()), None);
    assert_eq!(frame_len(MAX_FRAME.to_le_bytes()), Some(MAX_FRAME));
}

#[test]
fn config_mirror_follows_settings() {
    let mut cfg = BridgeConfig::new();
    assert!(cfg.preserves_pitch);
    cfg.set_preserves_pitch(false);
    cfg.set_site_rules(&default_site_rules());
    let frame = cfg.config_frame(Some(2000));
    assert_eq!(frame.target_rate, Some(2000));
    assert!(frame.rate_lock && !frame.preserves_pitch);
    assert_eq!(frame.max_rate, 16000);
    assert_eq!(frame.site_rules.len(), 8);
    assert_eq!(frame.site_rules[0].host, "bilibili.com");
}

#[test]
fn senders_replace_and_forget() {
    let mut s: Senders<u32> = Senders::new();
    s.senders_insert("chrome.exe", 1);
    s.senders_insert("msedge.exe", 2);
    s.senders_insert("chrome.exe", 3);
    assert_eq!(s.sender_of("chrome.exe"), Some(&3));
    assert_eq!(s.all().len(), 2);
    s.senders_remove("chrome.exe");
    assert_eq!(s.sender_of("chrome.exe"), None);
    assert_eq!(s.sender_of("msedge.exe"), Some(&2));
}

#[test]
fn relay_finds_the_browser_among_its_ancestors() {
    assert_eq!(browser_in_chain(&strings(&["omnispeed.exe", "cmd.exe", "msedge.exe"])), "msedge.exe");
    assert_eq!(browser_in_chain(&strings(&["omnispeed.exe", "cmd.exe"])), "unknown");
    assert_eq!(browser_in_chain(&strings(&["a", "b", "c", "d", "e", "chrome.exe"])), "unknown");
}

#[test]
fn hello_adopts_an_idle_browser() {
    let mut core = Core::default();
    let session = core.on_hello("msedge.exe", &|_: &str| Some(42));
    let t = core.current.as_ref().expect("adopted");
    assert_eq!((t.rule_id.as_str(), t.hwnd, t.process_name.as_str()), ("edge", 42, "msedge.exe"));
    assert!(session.is_some());
    assert_eq!(core.connected_browsers, vec!["msedge.exe".to_string()]);
    core.on_hello("msedge.exe", &no_window);
    assert_eq!(core.connected_browsers.len(), 1);
    assert!(core.on_disconnect("msedge.exe").is_some());
    assert!(core.connected_browsers.is_empty());
}

#[test]
fn entering_a_site_restores_its_rate_once() {
    let mut core = core_with_target("msedge.exe", "edge");
    core.memory.push(("bilibili.com".into(), 2000));
    let out = core.on_media("msedge.exe", Some(media("bilibili.com", 1000, None)), 0, &no_window);
    assert_eq!(out.restore, Some(2000));
    assert_eq!(core.rate, 2000);
    let again = core.on_media("msedge.exe", Some(media("bilibili.com", 1000, None)), 10, &no_window);
    assert_eq!(again.restore, None, "heartbeats of the same host restore nothing");
    assert_eq!(core.rate, 2000, "a late 1x report does not undo the target");
}

#[test]
fn site_default_rate_applies_without_memory() {
    let mut core = core_with_target("msedge.exe", "edge");
    core.site_rules[0].default_rate = Some(1500);
    let out = core.on_media("msedge.exe", Some(media("www.bilibili.com", 1000, None)), 0, &no_window);
    assert_eq!(out.restore, Some(1500));
}

#[test]
fn smart_slowdown_falls_to_what_the_buffer_sustains() {
    let mut core = core_with_target("msedge.exe", "edge");
    core.settings.smart_slowdown = true;
    core.on_media("msedge.exe", Some(media("example.com", 1000, Some(60_000))), 0, &no_window);
    core.rate = 4000;
    let out = core.on_media("msedge.exe", Some(media("example.com", 4000, Some(6_000))), 1_000, &no_window);
    let p = out.slowdown.expect("slowed down");
    assert_eq!(p.rate, 1000);
    assert_eq!(p.notice.as_deref(), Some("缓冲不足，已自动降速"));
    assert_eq!(core.slowdown_at, Some(1_000));
    core.rate = 4000;
    let cooling = core.on_media("msedge.exe", Some(media("example.com", 4000, Some(6_000))), 5_000, &no_window);
    assert!(cooling.slowdown.is_none(), "eight seconds of cool-down");
    let later = core.on_media("msedge.exe", Some(media("example.com", 4000, Some(12_500))), 9_500, &no_window);
    assert_eq!(later.slowdown.map(|p| p.rate), Some(2500));
}

#[test]
fn adapters_follow_the_rule_method() {
    let rules = built_in_rules();
    let mpv = rules.iter().find(|r| r.id == "mpv").unwrap();
    let t = CurrentTarget { rule_id: "mpv".into(), hwnd: 5, process_name: "mpv.exe".into() };
    let list = adapters_for(mpv, &t, &no_window);
    assert!(matches!(list.first(), Some(Adapter::Mpv(_))));
    let pot = rules.iter().find(|r| r.id == "potplayer").unwrap();
    let found = adapters_for(pot, &t, &|class: &str| if class == "PotPlayer" { Some(99) } else { None });
    assert!(matches!(found.first(), Some(Adapter::PotPlayer { hwnd: 99 })));
    let fallback = adapters_for(pot, &t, &no_window);
    assert!(matches!(fallback.first(), Some(Adapter::PotPlayer { hwnd: 5 })));
    let chrome = rules.iter().find(|r| r.id == "chrome").unwrap();
    let browser = adapters_for(chrome, &t, &no_window);
    assert_eq!(browser.len(), 1);
    assert!(matches!(&browser[0], Adapter::Browser { process } if process == "mpv.exe"));
}

#[test]
fn single_connected_browser_takes_the_hotkeys() {
    let mut core = Core::default();
    core.connected_browsers.push("chrome.exe".into());
    let list = core.adapters_for_current_or_browser(&no_window);
    assert!(matches!(&list[..], [Adapter::Browser { process }] if process == "chrome.exe"));
    core.connected_browsers.push("msedge.exe".into());
    assert!(core.adapters_for_current_or_browser(&no_window).is_empty());
}

#[test]
fn mpc_hc_set_rate_snaps_to_a_rung() {
    let a = Adapter::MpcHc { hwnd: 3, ladder: Some(omnispeed::mpc_hc::rate_ladder()) };
    match a.set_rate_action(2400, &|_: isize| 11) {
        Ok(ChannelAction::Message { wparam, declared, .. }) => {
            assert_eq!(wparam, 5010);
            assert_eq!(declared, Some(2000));
        }
        other => panic!("unexpected {other:?}"),
    }
    assert_eq!(a.set_rate_action(2400, &|_: isize| 0).unwrap_err(), "MPC-HC 窗口不存在");
    let be = Adapter::MpcHc { hwnd: 3, ladder: None };
    assert_eq!(be.set_rate_action(2000, &|_: isize| 11).unwrap_err(), "该通道仅支持步进，不支持设置精确倍速");
    assert!(matches!(be.step_action(1, &|_: isize| 11), Ok(ChannelAction::Message { wparam: 895, .. })));
    assert!(matches!(be.reset_action(&|_: isize| 11), Ok(ChannelAction::Message { wparam: 896, declared: Some(1000), .. })));
}

#[test]
fn pot_player_reads_back_in_range_only() {
    assert_eq!(pot_speed_reading(1500), Some(1500));
    assert_eq!(pot_speed_reading(0), None);
    assert_eq!(pot_speed_reading(12001), None);
    assert!(!window_alive(0, &|_: isize| 9));
    assert!(window_alive(4, &|_: isize| 9));
}

#[test]
fn push_modes_try_in_order() {
    assert_eq!(PushMode::Step { dir: -1 }.attempts(), vec![Attempt::SetRate, Attempt::Step(-1)]);
    assert_eq!(PushMode::ExactOnly.attempts(), vec![Attempt::SetRate]);
    assert!(needs_takeover_hint(true, PushMode::Reset, true));
    assert!(!needs_takeover_hint(true, PushMode::ExactOnly, true));
    assert!(!needs_takeover_hint(false, PushMode::Step { dir: 1 }, true));
}

#[test]
fn push_job_needs_listening_and_a_channel() {
    let mut core = core_with_target("mpv.exe", "mpv");
    core.rate = 1500;
    let job = core.push_job(&no_window).expect("mpv has channels");
    assert_eq!(job.target_rate, 1500);
    assert!(!job.is_client);
    core.listening = false;
    assert!(core.push_job(&no_window).is_none());
    let mut core = core_with_target("mpv.exe", "mpv");
    let session = core.apply_read_back(Some(20000)).expect("session");
    assert_eq!(core.rate, 16000);
    assert_eq!(session.rate, Some(20000));
}

#[test]
fn foreground_restores_remembered_rate() {
    let mut core = Core::default();
    core.memory.push(("vlc.exe".into(), 1750));
    match core.on_foreground("vlc.exe", 12) {
        ForegroundEffect::Restored(Some(s)) => assert_eq!(s.app_id, "vlc"),
        other => panic!("unexpected {other:?}"),
    }
    assert_eq!(core.rate, 1750);
    assert!(matches!(core.on_foreground("vlc.exe", 12), ForegroundEffect::ReadBack));
    assert!(matches!(core.on_foreground("explorer.exe", 1), ForegroundEffect::Ignored));
    assert_eq!(core.current.as_ref().unwrap().process_name, "vlc.exe");
    assert!(matches!(core.read_back_plan(&no_window), ReadBackPlan::Ask(_)));
}
