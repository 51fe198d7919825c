use omnispeed::rate::clamp_rate;
use omnispeed::settings::Settings;
use omnispeed::sites::{default_site_rules, host_matches, merge_saved_site_rules, SiteRule};
use omnispeed::state::{store, BrowserMedia, Core, CurrentTarget};

fn core_with_target(process: &str, rule_id: &str) -> Core {
    let mut core = Core::default();
    core.current = Some(CurrentTarget { rule_id: rule_id.into(), hwnd: 0, process_name: process.into() });
    core
}

fn memory_of(core: &Core, key: &str) -> Option<u32> {
    core.memory.iter().find(|(k, _)| k == key).map(|(_, v)| *v)
}

#[test]
fn clamp_rate_bounds_and_rounding() {
    assert_eq!(clamp_rate(100, 6000), 250);
    assert_eq!(clamp_rate(7000, 6000), 6000);
    assert_eq!(clamp_rate(20000, 99000), 16000);
    assert_eq!(clamp_rate(1234, 16000), 1230);
}

#[test]
fn settings_normalize_repairs_broken_values() {
    let mut s = Settings {
        step: 10,
        slider_max: 99000,
        presets: vec![3000, 3000, 10],
        default_rate: 0,
        ..Settings::default()
    };
    s.normalize();
    assert_eq!(s.step, 50);
    assert_eq!(s.slider_max, 16000);
    assert_eq!(s.presets, vec![250, 3000]);
    assert_eq!(s.default_rate, 250);
}

#[test]
fn memory_key_uses_process_for_players_and_host_for_browsers() {
    let core = core_with_target("mpv.exe", "mpv");
    assert_eq!(core.memory_key().as_deref(), Some("mpv.exe"));
    let mut core = core_with_target("msedge.exe", "edge");
    assert_eq!(core.memory_key().as_deref(), Some("msedge.exe"));
    store(
        &mut core.browser_media,
        "msedge.exe".into(),
        BrowserMedia {
            has_media: true,
            rate: 2000,
            title: "t".into(),
            host: "bilibili.com".into(),
            is_live: false,
            ad_playing: false,
            buffered_ahead: None,
            adapter: "generic".into(),
        },
    );
    assert_eq!(core.memory_key().as_deref(), Some("bilibili.com"));
}

#[test]
fn host_matches_is_suffix_only_at_label_boundary() {
    assert!(host_matches("bilibili.com", "bilibili.com"));
    assert!(host_matches("www.bilibili.com", "bilibili.com"));
    assert!(host_matches("live.bilibili.com", "bilibili.com"));
    assert!(!host_matches("xbilibili.com", "bilibili.com"));
    assert!(!host_matches("bilibili.com.evil.com", "bilibili.com"));
    assert!(host_matches("v.qq.com", "v.qq.com"));
    assert!(!host_matches("weixin.qq.com", "v.qq.com"));
}

#[test]
fn merge_saved_site_rules_overrides_builtin_and_appends_custom() {
    let mut rules = default_site_rules();
    merge_saved_site_rules(
        &mut rules,
        vec![
            SiteRule {
                host: "Bilibili.com ".into(),
                name: "改名不生效".into(),
                default_rate: Some(2000),
                max_rate: 99000,
                rate_lock: false,
                follow: false,
            },
            SiteRule { host: "example.com".into(), name: "自定义".into(), ..SiteRule::default() },
            SiteRule { host: "  ".into(), ..SiteRule::default() },
        ],
    );
    let b = rules.iter().find(|r| r.host == "bilibili.com").unwrap();
    assert_eq!(b.name, "哔哩哔哩");
    assert_eq!(b.default_rate, Some(2000));
    assert_eq!(b.max_rate, 16000);
    assert!(!b.rate_lock);
    assert!(!b.follow);
    assert_eq!(rules.len(), default_site_rules().len() + 1);
    assert!(rules.iter().any(|r| r.host == "example.com"));
}

#[test]
fn site_rule_for_matches_current_host() {
    let core = Core::default();
    assert_eq!(core.site_rule_for("www.iqiyi.com").map(|r| r.host.as_str()), Some("iqiyi.com"));
    assert_eq!(core.site_rule_for("v.qq.com").map(|r| r.host.as_str()), Some("v.qq.com"));
    assert!(core.site_rule_for("example.org").is_none());
}

#[test]
fn remember_rate_respects_toggle_and_dedups() {
    let mut core = core_with_target("mpv.exe", "mpv");
    core.rate = 2000;
    assert!(core.remember_rate());
    assert_eq!(memory_of(&core, "mpv.exe"), Some(2000));
    assert!(!core.remember_rate());
    core.settings.remember_per_app = false;
    core.rate = 3000;
    assert!(!core.remember_rate());
    assert_eq!(memory_of(&core, "mpv.exe"), Some(2000));
}
