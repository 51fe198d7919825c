use omnispeed::grid::{default_step_gap_ms, KeyBindings, KeyRateGrid, RateAnchor};
use omnispeed::ladder::snap_to_ladder;
use omnispeed::mpc_hc;
use omnispeed::rules::{built_in_rules, merge_saved, AppKind, AppRule, AppStatus, IpcKind, RuleMethod};

fn rule(id: &str) -> AppRule {
    built_in_rules()
        .into_iter()
        .find(|r| r.id == id)
        .unwrap_or_else(|| panic!("missing built-in rule {id}"))
}

fn baidu() -> (KeyRateGrid, KeyBindings) {
    let r = rule("baidu-netdisk");
    (r.key_rate.expect("grid"), r.keys.expect("keys"))
}

#[test]
fn anchors_need_no_stepping() {
    let (grid, keys) = baidu();
    for (anchor, key) in [(1000, "1"), (2000, "2"), (3000, "3"), (4000, "4"), (5000, "5")] {
        let plan = grid.plan(&keys, anchor).expect("anchor reachable");
        assert_eq!(plan.steps, 0, "{anchor} in one key");
        assert_eq!(plan.anchor, key);
        assert_eq!(plan.rate, anchor);
    }
}

#[test]
fn plans_anchor_then_steps() {
    let (grid, keys) = baidu();
    let up = grid.plan(&keys, 2500).unwrap();
    assert_eq!((up.anchor.as_str(), up.step_key.as_str(), up.steps), ("2", ".", 5));
    assert_eq!(up.rate, 2500);
    assert_eq!(up.gap_ms, grid.step_gap_ms);
    let down = grid.plan(&keys, 1800).unwrap();
    assert_eq!((down.anchor.as_str(), down.step_key.as_str(), down.steps), ("2", ",", 2));
    assert_eq!(down.rate, 1800);
}

#[test]
fn snaps_target_to_grid() {
    let (grid, keys) = baidu();
    assert_eq!(grid.plan(&keys, 1730).unwrap().rate, 1700);
    assert_eq!(grid.plan(&keys, 1770).unwrap().rate, 1800);
    assert_eq!(grid.plan(&keys, 1750).unwrap().rate, 1800);
}

#[test]
fn clamps_to_player_limits() {
    let (grid, keys) = baidu();
    let fast = grid.plan(&keys, 16000).unwrap();
    assert_eq!((fast.anchor.as_str(), fast.steps, fast.rate), ("5", 0, 5000));
    let slow = grid.plan(&keys, 50).unwrap();
    assert_eq!((slow.anchor.as_str(), slow.step_key.as_str(), slow.steps), ("1", ",", 5));
    assert_eq!(slow.rate, 500);
}

#[test]
fn whole_range_is_exact_and_within_six_keys() {
    let (grid, keys) = baidu();
    for tenths in 5..=50u32 {
        let target = tenths * 100;
        let plan = grid.plan(&keys, target).unwrap();
        assert!(plan.steps <= 5, "{target} used {} steps", plan.steps);
        assert_eq!(plan.rate, target, "{target} planned to {}", plan.rate);
        assert_eq!(plan.rate % 100, 0);
    }
}

#[test]
fn rejects_unusable_grids() {
    let (grid, keys) = baidu();
    let empty = KeyRateGrid { anchors: vec![], ..grid.clone() };
    assert!(empty.plan(&keys, 2000).is_none());
    let zero_step = KeyRateGrid { step: 0, ..grid.clone() };
    assert!(zero_step.plan(&keys, 2000).is_none());
}

#[test]
fn refuses_when_too_many_keys() {
    let (grid, keys) = baidu();
    let sparse = KeyRateGrid {
        anchors: vec![RateAnchor { key: "1".into(), rate: 1000 }],
        ..grid
    };
    assert!(sparse.plan(&keys, 2000).is_some(), "10 steps is within the limit");
    assert!(sparse.plan(&keys, 5000).is_none(), "40 steps is refused");
}

#[test]
fn step_gap_comes_from_the_grid() {
    let (grid, keys) = baidu();
    assert_eq!(grid.step_gap_ms, 150);
    let slow = KeyRateGrid { step_gap_ms: 400, ..grid.clone() };
    assert_eq!(slow.plan(&keys, 2500).unwrap().gap_ms, 400);
    assert_eq!(default_step_gap_ms(), 150);
    assert!(default_step_gap_ms() > 0);
}

#[test]
fn hotkey_steps_land_on_the_grid() {
    let (grid, _) = baidu();
    assert_eq!(grid.step_target(1000, 250, 1), Some(1300));
    assert_eq!(grid.step_target(1300, 250, -1), Some(1000));
    assert_eq!(grid.step_target(2000, 100, 1), Some(2100));
}

#[test]
fn sub_grid_step_still_moves() {
    let (grid, _) = baidu();
    assert_eq!(grid.step_target(1100, 50, -1), Some(1000), "must not stand still");
    assert_eq!(grid.step_target(1100, 50, 1), Some(1200));
}

#[test]
fn hotkey_steps_stop_at_player_limits() {
    let (grid, _) = baidu();
    assert_eq!(grid.step_target(5000, 500, 1), Some(5000));
    assert_eq!(grid.step_target(500, 500, -1), Some(500));
}

#[test]
fn baidu_rule_is_wired_for_exact_keys() {
    let rules = built_in_rules();
    let r = rules.iter().find(|r| r.id == "baidu-netdisk").unwrap();
    assert_eq!(r.kind, AppKind::Client);
    assert_eq!(r.method, RuleMethod::Hotkey);
    assert_eq!(r.ipc, IpcKind::NoIpc);
    assert_eq!(r.status(), AppStatus::Adapted);
    assert_eq!(r.method_label(), "播放器快捷键 · 精确设速");
    assert!(r.matches("baidunetdiskunite.exe"));
    assert!(r.matches("baidunetdisk.exe"));
    let mpc = rules.iter().find(|r| r.id == "mpc-hc").unwrap();
    assert!(mpc.key_rate.is_none());
}

#[test]
fn saved_config_cannot_clobber_builtin_grid() {
    let mut rules = built_in_rules();
    let mut stale = rules.iter().find(|r| r.id == "baidu-netdisk").unwrap().clone();
    stale.key_rate = None;
    stale.keys = Some(KeyBindings { up: "]".into(), down: "[".into(), reset: "=".into() });
    let mut stale_mpc = rules.iter().find(|r| r.id == "mpc-hc").unwrap().clone();
    stale_mpc.rate_ladder = None;
    merge_saved(&mut rules, vec![stale, stale_mpc]);
    let r = rules.iter().find(|r| r.id == "baidu-netdisk").unwrap();
    assert!(r.key_rate.is_some(), "the grid comes from code");
    assert_eq!(r.keys.as_ref().unwrap().up, "]", "key edits are kept");
    let mpc = rules.iter().find(|r| r.id == "mpc-hc").unwrap();
    assert!(mpc.rate_ladder.is_some(), "the ladder comes from code");
}

#[test]
fn vlc_grid_matches_the_source() {
    let vlc = rule("vlc");
    let keys = vlc.keys.clone().expect("keys");
    assert_eq!((keys.up.as_str(), keys.down.as_str(), keys.reset.as_str()), ("]", "[", "="));
    let grid = vlc.key_rate.clone().expect("grid");
    assert_eq!(grid.step, 100);
    assert_eq!(grid.anchors.len(), 1);
    assert_eq!((grid.anchors[0].key.as_str(), grid.anchors[0].rate), ("=", 1000));
    assert_eq!(grid.step_gap_ms, 20);
    assert_ne!(grid.step_gap_ms, default_step_gap_ms());
    assert_eq!(grid.plan(&keys, 1000).unwrap().steps, 0);
    let up = grid.plan(&keys, 1500).unwrap();
    assert_eq!((up.anchor.as_str(), up.step_key.as_str(), up.steps, up.rate), ("=", "]", 5, 1500));
    let down = grid.plan(&keys, 600).unwrap();
    assert_eq!((down.step_key.as_str(), down.steps, down.rate), ("[", 4, 600));
}

#[test]
fn vlc_range_is_what_the_keys_can_actually_reach() {
    let vlc = rule("vlc");
    let keys = vlc.keys.clone().unwrap();
    let grid = vlc.key_rate.clone().unwrap();
    assert_eq!((grid.min, grid.max), (250, 2100));
    for tenths in 3..=21u32 {
        let target = tenths * 100;
        let plan = grid.plan(&keys, target).unwrap_or_else(|| panic!("{target} reachable"));
        assert_eq!(plan.rate, target);
    }
    assert_eq!(grid.plan(&keys, 6000).unwrap().rate, 2100);
}

#[test]
fn mpc_hc_is_wired_to_the_absolute_rate_commands() {
    let mpc = rule("mpc-hc");
    assert_eq!(mpc.ipc, IpcKind::WmCommand);
    assert_eq!(mpc.method_label(), "控制消息 · 档位设速");
    let ladder = mpc.rate_ladder.clone().expect("ladder");
    assert_eq!(ladder, mpc_hc::rate_ladder());
    for rung in &ladder {
        assert!(mpc_hc::command_for(*rung).is_some(), "{rung} has a command");
    }
    for target in [100, 1000, 1200, 2400, 2500, 7000, 99000] {
        let snapped = snap_to_ladder(&ladder, target).unwrap();
        assert!(mpc_hc::command_for(snapped).is_some(), "{target} snaps onto the table");
    }
    assert_eq!(snap_to_ladder(&ladder, 2500), Some(2000), "ties go to the lower rung");
    assert_eq!(snap_to_ladder(&ladder, 99000), Some(8000), "beyond the end: the end");
}

#[test]
fn mpc_hc_hotkey_walks_one_rung() {
    let mpc = rule("mpc-hc");
    assert_eq!(mpc.ladder_step(1000, 1), Some(1100));
    assert_eq!(mpc.ladder_step(1100, 1), Some(1250));
    assert_eq!(mpc.ladder_step(1000, -1), Some(900));
    assert_eq!(mpc.ladder_step(2000, 1), Some(3000), "after 2x comes 3x");
    assert_eq!(mpc.ladder_step(2400, 1), Some(3000));
    assert_eq!(mpc.ladder_step(2400, -1), Some(2000));
    assert_eq!(mpc.ladder_step(8000, 1), Some(8000));
    assert_eq!(mpc.ladder_step(250, -1), Some(250));
    assert_eq!(mpc.ladder_step(1000, 0), None);
    assert_eq!(rule("vlc").ladder_step(1000, 1), None);
}

#[test]
fn mpc_be_is_a_separate_rule_without_the_ladder() {
    let be = rule("mpc-be");
    assert!(be.rate_ladder.is_none());
    assert!(be.matches("mpc-be64.exe") && be.matches("mpc-be.exe"));
    let hc = rule("mpc-hc");
    assert!(hc.matches("mpc-hc64.exe") && hc.matches("mpc-hc.exe"));
    assert!(!hc.matches("mpc-be64.exe"));
    assert!(!hc.matches("mpc-be.exe"));
}

#[test]
fn read_back_capability_is_per_channel() {
    for id in ["mpv", "vlc", "potplayer", "bilibili-client"] {
        assert!(rule(id).can_read_back_rate(), "{id} reads back");
    }
    for id in ["mpc-hc", "mpc-be", "baidu-netdisk", "chrome"] {
        assert!(!rule(id).can_read_back_rate(), "{id} does not read back");
    }
    let mut vlc = rule("vlc");
    vlc.method = RuleMethod::Hotkey;
    assert!(!vlc.can_read_back_rate());
}
