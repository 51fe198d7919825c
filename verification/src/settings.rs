//! Settings page options and their repair after loading.

use vstd::prelude::*;
use crate::rate::{clamp_rate, clamp_rate_spec, clamp_int, clamp_u32, RATE_MAX};

verus! {

/// All settings-page options (rates in thousandths of normal speed).
#[derive(Debug, Clone, PartialEq)]
pub struct Settings {
    /// Rate set at start-up.
    pub default_rate: u32,
    pub step: u32,
    /// Upper end of the slider (and of hotkeys on desktop players).
    pub slider_max: u32,
    /// Preset rates of the control page.
    pub presets: Vec<u32>,
    /// Show the "browser muted" note above 4×.
    pub high_speed_warning: bool,
    /// Slow down automatically when the buffer runs short.
    pub smart_slowdown: bool,
    /// Keep the pitch when changing speed (sent to the browser extension).
    pub preserves_pitch: bool,
    /// Remember the rate per application / site and restore it.
    pub remember_per_app: bool,
    pub start_on_boot: bool,
    pub minimize_to_tray: bool,
    pub auto_update: bool,
}

/// The factory presets: 1×, 1.5×, 2×, 3×, 4×, 5×.
pub open spec fn default_presets() -> Seq<u32> {
    seq![1000u32, 1500, 2000, 3000, 4000, 5000]
}

fn default_preset_vec() -> (r: Vec<u32>)
    ensures
        r@ == default_presets(),
{
    let mut v: Vec<u32> = Vec::new();
    v.push(1000);
    v.push(1500);
    v.push(2000);
    v.push(3000);
    v.push(4000);
    v.push(5000);
    assert(v@ =~= default_presets());
    v
}

/// The factory settings.
pub open spec fn default_settings_spec(r: Settings) -> bool {
    &&& r.default_rate == 1000
    &&& r.step == 250
    &&& r.slider_max == 6000
    &&& r.presets@ == default_presets()
    &&& r.high_speed_warning
    &&& !r.smart_slowdown
    &&& r.preserves_pitch
    &&& r.remember_per_app
    &&& r.start_on_boot
    &&& r.minimize_to_tray
    &&& r.auto_update
}

impl Default for Settings {
    fn default() -> (r: Self)
        ensures
            default_settings_spec(r),
    {
        Settings {
            default_rate: 1000,
            step: 250,
            slider_max: 6000,
            presets: default_preset_vec(),
            high_speed_warning: true,
            smart_slowdown: false,
            preserves_pitch: true,
            remember_per_app: true,
            start_on_boot: true,
            minimize_to_tray: true,
            auto_update: true,
        }
    }
}

pub open spec fn strictly_ascending(s: Seq<u32>) -> bool {
    forall|i: int, j: int| 0 <= i < j < s.len() ==> s[i] < s[j]
}

/// The presets after repair: every preset clamped to the product range, sorted
/// and without duplicates; the factory presets if none is left.
pub open spec fn presets_ok(r: Seq<u32>, given: Seq<u32>) -> bool {
    if given.len() == 0 {
        r == default_presets()
    } else {
        &&& strictly_ascending(r)
        &&& forall|x: u32|
            r.contains(x) <==> exists|i: int|
                0 <= i < given.len() && x == clamp_rate_spec(#[trigger] given[i] as int, RATE_MAX as int)
    }
}

/// Sorted, duplicate-free insertion of `x`.
fn insert_sorted(v: &mut Vec<u32>, x: u32)
    requires
        strictly_ascending(old(v)@),
    ensures
        strictly_ascending(final(v)@),
        forall|y: u32| final(v)@.contains(y) <==> (old(v)@.contains(y) || y == x),
{
    let mut k: usize = 0;
    while k < v.len() && v[k] < x
        invariant
            v@ == old(v)@,
            k <= v.len(),
            forall|i: int| 0 <= i < k ==> v@[i] < x,
        decreases v.len() - k,
    {
        k = k + 1;
    }
    if k < v.len() && v[k] == x {
        assert(v@.contains(x));
        return;
    }
    let ghost before = v@;
    assert(before == old(v)@);
    v.insert(k, x);
    assert forall|y: u32| v@.contains(y) <==> (before.contains(y) || y == x) by {
        if v@.contains(y) {
            let i = choose|i: int| 0 <= i < v@.len() && v@[i] == y;
            if i < k {
                assert(before[i] == y);
            } else if i > k {
                assert(before[i - 1] == y);
            }
        }
        if before.contains(y) {
            let i = choose|i: int| 0 <= i < before.len() && before[i] == y;
            if i < k {
                assert(v@[i] == y);
            } else {
                assert(v@[i + 1] == y);
            }
        }
        if y == x {
            assert(v@[k as int] == y);
        }
    }
    assert(forall|y: u32| v@.contains(y) <==> (old(v)@.contains(y) || y == x));
    assert(strictly_ascending(v@));
}

impl Settings {
    /// Repairs values a hand-edited configuration file may hold: rates brought
    /// into range and rounded, the step into `[0.05×, 1×]`, the slider end into
    /// `[1×, 16×]`, presets sorted and deduplicated (factory presets if none).
    pub fn normalize(&mut self)
        ensures
            final(self).default_rate == clamp_rate_spec(old(self).default_rate as int, RATE_MAX as int),
            final(self).step == clamp_int(old(self).step as int, 50, 1000),
            final(self).slider_max == clamp_int(old(self).slider_max as int, 1000, RATE_MAX as int),
            presets_ok(final(self).presets@, old(self).presets@),
            final(self).high_speed_warning == old(self).high_speed_warning,
            final(self).smart_slowdown == old(self).smart_slowdown,
            final(self).preserves_pitch == old(self).preserves_pitch,
            final(self).remember_per_app == old(self).remember_per_app,
            final(self).start_on_boot == old(self).start_on_boot,
            final(self).minimize_to_tray == old(self).minimize_to_tray,
            final(self).auto_update == old(self).auto_update,
    {
        self.default_rate = clamp_rate(self.default_rate, RATE_MAX);
        self.step = clamp_u32(self.step, 50, 1000);
        self.slider_max = clamp_u32(self.slider_max, 1000, RATE_MAX);
        let ghost given = self.presets@;
        let mut sorted: Vec<u32> = Vec::new();
        let mut i: usize = 0;
        while i < self.presets.len()
            invariant
                given == self.presets@,
                i <= given.len(),
                strictly_ascending(sorted@),
                forall|x: u32|
                    sorted@.contains(x) <==> exists|j: int|
                        0 <= j < i && x == clamp_rate_spec(#[trigger] given[j] as int, RATE_MAX as int),
            decreases given.len() - i,
        {
            let c = clamp_rate(self.presets[i], RATE_MAX);
            let ghost prev = sorted@;
            insert_sorted(&mut sorted, c);
            assert forall|x: u32|
                sorted@.contains(x) <==> exists|j: int|
                    0 <= j < i + 1 && x == clamp_rate_spec(#[trigger] given[j] as int, RATE_MAX as int) by {
                if x == c {
                    assert(x == clamp_rate_spec(given[i as int] as int, RATE_MAX as int));
                }
                if exists|j: int| 0 <= j < i + 1 && x == clamp_rate_spec(#[trigger] given[j] as int, RATE_MAX as int) {
                    let j = choose|j: int| 0 <= j < i + 1 && x == clamp_rate_spec(#[trigger] given[j] as int, RATE_MAX as int);
                    if j < i {
                        assert(prev.contains(x));
                    }
                }
            }
            i = i + 1;
        }
        proof {
            if given.len() > 0 {
            let c0 = clamp_rate_spec(given[0] as int, RATE_MAX as int);
            assert(exists|j: int| 0 <= j < given.len() && c0 as u32 == clamp_rate_spec(#[trigger] given[j] as int, RATE_MAX as int));
            assert(sorted@.contains(c0 as u32));
            } else if sorted@.len() > 0 {
                assert(sorted@.contains(sorted@[0]));
            }
        }
        if sorted.len() == 0 {
            sorted = default_preset_vec();
        }
        self.presets = sorted;
        assert(presets_ok(self.presets@, given));
    }
}

/// After repair every preset is a valid product rate, and the list is never
/// empty.
pub proof fn law_presets_are_valid_rates(r: Seq<u32>, given: Seq<u32>, k: int)
    requires
        presets_ok(r, given),
        0 <= k < r.len(),
    ensures
        250 <= r[k] <= RATE_MAX,
        r[k] % 10 == 0,
        r.len() > 0,
{
    if given.len() > 0 {
        assert(r.contains(r[k]));
        let i = choose|i: int| 0 <= i < given.len() && r[k] == clamp_rate_spec(#[trigger] given[i] as int, RATE_MAX as int);
        assert(r.contains(clamp_rate_spec(given[0] as int, RATE_MAX as int) as u32));
    } else {
        assert(r[k] == default_presets()[k]);
    }
}

} // verus!
