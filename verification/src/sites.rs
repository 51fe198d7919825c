//! Site rules: per-host rate limits, locks and restore rates for web video,
//! matched against the host of the active tab.

use vstd::prelude::*;
use crate::rate::{clamp_int, clamp_rate, clamp_rate_spec, clamp_u32, RATE_MAX, RATE_MIN};
use crate::text::{chars_of, lowercased, owned, to_lowercase, trim, trimmed};

verus! {

/// One site rule; `host` is matched as a suffix of the tab's host.
#[derive(Debug, Clone, PartialEq)]
pub struct SiteRule {
    pub host: String,
    pub name: String,
    /// Rate restored on entering the site when nothing is remembered for it;
    /// `None` leaves the rate alone.
    pub default_rate: Option<u32>,
    /// Highest rate on this site.
    pub max_rate: u32,
    /// Rate lock on this site.
    pub rate_lock: bool,
    /// Whether new media (short-video feeds) follow the session rate.
    pub follow: bool,
}

/// Content of a site rule.
pub struct SiteRuleView {
    pub host: Seq<char>,
    pub name: Seq<char>,
    pub default_rate: Option<u32>,
    pub max_rate: u32,
    pub rate_lock: bool,
    pub follow: bool,
}

impl View for SiteRule {
    type V = SiteRuleView;

    open spec fn view(&self) -> SiteRuleView {
        SiteRuleView {
            host: self.host@,
            name: self.name@,
            default_rate: self.default_rate,
            max_rate: self.max_rate,
            rate_lock: self.rate_lock,
            follow: self.follow,
        }
    }
}

pub open spec fn site_views(rules: Seq<SiteRule>) -> Seq<SiteRuleView> {
    rules.map_values(|r: SiteRule| r@)
}

impl Default for SiteRule {
    fn default() -> (r: Self)
        ensures
            r.host@ == Seq::<char>::empty(),
            r.name@ == Seq::<char>::empty(),
            r.default_rate is None,
            r.max_rate == RATE_MAX,
            r.rate_lock,
            r.follow,
    {
        SiteRule {
            host: String::new(),
            name: String::new(),
            default_rate: None,
            max_rate: RATE_MAX,
            rate_lock: true,
            follow: true,
        }
    }
}

/// A site rule after repair: host trimmed and lower-cased, the rate limit
/// brought into `[0.25×, 16×]`, the restore rate clamped under that limit.
pub open spec fn site_normalized(r: SiteRuleView) -> SiteRuleView {
    let max_rate = clamp_int(r.max_rate as int, RATE_MIN as int, RATE_MAX as int) as u32;
    SiteRuleView {
        host: lowercased(trimmed(r.host)),
        max_rate,
        default_rate: match r.default_rate {
            Some(d) => Some(clamp_rate_spec(d as int, max_rate as int) as u32),
            None => None,
        },
        ..r
    }
}

impl SiteRule {
    pub fn duplicate(&self) -> (r: Self)
        ensures
            r@ == self@,
    {
        SiteRule {
            host: self.host.clone(),
            name: self.name.clone(),
            default_rate: self.default_rate,
            max_rate: self.max_rate,
            rate_lock: self.rate_lock,
            follow: self.follow,
        }
    }

    /// Repairs values a hand-edited configuration file may hold.
    pub fn normalize(&mut self)
        ensures
            final(self)@ == site_normalized(old(self)@),
    {
        self.host = to_lowercase(trim(self.host.as_str()).as_str());
        self.max_rate = clamp_u32(self.max_rate, RATE_MIN, RATE_MAX);
        self.default_rate = match self.default_rate {
            Some(d) => Some(clamp_rate(d, self.max_rate)),
            None => None,
        };
    }
}

fn site(host: &str, name: &str, follow: bool) -> (r: SiteRule)
    ensures
        r.host@ == host@,
        r.name@ == name@,
        r.default_rate is None,
        r.max_rate == RATE_MAX,
        r.rate_lock,
        r.follow == follow,
{
    SiteRule {
        host: owned(host),
        name: owned(name),
        default_rate: None,
        max_rate: RATE_MAX,
        rate_lock: true,
        follow,
    }
}

pub open spec fn site_is(r: SiteRule, host: Seq<char>, name: Seq<char>, follow: bool) -> bool {
    &&& r.host@ == host
    &&& r.name@ == name
    &&& r.default_rate is None
    &&& r.max_rate == RATE_MAX
    &&& r.rate_lock
    &&& r.follow == follow
}

/// The built-in site table, entry by entry.
pub open spec fn default_sites_spec(r: Seq<SiteRule>) -> bool {
    &&& r.len() == 8
    &&& site_is(r[0], "bilibili.com"@, "哔哩哔哩"@, true)
    &&& site_is(r[1], "douyin.com"@, "抖音"@, true)
    &&& site_is(r[2], "youtube.com"@, "YouTube"@, true)
    &&& site_is(r[3], "v.qq.com"@, "腾讯视频"@, false)
    &&& site_is(r[4], "iqiyi.com"@, "爱奇艺"@, false)
    &&& site_is(r[5], "youku.com"@, "优酷"@, false)
    &&& site_is(r[6], "ixigua.com"@, "西瓜视频"@, true)
    &&& site_is(r[7], "kuaishou.com"@, "快手"@, true)
}

/// The eight built-in sites. Long-form platforms (Tencent, iQIYI, Youku) do not
/// carry the session rate over to the next episode.
pub fn default_site_rules() -> (r: Vec<SiteRule>)
    ensures
        default_sites_spec(r@),
{
    let mut v: Vec<SiteRule> = Vec::new();
    v.push(site("bilibili.com", "哔哩哔哩", true));
    v.push(site("douyin.com", "抖音", true));
    v.push(site("youtube.com", "YouTube", true));
    v.push(site("v.qq.com", "腾讯视频", false));
    v.push(site("iqiyi.com", "爱奇艺", false));
    v.push(site("youku.com", "优酷", false));
    v.push(site("ixigua.com", "西瓜视频", true));
    v.push(site("kuaishou.com", "快手", true));
    v
}

/// `host` is `rule_host` or a sub-domain of it: equal, or ending in
/// `"." + rule_host`.
pub open spec fn host_matches_spec(host: Seq<char>, rule_host: Seq<char>) -> bool {
    host == rule_host || (host.len() > rule_host.len() && host.subrange(
        host.len() - rule_host.len(),
        host.len() as int,
    ) == rule_host && host[host.len() - rule_host.len() - 1] == '.')
}

/// Host suffix match at a label boundary: `bilibili.com` matches
/// `www.bilibili.com` but not `xbilibili.com`.
pub fn host_matches(host: &str, rule_host: &str) -> (r: bool)
    ensures
        r == host_matches_spec(host@, rule_host@),
{
    let h = chars_of(host);
    let rh = chars_of(rule_host);
    let hl = h.len();
    let rl = rh.len();
    let mut equal = hl == rl;
    let mut suffix = hl > rl;
    let mut i: usize = 0;
    while i < rl
        invariant
            h@ == host@,
            rh@ == rule_host@,
            hl == h.len(),
            rl == rh.len(),
            i <= rl,
            equal == (hl == rl && forall|k: int| 0 <= k < i ==> h@[k] == rh@[k]),
            suffix == (hl > rl && forall|k: int| 0 <= k < i ==> h@[hl - rl + k] == rh@[k]),
        decreases rl - i,
    {
        if equal && h[i] != rh[i] {
            equal = false;
        }
        if suffix && h[hl - rl + i] != rh[i] {
            suffix = false;
        }
        i = i + 1;
    }
    if equal {
        assert(h@ =~= rh@);
        return true;
    }
    if hl == rl {
        assert(host@ != rule_host@) by {
            if host@ == rule_host@ {
                assert(forall|k: int| 0 <= k < rl ==> h@[k] == rh@[k]);
            }
        }
    }
    if suffix && h[hl - rl - 1] == '.' {
        assert(host@.subrange(hl - rl, hl as int) =~= rule_host@);
        return true;
    }
    proof {
        if hl > rl {
            if host@.subrange(hl - rl, hl as int) == rule_host@ {
                assert(forall|k: int| 0 <= k < rl ==> h@[hl - rl + k] == #[trigger] host@.subrange(hl - rl, hl as int)[k]);
            }
        }
    }
    false
}

/// A host always matches its own rule, and a match means the rule host is a
/// suffix of the host.
pub proof fn law_host_match_is_suffix(host: Seq<char>, rule_host: Seq<char>)
    ensures
        host_matches_spec(rule_host, rule_host),
        host_matches_spec(host, rule_host) ==> host.len() >= rule_host.len() && host.subrange(
            host.len() - rule_host.len(),
            host.len() as int,
        ) == rule_host,
{
    if host == rule_host {
        assert(host.subrange(0, host.len() as int) =~= host);
    }
}

/// Index of the first site rule at or after `i` with the given host.
pub open spec fn find_host(rules: Seq<SiteRuleView>, host: Seq<char>, i: int) -> Option<int>
    decreases rules.len() - i,
{
    if i < 0 || i >= rules.len() {
        None
    } else if rules[i].host == host {
        Some(i)
    } else {
        find_host(rules, host, i + 1)
    }
}

proof fn lemma_find_host(rules: Seq<SiteRuleView>, host: Seq<char>, i: int)
    requires
        0 <= i,
    ensures
        find_host(rules, host, i) matches Some(j) ==> i <= j < rules.len() && rules[j].host == host,
        find_host(rules, host, i) is None ==> forall|k: int| i <= k < rules.len() ==> rules[k].host != host,
    decreases rules.len() - i,
{
    if i < rules.len() && rules[i].host != host {
        lemma_find_host(rules, host, i + 1);
    }
}

/// One saved site rule merged in (after repair): an empty host is dropped, a
/// known host takes the editable fields (restore rate, limit, lock, follow),
/// an unknown host is appended as a custom site.
pub open spec fn merge_site(rules: Seq<SiteRuleView>, saved: SiteRuleView) -> Seq<SiteRuleView> {
    let s = site_normalized(saved);
    if s.host.len() == 0 {
        rules
    } else {
        match find_host(rules, s.host, 0) {
            Some(j) => rules.update(
                j,
                SiteRuleView {
                    default_rate: s.default_rate,
                    max_rate: s.max_rate,
                    rate_lock: s.rate_lock,
                    follow: s.follow,
                    ..rules[j]
                },
            ),
            None => rules.push(s),
        }
    }
}

pub open spec fn merge_sites(rules: Seq<SiteRuleView>, saved: Seq<SiteRuleView>) -> Seq<SiteRuleView>
    decreases saved.len(),
{
    if saved.len() == 0 {
        rules
    } else {
        merge_site(merge_sites(rules, saved.drop_last()), saved.last())
    }
}

fn find_site(rules: &Vec<SiteRule>, host: &String) -> (r: Option<usize>)
    ensures
        r matches Some(j) ==> find_host(site_views(rules@), host@, 0) == Some(j as int),
        r is None ==> find_host(site_views(rules@), host@, 0) is None,
{
    let ghost v = site_views(rules@);
    proof {
        lemma_find_host(v, host@, 0);
    }
    let mut j: usize = 0;
    while j < rules.len()
        invariant
            j <= rules.len(),
            v == site_views(rules@),
            find_host(v, host@, 0) == find_host(v, host@, j as int),
        decreases rules.len() - j,
    {
        if rules[j].host == *host {
            return Some(j);
        }
        j = j + 1;
    }
    None
}

/// Merges saved site rules into the table: built-in sites keep their names
/// and take the edited fields, unknown hosts are appended, empty hosts dropped.
pub fn merge_saved_site_rules(rules: &mut Vec<SiteRule>, saved: Vec<SiteRule>)
    ensures
        site_views(final(rules)@) == merge_sites(site_views(old(rules)@), site_views(saved@)),
{
    let ghost start = site_views(rules@);
    let mut i: usize = 0;
    while i < saved.len()
        invariant
            i <= saved.len(),
            site_views(rules@) == merge_sites(start, site_views(saved@).subrange(0, i as int)),
        decreases saved.len() - i,
    {
        let mut s = saved[i].duplicate();
        s.normalize();
        let ghost before = site_views(rules@);
        if !s.host.as_str().is_empty() {
            proof {
                lemma_find_host(before, s.host@, 0);
            }
            match find_site(rules, &s.host) {
                Some(j) => {
                    let mut e = rules[j].duplicate();
                    e.default_rate = s.default_rate;
                    e.max_rate = s.max_rate;
                    e.rate_lock = s.rate_lock;
                    e.follow = s.follow;
                    rules.set(j, e);
                },
                None => {
                    rules.push(s);
                },
            }
            assert(site_views(rules@) =~= merge_site(before, saved@[i as int]@));
        } else {
            assert(s.host@.len() == 0);
            assert(site_views(rules@) =~= merge_site(before, saved@[i as int]@));
        }
        assert(site_views(saved@).subrange(0, i + 1).drop_last() =~= site_views(saved@).subrange(
            0,
            i as int,
        ));
        i = i + 1;
    }
    assert(site_views(saved@).subrange(0, saved.len() as int) =~= site_views(saved@));
}

/// Built-in site names come from code: a merge never renames an existing entry
/// nor changes its host, and never drops one.
pub proof fn law_merge_keeps_site_names(rules: Seq<SiteRuleView>, saved: Seq<SiteRuleView>)
    ensures
        merge_sites(rules, saved).len() >= rules.len(),
        forall|k: int|
            0 <= k < rules.len() ==> (#[trigger] merge_sites(rules, saved)[k]).name == rules[k].name
                && merge_sites(rules, saved)[k].host == rules[k].host,
    decreases saved.len(),
{
    if saved.len() > 0 {
        let prev = merge_sites(rules, saved.drop_last());
        law_merge_keeps_site_names(rules, saved.drop_last());
        lemma_find_host(prev, site_normalized(saved.last()).host, 0);
    }
}

/// The first site rule whose host the given host matches.
pub open spec fn site_for(rules: Seq<SiteRuleView>, host: Seq<char>, i: int) -> Option<int>
    decreases rules.len() - i,
{
    if i < 0 || i >= rules.len() {
        None
    } else if host_matches_spec(host, rules[i].host) {
        Some(i)
    } else {
        site_for(rules, host, i + 1)
    }
}

/// Position of the first site rule matching `host`.
pub fn find_site_for(rules: &Vec<SiteRule>, host: &str) -> (r: Option<usize>)
    ensures
        r matches Some(j) ==> site_for(site_views(rules@), host@, 0) == Some(j as int) && j < rules@.len(),
        r is None ==> site_for(site_views(rules@), host@, 0) is None,
{
    let ghost v = site_views(rules@);
    let mut j: usize = 0;
    while j < rules.len()
        invariant
            j <= rules.len(),
            v == site_views(rules@),
            site_for(v, host@, 0) == site_for(v, host@, j as int),
        decreases rules.len() - j,
    {
        if host_matches(host, rules[j].host.as_str()) {
            return Some(j);
        }
        j = j + 1;
    }
    None
}

} // verus!
