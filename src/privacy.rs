use vstd::prelude::*;

use crate::errors::PrivacyError;
use crate::types::PrivacyStats;

verus! {

/// The lowercase mapping of a text, as std defines it.
pub uninterp spec fn lowercase_of(s: Seq<char>) -> Seq<char>;

/// Relies on `str::to_lowercase`: the lowercase mapping depends on the characters alone.
#[verifier::external_body]
pub(crate) fn to_lowercase(s: &str) -> (r: String)
    ensures
        r@ == lowercase_of(s@),
{
    s.to_lowercase()
}

/// Known tracker domains.
pub open spec fn tracker_domains() -> Seq<Seq<char>> {
    seq![
        "google-analytics.com"@,
        "googletagmanager.com"@,
        "doubleclick.net"@,
        "analytics.google.com"@,
        "adservice.google.com"@,
        "pagead2.googlesyndication.com"@,
        "googleadservices.com"@,
        "googlesyndication.com"@,
        "google-analytics.l.google.com"@,
        "facebook.net"@,
        "fbcdn.net"@,
        "pixel.facebook.com"@,
        "connect.facebook.net"@,
        "graph.facebook.com"@,
        "amazon-adsystem.com"@,
        "aax.amazon-adsystem.com"@,
        "scorecardresearch.com"@,
        "quantserve.com"@,
        "hotjar.com"@,
        "mixpanel.com"@,
        "segment.io"@,
        "segment.com"@,
        "amplitude.com"@,
        "heapanalytics.com"@,
        "fullstory.com"@,
        "mouseflow.com"@,
        "crazyegg.com"@,
        "luckyorange.com"@,
        "clarity.ms"@,
        "newrelic.com"@,
        "nr-data.net"@,
        "outbrain.com"@,
        "taboola.com"@,
        "criteo.com"@,
        "criteo.net"@,
        "adsrvr.org"@,
        "adnxs.com"@,
        "rubiconproject.com"@,
        "pubmatic.com"@,
        "openx.net"@,
        "casalemedia.com"@,
        "indexexchange.com"@,
        "moatads.com"@,
        "doubleverify.com"@,
        "adsafeprotected.com"@,
        "platform.twitter.com"@,
        "syndication.twitter.com"@,
        "platform.linkedin.com"@,
        "snap.licdn.com"@,
        "static.ads-twitter.com"@,
        "bat.bing.com"@,
        "ads.yahoo.com"@,
        "yandex.ru/metrika"@,
        "mc.yandex.ru"@,
        "top-fwz1.mail.ru"@,
        "vk.com/rtrg"@,
        "tiktokcdn.com/tiktok/falcon"@,
        "analytics.tiktok.com"@
    ]
}

/// Known ad-serving URL path patterns.
pub open spec fn ad_path_patterns() -> Seq<Seq<char>> {
    seq![
        "/ads/"@,
        "/ad/"@,
        "/adserver"@,
        "/adclick"@,
        "/pagead/"@,
        "/doubleclick/"@,
        "/adsense/"@,
        "/adview"@,
        "/adframe"@,
        "/sponsor"@,
        "/banner"@,
        "/popup"@
    ]
}

fn tracker_domain_list() -> (r: Vec<&'static str>)
    ensures
        r@.map_values(|s: &'static str| s@) == tracker_domains(),
{
    let v = vec![
            "google-analytics.com",
            "googletagmanager.com",
            "doubleclick.net",
            "analytics.google.com",
            "adservice.google.com",
            "pagead2.googlesyndication.com",
            "googleadservices.com",
            "googlesyndication.com",
            "google-analytics.l.google.com",
            "facebook.net",
            "fbcdn.net",
            "pixel.facebook.com",
            "connect.facebook.net",
            "graph.facebook.com",
            "amazon-adsystem.com",
            "aax.amazon-adsystem.com",
            "scorecardresearch.com",
            "quantserve.com",
            "hotjar.com",
            "mixpanel.com",
            "segment.io",
            "segment.com",
            "amplitude.com",
            "heapanalytics.com",
            "fullstory.com",
            "mouseflow.com",
            "crazyegg.com",
            "luckyorange.com",
            "clarity.ms",
            "newrelic.com",
            "nr-data.net",
            "outbrain.com",
            "taboola.com",
            "criteo.com",
            "criteo.net",
            "adsrvr.org",
            "adnxs.com",
            "rubiconproject.com",
            "pubmatic.com",
            "openx.net",
            "casalemedia.com",
            "indexexchange.com",
            "moatads.com",
            "doubleverify.com",
            "adsafeprotected.com",
            "platform.twitter.com",
            "syndication.twitter.com",
            "platform.linkedin.com",
            "snap.licdn.com",
            "static.ads-twitter.com",
            "bat.bing.com",
            "ads.yahoo.com",
            "yandex.ru/metrika",
            "mc.yandex.ru",
            "top-fwz1.mail.ru",
            "vk.com/rtrg",
            "tiktokcdn.com/tiktok/falcon",
            "analytics.tiktok.com"
    ];
    assert(v@.map_values(|s: &'static str| s@) =~= tracker_domains());
    v
}

fn ad_pattern_list() -> (r: Vec<&'static str>)
    ensures
        r@.map_values(|s: &'static str| s@) == ad_path_patterns(),
{
    let v = vec![
            "/ads/",
            "/ad/",
            "/adserver",
            "/adclick",
            "/pagead/",
            "/doubleclick/",
            "/adsense/",
            "/adview",
            "/adframe",
            "/sponsor",
            "/banner",
            "/popup"
    ];
    assert(v@.map_values(|s: &'static str| s@) =~= ad_path_patterns());
    v
}

/// `needle` occurs in `hay`.
pub open spec fn contains_text(hay: Seq<char>, needle: Seq<char>) -> bool {
    exists|i: int| 0 <= i && i + needle.len() <= hay.len() && #[trigger] hay.subrange(i, i + needle.len()) == needle
}

/// Some entry of `list` occurs in `hay`.
pub open spec fn contains_any(hay: Seq<char>, list: Seq<Seq<char>>) -> bool {
    exists|k: int| 0 <= k < list.len() && contains_text(hay, #[trigger] list[k])
}

/// The URL names a known tracker domain.
pub open spec fn is_tracker_text(url: Seq<char>) -> bool {
    contains_any(lowercase_of(url), tracker_domains())
}

/// The URL holds a known ad-serving path.
pub open spec fn is_ad_text(url: Seq<char>) -> bool {
    contains_any(lowercase_of(url), ad_path_patterns())
}

/// The characters of `s`.
pub fn chars_of(s: &str) -> (r: Vec<char>)
    ensures
        r@ == s@,
{
    let n = s.unicode_len();
    let mut v: Vec<char> = Vec::new();
    let mut i: usize = 0;
    while i < n
        invariant
            n == s@.len(),
            i <= n,
            v@ == s@.subrange(0, i as int),
        decreases n - i,
    {
        v.push(s.get_char(i));
        i = i + 1;
        assert(v@ =~= s@.subrange(0, i as int));
    }
    assert(v@ =~= s@);
    v
}

fn matches_at(hay: &Vec<char>, needle: &Vec<char>, i: usize) -> (r: bool)
    requires
        i + needle@.len() <= hay@.len(),
    ensures
        r == (hay@.subrange(i as int, i + needle@.len()) == needle@),
{
    let hay_len = hay.len();
    let mut j: usize = 0;
    while j < needle.len()
        invariant
            hay_len == hay@.len(),
            i + needle@.len() <= hay@.len(),
            j <= needle@.len(),
            forall|t: int| 0 <= t < j ==> hay@[i + t] == needle@[t],
        decreases needle@.len() - j,
    {
        if hay[i + j] != needle[j] {
            assert(hay@.subrange(i as int, i + needle@.len())[j as int] != needle@[j as int]);
            return false;
        }
        j = j + 1;
    }
    assert(hay@.subrange(i as int, i + needle@.len()) =~= needle@);
    true
}

/// Whether `needle` occurs in `hay`.
pub fn str_contains(hay: &str, needle: &str) -> (r: bool)
    ensures
        r == contains_text(hay@, needle@),
{
    let h = chars_of(hay);
    let n = chars_of(needle);
    if n.len() > h.len() {
        return false;
    }
    let last = h.len() - n.len();
    let mut i: usize = 0;
    while i <= last
        invariant
            h@ == hay@,
            n@ == needle@,
            last == h@.len() - n@.len(),
            i <= last + 1,
            forall|t: int| 0 <= t < i ==> #[trigger] hay@.subrange(t, t + needle@.len()) != needle@,
        decreases last + 1 - i,
    {
        if matches_at(&h, &n, i) {
            return true;
        }
        if i == last {
            return false;
        }
        i = i + 1;
    }
    false
}

fn contains_any_of(hay: &str, list: &Vec<&'static str>) -> (r: bool)
    ensures
        r == contains_any(hay@, list@.map_values(|s: &'static str| s@)),
{
    let ghost views = list@.map_values(|s: &'static str| s@);
    let mut k: usize = 0;
    while k < list.len()
        invariant
            k <= list@.len(),
            views == list@.map_values(|s: &'static str| s@),
            forall|t: int| 0 <= t < k ==> !contains_text(hay@, #[trigger] views[t]),
        decreases list@.len() - k,
    {
        if str_contains(hay, list[k]) {
            assert(contains_text(hay@, views[k as int]));
            return true;
        }
        k = k + 1;
    }
    false
}

/// Whether `s` starts with `prefix`.
pub fn starts_with_text(s: &str, prefix: &str) -> (r: bool)
    ensures
        r == (prefix@.len() <= s@.len() && s@.subrange(0, prefix@.len() as int) == prefix@),
{
    let h = chars_of(s);
    let p = chars_of(prefix);
    if p.len() > h.len() {
        return false;
    }
    matches_at(&h, &p, 0)
}

/// The state of a [`PrivacyEngine`].
pub struct PrivacyView {
    pub private_mode: bool,
    pub stats: PrivacyStats,
    pub doh_provider: Option<Seq<char>>,
    pub tracker_blocking_enabled: bool,
    pub https_enforcement_enabled: bool,
}

/// Tracker and ad blocking, HTTPS upgrades, DNS-over-HTTPS choice and private mode.
pub struct PrivacyEngine {
    private_mode: bool,
    stats: PrivacyStats,
    doh_provider: Option<String>,
    tracker_blocking_enabled: bool,
    https_enforcement_enabled: bool,
}

impl View for PrivacyEngine {
    type V = PrivacyView;

    closed spec fn view(&self) -> PrivacyView {
        PrivacyView {
            private_mode: self.private_mode,
            stats: self.stats,
            doh_provider: match self.doh_provider {
                Some(p) => Some(p@),
                None => None,
            },
            tracker_blocking_enabled: self.tracker_blocking_enabled,
            https_enforcement_enabled: self.https_enforcement_enabled,
        }
    }
}

pub open spec fn zero_stats(s: PrivacyStats) -> bool {
    s.trackers_blocked == 0 && s.ads_blocked == 0 && s.https_upgrades == 0 && s.fingerprint_attempts_blocked == 0
}

fn empty_stats() -> (r: PrivacyStats)
    ensures
        zero_stats(r),
{
    PrivacyStats { trackers_blocked: 0, ads_blocked: 0, https_upgrades: 0, fingerprint_attempts_blocked: 0 }
}

impl PrivacyEngine {
    /// An engine with blocking and HTTPS enforcement on, private mode off and empty stats.
    pub fn new() -> (r: Self)
        ensures
            !r@.private_mode,
            zero_stats(r@.stats),
            r@.doh_provider is None,
            r@.tracker_blocking_enabled,
            r@.https_enforcement_enabled,
    {
        PrivacyEngine {
            private_mode: false,
            stats: empty_stats(),
            doh_provider: None,
            tracker_blocking_enabled: true,
            https_enforcement_enabled: true,
        }
    }

    /// Whether the URL names a known tracker domain, ignoring case.
    pub fn is_tracker_url(&self, url: &str) -> (r: bool)
        ensures
            r == is_tracker_text(url@),
    {
        let lower = to_lowercase(url);
        contains_any_of(lower.as_str(), &tracker_domain_list())
    }

    /// Whether the URL holds a known ad-serving path, ignoring case.
    pub fn is_ad_url(&self, url: &str) -> (r: bool)
        ensures
            r == is_ad_text(url@),
    {
        let lower = to_lowercase(url);
        contains_any_of(lower.as_str(), &ad_pattern_list())
    }

    /// Resets the statistics.
    pub fn initialize(&mut self) -> (r: Result<(), PrivacyError>)
        ensures
            r is Ok,
            final(self)@ == (PrivacyView { stats: final(self)@.stats, ..old(self)@ }),
            zero_stats(final(self)@.stats),
    {
        self.stats = empty_stats();
        Ok(())
    }

    /// Whether a request must be blocked: tracker blocking is on and the URL is a tracker
    /// or an ad.
    pub fn should_block_request(&self, url: &str, resource_type: &str) -> (r: bool)
        ensures
            r == (self@.tracker_blocking_enabled && (is_tracker_text(url@) || is_ad_text(url@))),
    {
        if !self.tracker_blocking_enabled {
            return false;
        }
        let is_tracker = self.is_tracker_url(url);
        let is_ad = self.is_ad_url(url);
        is_tracker || is_ad
    }

    /// The `https://` form of an `http://` URL while HTTPS enforcement is on.
    pub fn upgrade_to_https(&self, url: &str) -> (r: Option<String>)
        ensures
            !(self@.https_enforcement_enabled && url@.len() >= 7 && url@.subrange(0, 7) == "http://"@) ==> r is None,
            self@.https_enforcement_enabled && url@.len() >= 7 && url@.subrange(0, 7) == "http://"@
                ==> (r matches Some(u) && u@ == "https://"@ + url@.subrange(7, url@.len() as int)),
    {
        proof {
            reveal_strlit("http://");
        }
        if !self.https_enforcement_enabled {
            return None;
        }
        if starts_with_text(url, "http://") {
            let rest = url.substring_char(7, url.unicode_len());
            let mut s = "https://".to_owned();
            s.append(rest);
            Some(s)
        } else {
            None
        }
    }

    /// Chooses the DNS-over-HTTPS provider; an empty one is refused.
    pub fn configure_dns_over_https(&mut self, provider: &str) -> (r: Result<(), PrivacyError>)
        ensures
            provider@.len() == 0 ==> (r matches Err(PrivacyError::DnsError(_)) && final(self)@ == old(self)@),
            provider@.len() > 0 ==> r is Ok && final(self)@ == (PrivacyView { doh_provider: Some(provider@), ..old(self)@ }),
    {
        if provider.unicode_len() == 0 {
            return Err(PrivacyError::DnsError("Provider URL cannot be empty".to_owned()));
        }
        self.doh_provider = Some(provider.to_owned());
        Ok(())
    }

    pub fn enable_private_mode(&mut self)
        ensures
            final(self)@ == (PrivacyView { private_mode: true, ..old(self)@ }),
    {
        self.private_mode = true;
    }

    pub fn disable_private_mode(&mut self)
        ensures
            final(self)@ == (PrivacyView { private_mode: false, ..old(self)@ }),
    {
        self.private_mode = false;
    }

    pub fn is_private_mode(&self) -> (r: bool)
        ensures
            r == self@.private_mode,
    {
        self.private_mode
    }

    pub fn get_stats(&self) -> (r: &PrivacyStats)
        ensures
            *r == self@.stats,
    {
        &self.stats
    }

    /// Clears the data of the private session: the statistics are reset.
    pub fn clear_private_data(&mut self) -> (r: Result<(), PrivacyError>)
        ensures
            r is Ok,
            final(self)@ == (PrivacyView { stats: final(self)@.stats, ..old(self)@ }),
            zero_stats(final(self)@.stats),
    {
        self.stats = empty_stats();
        Ok(())
    }

    /// Counts a blocked request as a tracker and/or as an ad.
    pub fn record_blocked(&mut self, url: &str)
        requires
            old(self)@.stats.trackers_blocked < u64::MAX,
            old(self)@.stats.ads_blocked < u64::MAX,
        ensures
            final(self)@.stats.trackers_blocked == old(self)@.stats.trackers_blocked + if is_tracker_text(url@) { 1int } else { 0int },
            final(self)@.stats.ads_blocked == old(self)@.stats.ads_blocked + if is_ad_text(url@) { 1int } else { 0int },
            final(self)@.stats.https_upgrades == old(self)@.stats.https_upgrades,
            final(self)@.stats.fingerprint_attempts_blocked == old(self)@.stats.fingerprint_attempts_blocked,
            final(self)@ == (PrivacyView { stats: final(self)@.stats, ..old(self)@ }),
    {
        if self.is_tracker_url(url) {
            self.stats.trackers_blocked = self.stats.trackers_blocked + 1;
        }
        if self.is_ad_url(url) {
            self.stats.ads_blocked = self.stats.ads_blocked + 1;
        }
    }

    /// Counts an HTTPS upgrade.
    pub fn record_https_upgrade(&mut self)
        requires
            old(self)@.stats.https_upgrades < u64::MAX,
        ensures
            final(self)@.stats.https_upgrades == old(self)@.stats.https_upgrades + 1,
            final(self)@.stats.trackers_blocked == old(self)@.stats.trackers_blocked,
            final(self)@.stats.ads_blocked == old(self)@.stats.ads_blocked,
            final(self)@.stats.fingerprint_attempts_blocked == old(self)@.stats.fingerprint_attempts_blocked,
            final(self)@ == (PrivacyView { stats: final(self)@.stats, ..old(self)@ }),
    {
        self.stats.https_upgrades = self.stats.https_upgrades + 1;
    }
}

} // verus!
