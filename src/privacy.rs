//! Privacy protection: tracker blocking, cookie policy and fingerprint
//! protection, coordinated by the privacy engine.

use vstd::prelude::*;
use crate::config::PrivacyConfig;
use crate::text::{concat2, contains_any, contains_seq, contains_str, ends_with_seq, ends_with_str, str_eq};
use crate::threat_intel::{contains_string, lemma_view_set_push, view_set};

verus! {

/// The URL mentions one of the known tracking domains.
pub open spec fn mentions_known_tracker(url: Seq<char>) -> bool {
    contains_seq(url, "google-analytics.com"@)
        || contains_seq(url, "googletagmanager.com"@)
        || contains_seq(url, "doubleclick.net"@)
        || contains_seq(url, "facebook.com/tr"@)
        || contains_seq(url, "connect.facebook.net"@)
        || contains_seq(url, "pixel.facebook.com"@)
        || contains_seq(url, "analytics.twitter.com"@)
        || contains_seq(url, "ads.twitter.com"@)
        || contains_seq(url, "scorecardresearch.com"@)
        || contains_seq(url, "quantserve.com"@)
        || contains_seq(url, "hotjar.com"@)
        || contains_seq(url, "fullstory.com"@)
        || contains_seq(url, "mixpanel.com"@)
        || contains_seq(url, "segment.io"@)
        || contains_seq(url, "amplitude.com"@)
        || contains_seq(url, "newrelic.com"@)
        || contains_seq(url, "bugsnag.com"@)
        || contains_seq(url, "sentry.io"@)
        || contains_seq(url, "crashlytics.com"@)
}

/// Tracker blocker: known trackers plus a custom block list.
pub struct TrackerBlocker {
    enabled: bool,
    blocked_count: u64,
    custom_blocklist: Vec<String>,
}

impl TrackerBlocker {
    pub closed spec fn is_enabled(&self) -> bool {
        self.enabled
    }

    pub closed spec fn count(&self) -> u64 {
        self.blocked_count
    }

    /// The custom block list, as a set of patterns.
    pub closed spec fn blocklist(&self) -> Set<Seq<char>> {
        view_set(self.custom_blocklist@)
    }

    /// Whether the blocker, in its current state, blocks `url`.
    pub open spec fn blocks(&self, url: Seq<char>) -> bool {
        self.is_enabled() && (mentions_known_tracker(url) || exists|p: Seq<char>|
            self.blocklist().contains(p) && #[trigger] contains_seq(url, p))
    }

    pub fn new(enabled: bool) -> (r: Self)
        ensures
            r.is_enabled() == enabled,
            r.count() == 0,
            r.blocklist() == Set::<Seq<char>>::empty(),
    {
        let r = TrackerBlocker { enabled, blocked_count: 0, custom_blocklist: Vec::new() };
        assert(r.blocklist() =~= Set::<Seq<char>>::empty());
        r
    }

    /// Whether a request to `url` is blocked.
    pub fn should_block(&self, url: &str) -> (r: bool)
        ensures
            r == self.blocks(url@),
    {
        if !self.enabled {
            return false;
        }
        if contains_str(url, "google-analytics.com")
            || contains_str(url, "googletagmanager.com")
            || contains_str(url, "doubleclick.net")
            || contains_str(url, "facebook.com/tr")
            || contains_str(url, "connect.facebook.net")
            || contains_str(url, "pixel.facebook.com")
            || contains_str(url, "analytics.twitter.com")
            || contains_str(url, "ads.twitter.com")
            || contains_str(url, "scorecardresearch.com")
            || contains_str(url, "quantserve.com")
            || contains_str(url, "hotjar.com")
            || contains_str(url, "fullstory.com")
            || contains_str(url, "mixpanel.com")
            || contains_str(url, "segment.io")
            || contains_str(url, "amplitude.com")
            || contains_str(url, "newrelic.com")
            || contains_str(url, "bugsnag.com")
            || contains_str(url, "sentry.io")
            || contains_str(url, "crashlytics.com") {
            return true;
        }
        let found = contains_any(url, &self.custom_blocklist);
        proof {
            if found {
                let i = choose|i: int|
                    0 <= i < self.custom_blocklist@.len() && contains_seq(
                        url@,
                        #[trigger] self.custom_blocklist@[i]@,
                    );
                assert(self.blocklist().contains(self.custom_blocklist@[i]@));
            } else {
                assert forall|p: Seq<char>|
                    self.blocklist().contains(p) implies !#[trigger] contains_seq(url@, p) by {
                    let i = choose|i: int|
                        0 <= i < self.custom_blocklist@.len() && self.custom_blocklist@[i]@ == p;
                    assert(!contains_seq(url@, self.custom_blocklist@[i]@));
                }
            }
        }
        found
    }

    /// Adds a pattern to the custom block list.
    pub fn add_to_blocklist(&mut self, pattern: String)
        ensures
            final(self).blocklist() == old(self).blocklist().insert(pattern@),
            final(self).is_enabled() == old(self).is_enabled(),
            final(self).count() == old(self).count(),
    {
        if contains_string(&self.custom_blocklist, pattern.as_str()) {
            assert(self.blocklist().insert(pattern@) =~= self.blocklist());
            return;
        }
        let ghost v = self.custom_blocklist@;
        let ghost pv = pattern@;
        self.custom_blocklist.push(pattern);
        proof {
            lemma_view_set_push(v, self.custom_blocklist@, pv);
        }
    }

    /// Counts one more blocked request.
    pub fn increment_blocked(&mut self)
        requires
            old(self).count() < u64::MAX,
        ensures
            final(self).count() == old(self).count() + 1,
            final(self).is_enabled() == old(self).is_enabled(),
            final(self).blocklist() == old(self).blocklist(),
    {
        self.blocked_count = self.blocked_count + 1;
    }

    /// How many requests were blocked.
    pub fn blocked_count(&self) -> (r: u64)
        ensures
            r == self.count(),
    {
        self.blocked_count
    }
}

/// Whether a cookie of `cookie` set on a page of `page` is allowed: first
/// party (the same domain or a subdomain of it), whitelisted, or third-party
/// cookies are not blocked.
pub open spec fn cookie_allowed(
    block_third_party: bool,
    whitelist: Seq<Seq<char>>,
    cookie: Seq<char>,
    page: Seq<char>,
) -> bool {
    cookie == page || ends_with_seq(cookie, "."@ + page) || (exists|i: int|
        0 <= i < whitelist.len() && contains_seq(cookie, #[trigger] whitelist[i]))
        || !block_third_party
}

/// Cookie manager with privacy controls.
pub struct CookieManager {
    block_third_party: bool,
    whitelist: Vec<String>,
}

impl CookieManager {
    pub closed spec fn blocks_third_party(&self) -> bool {
        self.block_third_party
    }

    /// The whitelisted domains, in the order they were added.
    pub closed spec fn whitelist(&self) -> Seq<Seq<char>> {
        self.whitelist@.map_values(|s: String| s@)
    }

    pub fn new(block_third_party: bool) -> (r: Self)
        ensures
            r.blocks_third_party() == block_third_party,
            r.whitelist() == Seq::<Seq<char>>::empty(),
    {
        let r = CookieManager { block_third_party, whitelist: Vec::new() };
        assert(r.whitelist() =~= Seq::<Seq<char>>::empty());
        r
    }

    /// Whether a cookie for `cookie_domain` may be set by a page of
    /// `page_domain`.
    pub fn should_allow_cookie(&self, cookie_domain: &str, page_domain: &str) -> (r: bool)
        ensures
            r == cookie_allowed(self.blocks_third_party(), self.whitelist(), cookie_domain@, page_domain@),
    {
        let dotted = concat2(".", page_domain);
        if str_eq(cookie_domain, page_domain) || ends_with_str(cookie_domain, dotted.as_str()) {
            return true;
        }
        let listed = contains_any(cookie_domain, &self.whitelist);
        proof {
            if listed {
                let i = choose|i: int|
                    0 <= i < self.whitelist@.len() && contains_seq(
                        cookie_domain@,
                        #[trigger] self.whitelist@[i]@,
                    );
                assert(contains_seq(cookie_domain@, self.whitelist()[i]));
            } else {
                assert forall|i: int| 0 <= i < self.whitelist().len() implies !contains_seq(
                    cookie_domain@,
                    #[trigger] self.whitelist()[i],
                ) by {
                    assert(!contains_seq(cookie_domain@, self.whitelist@[i]@));
                }
            }
        }
        if listed {
            return true;
        }
        !self.block_third_party
    }

    /// Adds a domain to the whitelist.
    pub fn add_to_whitelist(&mut self, domain: String)
        ensures
            final(self).whitelist() == old(self).whitelist().push(domain@),
            final(self).blocks_third_party() == old(self).blocks_third_party(),
    {
        let ghost d = domain@;
        self.whitelist.push(domain);
        assert(self.whitelist() =~= old(self).whitelist().push(d));
    }

    /// Empties the whitelist.
    pub fn clear_whitelist(&mut self)
        ensures
            final(self).whitelist() == Seq::<Seq<char>>::empty(),
            final(self).blocks_third_party() == old(self).blocks_third_party(),
    {
        self.whitelist.clear();
        assert(self.whitelist() =~= Seq::<Seq<char>>::empty());
    }
}

/// Relies on `num_cpus::get`: the number of logical CPUs available, at
/// least one.
#[verifier::external_body]
fn cpu_count() -> (r: usize)
    ensures
        r >= 1,
{
    num_cpus::get()
}

/// Relies on `chrono::Local::now` and `FixedOffset::local_minus_utc`: the
/// seconds to add to UTC to get the machine's local time now.
#[verifier::external_body]
fn local_offset_seconds() -> i32 {
    chrono::Local::now().offset().local_minus_utc()
}

/// Fingerprint protection: reports common values instead of the machine's.
pub struct FingerprintProtection {
    enabled: bool,
}

impl FingerprintProtection {
    pub closed spec fn is_enabled(&self) -> bool {
        self.enabled
    }

    pub fn new(enabled: bool) -> (r: Self)
        ensures
            r.is_enabled() == enabled,
    {
        FingerprintProtection { enabled }
    }

    /// The timezone offset in minutes: UTC when enabled, else the machine's.
    pub fn timezone_offset(&self) -> (r: i32)
        ensures
            self.is_enabled() ==> r == 0,
    {
        if self.enabled {
            0
        } else {
            local_offset_seconds() / 60
        }
    }

    /// The screen dimensions reported to pages.
    pub fn screen_dimensions(&self) -> (r: (u32, u32))
        ensures
            r == (1920u32, 1080u32),
    {
        (1920, 1080)
    }

    /// The hardware concurrency reported to pages: 4 when enabled, else the
    /// machine's CPU count.
    pub fn hardware_concurrency(&self) -> (r: u32)
        ensures
            self.is_enabled() ==> r == 4,
    {
        if self.enabled {
            4
        } else {
            cpu_count() as u32
        }
    }

    /// The device memory in GB reported to pages.
    pub fn device_memory(&self) -> (r: u32)
        ensures
            r == 8,
    {
        8
    }
}

/// Privacy engine that coordinates all privacy features.
pub struct PrivacyEngine {
    pub tracker_blocker: TrackerBlocker,
    pub fingerprint_protection: FingerprintProtection,
    pub cookie_manager: CookieManager,
    pub config: PrivacyConfig,
}

impl PrivacyEngine {
    pub closed spec fn strict(&self) -> bool {
        self.config.strict_mode
    }

    /// An engine whose parts are switched on as `config` says.
    pub fn new(config: PrivacyConfig) -> (r: Self)
        ensures
            r.tracker_blocker.is_enabled() == config.block_trackers,
            r.tracker_blocker.count() == 0,
            r.tracker_blocker.blocklist() == Set::<Seq<char>>::empty(),
            r.fingerprint_protection.is_enabled() == config.block_fingerprinting,
            r.cookie_manager.blocks_third_party() == config.block_third_party_cookies,
            r.cookie_manager.whitelist() == Seq::<Seq<char>>::empty(),
            r.strict() == config.strict_mode,
    {
        PrivacyEngine {
            tracker_blocker: TrackerBlocker::new(config.block_trackers),
            fingerprint_protection: FingerprintProtection::new(config.block_fingerprinting),
            cookie_manager: CookieManager::new(config.block_third_party_cookies),
            config,
        }
    }

    pub fn is_strict_mode(&self) -> (r: bool)
        ensures
            r == self.strict(),
    {
        self.config.strict_mode
    }

    /// Whether a request to `url` is blocked.
    pub fn should_block(&self, url: &str) -> (r: bool)
        ensures
            r == self.tracker_blocker.blocks(url@),
    {
        self.tracker_blocker.should_block(url)
    }
}

} // verus!
