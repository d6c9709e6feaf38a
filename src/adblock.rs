//! Ad blocking by domain rules.

use vstd::prelude::*;
use crate::text::{contains_any, contains_seq};
use crate::threat_intel::{contains_string, string_views, strings_of, view_set};

verus! {

/// The rules an ad blocker starts with.
pub open spec fn default_ad_rules() -> Seq<Seq<char>> {
    seq![
        "doubleclick.net"@,
        "googlesyndication.com"@,
        "googleadservices.com"@,
        "google-analytics.com"@,
        "googletagmanager.com"@,
        "googletagservices.com"@,
        "pagead2.googlesyndication.com"@,
        "adservice.google.com"@,
        "ssl.google-analytics.com"@,
        "facebook.com/tr"@,
        "connect.facebook.net"@,
        "pixel.facebook.com"@,
        "an.facebook.com"@,
        "ads.twitter.com"@,
        "analytics.twitter.com"@,
        "ads-api.twitter.com"@,
        "bat.bing.com"@,
        "ads.linkedin.com"@,
        "px.ads.linkedin.com"@,
        "analytics.pointdrive.linkedin.com"@,
        "aax.amazon-adsystem.com"@,
        "z-na.amazon-adsystem.com"@,
        "fls-na.amazon.com"@,
        "scorecardresearch.com"@,
        "quantserve.com"@,
        "hotjar.com"@,
        "fullstory.com"@,
        "mouseflow.com"@,
        "crazyegg.com"@,
        "luckyorange.com"@,
        "clarity.ms"@,
        "newrelic.com"@,
        "nr-data.net"@,
        "mixpanel.com"@,
        "segment.io"@,
        "segment.com"@,
        "amplitude.com"@,
        "heapanalytics.com"@,
        "kissmetrics.com"@,
        "optimizely.com"@,
        "pubmatic.com"@,
        "rubiconproject.com"@,
        "openx.net"@,
        "indexexchange.com"@,
        "casalemedia.com"@,
        "outbrain.com"@,
        "taboola.com"@,
        "criteo.com"@,
        "criteo.net"@,
        "adnxs.com"@,
        "adsrvr.org"@,
        "moatads.com"@,
        "yieldmanager.com"@,
        "turn.com"@,
        "demdex.net"@,
        "bluekai.com"@,
        "krxd.net"@,
        "exelator.com"@,
        "adform.net"@,
        "mediamath.com"@,
        "bidswitch.net"@,
        "mathtag.com"@,
        "serving-sys.com"@,
        "sizmek.com"@,
        "platform.twitter.com/widgets"@,
        "snap.licdn.com"@,
        "static.ads-twitter.com"@,
        "ct.pinterest.com"@,
        "t.co/i/adsct"@,
        "cdn.mxpnl.com"@,
        "browser-intake-datadoghq.com"@,
        "sentry.io"@,
        "bugsnag.com"@,
        "raygun.com"@,
        "rollbar.com"@,
    ]
}

/// Ad blocker using domain rules.
pub struct AdBlocker {
    enabled: bool,
    blocked_count: u64,
    blocklist: Vec<String>,
}

impl AdBlocker {
    pub closed spec fn is_on(&self) -> bool {
        self.enabled
    }

    pub closed spec fn count(&self) -> u64 {
        self.blocked_count
    }

    /// The rules, as a set of domain fragments.
    pub closed spec fn rules(&self) -> Set<Seq<char>> {
        view_set(self.blocklist@)
    }

    /// Whether a URL matches some rule.
    pub open spec fn matches_rule(&self, url: Seq<char>) -> bool {
        exists|d: Seq<char>| self.rules().contains(d) && #[trigger] contains_seq(url, d)
    }

    /// A blocker with the default rules.
    pub fn new(enabled: bool) -> (r: Self)
        ensures
            r.is_on() == enabled,
            r.count() == 0,
            r.rules() == default_ad_rules().to_set(),
    {
        let blocklist = strings_of(
            &[
                "doubleclick.net",
                "googlesyndication.com",
                "googleadservices.com",
                "google-analytics.com",
                "googletagmanager.com",
                "googletagservices.com",
                "pagead2.googlesyndication.com",
                "adservice.google.com",
                "ssl.google-analytics.com",
                "facebook.com/tr",
                "connect.facebook.net",
                "pixel.facebook.com",
                "an.facebook.com",
                "ads.twitter.com",
                "analytics.twitter.com",
                "ads-api.twitter.com",
                "bat.bing.com",
                "ads.linkedin.com",
                "px.ads.linkedin.com",
                "analytics.pointdrive.linkedin.com",
                "aax.amazon-adsystem.com",
                "z-na.amazon-adsystem.com",
                "fls-na.amazon.com",
                "scorecardresearch.com",
                "quantserve.com",
                "hotjar.com",
                "fullstory.com",
                "mouseflow.com",
                "crazyegg.com",
                "luckyorange.com",
                "clarity.ms",
                "newrelic.com",
                "nr-data.net",
                "mixpanel.com",
                "segment.io",
                "segment.com",
                "amplitude.com",
                "heapanalytics.com",
                "kissmetrics.com",
                "optimizely.com",
                "pubmatic.com",
                "rubiconproject.com",
                "openx.net",
                "indexexchange.com",
                "casalemedia.com",
                "outbrain.com",
                "taboola.com",
                "criteo.com",
                "criteo.net",
                "adnxs.com",
                "adsrvr.org",
                "moatads.com",
                "yieldmanager.com",
                "turn.com",
                "demdex.net",
                "bluekai.com",
                "krxd.net",
                "exelator.com",
                "adform.net",
                "mediamath.com",
                "bidswitch.net",
                "mathtag.com",
                "serving-sys.com",
                "sizmek.com",
                "platform.twitter.com/widgets",
                "snap.licdn.com",
                "static.ads-twitter.com",
                "ct.pinterest.com",
                "t.co/i/adsct",
                "cdn.mxpnl.com",
                "browser-intake-datadoghq.com",
                "sentry.io",
                "bugsnag.com",
                "raygun.com",
                "rollbar.com",
            ],
        );
        proof {
            assert(string_views(blocklist@) =~= default_ad_rules());
            crate::threat_intel::lemma_view_set(blocklist@, default_ad_rules());
        }
        AdBlocker { enabled, blocked_count: 0, blocklist }
    }

    /// Whether a request to `url` is blocked; a blocked request is counted
    /// (the count stops at its largest value).
    pub fn should_block(&mut self, url: &str, source_url: &str, request_type: &str) -> (r: bool)
        ensures
            r == (old(self).is_on() && old(self).matches_rule(url@)),
            final(self).count() == if r && old(self).count() < u64::MAX {
                (old(self).count() + 1) as u64
            } else {
                old(self).count()
            },
            final(self).is_on() == old(self).is_on(),
            final(self).rules() == old(self).rules(),
    {
        if !self.enabled {
            return false;
        }
        let found = contains_any(url, &self.blocklist);
        proof {
            if found {
                let i = choose|i: int|
                    0 <= i < self.blocklist@.len() && contains_seq(url@, #[trigger] self.blocklist@[i]@);
                assert(self.rules().contains(self.blocklist@[i]@));
            } else {
                assert forall|d: Seq<char>| self.rules().contains(d) implies !#[trigger] contains_seq(url@, d) by {
                    let i = choose|i: int| 0 <= i < self.blocklist@.len() && self.blocklist@[i]@ == d;
                    assert(!contains_seq(url@, self.blocklist@[i]@));
                }
            }
        }
        if found && self.blocked_count < u64::MAX {
            self.blocked_count = self.blocked_count + 1;
        }
        found
    }

    /// How many requests were blocked.
    pub fn blocked_count(&self) -> (r: u64)
        ensures
            r == self.count(),
    {
        self.blocked_count
    }

    pub fn set_enabled(&mut self, enabled: bool)
        ensures
            final(self).is_on() == enabled,
            final(self).count() == old(self).count(),
            final(self).rules() == old(self).rules(),
    {
        self.enabled = enabled;
    }

    pub fn is_enabled(&self) -> (r: bool)
        ensures
            r == self.is_on(),
    {
        self.enabled
    }

    /// Adds a domain rule.
    pub fn add_rule(&mut self, domain: String)
        ensures
            final(self).rules() == old(self).rules().insert(domain@),
            final(self).is_on() == old(self).is_on(),
            final(self).count() == old(self).count(),
    {
        if contains_string(&self.blocklist, domain.as_str()) {
            assert(self.rules().insert(domain@) =~= self.rules());
            return;
        }
        let ghost v = self.blocklist@;
        let ghost dv = domain@;
        self.blocklist.push(domain);
        proof {
            crate::threat_intel::lemma_view_set_push(v, self.blocklist@, dv);
        }
    }
}

impl Default for AdBlocker {
    fn default() -> (r: Self)
        ensures
            r.is_on(),
            r.count() == 0,
            r.rules() == default_ad_rules().to_set(),
    {
        Self::new(true)
    }
}

} // verus!
