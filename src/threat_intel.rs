//! URL and domain threat analysis: a fixed catalog of heuristics, each of
//! which adds weighted indicators, summed into a capped score and a level.

use vstd::prelude::*;
use vstd::utf8::encode_utf8;
use crate::text::{
    concat2, concat3, contains_seq, contains_str, count_char, count_chars, decimal,
    decimal_string, find_char, find_str, first_char_from, first_index, last_char_index,
    lower_of, lowercase, rfind_char, starts_with_seq, starts_with_str, str_eq, trim_str,
    trimmed,
};

verus! {

/// Threat classification levels.
#[derive(Debug, Clone, Copy, PartialEq, Eq, Structural)]
pub enum ThreatLevel {
    Safe,
    Suspicious,
    Malicious,
    Phishing,
    Malware,
}

impl ThreatLevel {
    pub open spec fn label(self) -> Seq<char> {
        match self {
            ThreatLevel::Safe => "SAFE"@,
            ThreatLevel::Suspicious => "SUSPICIOUS"@,
            ThreatLevel::Malicious => "MALICIOUS"@,
            ThreatLevel::Phishing => "PHISHING"@,
            ThreatLevel::Malware => "MALWARE"@,
        }
    }

    /// The upper-case name of the level.
    pub fn to_string(&self) -> (r: String)
        ensures
            r@ == self.label(),
    {
        match self {
            ThreatLevel::Safe => "SAFE".to_owned(),
            ThreatLevel::Suspicious => "SUSPICIOUS".to_owned(),
            ThreatLevel::Malicious => "MALICIOUS".to_owned(),
            ThreatLevel::Phishing => "PHISHING".to_owned(),
            ThreatLevel::Malware => "MALWARE".to_owned(),
        }
    }
}

/// One triggered heuristic.
#[derive(Debug, Clone)]
pub struct ThreatIndicator {
    pub category: String,
    pub description: String,
    pub weight: u32,
}

/// What an indicator holds, as character sequences.
pub struct IndicatorView {
    pub category: Seq<char>,
    pub description: Seq<char>,
    pub weight: u32,
}

pub open spec fn ind(category: Seq<char>, description: Seq<char>, weight: u32) -> IndicatorView {
    IndicatorView { category, description, weight }
}

impl View for ThreatIndicator {
    type V = IndicatorView;

    open spec fn view(&self) -> IndicatorView {
        ind(self.category@, self.description@, self.weight)
    }
}

pub open spec fn views(s: Seq<ThreatIndicator>) -> Seq<IndicatorView> {
    s.map_values(|i: ThreatIndicator| i@)
}

/// The result of analysing one URL.
#[derive(Debug, Clone)]
pub struct ThreatAnalysis {
    pub url: String,
    pub domain: String,
    pub level: ThreatLevel,
    /// 0 to 100, higher is more dangerous.
    pub score: u32,
    pub indicators: Vec<ThreatIndicator>,
    pub timestamp: u64,
}

/// The catalogs of the engine: suspicious TLDs, phishing keywords in
/// evaluation order, homoglyph pairs (real, lookalike) in evaluation order,
/// and the trusted domains.
pub struct ThreatIntelView {
    pub tlds: Set<Seq<char>>,
    pub patterns: Seq<Seq<char>>,
    pub homoglyphs: Seq<(Seq<char>, Seq<char>)>,
    pub trusted: Set<Seq<char>>,
}

/// The set of the views of the strings in `v`.
pub open spec fn view_set(v: Seq<String>) -> Set<Seq<char>> {
    Set::new(|t: Seq<char>| exists|i: int| 0 <= i < v.len() && v[i]@ == t)
}

/// Threat intelligence engine.
pub struct ThreatIntel {
    suspicious_tlds: Vec<String>,
    phishing_patterns: Vec<String>,
    homoglyphs: Vec<(String, String)>,
    trusted_domains: Vec<String>,
}

impl View for ThreatIntel {
    type V = ThreatIntelView;

    closed spec fn view(&self) -> ThreatIntelView {
        ThreatIntelView {
            tlds: view_set(self.suspicious_tlds@),
            patterns: self.phishing_patterns@.map_values(|s: String| s@),
            homoglyphs: self.homoglyphs@.map_values(|p: (String, String)| (p.0@, p.1@)),
            trusted: view_set(self.trusted_domains@),
        }
    }
}

// ---------------------------------------------------------------------------
// The model: domain extraction, the ten checks, score and level.

/// The domain of a URL that has already been trimmed: what follows the
/// first `://`, up to the first `/`, without what follows the last `:`.
pub open spec fn domain_of(t: Seq<char>) -> Seq<char> {
    let a = match first_index(t, seq![':', '/', '/']) {
        Some(p) => t.subrange(p + 3, t.len() as int),
        None => t,
    };
    let b = match first_char_from(a, '/', 0) {
        Some(p) => a.subrange(0, p),
        None => a,
    };
    match last_char_index(b, ':') {
        Some(p) => b.subrange(0, p),
        None => b,
    }
}

/// The domain that the engine extracts from a raw URL.
pub open spec fn extracted_domain(url: Seq<char>) -> Seq<char> {
    domain_of(trimmed(url))
}

/// The last dot-separated segment of a domain.
pub open spec fn tld_of(domain: Seq<char>) -> Seq<char> {
    match last_char_index(domain, '.') {
        Some(p) => domain.subrange(p + 1, domain.len() as int),
        None => domain,
    }
}

pub open spec fn tld_indicators(v: ThreatIntelView, domain: Seq<char>) -> Seq<IndicatorView> {
    if v.tlds.contains(tld_of(domain)) {
        seq![ind("TLD"@, "Suspicious TLD: ."@ + tld_of(domain), 20)]
    } else {
        seq![]
    }
}

/// One indicator per phishing keyword found in the lowercased domain,
/// unless the domain is trusted.
pub open spec fn phishing_indicators(
    pats: Seq<Seq<char>>,
    lower: Seq<char>,
    trusted: bool,
) -> Seq<IndicatorView>
    decreases pats.len(),
{
    if pats.len() == 0 {
        seq![]
    } else {
        let p = pats.last();
        phishing_indicators(pats.drop_last(), lower, trusted) + if contains_seq(lower, p)
            && !trusted {
            seq![ind("PHISHING"@, "Phishing keyword '"@ + p + "' in domain"@, 25)]
        } else {
            seq![]
        }
    }
}

/// One indicator per homoglyph pair whose lookalike occurs in the domain.
pub open spec fn homoglyph_indicators(
    pairs: Seq<(Seq<char>, Seq<char>)>,
    domain: Seq<char>,
) -> Seq<IndicatorView>
    decreases pairs.len(),
{
    if pairs.len() == 0 {
        seq![]
    } else {
        let (genuine, fake) = pairs.last();
        homoglyph_indicators(pairs.drop_last(), domain) + if contains_seq(domain, fake) {
            seq![
                ind(
                    "HOMOGLYPH"@,
                    "Possible homoglyph: '"@ + fake + "' may impersonate '"@ + genuine + "'"@,
                    30,
                ),
            ]
        } else {
            seq![]
        }
    }
}

/// Every character is an ASCII digit or a dot.
pub open spec fn all_ip_chars(domain: Seq<char>) -> bool {
    forall|i: int| 0 <= i < domain.len() ==> ('0' <= #[trigger] domain[i] <= '9' || domain[i] == '.')
}

pub open spec fn ip_indicators(domain: Seq<char>) -> Seq<IndicatorView> {
    if all_ip_chars(domain) {
        seq![ind("IP_URL"@, "URL uses IP address instead of domain name"@, 15)]
    } else {
        seq![]
    }
}

pub open spec fn subdomain_indicators(domain: Seq<char>) -> Seq<IndicatorView> {
    let n = count_char(domain, '.');
    if n > 3 {
        seq![ind("SUBDOMAIN"@, "Excessive subdomains: "@ + decimal(n + 1) + " levels"@, 15)]
    } else {
        seq![]
    }
}

pub open spec fn obfuscation_indicators(url: Seq<char>) -> Seq<IndicatorView> {
    if contains_seq(url, "@"@) {
        seq![
            ind(
                "URL_OBFUSCATION"@,
                "URL contains @ symbol — possible credential harvesting redirect"@,
                35,
            ),
        ]
    } else {
        seq![]
    }
}

pub open spec fn data_uri_indicators(url: Seq<char>) -> Seq<IndicatorView> {
    if starts_with_seq(url, "data:"@) {
        seq![ind("DATA_URI"@, "Data URI scheme — content embedded in URL"@, 25)]
    } else {
        seq![]
    }
}

pub open spec fn no_tls_indicators(url: Seq<char>, lower: Seq<char>) -> Seq<IndicatorView> {
    if starts_with_seq(url, "http://"@) && !starts_with_seq(lower, "localhost"@) {
        seq![ind("NO_TLS"@, "Connection not encrypted (HTTP)"@, 10)]
    } else {
        seq![]
    }
}

/// The length of a URL in UTF-8 bytes, as `str::len` reports it.
pub open spec fn byte_len(url: Seq<char>) -> usize {
    encode_utf8(url).len() as usize
}

pub open spec fn long_url_indicators(url: Seq<char>) -> Seq<IndicatorView> {
    if byte_len(url) > 200 {
        seq![
            ind(
                "LONG_URL"@,
                "Unusually long URL: "@ + decimal(byte_len(url) as nat) + " characters"@,
                10,
            ),
        ]
    } else {
        seq![]
    }
}

/// The lowercased domain contains a known URL shortener.
pub open spec fn is_shortener(lower: Seq<char>) -> bool {
    contains_seq(lower, "bit.ly"@) || contains_seq(lower, "t.co"@) || contains_seq(lower, "goo.gl"@)
        || contains_seq(lower, "tinyurl.com"@) || contains_seq(lower, "is.gd"@) || contains_seq(
        lower,
        "ow.ly"@,
    )
}

pub open spec fn shortener_indicators(lower: Seq<char>) -> Seq<IndicatorView> {
    if is_shortener(lower) {
        seq![ind("SHORTENER"@, "URL shortener detected — destination unknown"@, 15)]
    } else {
        seq![]
    }
}

/// All indicators for a URL, its domain and the lowercased domain, in the
/// order in which the checks run.
pub open spec fn indicators_of(
    v: ThreatIntelView,
    url: Seq<char>,
    domain: Seq<char>,
    lower: Seq<char>,
) -> Seq<IndicatorView> {
    tld_indicators(v, domain) + phishing_indicators(v.patterns, lower, v.trusted.contains(domain))
        + homoglyph_indicators(v.homoglyphs, domain) + ip_indicators(domain)
        + subdomain_indicators(domain) + obfuscation_indicators(url) + data_uri_indicators(url)
        + no_tls_indicators(url, lower) + long_url_indicators(url) + shortener_indicators(lower)
}

/// The sum of the weights of the indicators.
pub open spec fn total_weight(s: Seq<IndicatorView>) -> nat
    decreases s.len(),
{
    if s.len() == 0 {
        0
    } else {
        total_weight(s.drop_last()) + s.last().weight as nat
    }
}

/// The sum of the weights, capped at 100.
pub open spec fn capped_score(s: Seq<IndicatorView>) -> u32 {
    if total_weight(s) >= 100 {
        100
    } else {
        total_weight(s) as u32
    }
}

/// Some indicator is a phishing keyword or a homoglyph.
pub open spec fn has_impersonation(s: Seq<IndicatorView>) -> bool {
    exists|i: int|
        0 <= i < s.len() && (#[trigger] s[i].category == "PHISHING"@ || s[i].category
            == "HOMOGLYPH"@)
}

/// The level for a score and its indicators; a trusted domain is always safe.
pub open spec fn level_of(trusted: bool, score: u32, s: Seq<IndicatorView>) -> ThreatLevel {
    if trusted {
        ThreatLevel::Safe
    } else if score >= 70 {
        if has_impersonation(s) {
            ThreatLevel::Phishing
        } else {
            ThreatLevel::Malicious
        }
    } else if score >= 40 {
        ThreatLevel::Suspicious
    } else {
        ThreatLevel::Safe
    }
}

/// `r` is what the engine with catalogs `v` reports for `url`, whatever
/// its timestamp.
pub open spec fn is_analysis_of(v: ThreatIntelView, url: Seq<char>, r: ThreatAnalysis) -> bool {
    &&& r.url@ == url
    &&& r.domain@ == extracted_domain(url)
    &&& views(r.indicators@) == indicators_of(v, url, r.domain@, lower_of(r.domain@))
    &&& r.score == score_of(v, url)
    &&& r.level == threat_level_of(v, url)
}

/// The score the engine gives a URL.
pub open spec fn score_of(v: ThreatIntelView, url: Seq<char>) -> u32 {
    let d = extracted_domain(url);
    capped_score(indicators_of(v, url, d, lower_of(d)))
}

/// The level the engine gives a URL.
pub open spec fn threat_level_of(v: ThreatIntelView, url: Seq<char>) -> ThreatLevel {
    let d = extracted_domain(url);
    let s = indicators_of(v, url, d, lower_of(d));
    level_of(v.trusted.contains(d), capped_score(s), s)
}

/// The suspicious TLDs of the default catalog.
pub open spec fn default_tld_list() -> Seq<Seq<char>> {
    seq![
        "tk"@, "ml"@, "ga"@, "cf"@, "gq"@, "xyz"@, "top"@, "club"@, "work"@, "buzz"@, "cam"@,
        "icu"@, "cyou"@, "rest"@,
    ]
}

/// The phishing keywords of the default catalog, in evaluation order.
pub open spec fn default_patterns() -> Seq<Seq<char>> {
    seq![
        "login"@, "signin"@, "verify"@, "secure"@, "account"@, "update"@, "confirm"@,
        "banking"@, "paypal"@, "apple-id"@, "microsoft-login"@, "amazon-security"@,
    ]
}

/// The homoglyph pairs of the default catalog: (genuine, lookalike).
pub open spec fn default_homoglyphs() -> Seq<(Seq<char>, Seq<char>)> {
    seq![
        ("o"@, "0"@), ("l"@, "1"@), ("i"@, "1"@), ("a"@, "а"@), ("e"@, "е"@), ("o"@, "о"@),
        ("c"@, "с"@), ("p"@, "р"@), ("x"@, "х"@),
    ]
}

/// The trusted domains of the default catalog.
pub open spec fn default_trusted_list() -> Seq<Seq<char>> {
    seq![
        "google.com"@, "github.com"@, "microsoft.com"@, "apple.com"@, "amazon.com"@,
        "cloudflare.com"@, "mozilla.org"@, "wikipedia.org"@, "stackoverflow.com"@,
        "rust-lang.org"@, "python.org"@,
    ]
}

pub open spec fn default_catalog() -> ThreatIntelView {
    ThreatIntelView {
        tlds: default_tld_list().to_set(),
        patterns: default_patterns(),
        homoglyphs: default_homoglyphs(),
        trusted: default_trusted_list().to_set(),
    }
}

pub open spec fn string_views(v: Seq<String>) -> Seq<Seq<char>> {
    v.map_values(|s: String| s@)
}

/// The set of views of strings whose views are `l` is `l` as a set.
pub proof fn lemma_view_set(v: Seq<String>, l: Seq<Seq<char>>)
    requires
        string_views(v) == l,
    ensures
        view_set(v) == l.to_set(),
{
    assert forall|t: Seq<char>| view_set(v).contains(t) <==> l.to_set().contains(t) by {
        if view_set(v).contains(t) {
            let i = choose|i: int| 0 <= i < v.len() && v[i]@ == t;
            assert(l[i] == t);
        }
        if l.to_set().contains(t) {
            let i = choose|i: int| 0 <= i < l.len() && l[i] == t;
            assert(v[i]@ == t);
        }
    }
    assert(view_set(v) =~= l.to_set());
}

pub(crate) fn strings_of(lits: &[&str]) -> (r: Vec<String>)
    ensures
        string_views(r@) == lits@.map_values(|s: &str| s@),
{
    let mut r: Vec<String> = Vec::new();
    let mut i: usize = 0;
    while i < lits.len()
        invariant
            i <= lits@.len(),
            r@.len() == i,
            forall|j: int| 0 <= j < i ==> #[trigger] r@[j]@ == lits@[j]@,
        decreases lits@.len() - i,
    {
        let item: String = lits[i].to_owned();
        r.push(item);
        i = i + 1;
    }
    assert(string_views(r@) =~= lits@.map_values(|s: &str| s@));
    r
}

/// Pushing a string adds its view to the set of views.
pub proof fn lemma_view_set_push(v: Seq<String>, w: Seq<String>, x: Seq<char>)
    requires
        w.len() == v.len() + 1,
        forall|i: int| 0 <= i < v.len() ==> #[trigger] w[i] == v[i],
        w[v.len() as int]@ == x,
    ensures
        view_set(w) == view_set(v).insert(x),
{
    assert forall|t: Seq<char>| view_set(w).contains(t) <==> view_set(v).insert(x).contains(t) by {
        if view_set(v).contains(t) {
            let i = choose|i: int| 0 <= i < v.len() && v[i]@ == t;
            assert(w[i]@ == t);
        }
        if t == x {
            assert(w[v.len() as int]@ == t);
        }
        if view_set(w).contains(t) {
            let i = choose|i: int| 0 <= i < w.len() && w[i]@ == t;
            if i < v.len() {
                assert(v[i]@ == t);
            }
        }
    }
    assert(view_set(w) =~= view_set(v).insert(x));
}

fn indicator(category: &str, description: String, weight: u32) -> (r: ThreatIndicator)
    ensures
        r@ == ind(category@, description@, weight),
{
    ThreatIndicator { category: category.to_owned(), description, weight }
}

fn push_indicator(out: &mut Vec<ThreatIndicator>, x: ThreatIndicator)
    ensures
        views(final(out)@) == views(old(out)@) + seq![x@],
{
    let ghost x_view = x@;
    out.push(x);
    assert(views(out@) =~= views(old(out)@) + seq![x_view]);
}

/// Whether some string of `v` holds the characters of `t`.
pub fn contains_string(v: &Vec<String>, t: &str) -> (r: bool)
    ensures
        r == view_set(v@).contains(t@),
{
    let mut i: usize = 0;
    while i < v.len()
        invariant
            i <= v@.len(),
            forall|j: int| 0 <= j < i ==> v@[j]@ != t@,
        decreases v@.len() - i,
    {
        if str_eq(v[i].as_str(), t) {
            return true;
        }
        i = i + 1;
    }
    false
}

/// The domain of a URL that has already been trimmed: what follows the
/// first `://`, up to the first `/`, without what follows the last `:`.
pub fn strip_to_domain(t: &str) -> (r: String)
    ensures
        r@ == domain_of(t@),
{
    proof {
        reveal_strlit("://");
    }
    assert("://"@ =~= seq![':', '/', '/']);
    let n = t.unicode_len();
    let a: &str = match find_str(t, "://") {
        Some(p) => t.substring_char(p + 3, n),
        None => t,
    };
    let b: &str = match find_char(a, '/') {
        Some(p) => a.substring_char(0, p),
        None => a,
    };
    let c: &str = match rfind_char(b, ':') {
        Some(p) => b.substring_char(0, p),
        None => b,
    };
    c.to_owned()
}

pub fn top_level_domain(domain: &str) -> (r: &str)
    ensures
        r@ == tld_of(domain@),
{
    let n = domain.unicode_len();
    match rfind_char(domain, '.') {
        Some(p) => domain.substring_char(p + 1, n),
        None => domain,
    }
}

fn all_ip(domain: &str) -> (r: bool)
    ensures
        r == all_ip_chars(domain@),
{
    let n = domain.unicode_len();
    let mut i: usize = 0;
    while i < n
        invariant
            n == domain@.len(),
            i <= n,
            forall|j: int| 0 <= j < i ==> ('0' <= #[trigger] domain@[j] <= '9' || domain@[j] == '.'),
        decreases n - i,
    {
        let c = domain.get_char(i);
        if !(('0' <= c && c <= '9') || c == '.') {
            return false;
        }
        i = i + 1;
    }
    true
}

/// The sum of the weights of `inds`, capped at 100.
pub fn capped_total(inds: &Vec<ThreatIndicator>) -> (r: u32)
    ensures
        r == capped_score(views(inds@)),
{
    let ghost s = views(inds@);
    let mut acc: u64 = 0;
    let mut i: usize = 0;
    while i < inds.len()
        invariant
            s == views(inds@),
            i <= inds@.len(),
            acc == capped_score(s.subrange(0, i as int)),
        decreases inds@.len() - i,
    {
        assert(s.subrange(0, i + 1).drop_last() =~= s.subrange(0, i as int));
        assert(s.subrange(0, i + 1).last() == inds@[i as int]@);
        let w = inds[i].weight as u64;
        if acc + w >= 100 {
            acc = 100;
        } else {
            acc = acc + w;
        }
        i = i + 1;
    }
    assert(s.subrange(0, i as int) =~= s);
    acc as u32
}

/// Whether some indicator is a phishing keyword or a homoglyph.
pub fn any_impersonation(inds: &Vec<ThreatIndicator>) -> (r: bool)
    ensures
        r == has_impersonation(views(inds@)),
{
    let mut i: usize = 0;
    while i < inds.len()
        invariant
            i <= inds@.len(),
            forall|j: int|
                0 <= j < i ==> !(#[trigger] views(inds@)[j].category == "PHISHING"@ || views(
                    inds@,
                )[j].category == "HOMOGLYPH"@),
        decreases inds@.len() - i,
    {
        let c = inds[i].category.as_str();
        if str_eq(c, "PHISHING") || str_eq(c, "HOMOGLYPH") {
            assert(views(inds@)[i as int].category == inds@[i as int].category@);
            return true;
        }
        i = i + 1;
    }
    false
}

/// The level for a score and its indicators; a trusted domain is always safe.
pub fn level_for(trusted: bool, score: u32, inds: &Vec<ThreatIndicator>) -> (r: ThreatLevel)
    ensures
        r == level_of(trusted, score, views(inds@)),
{
    if trusted {
        ThreatLevel::Safe
    } else if score >= 70 {
        if any_impersonation(inds) {
            ThreatLevel::Phishing
        } else {
            ThreatLevel::Malicious
        }
    } else if score >= 40 {
        ThreatLevel::Suspicious
    } else {
        ThreatLevel::Safe
    }
}

impl ThreatIntel {
    /// An engine with the default catalog.
    pub fn new() -> (r: Self)
        ensures
            r@ == default_catalog(),
    {
        let suspicious_tlds = strings_of(
            &[
                "tk", "ml", "ga", "cf", "gq", "xyz", "top", "club", "work", "buzz", "cam", "icu",
                "cyou", "rest",
            ],
        );
        let phishing_patterns = strings_of(
            &[
                "login", "signin", "verify", "secure", "account", "update", "confirm", "banking",
                "paypal", "apple-id", "microsoft-login", "amazon-security",
            ],
        );
        let mut homoglyphs: Vec<(String, String)> = Vec::new();
        homoglyphs.push(("o".to_owned(), "0".to_owned()));
        homoglyphs.push(("l".to_owned(), "1".to_owned()));
        homoglyphs.push(("i".to_owned(), "1".to_owned()));
        homoglyphs.push(("a".to_owned(), "а".to_owned()));
        homoglyphs.push(("e".to_owned(), "е".to_owned()));
        homoglyphs.push(("o".to_owned(), "о".to_owned()));
        homoglyphs.push(("c".to_owned(), "с".to_owned()));
        homoglyphs.push(("p".to_owned(), "р".to_owned()));
        homoglyphs.push(("x".to_owned(), "х".to_owned()));
        let trusted_domains = strings_of(
            &[
                "google.com", "github.com", "microsoft.com", "apple.com", "amazon.com",
                "cloudflare.com", "mozilla.org", "wikipedia.org", "stackoverflow.com",
                "rust-lang.org", "python.org",
            ],
        );
        let r = ThreatIntel { suspicious_tlds, phishing_patterns, homoglyphs, trusted_domains };
        proof {
            assert(string_views(r.suspicious_tlds@) =~= default_tld_list());
            assert(string_views(r.trusted_domains@) =~= default_trusted_list());
            lemma_view_set(r.suspicious_tlds@, default_tld_list());
            lemma_view_set(r.trusted_domains@, default_trusted_list());
            assert(r@.patterns =~= default_patterns());
            assert(r@.homoglyphs =~= default_homoglyphs());
        }
        r
    }

    fn check_tld(&self, domain: &str, out: &mut Vec<ThreatIndicator>)
        ensures
            views(final(out)@) == views(old(out)@) + tld_indicators(self@, domain@),
    {
        let tld = top_level_domain(domain);
        if contains_string(&self.suspicious_tlds, tld) {
            push_indicator(out, indicator("TLD", concat2("Suspicious TLD: .", tld), 20));
        } else {
            assert(views(out@) =~= views(out@) + seq![]);
        }
    }

    fn check_phishing(&self, domain: &str, lower: &str, out: &mut Vec<ThreatIndicator>)
        ensures
            views(final(out)@) == views(old(out)@) + phishing_indicators(
                self@.patterns,
                lower@,
                self@.trusted.contains(domain@),
            ),
    {
        let trusted = contains_string(&self.trusted_domains, domain);
        let ghost base = views(out@);
        let ghost pats = self@.patterns;
        let mut k: usize = 0;
        while k < self.phishing_patterns.len()
            invariant
                pats == self@.patterns,
                pats.len() == self.phishing_patterns@.len(),
                trusted == self@.trusted.contains(domain@),
                k <= pats.len(),
                views(out@) == base + phishing_indicators(pats.subrange(0, k as int), lower@, trusted),
            decreases pats.len() - k,
        {
            let p = self.phishing_patterns[k].as_str();
            assert(p@ == pats[k as int]);
            let ghost before = views(out@);
            let ghost prev = pats.subrange(0, k as int);
            if contains_str(lower, p) && !trusted {
                push_indicator(
                    out,
                    indicator("PHISHING", concat3("Phishing keyword '", p, "' in domain"), 25),
                );
            } else {
                assert(views(out@) =~= views(out@) + seq![]);
            }
            proof {
                let next = pats.subrange(0, k + 1);
                assert(next.drop_last() =~= prev);
                assert(next.last() == pats[k as int]);
                let piece = views(out@).subrange(before.len() as int, views(out@).len() as int);
                assert(views(out@) =~= before + piece);
                assert(phishing_indicators(next, lower@, trusted) == phishing_indicators(
                    prev,
                    lower@,
                    trusted,
                ) + piece);
                assert(views(out@) =~= base + phishing_indicators(next, lower@, trusted));
            }
            k = k + 1;
        }
        assert(pats.subrange(0, k as int) =~= pats);
    }

    fn check_homoglyphs(&self, domain: &str, out: &mut Vec<ThreatIndicator>)
        ensures
            views(final(out)@) == views(old(out)@) + homoglyph_indicators(self@.homoglyphs, domain@),
    {
        let ghost base = views(out@);
        let ghost pairs = self@.homoglyphs;
        let mut k: usize = 0;
        while k < self.homoglyphs.len()
            invariant
                pairs == self@.homoglyphs,
                pairs.len() == self.homoglyphs@.len(),
                k <= pairs.len(),
                views(out@) == base + homoglyph_indicators(pairs.subrange(0, k as int), domain@),
            decreases pairs.len() - k,
        {
            let genuine = self.homoglyphs[k].0.as_str();
            let fake = self.homoglyphs[k].1.as_str();
            assert(genuine@ == pairs[k as int].0 && fake@ == pairs[k as int].1);
            let ghost before = views(out@);
            let ghost prev = pairs.subrange(0, k as int);
            if contains_str(domain, fake) {
                let mut d = concat3("Possible homoglyph: '", fake, "' may impersonate '");
                d.append(genuine);
                d.append("'");
                push_indicator(out, indicator("HOMOGLYPH", d, 30));
            } else {
                assert(views(out@) =~= views(out@) + seq![]);
            }
            proof {
                let next = pairs.subrange(0, k + 1);
                assert(next.drop_last() =~= prev);
                assert(next.last() == pairs[k as int]);
                let piece = views(out@).subrange(before.len() as int, views(out@).len() as int);
                assert(views(out@) =~= before + piece);
                assert(homoglyph_indicators(next, domain@) == homoglyph_indicators(prev, domain@)
                    + piece);
                assert(views(out@) =~= base + homoglyph_indicators(next, domain@));
            }
            k = k + 1;
        }
        assert(pairs.subrange(0, k as int) =~= pairs);
    }

    /// Runs every check, in order, on a URL, its domain and the lowercased
    /// domain.
    pub fn evaluate(&self, url: &str, domain: &str, lower: &str) -> (r: Vec<ThreatIndicator>)
        ensures
            views(r@) == indicators_of(self@, url@, domain@, lower@),
    {
        let mut out: Vec<ThreatIndicator> = Vec::new();
        self.check_tld(domain, &mut out);
        assert(views(out@) =~= tld_indicators(self@, domain@));
        self.check_phishing(domain, lower, &mut out);
        self.check_homoglyphs(domain, &mut out);
        let ghost before = views(out@);
        if all_ip(domain) {
            push_indicator(
                &mut out,
                indicator("IP_URL", "URL uses IP address instead of domain name".to_owned(), 15),
            );
        }
        assert(views(out@) =~= before + ip_indicators(domain@));
        let ghost before = views(out@);
        let dots = count_chars(domain, '.');
        if dots > 3 {
            let levels = decimal_string(dots as u128 + 1);
            push_indicator(
                &mut out,
                indicator(
                    "SUBDOMAIN",
                    concat3("Excessive subdomains: ", levels.as_str(), " levels"),
                    15,
                ),
            );
        }
        assert(views(out@) =~= before + subdomain_indicators(domain@));
        let ghost before = views(out@);
        if contains_str(url, "@") {
            push_indicator(
                &mut out,
                indicator(
                    "URL_OBFUSCATION",
                    "URL contains @ symbol — possible credential harvesting redirect".to_owned(),
                    35,
                ),
            );
        }
        assert(views(out@) =~= before + obfuscation_indicators(url@));
        let ghost before = views(out@);
        if starts_with_str(url, "data:") {
            push_indicator(
                &mut out,
                indicator("DATA_URI", "Data URI scheme — content embedded in URL".to_owned(), 25),
            );
        }
        assert(views(out@) =~= before + data_uri_indicators(url@));
        let ghost before = views(out@);
        if starts_with_str(url, "http://") && !starts_with_str(lower, "localhost") {
            push_indicator(
                &mut out,
                indicator("NO_TLS", "Connection not encrypted (HTTP)".to_owned(), 10),
            );
        }
        assert(views(out@) =~= before + no_tls_indicators(url@, lower@));
        let ghost before = views(out@);
        let len = url.len();
        if len > 200 {
            let n = decimal_string(len as u128);
            push_indicator(
                &mut out,
                indicator("LONG_URL", concat3("Unusually long URL: ", n.as_str(), " characters"), 10),
            );
        }
        assert(views(out@) =~= before + long_url_indicators(url@));
        let ghost before = views(out@);
        if contains_str(lower, "bit.ly") || contains_str(lower, "t.co") || contains_str(
            lower,
            "goo.gl",
        ) || contains_str(lower, "tinyurl.com") || contains_str(lower, "is.gd") || contains_str(
            lower,
            "ow.ly",
        ) {
            push_indicator(
                &mut out,
                indicator(
                    "SHORTENER",
                    "URL shortener detected — destination unknown".to_owned(),
                    15,
                ),
            );
        }
        assert(views(out@) =~= before + shortener_indicators(lower@));
        out
    }

    /// The capped score of the indicators and the level for a domain.
    pub fn classify(&self, domain: &str, indicators: &Vec<ThreatIndicator>) -> (r: (u32, ThreatLevel))
        ensures
            r.0 == capped_score(views(indicators@)),
            r.1 == level_of(self@.trusted.contains(domain@), r.0, views(indicators@)),
            r.0 <= 100,
    {
        let score = capped_total(indicators);
        let trusted = contains_string(&self.trusted_domains, domain);
        (score, level_for(trusted, score, indicators))
    }

    /// The analysis of `url` whose extracted domain is `domain` and lowercased
    /// domain is `lower`, stamped with `timestamp`.
    pub fn assess(&self, url: &str, domain: String, lower: &str, timestamp: u64) -> (r: ThreatAnalysis)
        ensures
            r.url@ == url@,
            r.domain@ == domain@,
            views(r.indicators@) == indicators_of(self@, url@, domain@, lower@),
            r.score == capped_score(views(r.indicators@)),
            r.level == level_of(self@.trusted.contains(domain@), r.score, views(r.indicators@)),
            r.timestamp == timestamp,
    {
        let indicators = self.evaluate(url, domain.as_str(), lower);
        let (score, level) = self.classify(domain.as_str(), &indicators);
        ThreatAnalysis { url: url.to_owned(), domain, level, score, indicators, timestamp }
    }

    /// Analyses a URL for threats.
    pub fn analyze_url(&self, url: &str) -> (r: ThreatAnalysis)
        ensures
            is_analysis_of(self@, url@, r),
            r.score <= 100,
    {
        let domain = self.extract_domain(url);
        let lower = lowercase(domain.as_str());
        let r = self.assess(url, domain, lower.as_str(), now_secs());
        proof {
            lemma_capped_score_bound(views(r.indicators@));
        }
        r
    }

    /// The domain of a URL: the trimmed URL without scheme, path and port.
    pub fn extract_domain(&self, url: &str) -> (r: String)
        ensures
            r@ == extracted_domain(url@),
    {
        strip_to_domain(trim_str(url))
    }

    /// Whether a domain is trusted.
    pub fn is_trusted(&self, domain: &str) -> (r: bool)
        ensures
            r == self@.trusted.contains(domain@),
    {
        contains_string(&self.trusted_domains, domain)
    }

    /// Adds a domain to the trusted set.
    pub fn trust_domain(&mut self, domain: &str)
        ensures
            final(self)@ == (ThreatIntelView {
                trusted: old(self)@.trusted.insert(domain@),
                ..old(self)@
            }),
    {
        let ghost v = self.trusted_domains@;
        self.trusted_domains.push(domain.to_owned());
        proof {
            lemma_view_set_push(v, self.trusted_domains@, domain@);
        }
    }

    /// Removes a domain from the trusted set.
    pub fn block_domain(&mut self, domain: &str)
        ensures
            final(self)@ == (ThreatIntelView {
                trusted: old(self)@.trusted.remove(domain@),
                ..old(self)@
            }),
    {
        let ghost v = self.trusted_domains@;
        let mut kept: Vec<String> = Vec::new();
        let mut i: usize = 0;
        while i < self.trusted_domains.len()
            invariant
                v == self.trusted_domains@,
                i <= v.len(),
                forall|t: Seq<char>|
                    view_set(kept@).contains(t) <==> (t != domain@ && exists|j: int|
                        0 <= j < i && #[trigger] v[j]@ == t),
            decreases v.len() - i,
        {
            if !str_eq(self.trusted_domains[i].as_str(), domain) {
                let ghost k = kept@;
                let item = self.trusted_domains[i].clone();
                assert(item@ == v[i as int]@);
                kept.push(item);
                proof {
                    assert forall|t: Seq<char>|
                        view_set(kept@).contains(t) <==> (t != domain@ && exists|j: int|
                            0 <= j < i + 1 && #[trigger] v[j]@ == t) by {
                        if view_set(kept@).contains(t) {
                            let m = choose|m: int| 0 <= m < kept@.len() && kept@[m]@ == t;
                            if m < k.len() {
                                assert(view_set(k).contains(t));
                            } else {
                                assert(v[i as int]@ == t);
                            }
                        }
                        if t != domain@ && exists|j: int| 0 <= j < i + 1 && #[trigger] v[j]@ == t {
                            let j = choose|j: int| 0 <= j < i + 1 && #[trigger] v[j]@ == t;
                            if j < i {
                                assert(view_set(k).contains(t));
                                let m = choose|m: int| 0 <= m < k.len() && k[m]@ == t;
                                assert(kept@[m]@ == t);
                            } else {
                                assert(kept@[k.len() as int]@ == t);
                            }
                        }
                    }
                }
            } else {
                proof {
                    assert forall|t: Seq<char>|
                        view_set(kept@).contains(t) <==> (t != domain@ && exists|j: int|
                            0 <= j < i + 1 && #[trigger] v[j]@ == t) by {
                        if t != domain@ && exists|j: int| 0 <= j < i + 1 && #[trigger] v[j]@ == t {
                            let j = choose|j: int| 0 <= j < i + 1 && #[trigger] v[j]@ == t;
                            assert(j < i);
                        }
                    }
                }
            }
            i = i + 1;
        }
        self.trusted_domains = kept;
        assert(self@.trusted =~= old(self)@.trusted.remove(domain@));
    }
}

impl Default for ThreatIntel {
    fn default() -> (r: Self)
        ensures
            r@ == default_catalog(),
    {
        Self::new()
    }
}

proof fn lemma_capped_score_bound(s: Seq<IndicatorView>)
    ensures
        capped_score(s) <= 100,
{
}

/// Analysing the same URL twice with unchanged catalogs gives the same
/// domain, indicators, score and level; only the timestamp may differ.
pub proof fn lemma_analysis_idempotent(
    v: ThreatIntelView,
    url: Seq<char>,
    r1: ThreatAnalysis,
    r2: ThreatAnalysis,
)
    requires
        is_analysis_of(v, url, r1),
        is_analysis_of(v, url, r2),
    ensures
        r1.domain@ == r2.domain@,
        views(r1.indicators@) == views(r2.indicators@),
        r1.score == r2.score,
        r1.level == r2.level,
{
}

/// Once a domain is trusted, every URL whose extracted domain it is gets
/// the level `Safe`, however many indicators fire.
pub proof fn lemma_trust_override(v: ThreatIntelView, d: Seq<char>, url: Seq<char>)
    requires
        extracted_domain(url) == d,
    ensures
        threat_level_of(ThreatIntelView { trusted: v.trusted.insert(d), ..v }, url)
            == ThreatLevel::Safe,
{
}

/// The total weight of a concatenation is the sum of the totals.
pub proof fn lemma_total_weight_add(a: Seq<IndicatorView>, b: Seq<IndicatorView>)
    ensures
        total_weight(a + b) == total_weight(a) + total_weight(b),
    decreases b.len(),
{
    if b.len() == 0 {
        assert(a + b =~= a);
    } else {
        assert((a + b).drop_last() =~= a + b.drop_last());
        lemma_total_weight_add(a, b.drop_last());
    }
}

/// Adding indicators anywhere in a list never lowers the capped score.
pub proof fn lemma_score_monotone(
    before: Seq<IndicatorView>,
    added: Seq<IndicatorView>,
    after: Seq<IndicatorView>,
)
    ensures
        capped_score(before + after) <= capped_score(before + added + after),
{
    lemma_total_weight_add(before, after);
    lemma_total_weight_add(before, added);
    lemma_total_weight_add(before + added, after);
}

/// A lowercased domain that holds a known URL shortener yields a
/// `SHORTENER` indicator of weight 15, the last one of the list.
pub proof fn lemma_shortener_detected(
    v: ThreatIntelView,
    url: Seq<char>,
    domain: Seq<char>,
    lower: Seq<char>,
)
    requires
        is_shortener(lower),
    ensures
        indicators_of(v, url, domain, lower).last() == ind(
            "SHORTENER"@,
            "URL shortener detected — destination unknown"@,
            15,
        ),
{
}

/// Relies on `SystemTime::now`: the seconds since the Unix epoch, or zero
/// before it. Nothing is known of the value.
#[verifier::external_body]
fn now_secs() -> u64 {
    std::time::SystemTime::now()
        .duration_since(std::time::UNIX_EPOCH)
        .unwrap_or_default()
        .as_secs()
}

} // verus!
