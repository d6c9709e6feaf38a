use marshall::threat_intel::{strip_to_domain, ThreatIntel, ThreatLevel};

#[test]
fn test_safe_url() {
    let intel = ThreatIntel::new();
    let result = intel.analyze_url("https://github.com/bad-antics");
    assert_eq!(result.level, ThreatLevel::Safe);
    assert_eq!(result.score, 0);
}

#[test]
fn test_phishing_url() {
    let intel = ThreatIntel::new();
    let result = intel.analyze_url("http://paypal-login-verify.tk/account");
    assert!(result.score >= 40);
}

#[test]
fn test_ip_url() {
    let intel = ThreatIntel::new();
    let result = intel.analyze_url("http://192.168.1.1/admin");
    assert!(result.indicators.iter().any(|i| i.category == "IP_URL"));
}

#[test]
fn threat_intel_test_extract_domain() {
    let intel = ThreatIntel::new();
    assert_eq!(intel.extract_domain("https://example.com/path"), "example.com");
    assert_eq!(intel.extract_domain("http://test.org:8080/"), "test.org");
}

#[test]
fn phishing_url_exact_indicators() {
    let intel = ThreatIntel::new();
    let r = intel.analyze_url("http://paypal-login-verify.tk/account");
    let cats: Vec<&str> = r.indicators.iter().map(|i| i.category.as_str()).collect();
    assert_eq!(cats, vec!["TLD", "PHISHING", "PHISHING", "PHISHING", "NO_TLS"]);
    // 20 + 3 * 25 + 10 = 105, capped
    assert_eq!(r.score, 100);
    assert_eq!(r.level, ThreatLevel::Phishing);
    assert_eq!(r.indicators[0].description, "Suspicious TLD: .tk");
    assert_eq!(r.indicators[1].description, "Phishing keyword 'login' in domain");
    assert_eq!(r.domain, "paypal-login-verify.tk");
}

#[test]
fn ip_url_digit_one_counts_as_homoglyph() {
    let intel = ThreatIntel::new();
    let r = intel.analyze_url("http://192.168.1.1/admin");
    let cats: Vec<&str> = r.indicators.iter().map(|i| i.category.as_str()).collect();
    // '1' is the lookalike of both 'l' and 'i'
    assert_eq!(cats, vec!["HOMOGLYPH", "HOMOGLYPH", "IP_URL", "NO_TLS"]);
    assert_eq!(r.score, 85);
    assert_eq!(r.level, ThreatLevel::Phishing);
    let r = intel.analyze_url("http://2.3.4.5/");
    assert_eq!(r.score, 25);
    assert_eq!(r.level, ThreatLevel::Safe);
}

#[test]
fn analysis_is_idempotent() {
    let intel = ThreatIntel::new();
    let a = intel.analyze_url("http://secure-login.xyz@evil.top/");
    let b = intel.analyze_url("http://secure-login.xyz@evil.top/");
    assert_eq!(a.score, b.score);
    assert_eq!(a.level, b.level);
    assert_eq!(a.indicators.len(), b.indicators.len());
}

#[test]
fn trusted_domain_is_safe_despite_indicators() {
    let mut intel = ThreatIntel::new();
    let url = "http://a.b.c.d.login-verify.tk/";
    let before = intel.analyze_url(url);
    assert!(before.score >= 70);
    assert_ne!(before.level, ThreatLevel::Safe);
    intel.trust_domain("a.b.c.d.login-verify.tk");
    assert!(intel.is_trusted("a.b.c.d.login-verify.tk"));
    let after = intel.analyze_url(url);
    assert_eq!(after.level, ThreatLevel::Safe);
    intel.block_domain("a.b.c.d.login-verify.tk");
    assert!(!intel.is_trusted("a.b.c.d.login-verify.tk"));
    assert_eq!(intel.analyze_url(url).level, before.level);
}

#[test]
fn block_domain_untrusts_default() {
    let mut intel = ThreatIntel::new();
    assert!(intel.is_trusted("github.com"));
    intel.block_domain("github.com");
    assert!(!intel.is_trusted("github.com"));
    assert!(intel.is_trusted("google.com"));
}

#[test]
fn score_capped_at_hundred() {
    let intel = ThreatIntel::new();
    let r = intel.analyze_url("http://user@login.signin.verify.secure.account.update.tk/");
    assert_eq!(r.score, 100);
    assert_eq!(r.level, ThreatLevel::Phishing);
}

#[test]
fn adding_feature_does_not_lower_score() {
    let intel = ThreatIntel::new();
    let plain = intel.analyze_url("https://example.com/");
    let with_at = intel.analyze_url("https://user@example.com/");
    assert!(with_at.score >= plain.score);
    assert_eq!(with_at.score, plain.score + 35);
}

#[test]
fn malicious_without_impersonation() {
    let intel = ThreatIntel::new();
    let r = intel.analyze_url("http://x@a.b.c.d.e.tk/");
    // TLD 20 + SUBDOMAIN 15 + URL_OBFUSCATION 35 + NO_TLS 10
    assert_eq!(r.score, 80);
    assert_eq!(r.level, ThreatLevel::Malicious);
}

#[test]
fn suspicious_band() {
    let intel = ThreatIntel::new();
    let r = intel.analyze_url("https://login.example.xyz/");
    assert_eq!(r.score, 45);
    assert_eq!(r.level, ThreatLevel::Suspicious);
}

#[test]
fn shortener_detected() {
    let intel = ThreatIntel::new();
    let r = intel.analyze_url("https://bit.ly/abc");
    let last = r.indicators.last().unwrap();
    assert_eq!(last.category, "SHORTENER");
    assert_eq!(last.weight, 15);
    let r = intel.analyze_url("https://TinyURL.com/abc");
    assert_eq!(r.indicators.last().unwrap().category, "SHORTENER");
}

#[test]
fn homoglyph_cyrillic() {
    let intel = ThreatIntel::new();
    let r = intel.analyze_url("https://pаypal.com/");
    let h: Vec<_> = r.indicators.iter().filter(|i| i.category == "HOMOGLYPH").collect();
    assert_eq!(h.len(), 1);
    assert_eq!(h[0].description, "Possible homoglyph: 'а' may impersonate 'a'");
}

#[test]
fn subdomain_levels_in_description() {
    let intel = ThreatIntel::new();
    let r = intel.analyze_url("https://a.b.c.d.example.com/");
    let s = r.indicators.iter().find(|i| i.category == "SUBDOMAIN").unwrap();
    assert_eq!(s.description, "Excessive subdomains: 6 levels");
}

#[test]
fn long_url_and_data_uri() {
    let intel = ThreatIntel::new();
    let long = format!("https://example.com/{}", "a".repeat(200));
    let r = intel.analyze_url(&long);
    let l = r.indicators.iter().find(|i| i.category == "LONG_URL").unwrap();
    assert_eq!(l.description, "Unusually long URL: 220 characters");
    let d = intel.analyze_url("data:text/html,hi");
    assert!(d.indicators.iter().any(|i| i.category == "DATA_URI" && i.weight == 25));
}

#[test]
fn localhost_http_is_not_flagged() {
    let intel = ThreatIntel::new();
    let r = intel.analyze_url("http://localhost:8080/");
    assert!(!r.indicators.iter().any(|i| i.category == "NO_TLS"));
}

#[test]
fn domain_extraction_edges() {
    let intel = ThreatIntel::new();
    assert_eq!(intel.extract_domain("  example.com:443/x  "), "example.com");
    assert_eq!(intel.extract_domain("example.com"), "example.com");
    assert_eq!(intel.extract_domain(""), "");
    assert_eq!(strip_to_domain("ftp://host:21"), "host");
}

#[test]
fn level_names() {
    assert_eq!(ThreatLevel::Phishing.to_string(), "PHISHING");
    assert_eq!(ThreatLevel::Safe.to_string(), "SAFE");
}
