use marshall::config::PrivacyConfig;
use marshall::navigation::InternalHistory;
use marshall::osint::{OSINTDropdown, OSINTSummary};
use marshall::portscan::{format_scan_results, PortInfo, PortState, RiskLevel};
use marshall::privacy::{CookieManager, FingerprintProtection, PrivacyEngine, TrackerBlocker};
use marshall::security::{AntiFingerprintEngine, ProcessIsolation, TrafficProtection, WebViewManager};
use marshall::ui::Theme;

fn privacy(strict: bool) -> PrivacyConfig {
    PrivacyConfig {
        strict_mode: strict,
        block_trackers: true,
        block_fingerprinting: true,
        block_third_party_cookies: true,
        clear_on_exit: false,
        do_not_track: true,
        referrer_policy: "strict-origin".to_string(),
        user_agent: None,
        spoof_timezone: true,
        spoof_language: true,
    }
}

#[test]
fn tracker_blocking() {
    let mut b = TrackerBlocker::new(true);
    assert!(b.should_block("https://www.google-analytics.com/collect"));
    assert!(!b.should_block("https://example.com/"));
    b.add_to_blocklist("evil.example".to_string());
    assert!(b.should_block("https://evil.example/x"));
    b.increment_blocked();
    assert_eq!(b.blocked_count(), 1);
    let off = TrackerBlocker::new(false);
    assert!(!off.should_block("https://doubleclick.net/"));
}

#[test]
fn cookie_policy() {
    let mut c = CookieManager::new(true);
    assert!(c.should_allow_cookie("example.com", "example.com"));
    assert!(c.should_allow_cookie("a.example.com", "example.com"));
    assert!(!c.should_allow_cookie("tracker.net", "example.com"));
    c.add_to_whitelist("tracker".to_string());
    assert!(c.should_allow_cookie("tracker.net", "example.com"));
    c.clear_whitelist();
    assert!(!c.should_allow_cookie("tracker.net", "example.com"));
    assert!(CookieManager::new(false).should_allow_cookie("x.net", "example.com"));
}

#[test]
fn fingerprint_values() {
    let f = FingerprintProtection::new(true);
    assert_eq!(f.screen_dimensions(), (1920, 1080));
    assert_eq!(f.device_memory(), 8);
    assert_eq!(f.hardware_concurrency(), 4);
    assert_eq!(f.timezone_offset(), 0);
    assert!(FingerprintProtection::new(false).hardware_concurrency() >= 1);
}

#[test]
fn privacy_engine_follows_config() {
    let e = PrivacyEngine::new(privacy(true));
    assert!(e.is_strict_mode());
    assert!(e.should_block("https://hotjar.com/x"));
    assert!(!PrivacyEngine::new(privacy(false)).is_strict_mode());
}

#[test]
fn anti_fingerprint_headers_and_script() {
    let e = AntiFingerprintEngine::new();
    let h = e.get_spoofed_headers();
    assert_eq!(h.len(), 10);
    assert_eq!(h[0].0, "User-Agent");
    assert_eq!(h[0].1, e.user_agent());
    assert_eq!(h[1].1, "en-US,en;q=0.9");
    let (w, ht) = e.screen_resolution();
    let script = e.generate_spoofing_script();
    assert!(script.contains(&format!("'width',  {{ get: () => {} }}", w)));
    assert!(script.contains(&format!("'height', {{ get: () => {} }}", ht)));
    assert!(script.contains("return 0; };"));
}

#[test]
fn isolation_and_padding() {
    assert!(ProcessIsolation::new().setup_sandbox().is_ok());
    let t = TrafficProtection::new();
    let data = vec![1u8, 2, 3];
    let p = t.pad_request(&data);
    assert!(p.len() >= 67 && p.len() < 515);
    assert_eq!(&p[..3], &data[..]);
    assert!(p[3..].iter().all(|b| *b == 0));
    let j = t.timing_jitter_ms().unwrap();
    assert!((10..100).contains(&j));
}

#[test]
fn webview_user_agent() {
    let w = WebViewManager::from_config(&privacy(true));
    assert!(w.user_agent().starts_with("Mozilla/5.0"));
    let d = WebViewManager::default();
    assert!(d.user_agent().contains("Windows NT 10.0"));
}

#[test]
fn internal_history_navigation() {
    let mut h = InternalHistory::new();
    assert!(!h.can_go_back());
    h.push("marshall://home");
    h.push("marshall://home");
    h.push("marshall://osint");
    h.push("marshall://settings");
    assert_eq!(h.go_back().as_deref(), Some("marshall://osint"));
    assert!(h.can_go_forward());
    h.push("marshall://voip");
    assert!(!h.can_go_forward());
    assert_eq!(h.go_back().as_deref(), Some("marshall://osint"));
    assert_eq!(h.go_back().as_deref(), Some("marshall://home"));
    assert_eq!(h.go_back(), None);
    assert_eq!(h.go_forward().as_deref(), Some("marshall://osint"));
}

#[test]
fn scan_report_rows() {
    let ports = vec![PortInfo {
        port: 22,
        service: "SSH-and-a-long-name".to_string(),
        state: PortState::Open,
        banner: None,
        version: None,
        risk_level: RiskLevel::Medium,
    }];
    let out = format_scan_results(&ports);
    assert!(out.contains("│    22 │ SSH-and-a-lo │ OPEN    │ MED    │\n"));
    assert!(out.starts_with("┌"));
    assert!(out.ends_with("┘\n"));
}

#[test]
fn dropdown_html() {
    let d = OSINTDropdown {
        domain: "example.com".to_string(),
        risk_score: 45,
        summary: OSINTSummary {
            whois_registrar: Some("Reg Inc".to_string()),
            whois_created: None,
            open_port_count: 2,
            high_risk_ports: vec!["445/SMB".to_string()],
            vuln_count: 0,
            critical_vulns: vec![],
            exploit_count: 1,
            exploit_names: vec!["EternalBlue".to_string()],
        },
        expanded: false,
    };
    let html = d.to_html();
    assert!(html.contains("<span class=\"domain\">example.com</span>"));
    assert!(html.contains("background: #ffaa00\">Risk: 45/100"));
    assert!(html.contains("<li>Registrar: Reg Inc</li>"));
    assert!(!html.contains("Created:"));
    assert!(html.contains("Open Ports (2)</h4><ul class=\"high-risk\"><li>⚠️ 445/SMB</li></ul></div>"));
    assert!(!html.contains("Vulnerabilities"));
    assert!(html.contains("Exploits (1)</h4><ul><li>EternalBlue</li></ul></div>"));
    assert!(html.ends_with("</div></details>"));
}

#[test]
fn theme_css() {
    assert!(Theme::generate_css(true).contains("NULLSEC DARK THEME"));
    assert!(Theme::generate_css(false).contains("LIGHT THEME"));
}

use marshall::adblock::AdBlocker;
use marshall::config::{SearchConfig, SecurityConfig};
use marshall::ui::TabManager;
use marshall::voip::VoIPConfig;

#[test]
fn ad_blocker_counts_blocks() {
    let mut a = AdBlocker::new(true);
    assert!(a.should_block("https://pagead2.googlesyndication.com/ad.js", "https://x", "script"));
    assert!(!a.should_block("https://example.com/", "https://x", "document"));
    assert_eq!(a.blocked_count(), 1);
    a.add_rule("ads.example".to_string());
    assert!(a.should_block("https://ads.example/banner", "", ""));
    a.set_enabled(false);
    assert!(!a.is_enabled());
    assert!(!a.should_block("https://doubleclick.net/", "", ""));
    assert_eq!(a.blocked_count(), 2);
}

#[test]
fn tabs_open_close_and_activate() {
    let mut t = TabManager::new();
    t.create_tab("a", "https://a", false);
    t.create_tab("b", "https://b", false);
    t.create_tab("c", "https://c", true);
    assert_eq!(t.tab_count(), 3);
    assert_eq!(t.get_active_tab().unwrap().id, "c");
    assert!(t.close_tab("c"));
    assert_eq!(t.get_active_tab().unwrap().id, "b");
    t.set_active_tab("a");
    assert!(t.close_tab("a"));
    assert_eq!(t.get_active_tab().unwrap().id, "b");
    assert!(!t.close_tab("zz"));
    assert!(t.close_tab("b"));
    assert!(t.get_active_tab().is_none());
    assert_eq!(t.get_all_tabs().len(), 0);
}

#[test]
fn config_defaults() {
    let s = SearchConfig::default();
    assert_eq!(s.max_results, 50);
    assert_eq!(s.region, "en_US");
    assert!(!SecurityConfig::default().timezone_spoof);
    let v = VoIPConfig::default();
    assert_eq!(v.sip_port, 5060);
    assert_eq!(v.stun_server.as_deref(), Some("stun.l.google.com:19302"));
}

use marshall::history::HistoryStore;

#[test]
fn history_updates_and_searches() {
    let mut h = HistoryStore::new();
    h.add_entry("https://a.example/", "Alpha", 10);
    h.add_entry("https://b.example/", "Beta", 20);
    h.add_entry("https://a.example/", "Alpha Two", 30);
    assert_eq!(h.entries.len(), 2);
    assert_eq!(h.entries[0].url, "https://b.example/");
    assert_eq!(h.entries[1].visit_count, 2);
    assert_eq!(h.entries[1].title, "Alpha Two");
    assert_eq!(h.entries[1].visited_at, 30);
    assert_eq!(h.get_recent(1).len(), 1);
    let found = h.search("ALPHA");
    assert_eq!(found.len(), 1);
    assert_eq!(found[0].url, "https://a.example/");
    h.remove_entry("https://a.example/");
    assert_eq!(h.entries.len(), 1);
    h.clear();
    assert!(h.entries.is_empty());
}

#[test]
fn history_is_capped() {
    let mut h = HistoryStore::new();
    for i in 0..10001 {
        h.add_entry(&format!("https://x/{}", i), "t", i as i64);
    }
    assert_eq!(h.entries.len(), 10000);
    assert_eq!(h.entries[0].url, "https://x/10000");
}

use marshall::bookmarks::BookmarkStore;

#[test]
fn bookmarks_add_search_remove() {
    let mut s = BookmarkStore::with_default_folders(0);
    assert_eq!(s.folders().len(), 2);
    assert_eq!(s.folders()[0].id, "toolbar");
    assert_eq!(s.add_bookmark("b1", "Rust Lang", "https://rust-lang.org", Some("toolbar"), 5), "b1");
    s.add_bookmark("b2", "News", "https://example.com/news", None, 6);
    assert_eq!(s.get_bookmarks_in_folder("toolbar").len(), 1);
    assert_eq!(s.search_bookmarks("RUST")[0].id, "b1");
    assert_eq!(s.search_bookmarks("example").len(), 1);
    assert!(s.remove_bookmark("b1"));
    assert!(!s.remove_bookmark("b1"));
    assert!(s.get_bookmark("b1").is_none());
    assert_eq!(s.get_bookmark("b2").unwrap().title, "News");
    assert_eq!(s.get_all_bookmarks().len(), 1);
}
