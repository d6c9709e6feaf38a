use marshall::navigation::{is_internal, resolve, NavTarget};
use marshall::osint::score_domain_osint;
use marshall::portscan::{PortInfo, PortScanner, PortState, RiskLevel};
use marshall::qwant::extract_domain;
use marshall::whois::WhoisLookup;

#[test]
fn test_service_identification() {
    let scanner = PortScanner::new(5);
    assert_eq!(scanner.identify_service(22), "SSH");
    assert_eq!(scanner.identify_service(80), "HTTP");
    assert_eq!(scanner.identify_service(443), "HTTPS");
}

#[test]
fn service_from_extended_list_and_unknown() {
    let scanner = PortScanner::new(100);
    assert_eq!(scanner.timeout(), 30);
    assert_eq!(scanner.identify_service(4444), "Metasploit");
    assert_eq!(scanner.identify_service(1), "Unknown");
}

#[test]
fn qwant_test_extract_domain() {
    assert_eq!(extract_domain("https://example.com/path"), "example.com");
    assert_eq!(extract_domain("https://sub.example.com/"), "sub.example.com");
}

#[test]
fn qwant_extract_domain_unparsable() {
    assert_eq!(extract_domain("not a url"), "unknown");
}

#[test]
fn test_get_whois_server() {
    let lookup = WhoisLookup::new();
    assert_eq!(lookup.get_whois_server("com"), "whois.verisign-grs.com");
    assert_eq!(lookup.get_whois_server("org"), "whois.pir.org");
    assert_eq!(lookup.get_whois_server("io"), "whois.nic.io");
}

#[test]
fn whois_server_case_and_fallback() {
    let lookup = WhoisLookup::new();
    assert_eq!(lookup.get_whois_server("COM"), "whois.verisign-grs.com");
    assert_eq!(lookup.get_whois_server("Zz"), "whois.nic.Zz");
}

#[test]
fn resolve_empty_goes_home() {
    assert_eq!(resolve(""), NavTarget::Internal("marshall://home".into()));
}

#[test]
fn resolve_domain_adds_https() {
    assert_eq!(resolve("example.com"), NavTarget::Web("https://example.com".into()));
}

#[test]
fn resolve_search_encodes() {
    match resolve("hello world") {
        NavTarget::Search(url) => assert!(url.contains("hello%20world")),
        other => panic!("expected Search, got {:?}", other),
    }
}

#[test]
fn resolve_internal_and_web() {
    assert_eq!(resolve(" marshall://settings "), NavTarget::Internal("marshall://settings".into()));
    assert_eq!(resolve("http://a"), NavTarget::Web("http://a".into()));
    assert!(is_internal("marshall://home"));
    assert!(!is_internal("https://x"));
}

fn port(n: u16) -> PortInfo {
    PortInfo {
        port: n,
        service: "X".to_string(),
        state: PortState::Open,
        banner: None,
        version: None,
        risk_level: RiskLevel::Low,
    }
}

#[test]
fn osint_score_formula() {
    let ports = vec![port(22), port(80)];
    let sev = vec!["high".to_string(), "low".to_string(), "other".to_string()];
    // 2*5 + 15 + 3 + 1*10
    assert_eq!(score_domain_osint(&ports, &sev, 1), 38);
    assert_eq!(score_domain_osint(&vec![], &vec![], 0), 0);
}

#[test]
fn osint_score_saturates_at_hundred() {
    let ports: Vec<PortInfo> = (0..20).map(port).collect();
    let sev = vec!["critical".to_string(); 10];
    assert_eq!(score_domain_osint(&ports, &sev, 50), 100);
}

use marshall::whois::parse_date;

#[test]
fn test_parse_date() {
    assert!(parse_date("2024-01-15T10:30:00Z").is_some());
    assert!(parse_date("2024-01-15").is_some());
}

#[test]
fn parse_date_values() {
    assert_eq!(parse_date("2024-01-15"), Some(1705276800));
    assert_eq!(parse_date("2024-01-15T10:30:00Z"), Some(1705314600));
    assert_eq!(parse_date("15-Jan-2024"), Some(1705276800));
    assert_eq!(parse_date("not a date"), None);
}

#[test]
fn parse_whois_response() {
    let raw = "% comment\r\nDomain Name: EXAMPLE.COM\r\nRegistrar: Example Registrar, Inc.\r\n\
Creation Date: 1995-08-14T04:00:00Z\r\nName Server: A.IANA-SERVERS.NET\r\n\
Name Server: \r\nDomain Status: clientDeleteProhibited\r\nDNSSEC: signedDelegation\r\n\
Registrant Organization: Internet Assigned Numbers Authority\r\nRegistrant Country: US";
    let info = WhoisLookup::new().parse_whois(raw, "example.com");
    assert_eq!(info.domain, "example.com");
    assert_eq!(info.registrar.as_deref(), Some("Example Registrar, Inc."));
    assert_eq!(info.creation_date, Some(808372800));
    assert_eq!(info.name_servers, vec!["a.iana-servers.net".to_string()]);
    assert_eq!(info.status, vec!["clientDeleteProhibited".to_string()]);
    assert_eq!(info.dnssec, Some(true));
    let reg = info.registrant.unwrap();
    assert_eq!(reg.organization.as_deref(), Some("Internet Assigned Numbers Authority"));
    assert_eq!(reg.country.as_deref(), Some("US"));
    assert_eq!(info.raw_response, raw);
}

#[test]
fn parse_whois_without_registrant() {
    let info = WhoisLookup::new().parse_whois("Registrant Country: US\nDNSSEC: unsigned\n", "x.org");
    assert!(info.registrant.is_none());
    assert_eq!(info.dnssec, Some(true));
    let info = WhoisLookup::new().parse_whois("dnssec: no", "x.org");
    assert_eq!(info.dnssec, Some(false));
}
