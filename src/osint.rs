//! Domain OSINT: the additive, capped risk score over port, vulnerability and
//! exploit findings, and the dropdown summary shown beside a search result.

use vstd::prelude::*;
use crate::portscan::PortInfo;
use crate::threat_intel::string_views;
use crate::text::{decimal, decimal_string, regex_find, regex_first_match, str_eq};

verus! {

#[derive(Debug, Clone)]
pub struct SubdomainInfo {
    pub subdomain: String,
    pub ip_addresses: Vec<String>,
    pub status: SubdomainStatus,
    pub technologies: Vec<String>,
}

#[derive(Debug, Clone, Copy, PartialEq, Eq, Structural)]
pub enum SubdomainStatus {
    Active,
    Inactive,
    Redirect,
    Unknown,
}

/// Autonomous system information.
#[derive(Debug, Clone)]
pub struct ASNInfo {
    pub asn: String,
    pub name: String,
    pub description: String,
    pub country: String,
    pub ip_ranges: Vec<String>,
}

#[derive(Debug, Clone)]
pub struct SocialLink {
    pub platform: String,
    pub url: String,
    pub username: Option<String>,
}

#[derive(Debug, Clone)]
pub struct MetadataEntry {
    pub key: String,
    pub value: String,
    pub source: String,
}

/// What one vulnerability of the given severity adds to the risk score.
pub open spec fn severity_weight(s: Seq<char>) -> nat {
    if s == "critical"@ {
        25
    } else if s == "high"@ {
        15
    } else if s == "medium"@ {
        8
    } else if s == "low"@ {
        3
    } else {
        0
    }
}

pub open spec fn severity_total(sevs: Seq<Seq<char>>) -> nat
    decreases sevs.len(),
{
    if sevs.len() == 0 {
        0
    } else {
        severity_total(sevs.drop_last()) + severity_weight(sevs.last())
    }
}

pub open spec fn min_nat(a: nat, b: nat) -> nat {
    if a < b {
        a
    } else {
        b
    }
}

/// The risk score of a domain: 5 per open port (at most 30), the severity
/// weights of its vulnerabilities, 10 per exploit (at most 30), capped at 100.
pub open spec fn osint_risk(ports: nat, sevs: Seq<Seq<char>>, exploits: nat) -> nat {
    min_nat(100, min_nat(30, 5 * ports) + severity_total(sevs) + min_nat(30, 10 * exploits))
}

fn severity_points(s: &str) -> (r: u64)
    ensures
        r == severity_weight(s@),
{
    if str_eq(s, "critical") {
        25
    } else if str_eq(s, "high") {
        15
    } else if str_eq(s, "medium") {
        8
    } else if str_eq(s, "low") {
        3
    } else {
        0
    }
}

/// The risk score of a domain from its open ports, the severities of its
/// vulnerabilities and the number of known exploits.
pub fn score_domain_osint(
    open_ports: &Vec<PortInfo>,
    vulnerability_severities: &Vec<String>,
    exploit_count: usize,
) -> (r: u8)
    ensures
        r as nat == osint_risk(
            open_ports@.len(),
            vulnerability_severities@.map_values(|s: String| s@),
            exploit_count as nat,
        ),
        r <= 100,
{
    let ghost sevs = vulnerability_severities@.map_values(|s: String| s@);
    let n = open_ports.len();
    let mut acc: u64 = if n >= 6 { 30 } else { 5 * n as u64 };
    let mut i: usize = 0;
    while i < vulnerability_severities.len()
        invariant
            sevs == vulnerability_severities@.map_values(|s: String| s@),
            i <= sevs.len(),
            acc == min_nat(100, min_nat(30, 5 * n as nat) + severity_total(sevs.subrange(0, i as int))),
        decreases sevs.len() - i,
    {
        assert(sevs.subrange(0, i + 1).drop_last() =~= sevs.subrange(0, i as int));
        let w = severity_points(vulnerability_severities[i].as_str());
        acc = if acc + w >= 100 { 100 } else { acc + w };
        i = i + 1;
    }
    assert(sevs.subrange(0, i as int) =~= sevs);
    let e: u64 = if exploit_count >= 3 { 30 } else { 10 * exploit_count as u64 };
    acc = if acc + e >= 100 { 100 } else { acc + e };
    acc as u8
}

/// With six or more open ports, three or more exploits and vulnerabilities
/// of total weight 40 or more, the risk score is exactly 100.
pub proof fn lemma_osint_risk_saturates(ports: nat, sevs: Seq<Seq<char>>, exploits: nat)
    requires
        ports >= 6,
        exploits >= 3,
        severity_total(sevs) >= 40,
    ensures
        osint_risk(ports, sevs, exploits) == 100,
{
}

/// The risk score never exceeds 100.
pub proof fn lemma_osint_risk_capped(ports: nat, sevs: Seq<Seq<char>>, exploits: nat)
    ensures
        osint_risk(ports, sevs, exploits) <= 100,
{
}

/// The dropdown shown beside a search result.
#[derive(Debug, Clone)]
pub struct OSINTDropdown {
    pub domain: String,
    pub risk_score: u8,
    pub summary: OSINTSummary,
    pub expanded: bool,
}

/// What the dropdown summarises.
#[derive(Debug, Clone)]
pub struct OSINTSummary {
    pub whois_registrar: Option<String>,
    pub whois_created: Option<String>,
    pub open_port_count: usize,
    pub high_risk_ports: Vec<String>,
    pub vuln_count: usize,
    pub critical_vulns: Vec<String>,
    pub exploit_count: usize,
    pub exploit_names: Vec<String>,
}

/// A DNS record.
#[derive(Debug, Clone)]
pub struct DnsRecord {
    pub record_type: String,
    pub value: String,
    pub ttl: Option<u32>,
}

/// The badge colour of a risk score: red from 70, amber from 40, else green.
pub open spec fn risk_color(score: u8) -> Seq<char> {
    if score >= 70 {
        "#ff4444"@
    } else if score >= 40 {
        "#ffaa00"@
    } else {
        "#44ff44"@
    }
}

/// Each item between `pre` and `post`, one after the other.
pub open spec fn each_wrapped(items: Seq<Seq<char>>, pre: Seq<char>, post: Seq<char>) -> Seq<char>
    decreases items.len(),
{
    if items.len() == 0 {
        Seq::empty()
    } else {
        each_wrapped(items.drop_last(), pre, post) + pre + items.last() + post
    }
}

pub open spec fn opt_item(label: Seq<char>, o: Option<String>) -> Seq<char> {
    match o {
        Some(s) => "<li>"@ + label + s@ + "</li>"@,
        None => Seq::empty(),
    }
}

pub open spec fn whois_html(s: OSINTSummary) -> Seq<char> {
    if s.whois_registrar is Some || s.whois_created is Some {
        "<div class=\"osint-section\"><h4>📋 WHOIS</h4><ul>"@ + opt_item("Registrar: "@, s.whois_registrar) + opt_item(
            "Created: "@,
            s.whois_created,
        ) + "</ul></div>"@
    } else {
        Seq::empty()
    }
}

pub open spec fn ports_html(s: OSINTSummary) -> Seq<char> {
    if s.open_port_count > 0 {
        "<div class=\"osint-section\"><h4>🔌 Open Ports ("@ + decimal(s.open_port_count as nat) + ")</h4>"@ + if s.high_risk_ports@.len() > 0 {
            "<ul class=\"high-risk\">"@ + each_wrapped(string_views(s.high_risk_ports@), "<li>⚠️ "@, "</li>"@) + "</ul>"@
        } else {
            Seq::empty()
        } + "</div>"@
    } else {
        Seq::empty()
    }
}

pub open spec fn vulns_html(s: OSINTSummary) -> Seq<char> {
    if s.vuln_count > 0 {
        "<div class=\"osint-section\"><h4>🛡️ Vulnerabilities ("@ + decimal(s.vuln_count as nat) + ")</h4>"@ + if s.critical_vulns@.len() > 0 {
            "<ul class=\"critical\">"@ + each_wrapped(string_views(s.critical_vulns@), "<li>🔴 "@, "</li>"@) + "</ul>"@
        } else {
            Seq::empty()
        } + "</div>"@
    } else {
        Seq::empty()
    }
}

pub open spec fn exploits_html(s: OSINTSummary) -> Seq<char> {
    if s.exploit_count > 0 {
        "<div class=\"osint-section\"><h4>⚡ Exploits ("@ + decimal(s.exploit_count as nat) + ")</h4><ul>"@ + each_wrapped(
            string_views(s.exploit_names@),
            "<li>"@,
            "</li>"@,
        ) + "</ul></div>"@
    } else {
        Seq::empty()
    }
}

/// The HTML of a dropdown.
pub open spec fn dropdown_html(d: OSINTDropdown) -> Seq<char> {
    "\n<details class=\"osint-dropdown\">\n    <summary class=\"osint-summary\">\n        <span class=\"domain\">"@ + d.domain@ + "</span>\n        <span class=\"risk-badge\" style=\"background: "@ + risk_color(d.risk_score) + "\">Risk: "@
        + decimal(d.risk_score as nat) + "/100</span>\n    </summary>\n    <div class=\"osint-content\">\n"@ + whois_html(d.summary) + ports_html(d.summary)
        + vulns_html(d.summary) + exploits_html(d.summary) + "</div></details>"@
}

fn append_each(out: &mut String, items: &Vec<String>, pre: &str, post: &str)
    ensures
        final(out)@ == old(out)@ + each_wrapped(string_views(items@), pre@, post@),
{
    let ghost start = out@;
    let mut i: usize = 0;
    while i < items.len()
        invariant
            i <= items@.len(),
            out@ == start + each_wrapped(string_views(items@).subrange(0, i as int), pre@, post@),
        decreases items@.len() - i,
    {
        let ghost sub = string_views(items@).subrange(0, i + 1);
        assert(sub.drop_last() =~= string_views(items@).subrange(0, i as int));
        out.append(pre);
        out.append(items[i].as_str());
        out.append(post);
        assert(out@ =~= start + each_wrapped(sub, pre@, post@));
        i = i + 1;
    }
    assert(string_views(items@).subrange(0, i as int) =~= string_views(items@));
}

fn append_opt(out: &mut String, label: &str, o: &Option<String>)
    ensures
        final(out)@ == old(out)@ + opt_item(label@, *o),
{
    match o {
        Some(s) => {
            out.append("<li>");
            out.append(label);
            out.append(s.as_str());
            out.append("</li>");
        },
        None => {},
    }
    assert(out@ =~= old(out)@ + opt_item(label@, *o));
}

fn append_whois(out: &mut String, s: &OSINTSummary)
    ensures
        final(out)@ == old(out)@ + whois_html(*s),
{
    let ghost a = out@;
    if s.whois_registrar.is_some() || s.whois_created.is_some() {
        out.append("<div class=\"osint-section\"><h4>📋 WHOIS</h4><ul>");
        append_opt(out, "Registrar: ", &s.whois_registrar);
        append_opt(out, "Created: ", &s.whois_created);
        out.append("</ul></div>");
    }
    assert(out@ =~= a + whois_html(*s));
}

fn append_ports(out: &mut String, s: &OSINTSummary)
    ensures
        final(out)@ == old(out)@ + ports_html(*s),
{
    let ghost a = out@;
    if s.open_port_count > 0 {
        out.append("<div class=\"osint-section\"><h4>🔌 Open Ports (");
        out.append(decimal_string(s.open_port_count as u128).as_str());
        out.append(")</h4>");
        if s.high_risk_ports.len() > 0 {
            out.append("<ul class=\"high-risk\">");
            append_each(out, &s.high_risk_ports, "<li>⚠️ ", "</li>");
            out.append("</ul>");
        }
        out.append("</div>");
    }
    assert(out@ =~= a + ports_html(*s));
}

fn append_vulns(out: &mut String, s: &OSINTSummary)
    ensures
        final(out)@ == old(out)@ + vulns_html(*s),
{
    let ghost a = out@;
    if s.vuln_count > 0 {
        out.append("<div class=\"osint-section\"><h4>🛡️ Vulnerabilities (");
        out.append(decimal_string(s.vuln_count as u128).as_str());
        out.append(")</h4>");
        if s.critical_vulns.len() > 0 {
            out.append("<ul class=\"critical\">");
            append_each(out, &s.critical_vulns, "<li>🔴 ", "</li>");
            out.append("</ul>");
        }
        out.append("</div>");
    }
    assert(out@ =~= a + vulns_html(*s));
}

fn append_exploits(out: &mut String, s: &OSINTSummary)
    ensures
        final(out)@ == old(out)@ + exploits_html(*s),
{
    let ghost a = out@;
    if s.exploit_count > 0 {
        out.append("<div class=\"osint-section\"><h4>⚡ Exploits (");
        out.append(decimal_string(s.exploit_count as u128).as_str());
        out.append(")</h4><ul>");
        append_each(out, &s.exploit_names, "<li>", "</li>");
        out.append("</ul></div>");
    }
    assert(out@ =~= a + exploits_html(*s));
}

impl OSINTDropdown {
    /// The HTML of the dropdown.
    pub fn to_html(&self) -> (r: String)
        ensures
            r@ == dropdown_html(*self),
    {
        let color = if self.risk_score >= 70 {
            "#ff4444"
        } else if self.risk_score >= 40 {
            "#ffaa00"
        } else {
            "#44ff44"
        };
        let s = &self.summary;
        let mut html = "\n<details class=\"osint-dropdown\">\n    <summary class=\"osint-summary\">\n        <span class=\"domain\">".to_owned();
        html.append(self.domain.as_str());
        html.append("</span>\n        <span class=\"risk-badge\" style=\"background: ");
        html.append(color);
        html.append("\">Risk: ");
        html.append(decimal_string(self.risk_score as u128).as_str());
        html.append("/100</span>\n    </summary>\n    <div class=\"osint-content\">\n");
        append_whois(&mut html, s);
        append_ports(&mut html, s);
        append_vulns(&mut html, s);
        append_exploits(&mut html, s);
        html.append("</div></details>");
        html
    }
}

/// A host name: labels of letters, digits and inner hyphens, ending in a
/// TLD of two or more letters.
pub const DOMAIN_PATTERN: &'static str = r"^[a-zA-Z0-9]([a-zA-Z0-9-]{0,61}[a-zA-Z0-9])?(\.[a-zA-Z]{2,})+$";

/// A dotted-quad IPv4 address.
pub const IP_PATTERN: &'static str = r"^\d{1,3}\.\d{1,3}\.\d{1,3}\.\d{1,3}$";

/// Whether a search query names a target (a domain or an IPv4 address)
/// that deserves a full OSINT report.
pub fn is_target_query(query: &str) -> (r: bool)
    ensures
        r == (regex_first_match(DOMAIN_PATTERN@, query@) is Some || regex_first_match(
            IP_PATTERN@,
            query@,
        ) is Some),
{
    regex_find(DOMAIN_PATTERN, query).is_some() || regex_find(IP_PATTERN, query).is_some()
}

} // verus!
