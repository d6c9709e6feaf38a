//! Port-to-service tables, the port scanner's settings and the text report
//! of a scan.

use vstd::prelude::*;
use vstd::string::StringSliceAdditionalSpecFns;
use vstd::utf8::{decode_utf8, encode_utf8, is_char_boundary};
use crate::text::{decimal, decimal_string};

verus! {

/// Information about an open port.
#[derive(Debug, Clone)]
pub struct PortInfo {
    pub port: u16,
    pub service: String,
    pub state: PortState,
    pub banner: Option<String>,
    pub version: Option<String>,
    pub risk_level: RiskLevel,
}

#[derive(Debug, Clone, Copy, PartialEq, Eq, Structural)]
pub enum PortState {
    Open,
    Closed,
    Filtered,
}

#[derive(Debug, Clone, Copy, PartialEq, Eq, Structural)]
pub enum RiskLevel {
    Low,
    Medium,
    High,
    Critical,
}

/// The service and risk of a port of the common scan list.
pub open spec fn common_port_entry(port: u16) -> Option<(Seq<char>, RiskLevel)> {
    match port {
        21 => Some(("FTP"@, RiskLevel::High)),
        22 => Some(("SSH"@, RiskLevel::Medium)),
        23 => Some(("Telnet"@, RiskLevel::Critical)),
        25 => Some(("SMTP"@, RiskLevel::Medium)),
        53 => Some(("DNS"@, RiskLevel::Medium)),
        80 => Some(("HTTP"@, RiskLevel::Low)),
        110 => Some(("POP3"@, RiskLevel::Medium)),
        111 => Some(("RPC"@, RiskLevel::High)),
        135 => Some(("MSRPC"@, RiskLevel::High)),
        139 => Some(("NetBIOS"@, RiskLevel::High)),
        143 => Some(("IMAP"@, RiskLevel::Medium)),
        443 => Some(("HTTPS"@, RiskLevel::Low)),
        445 => Some(("SMB"@, RiskLevel::Critical)),
        993 => Some(("IMAPS"@, RiskLevel::Low)),
        995 => Some(("POP3S"@, RiskLevel::Low)),
        1433 => Some(("MSSQL"@, RiskLevel::High)),
        1521 => Some(("Oracle"@, RiskLevel::High)),
        3306 => Some(("MySQL"@, RiskLevel::High)),
        3389 => Some(("RDP"@, RiskLevel::Critical)),
        5432 => Some(("PostgreSQL"@, RiskLevel::High)),
        5900 => Some(("VNC"@, RiskLevel::High)),
        6379 => Some(("Redis"@, RiskLevel::High)),
        8080 => Some(("HTTP-Proxy"@, RiskLevel::Medium)),
        8443 => Some(("HTTPS-Alt"@, RiskLevel::Low)),
        27017 => Some(("MongoDB"@, RiskLevel::High)),
        _ => None,
    }
}

/// The service of a port of the extended scan list.
pub open spec fn extended_port_service(port: u16) -> Option<Seq<char>> {
    match port {
        69 => Some("TFTP"@),
        79 => Some("Finger"@),
        88 => Some("Kerberos"@),
        113 => Some("Auth"@),
        119 => Some("NNTP"@),
        123 => Some("NTP"@),
        137 => Some("NetBIOS-NS"@),
        138 => Some("NetBIOS-DGM"@),
        161 => Some("SNMP"@),
        162 => Some("SNMP-Trap"@),
        179 => Some("BGP"@),
        389 => Some("LDAP"@),
        427 => Some("SLP"@),
        464 => Some("Kerberos"@),
        500 => Some("ISAKMP"@),
        514 => Some("Syslog"@),
        515 => Some("LPD"@),
        520 => Some("RIP"@),
        523 => Some("IBM-DB2"@),
        548 => Some("AFP"@),
        554 => Some("RTSP"@),
        587 => Some("SMTP-Submission"@),
        623 => Some("IPMI"@),
        631 => Some("IPP"@),
        636 => Some("LDAPS"@),
        873 => Some("Rsync"@),
        902 => Some("VMware"@),
        912 => Some("VMware"@),
        1080 => Some("SOCKS"@),
        1099 => Some("Java-RMI"@),
        1194 => Some("OpenVPN"@),
        1723 => Some("PPTP"@),
        1883 => Some("MQTT"@),
        2049 => Some("NFS"@),
        2181 => Some("ZooKeeper"@),
        2375 => Some("Docker"@),
        2376 => Some("Docker-TLS"@),
        3000 => Some("Dev-Server"@),
        3128 => Some("Squid"@),
        4444 => Some("Metasploit"@),
        4443 => Some("HTTPS-Alt"@),
        4848 => Some("GlassFish"@),
        5000 => Some("Flask/Docker"@),
        5001 => Some("Synology"@),
        5060 => Some("SIP"@),
        5061 => Some("SIP-TLS"@),
        5672 => Some("RabbitMQ"@),
        5901 => Some("VNC-1"@),
        5984 => Some("CouchDB"@),
        6000 => Some("X11"@),
        6443 => Some("Kubernetes"@),
        7001 => Some("WebLogic"@),
        8000 => Some("HTTP-Alt"@),
        8008 => Some("HTTP-Alt"@),
        8081 => Some("HTTP-Alt"@),
        8083 => Some("HTTP-Alt"@),
        8181 => Some("HTTP-Alt"@),
        8888 => Some("HTTP-Alt"@),
        9000 => Some("PHP-FPM"@),
        9090 => Some("WebSM"@),
        9200 => Some("Elasticsearch"@),
        9418 => Some("Git"@),
        10000 => Some("Webmin"@),
        11211 => Some("Memcached"@),
        27018 => Some("MongoDB"@),
        _ => None,
    }
}

/// The service name for a port: the common list first, then the extended
/// list, else `Unknown`.
pub open spec fn service_name(port: u16) -> Seq<char> {
    match common_port_entry(port) {
        Some(e) => e.0,
        None => match extended_port_service(port) {
            Some(s) => s,
            None => "Unknown"@,
        },
    }
}

/// The service and risk of a port of the common scan list.
pub fn common_port(port: u16) -> (r: Option<(&'static str, RiskLevel)>)
    ensures
        r matches Some(e) ==> common_port_entry(port) == Some((e.0@, e.1)),
        r is None ==> common_port_entry(port) is None,
{
    match port {
        21 => Some(("FTP", RiskLevel::High)),
        22 => Some(("SSH", RiskLevel::Medium)),
        23 => Some(("Telnet", RiskLevel::Critical)),
        25 => Some(("SMTP", RiskLevel::Medium)),
        53 => Some(("DNS", RiskLevel::Medium)),
        80 => Some(("HTTP", RiskLevel::Low)),
        110 => Some(("POP3", RiskLevel::Medium)),
        111 => Some(("RPC", RiskLevel::High)),
        135 => Some(("MSRPC", RiskLevel::High)),
        139 => Some(("NetBIOS", RiskLevel::High)),
        143 => Some(("IMAP", RiskLevel::Medium)),
        443 => Some(("HTTPS", RiskLevel::Low)),
        445 => Some(("SMB", RiskLevel::Critical)),
        993 => Some(("IMAPS", RiskLevel::Low)),
        995 => Some(("POP3S", RiskLevel::Low)),
        1433 => Some(("MSSQL", RiskLevel::High)),
        1521 => Some(("Oracle", RiskLevel::High)),
        3306 => Some(("MySQL", RiskLevel::High)),
        3389 => Some(("RDP", RiskLevel::Critical)),
        5432 => Some(("PostgreSQL", RiskLevel::High)),
        5900 => Some(("VNC", RiskLevel::High)),
        6379 => Some(("Redis", RiskLevel::High)),
        8080 => Some(("HTTP-Proxy", RiskLevel::Medium)),
        8443 => Some(("HTTPS-Alt", RiskLevel::Low)),
        27017 => Some(("MongoDB", RiskLevel::High)),
        _ => None,
    }
}

/// The service of a port of the extended scan list.
pub fn extended_port(port: u16) -> (r: Option<&'static str>)
    ensures
        r matches Some(s) ==> extended_port_service(port) == Some(s@),
        r is None ==> extended_port_service(port) is None,
{
    match port {
        69 => Some("TFTP"),
        79 => Some("Finger"),
        88 => Some("Kerberos"),
        113 => Some("Auth"),
        119 => Some("NNTP"),
        123 => Some("NTP"),
        137 => Some("NetBIOS-NS"),
        138 => Some("NetBIOS-DGM"),
        161 => Some("SNMP"),
        162 => Some("SNMP-Trap"),
        179 => Some("BGP"),
        389 => Some("LDAP"),
        427 => Some("SLP"),
        464 => Some("Kerberos"),
        500 => Some("ISAKMP"),
        514 => Some("Syslog"),
        515 => Some("LPD"),
        520 => Some("RIP"),
        523 => Some("IBM-DB2"),
        548 => Some("AFP"),
        554 => Some("RTSP"),
        587 => Some("SMTP-Submission"),
        623 => Some("IPMI"),
        631 => Some("IPP"),
        636 => Some("LDAPS"),
        873 => Some("Rsync"),
        902 => Some("VMware"),
        912 => Some("VMware"),
        1080 => Some("SOCKS"),
        1099 => Some("Java-RMI"),
        1194 => Some("OpenVPN"),
        1723 => Some("PPTP"),
        1883 => Some("MQTT"),
        2049 => Some("NFS"),
        2181 => Some("ZooKeeper"),
        2375 => Some("Docker"),
        2376 => Some("Docker-TLS"),
        3000 => Some("Dev-Server"),
        3128 => Some("Squid"),
        4444 => Some("Metasploit"),
        4443 => Some("HTTPS-Alt"),
        4848 => Some("GlassFish"),
        5000 => Some("Flask/Docker"),
        5001 => Some("Synology"),
        5060 => Some("SIP"),
        5061 => Some("SIP-TLS"),
        5672 => Some("RabbitMQ"),
        5901 => Some("VNC-1"),
        5984 => Some("CouchDB"),
        6000 => Some("X11"),
        6443 => Some("Kubernetes"),
        7001 => Some("WebLogic"),
        8000 => Some("HTTP-Alt"),
        8008 => Some("HTTP-Alt"),
        8081 => Some("HTTP-Alt"),
        8083 => Some("HTTP-Alt"),
        8181 => Some("HTTP-Alt"),
        8888 => Some("HTTP-Alt"),
        9000 => Some("PHP-FPM"),
        9090 => Some("WebSM"),
        9200 => Some("Elasticsearch"),
        9418 => Some("Git"),
        10000 => Some("Webmin"),
        11211 => Some("Memcached"),
        27018 => Some("MongoDB"),
        _ => None,
    }
}

/// The ports of the common scan list, in scan order.
pub fn common_port_numbers() -> (r: Vec<u16>)
    ensures
        forall|i: int| 0 <= i < r@.len() ==> common_port_entry(#[trigger] r@[i]) is Some,
{
    let r: Vec<u16> = vec![21, 22, 23, 25, 53, 80, 110, 111, 135, 139, 143, 443, 445, 993, 995, 1433, 1521, 3306, 3389, 5432, 5900, 6379, 8080, 8443, 27017];
    r
}

/// The ports of the extended scan list, in scan order.
pub fn extended_port_numbers() -> (r: Vec<u16>)
    ensures
        forall|i: int| 0 <= i < r@.len() ==> extended_port_service(#[trigger] r@[i]) is Some,
{
    let r: Vec<u16> = vec![69, 79, 88, 113, 119, 123, 137, 138, 161, 162, 179, 389, 427, 464, 500, 514, 515, 520, 523, 548, 554, 587, 623, 631, 636, 873, 902, 912, 1080, 1099, 1194, 1723, 1883, 2049, 2181, 2375, 2376, 3000, 3128, 4444, 4443, 4848, 5000, 5001, 5060, 5061, 5672, 5901, 5984, 6000, 6443, 7001, 8000, 8008, 8081, 8083, 8181, 8888, 9000, 9090, 9200, 9418, 10000, 11211, 27018];
    r
}

/// Port scanner settings.
pub struct PortScanner {
    timeout_secs: u64,
    max_concurrent: usize,
}

impl PortScanner {
    /// A scanner whose timeout is `timeout_secs`, at most 30 seconds.
    pub fn new(timeout_secs: u64) -> (r: Self)
        ensures
            r.timeout_secs() == if timeout_secs < 30 { timeout_secs } else { 30 },
            r.max_concurrent() == 50,
    {
        let t = if timeout_secs < 30 { timeout_secs } else { 30 };
        PortScanner { timeout_secs: t, max_concurrent: 50 }
    }

    pub closed spec fn timeout_secs(&self) -> u64 {
        self.timeout_secs
    }

    pub closed spec fn max_concurrent(&self) -> usize {
        self.max_concurrent
    }

    /// The connect timeout in seconds.
    pub fn timeout(&self) -> (r: u64)
        ensures
            r == self.timeout_secs(),
    {
        self.timeout_secs
    }

    /// How many ports may be probed at once.
    pub fn concurrency(&self) -> (r: usize)
        ensures
            r == self.max_concurrent(),
    {
        self.max_concurrent
    }

    /// The service name of a port.
    pub fn identify_service(&self, port: u16) -> (r: String)
        ensures
            r@ == service_name(port),
    {
        match common_port(port) {
            Some(e) => e.0.to_owned(),
            None => match extended_port(port) {
                Some(s) => s.to_owned(),
                None => "Unknown".to_owned(),
            },
        }
    }
}

impl Default for PortScanner {
    fn default() -> (r: Self)
        ensures
            r.timeout_secs() == 10,
            r.max_concurrent() == 50,
    {
        Self::new(10)
    }
}

/// The label of a risk level in the scan report.
pub open spec fn risk_label(r: RiskLevel) -> Seq<char> {
    match r {
        RiskLevel::Low => "LOW"@,
        RiskLevel::Medium => "MED"@,
        RiskLevel::High => "HIGH"@,
        RiskLevel::Critical => "CRIT"@,
    }
}

fn risk_label_str(r: RiskLevel) -> (s: &'static str)
    ensures
        s@ == risk_label(r),
{
    match r {
        RiskLevel::Low => "LOW",
        RiskLevel::Medium => "MED",
        RiskLevel::High => "HIGH",
        RiskLevel::Critical => "CRIT",
    }
}

pub open spec fn spaces(n: nat) -> Seq<char> {
    Seq::new(n, |i: int| ' ')
}

/// `s` followed by spaces up to `w` characters.
pub open spec fn pad_right(s: Seq<char>, w: nat) -> Seq<char> {
    if s.len() >= w {
        s
    } else {
        s + spaces((w - s.len()) as nat)
    }
}

/// Spaces up to `w` characters followed by `s`.
pub open spec fn pad_left(s: Seq<char>, w: nat) -> Seq<char> {
    if s.len() >= w {
        s
    } else {
        spaces((w - s.len()) as nat) + s
    }
}

/// How many bytes of the service name the report shows: at most 12, its
/// length being what `str::len` reports.
pub open spec fn service_cut(service: Seq<char>) -> int {
    let n = encode_utf8(service).len() as usize;
    if n < 12 {
        n as int
    } else {
        12
    }
}

/// The characters encoded by the first `k` UTF-8 bytes of `s`.
pub open spec fn byte_prefix(s: Seq<char>, k: int) -> Seq<char> {
    decode_utf8(encode_utf8(s).subrange(0, k))
}

/// One line of the report.
pub open spec fn scan_row(p: PortInfo) -> Seq<char> {
    "│ "@ + pad_left(decimal(p.port as nat), 5) + " │ "@ + pad_right(
        byte_prefix(p.service@, service_cut(p.service@)),
        12,
    ) + " │ "@ + pad_right("OPEN"@, 7) + " │ "@ + pad_right(risk_label(p.risk_level), 6) + " │\n"@
}

pub open spec fn scan_rows(ports: Seq<PortInfo>) -> Seq<char>
    decreases ports.len(),
{
    if ports.len() == 0 {
        Seq::empty()
    } else {
        scan_rows(ports.drop_last()) + scan_row(ports.last())
    }
}

pub const SCAN_REPORT_HEADER: &'static str = "┌─────────────────────────────────────────┐\n│           PORT SCAN RESULTS             │\n├───────┬──────────────┬─────────┬────────┤\n│ PORT  │ SERVICE      │ STATE   │ RISK   │\n├───────┼──────────────┼─────────┼────────┤\n";

pub const SCAN_REPORT_FOOTER: &'static str = "└───────┴──────────────┴─────────┴────────┘\n";

/// The report of a scan: a boxed table with one line per port.
pub open spec fn scan_report(ports: Seq<PortInfo>) -> Seq<char> {
    SCAN_REPORT_HEADER@ + scan_rows(ports) + SCAN_REPORT_FOOTER@
}

/// The service name can be cut after its first `service_cut` bytes.
pub open spec fn cuttable(p: PortInfo) -> bool {
    is_char_boundary(encode_utf8(p.service@), service_cut(p.service@))
}

fn append_padded_right(out: &mut String, s: &str, w: usize)
    ensures
        final(out)@ == old(out)@ + pad_right(s@, w as nat),
{
    out.append(s);
    let mut n = s.unicode_len();
    let ghost base = out@;
    let ghost n0 = n;
    while n < w
        invariant
            n0 == s@.len(),
            n0 <= n <= w || (n == n0 && n0 >= w),
            out@ == base + spaces((n - n0) as nat),
        decreases w - n,
    {
        out.append(" ");
        proof {
            reveal_strlit(" ");
        }
        assert(out@ =~= base + spaces((n + 1 - n0) as nat));
        n = n + 1;
    }
    assert(out@ =~= old(out)@ + pad_right(s@, w as nat));
}

fn append_padded_left(out: &mut String, s: &str, w: usize)
    ensures
        final(out)@ == old(out)@ + pad_left(s@, w as nat),
{
    let n0 = s.unicode_len();
    let mut n = n0;
    while n < w
        invariant
            n0 == s@.len(),
            n0 <= n <= w || (n == n0 && n0 >= w),
            out@ == old(out)@ + spaces((n - n0) as nat),
        decreases w - n,
    {
        out.append(" ");
        proof {
            reveal_strlit(" ");
        }
        assert(out@ =~= old(out)@ + spaces((n + 1 - n0) as nat));
        n = n + 1;
    }
    out.append(s);
    assert(out@ =~= old(out)@ + pad_left(s@, w as nat));
}

fn service_cell(service: &str) -> (r: &str)
    requires
        is_char_boundary(encode_utf8(service@), service_cut(service@)),
    ensures
        r@ == byte_prefix(service@, service_cut(service@)),
{
    let n = service.len();
    let k = if n < 12 { n } else { 12 };
    let (cut, _) = service.split_at(k);
    proof {
        vstd::utf8::encode_utf8_decode_utf8(cut@);
    }
    cut
}

fn append_row(out: &mut String, p: &PortInfo)
    requires
        cuttable(*p),
    ensures
        final(out)@ == old(out)@ + scan_row(*p),
{
    let cut = service_cell(p.service.as_str());
    let digits = decimal_string(p.port as u128);
    let ghost o = out@;
    out.append("│ ");
    append_padded_left(out, digits.as_str(), 5);
    out.append(" │ ");
    append_padded_right(out, cut, 12);
    let ghost mid = out@;
    assert(mid == o + ("│ "@ + pad_left(decimal(p.port as nat), 5) + " │ "@ + pad_right(
        byte_prefix(p.service@, service_cut(p.service@)),
        12,
    ))) by {
        assert(mid =~= o + ("│ "@ + pad_left(decimal(p.port as nat), 5) + " │ "@ + pad_right(
            byte_prefix(p.service@, service_cut(p.service@)),
            12,
        )));
    }
    out.append(" │ ");
    append_padded_right(out, "OPEN", 7);
    out.append(" │ ");
    append_padded_right(out, risk_label_str(p.risk_level), 6);
    out.append(" │\n");
    assert(out@ =~= mid + (" │ "@ + pad_right("OPEN"@, 7) + " │ "@ + pad_right(
        risk_label(p.risk_level),
        6,
    ) + " │\n"@));
    assert(out@ =~= o + scan_row(*p));
}

/// The boxed text report of a scan.
pub fn format_scan_results(ports: &[PortInfo]) -> (r: String)
    requires
        forall|i: int| 0 <= i < ports@.len() ==> cuttable(#[trigger] ports@[i]),
    ensures
        r@ == scan_report(ports@),
{
    let mut out = SCAN_REPORT_HEADER.to_owned();
    let mut i: usize = 0;
    while i < ports.len()
        invariant
            i <= ports@.len(),
            forall|j: int| 0 <= j < ports@.len() ==> cuttable(#[trigger] ports@[j]),
            out@ == SCAN_REPORT_HEADER@ + scan_rows(ports@.subrange(0, i as int)),
        decreases ports@.len() - i,
    {
        assert(ports@.subrange(0, i + 1).drop_last() =~= ports@.subrange(0, i as int));
        append_row(&mut out, &ports[i]);
        assert(out@ =~= SCAN_REPORT_HEADER@ + scan_rows(ports@.subrange(0, i + 1)));
        i = i + 1;
    }
    assert(ports@.subrange(0, i as int) =~= ports@);
    out.append(SCAN_REPORT_FOOTER);
    out
}

} // verus!
