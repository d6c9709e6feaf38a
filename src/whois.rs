//! WHOIS: the registry server for each top-level domain.

use vstd::prelude::*;
use crate::threat_intel::{string_views, tld_of, top_level_domain};
use crate::text::{
    concat2, contains_seq, contains_str, find_char, first_char_from, lower_of, lowercase, str_eq,
    trim_str, trimmed,
};

verus! {

#[derive(Debug, Clone)]
pub struct RegistrantInfo {
    pub name: Option<String>,
    pub organization: Option<String>,
    pub street: Option<String>,
    pub city: Option<String>,
    pub state: Option<String>,
    pub country: Option<String>,
    pub postal_code: Option<String>,
    pub email: Option<String>,
    pub phone: Option<String>,
}

/// WHOIS lookup settings.
pub struct WhoisLookup {
    timeout_secs: u64,
}

/// The WHOIS server for a TLD, matched on its lowercase form `lower`; a
/// TLD without an entry goes to `whois.nic.` followed by the TLD as given.
pub open spec fn whois_server(tld: Seq<char>, lower: Seq<char>) -> Seq<char> {
    if lower == "com"@ || lower == "net"@ {
        "whois.verisign-grs.com"@
    } else if lower == "org"@ {
        "whois.pir.org"@
    } else if lower == "info"@ {
        "whois.afilias.net"@
    } else if lower == "io"@ {
        "whois.nic.io"@
    } else if lower == "co"@ {
        "whois.nic.co"@
    } else if lower == "me"@ {
        "whois.nic.me"@
    } else if lower == "biz"@ {
        "whois.biz"@
    } else if lower == "us"@ {
        "whois.nic.us"@
    } else if lower == "uk"@ || lower == "co.uk"@ {
        "whois.nic.uk"@
    } else if lower == "de"@ {
        "whois.denic.de"@
    } else if lower == "fr"@ {
        "whois.afnic.fr"@
    } else if lower == "nl"@ {
        "whois.sidn.nl"@
    } else if lower == "eu"@ {
        "whois.eu"@
    } else if lower == "ru"@ {
        "whois.tcinet.ru"@
    } else if lower == "cn"@ {
        "whois.cnnic.cn"@
    } else if lower == "jp"@ {
        "whois.jprs.jp"@
    } else if lower == "au"@ {
        "whois.auda.org.au"@
    } else if lower == "ca"@ {
        "whois.cira.ca"@
    } else if lower == "br"@ {
        "whois.registro.br"@
    } else if lower == "in"@ {
        "whois.registry.in"@
    } else if lower == "mx"@ {
        "whois.mx"@
    } else {
        "whois.nic."@ + tld
    }
}

/// The WHOIS server for `tld` whose lowercase form is `lower`.
pub fn whois_server_for(tld: &str, lower: &str) -> (r: String)
    ensures
        r@ == whois_server(tld@, lower@),
{
    if str_eq(lower, "com") || str_eq(lower, "net") {
        "whois.verisign-grs.com".to_owned()
    } else if str_eq(lower, "org") {
        "whois.pir.org".to_owned()
    } else if str_eq(lower, "info") {
        "whois.afilias.net".to_owned()
    } else if str_eq(lower, "io") {
        "whois.nic.io".to_owned()
    } else if str_eq(lower, "co") {
        "whois.nic.co".to_owned()
    } else if str_eq(lower, "me") {
        "whois.nic.me".to_owned()
    } else if str_eq(lower, "biz") {
        "whois.biz".to_owned()
    } else if str_eq(lower, "us") {
        "whois.nic.us".to_owned()
    } else if str_eq(lower, "uk") || str_eq(lower, "co.uk") {
        "whois.nic.uk".to_owned()
    } else if str_eq(lower, "de") {
        "whois.denic.de".to_owned()
    } else if str_eq(lower, "fr") {
        "whois.afnic.fr".to_owned()
    } else if str_eq(lower, "nl") {
        "whois.sidn.nl".to_owned()
    } else if str_eq(lower, "eu") {
        "whois.eu".to_owned()
    } else if str_eq(lower, "ru") {
        "whois.tcinet.ru".to_owned()
    } else if str_eq(lower, "cn") {
        "whois.cnnic.cn".to_owned()
    } else if str_eq(lower, "jp") {
        "whois.jprs.jp".to_owned()
    } else if str_eq(lower, "au") {
        "whois.auda.org.au".to_owned()
    } else if str_eq(lower, "ca") {
        "whois.cira.ca".to_owned()
    } else if str_eq(lower, "br") {
        "whois.registro.br".to_owned()
    } else if str_eq(lower, "in") {
        "whois.registry.in".to_owned()
    } else if str_eq(lower, "mx") {
        "whois.mx".to_owned()
    } else {
        concat2("whois.nic.", tld)
    }
}

// ---------------------------------------------------------------------------
// Parsing a WHOIS response.

/// WHOIS information for a domain; dates are seconds since the Unix epoch.
#[derive(Debug, Clone)]
pub struct WhoisInfo {
    pub domain: String,
    pub registrar: Option<String>,
    pub registrant: Option<RegistrantInfo>,
    pub creation_date: Option<i64>,
    pub expiration_date: Option<i64>,
    pub updated_date: Option<i64>,
    pub name_servers: Vec<String>,
    pub status: Vec<String>,
    pub dnssec: Option<bool>,
    pub raw_response: String,
}

pub uninterp spec fn naive_datetime_parse(s: Seq<char>, fmt: Seq<char>) -> Option<i64>;

/// Relies on `chrono::NaiveDateTime::parse_from_str`: the date and time that
/// `s` spells in format `fmt`, read as UTC, in seconds since the epoch.
#[verifier::external_body]
fn naive_datetime_secs(s: &str, fmt: &str) -> (r: Option<i64>)
    ensures
        r == naive_datetime_parse(s@, fmt@),
{
    chrono::NaiveDateTime::parse_from_str(s, fmt).ok().map(|dt| dt.and_utc().timestamp())
}

pub uninterp spec fn naive_date_parse(s: Seq<char>, fmt: Seq<char>) -> Option<i64>;

/// Relies on `chrono::NaiveDate::parse_from_str`: the midnight (UTC) of the
/// date that `s` spells in format `fmt`, in seconds since the epoch.
#[verifier::external_body]
fn naive_date_secs(s: &str, fmt: &str) -> (r: Option<i64>)
    ensures
        r == naive_date_parse(s@, fmt@),
{
    chrono::NaiveDate::parse_from_str(s, fmt)
        .ok()
        .and_then(|d| d.and_hms_opt(0, 0, 0))
        .map(|dt| dt.and_utc().timestamp())
}

pub uninterp spec fn rfc3339_parse(s: Seq<char>) -> Option<i64>;

/// Relies on `FromStr for chrono::DateTime<Utc>`: the instant that `s`
/// spells in relaxed RFC 3339 form, in seconds since the epoch.
#[verifier::external_body]
fn rfc3339_secs(s: &str) -> (r: Option<i64>)
    ensures
        r == rfc3339_parse(s@),
{
    s.parse::<chrono::DateTime<chrono::Utc>>().ok().map(|dt| dt.timestamp())
}

/// The date formats tried, in order.
pub open spec fn date_formats() -> Seq<Seq<char>> {
    seq!["%Y-%m-%dT%H:%M:%SZ"@, "%Y-%m-%dT%H:%M:%S%z"@, "%Y-%m-%d %H:%M:%S"@, "%Y-%m-%d"@, "%d-%b-%Y"@, "%Y/%m/%d"@, "%d/%m/%Y"@]
}

fn date_format_at(i: usize) -> (r: &'static str)
    requires
        i < 7,
    ensures
        r@ == date_formats()[i as int],
{
    match i {
        0 => "%Y-%m-%dT%H:%M:%SZ",
        1 => "%Y-%m-%dT%H:%M:%S%z",
        2 => "%Y-%m-%d %H:%M:%S",
        3 => "%Y-%m-%d",
        4 => "%d-%b-%Y",
        5 => "%Y/%m/%d",
        _ => "%d/%m/%Y",
    }
}

/// The first reading of `s` among the formats, each tried as a date and
/// time and then as a date.
pub open spec fn date_in_formats(s: Seq<char>, fmts: Seq<Seq<char>>) -> Option<i64>
    decreases fmts.len(),
{
    if fmts.len() == 0 {
        None
    } else {
        match naive_datetime_parse(s, fmts[0]) {
            Some(t) => Some(t),
            None => match naive_date_parse(s, fmts[0]) {
                Some(t) => Some(t),
                None => date_in_formats(s, fmts.drop_first()),
            },
        }
    }
}

/// A WHOIS date: the known formats in order, then RFC 3339.
pub open spec fn whois_date(s: Seq<char>) -> Option<i64> {
    match date_in_formats(s, date_formats()) {
        Some(t) => Some(t),
        None => rfc3339_parse(s),
    }
}

/// Reads a date of a WHOIS response.
pub fn parse_date(s: &str) -> (r: Option<i64>)
    ensures
        r == whois_date(s@),
{
    let mut i: usize = 0;
    assert(date_formats().subrange(0, 7) =~= date_formats());
    while i < 7
        invariant
            i <= 7,
            date_in_formats(s@, date_formats()) == date_in_formats(
                s@,
                date_formats().subrange(i as int, 7),
            ),
        decreases 7 - i,
    {
        let fmt = date_format_at(i);
        assert(date_formats().subrange(i as int, 7).drop_first() =~= date_formats().subrange(
            i + 1,
            7,
        ));
        if let Some(t) = naive_datetime_secs(s, fmt) {
            return Some(t);
        }
        if let Some(t) = naive_date_secs(s, fmt) {
            return Some(t);
        }
        i = i + 1;
    }
    rfc3339_secs(s)
}

/// Drops one carriage return at the end of a line.
pub open spec fn strip_cr(c: Seq<char>) -> Seq<char> {
    if c.len() > 0 && c.last() == '\r' {
        c.drop_last()
    } else {
        c
    }
}

/// The lines ended so far and the line being read.
pub open spec fn lines_fold(s: Seq<char>) -> (Seq<Seq<char>>, Seq<char>)
    decreases s.len(),
{
    if s.len() == 0 {
        (Seq::empty(), Seq::empty())
    } else {
        let (done, cur) = lines_fold(s.drop_last());
        if s.last() == '\n' {
            (done.push(strip_cr(cur)), Seq::empty())
        } else {
            (done, cur.push(s.last()))
        }
    }
}

/// The lines of `s`: split at `\n` or `\r\n`; the last line needs no ending.
pub open spec fn lines_of(s: Seq<char>) -> Seq<Seq<char>> {
    let (done, cur) = lines_fold(s);
    if cur.len() > 0 {
        done.push(cur)
    } else {
        done
    }
}

fn cr_stripped(line: &str) -> (r: &str)
    ensures
        r@ == strip_cr(line@),
{
    let n = line.unicode_len();
    if n > 0 && line.get_char(n - 1) == '\r' {
        line.substring_char(0, n - 1)
    } else {
        line
    }
}

/// The lines of a text.
pub fn split_lines(s: &str) -> (r: Vec<String>)
    ensures
        string_views(r@) == lines_of(s@),
{
    let n = s.unicode_len();
    let mut out: Vec<String> = Vec::new();
    let mut start: usize = 0;
    let mut i: usize = 0;
    while i < n
        invariant
            n == s@.len(),
            start <= i <= n,
            lines_fold(s@.subrange(0, i as int)) == (string_views(out@), s@.subrange(
                start as int,
                i as int,
            )),
        decreases n - i,
    {
        assert(s@.subrange(0, i + 1).drop_last() =~= s@.subrange(0, i as int));
        if s.get_char(i) == '\n' {
            let line = cr_stripped(s.substring_char(start, i));
            let ghost prev = out@;
            out.push(line.to_owned());
            assert(string_views(out@) =~= string_views(prev).push(line@));
            start = i + 1;
            assert(s@.subrange(start as int, i + 1) =~= Seq::<char>::empty());
        } else {
            assert(s@.subrange(start as int, i + 1) =~= s@.subrange(start as int, i as int).push(
                s@[i as int],
            ));
        }
        i = i + 1;
    }
    assert(s@.subrange(0, n as int) =~= s@);
    if start < n {
        let ghost prev = out@;
        let last = s.substring_char(start, n);
        out.push(last.to_owned());
        assert(string_views(out@) =~= string_views(prev).push(last@));
    }
    out
}

/// Which field a WHOIS key fills.
#[derive(Debug, Clone, Copy, PartialEq, Eq, Structural)]
pub enum WhoisKey {
    Registrar,
    Created,
    Expires,
    Updated,
    NameServer,
    Status,
    Dnssec,
    RegistrantName,
    RegistrantOrganization,
    RegistrantStreet,
    RegistrantCity,
    RegistrantState,
    RegistrantCountry,
    RegistrantPostalCode,
    RegistrantEmail,
    RegistrantPhone,
    Other,
}

/// The field for a lowercased, trimmed key.
pub open spec fn key_kind(k: Seq<char>) -> WhoisKey {
    if k == "registrar"@ || k == "registrar name"@ {
        WhoisKey::Registrar
    } else if k == "creation date"@ || k == "created"@ || k == "created date"@ || k == "registration date"@ {
        WhoisKey::Created
    } else if k == "expiration date"@ || k == "expires"@ || k == "expiry date"@ || k == "registry expiry date"@ {
        WhoisKey::Expires
    } else if k == "updated date"@ || k == "updated"@ || k == "last updated"@ {
        WhoisKey::Updated
    } else if k == "name server"@ || k == "nameserver"@ || k == "nserver"@ {
        WhoisKey::NameServer
    } else if k == "domain status"@ || k == "status"@ {
        WhoisKey::Status
    } else if k == "dnssec"@ {
        WhoisKey::Dnssec
    } else if k == "registrant name"@ {
        WhoisKey::RegistrantName
    } else if k == "registrant organization"@ || k == "registrant org"@ {
        WhoisKey::RegistrantOrganization
    } else if k == "registrant street"@ {
        WhoisKey::RegistrantStreet
    } else if k == "registrant city"@ {
        WhoisKey::RegistrantCity
    } else if k == "registrant state/province"@ || k == "registrant state"@ {
        WhoisKey::RegistrantState
    } else if k == "registrant country"@ {
        WhoisKey::RegistrantCountry
    } else if k == "registrant postal code"@ {
        WhoisKey::RegistrantPostalCode
    } else if k == "registrant email"@ {
        WhoisKey::RegistrantEmail
    } else if k == "registrant phone"@ {
        WhoisKey::RegistrantPhone
    } else {
        WhoisKey::Other
    }
}

fn classify_key(k: &str) -> (r: WhoisKey)
    ensures
        r == key_kind(k@),
{
    if str_eq(k, "registrar") || str_eq(k, "registrar name") {
        WhoisKey::Registrar
    } else if str_eq(k, "creation date") || str_eq(k, "created") || str_eq(k, "created date") || str_eq(k, "registration date") {
        WhoisKey::Created
    } else if str_eq(k, "expiration date") || str_eq(k, "expires") || str_eq(k, "expiry date") || str_eq(k, "registry expiry date") {
        WhoisKey::Expires
    } else if str_eq(k, "updated date") || str_eq(k, "updated") || str_eq(k, "last updated") {
        WhoisKey::Updated
    } else if str_eq(k, "name server") || str_eq(k, "nameserver") || str_eq(k, "nserver") {
        WhoisKey::NameServer
    } else if str_eq(k, "domain status") || str_eq(k, "status") {
        WhoisKey::Status
    } else if str_eq(k, "dnssec") {
        WhoisKey::Dnssec
    } else if str_eq(k, "registrant name") {
        WhoisKey::RegistrantName
    } else if str_eq(k, "registrant organization") || str_eq(k, "registrant org") {
        WhoisKey::RegistrantOrganization
    } else if str_eq(k, "registrant street") {
        WhoisKey::RegistrantStreet
    } else if str_eq(k, "registrant city") {
        WhoisKey::RegistrantCity
    } else if str_eq(k, "registrant state/province") || str_eq(k, "registrant state") {
        WhoisKey::RegistrantState
    } else if str_eq(k, "registrant country") {
        WhoisKey::RegistrantCountry
    } else if str_eq(k, "registrant postal code") {
        WhoisKey::RegistrantPostalCode
    } else if str_eq(k, "registrant email") {
        WhoisKey::RegistrantEmail
    } else if str_eq(k, "registrant phone") {
        WhoisKey::RegistrantPhone
    } else {
        WhoisKey::Other
    }
}

pub struct RegistrantFields {
    pub name: Option<Seq<char>>,
    pub organization: Option<Seq<char>>,
    pub street: Option<Seq<char>>,
    pub city: Option<Seq<char>>,
    pub state: Option<Seq<char>>,
    pub country: Option<Seq<char>>,
    pub postal_code: Option<Seq<char>>,
    pub email: Option<Seq<char>>,
    pub phone: Option<Seq<char>>,
}

/// What the lines read so far have filled in.
pub struct WhoisFields {
    pub registrar: Option<Seq<char>>,
    pub creation_date: Option<i64>,
    pub expiration_date: Option<i64>,
    pub updated_date: Option<i64>,
    pub name_servers: Seq<Seq<char>>,
    pub status: Seq<Seq<char>>,
    pub dnssec: Option<bool>,
    pub registrant: RegistrantFields,
}

pub open spec fn opt_view(o: Option<String>) -> Option<Seq<char>> {
    match o {
        Some(s) => Some(s@),
        None => None,
    }
}

pub open spec fn registrant_fields(r: RegistrantInfo) -> RegistrantFields {
    RegistrantFields {
        name: opt_view(r.name),
        organization: opt_view(r.organization),
        street: opt_view(r.street),
        city: opt_view(r.city),
        state: opt_view(r.state),
        country: opt_view(r.country),
        postal_code: opt_view(r.postal_code),
        email: opt_view(r.email),
        phone: opt_view(r.phone),
    }
}

pub open spec fn no_registrant() -> RegistrantFields {
    RegistrantFields {
        name: None,
        organization: None,
        street: None,
        city: None,
        state: None,
        country: None,
        postal_code: None,
        email: None,
        phone: None,
    }
}

pub open spec fn empty_fields() -> WhoisFields {
    WhoisFields {
        registrar: None,
        creation_date: None,
        expiration_date: None,
        updated_date: None,
        name_servers: Seq::empty(),
        status: Seq::empty(),
        dnssec: None,
        registrant: no_registrant(),
    }
}

/// What a key and its trimmed value change.
pub open spec fn apply_field(w: WhoisFields, kind: WhoisKey, value: Seq<char>) -> WhoisFields {
    match kind {
        WhoisKey::Registrar => WhoisFields { registrar: Some(value), ..w },
        WhoisKey::Created => WhoisFields { creation_date: whois_date(value), ..w },
        WhoisKey::Expires => WhoisFields { expiration_date: whois_date(value), ..w },
        WhoisKey::Updated => WhoisFields { updated_date: whois_date(value), ..w },
        WhoisKey::NameServer => if value.len() > 0 {
            WhoisFields { name_servers: w.name_servers.push(lower_of(value)), ..w }
        } else {
            w
        },
        WhoisKey::Status => WhoisFields { status: w.status.push(value), ..w },
        WhoisKey::Dnssec => WhoisFields {
            dnssec: Some(contains_seq(lower_of(value), "signed"@) || lower_of(value) == "yes"@),
            ..w
        },
        WhoisKey::RegistrantName => WhoisFields { registrant: RegistrantFields { name: Some(value), ..w.registrant }, ..w },
        WhoisKey::RegistrantOrganization => WhoisFields { registrant: RegistrantFields { organization: Some(value), ..w.registrant }, ..w },
        WhoisKey::RegistrantStreet => WhoisFields { registrant: RegistrantFields { street: Some(value), ..w.registrant }, ..w },
        WhoisKey::RegistrantCity => WhoisFields { registrant: RegistrantFields { city: Some(value), ..w.registrant }, ..w },
        WhoisKey::RegistrantState => WhoisFields { registrant: RegistrantFields { state: Some(value), ..w.registrant }, ..w },
        WhoisKey::RegistrantCountry => WhoisFields { registrant: RegistrantFields { country: Some(value), ..w.registrant }, ..w },
        WhoisKey::RegistrantPostalCode => WhoisFields { registrant: RegistrantFields { postal_code: Some(value), ..w.registrant }, ..w },
        WhoisKey::RegistrantEmail => WhoisFields { registrant: RegistrantFields { email: Some(value), ..w.registrant }, ..w },
        WhoisKey::RegistrantPhone => WhoisFields { registrant: RegistrantFields { phone: Some(value), ..w.registrant }, ..w },
        WhoisKey::Other => w,
    }
}

/// What one line changes: blank lines and comments (`%`, `#`) are skipped;
/// otherwise the text before the first `:` is the key, the rest the value.
pub open spec fn apply_line(w: WhoisFields, line: Seq<char>) -> WhoisFields {
    let t = trimmed(line);
    if t.len() == 0 || t[0] == '%' || t[0] == '#' {
        w
    } else {
        match first_char_from(t, ':', 0) {
            None => w,
            Some(p) => apply_field(
                w,
                key_kind(lower_of(trimmed(t.subrange(0, p)))),
                trimmed(t.subrange(p + 1, t.len() as int)),
            ),
        }
    }
}

pub open spec fn apply_lines(w: WhoisFields, lines: Seq<Seq<char>>) -> WhoisFields
    decreases lines.len(),
{
    if lines.len() == 0 {
        w
    } else {
        apply_line(apply_lines(w, lines.drop_last()), lines.last())
    }
}

/// What a WHOIS response says.
pub open spec fn parsed_whois(raw: Seq<char>) -> WhoisFields {
    apply_lines(empty_fields(), lines_of(raw))
}

pub open spec fn fields_of(
    registrar: Option<String>,
    creation_date: Option<i64>,
    expiration_date: Option<i64>,
    updated_date: Option<i64>,
    name_servers: Seq<String>,
    status: Seq<String>,
    dnssec: Option<bool>,
    reg: RegistrantInfo,
) -> WhoisFields {
    WhoisFields {
        registrar: opt_view(registrar),
        creation_date,
        expiration_date,
        updated_date,
        name_servers: string_views(name_servers),
        status: string_views(status),
        dnssec,
        registrant: registrant_fields(reg),
    }
}

/// The parsed record matches the fields and keeps a registrant only when
/// its name or organization is known.
pub open spec fn info_has(info: WhoisInfo, w: WhoisFields) -> bool {
    &&& opt_view(info.registrar) == w.registrar
    &&& info.creation_date == w.creation_date
    &&& info.expiration_date == w.expiration_date
    &&& info.updated_date == w.updated_date
    &&& string_views(info.name_servers@) == w.name_servers
    &&& string_views(info.status@) == w.status
    &&& info.dnssec == w.dnssec
    &&& if w.registrant.name is Some || w.registrant.organization is Some {
        info.registrant matches Some(r) && registrant_fields(r) == w.registrant
    } else {
        info.registrant is None
    }
}

struct WhoisDraft {
    registrar: Option<String>,
    creation_date: Option<i64>,
    expiration_date: Option<i64>,
    updated_date: Option<i64>,
    name_servers: Vec<String>,
    status: Vec<String>,
    dnssec: Option<bool>,
    reg: RegistrantInfo,
}

spec fn draft_fields(d: WhoisDraft) -> WhoisFields {
    fields_of(
        d.registrar,
        d.creation_date,
        d.expiration_date,
        d.updated_date,
        d.name_servers@,
        d.status@,
        d.dnssec,
        d.reg,
    )
}

fn push_view(v: &mut Vec<String>, x: String)
    ensures
        string_views(final(v)@) == string_views(old(v)@).push(x@),
{
    let ghost xv = x@;
    v.push(x);
    assert(string_views(v@) =~= string_views(old(v)@).push(xv));
}

fn apply_field_exec(d: &mut WhoisDraft, kind: WhoisKey, value: &str)
    ensures
        draft_fields(*final(d)) == apply_field(draft_fields(*old(d)), kind, value@),
{
    match kind {
        WhoisKey::Registrar => {
            d.registrar = Some(value.to_owned());
        },
        WhoisKey::Created => {
            d.creation_date = parse_date(value);
        },
        WhoisKey::Expires => {
            d.expiration_date = parse_date(value);
        },
        WhoisKey::Updated => {
            d.updated_date = parse_date(value);
        },
        WhoisKey::NameServer => {
            if value.unicode_len() > 0 {
                push_view(&mut d.name_servers, lowercase(value));
            }
        },
        WhoisKey::Status => {
            push_view(&mut d.status, value.to_owned());
        },
        WhoisKey::Dnssec => {
            let lower = lowercase(value);
            d.dnssec = Some(contains_str(lower.as_str(), "signed") || str_eq(lower.as_str(), "yes"));
        },
        WhoisKey::RegistrantName => {
            d.reg.name = Some(value.to_owned());
        },
        WhoisKey::RegistrantOrganization => {
            d.reg.organization = Some(value.to_owned());
        },
        WhoisKey::RegistrantStreet => {
            d.reg.street = Some(value.to_owned());
        },
        WhoisKey::RegistrantCity => {
            d.reg.city = Some(value.to_owned());
        },
        WhoisKey::RegistrantState => {
            d.reg.state = Some(value.to_owned());
        },
        WhoisKey::RegistrantCountry => {
            d.reg.country = Some(value.to_owned());
        },
        WhoisKey::RegistrantPostalCode => {
            d.reg.postal_code = Some(value.to_owned());
        },
        WhoisKey::RegistrantEmail => {
            d.reg.email = Some(value.to_owned());
        },
        WhoisKey::RegistrantPhone => {
            d.reg.phone = Some(value.to_owned());
        },
        WhoisKey::Other => {},
    }
    assert(draft_fields(*d) =~= apply_field(draft_fields(*old(d)), kind, value@));
}

fn apply_line_exec(d: &mut WhoisDraft, line: &str)
    ensures
        draft_fields(*final(d)) == apply_line(draft_fields(*old(d)), line@),
{
    let t = trim_str(line);
    let n = t.unicode_len();
    if n == 0 || t.get_char(0) == '%' || t.get_char(0) == '#' {
        return;
    }
    match find_char(t, ':') {
        None => {},
        Some(p) => {
            let key = lowercase(trim_str(t.substring_char(0, p)));
            let value = trim_str(t.substring_char(p + 1, n));
            apply_field_exec(d, classify_key(key.as_str()), value);
        },
    }
}

impl WhoisLookup {
    /// A lookup with a ten-second timeout.
    pub fn new() -> (r: Self)
        ensures
            r.timeout_secs() == 10,
    {
        WhoisLookup { timeout_secs: 10 }
    }

    pub closed spec fn timeout_secs(&self) -> u64 {
        self.timeout_secs
    }

    /// The query timeout in seconds.
    pub fn timeout(&self) -> (r: u64)
        ensures
            r == self.timeout_secs(),
    {
        self.timeout_secs
    }

    /// Parses a WHOIS response for `domain` into structured data.
    pub fn parse_whois(&self, raw: &str, domain: &str) -> (r: WhoisInfo)
        ensures
            r.domain@ == domain@,
            r.raw_response@ == raw@,
            info_has(r, parsed_whois(raw@)),
    {
        let lines = split_lines(raw);
        let mut d = WhoisDraft {
            registrar: None,
            creation_date: None,
            expiration_date: None,
            updated_date: None,
            name_servers: Vec::new(),
            status: Vec::new(),
            dnssec: None,
            reg: RegistrantInfo {
                name: None,
                organization: None,
                street: None,
                city: None,
                state: None,
                country: None,
                postal_code: None,
                email: None,
                phone: None,
            },
        };
        let ghost ls = lines_of(raw@);
        assert(string_views(d.name_servers@) =~= Seq::<Seq<char>>::empty());
        assert(string_views(d.status@) =~= Seq::<Seq<char>>::empty());
        assert(draft_fields(d) == empty_fields());
        let mut i: usize = 0;
        while i < lines.len()
            invariant
                ls == string_views(lines@),
                i <= lines@.len(),
                draft_fields(d) == apply_lines(empty_fields(), ls.subrange(0, i as int)),
            decreases lines@.len() - i,
        {
            assert(ls.subrange(0, i + 1).drop_last() =~= ls.subrange(0, i as int));
            apply_line_exec(&mut d, lines[i].as_str());
            i = i + 1;
        }
        assert(ls.subrange(0, i as int) =~= ls);
        let keep = d.reg.name.is_some() || d.reg.organization.is_some();
        WhoisInfo {
            domain: domain.to_owned(),
            registrar: d.registrar,
            registrant: if keep {
                Some(d.reg)
            } else {
                None
            },
            creation_date: d.creation_date,
            expiration_date: d.expiration_date,
            updated_date: d.updated_date,
            name_servers: d.name_servers,
            status: d.status,
            dnssec: d.dnssec,
            raw_response: raw.to_owned(),
        }
    }

    /// The WHOIS server for a domain: that of its last dot-separated label.
    pub fn server_for_domain(&self, domain: &str) -> (r: String)
        ensures
            r@ == whois_server(tld_of(domain@), lower_of(tld_of(domain@))),
    {
        self.get_whois_server(top_level_domain(domain))
    }

    /// The WHOIS server for a top-level domain, matched case-insensitively.
    pub fn get_whois_server(&self, tld: &str) -> (r: String)
        ensures
            r@ == whois_server(tld@, lower_of(tld@)),
    {
        let lower = lowercase(tld);
        whois_server_for(tld, lower.as_str())
    }
}

impl Default for WhoisLookup {
    fn default() -> (r: Self)
        ensures
            r.timeout_secs() == 10,
    {
        Self::new()
    }
}

} // verus!
