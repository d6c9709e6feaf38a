//! URL-bar routing: internal pages, web addresses and search queries.

use vstd::prelude::*;
use vstd::utf8::encode_utf8;
use crate::text::{concat2, concat3, contains_seq, contains_str, starts_with_seq, starts_with_str, str_eq, trim_str, trimmed};

verus! {

/// Where a URL-bar entry leads.
#[derive(Debug, Clone, PartialEq)]
pub enum NavTarget {
    /// An internal `marshall://` page.
    Internal(String),
    /// A regular HTTP or HTTPS URL.
    Web(String),
    /// A search query routed through the default engine.
    Search(String),
}

/// A byte that percent-encoding leaves as it is.
pub open spec fn is_unreserved(b: u8) -> bool {
    (48 <= b <= 57) || (65 <= b <= 90) || (97 <= b <= 122) || b == 45 || b == 46 || b == 95
        || b == 126
}

/// The upper-case hexadecimal digit of `d`, below 16.
pub open spec fn hex_char(d: u8) -> char {
    if d < 10 {
        crate::text::digit_char(d as nat)
    } else if d == 10 {
        'A'
    } else if d == 11 {
        'B'
    } else if d == 12 {
        'C'
    } else if d == 13 {
        'D'
    } else if d == 14 {
        'E'
    } else {
        'F'
    }
}

/// Percent-encoding of bytes: an unreserved byte stands for itself, any
/// other byte becomes `%` and two upper-case hexadecimal digits.
pub open spec fn percent_encode_bytes(bs: Seq<u8>) -> Seq<char>
    decreases bs.len(),
{
    if bs.len() == 0 {
        seq![]
    } else {
        let b = bs.last();
        percent_encode_bytes(bs.drop_last()) + if is_unreserved(b) {
            seq![b as char]
        } else {
            seq!['%', hex_char(b / 16), hex_char(b % 16)]
        }
    }
}

/// Percent-encoding of the UTF-8 bytes of a string.
pub open spec fn percent_encoded(s: Seq<char>) -> Seq<char> {
    percent_encode_bytes(encode_utf8(s))
}

/// Relies on `urlencoding::encode`: percent-encodes every UTF-8 byte except
/// ASCII letters, digits and `-`, `.`, `_`, `~`, with upper-case digits.
#[verifier::external_body]
fn url_encode(s: &str) -> (r: String)
    ensures
        r@ == percent_encoded(s@),
{
    urlencoding::encode(s).into_owned()
}

pub open spec fn search_prefix() -> Seq<char> {
    "https://duckduckgo.com/?q="@
}

pub open spec fn search_suffix() -> Seq<char> {
    "&kae=d&k1=-1&kaj=m&kam=osm&kp=-2"@
}

/// `r` is where the trimmed entry `t` leads, `encoded` being `t`
/// percent-encoded.
pub open spec fn routes_to(t: Seq<char>, encoded: Seq<char>, r: NavTarget) -> bool {
    if t.len() == 0 || t == "marshall:home"@ {
        r matches NavTarget::Internal(s) && s@ == "marshall://home"@
    } else if starts_with_seq(t, "marshall://"@) {
        r matches NavTarget::Internal(s) && s@ == t
    } else if starts_with_seq(t, "http://"@) || starts_with_seq(t, "https://"@) {
        r matches NavTarget::Web(s) && s@ == t
    } else if contains_seq(t, "."@) && !contains_seq(t, " "@) {
        r matches NavTarget::Web(s) && s@ == "https://"@ + t
    } else {
        r matches NavTarget::Search(s) && s@ == search_prefix() + encoded + search_suffix()
    }
}

/// Routes an already trimmed entry `t` whose percent-encoding is `encoded`.
pub fn route(t: &str, encoded: &str) -> (r: NavTarget)
    ensures
        routes_to(t@, encoded@, r),
{
    if t.unicode_len() == 0 || str_eq(t, "marshall:home") {
        NavTarget::Internal("marshall://home".to_owned())
    } else if starts_with_str(t, "marshall://") {
        NavTarget::Internal(t.to_owned())
    } else if starts_with_str(t, "http://") || starts_with_str(t, "https://") {
        NavTarget::Web(t.to_owned())
    } else if contains_str(t, ".") && !contains_str(t, " ") {
        NavTarget::Web(concat2("https://", t))
    } else {
        NavTarget::Search(
            concat3("https://duckduckgo.com/?q=", encoded, "&kae=d&k1=-1&kaj=m&kam=osm&kp=-2"),
        )
    }
}

/// Routes a raw URL-bar entry.
pub fn resolve(input: &str) -> (r: NavTarget)
    ensures
        routes_to(trimmed(input@), percent_encoded(trimmed(input@)), r),
{
    let t = trim_str(input);
    let encoded = url_encode(t);
    route(t, encoded.as_str())
}

/// Whether a URI is an internal `marshall://` page.
pub fn is_internal(uri: &str) -> (r: bool)
    ensures
        r == starts_with_seq(uri@, "marshall://"@),
{
    starts_with_str(uri, "marshall://")
}

/// The back/forward history of internal pages.
pub struct InternalHistory {
    entries: Vec<String>,
    current: usize,
}

impl InternalHistory {
    /// The pages, oldest first.
    pub closed spec fn pages(&self) -> Seq<Seq<char>> {
        self.entries@.map_values(|s: String| s@)
    }

    /// The position of the current page; -1 when there is none.
    pub closed spec fn position(&self) -> int {
        if self.entries@.len() == 0 {
            -1
        } else {
            self.current as int
        }
    }

    pub closed spec fn wf(&self) -> bool {
        self.entries@.len() > 0 ==> self.current < self.entries@.len()
    }

    pub fn new() -> (r: Self)
        ensures
            r.wf(),
            r.pages() == Seq::<Seq<char>>::empty(),
            r.position() == -1,
    {
        let r = InternalHistory { entries: Vec::new(), current: 0 };
        assert(r.pages() =~= Seq::<Seq<char>>::empty());
        r
    }

    /// Visits `uri`: the pages after the current one are dropped, and `uri`
    /// is added unless it is already the last page, which becomes current.
    pub fn push(&mut self, uri: &str)
        requires
            old(self).wf(),
        ensures
            final(self).wf(),
            ({
                let kept = old(self).pages().subrange(0, old(self).position() + 1);
                let pages = if kept.len() > 0 && kept.last() == uri@ {
                    kept
                } else {
                    kept.push(uri@)
                };
                final(self).pages() == pages && final(self).position() == pages.len() - 1
            }),
    {
        let ghost old_pages = self.pages();
        if self.entries.len() > 0 && self.current < self.entries.len() - 1 {
            self.entries.truncate(self.current + 1);
        }
        let ghost kept = self.pages();
        assert(kept =~= old_pages.subrange(0, old(self).position() + 1));
        let n = self.entries.len();
        if n == 0 || !str_eq(self.entries[n - 1].as_str(), uri) {
            self.entries.push(uri.to_owned());
            assert(self.pages() =~= kept.push(uri@));
        }
        self.current = self.entries.len() - 1;
    }

    pub fn can_go_back(&self) -> (r: bool)
        requires
            self.wf(),
        ensures
            r == (self.position() > 0),
    {
        self.entries.len() > 0 && self.current > 0
    }

    pub fn can_go_forward(&self) -> (r: bool)
        requires
            self.wf(),
        ensures
            r == (self.position() >= 0 && self.position() < self.pages().len() - 1),
    {
        self.entries.len() > 0 && self.current < self.entries.len() - 1
    }

    /// Moves to the previous page and returns it, if there is one.
    pub fn go_back(&mut self) -> (r: Option<String>)
        requires
            old(self).wf(),
        ensures
            final(self).wf(),
            final(self).pages() == old(self).pages(),
            old(self).position() > 0 ==> (final(self).position() == old(self).position() - 1
                && (r matches Some(p) && p@ == old(self).pages()[old(self).position() - 1])),
            old(self).position() <= 0 ==> final(self).position() == old(self).position() && r is None,
    {
        if self.entries.len() > 0 && self.current > 0 {
            self.current = self.current - 1;
            Some(self.entries[self.current].clone())
        } else {
            None
        }
    }

    /// Moves to the next page and returns it, if there is one.
    pub fn go_forward(&mut self) -> (r: Option<String>)
        requires
            old(self).wf(),
        ensures
            final(self).wf(),
            final(self).pages() == old(self).pages(),
            (old(self).position() >= 0 && old(self).position() < old(self).pages().len() - 1)
                ==> (final(self).position() == old(self).position() + 1 && (r matches Some(p)
                && p@ == old(self).pages()[old(self).position() + 1])),
            !(old(self).position() >= 0 && old(self).position() < old(self).pages().len() - 1)
                ==> final(self).position() == old(self).position() && r is None,
    {
        if self.entries.len() > 0 && self.current < self.entries.len() - 1 {
            self.current = self.current + 1;
            Some(self.entries[self.current].clone())
        } else {
            None
        }
    }
}

} // verus!
