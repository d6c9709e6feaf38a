//! Browser hardening: anti-fingerprinting, process isolation, memory and
//! traffic protection.

use vstd::prelude::*;
use crate::config::PrivacyConfig;
use crate::text::{decimal, decimal_string};

verus! {

/// Relies on `rand::Rng::gen_range` over `rand::thread_rng()`: a value in
/// `lo..hi`, which must not be empty (it panics on an empty range).
#[verifier::external_body]
fn random_in_range(lo: usize, hi: usize) -> (r: usize)
    requires
        lo < hi,
    ensures
        lo <= r < hi,
{
    rand::Rng::gen_range(&mut rand::thread_rng(), lo..hi)
}

/// Screen resolutions common enough to hide among.
pub open spec fn common_resolutions() -> Seq<(u32, u32)> {
    seq![(1920u32, 1080u32), (2560u32, 1440u32), (1366u32, 768u32), (1536u32, 864u32), (1440u32, 900u32), (1680u32, 1050u32), (1280u32, 720u32), (1600u32, 900u32)]
}

/// Hardware concurrency values typical of mid-range to high-end machines.
pub open spec fn common_core_counts() -> Seq<u32> {
    seq![4u32, 6u32, 8u32, 12u32, 16u32]
}

/// Common, high-entropy user agents across OS and browser combinations.
pub open spec fn rotation_agents() -> Seq<Seq<char>> {
    seq![
        "Mozilla/5.0 (Windows NT 10.0; Win64; x64) AppleWebKit/537.36 (KHTML, like Gecko) Chrome/124.0.0.0 Safari/537.36"@,
        "Mozilla/5.0 (Windows NT 10.0; Win64; x64) AppleWebKit/537.36 (KHTML, like Gecko) Chrome/123.0.0.0 Safari/537.36"@,
        "Mozilla/5.0 (Macintosh; Intel Mac OS X 10_15_7) AppleWebKit/537.36 (KHTML, like Gecko) Chrome/124.0.0.0 Safari/537.36"@,
        "Mozilla/5.0 (Macintosh; Intel Mac OS X 14_4) AppleWebKit/537.36 (KHTML, like Gecko) Chrome/124.0.0.0 Safari/537.36"@,
        "Mozilla/5.0 (X11; Linux x86_64) AppleWebKit/537.36 (KHTML, like Gecko) Chrome/124.0.0.0 Safari/537.36"@,
        "Mozilla/5.0 (Windows NT 10.0; Win64; x64; rv:125.0) Gecko/20100101 Firefox/125.0"@,
        "Mozilla/5.0 (Windows NT 10.0; Win64; x64; rv:124.0) Gecko/20100101 Firefox/124.0"@,
        "Mozilla/5.0 (Macintosh; Intel Mac OS X 10.15; rv:125.0) Gecko/20100101 Firefox/125.0"@,
        "Mozilla/5.0 (X11; Linux x86_64; rv:125.0) Gecko/20100101 Firefox/125.0"@,
        "Mozilla/5.0 (Windows NT 10.0; Win64; x64) AppleWebKit/537.36 (KHTML, like Gecko) Chrome/124.0.0.0 Safari/537.36 Edg/124.0.0.0"@,
        "Mozilla/5.0 (Macintosh; Intel Mac OS X 10_15_7) AppleWebKit/605.1.15 (KHTML, like Gecko) Version/17.4 Safari/605.1.15"@,
        "Mozilla/5.0 (Macintosh; Intel Mac OS X 14_4) AppleWebKit/605.1.15 (KHTML, like Gecko) Version/17.4 Safari/605.1.15"@,
    ]
}

fn resolution_at(i: usize) -> (r: (u32, u32))
    requires
        i < 8,
    ensures
        r == common_resolutions()[i as int],
{
    match i {
        0 => (1920, 1080),
        1 => (2560, 1440),
        2 => (1366, 768),
        3 => (1536, 864),
        4 => (1440, 900),
        5 => (1680, 1050),
        6 => (1280, 720),
        _ => (1600, 900),
    }
}

fn core_count_at(i: usize) -> (r: u32)
    requires
        i < 5,
    ensures
        r == common_core_counts()[i as int],
{
    match i {
        0 => 4,
        1 => 6,
        2 => 8,
        3 => 12,
        _ => 16,
    }
}

fn agent_at(i: usize) -> (r: &'static str)
    requires
        i < 12,
    ensures
        r@ == rotation_agents()[i as int],
{
    match i {
        0 => "Mozilla/5.0 (Windows NT 10.0; Win64; x64) AppleWebKit/537.36 (KHTML, like Gecko) Chrome/124.0.0.0 Safari/537.36",
        1 => "Mozilla/5.0 (Windows NT 10.0; Win64; x64) AppleWebKit/537.36 (KHTML, like Gecko) Chrome/123.0.0.0 Safari/537.36",
        2 => "Mozilla/5.0 (Macintosh; Intel Mac OS X 10_15_7) AppleWebKit/537.36 (KHTML, like Gecko) Chrome/124.0.0.0 Safari/537.36",
        3 => "Mozilla/5.0 (Macintosh; Intel Mac OS X 14_4) AppleWebKit/537.36 (KHTML, like Gecko) Chrome/124.0.0.0 Safari/537.36",
        4 => "Mozilla/5.0 (X11; Linux x86_64) AppleWebKit/537.36 (KHTML, like Gecko) Chrome/124.0.0.0 Safari/537.36",
        5 => "Mozilla/5.0 (Windows NT 10.0; Win64; x64; rv:125.0) Gecko/20100101 Firefox/125.0",
        6 => "Mozilla/5.0 (Windows NT 10.0; Win64; x64; rv:124.0) Gecko/20100101 Firefox/124.0",
        7 => "Mozilla/5.0 (Macintosh; Intel Mac OS X 10.15; rv:125.0) Gecko/20100101 Firefox/125.0",
        8 => "Mozilla/5.0 (X11; Linux x86_64; rv:125.0) Gecko/20100101 Firefox/125.0",
        9 => "Mozilla/5.0 (Windows NT 10.0; Win64; x64) AppleWebKit/537.36 (KHTML, like Gecko) Chrome/124.0.0.0 Safari/537.36 Edg/124.0.0.0",
        10 => "Mozilla/5.0 (Macintosh; Intel Mac OS X 10_15_7) AppleWebKit/605.1.15 (KHTML, like Gecko) Version/17.4 Safari/605.1.15",
        _ => "Mozilla/5.0 (Macintosh; Intel Mac OS X 14_4) AppleWebKit/605.1.15 (KHTML, like Gecko) Version/17.4 Safari/605.1.15",
    }
}

/// The request headers sent in place of the browser's own.
pub open spec fn spoofed_headers(user_agent: Seq<char>, language: Seq<char>) -> Seq<(Seq<char>, Seq<char>)> {
    seq![
        ("User-Agent"@, user_agent),
        ("Accept-Language"@, language),
        ("Accept-Encoding"@, "gzip, deflate, br"@),
        ("Accept"@, "text/html,application/xhtml+xml,application/xml;q=0.9,image/avif,image/webp,*/*;q=0.8"@),
        ("Sec-Fetch-Dest"@, "document"@),
        ("Sec-Fetch-Mode"@, "navigate"@),
        ("Sec-Fetch-Site"@, "none"@),
        ("Sec-Fetch-User"@, "?1"@),
        ("DNT"@, "1"@),
        ("Sec-GPC"@, "1"@),
    ]
}

/// An integer in decimal, with a leading minus sign when negative.
pub open spec fn signed_decimal(i: int) -> Seq<char> {
    if i < 0 {
        "-"@ + decimal((-i) as nat)
    } else {
        decimal(i as nat)
    }
}

fn signed_decimal_string(i: i32) -> (r: String)
    ensures
        r@ == signed_decimal(i as int),
{
    if i < 0 {
        let mut s = "-".to_owned();
        let d = decimal_string((-(i as i64)) as u128);
        s.append(d.as_str());
        s
    } else {
        decimal_string(i as u128)
    }
}

pub const SCRIPT_PART_0: &'static str = r#"
            (function() {
                Object.defineProperty(navigator, 'hardwareConcurrency', { get: () => "#;

pub const SCRIPT_PART_1: &'static str = r#" });
                Object.defineProperty(screen, 'width',  { get: () => "#;

pub const SCRIPT_PART_2: &'static str = r#" });
                Object.defineProperty(screen, 'height', { get: () => "#;

pub const SCRIPT_PART_3: &'static str = r#" });
                Object.defineProperty(screen, 'availWidth',  { get: () => "#;

pub const SCRIPT_PART_4: &'static str = r#" });
                Object.defineProperty(screen, 'availHeight', { get: () => "#;

pub const SCRIPT_PART_5: &'static str = r#" });
                Object.defineProperty(navigator, 'deviceMemory', { get: () => 8 });
                Object.defineProperty(navigator, 'maxTouchPoints', { get: () => 0 });
                const origGetTimezoneOffset = Date.prototype.getTimezoneOffset;
                Date.prototype.getTimezoneOffset = function() { return "#;

pub const SCRIPT_PART_6: &'static str = r#"; };
                const origToDataURL = HTMLCanvasElement.prototype.toDataURL;
                HTMLCanvasElement.prototype.toDataURL = function(type) {
                    const ctx = this.getContext('2d');
                    if (ctx) {
                        const imageData = ctx.getImageData(0, 0, this.width, this.height);
                        for (let i = 0; i < imageData.data.length; i += 4) {
                            imageData.data[i] ^= 1;
                        }
                        ctx.putImageData(imageData, 0, 0);
                    }
                    return origToDataURL.apply(this, arguments);
                };
            })();
            "#;

/// The script that makes pages see the spoofed hardware, screen and
/// timezone, and adds noise to canvas exports.
pub open spec fn spoofing_script(cores: u32, res: (u32, u32), tz: i32) -> Seq<char> {
    SCRIPT_PART_0@ + decimal(cores as nat) + SCRIPT_PART_1@ + decimal(res.0 as nat) + SCRIPT_PART_2@
        + decimal(res.1 as nat) + SCRIPT_PART_3@ + decimal(res.0 as nat) + SCRIPT_PART_4@
        + decimal(res.1 as nat) + SCRIPT_PART_5@ + signed_decimal(tz as int) + SCRIPT_PART_6@
}

/// Anti-fingerprinting: a user agent, screen and core count drawn once per
/// session from common values.
pub struct AntiFingerprintEngine {
    user_agent: String,
    accept_language: String,
    screen_resolution: (u32, u32),
    hardware_concurrency: u32,
    timezone_offset: i32,
}

impl AntiFingerprintEngine {
    pub closed spec fn agent(&self) -> Seq<char> {
        self.user_agent@
    }

    pub closed spec fn language(&self) -> Seq<char> {
        self.accept_language@
    }

    pub closed spec fn resolution(&self) -> (u32, u32) {
        self.screen_resolution
    }

    pub closed spec fn cores(&self) -> u32 {
        self.hardware_concurrency
    }

    pub closed spec fn tz_offset(&self) -> i32 {
        self.timezone_offset
    }

    /// An engine with values drawn at random from the common lists, the
    /// `en-US` language and UTC.
    pub fn new() -> (r: Self)
        ensures
            rotation_agents().contains(r.agent()),
            common_resolutions().contains(r.resolution()),
            common_core_counts().contains(r.cores()),
            r.language() == "en-US,en;q=0.9"@,
            r.tz_offset() == 0,
    {
        let res = resolution_at(random_in_range(0, 8));
        let cores = core_count_at(random_in_range(0, 5));
        let ua = Self::generate_user_agent();
        let r = AntiFingerprintEngine {
            user_agent: ua,
            accept_language: "en-US,en;q=0.9".to_owned(),
            screen_resolution: res,
            hardware_concurrency: cores,
            timezone_offset: 0,
        };
        r
    }

    fn generate_user_agent() -> (r: String)
        ensures
            rotation_agents().contains(r@),
    {
        let i = random_in_range(0, 12);
        let a = agent_at(i);
        assert(rotation_agents()[i as int] == a@);
        a.to_owned()
    }

    /// The request headers that replace the browser's own.
    pub fn get_spoofed_headers(&self) -> (r: Vec<(String, String)>)
        ensures
            r@.map_values(|h: (String, String)| (h.0@, h.1@)) == spoofed_headers(
                self.agent(),
                self.language(),
            ),
    {
        let mut v: Vec<(String, String)> = Vec::new();
        v.push(("User-Agent".to_owned(), self.user_agent.clone()));
        v.push(("Accept-Language".to_owned(), self.accept_language.clone()));
        v.push(("Accept-Encoding".to_owned(), "gzip, deflate, br".to_owned()));
        v.push(("Accept".to_owned(), "text/html,application/xhtml+xml,application/xml;q=0.9,image/avif,image/webp,*/*;q=0.8".to_owned()));
        v.push(("Sec-Fetch-Dest".to_owned(), "document".to_owned()));
        v.push(("Sec-Fetch-Mode".to_owned(), "navigate".to_owned()));
        v.push(("Sec-Fetch-Site".to_owned(), "none".to_owned()));
        v.push(("Sec-Fetch-User".to_owned(), "?1".to_owned()));
        v.push(("DNT".to_owned(), "1".to_owned()));
        v.push(("Sec-GPC".to_owned(), "1".to_owned()));
        assert(v@.map_values(|h: (String, String)| (h.0@, h.1@)) =~= spoofed_headers(
            self.agent(),
            self.language(),
        ));
        v
    }

    /// JavaScript to inject into pages that spoofs navigator properties.
    pub fn generate_spoofing_script(&self) -> (r: String)
        ensures
            r@ == spoofing_script(self.cores(), self.resolution(), self.tz_offset()),
    {
        let cores = decimal_string(self.hardware_concurrency as u128);
        let sw = decimal_string(self.screen_resolution.0 as u128);
        let sh = decimal_string(self.screen_resolution.1 as u128);
        let tz = signed_decimal_string(self.timezone_offset);
        let mut s = SCRIPT_PART_0.to_owned();
        s.append(cores.as_str());
        s.append(SCRIPT_PART_1);
        s.append(sw.as_str());
        s.append(SCRIPT_PART_2);
        s.append(sh.as_str());
        s.append(SCRIPT_PART_3);
        s.append(sw.as_str());
        s.append(SCRIPT_PART_4);
        s.append(sh.as_str());
        s.append(SCRIPT_PART_5);
        s.append(tz.as_str());
        s.append(SCRIPT_PART_6);
        s
    }

    pub fn user_agent(&self) -> (r: &str)
        ensures
            r@ == self.agent(),
    {
        self.user_agent.as_str()
    }

    pub fn screen_resolution(&self) -> (r: (u32, u32))
        ensures
            r == self.resolution(),
    {
        self.screen_resolution
    }
}

/// Process isolation and sandboxing.
pub struct ProcessIsolation {
    enabled: bool,
}

impl ProcessIsolation {
    pub closed spec fn is_enabled(&self) -> bool {
        self.enabled
    }

    pub fn new() -> (r: Self)
        ensures
            r.is_enabled(),
    {
        ProcessIsolation { enabled: true }
    }

    /// Sets up the sandbox; the syscall filter is installed first.
    pub fn setup_sandbox(&self) -> (r: Result<(), String>)
        ensures
            r is Ok,
    {
        self.setup_seccomp()
    }

    /// Restricts dangerous syscalls.
    pub fn setup_seccomp(&self) -> (r: Result<(), String>)
        ensures
            r is Ok,
    {
        Ok(())
    }
}

/// Memory protection features.
pub struct MemoryProtection {
    enabled: bool,
}

impl MemoryProtection {
    pub closed spec fn is_enabled(&self) -> bool {
        self.enabled
    }

    pub fn new() -> (r: Self)
        ensures
            r.is_enabled(),
    {
        MemoryProtection { enabled: true }
    }
}

/// Traffic analysis protection: request padding and timing jitter.
pub struct TrafficProtection {
    padding_enabled: bool,
    timing_jitter: bool,
}

impl TrafficProtection {
    pub closed spec fn pads(&self) -> bool {
        self.padding_enabled
    }

    pub closed spec fn jitters(&self) -> bool {
        self.timing_jitter
    }

    pub fn new() -> (r: Self)
        ensures
            r.pads(),
            r.jitters(),
    {
        TrafficProtection { padding_enabled: true, timing_jitter: true }
    }

    /// The request followed by 64 to 511 zero bytes of padding, or the
    /// request as it is when padding is off.
    pub fn pad_request(&self, data: &[u8]) -> (r: Vec<u8>)
        ensures
            !self.pads() ==> r@ == data@,
            self.pads() ==> data@.len() + 64 <= r@.len() < data@.len() + 512,
            self.pads() ==> r@.subrange(0, data@.len() as int) == data@,
            forall|i: int| data@.len() <= i < r@.len() ==> r@[i] == 0,
    {
        let mut padded: Vec<u8> = Vec::new();
        let mut i: usize = 0;
        while i < data.len()
            invariant
                i <= data@.len(),
                padded@ == data@.subrange(0, i as int),
            decreases data@.len() - i,
        {
            padded.push(data[i]);
            i = i + 1;
        }
        assert(data@.subrange(0, data@.len() as int) =~= data@);
        if !self.padding_enabled {
            return padded;
        }
        let padding = random_in_range(64, 512);
        let mut k: usize = 0;
        while k < padding
            invariant
                k <= padding,
                padded@.len() == data@.len() + k,
                padded@.subrange(0, data@.len() as int) == data@,
                forall|j: int| data@.len() <= j < padded@.len() ==> padded@[j] == 0,
            decreases padding - k,
        {
            padded.push(0);
            assert(padded@.subrange(0, data@.len() as int) =~= data@);
            k = k + 1;
        }
        padded
    }

    /// How long to wait before a request, in milliseconds: 10 to 99 when
    /// jitter is on, none when it is off.
    pub fn timing_jitter_ms(&self) -> (r: Option<u64>)
        ensures
            !self.jitters() ==> r is None,
            self.jitters() ==> (r matches Some(ms) && 10 <= ms < 100),
    {
        if !self.timing_jitter {
            return None;
        }
        Some(random_in_range(10, 100) as u64)
    }
}

/// Hardened user agents, one of which a web view presents per session.
pub open spec fn hardened_agents() -> Seq<Seq<char>> {
    seq![
        "Mozilla/5.0 (Windows NT 10.0; Win64; x64) AppleWebKit/537.36 (KHTML, like Gecko) Chrome/124.0.0.0 Safari/537.36"@,
        "Mozilla/5.0 (Macintosh; Intel Mac OS X 10_15_7) AppleWebKit/537.36 (KHTML, like Gecko) Chrome/124.0.0.0 Safari/537.36"@,
        "Mozilla/5.0 (X11; Linux x86_64) AppleWebKit/537.36 (KHTML, like Gecko) Chrome/124.0.0.0 Safari/537.36"@,
        "Mozilla/5.0 (Windows NT 10.0; Win64; x64; rv:125.0) Gecko/20100101 Firefox/125.0"@,
        "Mozilla/5.0 (Macintosh; Intel Mac OS X 10.15; rv:125.0) Gecko/20100101 Firefox/125.0"@,
        "Mozilla/5.0 (X11; Linux x86_64; rv:125.0) Gecko/20100101 Firefox/125.0"@,
        "Mozilla/5.0 (Windows NT 10.0; Win64; x64) AppleWebKit/537.36 (KHTML, like Gecko) Chrome/124.0.0.0 Safari/537.36 Edg/124.0.0.0"@,
        "Mozilla/5.0 (Macintosh; Intel Mac OS X 10_15_7) AppleWebKit/605.1.15 (KHTML, like Gecko) Version/17.4 Safari/605.1.15"@,
    ]
}

fn hardened_agent_at(i: usize) -> (r: &'static str)
    requires
        i < 8,
    ensures
        r@ == hardened_agents()[i as int],
{
    match i {
        0 => "Mozilla/5.0 (Windows NT 10.0; Win64; x64) AppleWebKit/537.36 (KHTML, like Gecko) Chrome/124.0.0.0 Safari/537.36",
        1 => "Mozilla/5.0 (Macintosh; Intel Mac OS X 10_15_7) AppleWebKit/537.36 (KHTML, like Gecko) Chrome/124.0.0.0 Safari/537.36",
        2 => "Mozilla/5.0 (X11; Linux x86_64) AppleWebKit/537.36 (KHTML, like Gecko) Chrome/124.0.0.0 Safari/537.36",
        3 => "Mozilla/5.0 (Windows NT 10.0; Win64; x64; rv:125.0) Gecko/20100101 Firefox/125.0",
        4 => "Mozilla/5.0 (Macintosh; Intel Mac OS X 10.15; rv:125.0) Gecko/20100101 Firefox/125.0",
        5 => "Mozilla/5.0 (X11; Linux x86_64; rv:125.0) Gecko/20100101 Firefox/125.0",
        6 => "Mozilla/5.0 (Windows NT 10.0; Win64; x64) AppleWebKit/537.36 (KHTML, like Gecko) Chrome/124.0.0.0 Safari/537.36 Edg/124.0.0.0",
        _ => "Mozilla/5.0 (Macintosh; Intel Mac OS X 10_15_7) AppleWebKit/605.1.15 (KHTML, like Gecko) Version/17.4 Safari/605.1.15",
    }
}

/// Web view settings: privacy switches and the session's user agent.
pub struct WebViewManager {
    privacy_strict: bool,
    block_fingerprinting: bool,
    block_third_party_cookies: bool,
    user_agent: String,
}

impl WebViewManager {
    pub closed spec fn agent(&self) -> Seq<char> {
        self.user_agent@
    }

    pub closed spec fn strict(&self) -> bool {
        self.privacy_strict
    }

    pub closed spec fn blocks_fingerprinting(&self) -> bool {
        self.block_fingerprinting
    }

    pub closed spec fn blocks_third_party_cookies(&self) -> bool {
        self.block_third_party_cookies
    }

    /// Settings taken from the privacy configuration, with a hardened user
    /// agent drawn at random.
    pub fn from_config(privacy: &PrivacyConfig) -> (r: Self)
        ensures
            r.strict() == privacy.strict_mode,
            r.blocks_fingerprinting() == privacy.block_fingerprinting,
            r.blocks_third_party_cookies() == privacy.block_third_party_cookies,
            hardened_agents().contains(r.agent()),
    {
        let i = random_in_range(0, 8);
        let a = hardened_agent_at(i);
        assert(hardened_agents()[i as int] == a@);
        WebViewManager {
            privacy_strict: privacy.strict_mode,
            block_fingerprinting: privacy.block_fingerprinting,
            block_third_party_cookies: privacy.block_third_party_cookies,
            user_agent: a.to_owned(),
        }
    }

    /// The current spoofed user agent.
    pub fn user_agent(&self) -> (r: &str)
        ensures
            r@ == self.agent(),
    {
        self.user_agent.as_str()
    }
}

impl Default for WebViewManager {
    /// Strict settings with the first hardened user agent.
    fn default() -> (r: Self)
        ensures
            r.strict() && r.blocks_fingerprinting() && r.blocks_third_party_cookies(),
            r.agent() == hardened_agents()[0],
    {
        WebViewManager {
            privacy_strict: true,
            block_fingerprinting: true,
            block_third_party_cookies: true,
            user_agent: hardened_agent_at(0).to_owned(),
        }
    }
}

} // verus!
