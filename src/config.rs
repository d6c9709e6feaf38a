//! Browser configuration sections.

use vstd::prelude::*;

verus! {

#[derive(Debug, Clone)]
pub struct GeneralConfig {
    pub homepage: String,
    pub search_engine: String,
    pub download_dir: String,
    pub restore_session: bool,
    pub enable_javascript: bool,
    pub enable_images: bool,
    pub enable_webgl: bool,
}

#[derive(Debug, Clone)]
pub struct PrivacyConfig {
    pub strict_mode: bool,
    pub block_trackers: bool,
    pub block_fingerprinting: bool,
    pub block_third_party_cookies: bool,
    pub clear_on_exit: bool,
    pub do_not_track: bool,
    pub referrer_policy: String,
    pub user_agent: Option<String>,
    pub spoof_timezone: bool,
    pub spoof_language: bool,
}

#[derive(Debug, Clone)]
pub struct AdblockConfig {
    pub enabled: bool,
    pub filter_lists: Vec<String>,
    pub custom_rules: Vec<String>,
    pub whitelist: Vec<String>,
}

#[derive(Debug, Clone)]
pub struct NetworkConfig {
    pub proxy: Option<ProxyConfig>,
    pub tor_enabled: bool,
    pub dns_over_https: bool,
    pub doh_server: String,
    pub timeout_seconds: u64,
}

#[derive(Debug, Clone)]
pub struct ProxyConfig {
    pub protocol: String,
    pub host: String,
    pub port: u16,
    pub username: Option<String>,
    pub password: Option<String>,
}

#[derive(Debug, Clone)]
pub struct KeybindingsConfig {
    pub new_tab: String,
    pub close_tab: String,
    pub reload: String,
    pub back: String,
    pub forward: String,
    pub find: String,
    pub zoom_in: String,
    pub zoom_out: String,
    pub zoom_reset: String,
    pub developer_tools: String,
    pub private_window: String,
}

/// Search configuration.
#[derive(Debug, Clone)]
pub struct SearchConfig {
    pub qwant_enabled: bool,
    pub whois_enabled: bool,
    pub portscan_enabled: bool,
    pub vuln_scan_enabled: bool,
    pub exploit_lookup_enabled: bool,
    pub safe_search: bool,
    pub region: String,
    pub max_results: usize,
    pub timeout_seconds: u64,
}

/// Security configuration.
#[derive(Debug, Clone)]
pub struct SecurityConfig {
    /// Enable process isolation.
    pub isolation_enabled: bool,
    /// Enable anti-fingerprinting.
    pub anti_fingerprint: bool,
    /// Enable traffic analysis protection.
    pub traffic_padding: bool,
    /// Enable memory protection.
    pub memory_protection: bool,
    /// Block WebRTC leaks.
    pub block_webrtc: bool,
    /// Randomize the canvas fingerprint.
    pub canvas_noise: bool,
    /// Spoof the WebGL renderer.
    pub webgl_spoof: bool,
    /// Resist timezone fingerprinting.
    pub timezone_spoof: bool,
}

impl Default for SearchConfig {
    /// Every source on, safe search off, `en_US`, 50 results, 30 seconds.
    fn default() -> (r: Self)
        ensures
            r.qwant_enabled && r.whois_enabled && r.portscan_enabled && r.vuln_scan_enabled
                && r.exploit_lookup_enabled,
            !r.safe_search,
            r.region@ == "en_US"@,
            r.max_results == 50,
            r.timeout_seconds == 30,
    {
        SearchConfig {
            qwant_enabled: true,
            whois_enabled: true,
            portscan_enabled: true,
            vuln_scan_enabled: true,
            exploit_lookup_enabled: true,
            safe_search: false,
            region: "en_US".to_owned(),
            max_results: 50,
            timeout_seconds: 30,
        }
    }
}

impl Default for SecurityConfig {
    /// Every protection on except timezone spoofing.
    fn default() -> (r: Self)
        ensures
            r.isolation_enabled && r.anti_fingerprint && r.traffic_padding && r.memory_protection
                && r.block_webrtc && r.canvas_noise && r.webgl_spoof,
            !r.timezone_spoof,
    {
        SecurityConfig {
            isolation_enabled: true,
            anti_fingerprint: true,
            traffic_padding: true,
            memory_protection: true,
            block_webrtc: true,
            canvas_noise: true,
            webgl_spoof: true,
            timezone_spoof: false,
        }
    }
}

} // verus!
