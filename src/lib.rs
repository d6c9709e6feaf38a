use vstd::prelude::*;

pub mod text;
pub mod threat_intel;
pub mod portscan;
pub mod osint;
pub mod whois;
pub mod navigation;
pub mod qwant;
pub mod ai_engine;
pub mod assistant;
pub mod workforce;
pub mod voip;
pub mod config;
pub mod privacy;
pub mod security;
pub mod ui;
pub mod adblock;
pub mod history;
pub mod bookmarks;

verus! {

} // verus!
