//! Style sheets of the browser chrome.

use vstd::prelude::*;
use crate::text::str_eq;

verus! {

/// The dark style sheet.
pub const DARK_THEME_CSS: &'static str = r#"
/* ═══════════════════════════════════════════════════════════════
   MARSHALL BROWSER - NULLSEC DARK THEME
   bad-antics | 2026
   ═══════════════════════════════════════════════════════════════ */

/* Color Variables */
@define-color bg_color #0d0d0d;
@define-color bg_secondary #1a1a1a;
@define-color bg_tertiary #252525;
@define-color fg_color #e0e0e0;
@define-color fg_secondary #808080;
@define-color accent_color #ff0040;
@define-color accent_secondary #00ff88;
@define-color border_color #333333;
@define-color success_color #00ff88;
@define-color warning_color #ffaa00;
@define-color error_color #ff4444;

/* Main Window */
window {
    background-color: @bg_color;
    color: @fg_color;
}

.marshall-main {
    background-color: @bg_color;
}

/* Toolbar */
.marshall-toolbar {
    background: linear-gradient(to bottom, @bg_secondary, @bg_color);
    border-bottom: 1px solid @border_color;
    padding: 6px 8px;
}

.toolbar-btn {
    background: transparent;
    border: none;
    border-radius: 4px;
    padding: 6px 8px;
    color: @fg_color;
    min-width: 32px;
    min-height: 32px;
}

.toolbar-btn:hover {
    background-color: @bg_tertiary;
}

.toolbar-btn:active {
    background-color: @accent_color;
}

.nav-btn {
    margin: 0 2px;
}

/* Shield Button */
.shield-btn.shield-active {
    color: @success_color;
}

.shield-btn.shield-inactive {
    color: @error_color;
}

/* URL Bar */
.marshall-urlbar {
    background-color: @bg_tertiary;
    border: 1px solid @border_color;
    border-radius: 20px;
    padding: 4px 12px;
    margin: 0 8px;
}

.marshall-urlbar:focus-within {
    border-color: @accent_color;
    box-shadow: 0 0 0 2px alpha(@accent_color, 0.2);
}

.url-entry {
    background: transparent;
    border: none;
    color: @fg_color;
    font-family: "JetBrains Mono", monospace;
    font-size: 13px;
}

.url-entry:focus {
    outline: none;
}

.security-icon {
    margin-right: 8px;
    color: @fg_secondary;
}

.security-icon.secure {
    color: @success_color;
}

.security-icon.insecure {
    color: @error_color;
}

/* Tab Bar */
.marshall-tabbar {
    background-color: @bg_secondary;
    border-bottom: 1px solid @border_color;
    padding: 4px 4px 0 4px;
}

.marshall-notebook {
    background: transparent;
}

.marshall-notebook tab {
    background-color: @bg_tertiary;
    border: 1px solid @border_color;
    border-bottom: none;
    border-radius: 8px 8px 0 0;
    padding: 6px 12px;
    margin: 0 2px;
    color: @fg_secondary;
}

.marshall-notebook tab:checked {
    background-color: @bg_color;
    color: @fg_color;
    border-bottom: 2px solid @accent_color;
}

.marshall-notebook tab:hover:not(:checked) {
    background-color: alpha(@accent_color, 0.1);
}

.marshall-tab {
    padding: 4px 8px;
}

.tab-favicon {
    margin-right: 6px;
}

.tab-label {
    font-size: 12px;
}

.tab-close-btn {
    background: transparent;
    border: none;
    border-radius: 50%;
    padding: 2px;
    margin-left: 6px;
    opacity: 0.5;
    min-width: 16px;
    min-height: 16px;
}

.tab-close-btn:hover {
    background-color: @error_color;
    opacity: 1;
}

.new-tab-btn {
    background: transparent;
    border: none;
    border-radius: 4px;
    padding: 6px;
    margin: 4px;
    color: @fg_secondary;
}

.new-tab-btn:hover {
    background-color: @bg_tertiary;
    color: @accent_color;
}

/* Status Bar */
.marshall-statusbar {
    background-color: @bg_secondary;
    border-top: 1px solid @border_color;
    padding: 4px 12px;
    font-size: 11px;
}

.status-text {
    color: @fg_secondary;
}

.status-progress {
    min-width: 100px;
    min-height: 4px;
}

.status-progress trough {
    background-color: @bg_tertiary;
    border-radius: 2px;
}

.status-progress progress {
    background-color: @accent_color;
    border-radius: 2px;
}

.privacy-indicator {
    color: @success_color;
    font-weight: bold;
    padding: 2px 8px;
    background-color: alpha(@success_color, 0.1);
    border-radius: 4px;
}

.blocked-counter {
    color: @accent_secondary;
    padding: 2px 8px;
}

/* WebView */
webview {
    background-color: @bg_color;
}

/* Scrollbars */
scrollbar {
    background-color: @bg_secondary;
}

scrollbar slider {
    background-color: @bg_tertiary;
    border-radius: 4px;
    min-width: 8px;
    min-height: 8px;
}

scrollbar slider:hover {
    background-color: @fg_secondary;
}

/* Context Menu */
menu {
    background-color: @bg_secondary;
    border: 1px solid @border_color;
    border-radius: 8px;
    padding: 4px;
}

menuitem {
    padding: 8px 12px;
    border-radius: 4px;
}

menuitem:hover {
    background-color: @accent_color;
}

/* Dialogs */
dialog {
    background-color: @bg_color;
}

dialog headerbar {
    background-color: @bg_secondary;
    border-bottom: 1px solid @border_color;
}
"#;

/// The light style sheet.
pub const LIGHT_THEME_CSS: &'static str = r#"
/* MARSHALL BROWSER - LIGHT THEME */
/* bad-antics | 2026 */

window {
    background-color: #ffffff;
    color: #1a1a1a;
}

.marshall-toolbar {
    background-color: #f5f5f5;
    border-bottom: 1px solid #e0e0e0;
}

.marshall-urlbar {
    background-color: #ffffff;
    border: 1px solid #d0d0d0;
}

.marshall-statusbar {
    background-color: #f5f5f5;
    border-top: 1px solid #e0e0e0;
}
"#;

/// Theme generator.
pub struct Theme;

impl Theme {
    /// The style sheet for the given appearance.
    pub fn generate_css(dark_mode: bool) -> (r: String)
        ensures
            r@ == if dark_mode { DARK_THEME_CSS@ } else { LIGHT_THEME_CSS@ },
    {
        if dark_mode {
            Self::dark_theme()
        } else {
            Self::light_theme()
        }
    }

    pub fn dark_theme() -> (r: String)
        ensures
            r@ == DARK_THEME_CSS@,
    {
        DARK_THEME_CSS.to_owned()
    }

    pub fn light_theme() -> (r: String)
        ensures
            r@ == LIGHT_THEME_CSS@,
    {
        LIGHT_THEME_CSS.to_owned()
    }
}

/// An open browser tab.
#[derive(Clone)]
pub struct TabData {
    pub id: String,
    pub title: String,
    pub url: String,
    pub favicon: Option<String>,
    pub is_loading: bool,
    pub is_private: bool,
}

/// `t` is a fresh tab with id `id` showing `url`.
pub open spec fn is_fresh_tab(t: TabData, id: Seq<char>, url: Seq<char>, is_private: bool) -> bool {
    &&& t.id@ == id
    &&& t.title@ == "New Tab"@
    &&& t.url@ == url
    &&& t.favicon is None
    &&& !t.is_loading
    &&& t.is_private == is_private
}

impl TabData {
    /// A fresh tab with id `id` showing `url`.
    pub fn new(id: &str, url: &str, is_private: bool) -> (r: Self)
        ensures
            is_fresh_tab(r, id@, url@, is_private),
    {
        TabData {
            id: id.to_owned(),
            title: "New Tab".to_owned(),
            url: url.to_owned(),
            favicon: None,
            is_loading: false,
            is_private,
        }
    }
}

pub open spec fn tab_ids(tabs: Seq<TabData>) -> Seq<Seq<char>> {
    tabs.map_values(|t: TabData| t.id@)
}

/// Where `id` stands among the tabs, if it does.
pub open spec fn position_of(ids: Seq<Seq<char>>, id: Seq<char>) -> Option<int> {
    crate::voip::index_of(ids, id)
}

/// The tab that becomes active when the active tab at `pos` is closed and
/// `rest` remain: the one before it, else the first, else none.
pub open spec fn next_active(rest: Seq<Seq<char>>, pos: int) -> Option<Seq<char>> {
    let k = if pos > 0 { pos - 1 } else { 0 };
    if k < rest.len() {
        Some(rest[k])
    } else if rest.len() > 0 {
        Some(rest[0])
    } else {
        None
    }
}

/// The open tabs in display order, and the active one.
pub struct TabManager {
    tabs: Vec<TabData>,
    active_tab: Option<String>,
}

impl TabManager {
    pub closed spec fn tabs(&self) -> Seq<TabData> {
        self.tabs@
    }

    pub closed spec fn active(&self) -> Option<Seq<char>> {
        match self.active_tab {
            Some(s) => Some(s@),
            None => None,
        }
    }

    pub open spec fn ids(&self) -> Seq<Seq<char>> {
        tab_ids(self.tabs())
    }

    /// Tab ids are distinct.
    pub open spec fn wf(&self) -> bool {
        self.ids().no_duplicates()
    }

    pub fn new() -> (r: Self)
        ensures
            r.wf(),
            r.tabs().len() == 0,
            r.active() is None,
    {
        let r = TabManager { tabs: Vec::new(), active_tab: None };
        assert(r.ids() =~= Seq::<Seq<char>>::empty());
        r
    }

    /// Opens a tab with a new id at the end and makes it active.
    pub fn create_tab(&mut self, id: &str, url: &str, is_private: bool) -> (r: String)
        requires
            old(self).wf(),
            !old(self).ids().contains(id@),
        ensures
            final(self).wf(),
            r@ == id@,
            final(self).tabs().len() == old(self).tabs().len() + 1,
            final(self).tabs().drop_last() == old(self).tabs(),
            is_fresh_tab(final(self).tabs().last(), id@, url@, is_private),
            final(self).active() == Some(id@),
    {
        let tab = TabData::new(id, url, is_private);
        let ghost before = self.ids();
        self.tabs.push(tab);
        assert(self.tabs@.drop_last() =~= old(self).tabs@);
        assert(self.ids() =~= before.push(id@));
        self.active_tab = Some(id.to_owned());
        id.to_owned()
    }

    /// Closes the tab `id`; when it was active, the tab before it (else the
    /// first) becomes active. False when there is no such tab.
    pub fn close_tab(&mut self, id: &str) -> (r: bool)
        requires
            old(self).wf(),
        ensures
            final(self).wf(),
            r == old(self).ids().contains(id@),
            !r ==> final(self).tabs() == old(self).tabs() && final(self).active() == old(self).active(),
            r ==> {
                let p = position_of(old(self).ids(), id@)->Some_0;
                &&& final(self).tabs() == old(self).tabs().remove(p)
                &&& final(self).active() == if old(self).active() == Some(id@) {
                    next_active(final(self).ids(), p)
                } else {
                    old(self).active()
                }
            },
    {
        let mut i: usize = 0;
        while i < self.tabs.len()
            invariant
                self.tabs@ == old(self).tabs@,
                self.active_tab == old(self).active_tab,
                old(self).wf(),
                i <= self.tabs@.len(),
                forall|j: int| 0 <= j < i ==> (#[trigger] self.tabs@[j]).id@ != id@,
            decreases self.tabs@.len() - i,
        {
            if str_eq(self.tabs[i].id.as_str(), id) {
                let ghost ids = self.ids();
                proof {
                    crate::voip::lemma_index_of(ids, id@, i as int);
                }
                self.tabs.remove(i);
                proof {
                    assert(self.ids() =~= ids.remove(i as int));
                    lemma_remove_no_duplicates(ids, i as int);
                }
                let was_active = match &self.active_tab {
                    Some(a) => str_eq(a.as_str(), id),
                    None => false,
                };
                if was_active {
                    let k = if i > 0 { i - 1 } else { 0 };
                    if k < self.tabs.len() {
                        self.active_tab = Some(self.tabs[k].id.clone());
                    } else if self.tabs.len() > 0 {
                        self.active_tab = Some(self.tabs[0].id.clone());
                    } else {
                        self.active_tab = None;
                    }
                }
                return true;
            }
            i = i + 1;
        }
        proof {
            if old(self).ids().contains(id@) {
                let j = choose|j: int| 0 <= j < old(self).ids().len() && old(self).ids()[j] == id@;
                assert(self.tabs@[j].id@ == id@);
            }
        }
        false
    }

    /// Makes `id` the active tab, if it is open.
    pub fn set_active_tab(&mut self, id: &str)
        ensures
            final(self).tabs() == old(self).tabs(),
            old(self).ids().contains(id@) ==> final(self).active() == Some(id@),
            !old(self).ids().contains(id@) ==> final(self).active() == old(self).active(),
    {
        let mut i: usize = 0;
        while i < self.tabs.len()
            invariant
                self.tabs@ == old(self).tabs@,
                self.active_tab == old(self).active_tab,
                i <= self.tabs@.len(),
                forall|j: int| 0 <= j < i ==> (#[trigger] self.tabs@[j]).id@ != id@,
            decreases self.tabs@.len() - i,
        {
            if str_eq(self.tabs[i].id.as_str(), id) {
                assert(old(self).ids()[i as int] == id@);
                self.active_tab = Some(id.to_owned());
                return;
            }
            i = i + 1;
        }
        proof {
            if old(self).ids().contains(id@) {
                let j = choose|j: int| 0 <= j < old(self).ids().len() && old(self).ids()[j] == id@;
                assert(self.tabs@[j].id@ == id@);
            }
        }
    }

    /// The active tab, if any.
    pub fn get_active_tab(&self) -> (r: Option<&TabData>)
        ensures
            r matches Some(t) ==> self.active() == Some(t.id@) && self.tabs().contains(*t),
            r is None ==> self.active() is None || !self.ids().contains(self.active()->Some_0),
    {
        match &self.active_tab {
            None => None,
            Some(a) => {
                let mut i: usize = 0;
                while i < self.tabs.len()
                    invariant
                        i <= self.tabs@.len(),
                        self.active_tab matches Some(x) && x@ == a@,
                        forall|j: int| 0 <= j < i ==> (#[trigger] self.tabs@[j]).id@ != a@,
                    decreases self.tabs@.len() - i,
                {
                    if str_eq(self.tabs[i].id.as_str(), a.as_str()) {
                        return Some(&self.tabs[i]);
                    }
                    i = i + 1;
                }
                proof {
                    if self.ids().contains(a@) {
                        let j = choose|j: int| 0 <= j < self.ids().len() && self.ids()[j] == a@;
                        assert(self.tabs@[j].id@ == a@);
                    }
                }
                None
            },
        }
    }

    pub fn tab_count(&self) -> (r: usize)
        ensures
            r == self.tabs().len(),
    {
        self.tabs.len()
    }

    /// The open tabs in display order.
    pub fn get_all_tabs(&self) -> (r: &Vec<TabData>)
        ensures
            r@ == self.tabs(),
    {
        &self.tabs
    }
}

proof fn lemma_remove_no_duplicates(s: Seq<Seq<char>>, i: int)
    requires
        s.no_duplicates(),
        0 <= i < s.len(),
    ensures
        s.remove(i).no_duplicates(),
{
    let t = s.remove(i);
    assert forall|a: int, b: int| 0 <= a < t.len() && 0 <= b < t.len() && a != b implies t[a] != t[b] by {
        let a2 = if a < i { a } else { a + 1 };
        let b2 = if b < i { b } else { b + 1 };
        assert(t[a] == s[a2] && t[b] == s[b2]);
    }
}

} // verus!
