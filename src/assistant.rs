//! Assistant states, avatar animation and the phonemes that drive lip-sync.

use vstd::prelude::*;
use crate::text::{
    contains_seq, contains_str, lower_of, lowercase, regex_capture, regex_find, regex_first_group,
    regex_first_match,
};

verus! {

#[derive(Debug, Clone, Copy, PartialEq, Eq, Structural)]
pub enum AvatarStyle {
    CyberPunk,
    Professional,
    Hacker,
    Minimal,
    Custom,
}

#[derive(Debug, Clone, Copy, PartialEq, Eq, Structural)]
pub enum Personality {
    Professional,
    Friendly,
    Technical,
    Concise,
}

#[derive(Debug, Clone, Copy, PartialEq, Eq, Structural)]
pub enum AssistantState {
    Idle,
    Listening,
    Processing,
    Speaking,
    Error,
}

/// An action the assistant asks the browser to take.
#[derive(Debug, Clone)]
pub enum AssistantAction {
    Navigate(String),
    Search(String),
    Call(String),
    CreateTask(String),
    ShowDashboard,
    ShowWorkforce,
    ShowSearch,
    ShowVoIP,
    RunOSINT(String),
    Custom(String),
}

/// Intent recognized from user input.
#[derive(Debug, Clone, Copy, PartialEq, Eq, Structural, Hash)]
pub enum Intent {
    Greeting,
    Farewell,
    Help,
    Search,
    Navigate,
    Call,
    Workforce,
    TimeCard,
    Project,
    OSINT,
    Vulnerability,
    PortScan,
    Whois,
    Settings,
    Unknown,
}

/// Avatar animation states.
#[derive(Debug, Clone, Copy, PartialEq, Eq, Structural)]
pub enum AvatarAnimation {
    Idle,
    Speaking,
    Listening,
    Thinking,
    Wave,
    Nod,
    Shake,
    Blink,
    Custom(u32),
}

/// Face expression of the avatar.
#[derive(Debug, Clone, Copy, PartialEq, Eq, Structural)]
pub enum Expression {
    Neutral,
    Happy,
    Concerned,
    Thinking,
    Alert,
    Confident,
}

/// Mouth shape for lip-sync.
#[derive(Debug, Clone, Copy, PartialEq, Eq, Structural)]
pub enum MouthShape {
    Closed,
    SlightlyOpen,
    Open,
    Wide,
    OShape,
    EShape,
    AShape,
}

#[derive(Debug, Clone)]
pub struct AvatarColors {
    pub skin: String,
    pub hair: String,
    pub eyes: String,
    pub outline: String,
    pub glow: String,
    pub background: String,
}

/// Speech engine state.
#[derive(Debug, Clone, Copy, PartialEq, Eq, Structural)]
pub enum SpeechState {
    Idle,
    Speaking,
    Listening,
    Processing,
}

/// Phoneme for lip-sync.
#[derive(Debug, Clone, Copy, PartialEq, Eq, Structural)]
pub enum Phoneme {
    Silent,
    A,
    E,
    I,
    O,
    U,
    M,
    B,
    P,
    F,
    V,
    TH,
    L,
    R,
    S,
    SH,
    K,
    G,
    T,
    D,
    N,
}

/// The phoneme of a character, ignoring ASCII case; anything else is silent.
pub open spec fn phoneme_of(c: char) -> Phoneme {
    match c {
        'a' | 'A' => Phoneme::A,
        'e' | 'E' => Phoneme::E,
        'i' | 'I' => Phoneme::I,
        'o' | 'O' => Phoneme::O,
        'u' | 'U' => Phoneme::U,
        'm' | 'M' => Phoneme::M,
        'b' | 'p' | 'B' | 'P' => Phoneme::B,
        'f' | 'v' | 'F' | 'V' => Phoneme::F,
        'l' | 'L' => Phoneme::L,
        'r' | 'R' => Phoneme::R,
        's' | 'z' | 'S' | 'Z' => Phoneme::S,
        'k' | 'c' | 'g' | 'K' | 'C' | 'G' => Phoneme::K,
        't' | 'd' | 'T' | 'D' => Phoneme::T,
        'n' | 'N' => Phoneme::N,
        _ => Phoneme::Silent,
    }
}

impl Phoneme {
    /// The phoneme of a character, for lip-sync.
    pub fn from_char(c: char) -> (r: Self)
        ensures
            r == phoneme_of(c),
    {
        match c {
            'a' | 'A' => Phoneme::A,
            'e' | 'E' => Phoneme::E,
            'i' | 'I' => Phoneme::I,
            'o' | 'O' => Phoneme::O,
            'u' | 'U' => Phoneme::U,
            'm' | 'M' => Phoneme::M,
            'b' | 'p' | 'B' | 'P' => Phoneme::B,
            'f' | 'v' | 'F' | 'V' => Phoneme::F,
            'l' | 'L' => Phoneme::L,
            'r' | 'R' => Phoneme::R,
            's' | 'z' | 'S' | 'Z' => Phoneme::S,
            'k' | 'c' | 'g' | 'K' | 'C' | 'G' => Phoneme::K,
            't' | 'd' | 'T' | 'D' => Phoneme::T,
            'n' | 'N' => Phoneme::N,
            _ => Phoneme::Silent,
        }
    }
}

/// What an action holds, as character sequences.
pub enum ActionView {
    Navigate(Seq<char>),
    Search(Seq<char>),
    Call(Seq<char>),
    CreateTask(Seq<char>),
    ShowDashboard,
    ShowWorkforce,
    ShowSearch,
    ShowVoIP,
    RunOSINT(Seq<char>),
    Custom(Seq<char>),
}

impl View for AssistantAction {
    type V = ActionView;

    open spec fn view(&self) -> ActionView {
        match self {
            AssistantAction::Navigate(s) => ActionView::Navigate(s@),
            AssistantAction::Search(s) => ActionView::Search(s@),
            AssistantAction::Call(s) => ActionView::Call(s@),
            AssistantAction::CreateTask(s) => ActionView::CreateTask(s@),
            AssistantAction::ShowDashboard => ActionView::ShowDashboard,
            AssistantAction::ShowWorkforce => ActionView::ShowWorkforce,
            AssistantAction::ShowSearch => ActionView::ShowSearch,
            AssistantAction::ShowVoIP => ActionView::ShowVoIP,
            AssistantAction::RunOSINT(s) => ActionView::RunOSINT(s@),
            AssistantAction::Custom(s) => ActionView::Custom(s@),
        }
    }
}

pub const URL_PATTERN: &'static str = r"https?://[^\s]+";

pub const SEARCH_PATTERN: &'static str = r#"(?i)search(?:ing)?\s+(?:for\s+)?['"]?([^'"]+)['"]?"#;

pub const OSINT_PATTERN: &'static str = r#"(?i)(?:osint|recon|reconnaissance)\s+(?:on\s+)?['"]?([^'"]+)['"]?"#;

pub const CONTACT_PATTERN: &'static str = r#"(?i)(?:calling|dialing)\s+['"]?([^'"]+)['"]?"#;

/// The action that a reply of the model asks for: the first hint found
/// (navigation, search, OSINT, workforce, call) whose target can be read.
pub open spec fn action_hint(reply: Seq<char>, lower: Seq<char>) -> Option<ActionView> {
    let nav = if contains_seq(lower, "navigating to"@) || contains_seq(lower, "opening"@) {
        regex_first_match(URL_PATTERN@, reply)
    } else {
        None
    };
    let search = if contains_seq(lower, "searching for"@) || contains_seq(lower, "search results"@) {
        regex_first_group(SEARCH_PATTERN@, reply)
    } else {
        None
    };
    let osint = if contains_seq(lower, "running osint"@) || contains_seq(lower, "reconnaissance"@) {
        regex_first_group(OSINT_PATTERN@, reply)
    } else {
        None
    };
    let call = if contains_seq(lower, "calling"@) || contains_seq(lower, "dialing"@) {
        regex_first_group(CONTACT_PATTERN@, reply)
    } else {
        None
    };
    if nav is Some {
        Some(ActionView::Navigate(nav->Some_0))
    } else if search is Some {
        Some(ActionView::Search(search->Some_0))
    } else if osint is Some {
        Some(ActionView::RunOSINT(osint->Some_0))
    } else if contains_seq(lower, "workforce"@) || contains_seq(lower, "employee"@) || contains_seq(
        lower,
        "timecard"@,
    ) {
        Some(ActionView::ShowWorkforce)
    } else if call is Some {
        Some(ActionView::Call(call->Some_0))
    } else {
        None
    }
}

pub open spec fn action_view(a: Option<AssistantAction>) -> Option<ActionView> {
    match a {
        Some(x) => Some(x@),
        None => None,
    }
}

/// Reads an action from a reply of the model, given the lowercased reply.
pub fn action_from_reply(reply: &str, lower: &str) -> (r: Option<AssistantAction>)
    ensures
        action_view(r) == action_hint(reply@, lower@),
{
    if contains_str(lower, "navigating to") || contains_str(lower, "opening") {
        if let Some(url) = regex_find(URL_PATTERN, reply) {
            return Some(AssistantAction::Navigate(url));
        }
    }
    if contains_str(lower, "searching for") || contains_str(lower, "search results") {
        if let Some(q) = regex_capture(SEARCH_PATTERN, reply) {
            return Some(AssistantAction::Search(q));
        }
    }
    if contains_str(lower, "running osint") || contains_str(lower, "reconnaissance") {
        if let Some(t) = regex_capture(OSINT_PATTERN, reply) {
            return Some(AssistantAction::RunOSINT(t));
        }
    }
    if contains_str(lower, "workforce") || contains_str(lower, "employee") || contains_str(
        lower,
        "timecard",
    ) {
        return Some(AssistantAction::ShowWorkforce);
    }
    if contains_str(lower, "calling") || contains_str(lower, "dialing") {
        if let Some(c) = regex_capture(CONTACT_PATTERN, reply) {
            return Some(AssistantAction::Call(c));
        }
    }
    None
}

/// Reads an action from a reply of the model.
pub fn parse_action_from_response(reply: &str) -> (r: Option<AssistantAction>)
    ensures
        action_view(r) == action_hint(reply@, lower_of(reply@)),
{
    let lower = lowercase(reply);
    action_from_reply(reply, lower.as_str())
}

} // verus!
