//! Chat-assistant model: providers of language models, chat messages and
//! the engine's errors.

use vstd::prelude::*;
use crate::text::concat2;

verus! {

/// Supported AI providers.
#[derive(Debug, Clone, Copy, PartialEq, Eq, Structural, Hash)]
pub enum AIProvider {
    OpenAI,
    Anthropic,
    Groq,
    XAI,
    Ollama,
    LMStudio,
    OpenRouter,
    Together,
    Mistral,
    Cohere,
    Custom,
}

impl AIProvider {
    /// The chat endpoint of the provider; empty for a custom one.
    pub open spec fn endpoint_spec(self) -> Seq<char> {
        match self {
            AIProvider::OpenAI => "https://api.openai.com/v1/chat/completions"@,
            AIProvider::Anthropic => "https://api.anthropic.com/v1/messages"@,
            AIProvider::Groq => "https://api.groq.com/openai/v1/chat/completions"@,
            AIProvider::XAI => "https://api.x.ai/v1/chat/completions"@,
            AIProvider::Ollama => "http://localhost:11434/api/chat"@,
            AIProvider::LMStudio => "http://localhost:1234/v1/chat/completions"@,
            AIProvider::OpenRouter => "https://openrouter.ai/api/v1/chat/completions"@,
            AIProvider::Together => "https://api.together.xyz/v1/chat/completions"@,
            AIProvider::Mistral => "https://api.mistral.ai/v1/chat/completions"@,
            AIProvider::Cohere => "https://api.cohere.ai/v1/chat"@,
            AIProvider::Custom => ""@,
        }
    }

    /// Local providers need no credentials.
    pub open spec fn requires_auth_spec(self) -> bool {
        !(self is Ollama || self is LMStudio)
    }

    /// The chat endpoint of the provider; empty for a custom one.
    pub fn endpoint(&self) -> (r: &'static str)
        ensures
            r@ == self.endpoint_spec(),
    {
        match self {
            AIProvider::OpenAI => "https://api.openai.com/v1/chat/completions",
            AIProvider::Anthropic => "https://api.anthropic.com/v1/messages",
            AIProvider::Groq => "https://api.groq.com/openai/v1/chat/completions",
            AIProvider::XAI => "https://api.x.ai/v1/chat/completions",
            AIProvider::Ollama => "http://localhost:11434/api/chat",
            AIProvider::LMStudio => "http://localhost:1234/v1/chat/completions",
            AIProvider::OpenRouter => "https://openrouter.ai/api/v1/chat/completions",
            AIProvider::Together => "https://api.together.xyz/v1/chat/completions",
            AIProvider::Mistral => "https://api.mistral.ai/v1/chat/completions",
            AIProvider::Cohere => "https://api.cohere.ai/v1/chat",
            AIProvider::Custom => "",
        }
    }

    /// Whether requests to the provider need an API key.
    pub fn requires_auth(&self) -> (r: bool)
        ensures
            r == self.requires_auth_spec(),
    {
        !matches!(self, AIProvider::Ollama | AIProvider::LMStudio)
    }
}

/// Message role in a conversation.
#[derive(Debug, Clone, Copy, PartialEq, Eq, Structural)]
pub enum MessageRole {
    System,
    User,
    Assistant,
    Tool,
}

/// A chat message.
#[derive(Debug, Clone)]
pub struct ChatMessage {
    pub role: MessageRole,
    pub content: String,
    pub name: Option<String>,
    pub tool_calls: Option<Vec<ToolCall>>,
    pub tool_call_id: Option<String>,
}

/// A plain message of `role` with `content` and nothing else.
pub open spec fn is_plain_message(m: ChatMessage, role: MessageRole, content: Seq<char>) -> bool {
    &&& m.role == role
    &&& m.content@ == content
    &&& m.name is None
    &&& m.tool_calls is None
    &&& m.tool_call_id is None
}

impl ChatMessage {
    fn plain(role: MessageRole, content: &str) -> (r: Self)
        ensures
            is_plain_message(r, role, content@),
    {
        ChatMessage {
            role,
            content: content.to_owned(),
            name: None,
            tool_calls: None,
            tool_call_id: None,
        }
    }

    /// A system message.
    pub fn system(content: &str) -> (r: Self)
        ensures
            is_plain_message(r, MessageRole::System, content@),
    {
        Self::plain(MessageRole::System, content)
    }

    /// A user message.
    pub fn user(content: &str) -> (r: Self)
        ensures
            is_plain_message(r, MessageRole::User, content@),
    {
        Self::plain(MessageRole::User, content)
    }

    /// An assistant message.
    pub fn assistant(content: &str) -> (r: Self)
        ensures
            is_plain_message(r, MessageRole::Assistant, content@),
    {
        Self::plain(MessageRole::Assistant, content)
    }
}

/// A tool call requested by the model.
#[derive(Debug, Clone)]
pub struct ToolCall {
    pub id: String,
    pub tool_type: String,
    pub function: FunctionCall,
}

#[derive(Debug, Clone)]
pub struct FunctionCall {
    pub name: String,
    pub arguments: String,
}

/// Errors of the AI engine.
#[derive(Debug, Clone)]
pub enum AIError {
    NetworkError(String),
    APIError(String),
    ParseError(String),
    ConfigError(String),
    RateLimited,
    InvalidModel,
    TokenLimitExceeded,
}

impl AIError {
    pub open spec fn message_spec(&self) -> Seq<char> {
        match self {
            AIError::NetworkError(e) => "Network error: "@ + e@,
            AIError::APIError(e) => "API error: "@ + e@,
            AIError::ParseError(e) => "Parse error: "@ + e@,
            AIError::ConfigError(e) => "Config error: "@ + e@,
            AIError::RateLimited => "Rate limited - please wait"@,
            AIError::InvalidModel => "Invalid model specified"@,
            AIError::TokenLimitExceeded => "Token limit exceeded"@,
        }
    }

    /// The human-readable text of the error.
    pub fn to_string(&self) -> (r: String)
        ensures
            r@ == self.message_spec(),
    {
        match self {
            AIError::NetworkError(e) => concat2("Network error: ", e.as_str()),
            AIError::APIError(e) => concat2("API error: ", e.as_str()),
            AIError::ParseError(e) => concat2("Parse error: ", e.as_str()),
            AIError::ConfigError(e) => concat2("Config error: ", e.as_str()),
            AIError::RateLimited => "Rate limited - please wait".to_owned(),
            AIError::InvalidModel => "Invalid model specified".to_owned(),
            AIError::TokenLimitExceeded => "Token limit exceeded".to_owned(),
        }
    }
}

} // verus!
