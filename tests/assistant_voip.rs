use marshall::ai_engine::{AIError, AIProvider, ChatMessage, MessageRole};
use marshall::assistant::Phoneme;
use marshall::voip::{normalize_number, CallPriority, CallQueue, QueuedCall, SipUri};

#[test]
fn test_provider_endpoints() {
    assert!(AIProvider::OpenAI.endpoint().contains("openai.com"));
    assert!(AIProvider::XAI.endpoint().contains("x.ai"));
    assert!(AIProvider::Ollama.endpoint().contains("localhost"));
}

#[test]
fn provider_auth_and_custom_endpoint() {
    assert!(!AIProvider::Ollama.requires_auth());
    assert!(!AIProvider::LMStudio.requires_auth());
    assert!(AIProvider::Groq.requires_auth());
    assert_eq!(AIProvider::Custom.endpoint(), "");
}

#[test]
fn chat_message_constructors() {
    let m = ChatMessage::user("hi");
    assert_eq!(m.role, MessageRole::User);
    assert_eq!(m.content, "hi");
    assert!(m.name.is_none() && m.tool_calls.is_none() && m.tool_call_id.is_none());
    assert_eq!(ChatMessage::system("s").role, MessageRole::System);
    assert_eq!(ChatMessage::assistant("a").role, MessageRole::Assistant);
}

#[test]
fn ai_error_text() {
    assert_eq!(AIError::APIError("bad".to_string()).to_string(), "API error: bad");
    assert_eq!(AIError::RateLimited.to_string(), "Rate limited - please wait");
}

#[test]
fn phonemes_ignore_case() {
    assert_eq!(Phoneme::from_char('A'), Phoneme::A);
    assert_eq!(Phoneme::from_char('p'), Phoneme::B);
    assert_eq!(Phoneme::from_char('C'), Phoneme::K);
    assert_eq!(Phoneme::from_char('!'), Phoneme::Silent);
    assert_eq!(Phoneme::from_char('x'), Phoneme::Silent);
}

#[test]
fn normalize_keeps_digits() {
    assert_eq!(normalize_number("+1 (555) 010-9999"), "15550109999");
    assert_eq!(normalize_number(""), "");
}

#[test]
fn sip_uri_text() {
    let mut u = SipUri::new("alice", "example.org");
    assert_eq!(u.to_string(), "sip:alice@example.org");
    u.port = Some(5060);
    assert_eq!(u.to_string(), "sip:alice@example.org:5060");
    u.user = None;
    assert_eq!(u.to_string(), "sip:example.org:5060");
}

fn call(id: &str, p: CallPriority) -> QueuedCall {
    let mut c = QueuedCall::new(id, "555", "support", 1000);
    c.priority = p;
    c
}

#[test]
fn call_queue_orders_by_priority_then_arrival() {
    let mut q = CallQueue::new("support", 3);
    assert!(q.enqueue(call("a", CallPriority::Normal)).is_ok());
    assert!(q.enqueue(call("b", CallPriority::Urgent)).is_ok());
    assert!(q.enqueue(call("c", CallPriority::Normal)).is_ok());
    assert!(q.enqueue(call("d", CallPriority::High)).is_err());
    assert_eq!(q.size(), 3);
    assert_eq!(q.peek().unwrap().id, "b");
    assert!(q.assign_to_worker("c", "w1"));
    assert!(!q.assign_to_worker("zz", "w1"));
    assert_eq!(q.dequeue().unwrap().id, "b");
    assert_eq!(q.dequeue().unwrap().id, "a");
    let c = q.remove("c").unwrap();
    assert_eq!(c.assigned_worker.as_deref(), Some("w1"));
    assert!(q.is_empty());
    assert!(q.dequeue().is_none());
}

#[test]
fn queued_call_wait_time() {
    let c = QueuedCall::new("x", "1", "q", 100);
    assert_eq!(c.wait_time_seconds(160), 60);
}

use marshall::assistant::{parse_action_from_response, AssistantAction};
use marshall::osint::is_target_query;

#[test]
fn target_queries() {
    assert!(is_target_query("example.com"));
    assert!(is_target_query("192.168.1.1"));
    assert!(!is_target_query("how to bake bread"));
    assert!(!is_target_query("-bad.com"));
}

#[test]
fn actions_from_replies() {
    match parse_action_from_response("Opening https://example.com/page now") {
        Some(AssistantAction::Navigate(u)) => assert_eq!(u, "https://example.com/page"),
        other => panic!("unexpected {:?}", other),
    }
    match parse_action_from_response("Searching for \"rust verifier\"") {
        Some(AssistantAction::Search(q)) => assert_eq!(q, "rust verifier"),
        other => panic!("unexpected {:?}", other),
    }
    assert!(matches!(
        parse_action_from_response("Opening the employee list"),
        Some(AssistantAction::ShowWorkforce)
    ));
    match parse_action_from_response("Dialing 'Bob'") {
        Some(AssistantAction::Call(c)) => assert_eq!(c, "Bob"),
        other => panic!("unexpected {:?}", other),
    }
    assert!(parse_action_from_response("Hello there").is_none());
}

use marshall::voip::{Contact, ContactManager, PhoneLabel};

#[test]
fn contacts_find_search_favorites() {
    let mut book = ContactManager::new();
    let mut alice = Contact::new("c1", "Alice Smith", 100);
    alice.add_phone("+1 (555) 010-0001", PhoneLabel::Mobile, false, 110);
    alice.add_phone("555-0002", PhoneLabel::Work, true, 120);
    alice.company = Some("ACME Corp".to_string());
    assert_eq!(alice.primary_number(), Some("555-0002"));
    assert_eq!(alice.updated_at, 120);
    let mut bob = Contact::new("c2", "Bob", 100);
    bob.is_favorite = true;
    bob.add_phone("777", PhoneLabel::Home, false, 100);
    assert_eq!(bob.primary_number(), Some("777"));
    assert_eq!(book.add(alice), "c1");
    book.add(bob);
    assert_eq!(book.count(), 2);
    assert_eq!(book.find_by_number("15550100001").unwrap().id, "c1");
    assert!(book.find_by_number("999").is_none());
    assert_eq!(book.search("acme").len(), 1);
    assert_eq!(book.search("77")[0].id, "c2");
    assert_eq!(book.favorites().len(), 1);
    assert_eq!(book.get("c2").unwrap().name, "Bob");
    assert_eq!(book.remove("c1").unwrap().name, "Alice Smith");
    assert!(book.get("c1").is_none());
    assert_eq!(Contact::new("c3", "X", 0).primary_number(), None);
}

#[test]
fn contacts_by_tag_and_queue_listing() {
    let mut book = ContactManager::new();
    let mut c = Contact::new("c1", "Ann", 0);
    c.tags.push("vip".to_string());
    book.add(c);
    book.add(Contact::new("c2", "Ben", 0));
    assert_eq!(book.by_tag("vip").len(), 1);
    assert_eq!(book.by_tag("VIP").len(), 0);
    let mut q = CallQueue::new("q", 5);
    q.enqueue(QueuedCall::new("x", "1", "q", 0)).unwrap();
    assert_eq!(q.get_all().len(), 1);
}
