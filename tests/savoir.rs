use savoir::agent;
use savoir::app::{App, Error};
use savoir::conversation::Conversation;
use savoir::conversation_store::{ConversationStore, InMemoryConversationStore};
use savoir::document::Document;
use savoir::document_store::{cap_results, QUERY_LIMIT};
use savoir::document_store::weaviate::{self, near_text, store_outcome, upsert_action, Upsert};
use savoir::integration::{dispatch, listen_port, Dispatch, ACKNOWLEDGMENT, ASK_COMMAND};
use savoir::llm::{self, first_completion};
use savoir::message::{Message, Role};
use savoir::registry::Registry;
use savoir::synchronization::{Synchronization, CHANNEL_CAPACITY};
use savoir::turn::{begin_turn, finish_turn};

type TestApp = App<String, String, String, (), InMemoryConversationStore>;

fn test_app() -> TestApp {
    let mut app: TestApp = App::new((), InMemoryConversationStore::new());
    app.add_datasource("drive", "drive-instance".to_string());
    app.add_llm("echo", "echo-model".to_string());
    app.add_agent("support", agent::Config::new("echo", "You are support."));
    app.add_agent("orphan", agent::Config::new("missing-llm", "Orphan."));
    app.add_integration("slack", "slack-instance".to_string());
    app
}

fn not_found(e: Error) -> (String, String) {
    match e {
        Error::ResourceNotFound(kind, name) => (kind, name),
    }
}

fn roles_and_texts(c: &Conversation) -> Vec<(Role, String)> {
    c.0.iter().map(|m| (m.role, m.content.clone())).collect()
}

/// A stand-in language model that answers with the last user message.
fn echo(history: &Conversation) -> String {
    history
        .0
        .iter()
        .rev()
        .find(|m| m.role == Role::User)
        .map(|m| m.content.clone())
        .unwrap_or_default()
}

fn ask_once(store: &mut InMemoryConversationStore, id: &str, prompt: &str, context: &str, query: &str) -> String {
    let history = begin_turn(store, id, prompt, context, query);
    let response = echo(&history);
    assert!(finish_turn(store, id, &response));
    response
}

#[test]
fn lookups_find_declared_names() {
    let app = test_app();
    assert_eq!(app.datasource("drive").unwrap(), "drive-instance");
    assert_eq!(app.llm("echo").unwrap(), "echo-model");
    assert_eq!(app.agent("support").unwrap().prompt, "You are support.");
    assert_eq!(app.integration("slack").unwrap(), "slack-instance");
}

#[test]
fn lookups_of_undeclared_names_report_kind_and_name() {
    let app = test_app();
    assert_eq!(not_found(app.datasource("nope").unwrap_err()), ("datasource".to_string(), "nope".to_string()));
    assert_eq!(not_found(app.agent("nobody").unwrap_err()), ("agent".to_string(), "nobody".to_string()));
    assert_eq!(not_found(app.integration("teams").unwrap_err()), ("integration".to_string(), "teams".to_string()));
    assert_eq!(not_found(app.llm("gpt").unwrap_err()), ("llm".to_string(), "gpt".to_string()));
}

#[test]
fn not_found_message_text() {
    let app = test_app();
    let e = app.agent("nobody").unwrap_err();
    assert_eq!(e.message(), "The agent nobody does not exist in the configuration");
}

#[test]
fn resolve_agent_reports_missing_agent_then_missing_llm() {
    let app = test_app();
    let (a, l) = app.resolve_agent("support").unwrap();
    assert_eq!(a.llm, "echo");
    assert_eq!(l, "echo-model");
    assert_eq!(not_found(app.resolve_agent("ghost").unwrap_err()), ("agent".to_string(), "ghost".to_string()));
    assert_eq!(not_found(app.resolve_agent("orphan").unwrap_err()), ("llm".to_string(), "missing-llm".to_string()));
}

#[test]
fn redeclaring_a_name_replaces_it() {
    let mut r: Registry<u32> = Registry::new();
    r.insert("a", 1);
    r.insert("b", 2);
    r.insert("a", 3);
    assert_eq!(r.get("a"), Some(&3));
    assert_eq!(r.get("b"), Some(&2));
    assert_eq!(r.get("c"), None);
}

#[test]
fn content_address_is_deterministic_and_distinct() {
    let a = Document::new("doc-1", "One", "first", None);
    let b = Document::new("doc-1", "Other name", "other content", Some("http://x".to_string()));
    let c = Document::new("doc-2", "One", "first", None);
    assert_eq!(a.uuid(), b.uuid());
    assert_ne!(a.uuid(), c.uuid());
    assert_ne!(a.uuid().to_vec(), "doc-1".as_bytes().to_vec());
    // version 5, RFC 4122 variant
    assert_eq!(a.uuid()[6] >> 4, 5);
    assert_eq!(a.uuid()[8] >> 6, 0b10);
}

#[test]
fn content_address_matches_uuid_v5_oid() {
    let d = Document::new("doc-1", "n", "c", None);
    let expected = uuid::Uuid::new_v5(&uuid::Uuid::NAMESPACE_OID, b"doc-1");
    assert_eq!(&d.uuid(), expected.as_bytes());
}

#[test]
fn first_ask_seeds_three_messages_second_adds_two() {
    let mut store = InMemoryConversationStore::new();
    ask_once(&mut store, "c", "Prompt.", "[ctx]", "q1");
    let first = store.get("c").unwrap();
    assert_eq!(first.len(), 3);
    assert_eq!(
        roles_and_texts(&first),
        vec![
            (Role::System, "Prompt.\n[ctx]".to_string()),
            (Role::User, "q1".to_string()),
            (Role::Assistant, "q1".to_string()),
        ]
    );
    ask_once(&mut store, "c", "Prompt.", "[other ctx]", "q2");
    let second = store.get("c").unwrap();
    assert_eq!(second.len(), 5);
    assert_eq!(roles_and_texts(&second)[0], (Role::System, "Prompt.\n[ctx]".to_string()));
    assert_eq!(roles_and_texts(&second)[3], (Role::User, "q2".to_string()));
    assert_eq!(roles_and_texts(&second)[4], (Role::Assistant, "q2".to_string()));
}

#[test]
fn interleaved_asks_on_distinct_ids_stay_apart() {
    let mut store = InMemoryConversationStore::new();
    let ids = ["a", "b", "c"];
    let m = 4;
    for round in 0..m {
        for id in ids.iter() {
            ask_once(&mut store, id, "P", "[]", &format!("{id}-{round}"));
        }
    }
    assert_eq!(store.len(), 3);
    for id in ids.iter() {
        let c = store.get(id).unwrap();
        assert_eq!(c.len(), 1 + 2 * m);
        for msg in c.0.iter().skip(1) {
            assert!(msg.content.starts_with(&format!("{id}-")));
        }
    }
}

#[test]
fn end_to_end_support_echo() {
    let mut app = test_app();
    let (agent, _llm) = app.resolve_agent("support").unwrap();
    let prompt = agent.prompt.clone();
    let documents: Vec<String> = Vec::new();
    let context = serde_json::to_string(&documents).unwrap();
    let history = begin_turn(&mut app.conversation_store, "conv-1", &prompt, &context, "hello");
    let answer = echo(&history);
    assert!(finish_turn(&mut app.conversation_store, "conv-1", &answer));
    assert_eq!(answer, "hello");
    let conv = app.conversation_store.get("conv-1").unwrap();
    assert_eq!(
        roles_and_texts(&conv),
        vec![
            (Role::System, "You are support.\n[]".to_string()),
            (Role::User, "hello".to_string()),
            (Role::Assistant, "hello".to_string()),
        ]
    );
}

#[test]
fn begin_turn_returns_history_with_question() {
    let mut store = InMemoryConversationStore::new();
    let h = begin_turn(&mut store, "x", "P", "C", "why?");
    assert_eq!(roles_and_texts(&h), vec![(Role::System, "P\nC".to_string()), (Role::User, "why?".to_string())]);
}

#[test]
fn finish_turn_on_unknown_id_changes_nothing() {
    let mut store = InMemoryConversationStore::new();
    assert!(!finish_turn(&mut store, "none", "answer"));
    assert!(store.get("none").is_none());
    assert_eq!(store.len(), 0);
}

#[test]
fn store_create_replaces_and_append_extends() {
    let mut store = InMemoryConversationStore::default();
    store.create("k", Conversation::seeded("one"));
    store.create("k", Conversation::seeded("two"));
    assert_eq!(store.len(), 1);
    assert!(store.append("k", Message::new(Role::User, "hi")));
    assert!(!store.append("other", Message::new(Role::User, "hi")));
    let c = store.get("k").unwrap();
    assert_eq!(roles_and_texts(&c), vec![(Role::System, "two".to_string()), (Role::User, "hi".to_string())]);
}

#[test]
fn message_new_keeps_role_and_content() {
    let m = Message::new(Role::Assistant, "text");
    assert_eq!(m.role, Role::Assistant);
    assert_eq!(m.content, "text");
    let d = m.duplicate();
    assert_eq!(d.content, "text");
}

#[test]
fn synchronization_keeps_order_and_survives_failures() {
    let mut sync = Synchronization::new();
    let ids: Vec<String> = (1..=40).map(|i| format!("d{i}")).collect();
    for (k, id) in ids.iter().enumerate() {
        let outcome = if k == 2 { Err("boom".to_string()) } else { Ok(()) };
        sync.record(id, outcome);
    }
    let report = sync.finish().unwrap();
    assert!(ids.len() > CHANNEL_CAPACITY);
    assert_eq!(report.attempted, ids);
    assert_eq!(report.failed, vec![("d3".to_string(), "boom".to_string())]);
}

#[test]
fn synchronization_of_nothing_succeeds() {
    let report = Synchronization::new().finish().unwrap();
    assert!(report.attempted.is_empty());
    assert!(report.failed.is_empty());
}

#[test]
fn upsert_creates_when_absent_and_updates_when_present() {
    assert_eq!(upsert_action(Some(true)), Upsert::Update);
    assert_eq!(upsert_action(Some(false)), Upsert::Create);
    assert_eq!(upsert_action(None), Upsert::Create);
}

#[test]
fn store_outcome_maps_errors_to_the_attempted_write() {
    assert!(store_outcome(Upsert::Create, Ok(())).is_ok());
    match store_outcome(Upsert::Create, Err("x".to_string())) {
        Err(weaviate::Error::CreateDocument(d)) => assert_eq!(d, "x"),
        other => panic!("unexpected {:?}", other),
    }
    match store_outcome(Upsert::Update, Err("y".to_string())) {
        Err(weaviate::Error::UpdateDocument(d)) => assert_eq!(d, "y"),
        other => panic!("unexpected {:?}", other),
    }
}

#[test]
fn weaviate_error_messages() {
    assert_eq!(weaviate::Error::CreateClient("bad host".to_string()).message(), "cannot create weaviate client: bad host");
    assert_eq!(weaviate::Error::CreateDocument("e".to_string()).message(), "cannot create weaviate document: e");
    assert_eq!(weaviate::Error::UpdateDocument("e".to_string()).message(), "cannot update weaviate document: e");
    assert_eq!(weaviate::Error::QueryDocument("e".to_string()).message(), "cannot query weaviate documents: e");
}

#[test]
fn near_text_clause() {
    assert_eq!(near_text("rust"), "{ concepts: [\"rust\"] }");
}

#[test]
fn query_results_are_capped() {
    let docs: Vec<Document> = (0..8).map(|i| Document::new(&format!("d{i}"), "n", "c", None)).collect();
    let capped = cap_results(docs);
    assert_eq!(capped.len(), QUERY_LIMIT);
    assert_eq!(capped[4].id, "d4");
    let few = cap_results(vec![Document::new("only", "n", "c", None)]);
    assert_eq!(few.len(), 1);
}

#[test]
fn first_completion_takes_first_choice() {
    assert_eq!(first_completion(vec![Some("a".to_string()), Some("b".to_string())]).unwrap(), "a");
    assert!(matches!(first_completion(vec![]), Err(llm::Error::NoCompletion)));
    assert!(matches!(first_completion(vec![None, Some("b".to_string())]), Err(llm::Error::NoCompletion)));
}

#[test]
fn dispatch_recognizes_ask_only() {
    match dispatch(ASK_COMMAND, Some("what is up".to_string()), "C123") {
        Dispatch::Ask { conversation_id, query } => {
            assert_eq!(conversation_id, "C123");
            assert_eq!(query, "what is up");
        }
        Dispatch::Ignore => panic!("ask was ignored"),
    }
    match dispatch("/ask", None, "C9") {
        Dispatch::Ask { query, .. } => assert_eq!(query, ""),
        Dispatch::Ignore => panic!("ask was ignored"),
    }
    assert!(matches!(dispatch("/help", Some("x".to_string()), "C1"), Dispatch::Ignore));
    assert_eq!(ACKNOWLEDGMENT, "Loading...");
}

#[test]
fn listen_port_defaults_to_8080() {
    assert_eq!(listen_port(None), 8080);
    assert_eq!(listen_port(Some(3000)), 3000);
}

#[test]
fn llm_error_messages() {
    assert_eq!(llm::Error::NoCompletion.message(), "no completion produced");
    assert_eq!(llm::Error::Request("timeout".to_string()).message(), "timeout");
}

#[test]
fn conversation_duplicate_keeps_order() {
    let mut c = Conversation::seeded("sys");
    c.push(Message::new(Role::User, "u1"));
    c.push(Message::new(Role::Assistant, "a1"));
    let d = c.duplicate();
    assert_eq!(roles_and_texts(&d), roles_and_texts(&c));
    assert_eq!(d.len(), 3);
}

#[test]
fn registry_len_counts_distinct_names() {
    let mut r: Registry<&str> = Registry::new();
    assert_eq!(r.len(), 0);
    r.insert("x", "1");
    r.insert("y", "2");
    r.insert("x", "3");
    assert_eq!(r.len(), 2);
}
