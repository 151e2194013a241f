use lsp_agent::context::{collect_apps, collect_docs, collect_stored_values};
use lsp_agent::document::{
    AgentRequest, AgentResponse, ConversationFragment, DocumentManager, Id, LspAgent, NoStorage,
};

#[test]
fn test_lsp_agent_default() {
    let agent = LspAgent::default();
    assert!(agent.requests.is_empty());
    assert!(agent.responses.is_empty());
    assert!(agent.text_documents.documents.is_empty());
    assert!(agent.webviews.documents.is_empty());
    assert!(!agent.should_exit);
    assert!(agent.active_model.is_none());
    assert!(agent.conversation_history.is_empty());
    assert!(agent.stored_values.is_empty());
}

#[test]
fn test_id_conversions() {
    let id = Id::from("test".to_string());
    assert_eq!(id.value, "test");
    assert_eq!(id.as_ref(), "test");

    let id2: Id = "test2".parse().unwrap();
    assert_eq!(id2.value, "test2");
}

#[test]
fn test_no_storage() {
    let storage = NoStorage;
    let result = storage.get(&Id::from("any".to_string()));
    assert!(result.is_none());
    assert!(storage.list_all().is_empty());
}

#[test]
fn id_prints_its_value() {
    assert_eq!(Id::from("doc-7".to_string()).to_string(), "doc-7");
}

#[test]
fn launched_app_is_not_a_readable_document() {
    let mut agent = LspAgent::default();
    agent.launch_app("app-1".to_string(), "<html></html>".to_string());
    assert_eq!(agent.webviews.documents.len(), 1);
    assert_eq!(agent.webviews.documents[0].0, "app-1");
    assert_eq!(agent.webviews.documents[0].1.text, "<html></html>");
    assert_eq!(
        agent.responses,
        vec![AgentResponse::WebApp { id: "app-1".to_string(), content: "<html></html>".to_string() }]
    );
    assert_eq!(agent.read_document("app-1"), "");

    agent.did_open("file:///a.rs".to_string(), "fn main() {}".to_string());
    assert_eq!(agent.read_document("file:///a.rs"), "fn main() {}");
}

#[test]
fn did_change_replaces_text_in_place() {
    let mut agent = LspAgent::default();
    agent.did_open("a".to_string(), "one".to_string());
    agent.did_open("b".to_string(), "two".to_string());
    agent.did_change("a".to_string(), "uno".to_string());
    assert_eq!(agent.text_documents.documents.len(), 2);
    assert_eq!(agent.text_documents.documents[0].0, "a");
    assert_eq!(agent.read_document("a"), "uno");
    agent.did_close("a");
    assert_eq!(agent.read_document("a"), "");
    assert_eq!(agent.read_document("b"), "two");
    agent.did_close("missing");
    assert_eq!(agent.text_documents.documents.len(), 1);
}

#[test]
fn active_document_is_recorded() {
    let mut agent = LspAgent::default();
    agent.set_active_document("file:///x".to_string());
    assert_eq!(agent.text_documents.active_document.as_ref().unwrap().value, "file:///x");
}

#[test]
fn stored_values_round_trip() {
    let mut agent = LspAgent::default();
    assert_eq!(agent.read_value("k"), None);
    agent.store_value("k".to_string(), "v1".to_string(), "a counter".to_string());
    agent.store_value("k".to_string(), "v2".to_string(), "the counter".to_string());
    assert_eq!(agent.read_value("k"), Some("v2".to_string()));
    assert_eq!(agent.stored_values.len(), 1);
    let infos = collect_stored_values(&agent.stored_values);
    assert_eq!(infos.len(), 1);
    assert_eq!(infos[0].key, "k");
    assert_eq!(infos[0].description, "the counter");
}

#[test]
fn close_app_forgets_view_and_notes_it() {
    let mut agent = LspAgent::default();
    agent.launch_app("app-9".to_string(), "<p>hi</p>".to_string());
    agent.close_app("app-9".to_string());
    assert!(agent.webviews.documents.is_empty());
    assert_eq!(
        agent.conversation_history,
        vec![ConversationFragment::Assistant("App closed: app-9".to_string())]
    );
}

#[test]
fn inference_request_and_response_are_queued() {
    let mut agent = LspAgent::default();
    agent.app_inference_request("prompt".to_string(), "app-1".to_string());
    assert_eq!(
        agent.requests,
        vec![AgentRequest::Inference { content: "prompt".to_string(), app_id: "app-1".to_string() }]
    );
    agent.handle_inference_response("app-1".to_string(), "reply".to_string());
    assert_eq!(
        agent.responses,
        vec![AgentResponse::Inference { app_id: "app-1".to_string(), content: "reply".to_string() }]
    );
}

#[test]
fn collect_docs_sorts_and_adds_missing_active() {
    let mut m = DocumentManager::new();
    m.insert("b.rs".to_string(), "B".to_string());
    m.insert("a.rs".to_string(), "A".to_string());
    m.insert("c.rs".to_string(), "C".to_string());
    let info = collect_docs(&m);
    assert_eq!(info.open_documents, vec!["a.rs", "b.rs", "c.rs"]);
    assert_eq!(info.active_document, None);

    m.active_document = Some(lsp_agent::document::Uri { value: "z.rs".to_string() });
    let info = collect_docs(&m);
    assert_eq!(info.open_documents, vec!["a.rs", "b.rs", "c.rs", "z.rs"]);
    assert_eq!(info.active_document, Some("z.rs".to_string()));

    m.active_document = Some(lsp_agent::document::Uri { value: "b.rs".to_string() });
    let info = collect_docs(&m);
    assert_eq!(info.open_documents, vec!["a.rs", "b.rs", "c.rs"]);
}

#[test]
fn collect_docs_orders_by_character_code() {
    let mut m = DocumentManager::new();
    m.insert("ab".to_string(), String::new());
    m.insert("a".to_string(), String::new());
    m.insert("B".to_string(), String::new());
    m.insert("\u{e9}".to_string(), String::new());
    let info = collect_docs(&m);
    assert_eq!(info.open_documents, vec!["B", "a", "ab", "\u{e9}"]);
}

#[test]
fn collect_apps_lists_contents() {
    let mut m = DocumentManager::new();
    m.insert("app-1".to_string(), "<one/>".to_string());
    m.insert("app-2".to_string(), "<two/>".to_string());
    assert_eq!(collect_apps(&m), vec!["<one/>".to_string(), "<two/>".to_string()]);
    assert!(collect_apps(&DocumentManager::new()).is_empty());
}
