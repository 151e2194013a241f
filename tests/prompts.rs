use lsp_agent::document::ConversationFragment;
use lsp_agent::prompts::{build_web_request, render_history, DocsInfo, StoredValueInfo};
use serde_json::Value;

#[test]
fn test_build_web_request_basic() {
    let history = vec![ConversationFragment::User("hello".to_string())];
    let request = build_web_request(&history, "test prompt", None, None, None);
    let parsed: Value = serde_json::from_str(&request).unwrap();

    assert!(parsed["system"]
        .as_str()
        .unwrap()
        .contains("You are an expert web developer assistant"));
    assert_eq!(parsed["latest_user"].as_str().unwrap(), "test prompt");
    assert!(parsed["history"].is_array());

    assert!(parsed.get("apps").is_none());
    assert!(parsed.get("open_documents").is_none());
}

#[test]
fn test_build_web_request_with_apps() {
    let history = vec![ConversationFragment::Assistant("previous response".to_string())];
    let apps = vec!["app1".to_string(), "app2".to_string()];
    let request = build_web_request(&history, "launch app", Some(&apps), None, None);
    let parsed: Value = serde_json::from_str(&request).unwrap();

    let apps_val = parsed
        .get("apps")
        .and_then(|v| v.as_array())
        .expect("apps should be an array");
    assert_eq!(apps_val[0].as_str().unwrap(), "app1");
    assert_eq!(apps_val[1].as_str().unwrap(), "app2");
    assert!(parsed.get("apps_note").is_some());
    assert!(parsed["history"].as_array().unwrap()[0]["content"]
        .as_str()
        .unwrap()
        .contains("previous response"));
}

#[test]
fn test_build_web_request_with_docs() {
    let history = vec![];
    let docs = DocsInfo {
        open_documents: vec!["file1.rs".to_string(), "file2.rs".to_string()],
        active_document: Some("file1.rs".to_string()),
    };
    let request = build_web_request(&history, "summarize", None, Some(&docs), None);
    let parsed: Value = serde_json::from_str(&request).unwrap();

    let docs_arr = parsed
        .get("open_documents")
        .and_then(|v| v.as_array())
        .expect("open_documents should be an array");
    assert!(docs_arr.iter().any(|v| v.as_str().unwrap() == "file1.rs"));
    assert!(parsed.get("docs_note").is_some());
    assert_eq!(
        parsed
            .get("active_document")
            .and_then(|v| v.as_str())
            .unwrap(),
        "file1.rs"
    );
}

#[test]
fn test_build_web_request_with_all_options() {
    let history = vec![
        ConversationFragment::User("user question".to_string()),
        ConversationFragment::Assistant("assistant response".to_string()),
    ];
    let apps = vec!["todo app".to_string()];
    let docs = DocsInfo {
        open_documents: vec!["main.rs".to_string()],
        active_document: Some("main.rs".to_string()),
    };
    let request = build_web_request(&history, "help me", Some(&apps), Some(&docs), None);
    let parsed: Value = serde_json::from_str(&request).unwrap();

    let hist = parsed.get("history").and_then(|v| v.as_array()).unwrap();
    assert!(hist
        .iter()
        .any(|i| i["content"].as_str().unwrap() == "user question"));
    assert_eq!(parsed["apps"][0].as_str().unwrap(), "todo app");
    assert_eq!(parsed["open_documents"][0].as_str().unwrap(), "main.rs");
    assert!(parsed.get("apps_note").is_some());
    assert!(parsed.get("docs_note").is_some());
}

#[test]
fn test_render_history_basic() {
    let history = vec![
        ConversationFragment::User("user message".to_string()),
        ConversationFragment::Assistant("assistant message".to_string()),
    ];

    let items = render_history(&history, false, false);
    assert_eq!(items.len(), 2);
    assert_eq!(items[0].role, "user");
    assert_eq!(items[0].content, "user message");
    assert_eq!(items[1].role, "assistant");
    assert_eq!(items[1].content, "assistant message");
}

#[test]
fn test_render_history_with_markers() {
    let history = vec![ConversationFragment::User("test".to_string())];

    let items = render_history(&history, true, true);
    assert_eq!(items.len(), 3);
    assert_eq!(items[1].role, "assistant");
    assert_eq!(items[1].content, "Assistant requested info on running apps.");
    assert_eq!(items[2].role, "assistant");
    assert_eq!(items[2].content, "Assistant requested info on open documents.");
}

#[test]
fn test_render_history_empty() {
    let history = vec![];
    let items = render_history(&history, false, false);
    assert_eq!(items.len(), 0);
}

#[test]
fn request_is_one_json_object_with_escaped_text() {
    let history = vec![ConversationFragment::User("say \"hi\"\nplease".to_string())];
    let request = build_web_request(&history, "back\\slash \u{e9}", None, None, None);
    let parsed: Value = serde_json::from_str(&request).unwrap();
    assert_eq!(parsed["history"][0]["role"].as_str().unwrap(), "user");
    assert_eq!(parsed["history"][0]["content"].as_str().unwrap(), "say \"hi\"\nplease");
    assert_eq!(parsed["latest_user"].as_str().unwrap(), "back\\slash \u{e9}");
    assert_eq!(parsed.as_object().unwrap().len(), 3);
}

#[test]
fn request_exact_framing_without_blocks() {
    let request = build_web_request(&[], "x", None, None, None);
    assert!(request.starts_with("{\"system\":\""));
    assert!(request.ends_with(",\"history\":[],\"latest_user\":\"x\"}"));
}

#[test]
fn request_lists_stored_values_without_values() {
    let values = vec![
        StoredValueInfo { key: "k1".to_string(), description: "first".to_string() },
        StoredValueInfo { key: "k2".to_string(), description: "second".to_string() },
    ];
    let request = build_web_request(&[], "go", None, None, Some(&values));
    let parsed: Value = serde_json::from_str(&request).unwrap();
    let arr = parsed["stored_values"].as_array().unwrap();
    assert_eq!(arr.len(), 2);
    assert_eq!(arr[0]["key"].as_str().unwrap(), "k1");
    assert_eq!(arr[1]["description"].as_str().unwrap(), "second");
    assert!(parsed.get("stored_values_note").is_some());
    assert!(parsed.get("apps").is_none());
}

#[test]
fn request_docs_without_active_document() {
    let docs = DocsInfo { open_documents: vec![], active_document: None };
    let request = build_web_request(&[], "q", None, Some(&docs), None);
    let parsed: Value = serde_json::from_str(&request).unwrap();
    assert_eq!(parsed["open_documents"].as_array().unwrap().len(), 0);
    assert!(parsed.get("active_document").is_none());
    assert!(parsed.get("docs_note").is_some());
}
