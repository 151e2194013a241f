use lsp_agent::document::{AgentResponse, ConversationFragment, LspAgent};
use lsp_agent::prompts::DocsInfo;
use lsp_agent::turn::{
    engine_reply_text, interpret_tool_reply, new_app_id, parse_tool_response, ChatTurn,
    ToolResponse, TurnOutcome, DEFAULT_TOOL_MAX_ITERATIONS, NO_ACTION_MESSAGE,
};
use serde_json::Value;

fn run(agent: &mut LspAgent, user: &str, model: Option<&str>, max: usize, replies: &[&str]) -> Option<String> {
    let mut turn = ChatTurn::start(agent, user.to_string(), model.map(|m| m.to_string()), max);
    let mut next = 0;
    while !turn.is_done() {
        let _prompt = turn.prompt();
        turn.on_reply(replies[next].to_string());
        next += 1;
    }
    turn.finish(agent, "app-test".to_string())
}

#[test]
fn immediate_answer_adds_user_and_answer_only() {
    let mut agent = LspAgent::default();
    agent.conversation_history.push(ConversationFragment::User("earlier".to_string()));
    let reply = run(&mut agent, "hello", Some("fast"), 3, &[r#"{"action":"answer","message":"hi there"}"#]);
    assert_eq!(reply, Some("hi there".to_string()));
    assert_eq!(
        agent.conversation_history,
        vec![
            ConversationFragment::User("earlier".to_string()),
            ConversationFragment::User("hello".to_string()),
            ConversationFragment::Assistant("hi there".to_string()),
        ]
    );
    assert_eq!(agent.active_model, Some("fast".to_string()));
}

#[test]
fn repeated_block_request_ends_with_already_provided() {
    let mut agent = LspAgent::default();
    let reply = run(
        &mut agent,
        "what runs?",
        None,
        3,
        &[r#"{"action":"list_apps"}"#, r#"{"action":"list_apps"}"#],
    )
    .unwrap();
    assert!(reply.contains("already provided"));
    assert!(reply.starts_with("App list"));
    assert_eq!(
        agent.conversation_history,
        vec![
            ConversationFragment::User("what runs?".to_string()),
            ConversationFragment::Assistant("Assistant requested info on running apps.".to_string()),
            ConversationFragment::Assistant(reply.clone()),
        ]
    );
}

#[test]
fn repeated_docs_and_values_requests_end_the_turn() {
    let mut agent = LspAgent::default();
    let reply = run(&mut agent, "q", None, 5, &[r#"{"action":"list_docs"}"#, r#"{"action":"list_docs"}"#]).unwrap();
    assert!(reply.starts_with("Document list") && reply.contains("already provided"));
    let reply = run(
        &mut agent,
        "q",
        None,
        5,
        &[r#"{"action":"list_app_values"}"#, r#"{"action":"list_app_values"}"#],
    )
    .unwrap();
    assert!(reply.starts_with("Stored values list") && reply.contains("already provided"));
}

#[test]
fn non_json_reply_is_the_answer() {
    let mut agent = LspAgent::default();
    let reply = run(&mut agent, "hi", None, 3, &["just some text"]);
    assert_eq!(reply, Some("just some text".to_string()));
}

#[test]
fn budget_of_one_with_list_apps_gives_fallback() {
    let mut agent = LspAgent::default();
    let reply = run(&mut agent, "hi", None, 1, &[r#"{"action":"list_apps"}"#]);
    assert_eq!(reply, Some(NO_ACTION_MESSAGE.to_string()));
    assert!(NO_ACTION_MESSAGE.starts_with("No actionable response"));
}

#[test]
fn zero_budget_makes_no_call() {
    let mut agent = LspAgent::default();
    let reply = run(&mut agent, "hi", None, 0, &[]);
    assert_eq!(reply, Some(NO_ACTION_MESSAGE.to_string()));
}

#[test]
fn context_then_answer_records_markers() {
    let mut agent = LspAgent::default();
    agent.launch_app("app-1".to_string(), "<todo/>".to_string());
    agent.did_open("b.rs".to_string(), String::new());
    let mut turn = ChatTurn::start(&agent, "help".to_string(), None, DEFAULT_TOOL_MAX_ITERATIONS);
    let p0: Value = serde_json::from_str(&turn.prompt()).unwrap();
    assert!(p0.get("apps").is_none());
    assert_eq!(p0["latest_user"].as_str().unwrap(), "help");
    turn.on_reply(r#"{"action":"list_apps"}"#.to_string());
    let p1: Value = serde_json::from_str(&turn.prompt()).unwrap();
    assert_eq!(p1["apps"][0].as_str().unwrap(), "<todo/>");
    assert_eq!(p1["latest_user"].as_str().unwrap(), "");
    turn.on_reply(r#"{"action":"list_docs"}"#.to_string());
    let p2: Value = serde_json::from_str(&turn.prompt()).unwrap();
    assert_eq!(p2["open_documents"][0].as_str().unwrap(), "b.rs");
    turn.on_reply(r#"{"action":"answer","message":"done"}"#.to_string());
    assert!(turn.is_done());
    let reply = turn.finish(&mut agent, "unused".to_string());
    assert_eq!(reply, Some("done".to_string()));
    assert_eq!(
        agent.conversation_history,
        vec![
            ConversationFragment::User("help".to_string()),
            ConversationFragment::Assistant("Assistant requested info on running apps.".to_string()),
            ConversationFragment::Assistant("Assistant requested info on open documents.".to_string()),
            ConversationFragment::Assistant("done".to_string()),
        ]
    );
}

#[test]
fn launch_app_turn_adds_view_and_reply() {
    let mut agent = LspAgent::default();
    let reply = run(&mut agent, "make a clock", None, 3, &[r#"{"action":"launch_app","app":"<clock/>"}"#]);
    assert_eq!(reply, None);
    assert_eq!(agent.webviews.documents.len(), 1);
    assert_eq!(agent.webviews.documents[0].0, "app-test");
    assert_eq!(
        agent.responses,
        vec![AgentResponse::WebApp { id: "app-test".to_string(), content: "<clock/>".to_string() }]
    );
    assert_eq!(agent.conversation_history, vec![ConversationFragment::User("make a clock".to_string())]);
}

#[test]
fn nothing_turn_leaves_transcript_alone() {
    let mut agent = LspAgent::default();
    let reply = run(&mut agent, "ok", None, 3, &[r#"{"action":"nothing"}"#]);
    assert_eq!(reply, None);
    assert!(agent.conversation_history.is_empty());
}

#[test]
fn unknown_action_answers_with_raw_text() {
    let mut agent = LspAgent::default();
    let raw = r#"{"action":"dance"}"#;
    let reply = run(&mut agent, "hi", None, 3, &[raw]);
    assert_eq!(reply, Some(raw.to_string()));
}

#[test]
fn parse_reads_fields_and_falls_back_to_raw_text() {
    let r = parse_tool_response(r#"{"action":"launch_app","app":"<x/>"}"#);
    assert_eq!(r, ToolResponse { action: "launch_app".to_string(), message: None, app: Some("<x/>".to_string()) });
    let raw = r#"{"action":"answer"}"#;
    let r = parse_tool_response(raw);
    assert_eq!(r.message, Some(raw.to_string()));
    let r = parse_tool_response("plain words");
    assert_eq!(r, ToolResponse { action: "answer".to_string(), message: Some("plain words".to_string()), app: None });
}

#[test]
fn interpret_uses_decoded_fields() {
    let r = interpret_tool_reply("raw", Some((Some("list_docs".to_string()), None, None)));
    assert_eq!(r.action, "list_docs");
    let r = interpret_tool_reply("raw", Some((None, Some("m".to_string()), None)));
    assert_eq!(r, ToolResponse { action: "answer".to_string(), message: Some("raw".to_string()), app: None });
    let r = interpret_tool_reply("raw", None);
    assert_eq!(r.message, Some("raw".to_string()));
}

#[test]
fn engine_failure_becomes_error_text() {
    assert_eq!(engine_reply_text(Err("timeout".to_string())), "Error: timeout");
    assert_eq!(engine_reply_text(Ok("fine".to_string())), "fine");
}

#[test]
fn app_ids_are_prefixed_and_fresh() {
    let a = new_app_id();
    let b = new_app_id();
    assert!(a.starts_with("app-"));
    assert_eq!(a.len(), 40);
    assert_ne!(a, b);
}

#[test]
fn turn_new_uses_given_blocks() {
    let docs = DocsInfo { open_documents: vec!["x.rs".to_string()], active_document: None };
    let mut turn = ChatTurn::new(vec![], "u".to_string(), None, vec![], docs, vec![], 2);
    turn.on_reply(r#"{"action":"list_docs"}"#.to_string());
    let p: Value = serde_json::from_str(&turn.prompt()).unwrap();
    assert_eq!(p["open_documents"][0].as_str().unwrap(), "x.rs");
    assert!(!turn.is_done());
    turn.on_reply(r#"{"action":"nothing"}"#.to_string());
    assert_eq!(turn.outcome(), Some(TurnOutcome::Nothing));
}

#[test]
fn extra_fields_in_a_tool_call_are_ignored() {
    let r = parse_tool_response(r#"{"action":"answer","message":"hi","confidence":0.9}"#);
    assert_eq!(r, ToolResponse { action: "answer".to_string(), message: Some("hi".to_string()), app: None });
}

#[test]
fn launch_without_app_text_gives_fallback() {
    let mut agent = LspAgent::default();
    let reply = run(&mut agent, "hi", None, 3, &[r#"{"action":"launch_app","app":5}"#]);
    assert_eq!(reply, Some(NO_ACTION_MESSAGE.to_string()));
    assert!(agent.webviews.documents.is_empty());
}

#[test]
fn answer_without_message_answers_with_raw_text() {
    let mut agent = LspAgent::default();
    let raw = r#"{"action":"answer"}"#;
    let reply = run(&mut agent, "", None, 3, &[raw]);
    assert_eq!(reply, Some(raw.to_string()));
    assert_eq!(agent.conversation_history, vec![ConversationFragment::Assistant(raw.to_string())]);
}
