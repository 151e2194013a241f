use lsp_agent::bootstrap::{poll_step, poll_step_from_trimmed, PollStep};
use lsp_agent::document::{AgentResponse, Id, LspAgent};
use lsp_agent::routing::{check_agent_state, handle_web_doc_change, ControlStep, PendingReplies, WebStep};

#[test]
fn requests_are_taken_in_push_order_once() {
    let mut agent = LspAgent::default();
    agent.active_model = Some("m1".to_string());
    agent.app_inference_request("first".to_string(), "a".to_string());
    agent.app_inference_request("second".to_string(), "b".to_string());
    agent.app_inference_request("third".to_string(), "a".to_string());
    let mut seen = Vec::new();
    for _ in 0..6 {
        match check_agent_state(&mut agent) {
            ControlStep::Serve { content, app_id, model } => {
                assert_eq!(model, Some("m1".to_string()));
                seen.push((content, app_id));
            }
            ControlStep::Idle => {}
            ControlStep::Shutdown => panic!("not shutting down"),
        }
    }
    assert_eq!(
        seen,
        vec![
            ("first".to_string(), "a".to_string()),
            ("second".to_string(), "b".to_string()),
            ("third".to_string(), "a".to_string()),
        ]
    );
    assert!(agent.requests.is_empty());
}

#[test]
fn exit_stops_both_loops_and_dequeues_nothing() {
    let mut agent = LspAgent::default();
    agent.app_inference_request("pending".to_string(), "a".to_string());
    agent.launch_app("app-1".to_string(), "<html/>".to_string());
    agent.shutdown();
    assert!(agent.should_exit);
    assert_eq!(check_agent_state(&mut agent), ControlStep::Shutdown);
    assert_eq!(handle_web_doc_change(&mut agent), WebStep::Exit);
    assert_eq!(check_agent_state(&mut agent), ControlStep::Shutdown);
    assert_eq!(agent.requests.len(), 1);
    assert_eq!(agent.responses.len(), 1);
}

#[test]
fn web_side_dispatches_replies_in_order() {
    let mut agent = LspAgent::default();
    assert_eq!(handle_web_doc_change(&mut agent), WebStep::Idle);
    agent.launch_app("app-1".to_string(), "<html/>".to_string());
    agent.handle_inference_response("app-1".to_string(), "42".to_string());
    assert_eq!(
        handle_web_doc_change(&mut agent),
        WebStep::Launch { id: "app-1".to_string(), content: "<html/>".to_string() }
    );
    assert_eq!(
        handle_web_doc_change(&mut agent),
        WebStep::Deliver { app_id: "app-1".to_string(), content: "42".to_string() }
    );
    assert_eq!(handle_web_doc_change(&mut agent), WebStep::Idle);
}

#[test]
fn web_side_leaves_chat_reply_alone() {
    let mut agent = LspAgent::default();
    agent.responses.push(AgentResponse::Chat("legacy".to_string()));
    assert_eq!(handle_web_doc_change(&mut agent), WebStep::Idle);
    assert_eq!(agent.responses.len(), 1);
}

#[test]
fn pending_replies_complete_oldest_first_per_app() {
    let mut pending: PendingReplies<u32> = PendingReplies::new();
    pending.enqueue("a".to_string(), 1);
    pending.enqueue("b".to_string(), 2);
    pending.enqueue("a".to_string(), 3);
    assert_eq!(pending.complete("a"), Some(1));
    assert_eq!(pending.complete("c"), None);
    assert_eq!(pending.complete("a"), Some(3));
    assert_eq!(pending.complete("a"), None);
    assert_eq!(pending.len(), 1);
    assert_eq!(pending.complete("b"), Some(2));
}

#[test]
fn identifier_poll_trims_and_retries() {
    assert_eq!(poll_step(None), PollStep::Retry);
    assert_eq!(poll_step(Some(" \n".to_string())), PollStep::Retry);
    assert_eq!(
        poll_step(Some("  4f2a9c \n".to_string())),
        PollStep::Found(Id { value: "4f2a9c".to_string() })
    );
    assert_eq!(poll_step_from_trimmed(String::new()), PollStep::Retry);
    assert_eq!(
        poll_step_from_trimmed("x".to_string()),
        PollStep::Found(Id { value: "x".to_string() })
    );
}
