use agent::agent::{SessionStatus, SingleAgent};
use agent::error::{ChatError, ErrorKind};
use agent::message::{Message, MessageType};
use agent::stream::ChatRespStream;

fn contents(msgs: &Vec<Message>) -> Vec<String> {
    msgs.iter().map(|m| m.content.clone()).collect()
}

fn agent_with_history(n: usize) -> SingleAgent {
    let mut h = Vec::new();
    for i in 0..n {
        h.push(Message::new_user(format!("m{i}")));
    }
    SingleAgent::new().cove_chat_history(h)
}

#[test]
fn busy_session_rejects_chat_and_keeps_history() {
    let mut a = agent_with_history(2);
    a.accept_turn("q".to_string());
    let before = contents(a.history());
    let r = a.prepare_chat("again");
    assert!(matches!(r, Err(ChatError { kind: ErrorKind::Busy, .. })));
    assert_eq!(contents(a.history()), before);
    assert!(a.request_cancel());
    let r = a.prepare_chat("again");
    assert!(matches!(r, Err(ChatError { kind: ErrorKind::Busy, .. })));
    assert_eq!(contents(a.history()), before);
}

#[test]
fn prompt_window_keeps_most_recent_entries() {
    let a = agent_with_history(4).set_max_history(2).set_prompt("sys".to_string());
    let w = a.prepare_chat("new").ok().unwrap();
    assert_eq!(contents(&w), vec!["sys", "m2", "m3", "new"]);
    assert!(matches!(w[0].role, MessageType::SYSTEM));
    assert!(matches!(w[3].role, MessageType::User));
}

#[test]
fn prompt_window_without_prompt_or_history_limit() {
    let a = agent_with_history(3).set_max_history(10);
    let w = a.prepare_chat("q").ok().unwrap();
    assert_eq!(contents(&w), vec!["m0", "m1", "m2", "q"]);
    let a = agent_with_history(3).set_max_history(0);
    let w = a.prepare_chat("q").ok().unwrap();
    assert_eq!(contents(&w), vec!["q"]);
}

#[test]
fn successful_turn_appends_query_and_reply() {
    let mut a = agent_with_history(1);
    let mut live = ChatRespStream::new();
    let mut reply = String::new();
    a.accept_turn("hello".to_string());
    assert_eq!(a.get_status(), 2);
    assert!(a.watch_step(&mut reply, &mut live, Ok(Message::new_assistant("Hi ".to_string()))));
    assert!(a.watch_step(&mut reply, &mut live, Ok(Message::new_assistant("there".to_string()))));
    assert!(!a.watch_step(&mut reply, &mut live, Ok(Message::default())));
    assert_eq!(contents(a.history()), vec!["m0", "hello", "Hi there"]);
    assert!(matches!(a.history()[2].role, MessageType::Assistant));
    assert!(a.status_is_usable());
    assert_eq!(a.get_status(), 1);
    assert_eq!(live.next().ok().unwrap(), Some("Hi ".to_string()));
    assert_eq!(live.next().ok().unwrap(), Some("there".to_string()));
    assert_eq!(live.next().ok().unwrap(), Some(String::new()));
    assert_eq!(live.next().ok().unwrap(), None);
}

#[test]
fn transport_error_rolls_back_turn() {
    let mut a = agent_with_history(2);
    let before = contents(a.history());
    let mut live = ChatRespStream::new();
    let mut reply = String::new();
    a.accept_turn("q".to_string());
    let err = ChatError::new(ErrorKind::Transport, "connection reset".to_string());
    assert!(!a.watch_step(&mut reply, &mut live, Err(err)));
    assert_eq!(contents(a.history()), before);
    assert_eq!(a.status(), SessionStatus::Usable);
    match live.next() {
        Err(e) => {
            assert_eq!(e.kind, ErrorKind::Transport);
            assert_eq!(e.describe(), "connection reset");
        }
        Ok(_) => panic!("the live view should yield the error"),
    }
}

#[test]
fn failed_turn_after_fragments_rolls_back() {
    let mut a = agent_with_history(1);
    let before = contents(a.history());
    let mut live = ChatRespStream::new();
    let mut reply = String::new();
    a.accept_turn("q".to_string());
    assert!(a.watch_step(&mut reply, &mut live, Ok(Message::new_assistant("part".to_string()))));
    let err = ChatError::new(ErrorKind::Parse, "data: ???".to_string());
    assert!(!a.watch_step(&mut reply, &mut live, Err(err)));
    assert_eq!(contents(a.history()), before);
    assert!(a.status_is_usable());
}

#[test]
fn cancelled_turn_discards_reply() {
    let mut a = agent_with_history(2);
    let before = contents(a.history());
    let mut live = ChatRespStream::new();
    let mut reply = String::new();
    a.accept_turn("q".to_string());
    assert!(a.request_cancel());
    assert_eq!(a.get_status(), 3);
    assert!(a.watch_step(&mut reply, &mut live, Ok(Message::new_assistant("ignored".to_string()))));
    assert!(!a.watch_step(&mut reply, &mut live, Ok(Message::default())));
    assert_eq!(contents(a.history()), before);
    assert!(a.status_is_usable());
    assert_eq!(live.next().ok().unwrap(), Some("ignored".to_string()));
    assert_eq!(live.next().ok().unwrap(), Some(String::new()));
}

#[test]
fn cancel_is_refused_when_no_turn_is_in_flight() {
    let mut a = SingleAgent::new();
    assert!(!a.request_cancel());
    assert_eq!(a.status(), SessionStatus::Usable);
}

#[test]
fn clear_history_respects_busy_gating() {
    let mut a = agent_with_history(3);
    a.accept_turn("q".to_string());
    assert!(matches!(a.clear_chat_history(), Err(ChatError { kind: ErrorKind::Busy, .. })));
    assert_eq!(a.history().len(), 4);
    let mut a = agent_with_history(3);
    assert!(a.clear_chat_history().is_ok());
    assert!(a.history().is_empty());
}

#[test]
fn new_session_defaults() {
    let a = SingleAgent::new();
    assert_eq!(a.max_history(), 30);
    assert_eq!(a.prompt(), "");
    assert_eq!(a.status(), SessionStatus::Usable);
    assert!(a.history().is_empty());
    let c = a.model_config();
    assert_eq!(c.name, "");
    assert_eq!(c.temperature_milli, 1000);
    assert_eq!(c.top_p_milli, 900);
    assert_eq!(c.max_output_token, 512);
    assert!(c.stream);
    assert!(c.extend.is_empty());
    let a = a.set_model_config(|c| c.set_name("qwen-turbo".to_string()));
    assert_eq!(a.model_config().name, "qwen-turbo");
}
