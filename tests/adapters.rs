use agent::coze::{CozeModel, CozeRequest};
use agent::error::{ChatError, ErrorKind};
use agent::config::ModelConfig;
use agent::message::{ChatHistory, Message, MessageType};
use agent::qwen::{QwenChatRequest, QwenModel};

fn ok_lines(v: &[&str]) -> Vec<Result<String, ChatError>> {
    v.iter().map(|s| Ok(s.to_string())).collect()
}

fn describe(items: &Vec<Result<Message, ChatError>>) -> Vec<String> {
    items
        .iter()
        .map(|r| match r {
            Ok(m) => format!("ok:{}", m.content),
            Err(e) => format!("err:{:?}", e.kind),
        })
        .collect()
}

#[test]
fn coze_end_of_stream_scenario() {
    let lines = ok_lines(&[
        "event:conversation.message.delta",
        "data:{\"id\":\"1\",\"role\":\"assistant\",\"type\":\"answer\",\"content\":\"hi\",\"content_type\":\"text\"}",
        "data:\"[DONE]\"",
    ]);
    let mut state = false;
    let out = CozeModel::process_lines(&mut state, &lines);
    assert_eq!(describe(&out), vec!["ok:hi", "ok:"]);
    match &out[0] {
        Ok(m) => assert!(matches!(m.role, MessageType::Assistant)),
        Err(_) => panic!("expected a fragment"),
    }
    match &out[1] {
        Ok(m) => assert!(m.is_over()),
        Err(_) => panic!("expected the end marker"),
    }
}

#[test]
fn coze_replay_emits_same_sequence() {
    let lines = ok_lines(&[
        "event:conversation.chat.created",
        "data:{\"id\":\"0\"}",
        "event:conversation.message.delta",
        "data:{\"role\":\"assistant\",\"content\":\"a\"}",
        "event:conversation.message.delta",
        "data:{\"role\":\"assistant\",\"content\":\"b\"}",
        "data:\"[DONE]\"",
    ]);
    let mut s1 = false;
    let first = CozeModel::process_lines(&mut s1, &lines);
    let mut s2 = false;
    let second = CozeModel::process_lines(&mut s2, &lines);
    assert_eq!(describe(&first), vec!["ok:a", "ok:b", "ok:"]);
    assert_eq!(describe(&first), describe(&second));
    assert_eq!(s1, s2);
}

#[test]
fn coze_provider_error_emits_one_error_and_stops() {
    let bad = "data:{\"code\":4000,\"msg\":\"bad bot\"}";
    let lines = ok_lines(&[
        "event:conversation.message.delta",
        bad,
        "event:conversation.message.delta",
        "data:{\"content\":\"late\"}",
    ]);
    let mut state = false;
    let out = CozeModel::process_lines(&mut state, &lines);
    assert_eq!(out.len(), 1);
    match &out[0] {
        Err(e) => {
            assert_eq!(e.kind, ErrorKind::Provider);
            assert_eq!(e.message, bad);
        }
        Ok(_) => panic!("expected an error"),
    }
}

#[test]
fn coze_malformed_payload_is_a_parse_error() {
    let mut state = true;
    let r = CozeModel::sse_stream_response_process(&mut state, Ok("data:{not json".to_string()));
    assert!(matches!(r, Err(ChatError { kind: ErrorKind::Parse, .. })));
    assert!(!state);
    let mut state = true;
    let r = CozeModel::sse_stream_response_process(&mut state, Ok("dat".to_string()));
    assert!(matches!(r, Err(ChatError { kind: ErrorKind::Parse, .. })));
}

#[test]
fn coze_empty_fragment_is_skipped_and_other_lines_ignored() {
    let mut state = false;
    let (cont, item) = CozeModel::handle_line(&mut state, Ok("".to_string()));
    assert!(cont && item.is_none() && !state);
    let (cont, item) = CozeModel::handle_line(&mut state, Ok("event:conversation.message.delta".to_string()));
    assert!(cont && item.is_none() && state);
    let (cont, item) = CozeModel::handle_line(&mut state, Ok("data:{\"content\":\"\"}".to_string()));
    assert!(cont && item.is_none() && !state);
}

#[test]
fn coze_role_names_are_read_without_case() {
    let mut state = true;
    let r = CozeModel::sse_stream_response_process(&mut state, Ok("data:{\"role\":\"ASSISTANT\",\"content\":\"x\"}".to_string()));
    match r {
        Ok((true, Some(m))) => assert!(matches!(m.role, MessageType::Assistant)),
        _ => panic!("expected a fragment"),
    }
    let mut state = true;
    let r = CozeModel::sse_stream_response_process(&mut state, Ok("data:{\"role\":\"Bot\",\"content\":\"x\"}".to_string()));
    match r {
        Ok((true, Some(m))) => match m.role {
            MessageType::Unknown(s) => assert_eq!(s, "Bot"),
            _ => panic!("expected an unknown role"),
        },
        _ => panic!("expected a fragment"),
    }
}

#[test]
fn coze_transport_error_is_forwarded() {
    let mut state = false;
    let (cont, item) = CozeModel::handle_line(&mut state, Err(ChatError::new(ErrorKind::Transport, "eof".to_string())));
    assert!(!cont);
    assert!(matches!(item, Some(Err(ChatError { kind: ErrorKind::Transport, .. }))));
}

#[test]
fn missing_credential_is_a_configuration_error() {
    assert!(matches!(CozeModel::new(String::new()).check_credential(), Err(ChatError { kind: ErrorKind::Configuration, .. })));
    assert!(CozeModel::new("k".to_string()).check_credential().is_ok());
    assert!(matches!(QwenModel::new(String::new()).check_credential(), Err(ChatError { kind: ErrorKind::Configuration, .. })));
    assert!(QwenModel::new("k".to_string()).check_credential().is_ok());
    assert_eq!(QwenModel::new("k".to_string()).api_key(), "k");
}

#[test]
fn coze_request_carries_window_and_user_id() {
    let cfg = ModelConfig::default().set_name("7370540535557898252".to_string());
    let history = ChatHistory::default().user("who are you?").into_vec();
    let req = CozeRequest::build(&cfg, &history);
    assert_eq!(req.bot_id, "7370540535557898252");
    assert_eq!(req.user_id, "default");
    assert!(req.stream && !req.auto_save_history);
    assert_eq!(req.additional_messages.len(), 1);
    assert_eq!(req.additional_messages[0].role, "user");
    assert_eq!(req.additional_messages[0].content, "who are you?");
    assert_eq!(req.additional_messages[0].content_type, "text");
    let cfg = cfg.append_extend("user_id".to_string(), "teshin".to_string());
    assert_eq!(CozeRequest::build(&cfg, &history).user_id, "teshin");
}

#[test]
fn qwen_chunk_emits_each_nonempty_choice() {
    let line = "data: {\"id\":\"c1\",\"choices\":[{\"delta\":{\"role\":\"assistant\",\"content\":\"Hel\"}},{\"delta\":{\"content\":\"\"}},{\"delta\":{\"content\":\"lo\"}}]}";
    let (cont, out) = QwenModel::handle_line(Ok(line.to_string()));
    assert!(cont);
    assert_eq!(describe(&out), vec!["ok:Hel", "ok:lo"]);
}

#[test]
fn qwen_done_blank_and_bad_lines() {
    let (cont, out) = QwenModel::handle_line(Ok("data: [DONE]".to_string()));
    assert!(!cont);
    assert_eq!(describe(&out), vec!["ok:"]);
    let (cont, out) = QwenModel::handle_line(Ok(String::new()));
    assert!(cont && out.is_empty());
    let (cont, out) = QwenModel::handle_line(Ok("data: {\"choices\":[]}".to_string()));
    assert!(!cont);
    assert_eq!(describe(&out), vec!["err:Parse"]);
    let (cont, out) = QwenModel::handle_line(Ok("data".to_string()));
    assert!(!cont);
    assert_eq!(describe(&out), vec!["err:Parse"]);
    let (cont, out) = QwenModel::handle_line(Err(ChatError::new(ErrorKind::Transport, "x".to_string())));
    assert!(!cont);
    assert_eq!(describe(&out), vec!["err:Transport"]);
}

#[test]
fn qwen_request_copies_settings() {
    let cfg = ModelConfig::default().set_name("qwen-turbo".to_string()).set_temperature_milli(700);
    let history = ChatHistory::system("you help with rust").user("who are you?").into_vec();
    let req = QwenChatRequest::build(&cfg, &history);
    assert_eq!(req.model, "qwen-turbo");
    assert_eq!(req.temperature_milli, 700);
    assert_eq!(req.top_p_milli, 900);
    assert_eq!(req.max_tokens, 512);
    assert!(req.stream);
    assert_eq!(req.messages.len(), 2);
    assert_eq!(req.messages[0].role, "system");
    assert_eq!(req.messages[1].role, "user");
    assert_eq!(req.messages[1].content, "who are you?");
}

#[test]
fn coze_blank_line_keeps_waiting_for_payload() {
    let mut state = true;
    let (cont, item) = CozeModel::handle_line(&mut state, Ok(String::new()));
    assert!(cont && item.is_none() && state);
    let (cont, item) = CozeModel::handle_line(&mut state, Ok("data:{\"content\":\"x\"}".to_string()));
    assert!(cont && !state);
    assert!(matches!(item, Some(Ok(m)) if m.content == "x"));
}

#[test]
fn coze_payload_that_is_not_an_object_is_a_parse_error() {
    let mut state = true;
    let r = CozeModel::sse_stream_response_process(&mut state, Ok("data:\"text\"".to_string()));
    assert!(matches!(r, Err(ChatError { kind: ErrorKind::Parse, .. })));
}

#[test]
fn coze_field_of_wrong_type_is_a_parse_error() {
    let mut state = true;
    let r = CozeModel::sse_stream_response_process(&mut state, Ok("data:{\"code\":\"7\",\"content\":\"x\"}".to_string()));
    assert!(matches!(r, Err(ChatError { kind: ErrorKind::Parse, .. })));
    let mut state = true;
    let r = CozeModel::sse_stream_response_process(&mut state, Ok("data:{\"content\":3}".to_string()));
    assert!(matches!(r, Err(ChatError { kind: ErrorKind::Parse, .. })));
}

#[test]
fn qwen_role_of_wrong_type_is_a_parse_error() {
    let line = "data: {\"id\":\"c1\",\"choices\":[{\"delta\":{\"role\":null,\"content\":\"x\"}}]}";
    let (cont, out) = QwenModel::handle_line(Ok(line.to_string()));
    assert!(!cont);
    assert_eq!(describe(&out), vec!["err:Parse"]);
}
