use openai_chat::{
    decide_reply, CallOutcome, Choice, CompletionRequest, CompletionResponse, Config,
    ConfigurationError, ConversationState, Dispatcher, EmissionSignal, Message, OpenaiChatFilter,
    Role, StageError, TaskError, DEFAULT_ENDPOINT, DEFAULT_MODEL, PERSONA,
};

fn msg(role: Role, content: &str) -> Message {
    Message::new(role, content.to_string())
}

fn shape(ms: &[Message]) -> Vec<(Role, String)> {
    ms.iter().map(|m| (m.role, m.content.clone())).collect()
}

fn reply(content: &str) -> CallOutcome {
    CallOutcome::Answered {
        status: 200,
        reply: Some(CompletionResponse {
            choices: vec![Choice { message: msg(Role::Assistant, content) }],
        }),
    }
}

fn sys() -> (Role, String) {
    (Role::System, PERSONA.to_string())
}

#[test]
fn happy_path() {
    let mut f = OpenaiChatFilter::new();
    assert_eq!(f.process(b"Hello"), Ok(EmissionSignal::NoImmediateOutput));
    assert!(f.history_snapshot().len() == 2);
    let job = f.start_next().expect("a queued job");
    assert_eq!(job.request.model, DEFAULT_MODEL);
    assert_eq!(
        shape(&job.request.messages),
        vec![sys(), (Role::User, "Hello".to_string())]
    );
    let out = f.finish(reply("Hi")).expect("a reply");
    assert_eq!(out, b"Hi\n".to_vec());
    assert_eq!(
        shape(&f.history_snapshot()),
        vec![
            sys(),
            (Role::User, "Hello".to_string()),
            (Role::Assistant, "Hi".to_string())
        ]
    );
    assert!(!f.is_busy());
}

#[test]
fn race_scenario_keeps_snapshot_shapes() {
    let mut f = OpenaiChatFilter::new();
    f.process(b"A").unwrap();
    let r1 = f.start_next().unwrap();
    f.process(b"B").unwrap();
    assert_eq!(shape(&r1.request.messages), vec![sys(), (Role::User, "A".to_string())]);
    assert!(f.start_next().is_none());
    f.finish(reply("reply to A")).unwrap();
    let r2 = f.start_next().unwrap();
    assert_eq!(
        shape(&r2.request.messages),
        vec![
            sys(),
            (Role::User, "A".to_string()),
            sys(),
            (Role::User, "B".to_string())
        ]
    );
    f.finish(reply("reply to B")).unwrap();
    assert_eq!(
        shape(&f.history_snapshot()),
        vec![
            sys(),
            (Role::User, "A".to_string()),
            sys(),
            (Role::User, "B".to_string()),
            (Role::Assistant, "reply to A".to_string()),
            (Role::Assistant, "reply to B".to_string())
        ]
    );
}

#[test]
fn remote_failure_emits_nothing() {
    let mut f = OpenaiChatFilter::new();
    f.process(b"Hello").unwrap();
    f.start_next().unwrap();
    let before = shape(&f.history_snapshot());
    let r = f.finish(CallOutcome::Answered { status: 500, reply: None });
    assert_eq!(r, Err(TaskError::Remote(500)));
    assert_eq!(shape(&f.history_snapshot()), before);
    assert!(!f.is_busy());
    f.process(b"Again").unwrap();
    f.start_next().unwrap();
    assert_eq!(f.finish(reply("ok")).unwrap(), b"ok\n".to_vec());
}

#[test]
fn remote_failure_ignores_a_body() {
    let mut f = OpenaiChatFilter::new();
    f.process(b"Hello").unwrap();
    f.start_next().unwrap();
    let outcome = CallOutcome::Answered {
        status: 404,
        reply: Some(CompletionResponse {
            choices: vec![Choice { message: msg(Role::Assistant, "x") }],
        }),
    };
    assert_eq!(f.finish(outcome), Err(TaskError::Remote(404)));
    assert_eq!(f.history_snapshot().len(), 2);
}

#[test]
fn decode_failure_drops_the_chunk() {
    let mut f = OpenaiChatFilter::new();
    assert_eq!(f.process(&[0x48, 0xff, 0xfe]), Err(StageError::Decode));
    assert_eq!(f.history_snapshot().len(), 0);
    assert_eq!(f.pending_len(), 0);
    assert!(f.start_next().is_none());
    assert_eq!(f.process("日本".as_bytes()), Ok(EmissionSignal::NoImmediateOutput));
    assert_eq!(f.pending_len(), 1);
    let job = f.start_next().unwrap();
    assert_eq!(job.request.messages[1].content, "日本");
}

#[test]
fn transport_failure() {
    let mut f = OpenaiChatFilter::new();
    f.process(b"Hello").unwrap();
    f.start_next().unwrap();
    assert_eq!(f.finish(CallOutcome::TransportFailed), Err(TaskError::Transport));
    assert_eq!(f.history_snapshot().len(), 2);
}

#[test]
fn malformed_body_and_empty_choices_are_parse_errors() {
    let mut f = OpenaiChatFilter::new();
    f.process(b"one").unwrap();
    f.start_next().unwrap();
    let r = f.finish(CallOutcome::Answered { status: 200, reply: None });
    assert_eq!(r, Err(TaskError::Parse));
    f.process(b"two").unwrap();
    f.start_next().unwrap();
    let empty = CallOutcome::Answered { status: 200, reply: Some(CompletionResponse { choices: vec![] }) };
    assert_eq!(f.finish(empty), Err(TaskError::Parse));
    assert_eq!(f.history_snapshot().len(), 4);
}

#[test]
fn only_the_first_choice_counts() {
    let outcome = CallOutcome::Answered {
        status: 201,
        reply: Some(CompletionResponse {
            choices: vec![
                Choice { message: msg(Role::Assistant, "first") },
                Choice { message: msg(Role::Assistant, "second") },
            ],
        }),
    };
    let m = decide_reply(&outcome).unwrap();
    assert_eq!(m.content, "first");
    assert_eq!(
        decide_reply(&CallOutcome::Answered { status: 199, reply: None }).err(),
        Some(TaskError::Remote(199))
    );
    assert_eq!(
        decide_reply(&CallOutcome::Answered { status: 300, reply: None }).err(),
        Some(TaskError::Remote(300))
    );
}

#[test]
fn payload_is_utf8_with_one_line_feed() {
    let mut f = OpenaiChatFilter::new();
    f.process(b"hi").unwrap();
    f.start_next().unwrap();
    let out = f.finish(reply("ボクなのだ。")).unwrap();
    assert_eq!(out, "ボクなのだ。\n".as_bytes().to_vec());
}

#[test]
fn fifo_one_job_at_a_time() {
    let mut f = OpenaiChatFilter::new();
    for t in ["1", "2", "3"] {
        f.process(t.as_bytes()).unwrap();
    }
    assert_eq!(f.pending_len(), 3);
    for t in ["1", "2", "3"] {
        let job = f.start_next().unwrap();
        assert!(f.is_busy());
        assert!(f.start_next().is_none());
        assert_eq!(job.request.messages.last().unwrap().content, t);
        f.finish(CallOutcome::TransportFailed).unwrap_err();
    }
    assert!(f.start_next().is_none());
}

#[test]
fn dispatcher_alone_is_fifo() {
    let mut d = Dispatcher::new();
    d.submit(CompletionRequest::new("a".to_string(), vec![]), "1".to_string());
    d.submit(CompletionRequest::new("b".to_string(), vec![]), "2".to_string());
    let j = d.start_next().unwrap();
    assert_eq!(j.body, "1");
    assert!(d.start_next().is_none());
    d.finish();
    assert_eq!(d.start_next().unwrap().body, "2");
    assert_eq!(d.pending_len(), 0);
}

#[test]
fn request_body_is_exact_json() {
    let mut f = OpenaiChatFilter::new();
    f.set_model("m".to_string());
    assert_eq!(f.model(), "m");
    f.process(b"say \"hi\"\n").unwrap();
    let job = f.start_next().unwrap();
    assert_eq!(job.request.model, "m");
    let persona = serde_json::to_string(PERSONA).unwrap();
    let expected = format!(
        "{{\"model\":\"m\",\"messages\":[{{\"role\":\"system\",\"content\":{}}},{{\"role\":\"user\",\"content\":\"say \\\"hi\\\"\\n\"}}]}}",
        persona
    );
    assert_eq!(job.body, expected);
    assert_eq!(job.request.to_json().unwrap(), expected);
    let v: serde_json::Value = serde_json::from_str(&job.body).unwrap();
    assert_eq!(v["messages"][1]["content"].as_str(), Some("say \"hi\"\n"));
    assert_eq!(v["messages"][0]["content"].as_str(), Some(PERSONA));
}

#[test]
fn empty_request_json() {
    let r = CompletionRequest::new("x".to_string(), vec![]);
    assert_eq!(r.to_json().unwrap(), "{\"model\":\"x\",\"messages\":[]}");
    let r = CompletionRequest::new(
        "x".to_string(),
        vec![msg(Role::User, "a"), msg(Role::Assistant, "b")],
    );
    assert_eq!(
        r.to_json().unwrap(),
        "{\"model\":\"x\",\"messages\":[{\"role\":\"user\",\"content\":\"a\"},{\"role\":\"assistant\",\"content\":\"b\"}]}"
    );
}

#[test]
fn model_change_applies_to_later_turns() {
    let mut f = OpenaiChatFilter::new();
    assert_eq!(f.model(), DEFAULT_MODEL);
    f.process(b"a").unwrap();
    f.set_model("other".to_string());
    f.process(b"b").unwrap();
    assert_eq!(f.start_next().unwrap().request.model, DEFAULT_MODEL);
    f.finish(CallOutcome::TransportFailed).unwrap_err();
    assert_eq!(f.start_next().unwrap().request.model, "other");
}

#[test]
fn history_is_append_only() {
    let mut f = OpenaiChatFilter::new();
    let mut previous: Vec<(Role, String)> = vec![];
    for (i, t) in ["x", "y", "z"].iter().enumerate() {
        f.process(t.as_bytes()).unwrap();
        f.start_next().unwrap();
        let mid = shape(&f.history_snapshot());
        assert!(mid.len() > previous.len());
        assert_eq!(&mid[..previous.len()], &previous[..]);
        f.finish(reply(&format!("r{}", i))).unwrap();
        let now = shape(&f.history_snapshot());
        assert!(now.len() > mid.len());
        assert_eq!(&now[..mid.len()], &mid[..]);
        previous = now;
    }
    assert_eq!(previous.len(), 9);
}

#[test]
fn snapshots_are_equal_and_pure() {
    let mut c = ConversationState::new();
    c.append(msg(Role::User, "u"));
    let a = c.snapshot();
    let b = c.snapshot();
    assert_eq!(shape(&a), shape(&b));
    assert_eq!(c.len(), 1);
    let s = c.begin_turn("t".to_string());
    assert_eq!(
        shape(&s),
        vec![(Role::User, "u".to_string()), sys(), (Role::User, "t".to_string())]
    );
    c.record_reply(msg(Role::Assistant, "r"));
    assert_eq!(c.len(), 4);
}

#[test]
fn role_names() {
    assert_eq!(Role::System.as_str(), "system");
    assert_eq!(Role::User.as_str(), "user");
    assert_eq!(Role::Assistant.as_str(), "assistant");
}

#[test]
fn config_needs_a_key() {
    assert!(matches!(
        Config::from_values(None, Some("https://x".to_string())),
        Err(ConfigurationError::MissingApiKey)
    ));
    let c = Config::from_values(Some("k".to_string()), None).unwrap();
    assert_eq!(c.endpoint, DEFAULT_ENDPOINT);
    assert_eq!(c.api_key, "k");
    let c = Config::from_values(Some("k".to_string()), Some("https://x".to_string())).unwrap();
    assert_eq!(c.endpoint, "https://x");
    assert_eq!(
        c.headers(),
        vec![
            ("api-key".to_string(), "k".to_string()),
            ("Content-Type".to_string(), "application/json".to_string())
        ]
    );
}
