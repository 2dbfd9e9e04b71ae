use inference_router::queue::{ReceiveResponse, ReceivedMessage};
use inference_router::setup::{Outcome, Setup, Step};
use inference_router::web::{Method, Request};
use inference_router::worker::{
    ack, after_receive, bearer_paths, consume, create_resource, create_verdict, ensure_resources,
    error_response, final_response, generate, heartbeat_at, heartbeat_verdict, judge, judge_with,
    load_bearer_from_disk, new_worker_id, publish_done, publish_error, publish_heartbeat,
    publish_to_responses, publish_token, receive, send_to_queue, url_of_topic, worker_id_from,
    BearerFile, Cfg, Received, Turn,
};

fn cfg() -> Cfg {
    Cfg::new(
        " tok\n",
        "https://mq/v1//",
        "llama3.2:1b".to_string(),
        "http://localhost:11434/",
        "local-dev".to_string(),
        "wkr_1".to_string(),
    )
}

fn text_of(r: &Request) -> &str {
    std::str::from_utf8(&r.body).unwrap()
}

fn contents(text: &str) -> BearerFile {
    BearerFile::Contents { text: text.to_string() }
}

#[test]
fn worker_configuration() {
    let c = cfg();
    assert_eq!(c.bearer, "tok");
    assert_eq!(c.base, "https://mq/v1");
    assert_eq!(c.model, "llama3.2:1b");
    assert_eq!(c.normalized_model, "llama3-2-1b");
    assert_eq!(c.queue, "inference_req_llama3-2-1b");
    assert_eq!(c.ollama_base, "http://localhost:11434");
    assert_eq!(c.region, "local-dev");
    assert_eq!(c.worker_id, "wkr_1");
}

#[test]
fn worker_ids_are_fresh_random_uuids() {
    assert_eq!(worker_id_from("abc"), "wkr_abc");
    let id = new_worker_id();
    let uuid = uuid::Uuid::try_parse(id.strip_prefix("wkr_").unwrap()).unwrap();
    assert_eq!(uuid.get_version_num(), 4);
    assert_ne!(new_worker_id(), id);
}

#[test]
fn first_bearer_file_decides() {
    assert_eq!(
        bearer_paths(),
        ("../.tenant-bearer".to_string(), ".tenant-bearer".to_string())
    );
    assert_eq!(load_bearer_from_disk(contents("a"), contents("b")).unwrap(), "a");
    assert_eq!(load_bearer_from_disk(BearerFile::Missing, contents("b")).unwrap(), "b");
    assert_eq!(
        load_bearer_from_disk(BearerFile::Unreadable, contents("b")).unwrap_err(),
        "reading ../.tenant-bearer"
    );
    assert_eq!(
        load_bearer_from_disk(BearerFile::Missing, BearerFile::Unreadable).unwrap_err(),
        "reading .tenant-bearer"
    );
    assert_eq!(
        load_bearer_from_disk(BearerFile::Missing, BearerFile::Missing).unwrap_err(),
        "no bearer provided (--bearer or TENANT_BEARER env), and ../.tenant-bearer not found"
    );
}

#[test]
fn needed_resources_are_created() {
    let c = cfg();
    let wanted: Vec<(String, String)> =
        ensure_resources(&c).into_iter().map(|r| (r.path, r.name)).collect();
    let pair = |a: &str, b: &str| (a.to_string(), b.to_string());
    assert_eq!(
        wanted,
        vec![
            pair("/queues", "inference_req_llama3-2-1b"),
            pair("/topics", "inference_responses"),
            pair("/topics", "worker_presence"),
        ]
    );
    let r = create_resource(&c, "/topics", "worker_presence");
    assert_eq!((r.method, r.url.as_str()), (Method::Post, "https://mq/v1/topics"));
    assert_eq!(r.authorization, Some("Bearer tok".to_string()));
    assert_eq!(r.content_type, Some("application/json".to_string()));
    assert_eq!(text_of(&r), r#"{"name":"worker_presence"}"#);
}

#[test]
fn heartbeat_is_published() {
    let r = heartbeat_at(&cfg(), 1748449698);
    assert_eq!(r.url, "https://mq/v1/topics/worker_presence/publish");
    assert_eq!(r.subject, Some("presence.wkr_1.llama3-2-1b".to_string()));
    assert_eq!(
        text_of(&r),
        r#"{"worker_id":"wkr_1","model":"llama3.2:1b","region":"local-dev","ts":1748449698}"#
    );
}

#[test]
fn heartbeat_carries_the_time() {
    let before = inference_router::clock::now_secs();
    let r = publish_heartbeat(&cfg());
    let document: serde_json::Value = serde_json::from_slice(&r.body).unwrap();
    let ts = document["ts"].as_u64().unwrap();
    assert!(before <= ts && ts <= before + 2);
    assert_eq!(text_of(&r), text_of(&heartbeat_at(&cfg(), ts)));
}

#[test]
fn work_is_received_and_acknowledged() {
    let c = cfg();
    let r = receive(&c);
    assert_eq!(r.method, Method::Get);
    assert_eq!(r.url, "https://mq/v1/queues/inference_req_llama3-2-1b/messages?wait=20");
    let r = ack(&c, "t");
    assert_eq!(r.method, Method::Delete);
    assert_eq!(r.url, "https://mq/v1/queues/inference_req_llama3-2-1b/messages/t");
    assert_eq!((r.content_type, r.body.len()), (None, 0));
}

#[test]
fn documents_go_to_queues_and_topics() {
    let c = cfg();
    let r = send_to_queue(&c, "q", &[0xff, 0x00]);
    assert_eq!((r.method, r.url.as_str()), (Method::Post, "https://mq/v1/queues/q/messages"));
    assert_eq!(r.content_type, Some("application/octet-stream".to_string()));
    assert_eq!(r.body, vec![0xff, 0x00]);
    assert_eq!(r.authorization, Some("Bearer tok".to_string()));
    let r = publish_to_responses(&c, "corr_1", "leaf", "{}");
    assert_eq!(r.url, "https://mq/v1/topics/inference_responses/publish");
    assert_eq!(r.subject, Some("inference.corr_1.leaf".to_string()));
    assert_eq!(url_of_topic("x", "y"), "x/topics/y/publish");
}

#[test]
fn results_are_published() {
    let c = cfg();
    let r = publish_token(&c, "corr_1", "\"hi\"\n");
    assert_eq!(r.subject, Some("inference.corr_1.token".to_string()));
    assert_eq!(text_of(&r), r#"{"token":"\"hi\"\n"}"#);
    let r = publish_done(&c, "corr_1", u32::MAX);
    assert_eq!(r.subject, Some("inference.corr_1.done".to_string()));
    assert_eq!(text_of(&r), r#"{"tokens":4294967295}"#);
    let r = publish_error(&c, "corr_1", "ollama 500");
    assert_eq!(r.subject, Some("inference.corr_1.error".to_string()));
    assert_eq!(text_of(&r), r#"{"error":"ollama 500"}"#);
}

#[test]
fn documents_with_numbers_read_back() {
    for ts in [0, 7, 10, 1748449698, u64::MAX] {
        let r = heartbeat_at(&cfg(), ts);
        let v: serde_json::Value = serde_json::from_slice(&r.body).unwrap();
        assert_eq!(v["ts"].as_u64(), Some(ts));
        assert_eq!(v["ts"].to_string(), ts.to_string());
        assert_eq!((v["worker_id"].as_str(), v["region"].as_str()), (Some("wkr_1"), Some("local-dev")));
    }
    for tokens in [0, 1, u32::MAX] {
        let text = final_response("c", "m", "\"x\"\n", tokens);
        let v: serde_json::Value = serde_json::from_str(&text).unwrap();
        assert_eq!(v["tokens"].as_u64(), Some(tokens as u64));
        assert_eq!(v["response"].as_str(), Some("\"x\"\n"));
    }
}

#[test]
fn whole_results() {
    assert_eq!(
        final_response("corr_1", "m", "text", 2),
        r#"{"corr_id":"corr_1","model":"m","response":"text","tokens":2}"#
    );
    assert_eq!(
        error_response("corr_1", "m", "broken"),
        r#"{"corr_id":"corr_1","model":"m","error":"broken"}"#
    );
}

#[test]
fn model_runtime_is_asked() {
    let r = generate(&cfg(), "why?");
    assert_eq!((r.method, r.url.as_str()), (Method::Post, "http://localhost:11434/api/generate"));
    assert_eq!((r.authorization.as_ref(), r.subject.as_ref()), (None, None));
    assert_eq!(text_of(&r), r#"{"model":"llama3.2:1b","prompt":"why?","stream":true}"#);
}

#[test]
fn refusals_carry_the_reason_phrase() {
    assert_eq!(judge("ack ", 204, "ignored"), None);
    assert_eq!(judge("ack ", 404, "gone"), Some("ack 404 Not Found: gone".to_string()));
    assert_eq!(
        judge("ack ", 599, ""),
        Some("ack 599 <unknown status code>: ".to_string())
    );
    assert_eq!(judge("ack ", 302, "x"), Some("ack 302 Found: x".to_string()));
    for code in 100..1000u16 {
        let shown = reqwest::StatusCode::from_u16(code).unwrap().to_string();
        let expected = if (200..300).contains(&code) { None } else { Some(format!("{shown}: d")) };
        assert_eq!(judge("", code, "d"), expected);
    }
    assert_eq!(
        judge_with("x ", 500, Some("Oops".to_string()), "d"),
        Some("x 500 Oops: d".to_string())
    );
    assert_eq!(judge_with("x ", 200, None, "d"), None);
}

#[test]
fn verdicts_name_what_was_refused() {
    assert_eq!(heartbeat_verdict(200, ""), None);
    assert_eq!(
        heartbeat_verdict(500, "no"),
        Some("heartbeat 500 Internal Server Error: no".to_string())
    );
    assert_eq!(create_verdict("/queues", "q", 201, ""), None);
    assert_eq!(
        create_verdict("/queues", "q", 400, "bad name"),
        Some("create /queues q: 400 Bad Request: bad name".to_string())
    );
}

fn answered(status: u16, body: &[u8], answer: Option<ReceiveResponse>) -> Received {
    Received::Answered { status, body: body.to_vec(), answer }
}

fn one_message(count: u32) -> Option<ReceiveResponse> {
    let message = ReceivedMessage { ack_token: "t".to_string(), body_b64: "aGk=".to_string() };
    Some(ReceiveResponse { count, messages: vec![message] })
}

#[test]
fn received_messages_are_dispatched() {
    match consume(answered(200, b"{}", one_message(1))) {
        Turn::Dispatch { messages } => {
            assert_eq!(messages.len(), 1);
            assert_eq!(messages[0].ack_token, "t");
        }
        Turn::BackOff { error, .. } => panic!("{error}"),
    }
    match consume(answered(200, b"{}", one_message(0))) {
        Turn::Dispatch { messages } => assert!(messages.is_empty()),
        Turn::BackOff { error, .. } => panic!("{error}"),
    }
}

#[test]
fn failed_receives_back_off() {
    let cases = [
        (Received::Failed { error: "timed out".to_string() }, "timed out"),
        (answered(500, b"a\xffb", one_message(1)), "receive 500 Internal Server Error: a\u{fffd}b"),
        (answered(200, b"nope", None), "queue receive shape"),
    ];
    for (received, expected) in cases {
        match consume(received) {
            Turn::BackOff { error, secs } => assert_eq!((error.as_str(), secs), (expected, 2)),
            Turn::Dispatch { .. } => panic!("a failed receive was dispatched"),
        }
    }
    match after_receive(answered(503, b"", None), "busy") {
        Turn::BackOff { error, .. } => assert_eq!(error, "receive 503 Service Unavailable: busy"),
        Turn::Dispatch { .. } => panic!("a refused receive was dispatched"),
    }
}

/// Takes the start of a worker through a series of outcomes: the names asked for, and the last step.
fn start(outcomes: Vec<Outcome>) -> (Vec<String>, Step) {
    let c = cfg();
    let (mut setup, mut step) = Setup::begin(&c);
    let mut asked = Vec::new();
    let mut outcomes = outcomes.into_iter();
    loop {
        match &step {
            Step::Create { request } => asked.push(format!("{} {}", request.url, text_of(request))),
            Step::Ready | Step::Fail { .. } => return (asked, step),
        }
        match outcomes.next() {
            Some(outcome) => {
                assert!(setup.is_creating());
                (setup, step) = setup.step(&c, outcome);
            }
            None => return (asked, step),
        }
    }
}

fn created() -> Outcome {
    Outcome::Replied { status: 201, detail: String::new() }
}

#[test]
fn start_creates_all_three() {
    let (asked, step) = start(vec![created(), created(), created()]);
    assert_eq!(
        asked,
        vec![
            r#"https://mq/v1/queues {"name":"inference_req_llama3-2-1b"}"#.to_string(),
            r#"https://mq/v1/topics {"name":"inference_responses"}"#.to_string(),
            r#"https://mq/v1/topics {"name":"worker_presence"}"#.to_string(),
        ]
    );
    assert!(matches!(step, Step::Ready));
    let (asked, step) = start(vec![created(), created()]);
    assert_eq!(asked.len(), 3);
    assert!(matches!(step, Step::Create { .. }));
}

#[test]
fn start_ends_at_the_first_refusal() {
    let refused = Outcome::Replied { status: 400, detail: "no".to_string() };
    let (asked, step) = start(vec![created(), refused, created()]);
    assert_eq!(asked.len(), 2);
    match step {
        Step::Fail { error } => {
            assert_eq!(error, "create /topics inference_responses: 400 Bad Request: no")
        }
        other => panic!("{other:?}"),
    }
    let (asked, step) = start(vec![Outcome::Failed { error: "down".to_string() }]);
    assert_eq!(asked.len(), 1);
    assert!(matches!(step, Step::Fail { error } if error == "down"));
}

#[test]
fn every_received_message_is_handed_out_once() {
    let batch = |tokens: &[&str]| {
        let messages: Vec<ReceivedMessage> = tokens
            .iter()
            .map(|t| ReceivedMessage { ack_token: t.to_string(), body_b64: String::new() })
            .collect();
        answered(200, b"{}", Some(ReceiveResponse { count: messages.len() as u32, messages }))
    };
    let series = vec![
        batch(&["a", "b"]),
        Received::Failed { error: "x".to_string() },
        batch(&[]),
        answered(500, b"", None),
        batch(&["c"]),
    ];
    let (mut handed, mut pauses) = (Vec::new(), Vec::new());
    for received in series {
        match consume(received) {
            Turn::Dispatch { messages } => {
                handed.extend(messages.into_iter().map(|m| m.ack_token))
            }
            Turn::BackOff { secs, .. } => pauses.push(secs),
        }
    }
    assert_eq!(handed, vec!["a".to_string(), "b".to_string(), "c".to_string()]);
    assert_eq!(pauses, vec![2, 2]);
}
