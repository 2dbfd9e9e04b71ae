use inference_router::exchange::{
    admit_request, admit_store, delivered_batch, delivered_one, handle_inference,
    inference_request, replied, Action, Event, Exchange, InferenceRequest,
};
use inference_router::names::{worker_queue, Surface};
use inference_router::presence::PresenceRecord;
use inference_router::queue::{Delivery, ReceiveResponse, ReceivedMessage};
use inference_router::router::Cfg;
use inference_router::web::{Method, Request, Response};

fn cfg(surface: Surface, cleanup: bool) -> Cfg {
    Cfg::load(
        Some("tok".to_string()),
        Ok("https://mq/v1".to_string()),
        Ok("30".to_string()),
        Ok("15".to_string()),
        surface,
        cleanup,
    )
    .unwrap()
}

fn worker() -> Option<PresenceRecord> {
    Some(PresenceRecord {
        worker_id: "wkr_1".to_string(),
        model: "llama3.2:1b".to_string(),
        region: None,
        last_seen: 1,
    })
}

fn begin(cfg: &Cfg, stream: bool, picked: &Option<PresenceRecord>) -> (Exchange, Action) {
    let request = InferenceRequest {
        model: "llama3.2:1b".to_string(),
        prompt: "hi".to_string(),
        stream,
    };
    Exchange::begin(cfg, "corr_1".to_string(), request, picked)
}

/// How an exchange came out: the requests that it sent, and the answer or the error at its end.
struct Course {
    sent: Vec<Request>,
    end: Option<Result<Response, String>>,
}

/// Takes an exchange through a series of outcomes.
fn course(cfg: &Cfg, stream: bool, events: Vec<Event>) -> Course {
    let (mut exchange, mut action) = begin(cfg, stream, &worker());
    let mut sent = Vec::new();
    let mut events = events.into_iter();
    loop {
        match action {
            Action::Send { request } => sent.push(request),
            Action::Finish { response } => return Course { sent, end: Some(Ok(response)) },
            Action::Fail { error } => return Course { sent, end: Some(Err(error)) },
            Action::ReadSubscription { .. } | Action::ReadDelivery { .. } => {}
        }
        match events.next() {
            Some(event) => {
                assert!(exchange.accepts(&event));
                (exchange, action) = exchange.step(cfg, event);
            }
            None => return Course { sent, end: None },
        }
    }
}

fn ok() -> Event {
    replied(200, vec![])
}

fn failed(error: &str) -> Event {
    Event::Failed { error: error.to_string() }
}

fn delivery(token: &str, body: &[u8]) -> Event {
    delivered_one(Some(Delivery { ack_token: token.to_string(), body: body.to_vec() }))
}

fn lines(sent: &[Request]) -> Vec<String> {
    sent.iter()
        .map(|r| {
            let method = match r.method {
                Method::Get => "GET",
                Method::Post => "POST",
                Method::Delete => "DELETE",
                Method::Other => "?",
            };
            format!("{method} {}", r.url.strip_prefix("https://mq/v1").unwrap())
        })
        .collect()
}

fn text_reply(c: Course) -> (u16, String) {
    let response = c.end.unwrap().unwrap();
    assert_eq!(response.content_type, Some("text/plain; charset=utf-8".to_string()));
    (response.status, String::from_utf8(response.body).unwrap())
}

fn error_of(c: Course) -> String {
    c.end.unwrap().unwrap_err()
}

#[test]
fn no_worker_no_traffic() {
    for stream in [false, true] {
        match begin(&cfg(Surface::Flat, true), stream, &None) {
            (_, Action::Finish { response }) => {
                assert_eq!(response.status, 503);
                assert_eq!(response.body, b"no-workers\n".to_vec());
            }
            (_, other) => panic!("{other:?}"),
        }
    }
}

#[test]
fn every_request_gets_its_own_queue() {
    let c = cfg(Surface::Flat, false);
    let request = || InferenceRequest {
        model: "m".to_string(),
        prompt: "hi".to_string(),
        stream: false,
    };
    let body = |action: Action| match action {
        Action::Send { request } => String::from_utf8(request.body).unwrap(),
        other => panic!("{other:?}"),
    };
    let (x, first) = handle_inference(&c, request(), Ok(worker()));
    let (y, second) = handle_inference(&c, request(), Ok(worker()));
    assert_ne!(x.corr_id, y.corr_id);
    assert_eq!(body(first), format!(r#"{{"name":"inference_resp_{}"}}"#, x.corr_id));
    assert_eq!(body(second), format!(r#"{{"name":"inference_resp_{}"}}"#, y.corr_id));
    assert_eq!((x.prompt.as_str(), x.model.as_str()), ("hi", "m"));
}

#[test]
fn request_with_one_reply() {
    let c = cfg(Surface::Flat, false);
    let body = br#"{"response":"hello"}"#;
    let got = course(&c, false, vec![ok(), ok(), replied(200, b"[]".to_vec()), delivery("t", body)]);
    assert_eq!(
        lines(&got.sent),
        vec![
            "POST /queues",
            "POST /queues/inference_req_llama3-2-1b/messages",
            "GET /queues/inference_resp_corr_1/messages?wait=15",
        ]
    );
    let work: serde_json::Value = serde_json::from_slice(&got.sent[1].body).unwrap();
    assert_eq!(work["corr_id"], "corr_1");
    assert_eq!(work["model"], "llama3.2:1b");
    assert_eq!(work["prompt"], "hi");
    assert_eq!(work["response_queue"], "inference_resp_corr_1");
    assert_eq!(got.sent[1].url, format!("https://mq/v1/queues/{}/messages", worker_queue("llama3.2:1b")));
    let response = got.end.unwrap().unwrap();
    assert_eq!(response.status, 200);
    assert_eq!(response.content_type, Some("application/json".to_string()));
    assert_eq!(response.body, body.to_vec());
}

#[test]
fn cleaning_up_acknowledges_and_deletes() {
    let c = cfg(Surface::Dotted, true);
    let got = course(
        &c,
        false,
        vec![ok(), ok(), replied(200, b"{}".to_vec()), delivery("t", b"1"), ok(), failed("gone")],
    );
    assert_eq!(
        lines(&got.sent),
        vec![
            "POST /queues",
            "POST /queues/inference.llama3-2-1b.req/send",
            "GET /queues/inference.resp.corr_1/receive?wait=15",
            "POST /queues/inference.resp.corr_1/ack/t",
            "DELETE /queues/inference.resp.corr_1",
        ]
    );
    assert_eq!(got.end.unwrap().unwrap().body, b"1".to_vec());
}

#[test]
fn streaming_request_is_redirected() {
    let c = cfg(Surface::Flat, true);
    let subscribed = Event::Subscribed { id: Some("sub_1".to_string()) };
    let got = course(&c, true, vec![replied(201, b"{}".to_vec()), subscribed, ok()]);
    assert_eq!(
        lines(&got.sent),
        vec!["POST /subscriptions", "POST /queues/inference_req_llama3-2-1b/messages"]
    );
    let work: serde_json::Value = serde_json::from_slice(&got.sent[1].body).unwrap();
    assert!(work["response_queue"].is_null());
    let response = got.end.unwrap().unwrap();
    assert_eq!(response.status, 302);
    assert_eq!(
        response.location,
        Some("https://mq/v1/subscriptions/sub_1/stream?bearer=tok".to_string())
    );
    assert_eq!(response.cache_control, Some("no-store".to_string()));
    assert!(response.body.is_empty());
}

#[test]
fn subscription_failures_are_bad_gateways() {
    let c = cfg(Surface::Flat, false);
    let got = course(&c, true, vec![failed("refused")]);
    assert_eq!(text_reply(got), (502, "substrate-error: refused\n".to_string()));
    let got = course(&c, true, vec![replied(409, b"quota".to_vec())]);
    assert_eq!(
        text_reply(got),
        (502, "substrate-error: POST https://mq/v1/subscriptions -> 409: quota\n".to_string())
    );
    let got = course(&c, true, vec![ok(), Event::Subscribed { id: None }]);
    assert_eq!(
        text_reply(got),
        (502, "substrate-error: subscription create response\n".to_string())
    );
}

#[test]
fn publishing_failures_of_a_stream() {
    let c = cfg(Surface::Flat, true);
    let subscribed = || Event::Subscribed { id: Some("s".to_string()) };
    assert_eq!(error_of(course(&c, true, vec![ok(), subscribed(), failed("down")])), "down");
    assert_eq!(
        error_of(course(&c, true, vec![ok(), subscribed(), replied(300, b"\xff".to_vec())])),
        "publish to inference_req_llama3-2-1b returned 300: \u{fffd}"
    );
}

#[test]
fn queue_that_cannot_be_created() {
    let c = cfg(Surface::Flat, true);
    let got = course(&c, false, vec![failed("down")]);
    assert_eq!(lines(&got.sent), vec!["POST /queues"]);
    assert_eq!(error_of(got), "down");
    let got = course(&c, false, vec![replied(500, b"no".to_vec())]);
    assert_eq!(error_of(got), "POST https://mq/v1/queues -> 500: no");
}

#[test]
fn work_that_cannot_be_published() {
    let refused = || vec![ok(), replied(404, b"gone".to_vec())];
    let expected = "publish to inference_req_llama3-2-1b returned 404: gone";
    let got = course(&cfg(Surface::Flat, false), false, refused());
    assert_eq!(got.sent.len(), 2);
    assert_eq!(error_of(got), expected);
    for outcome in [ok(), failed("ignored")] {
        let mut events = refused();
        events.push(outcome);
        let got = course(&cfg(Surface::Flat, true), false, events);
        assert_eq!(lines(&got.sent)[2], "DELETE /queues/inference_resp_corr_1");
        assert_eq!(error_of(got), expected);
    }
    let got = course(&cfg(Surface::Flat, false), false, vec![ok(), failed("down")]);
    assert_eq!(error_of(got), "down");
}

#[test]
fn no_reply_in_time() {
    let c = cfg(Surface::Flat, false);
    for last in [replied(204, b"x".to_vec()), replied(200, vec![]), replied(500, vec![])] {
        let got = course(&c, false, vec![ok(), ok(), last]);
        assert_eq!(text_reply(got), (504, "worker did not respond in time\n".to_string()));
    }
    let empty = ReceiveResponse { count: 0, messages: vec![] };
    let got =
        course(&c, false, vec![ok(), ok(), replied(200, b"{}".to_vec()), delivered_batch(Some(empty))]);
    assert_eq!(text_reply(got), (504, "worker did not respond in time\n".to_string()));
}

#[test]
fn receive_failures_are_gateway_timeouts() {
    let c = cfg(Surface::Flat, false);
    let expect = |last: Vec<Event>, text: &str| {
        let mut events = vec![ok(), ok()];
        events.extend(last);
        assert_eq!(text_reply(course(&c, false, events)), (504, text.to_string()));
    };
    expect(vec![failed("reset")], "substrate error: reset\n");
    expect(
        vec![replied(500, b"boom".to_vec())],
        "substrate error: receive from inference_resp_corr_1 returned 500: boom\n",
    );
    let unreadable = "substrate error: queue receive response shape\n";
    expect(vec![replied(200, b"?".to_vec()), delivered_one(None)], unreadable);
    expect(vec![replied(200, b"?".to_vec()), delivered_batch(None)], unreadable);
    let message = ReceivedMessage { ack_token: "t".to_string(), body_b64: "!".to_string() };
    let garbled = ReceiveResponse { count: 1, messages: vec![message] };
    expect(
        vec![replied(200, b"?".to_vec()), delivered_batch(Some(garbled))],
        "substrate error: body_b64 decode\n",
    );
}

#[test]
fn reply_is_handed_on_whatever_comes_of_its_acknowledgement() {
    let c = cfg(Surface::Dotted, true);
    for outcome in [failed("reset"), replied(500, vec![]), ok()] {
        let events =
            vec![ok(), ok(), replied(200, b"{}".to_vec()), delivery("t", b"1"), outcome, ok()];
        let response = course(&c, false, events).end.unwrap().unwrap();
        assert_eq!((response.status, response.body.as_slice()), (200, &b"1"[..]));
    }
}

#[test]
fn request_that_cannot_be_read_is_refused() {
    let reply = admit_request(Err("expected value".to_string())).unwrap_err();
    assert_eq!((reply.status, reply.body), (400, b"bad json: expected value\n".to_vec()));
    let request = inference_request("m".to_string(), "p".to_string(), Some(true));
    let request = admit_request(Ok(request)).unwrap();
    assert_eq!((request.model.as_str(), request.prompt.as_str(), request.stream), ("m", "p", true));
}

#[test]
fn store_that_cannot_be_used_is_reported() {
    let reply = admit_store(Err("down".to_string())).unwrap_err();
    assert_eq!((reply.status, reply.body), (500, b"presence-store-unavailable\n".to_vec()));
    assert_eq!(admit_store(Ok(vec!["k".to_string()])).unwrap(), vec!["k".to_string()]);
}

#[test]
fn record_that_cannot_be_read_ends_the_exchange() {
    let c = cfg(Surface::Flat, true);
    for stream in [None, Some(true)] {
        let request = inference_request("m".to_string(), "p".to_string(), stream);
        match handle_inference(&c, request, Err("expected value".to_string())) {
            (x, Action::Fail { error }) => {
                assert_eq!(error, "expected value");
                assert!(!x.accepts(&ok()));
            }
            (_, other) => panic!("{other:?}"),
        }
    }
    let request = inference_request("m".to_string(), "p".to_string(), None);
    match handle_inference(&c, request, Ok(None)) {
        (_, Action::Finish { response }) => assert_eq!(response.status, 503),
        (_, other) => panic!("{other:?}"),
    }
}

#[test]
fn requests_do_not_stream_by_default() {
    for (stream, expected) in [(None, false), (Some(false), false), (Some(true), true)] {
        let request = inference_request("m".to_string(), "p".to_string(), stream);
        assert_eq!(request.stream, expected);
    }
    let c = cfg(Surface::Flat, true);
    let events =
        vec![ok(), ok(), replied(200, b"{}".to_vec()), delivery("t", b"1"), ok(), ok()];
    let got = course(&c, false, events);
    assert!(lines(&got.sent).iter().all(|l| !l.contains("subscriptions")));
    assert_ne!(got.end.unwrap().unwrap().status, 302);
}

#[test]
fn first_message_of_a_batch_is_the_reply() {
    let c = cfg(Surface::Flat, false);
    let message = |token: &str, body: &str| ReceivedMessage {
        ack_token: token.to_string(),
        body_b64: body.to_string(),
    };
    let batch =
        ReceiveResponse { count: 2, messages: vec![message("t", "eyJhIjoxfQ=="), message("u", "!")] };
    let events = vec![ok(), ok(), replied(200, b"{}".to_vec()), delivered_batch(Some(batch))];
    let response = course(&c, false, events).end.unwrap().unwrap();
    assert_eq!((response.status, response.body.as_slice()), (200, &br#"{"a":1}"#[..]));
}

#[test]
fn created_queue_is_deleted_on_every_course() {
    let c = cfg(Surface::Dotted, true);
    let full = || replied(200, b"{}".to_vec());
    let courses = vec![
        vec![ok(), failed("x"), ok()],
        vec![ok(), replied(500, vec![]), ok()],
        vec![ok(), ok(), failed("x"), ok()],
        vec![ok(), ok(), replied(204, vec![]), ok()],
        vec![ok(), ok(), replied(500, b"x".to_vec()), ok()],
        vec![ok(), ok(), full(), delivered_one(None), ok()],
        vec![ok(), ok(), full(), delivery("t", b"1"), failed("x"), ok()],
        vec![ok(), ok(), full(), delivery("t", b"1"), ok(), ok()],
    ];
    for events in courses {
        let got = course(&c, false, events);
        assert!(got.end.is_some());
        assert_eq!(lines(&got.sent).last().unwrap(), "DELETE /queues/inference.resp.corr_1");
    }
}

#[test]
fn only_awaited_outcomes_are_accepted() {
    let c = cfg(Surface::Flat, false);
    let (x, _) = begin(&c, true, &worker());
    assert!(x.accepts(&ok()) && x.accepts(&failed("e")));
    assert!(!x.accepts(&delivered_one(None)) && !x.accepts(&Event::Subscribed { id: None }));
    let (x, _) = x.step(&c, replied(200, b"{}".to_vec()));
    assert!(x.accepts(&Event::Subscribed { id: None }) && !x.accepts(&ok()));
    let (x, _) = x.step(&c, Event::Subscribed { id: None });
    assert!(!x.accepts(&ok()) && !x.accepts(&failed("e")));
}
