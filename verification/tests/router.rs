use inference_router::names::Surface;
use inference_router::router::{
    ack, bad_json_reply, corr_id_from, create_queue, create_subscription, delete_queue, handle,
    new_corr_id, not_found_reply, ok_reply, post_error, post_json, publish_error, publish_request,
    receive_error, receive_one, store_unavailable_reply, url_of_queue, url_of_stream, Cfg, Route,
};
use inference_router::web::{Method, Request};

fn cfg(surface: Surface) -> Cfg {
    Cfg::load(
        Some("tok".to_string()),
        Ok("https://mq/v1".to_string()),
        Ok("30".to_string()),
        Ok("15".to_string()),
        surface,
        false,
    )
    .unwrap()
}

fn ok(s: &str) -> Result<String, String> {
    Ok(s.to_string())
}

fn err(s: &str) -> Result<String, String> {
    Err(s.to_string())
}

fn body(r: &Request) -> serde_json::Value {
    serde_json::from_slice(&r.body).unwrap()
}

fn text_of(r: &Request) -> &str {
    std::str::from_utf8(&r.body).unwrap()
}

#[test]
fn configuration_is_loaded() {
    let c = cfg(Surface::Dotted);
    assert_eq!((c.bearer.as_str(), c.base.as_str()), ("tok", "https://mq/v1"));
    assert_eq!((c.presence_max_age_secs, c.reqres_poll_secs), (30, 15));
    assert!(!c.cleanup);
    let c = Cfg::load(Some(String::new()), ok(""), ok("+7"), ok("0"), Surface::Flat, true);
    let c = c.unwrap();
    assert_eq!((c.bearer.as_str(), c.base.as_str()), ("", ""));
    assert_eq!((c.presence_max_age_secs, c.reqres_poll_secs, c.cleanup), (7, 0, true));
}

#[test]
fn first_bad_variable_is_reported() {
    let load = |bearer: Option<&str>, base, age, poll| {
        Cfg::load(bearer.map(|b| b.to_string()), base, age, poll, Surface::Flat, false)
            .unwrap_err()
    };
    assert_eq!(load(None, err("b"), err("a"), err("p")), "variable tenant_bearer not set");
    assert_eq!(load(Some("t"), err("b"), err("a"), err("p")), "b");
    assert_eq!(load(Some("t"), ok("u"), err("a"), err("p")), "a");
    assert_eq!(
        load(Some("t"), ok("u"), ok("x"), err("p")),
        "presence_max_age_secs must be a number"
    );
    assert_eq!(load(Some("t"), ok("u"), ok("1"), err("p")), "p");
    assert_eq!(load(Some("t"), ok("u"), ok("1"), ok("-1")), "reqres_poll_secs must be a number");
}

#[test]
fn requests_are_routed() {
    assert_eq!(handle(Method::Get, Some("/healthz")), Route::Healthz);
    assert_eq!(handle(Method::Get, Some("/healthz?verbose=1")), Route::Healthz);
    assert_eq!(handle(Method::Post, Some("/v1/inference")), Route::Inference);
    assert_eq!(handle(Method::Post, Some("/v1/internal/presence?x")), Route::Presence);
    for (method, path) in [
        (Method::Post, Some("/healthz")),
        (Method::Get, Some("/v1/inference")),
        (Method::Delete, Some("/v1/internal/presence")),
        (Method::Other, Some("/healthz")),
        (Method::Get, Some("/healthz/")),
        (Method::Get, Some("/")),
        (Method::Get, None),
        (Method::Get, Some("")),
    ] {
        assert_eq!(handle(method, path), Route::NotFound);
    }
}

#[test]
fn fixed_replies() {
    let replies = [
        (ok_reply(), 200, "ok\n"),
        (not_found_reply(), 404, "not found\n"),
        (bad_json_reply("expected value"), 400, "bad json: expected value\n"),
        (store_unavailable_reply(), 500, "presence-store-unavailable\n"),
    ];
    for (reply, status, text) in replies {
        assert_eq!(reply.status, status);
        assert_eq!(String::from_utf8(reply.body).unwrap(), text);
        assert_eq!(reply.content_type, Some("text/plain; charset=utf-8".to_string()));
    }
}

#[test]
fn correlation_ids_are_fresh_random_uuids() {
    assert_eq!(corr_id_from("abc"), "corr_abc");
    let id = new_corr_id();
    let uuid = uuid::Uuid::try_parse(id.strip_prefix("corr_").unwrap()).unwrap();
    assert_eq!(uuid.get_version_num(), 4);
    assert_eq!(uuid.get_variant(), uuid::Variant::RFC4122);
    assert_eq!(uuid.simple().to_string(), id["corr_".len()..]);
    assert_ne!(new_corr_id(), id);
    assert_eq!(id.len(), 37);
}

#[test]
fn documents_are_posted() {
    let r = post_json(&cfg(Surface::Dotted), "/queues", "{}");
    assert_eq!(r.method, Method::Post);
    assert_eq!(r.url, "https://mq/v1/queues");
    assert_eq!(r.authorization, Some("Bearer tok".to_string()));
    assert_eq!(r.content_type, Some("application/json".to_string()));
    assert_eq!(r.subject, None);
    assert_eq!(r.body, b"{}".to_vec());
}

#[test]
fn subscription_follows_one_request() {
    let r = create_subscription(&cfg(Surface::Flat), "corr_1");
    assert_eq!(r.url, "https://mq/v1/subscriptions");
    assert_eq!(
        text_of(&r),
        r#"{"delivery":{"type":"sse"},"filter":"inference.corr_1.*","topic":"inference_responses"}"#
    );
    let r = create_subscription(&cfg(Surface::Dotted), "corr_1");
    assert_eq!(body(&r)["topic"], "inference.responses");
}

#[test]
fn queues_are_created_and_deleted() {
    let c = cfg(Surface::Flat);
    let r = create_queue(&c, "a\"b");
    assert_eq!(r.url, "https://mq/v1/queues");
    assert_eq!(text_of(&r), r#"{"name":"a\"b"}"#);
    let r = delete_queue(&c, "q");
    assert_eq!((r.method, r.url.as_str()), (Method::Delete, "https://mq/v1/queues/q"));
    assert_eq!((r.content_type, r.body.len()), (None, 0));
    assert_eq!(url_of_queue("x", "y"), "x/queues/y");
}

#[test]
fn work_is_published() {
    let r = publish_request(&cfg(Surface::Flat), "q", "corr_1", "m:1", "say \"hi\"", Some("r"));
    assert_eq!((r.method, r.url.as_str()), (Method::Post, "https://mq/v1/queues/q/messages"));
    assert_eq!(r.content_type, Some("application/octet-stream".to_string()));
    assert_eq!(
        text_of(&r),
        r#"{"corr_id":"corr_1","model":"m:1","prompt":"say \"hi\"","response_queue":"r"}"#
    );
    let r = publish_request(&cfg(Surface::Dotted), "q", "corr_1", "m:1", "hi", None);
    assert_eq!(r.url, "https://mq/v1/queues/q/send");
    assert_eq!(r.content_type, Some("application/json".to_string()));
    assert!(body(&r)["response_queue"].is_null());
}

#[test]
fn work_reads_back_as_it_was_given() {
    let odd = ["", "plain", "say \"hi\"\n\t\\", "modèle ☃ \u{1f600}", "\u{0}\u{1f}\u{7f}"];
    for a in odd {
        for b in odd {
            let r = publish_request(&cfg(Surface::Flat), "q", a, b, a, Some(b));
            let v = body(&r);
            assert_eq!((v["corr_id"].as_str(), v["model"].as_str()), (Some(a), Some(b)));
            assert_eq!((v["prompt"].as_str(), v["response_queue"].as_str()), (Some(a), Some(b)));
            assert_eq!(v.as_object().unwrap().len(), 4);
        }
    }
    let v = body(&publish_request(&cfg(Surface::Flat), "q", "c", "m", "p", None));
    assert!(v["response_queue"].is_null());
}

#[test]
fn heartbeats_are_answered() {
    let reply = inference_router::router::presence_reply(true);
    assert_eq!((reply.status, reply.body), (200, b"ok\n".to_vec()));
    let reply = inference_router::router::presence_reply(false);
    assert_eq!((reply.status, reply.body), (500, b"presence-store-unavailable\n".to_vec()));
}

#[test]
fn replies_are_awaited_and_acknowledged() {
    let (dotted, flat) = (cfg(Surface::Dotted), cfg(Surface::Flat));
    let r = receive_one(&dotted, "q", 15);
    assert_eq!((r.method, r.url.as_str()), (Method::Get, "https://mq/v1/queues/q/receive?wait=15"));
    let r = receive_one(&flat, "q", 15);
    assert_eq!((r.method, r.url.as_str()), (Method::Get, "https://mq/v1/queues/q/messages?wait=15"));
    let r = ack(&dotted, "q", "t");
    assert_eq!((r.method, r.url.as_str()), (Method::Post, "https://mq/v1/queues/q/ack/t"));
    let r = ack(&flat, "q", "t");
    assert_eq!((r.method, r.url.as_str()), (Method::Delete, "https://mq/v1/queues/q/messages/t"));
    assert_eq!(
        url_of_stream(&flat, "sub_1"),
        "https://mq/v1/subscriptions/sub_1/stream?bearer=tok"
    );
}

#[test]
fn complaints_of_the_router() {
    assert_eq!(post_error("https://x/queues", 500, "no"), "POST https://x/queues -> 500: no");
    assert_eq!(publish_error("q", 404, "gone"), "publish to q returned 404: gone");
    assert_eq!(receive_error("q", 429, ""), "receive from q returned 429: ");
}
