use inference_router::outside::Member;
use inference_router::presence::{
    documents_of, enveloped_documents, handle_presence, parse_presence, pick_worker,
    pick_worker_at, presence_key, presence_keys, presence_prefix, readable_records, PresenceMessage,
    PresenceRecord,
};

fn message(worker: &str, ts: u64) -> PresenceMessage {
    PresenceMessage {
        worker_id: worker.to_string(),
        model: "llama3.2:1b".to_string(),
        region: Some("local-dev".to_string()),
        ts,
    }
}

fn record(worker: &str, last_seen: u64) -> Option<PresenceRecord> {
    Some(PresenceRecord {
        worker_id: worker.to_string(),
        model: "llama3.2:1b".to_string(),
        region: None,
        last_seen,
    })
}

fn picked(records: Vec<Option<PresenceRecord>>, now: u64, max_age: u64) -> Option<String> {
    pick_worker_at(records, now, max_age).map(|r| r.worker_id)
}

#[test]
fn heartbeat_is_filed_by_model_and_worker() {
    let (key, record) = handle_presence(message("wkr_1", 1748449698));
    assert_eq!(key, "presence:llama3-2-1b:wkr_1");
    assert_eq!(record.worker_id, "wkr_1");
    assert_eq!(record.model, "llama3.2:1b");
    assert_eq!(record.region, Some("local-dev".to_string()));
    assert_eq!(record.last_seen, 1748449698);
}

#[test]
fn replayed_heartbeat_leaves_the_store_as_it_is() {
    let mut store = std::collections::BTreeMap::new();
    for _ in 0..2 {
        let (key, record) = handle_presence(message("wkr_1", 7));
        store.insert(key, (record.worker_id, record.last_seen));
    }
    assert_eq!(store.len(), 1);
    assert_eq!(store["presence:llama3-2-1b:wkr_1"], ("wkr_1".to_string(), 7));
}

#[test]
fn keys_of_a_model_are_its_workers() {
    let keys: Vec<String> = [
        presence_key("llama3.2:1b", "a"),
        presence_key("llama3.2:1b-instruct", "b"),
        presence_key("phi", "c:d"),
        "other".to_string(),
        presence_key("llama3-2-1b", "e"),
    ]
    .to_vec();
    assert_eq!(presence_prefix("phi"), "presence:phi:");
    assert_eq!(
        presence_keys(&keys, "llama3.2:1b"),
        vec!["presence:llama3-2-1b:a".to_string(), "presence:llama3-2-1b:e".to_string()]
    );
    assert_eq!(presence_keys(&keys, "phi"), vec!["presence:phi:c:d".to_string()]);
    assert!(presence_keys(&keys, "llama").is_empty());
}

#[test]
fn last_seen_worker_is_picked() {
    assert_eq!(
        picked(vec![record("a", 90), record("b", 95), None, record("c", 92)], 100, 30),
        Some("b".to_string())
    );
}

#[test]
fn first_of_equally_recent_workers_is_picked() {
    assert_eq!(picked(vec![record("a", 95), record("b", 95)], 100, 30), Some("a".to_string()));
}

#[test]
fn staleness_is_checked_to_the_second() {
    assert_eq!(picked(vec![record("a", 70)], 100, 30), Some("a".to_string()));
    assert_eq!(picked(vec![record("a", 69)], 100, 30), None);
    assert_eq!(picked(vec![record("a", 500)], 100, 0), Some("a".to_string()));
    assert_eq!(picked(vec![record("a", 0)], u64::MAX, u64::MAX), Some("a".to_string()));
}

#[test]
fn nothing_to_pick() {
    assert_eq!(picked(vec![], 100, 30), None);
    assert_eq!(picked(vec![None, None], 100, 30), None);
}

#[test]
fn stale_workers_do_not_win() {
    assert_eq!(
        picked(vec![record("old", 10), record("new", 80), record("older", 5)], 100, 30),
        Some("new".to_string())
    );
}

#[test]
fn picking_goes_by_the_clock() {
    let now = inference_router::clock::now_secs();
    let found = vec![Ok(record("old", now - 1000)), Ok(None), Ok(record("new", now))];
    assert_eq!(pick_worker(found, 30).unwrap().unwrap().worker_id, "new");
    assert!(pick_worker(vec![Ok(record("old", now - 1000))], 30).unwrap().is_none());
}

#[test]
fn record_that_cannot_be_read_ends_the_search() {
    let now = inference_router::clock::now_secs();
    let found = vec![
        Ok(record("new", now)),
        Err("first".to_string()),
        Ok(None),
        Err("second".to_string()),
    ];
    assert_eq!(pick_worker(found, 30).unwrap_err(), "first");
    let records = readable_records(vec![Ok(None), Ok(record("a", 1))]).unwrap();
    assert!(records[0].is_none());
    assert_eq!(records[1].as_ref().unwrap().worker_id, "a");
    assert!(readable_records(vec![]).unwrap().is_empty());
}

fn read(document: &[u8]) -> Option<PresenceMessage> {
    let v: serde_json::Value = serde_json::from_slice(document).ok()?;
    Some(PresenceMessage {
        worker_id: v.get("worker_id")?.as_str()?.to_string(),
        model: v.get("model")?.as_str()?.to_string(),
        region: v.get("region").and_then(|r| r.as_str()).map(|r| r.to_string()),
        ts: v.get("ts")?.as_u64()?,
    })
}

#[test]
fn bare_and_enveloped_heartbeats_are_alike() {
    let bare = r#"{"worker_id":"wkr_1","model":"m","region":"r","ts":7}"#;
    let string = serde_json::Value::from(bare).to_string();
    let mut payloads = vec![bare.to_string()];
    for key in ["body", "data", "message"] {
        payloads.push(format!(r#"{{"{key}": {bare}}}"#));
        payloads.push(format!(r#"{{"{key}": {string}}}"#));
    }
    for payload in payloads {
        let payload = payload.as_bytes();
        let enveloped =
            enveloped_documents(payload).map(|ds| ds.iter().map(|d| read(d)).collect());
        let m = parse_presence(read(payload), enveloped).unwrap();
        assert_eq!((m.worker_id.as_str(), m.model.as_str(), m.ts), ("wkr_1", "m", 7));
        assert_eq!(m.region, Some("r".to_string()));
    }
}

fn texts(documents: Vec<Vec<u8>>) -> Vec<String> {
    documents.into_iter().map(|d| String::from_utf8(d).unwrap()).collect()
}

#[test]
fn envelope_members_are_tried_in_order() {
    let payload = br#"{"message":{"m":1},"data":"{\"d\":2}","body":{"b":[1, 2]}}"#;
    assert_eq!(
        texts(enveloped_documents(payload).unwrap()),
        vec![
            r#"{"b":[1,2]}"#.to_string(),
            r#""{\"d\":2}""#.to_string(),
            r#"{"d":2}"#.to_string(),
            r#"{"m":1}"#.to_string(),
        ]
    );
}

#[test]
fn payloads_without_envelope() {
    assert!(enveloped_documents(b"{}").unwrap().is_empty());
    assert!(enveloped_documents(b"[1]").unwrap().is_empty());
    assert!(enveloped_documents(b"\"body\"").unwrap().is_empty());
}

#[test]
fn payload_that_is_no_json() {
    let error = enveloped_documents(b"nope").unwrap_err();
    let expected = serde_json::from_slice::<serde_json::Value>(b"nope").unwrap_err().to_string();
    assert_eq!(error, expected);
    match parse_presence(None, Err(error)) {
        Err(e) => assert_eq!(e, format!("bad presence payload: {expected}")),
        Ok(_) => panic!("a payload that is no JSON was taken for a heartbeat"),
    }
}

#[test]
fn documents_follow_the_lookups() {
    let body = Member { json: "1".to_string(), text: None };
    let data = Member { json: "\"x\"".to_string(), text: Some("x".to_string()) };
    assert_eq!(
        texts(documents_of(Ok(Some(body)), Ok(None), Ok(Some(data))).unwrap()),
        vec!["1".to_string(), "\"x\"".to_string(), "x".to_string()]
    );
    assert_eq!(documents_of(Ok(None), Err("e".to_string()), Ok(None)).unwrap_err(), "e");
}

#[test]
fn bare_heartbeat_wins() {
    let m = parse_presence(Some(message("direct", 1)), Ok(vec![Some(message("inner", 2))]));
    assert_eq!(m.unwrap().worker_id, "direct");
    let m = parse_presence(Some(message("direct", 1)), Err("ignored".to_string()));
    assert_eq!(m.unwrap().worker_id, "direct");
}

#[test]
fn first_readable_document_wins() {
    let attempts = vec![None, Some(message("b", 1)), Some(message("c", 1))];
    assert_eq!(parse_presence(None, Ok(attempts)).unwrap().worker_id, "b");
}

#[test]
fn envelope_without_heartbeat() {
    match parse_presence(None, Ok(vec![None, None])) {
        Err(e) => assert_eq!(
            e,
            "bad presence payload: could not extract PresenceMessage from payload"
        ),
        Ok(_) => panic!("a heartbeat was found where there is none"),
    }
}
