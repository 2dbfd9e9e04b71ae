use inference_router::generation::{Generation, OllamaChunk};
use inference_router::json::{object, optional_field, raw_field, string_field};
use inference_router::queue::{
    body_from, message_body, open_message, receive_messages, take_first, ReceiveResponse,
    ReceivedMessage,
};
use inference_router::web::{
    bearer_value, is_success, json, redirect, status_with_phrase, text, Method, Request,
};

fn message(token: &str, body_b64: &str) -> ReceivedMessage {
    ReceivedMessage { ack_token: token.to_string(), body_b64: body_b64.to_string() }
}

fn pair(name: &str, value: &str) -> (String, String) {
    (name.to_string(), value.to_string())
}

#[test]
fn objects_are_compact_and_keep_their_order() {
    let fields = vec![
        string_field("b", "x"),
        raw_field("a", "[1,2]".to_string()),
        optional_field("none", None),
        optional_field("some", Some("y")),
    ];
    assert_eq!(object(&fields), r#"{"b":"x","a":[1,2],"none":null,"some":"y"}"#);
    assert_eq!(object(&vec![]), "{}");
}

#[test]
fn strings_are_escaped() {
    assert_eq!(
        object(&vec![string_field("s", "a\"b\\c\n\u{1}é☃")]),
        "{\"s\":\"a\\\"b\\\\c\\n\\u0001é☃\"}"
    );
}

#[test]
fn every_character_is_written_by_the_rule() {
    for c in ('\0'..='\u{2ff}').chain(['\u{2028}', '\u{fffd}', '\u{1f600}']) {
        let expected = match c {
            '"' => "\\\"".to_string(),
            '\\' => "\\\\".to_string(),
            '\u{8}' => "\\b".to_string(),
            '\t' => "\\t".to_string(),
            '\n' => "\\n".to_string(),
            '\u{c}' => "\\f".to_string(),
            '\r' => "\\r".to_string(),
            c if c < ' ' => format!("\\u00{:02x}", c as u32),
            c => c.to_string(),
        };
        assert_eq!(string_field("s", &c.to_string()).value, format!("\"{expected}\""), "{c:?}");
    }
}

#[test]
fn strings_read_back_as_they_were() {
    let all: String = ('\0'..='\u{2fff}').collect();
    let written = object(&vec![string_field("s", &all)]);
    let value: serde_json::Value = serde_json::from_str(&written).unwrap();
    assert_eq!(value["s"].as_str().unwrap(), all);
}

#[test]
fn body_is_decoded() {
    assert_eq!(message_body(&message("t", "aGVsbG8=")).unwrap(), b"hello".to_vec());
    assert_eq!(message_body(&message("t", "")).unwrap(), Vec::<u8>::new());
    assert_eq!(message_body(&message("t", "+/8=")).unwrap(), vec![0xfb, 0xff]);
}

#[test]
fn body_that_is_no_base64() {
    for bad in ["aGVsbG8", "aGVsbG8=\n", "-_8=", "!", "é"] {
        assert_eq!(message_body(&message("t", bad)).unwrap_err(), "body_b64 decode");
    }
    assert_eq!(body_from(None).unwrap_err(), "body_b64 decode");
    assert_eq!(body_from(Some(vec![1])).unwrap(), vec![1]);
}

#[test]
fn uncounted_messages_are_none() {
    let none = ReceiveResponse { count: 0, messages: vec![message("t", "aGk=")] };
    assert!(receive_messages(none).is_empty());
    let two =
        ReceiveResponse { count: 1, messages: vec![message("t", "aGk="), message("u", "aGk=")] };
    let got = receive_messages(two);
    assert_eq!(got.len(), 2);
    assert_eq!(got[0].ack_token, "t");
    assert_eq!(got[1].ack_token, "u");
}

#[test]
fn first_message_is_opened() {
    let two =
        ReceiveResponse { count: 2, messages: vec![message("t", "aGk="), message("u", "!")] };
    let d = take_first(two).unwrap().unwrap();
    assert_eq!(d.ack_token, "t");
    assert_eq!(d.body, b"hi".to_vec());
    assert!(take_first(ReceiveResponse { count: 0, messages: vec![] }).unwrap().is_none());
    assert!(take_first(ReceiveResponse { count: 3, messages: vec![] }).unwrap().is_none());
    let bad = ReceiveResponse { count: 1, messages: vec![message("u", "!")] };
    assert_eq!(take_first(bad).unwrap_err(), "body_b64 decode");
    assert_eq!(open_message("t".to_string(), None).unwrap_err(), "body_b64 decode");
}

#[test]
fn responses_and_their_headers() {
    let r = text(404, "not found\n");
    assert_eq!((r.status, r.body.as_slice()), (404, &b"not found\n"[..]));
    assert_eq!(r.headers(), vec![pair("content-type", "text/plain; charset=utf-8")]);
    let r = json(vec![1, 2]);
    assert_eq!((r.status, r.body.as_slice()), (200, &[1u8, 2][..]));
    assert_eq!(r.headers(), vec![pair("content-type", "application/json")]);
    let r = redirect("https://x/y".to_string());
    assert_eq!((r.status, r.body.len()), (302, 0));
    assert_eq!(
        r.headers(),
        vec![pair("location", "https://x/y"), pair("cache-control", "no-store")]
    );
}

#[test]
fn request_headers() {
    let r = Request {
        method: Method::Post,
        url: String::new(),
        authorization: Some(bearer_value("tok")),
        subject: Some("a.b".to_string()),
        content_type: Some("c/d".to_string()),
        body: vec![],
    };
    assert_eq!(
        r.headers(),
        vec![
            pair("authorization", "Bearer tok"),
            pair("X-MQ-Subject", "a.b"),
            pair("content-type", "c/d"),
        ]
    );
    let bare = Request { authorization: None, subject: None, content_type: None, ..r };
    assert!(bare.headers().is_empty());
}

#[test]
fn statuses() {
    assert!(is_success(200) && is_success(201) && is_success(299));
    assert!(!is_success(199) && !is_success(300) && !is_success(0));
    assert_eq!(status_with_phrase(404, Some("Not Found".to_string())), "404 Not Found");
    assert_eq!(status_with_phrase(299, None), "299 <unknown status code>");
}

fn lines_of(chunks: &[&[u8]]) -> (Vec<Vec<u8>>, Vec<u8>) {
    let mut g = Generation::new();
    let mut lines = Vec::new();
    for chunk in chunks {
        g.feed(chunk);
        while let Some(line) = g.next_line() {
            lines.push(line);
        }
    }
    (lines, g.buf)
}

#[test]
fn output_is_cut_into_lines() {
    let (lines, rest) = lines_of(&[b"{\"a\":1}\n\n{\"b\"", b":2}\n{\"c"]);
    assert_eq!(lines, vec![b"{\"a\":1}".to_vec(), b"{\"b\":2}".to_vec()]);
    assert_eq!(rest, b"{\"c".to_vec());
}

#[test]
fn lines_do_not_depend_on_the_chunks() {
    let whole: &[u8] = b"one\ntwo\n\n\nthree\r\nfour";
    let expected = lines_of(&[whole]);
    assert_eq!(
        expected.0,
        vec![b"one".to_vec(), b"two".to_vec(), b"three\r".to_vec()]
    );
    for i in 0..=whole.len() {
        for j in i..=whole.len() {
            assert_eq!(lines_of(&[&whole[..i], &whole[i..j], &whole[j..]]), expected);
        }
    }
}

#[test]
fn tokens_are_gathered() {
    let mut g = Generation::new();
    let say = |response: &str, done: bool| OllamaChunk { response: response.to_string(), done };
    assert_eq!(g.absorb(say("He", false)), Some("He".to_string()));
    assert_eq!(g.absorb(say("", false)), None);
    assert_eq!(g.absorb(say("llo", true)), Some("llo".to_string()));
    assert_eq!(g.absorb(say("!", false)), Some("!".to_string()));
    assert_eq!((g.text.as_str(), g.tokens, g.done), ("Hello!", 3, true));
}
