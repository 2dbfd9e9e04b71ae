use inference_router::generation::OllamaChunk;
use inference_router::job::{handle_message, Action, Event, Job, WorkItem};
use inference_router::names::{response_filter, response_queue, Surface};
use inference_router::web::{Method, Request};
use inference_router::worker::Cfg;

fn cfg() -> Cfg {
    Cfg::new(
        "tok",
        "https://mq/v1",
        "llama3.2:1b".to_string(),
        "http://ollama",
        "local-dev".to_string(),
        "wkr_1".to_string(),
    )
}

fn item(response_queue: Option<&str>) -> WorkItem {
    WorkItem {
        corr_id: "corr_1".to_string(),
        model: "llama3.2:1b".to_string(),
        prompt: "why?".to_string(),
        response_queue: response_queue.map(|q| q.to_string()),
    }
}

/// How the world answers a job: the model's output chunk by chunk, and the answer to each request by
/// its number, where it is not a plain success.
struct World {
    chunks: Vec<Result<Vec<u8>, String>>,
    answers: Vec<(usize, Event)>,
}

fn world(chunks: &[&str]) -> World {
    World {
        chunks: chunks.iter().map(|c| Ok(c.as_bytes().to_vec())).collect(),
        answers: vec![],
    }
}

/// What a job did: its requests, how many chunks it read, and what it failed of, if it did.
struct Record {
    sent: Vec<Request>,
    read: usize,
    error: Option<String>,
}

fn decode(line: &[u8]) -> Option<OllamaChunk> {
    let value: serde_json::Value = serde_json::from_slice(line).ok()?;
    Some(OllamaChunk {
        response: value["response"].as_str().unwrap_or("").to_string(),
        done: value["done"].as_bool().unwrap_or(false),
    })
}

fn run(item: WorkItem, mut world: World) -> Record {
    let cfg = cfg();
    let (mut job, mut action) = handle_message(&cfg, Some(item), "ack_1".to_string()).unwrap();
    let (mut sent, mut read) = (Vec::new(), 0);
    world.chunks.reverse();
    loop {
        let event = match action {
            Action::Send { request } => {
                let number = sent.len();
                sent.push(request);
                match world.answers.iter().position(|(n, _)| *n == number) {
                    Some(i) => world.answers.remove(i).1,
                    None => Event::Replied { status: 201, detail: String::new() },
                }
            }
            Action::ReadChunk => match world.chunks.pop() {
                Some(Ok(bytes)) => {
                    read += 1;
                    Event::Chunk { bytes }
                }
                Some(Err(error)) => Event::StreamFailed { error },
                None => Event::StreamEnded,
            },
            Action::Decode { line } => Event::Decoded { chunk: decode(&line) },
            Action::Finish { error } => return Record { sent, read, error },
        };
        assert!(job.accepts(&event));
        (job, action) = job.step(&cfg, event);
    }
}

fn refused(status: u16, detail: &str) -> Event {
    Event::Replied { status, detail: detail.to_string() }
}

fn failed(error: &str) -> Event {
    Event::Failed { error: error.to_string() }
}

/// The requests as a short text each: the subject or else the URL, and the body.
fn story(sent: &[Request]) -> Vec<String> {
    sent.iter()
        .map(|r| {
            let body = std::str::from_utf8(&r.body).unwrap();
            match &r.subject {
                Some(s) => format!("{s} {body}"),
                None => format!("{} {body}", r.url),
            }
        })
        .collect()
}

const ASK: &str = r#"http://ollama/api/generate {"model":"llama3.2:1b","prompt":"why?","stream":true}"#;
const ACK: &str = "https://mq/v1/queues/inference_req_llama3-2-1b/messages/ack_1 ";

const OUTPUT: &str = "{\"response\":\"He\"}\n\nnot json\n{\"response\":\"llo\"}\n{\"response\":\"\",\"done\":true}\n";

#[test]
fn successful_job_publishes_everything_in_order() {
    let record = run(item(Some("inference_resp_corr_1")), world(&[OUTPUT]));
    assert_eq!(record.error, None);
    assert_eq!(
        story(&record.sent),
        vec![
            ASK,
            r#"inference.corr_1.token {"token":"He"}"#,
            r#"inference.corr_1.token {"token":"llo"}"#,
            r#"inference.corr_1.done {"tokens":2}"#,
            r#"https://mq/v1/queues/inference_resp_corr_1/messages {"corr_id":"corr_1","model":"llama3.2:1b","response":"Hello","tokens":2}"#,
            ACK,
        ]
    );
    assert_eq!(record.sent.last().unwrap().method, Method::Delete);
}

#[test]
fn streaming_job_sends_no_whole_result() {
    let record = run(item(None), world(&[OUTPUT]));
    let story = story(&record.sent);
    assert_eq!(story.len(), 5);
    assert_eq!(story[3], r#"inference.corr_1.done {"tokens":2}"#);
    assert_eq!(story[4], ACK);
}

#[test]
fn job_does_not_depend_on_the_chunks() {
    let expected = story(&run(item(Some("r")), world(&[OUTPUT])).sent);
    for i in 0..=OUTPUT.len() {
        let (a, b) = OUTPUT.split_at(i);
        assert_eq!(story(&run(item(Some("r")), world(&[a, b])).sent), expected);
    }
}

#[test]
fn lines_after_done_in_the_same_chunk_still_count() {
    let output = "{\"done\":true}\n{\"response\":\"x\"}\n";
    let record = run(item(None), world(&[output, "{\"response\":\"never\"}\n"]));
    assert_eq!(record.read, 1);
    assert_eq!(
        story(&record.sent)[1..3],
        [
            r#"inference.corr_1.token {"token":"x"}"#.to_string(),
            r#"inference.corr_1.done {"tokens":1}"#.to_string(),
        ]
    );
}

#[test]
fn output_that_ends_without_done_is_complete() {
    let record = run(item(None), world(&["{\"response\":\"a\"}\n{\"response\":\"lost\"}"]));
    assert_eq!(record.error, None);
    assert_eq!(
        story(&record.sent)[1..],
        [
            r#"inference.corr_1.token {"token":"a"}"#.to_string(),
            r#"inference.corr_1.done {"tokens":1}"#.to_string(),
            ACK.to_string(),
        ]
    );
}

#[test]
fn refused_generation_is_reported_and_acknowledged() {
    let mut w = world(&[]);
    w.answers.push((0, refused(404, "no model")));
    let record = run(item(Some("r")), w);
    let error = "ollama 404 Not Found: no model";
    assert_eq!(record.error, Some(error.to_string()));
    assert_eq!(
        story(&record.sent),
        vec![
            ASK.to_string(),
            format!(r#"inference.corr_1.error {{"error":"{error}"}}"#),
            format!(
                r#"https://mq/v1/queues/r/messages {{"corr_id":"corr_1","model":"llama3.2:1b","error":"{error}"}}"#
            ),
            ACK.to_string(),
        ]
    );
}

#[test]
fn unreachable_runtime_is_reported() {
    let mut w = world(&[]);
    w.answers.push((0, failed("connection refused")));
    let record = run(item(None), w);
    assert_eq!(record.error, Some("connection refused".to_string()));
    assert_eq!(
        story(&record.sent)[1..],
        [
            r#"inference.corr_1.error {"error":"connection refused"}"#.to_string(),
            ACK.to_string()
        ]
    );
}

#[test]
fn broken_output_is_reported() {
    let mut w = world(&["{\"response\":\"a\"}\n"]);
    w.chunks.push(Err("cut off".to_string()));
    let record = run(item(None), w);
    assert_eq!(record.error, Some("cut off".to_string()));
    assert_eq!(record.sent.len(), 4);
}

#[test]
fn refused_token_stops_the_job() {
    let mut w = world(&[OUTPUT]);
    w.answers.push((1, refused(500, "full")));
    let record = run(item(Some("r")), w);
    assert_eq!(record.error, Some("publish 500 Internal Server Error: full".to_string()));
    assert_eq!(record.sent.len(), 5);
    assert_eq!(story(&record.sent)[4], ACK);
}

#[test]
fn refused_end_and_refused_whole_result() {
    let mut w = world(&[OUTPUT]);
    w.answers.push((3, failed("reset")));
    let record = run(item(Some("r")), w);
    assert_eq!(record.error, Some("reset".to_string()));
    let mut w = world(&[OUTPUT]);
    w.answers.push((4, refused(404, "gone")));
    let record = run(item(Some("r")), w);
    assert_eq!(record.error, Some("send to r: 404 Not Found: gone".to_string()));
    assert_eq!(record.sent.len(), 8);
}

#[test]
fn error_that_cannot_be_published_is_not_sent_either() {
    let mut w = world(&[]);
    w.answers.push((0, failed("down")));
    w.answers.push((1, refused(500, "")));
    let record = run(item(Some("r")), w);
    assert_eq!(record.error, Some("down".to_string()));
    assert_eq!(story(&record.sent)[2..], [ACK.to_string()]);
}

#[test]
fn message_is_acknowledged_whatever_fails() {
    for n in 0..6 {
        for outcome in [failed("x"), refused(500, "x")] {
            let mut w = world(&[OUTPUT]);
            w.answers.push((n, outcome));
            let record = run(item(Some("r")), w);
            assert_eq!(story(&record.sent).last().unwrap(), ACK);
            let deletes = record.sent.iter().filter(|r| r.method == Method::Delete).count();
            assert_eq!(deletes, 1);
            assert_eq!(record.error.is_none(), n == 5);
        }
    }
}

#[test]
fn unreadable_work_item_is_left_on_the_queue() {
    let error = handle_message(&cfg(), None, "ack_1".to_string()).unwrap_err();
    assert_eq!(error, "decoding work item");
}

#[test]
fn token_count_stays_within_its_bits() {
    let (job, _) = Job::begin(&cfg(), item(None), "a".to_string());
    let (mut job, _) = job.step(&cfg(), refused(200, ""));
    assert!(!job.accepts(&refused(200, "")));
    job = job.step(&cfg(), Event::Chunk { bytes: b"x\n".to_vec() }).0;
    let token = |s: &str| Event::Decoded {
        chunk: Some(OllamaChunk { response: s.to_string(), done: false }),
    };
    assert!(job.accepts(&token("t")));
    if let inference_router::job::Phase::Decoding { output } = &mut job.phase {
        output.tokens = u32::MAX;
    }
    assert!(!job.accepts(&token("t")));
    assert!(job.accepts(&token("")) && job.accepts(&Event::Decoded { chunk: None }));
}

#[test]
fn results_go_where_the_router_waits() {
    let queue = response_queue(Surface::Flat, "corr_1");
    let record = run(item(Some(&queue)), world(&[OUTPUT]));
    assert_eq!(record.sent[4].url, "https://mq/v1/queues/inference_resp_corr_1/messages");
    let filter = response_filter("corr_1");
    let head = filter.strip_suffix('*').unwrap();
    for r in &record.sent[1..4] {
        let leaf = r.subject.as_ref().unwrap().strip_prefix(head).unwrap();
        assert!(!leaf.contains('.'));
    }
}
