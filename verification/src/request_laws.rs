//! What the requests of router and worker say to whoever gets them. The laws speak of what a function
//! was given and of the request that it gave back: where the request goes, who it says it is from, and
//! what is found in its body.
use crate::job;
use crate::json;
use crate::names;
use crate::outside::Member;
use crate::router;
use crate::web::{Method, Request};
use crate::worker;
use vstd::prelude::*;

verus! {

// ---------------------------------------------------------------------------
// Looking into a request
// ---------------------------------------------------------------------------

/// The text that a lookup in a document found, where it found one.
pub open spec fn text_found(found: Result<Option<Member>, String>) -> Option<Seq<char>> {
    match found {
        Ok(Some(m)) => match m.text {
            Some(t) => Some(t@),
            None => None,
        },
        _ => None,
    }
}

/// The notation of the value that a lookup in a document found, where it found one.
pub open spec fn notation_found(found: Result<Option<Member>, String>) -> Option<Seq<char>> {
    match found {
        Ok(Some(m)) => Some(m.json@),
        _ => None,
    }
}

/// The number that a lookup in a document found, where it found one.
pub open spec fn number_found(found: Result<Option<Member>, String>) -> Option<u64> {
    match found {
        Ok(Some(m)) => crate::text::parsed_u64(m.json@),
        _ => None,
    }
}

/// Whether a request carries a bearer token.
pub open spec fn bears(r: Request, bearer: Seq<char>) -> bool {
    r.authorization is Some && r.authorization->0@ == "Bearer "@ + bearer
}

/// Whether a request has no body and says nothing of one.
pub open spec fn is_bare(r: Request) -> bool {
    r.body@.len() == 0 && r.content_type is None && r.subject is None
}

/// Whether a request has a body of a type.
pub open spec fn is_of_type(r: Request, content_type: Seq<char>) -> bool {
    r.content_type is Some && r.content_type->0@ == content_type
}

/// Whether a request goes to a URL by a method.
pub open spec fn goes(r: Request, method: Method, url: Seq<char>) -> bool {
    r.method == method && r.url@ == url
}

/// Whether a request publishes JSON under a subject to a topic.
pub open spec fn publishes(
    r: Request,
    cfg: worker::Cfg,
    topic: Seq<char>,
    subject: Seq<char>,
) -> bool {
    &&& goes(r, Method::Post, cfg.base@ + "/topics/"@ + topic + "/publish"@)
    &&& bears(r, cfg.bearer@)
    &&& is_of_type(r, "application/json"@)
    &&& r.subject is Some && r.subject->0@ == subject
}

/// What a lookup finds in a document with these members.
proof fn lemma_lookup(
    members: Seq<(Seq<char>, json::Value)>,
    texts: Seq<(Seq<char>, Seq<char>)>,
    document: &[u8],
    key: &str,
    found: Result<Option<Member>, String>,
)
    requires
        json::plainly_named(members),
        texts.len() == members.len(),
        forall|i: int|
            #![trigger texts[i]]
            #![trigger members[i]]
            0 <= i < texts.len() ==> texts[i] == (members[i].0, json::value_text(members[i].1)),
        document@ == vstd::utf8::encode_utf8(json::object_text(texts)),
        json::looked_up(document, key, found),
    ensures
        forall|i: int|
            #![trigger members[i]]
            0 <= i < members.len() && members[i].0 == key@ ==> match members[i].1 {
                json::Value::Text { text } => text_found(found) == Some(text),
                json::Value::Number { n } => number_found(found) == Some(n) && text_found(found)
                    is None,
                json::Value::Null => notation_found(found) == Some("null"@) && text_found(found)
                    is None,
                value => notation_found(found) == Some(json::value_text(value)),
            },
{
    assert(members.map_values(|m: (Seq<char>, json::Value)| (m.0, json::value_text(m.1)))
        =~= texts);
    assert forall|i: int|
        #![trigger members[i]]
        0 <= i < members.len() && members[i].0 == key@ implies match members[i].1 {
        json::Value::Text { text } => text_found(found) == Some(text),
        json::Value::Number { n } => number_found(found) == Some(n) && text_found(found) is None,
        json::Value::Null => notation_found(found) == Some("null"@) && text_found(found) is None,
        value => notation_found(found) == Some(json::value_text(value)),
    } by {
        json::law_members_read_back(members, i, document, key, found);
        if let json::Value::Number { n } = members[i].1 {
            crate::text::law_decimal_reads_back(n);
        }
    }
}

// ---------------------------------------------------------------------------
// The worker
// ---------------------------------------------------------------------------

/// Whoever looks under `model` and `prompt` in what the model runtime is asked with finds the worker's
/// model and exactly the prompt, whatever its length and characters; the output is to stream. The
/// request goes to the runtime and tells it nothing of the bearer.
pub proof fn law_generate(
    cfg: &worker::Cfg,
    prompt: &str,
    r: Request,
    document: &[u8],
    key: &str,
    found: Result<Option<Member>, String>,
)
    requires
        call_ensures(worker::generate, (cfg, prompt), r),
        document@ == r.body@,
        json::looked_up(document, key, found),
    ensures
        goes(r, Method::Post, cfg.ollama_base@ + "/api/generate"@),
        is_of_type(r, "application/json"@),
        r.authorization is None && r.subject is None,
        key@ == "model"@ ==> text_found(found) == Some(cfg.model@),
        key@ == "prompt"@ ==> text_found(found) == Some(prompt@),
        key@ == "stream"@ ==> notation_found(found) == Some("true"@),
{
    reveal_strlit("model");
    reveal_strlit("prompt");
    reveal_strlit("stream");
    let members = seq![
        ("model"@, json::Value::Text { text: cfg.model@ }),
        ("prompt"@, json::Value::Text { text: prompt@ }),
        ("stream"@, json::Value::Truth { b: true }),
    ];
    assert("prompt"@[0] == 'p' && "stream"@[0] == 's' && "model"@[0] == 'm');
    lemma_lookup(
        members,
        seq![
            ("model"@, crate::outside::json_string(cfg.model@)),
            ("prompt"@, crate::outside::json_string(prompt@)),
            ("stream"@, "true"@),
        ],
        document,
        key,
        found,
    );
    assert(members[0].0 == "model"@ && members[1].0 == "prompt"@ && members[2].0 == "stream"@);
}

/// A job begins with asking the model runtime, and whoever looks into that request finds the worker's
/// model and exactly the prompt of the work item. The job keeps the work item and the token by which
/// its message is acknowledged.
pub proof fn law_job_asks_with_the_prompt(
    cfg: &worker::Cfg,
    item: job::WorkItem,
    ack_token: String,
    r: (job::Job, job::Action),
    document: &[u8],
    key: &str,
    found: Result<Option<Member>, String>,
)
    requires
        call_ensures(job::Job::begin, (cfg, item, ack_token), r),
        r.1 is Send ==> document@ == r.1->request.body@,
        json::looked_up(document, key, found),
    ensures
        r.1 is Send,
        goes(r.1->request, Method::Post, cfg.ollama_base@ + "/api/generate"@),
        r.1->request.authorization is None,
        key@ == "model"@ ==> text_found(found) == Some(cfg.model@),
        key@ == "prompt"@ ==> text_found(found) == Some(item.prompt@),
        r.0.item@ == item@,
        r.0.ack_token@ == ack_token@,
        r.0.phase is Asking,
{
    reveal_strlit("model");
    reveal_strlit("prompt");
    reveal_strlit("stream");
    assert(r.1@ is Send);
    assert(r.0@.phase is Asking);
    let members = seq![
        ("model"@, json::Value::Text { text: cfg.model@ }),
        ("prompt"@, json::Value::Text { text: item.prompt@ }),
        ("stream"@, json::Value::Truth { b: true }),
    ];
    assert("prompt"@[0] == 'p' && "stream"@[0] == 's' && "model"@[0] == 'm');
    lemma_lookup(
        members,
        seq![
            ("model"@, crate::outside::json_string(cfg.model@)),
            ("prompt"@, crate::outside::json_string(item.prompt@)),
            ("stream"@, "true"@),
        ],
        document,
        key,
        found,
    );
    assert(members[0].0 == "model"@ && members[1].0 == "prompt"@);
}

/// A token is published under the subject of its request, and whoever looks under `token` finds exactly
/// the token, whatever its characters.
pub proof fn law_publish_token(
    cfg: &worker::Cfg,
    corr_id: &str,
    token: &str,
    r: Request,
    document: &[u8],
    key: &str,
    found: Result<Option<Member>, String>,
)
    requires
        call_ensures(worker::publish_token, (cfg, corr_id, token), r),
        document@ == r.body@,
        key@ == "token"@,
        json::looked_up(document, key, found),
    ensures
        publishes(
            r,
            *cfg,
            "inference_responses"@,
            "inference."@ + corr_id@ + "."@ + "token"@,
        ),
        text_found(found) == Some(token@),
{
    reveal_strlit("token");
    let members = seq![("token"@, json::Value::Text { text: token@ })];
    lemma_lookup(
        members,
        seq![("token"@, crate::outside::json_string(token@))],
        document,
        key,
        found,
    );
    assert(members[0].0 == key@);
}

/// The end of the output is published under the subject of its request, and whoever looks under
/// `tokens` finds the count.
pub proof fn law_publish_done(
    cfg: &worker::Cfg,
    corr_id: &str,
    tokens: u32,
    r: Request,
    document: &[u8],
    key: &str,
    found: Result<Option<Member>, String>,
)
    requires
        call_ensures(worker::publish_done, (cfg, corr_id, tokens), r),
        document@ == r.body@,
        key@ == "tokens"@,
        json::looked_up(document, key, found),
    ensures
        publishes(
            r,
            *cfg,
            "inference_responses"@,
            "inference."@ + corr_id@ + "."@ + "done"@,
        ),
        number_found(found) == Some(tokens as u64),
{
    reveal_strlit("tokens");
    let members = seq![("tokens"@, json::Value::Number { n: tokens as u64 })];
    lemma_lookup(
        members,
        seq![("tokens"@, crate::text::decimal_text(tokens as nat))],
        document,
        key,
        found,
    );
    assert(members[0].0 == key@);
}

/// A failure is published under the subject of its request, and whoever looks under `error` finds
/// exactly the error.
pub proof fn law_publish_error(
    cfg: &worker::Cfg,
    corr_id: &str,
    error: &str,
    r: Request,
    document: &[u8],
    key: &str,
    found: Result<Option<Member>, String>,
)
    requires
        call_ensures(worker::publish_error, (cfg, corr_id, error), r),
        document@ == r.body@,
        key@ == "error"@,
        json::looked_up(document, key, found),
    ensures
        publishes(
            r,
            *cfg,
            "inference_responses"@,
            "inference."@ + corr_id@ + "."@ + "error"@,
        ),
        text_found(found) == Some(error@),
{
    reveal_strlit("error");
    let members = seq![("error"@, json::Value::Text { text: error@ })];
    lemma_lookup(
        members,
        seq![("error"@, crate::outside::json_string(error@))],
        document,
        key,
        found,
    );
    assert(members[0].0 == key@);
}

/// A heartbeat is published to the presence topic under the worker's own subject, and whoever looks
/// into it finds the worker's id, its model, its region and the moment.
pub proof fn law_heartbeat(
    cfg: &worker::Cfg,
    ts: u64,
    r: Request,
    document: &[u8],
    key: &str,
    found: Result<Option<Member>, String>,
)
    requires
        call_ensures(worker::heartbeat_at, (cfg, ts), r),
        document@ == r.body@,
        json::looked_up(document, key, found),
    ensures
        publishes(
            r,
            *cfg,
            "worker_presence"@,
            "presence."@ + cfg.worker_id@ + "."@ + cfg.normalized_model@,
        ),
        key@ == "worker_id"@ ==> text_found(found) == Some(cfg.worker_id@),
        key@ == "model"@ ==> text_found(found) == Some(cfg.model@),
        key@ == "region"@ ==> text_found(found) == Some(cfg.region@),
        key@ == "ts"@ ==> number_found(found) == Some(ts),
{
    lemma_heartbeat_body(*cfg, ts, document, key, found);
}

proof fn lemma_heartbeat_body(
    cfg: worker::Cfg,
    ts: u64,
    document: &[u8],
    key: &str,
    found: Result<Option<Member>, String>,
)
    requires
        document@ == worker::heartbeat_request(cfg@, ts).body,
        json::looked_up(document, key, found),
    ensures
        key@ == "worker_id"@ ==> text_found(found) == Some(cfg.worker_id@),
        key@ == "model"@ ==> text_found(found) == Some(cfg.model@),
        key@ == "region"@ ==> text_found(found) == Some(cfg.region@),
        key@ == "ts"@ ==> number_found(found) == Some(ts),
{
    reveal_strlit("worker_id");
    reveal_strlit("model");
    reveal_strlit("region");
    reveal_strlit("ts");
    let members = seq![
        ("worker_id"@, json::Value::Text { text: cfg.worker_id@ }),
        ("model"@, json::Value::Text { text: cfg.model@ }),
        ("region"@, json::Value::Text { text: cfg.region@ }),
        ("ts"@, json::Value::Number { n: ts }),
    ];
    assert("worker_id"@.len() == 9 && "model"@.len() == 5 && "region"@.len() == 6 && "ts"@.len()
        == 2);
    lemma_lookup(
        members,
        seq![
            ("worker_id"@, crate::outside::json_string(cfg.worker_id@)),
            ("model"@, crate::outside::json_string(cfg.model@)),
            ("region"@, crate::outside::json_string(cfg.region@)),
            ("ts"@, crate::text::decimal_text(ts as nat)),
        ],
        document,
        key,
        found,
    );
    assert(members[0].0 == "worker_id"@ && members[1].0 == "model"@ && members[2].0 == "region"@
        && members[3].0 == "ts"@);
}

/// A heartbeat that is published at once holds a moment that the clock reads, beside the worker's id,
/// its model and its region.
pub proof fn law_heartbeat_tells_the_time(
    cfg: &worker::Cfg,
    r: Request,
    document: &[u8],
    key: &str,
    found: Result<Option<Member>, String>,
)
    requires
        call_ensures(worker::publish_heartbeat, (cfg,), r),
        document@ == r.body@,
        json::looked_up(document, key, found),
    ensures
        key@ == "worker_id"@ ==> text_found(found) == Some(cfg.worker_id@),
        key@ == "model"@ ==> text_found(found) == Some(cfg.model@),
        key@ == "region"@ ==> text_found(found) == Some(cfg.region@),
        key@ == "ts"@ ==> number_found(found) is Some && crate::clock::clock_reads(
            number_found(found)->0,
        ),
{
    let ts = choose|ts: u64|
        crate::clock::clock_reads(ts) && r@ == #[trigger] worker::heartbeat_request(cfg@, ts);
    lemma_heartbeat_body(*cfg, ts, document, key, found);
}

/// Whoever looks into the whole output of a model finds the correlation id, the model, the text and the
/// count of tokens.
pub proof fn law_final_response(
    corr_id: &str,
    model: &str,
    response: &str,
    tokens: u32,
    r: String,
    document: &[u8],
    key: &str,
    found: Result<Option<Member>, String>,
)
    requires
        call_ensures(worker::final_response, (corr_id, model, response, tokens), r),
        document@ == vstd::utf8::encode_utf8(r@),
        json::looked_up(document, key, found),
    ensures
        key@ == "corr_id"@ ==> text_found(found) == Some(corr_id@),
        key@ == "model"@ ==> text_found(found) == Some(model@),
        key@ == "response"@ ==> text_found(found) == Some(response@),
        key@ == "tokens"@ ==> number_found(found) == Some(tokens as u64),
{
    lemma_final_body(corr_id@, model@, response@, tokens, document, key, found);
}

/// What is found in the whole output of a model.
pub proof fn lemma_final_body(
    corr_id: Seq<char>,
    model: Seq<char>,
    response: Seq<char>,
    tokens: u32,
    document: &[u8],
    key: &str,
    found: Result<Option<Member>, String>,
)
    requires
        document@ == worker::final_bytes(corr_id, model, response, tokens),
        json::looked_up(document, key, found),
    ensures
        key@ == "corr_id"@ ==> text_found(found) == Some(corr_id),
        key@ == "model"@ ==> text_found(found) == Some(model),
        key@ == "response"@ ==> text_found(found) == Some(response),
        key@ == "tokens"@ ==> number_found(found) == Some(tokens as u64),
{
    reveal_strlit("corr_id");
    reveal_strlit("model");
    reveal_strlit("response");
    reveal_strlit("tokens");
    let members = seq![
        ("corr_id"@, json::Value::Text { text: corr_id }),
        ("model"@, json::Value::Text { text: model }),
        ("response"@, json::Value::Text { text: response }),
        ("tokens"@, json::Value::Number { n: tokens as u64 }),
    ];
    assert("corr_id"@.len() == 7 && "model"@.len() == 5 && "response"@.len() == 8
        && "tokens"@.len() == 6);
    lemma_lookup(
        members,
        seq![
            ("corr_id"@, crate::outside::json_string(corr_id)),
            ("model"@, crate::outside::json_string(model)),
            ("response"@, crate::outside::json_string(response)),
            ("tokens"@, crate::text::decimal_text(tokens as nat)),
        ],
        document,
        key,
        found,
    );
    assert(members[0].0 == "corr_id"@ && members[1].0 == "model"@ && members[2].0 == "response"@
        && members[3].0 == "tokens"@);
}

/// Whoever looks into the document that says why there is no output finds the correlation id, the model
/// and the error.
pub proof fn law_error_response(
    corr_id: &str,
    model: &str,
    error: &str,
    r: String,
    document: &[u8],
    key: &str,
    found: Result<Option<Member>, String>,
)
    requires
        call_ensures(worker::error_response, (corr_id, model, error), r),
        document@ == vstd::utf8::encode_utf8(r@),
        json::looked_up(document, key, found),
    ensures
        key@ == "corr_id"@ ==> text_found(found) == Some(corr_id@),
        key@ == "model"@ ==> text_found(found) == Some(model@),
        key@ == "error"@ ==> text_found(found) == Some(error@),
{
    lemma_error_body(corr_id@, model@, error@, document, key, found);
}

/// What is found in the document that says why there is no output.
pub proof fn lemma_error_body(
    corr_id: Seq<char>,
    model: Seq<char>,
    error: Seq<char>,
    document: &[u8],
    key: &str,
    found: Result<Option<Member>, String>,
)
    requires
        document@ == worker::error_bytes(corr_id, model, error),
        json::looked_up(document, key, found),
    ensures
        key@ == "corr_id"@ ==> text_found(found) == Some(corr_id),
        key@ == "model"@ ==> text_found(found) == Some(model),
        key@ == "error"@ ==> text_found(found) == Some(error),
{
    reveal_strlit("corr_id");
    reveal_strlit("model");
    reveal_strlit("error");
    let members = seq![
        ("corr_id"@, json::Value::Text { text: corr_id }),
        ("model"@, json::Value::Text { text: model }),
        ("error"@, json::Value::Text { text: error }),
    ];
    assert("model"@[0] == 'm' && "error"@[0] == 'e' && "corr_id"@[0] == 'c');
    lemma_lookup(
        members,
        seq![
            ("corr_id"@, crate::outside::json_string(corr_id)),
            ("model"@, crate::outside::json_string(model)),
            ("error"@, crate::outside::json_string(error)),
        ],
        document,
        key,
        found,
    );
    assert(members[0].0 == "corr_id"@ && members[1].0 == "model"@ && members[2].0 == "error"@);
}

/// A resource is created under its path and, as whoever looks under `name` finds, under its name.
pub proof fn law_create_resource(
    cfg: &worker::Cfg,
    path: &str,
    name: &str,
    r: Request,
    document: &[u8],
    key: &str,
    found: Result<Option<Member>, String>,
)
    requires
        call_ensures(worker::create_resource, (cfg, path, name), r),
        document@ == r.body@,
        key@ == "name"@,
        json::looked_up(document, key, found),
    ensures
        goes(r, Method::Post, cfg.base@ + path@),
        bears(r, cfg.bearer@),
        is_of_type(r, "application/json"@),
        r.subject is None,
        text_found(found) == Some(name@),
{
    lemma_name_body(name@, document, key, found);
}

/// What is found in a document that holds a name.
pub proof fn lemma_name_body(
    name: Seq<char>,
    document: &[u8],
    key: &str,
    found: Result<Option<Member>, String>,
)
    requires
        document@ == vstd::utf8::encode_utf8(
            json::object_text(seq![("name"@, crate::outside::json_string(name))]),
        ),
        key@ == "name"@,
        json::looked_up(document, key, found),
    ensures
        text_found(found) == Some(name),
{
    reveal_strlit("name");
    let members = seq![("name"@, json::Value::Text { text: name })];
    lemma_lookup(
        members,
        seq![("name"@, crate::outside::json_string(name))],
        document,
        key,
        found,
    );
    assert(members[0].0 == key@);
}

/// The worker waits on its own queue for as long as the service lets it, and acknowledges a message on
/// that queue by its token.
pub proof fn law_worker_queue_requests(cfg: &worker::Cfg, token: &str, r: Request)
    ensures
        call_ensures(worker::receive, (cfg,), r) ==> goes(
            r,
            Method::Get,
            cfg.base@ + "/queues/"@ + cfg.queue@ + "/messages?wait="@ + "20"@,
        ) && bears(r, cfg.bearer@) && is_bare(r),
        call_ensures(worker::ack, (cfg, token), r) ==> goes(
            r,
            Method::Delete,
            cfg.base@ + "/queues/"@ + cfg.queue@ + "/messages/"@ + token@,
        ) && bears(r, cfg.bearer@) && is_bare(r),
{
    reveal_strlit("20");
    reveal_with_fuel(crate::text::decimal_text, 3);
    assert(crate::text::decimal_text(20) =~= "20"@);
}

/// A queue gets exactly the bytes that are sent to it, whatever they are.
pub proof fn law_send_to_queue(cfg: &worker::Cfg, queue: &str, body: &[u8], r: Request)
    requires
        call_ensures(worker::send_to_queue, (cfg, queue, body), r),
    ensures
        goes(r, Method::Post, cfg.base@ + "/queues/"@ + queue@ + "/messages"@),
        bears(r, cfg.bearer@),
        is_of_type(r, "application/octet-stream"@),
        r.subject is None,
        r.body@ == body@,
{
}

/// A message about a request goes out as it is, under the subject of the request and the leaf.
pub proof fn law_publish_to_responses(
    cfg: &worker::Cfg,
    corr_id: &str,
    leaf: &str,
    body: &str,
    r: Request,
)
    requires
        call_ensures(worker::publish_to_responses, (cfg, corr_id, leaf, body), r),
    ensures
        publishes(r, *cfg, "inference_responses"@, "inference."@ + corr_id@ + "."@ + leaf@),
        r.body@ == vstd::utf8::encode_utf8(body@),
{
}

// ---------------------------------------------------------------------------
// The router
// ---------------------------------------------------------------------------

/// Whoever looks into the request that creates a subscription for a correlation id finds the topic to
/// which the worker's messages about a request go, and a filter that selects every subject under which
/// it publishes about that id and none under which it publishes about another.
pub proof fn law_create_subscription(
    cfg: &router::Cfg,
    corr_id: &str,
    r: Request,
    document: &[u8],
    key: &str,
    found: Result<Option<Member>, String>,
    w: &worker::Cfg,
    other: &str,
    leaf: &str,
    body: &str,
    published: Request,
)
    requires
        call_ensures(router::create_subscription, (cfg, corr_id), r),
        document@ == r.body@,
        json::looked_up(document, key, found),
        call_ensures(worker::publish_to_responses, (w, other, leaf, body), published),
        crate::naming_laws::is_token(corr_id@),
        corr_id@ != seq!['*'],
        crate::naming_laws::is_token(other@),
        crate::naming_laws::is_token(leaf@),
    ensures
        goes(r, Method::Post, cfg.base@ + "/subscriptions"@),
        bears(r, cfg.bearer@),
        is_of_type(r, "application/json"@),
        key@ == "filter"@ ==> text_found(found) is Some && published.subject is Some && (
        names::selects(text_found(found)->0, published.subject->0@) <==> corr_id@ == other@),
        key@ == "topic"@ && cfg.surface == names::Surface::Flat ==> text_found(found) is Some
            && published.url@ == w.base@ + "/topics/"@ + text_found(found)->0 + "/publish"@,
        key@ == "topic"@ && cfg.surface == names::Surface::Dotted ==> text_found(found) == Some(
            "inference.responses"@,
        ),
        key@ == "delivery"@ ==> notation_found(found) == Some("{\"type\":\"sse\"}"@),
{
    reveal_strlit("delivery");
    reveal_strlit("filter");
    reveal_strlit("topic");
    reveal_strlit("type");
    reveal_strlit("sse");
    reveal_strlit("{\"type\":\"sse\"}");
    reveal_strlit("{");
    reveal_strlit("}");
    reveal_strlit("\"");
    reveal_strlit("\":");
    let filter = names::response_filter_name(corr_id@);
    let topic = names::response_topic_name(cfg.surface);
    let sse = json::Value::Pair { name: "type"@, text: "sse"@ };
    reveal_with_fuel(crate::outside::all_escaped, 4);
    let s = "sse"@;
    assert(s.drop_last().drop_last().drop_last() =~= Seq::empty());
    assert(s.drop_last().drop_last().last() == 's' && s.drop_last().last() == 's' && s.last()
        == 'e');
    assert(crate::outside::json_string(s) =~= seq!['"', 's', 's', 'e', '"']);
    reveal_with_fuel(json::members_text, 2);
    assert(json::value_text(sse) =~= "{\"type\":\"sse\"}"@);
    let members = seq![
        ("delivery"@, sse),
        ("filter"@, json::Value::Text { text: filter }),
        ("topic"@, json::Value::Text { text: topic }),
    ];
    assert("delivery"@[0] == 'd' && "filter"@[0] == 'f' && "topic"@[0] == 't');
    assert(json::plainly_named(members));
    lemma_lookup(
        members,
        seq![
            ("delivery"@, "{\"type\":\"sse\"}"@),
            ("filter"@, crate::outside::json_string(filter)),
            ("topic"@, crate::outside::json_string(topic)),
        ],
        document,
        key,
        found,
    );
    assert(members[0].0 == "delivery"@ && members[1].0 == "filter"@ && members[2].0 == "topic"@);
    crate::naming_laws::law_filter_isolates_request(corr_id@, other@, leaf@);
}

/// A queue is created under the name that whoever looks under `name` finds, and deleted under the URL
/// of that name.
pub proof fn law_create_and_delete_queue(
    cfg: &router::Cfg,
    name: &str,
    created: Request,
    deleted: Request,
    document: &[u8],
    key: &str,
    found: Result<Option<Member>, String>,
)
    requires
        call_ensures(router::create_queue, (cfg, name), created),
        call_ensures(router::delete_queue, (cfg, name), deleted),
        document@ == created.body@,
        key@ == "name"@,
        json::looked_up(document, key, found),
    ensures
        goes(created, Method::Post, cfg.base@ + "/queues"@),
        bears(created, cfg.bearer@),
        is_of_type(created, "application/json"@),
        text_found(found) == Some(name@),
        goes(deleted, Method::Delete, cfg.base@ + "/queues/"@ + name@),
        bears(deleted, cfg.bearer@),
        is_bare(deleted),
{
    lemma_name_body(name@, document, key, found);
}

/// What is found in the body of a request for work.
pub proof fn lemma_work_body(
    corr_id: Seq<char>,
    model: Seq<char>,
    prompt: Seq<char>,
    response_queue: Option<Seq<char>>,
    document: &[u8],
    key: &str,
    found: Result<Option<Member>, String>,
)
    requires
        document@ == vstd::utf8::encode_utf8(
            router::work_document(corr_id, model, prompt, response_queue),
        ),
        json::looked_up(document, key, found),
    ensures
        key@ == "corr_id"@ ==> text_found(found) == Some(corr_id),
        key@ == "model"@ ==> text_found(found) == Some(model),
        key@ == "prompt"@ ==> text_found(found) == Some(prompt),
        key@ == "response_queue"@ ==> text_found(found) == response_queue,
        key@ == "response_queue"@ && response_queue is None ==> notation_found(found) == Some(
            "null"@,
        ),
{
    reveal_strlit("corr_id");
    reveal_strlit("model");
    reveal_strlit("prompt");
    reveal_strlit("response_queue");
    let members = seq![
        ("corr_id"@, json::Value::Text { text: corr_id }),
        ("model"@, json::Value::Text { text: model }),
        ("prompt"@, json::Value::Text { text: prompt }),
        ("response_queue"@, json::text_or_null(response_queue)),
    ];
    assert("corr_id"@.len() == 7 && "model"@.len() == 5 && "prompt"@.len() == 6
        && "response_queue"@.len() == 14);
    lemma_lookup(
        members,
        seq![
            ("corr_id"@, crate::outside::json_string(corr_id)),
            ("model"@, crate::outside::json_string(model)),
            ("prompt"@, crate::outside::json_string(prompt)),
            ("response_queue"@, json::optional_string(response_queue)),
        ],
        document,
        key,
        found,
    );
    assert(members[0].0 == "corr_id"@ && members[1].0 == "model"@ && members[2].0 == "prompt"@
        && members[3].0 == "response_queue"@);
}

/// A request for work goes to the messages of the queue that it was given, and whoever looks into it
/// finds the correlation id, the model, the prompt and the response queue as they were given.
pub proof fn law_publish_request(
    cfg: &router::Cfg,
    queue: &str,
    corr_id: &str,
    model: &str,
    prompt: &str,
    response_queue: Option<&str>,
    r: Request,
    document: &[u8],
    key: &str,
    found: Result<Option<Member>, String>,
)
    requires
        call_ensures(
            router::publish_request,
            (cfg, queue, corr_id, model, prompt, response_queue),
            r,
        ),
        document@ == r.body@,
        json::looked_up(document, key, found),
    ensures
        goes(
            r,
            Method::Post,
            cfg.base@ + "/queues/"@ + queue@ + (if cfg.surface == names::Surface::Flat {
                "/messages"@
            } else {
                "/send"@
            }),
        ),
        bears(r, cfg.bearer@),
        is_of_type(
            r,
            if cfg.surface == names::Surface::Flat {
                "application/octet-stream"@
            } else {
                "application/json"@
            },
        ),
        r.subject is None,
        key@ == "corr_id"@ ==> text_found(found) == Some(corr_id@),
        key@ == "model"@ ==> text_found(found) == Some(model@),
        key@ == "prompt"@ ==> text_found(found) == Some(prompt@),
        key@ == "response_queue"@ ==> text_found(found) == match response_queue {
            Some(q) => Some(q@),
            None => None,
        },
        key@ == "response_queue"@ && response_queue is None ==> notation_found(found) == Some(
            "null"@,
        ),
{
    lemma_work_body(
        corr_id@,
        model@,
        prompt@,
        crate::web::opt_str(response_queue),
        document,
        key,
        found,
    );
}

/// Whether a request waits for a message on a queue; `wait` is how long, as it is written.
pub open spec fn waits(
    r: Request,
    base: Seq<char>,
    surface: names::Surface,
    queue: Seq<char>,
    wait: Seq<char>,
) -> bool {
    goes(
        r,
        Method::Get,
        base + "/queues/"@ + queue + (if surface == names::Surface::Flat {
            "/messages?wait="@
        } else {
            "/receive?wait="@
        }) + wait,
    )
}

/// The router waits on a queue for as long as it was told, and acknowledges a message of a queue by its
/// token.
pub proof fn law_router_queue_requests(
    cfg: &router::Cfg,
    queue: &str,
    wait_secs: u64,
    token: &str,
    r: Request,
)
    ensures
        call_ensures(router::receive_one, (cfg, queue, wait_secs), r) ==> exists|wait: Seq<char>|
            crate::text::parsed_u64(wait) == Some(wait_secs) && #[trigger] waits(
                r,
                cfg.base@,
                cfg.surface,
                queue@,
                wait,
            ) && bears(r, cfg.bearer@) && is_bare(r),
        call_ensures(router::ack, (cfg, queue, token), r) && cfg.surface == names::Surface::Flat
            ==> goes(
            r,
            Method::Delete,
            cfg.base@ + "/queues/"@ + queue@ + "/messages/"@ + token@,
        ) && bears(r, cfg.bearer@) && is_bare(r),
        call_ensures(router::ack, (cfg, queue, token), r) && cfg.surface == names::Surface::Dotted
            ==> goes(r, Method::Post, cfg.base@ + "/queues/"@ + queue@ + "/ack/"@ + token@)
            && bears(r, cfg.bearer@) && is_bare(r),
{
    crate::text::law_decimal_reads_back(wait_secs);
    if call_ensures(router::receive_one, (cfg, queue, wait_secs), r) {
        let wait = crate::text::decimal_text(wait_secs as nat);
        assert(waits(r, cfg.base@, cfg.surface, queue@, wait));
    }
}

/// A document that is posted goes to the path below the base, as it is.
pub proof fn law_post_json(cfg: &router::Cfg, path: &str, body: &str, r: Request)
    requires
        call_ensures(router::post_json, (cfg, path, body), r),
    ensures
        goes(r, Method::Post, cfg.base@ + path@),
        bears(r, cfg.bearer@),
        is_of_type(r, "application/json"@),
        r.subject is None,
        r.body@ == vstd::utf8::encode_utf8(body@),
{
}

} // verus!
