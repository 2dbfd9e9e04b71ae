//! The worker: its configuration and every request that it makes of the messaging service and of the
//! model runtime.
use crate::clock::now_secs;
use crate::ids::fresh_uuid;
use crate::json::{object, raw_field, string_field, Field};
use crate::names::{
    normalize_name, presence_subject, presence_topic, response_subject, response_topic,
    worker_queue, Surface,
};
use crate::outside::{lossy_text, reason_phrase};
use crate::queue::{receive_messages, ReceiveResponse, ReceivedMessage};
use crate::router::url_of_queue;
use crate::text::{bytes_of, decimal, trim, trim_end_slashes};
use crate::web::{bearer_value, is_success, status_with_phrase, Method, Request};
use vstd::prelude::*;
use vstd::string::*;

verus! {

// ---------------------------------------------------------------------------
// Configuration
// ---------------------------------------------------------------------------

/// The longest that the service lets a receive wait.
pub const SUBSTRATE_MAX_WAIT_SECS: u64 = 20;

/// The configuration of a worker.
#[derive(Debug)]
pub struct Cfg {
    pub bearer: String,
    pub base: String,
    pub model: String,
    pub normalized_model: String,
    pub queue: String,
    pub ollama_base: String,
    pub region: String,
    pub worker_id: String,
}

/// The configuration of a worker over mathematical values.
pub struct CfgView {
    pub bearer: Seq<char>,
    pub base: Seq<char>,
    pub model: Seq<char>,
    pub normalized_model: Seq<char>,
    pub queue: Seq<char>,
    pub ollama_base: Seq<char>,
    pub region: Seq<char>,
    pub worker_id: Seq<char>,
}

impl View for Cfg {
    type V = CfgView;

    open spec fn view(&self) -> CfgView {
        CfgView {
            bearer: self.bearer@,
            base: self.base@,
            model: self.model@,
            normalized_model: self.normalized_model@,
            queue: self.queue@,
            ollama_base: self.ollama_base@,
            region: self.region@,
            worker_id: self.worker_id@,
        }
    }
}

impl CfgView {
    /// Whether the names that derive from the model are the ones that belong to it.
    pub open spec fn well_formed(self) -> bool {
        &&& self.normalized_model == crate::names::normalized_name(self.model)
        &&& self.queue == crate::names::worker_queue_name(self.model)
    }
}

/// The id of a worker made from a UUID.
pub open spec fn worker_id_text(uuid: Seq<char>) -> Seq<char> {
    "wkr_"@ + uuid
}

/// The id of a worker made from a UUID.
pub fn worker_id_from(uuid: &str) -> (r: String)
    ensures
        r@ == worker_id_text(uuid@),
{
    "wkr_".to_string().concat(uuid)
}

/// A fresh worker id, from a UUID drawn at random.
pub fn new_worker_id() -> (r: String)
    ensures
        exists|uuid: String|
            #[trigger] crate::ids::drawn(uuid) && crate::outside::is_simple_uuid(uuid@) && r@
                == worker_id_text(uuid@),
{
    let uuid = fresh_uuid();
    worker_id_from(uuid.as_str())
}

/// The configuration that the arguments of a worker give.
pub open spec fn configured(
    bearer: Seq<char>,
    substrate_base: Seq<char>,
    model: Seq<char>,
    ollama_base: Seq<char>,
    region: Seq<char>,
    worker_id: Seq<char>,
) -> CfgView {
    CfgView {
        bearer: crate::text::trimmed(bearer),
        base: crate::text::without_trailing_slashes(substrate_base),
        model,
        normalized_model: crate::names::normalized_name(model),
        queue: crate::names::worker_queue_name(model),
        ollama_base: crate::text::without_trailing_slashes(ollama_base),
        region,
        worker_id,
    }
}

impl Cfg {
    /// Takes the configuration from the arguments of a worker. White space around the bearer and
    /// slashes at the end of the base URLs are cut off.
    pub fn new(
        bearer: &str,
        substrate_base: &str,
        model: String,
        ollama_base: &str,
        region: String,
        worker_id: String,
    ) -> (r: Cfg)
        ensures
            r@ == configured(
                bearer@,
                substrate_base@,
                model@,
                ollama_base@,
                region@,
                worker_id@,
            ),
            r@.well_formed(),
    {
        let normalized_model = normalize_name(model.as_str());
        let queue = worker_queue(model.as_str());
        Cfg {
            bearer: trim(bearer),
            base: trim_end_slashes(substrate_base),
            model,
            normalized_model,
            queue,
            ollama_base: trim_end_slashes(ollama_base),
            region,
            worker_id,
        }
    }
}

/// What was found where the bearer may be kept on disk.
#[derive(Debug)]
pub enum BearerFile {
    /// There is no such file.
    Missing,
    /// The file holds this.
    Contents { text: String },
    /// The file is there and cannot be read.
    Unreadable,
}

/// The places on disk where the bearer may be kept, in the order in which they are tried.
pub fn bearer_paths() -> (r: (String, String))
    ensures
        r.0@ == "../.tenant-bearer"@,
        r.1@ == ".tenant-bearer"@,
{
    ("../.tenant-bearer".to_string(), ".tenant-bearer".to_string())
}

/// A text or an error over mathematical values.
pub open spec fn text_view(r: Result<String, String>) -> Result<Seq<char>, Seq<char>> {
    match r {
        Ok(s) => Ok(s@),
        Err(e) => Err(e@),
    }
}

/// The bearer on disk: the first file that is there decides.
pub open spec fn bearer_on_disk(above: BearerFile, here: BearerFile) -> Result<
    Seq<char>,
    Seq<char>,
> {
    match (above, here) {
        (BearerFile::Contents { text }, _) => Ok(text@),
        (BearerFile::Unreadable, _) => Err("reading ../.tenant-bearer"@),
        (BearerFile::Missing, BearerFile::Contents { text }) => Ok(text@),
        (BearerFile::Missing, BearerFile::Unreadable) => Err("reading .tenant-bearer"@),
        (BearerFile::Missing, BearerFile::Missing) => Err(
            "no bearer provided (--bearer or TENANT_BEARER env), and ../.tenant-bearer not found"@,
        ),
    }
}

/// Finds the bearer on disk, from what was found at the two places of [`bearer_paths`].
pub fn load_bearer_from_disk(above: BearerFile, here: BearerFile) -> (r: Result<String, String>)
    ensures
        text_view(r) == bearer_on_disk(above, here),
{
    match (above, here) {
        (BearerFile::Contents { text }, _) => Ok(text),
        (BearerFile::Unreadable, _) => Err("reading ../.tenant-bearer".to_string()),
        (BearerFile::Missing, BearerFile::Contents { text }) => Ok(text),
        (BearerFile::Missing, BearerFile::Unreadable) => Err("reading .tenant-bearer".to_string()),
        (BearerFile::Missing, BearerFile::Missing) => Err(
            "no bearer provided (--bearer or TENANT_BEARER env), and ../.tenant-bearer not found".to_string(),
        ),
    }
}

// ---------------------------------------------------------------------------
// Requests
// ---------------------------------------------------------------------------

/// A POST to the messaging service.
pub open spec fn post(
    cfg: CfgView,
    url: Seq<char>,
    subject: Option<Seq<char>>,
    content_type: Seq<char>,
    body: Seq<u8>,
) -> crate::web::RequestView {
    crate::web::RequestView {
        method: Method::Post,
        url,
        authorization: Some(crate::web::bearer_header(cfg.bearer)),
        subject,
        content_type: Some(content_type),
        body,
    }
}

fn make_post(
    cfg: &Cfg,
    url: String,
    subject: Option<String>,
    content_type: &str,
    body: Vec<u8>,
) -> (r: Request)
    ensures
        r@ == post(cfg@, url@, crate::web::opt_text(subject), content_type@, body@),
{
    Request {
        method: Method::Post,
        url,
        authorization: Some(bearer_value(cfg.bearer.as_str())),
        subject,
        content_type: Some(content_type.to_string()),
        body,
    }
}

/// A request to the messaging service without a body.
pub open spec fn bare(cfg: CfgView, method: Method, url: Seq<char>) -> crate::web::RequestView {
    crate::web::RequestView {
        method,
        url,
        authorization: Some(crate::web::bearer_header(cfg.bearer)),
        subject: None,
        content_type: None,
        body: Seq::empty(),
    }
}

fn make_bare(cfg: &Cfg, method: Method, url: String) -> (r: Request)
    ensures
        r@ == bare(cfg@, method, url@),
{
    Request {
        method,
        url,
        authorization: Some(bearer_value(cfg.bearer.as_str())),
        subject: None,
        content_type: None,
        body: Vec::new(),
    }
}

/// The URL under which a topic takes messages.
pub open spec fn publish_url(base: Seq<char>, topic: Seq<char>) -> Seq<char> {
    base + "/topics/"@ + topic + "/publish"@
}

/// The URL under which a topic takes messages.
pub fn url_of_topic(base: &str, topic: &str) -> (r: String)
    ensures
        r@ == publish_url(base@, topic@),
{
    base.to_string().concat("/topics/").concat(topic).concat("/publish")
}

/// Creates a queue or a topic; `path` is `/queues` or `/topics`.
pub open spec fn create_request(
    cfg: CfgView,
    path: Seq<char>,
    name: Seq<char>,
) -> crate::web::RequestView {
    post(
        cfg,
        cfg.base + path,
        None,
        "application/json"@,
        vstd::utf8::encode_utf8(
            crate::json::object_text(seq![("name"@, crate::outside::json_string(name))]),
        ),
    )
}

/// Creates a queue or a topic; `path` is `/queues` or `/topics`.
pub fn create_resource(cfg: &Cfg, path: &str, name: &str) -> (r: Request)
    ensures
        r@ == create_request(cfg@, path@, name@),
{
    let mut fields: Vec<Field> = Vec::new();
    fields.push(string_field("name", name));
    assert(crate::json::field_texts(fields@) =~= seq![
        ("name"@, crate::outside::json_string(name@)),
    ]);
    make_post(
        cfg,
        cfg.base.clone().concat(path),
        None,
        "application/json",
        bytes_of(object(&fields).as_str()),
    )
}

/// A queue or a topic that a worker needs.
#[derive(Debug)]
pub struct Resource {
    /// Where it is created: `/queues` or `/topics`.
    pub path: String,
    pub name: String,
}

/// Resources over their texts.
pub open spec fn resource_texts(v: Seq<Resource>) -> Seq<(Seq<char>, Seq<char>)> {
    v.map_values(|r: Resource| (r.path@, r.name@))
}

/// The queue and topics that a worker needs, in the order in which it creates them: where each is
/// created, and its name.
pub open spec fn needed_resources(cfg: CfgView) -> Seq<(Seq<char>, Seq<char>)> {
    seq![
        ("/queues"@, cfg.queue),
        ("/topics"@, "inference_responses"@),
        ("/topics"@, "worker_presence"@),
    ]
}

/// The queue and topics that a worker needs, in the order in which it creates them. Creating one that
/// is there already does no harm.
pub fn ensure_resources(cfg: &Cfg) -> (r: Vec<Resource>)
    ensures
        resource_texts(r@) == needed_resources(cfg@),
{
    let mut r: Vec<Resource> = Vec::new();
    r.push(Resource { path: "/queues".to_string(), name: cfg.queue.clone() });
    r.push(Resource { path: "/topics".to_string(), name: response_topic(Surface::Flat) });
    r.push(Resource { path: "/topics".to_string(), name: presence_topic() });
    assert(resource_texts(r@) =~= needed_resources(cfg@));
    r
}

/// The document of a heartbeat.
pub open spec fn heartbeat_document(cfg: CfgView, ts: u64) -> Seq<char> {
    crate::json::object_text(
        seq![
            ("worker_id"@, crate::outside::json_string(cfg.worker_id)),
            ("model"@, crate::outside::json_string(cfg.model)),
            ("region"@, crate::outside::json_string(cfg.region)),
            ("ts"@, crate::text::decimal_text(ts as nat)),
        ],
    )
}

/// Publishes a heartbeat.
pub open spec fn heartbeat_request(cfg: CfgView, ts: u64) -> crate::web::RequestView {
    post(
        cfg,
        publish_url(cfg.base, crate::names::presence_topic_name()),
        Some(crate::names::presence_subject_name(cfg.worker_id, cfg.normalized_model)),
        "application/json"@,
        vstd::utf8::encode_utf8(heartbeat_document(cfg, ts)),
    )
}

/// Publishes a heartbeat for the moment `ts`.
pub fn heartbeat_at(cfg: &Cfg, ts: u64) -> (r: Request)
    ensures
        r@ == heartbeat_request(cfg@, ts),
{
    let mut fields: Vec<Field> = Vec::new();
    fields.push(string_field("worker_id", cfg.worker_id.as_str()));
    fields.push(string_field("model", cfg.model.as_str()));
    fields.push(string_field("region", cfg.region.as_str()));
    fields.push(raw_field("ts", decimal(ts)));
    assert(crate::json::field_texts(fields@) =~= seq![
        ("worker_id"@, crate::outside::json_string(cfg@.worker_id)),
        ("model"@, crate::outside::json_string(cfg@.model)),
        ("region"@, crate::outside::json_string(cfg@.region)),
        ("ts"@, crate::text::decimal_text(ts as nat)),
    ]);
    make_post(
        cfg,
        url_of_topic(cfg.base.as_str(), presence_topic().as_str()),
        Some(presence_subject(cfg.worker_id.as_str(), cfg.normalized_model.as_str())),
        "application/json",
        bytes_of(object(&fields).as_str()),
    )
}

/// Publishes a heartbeat for the moment of the call. The moment is the clock's own, so it is not fixed
/// which it is.
pub fn publish_heartbeat(cfg: &Cfg) -> (r: Request)
    ensures
        exists|ts: u64|
            crate::clock::clock_reads(ts) && r@ == #[trigger] heartbeat_request(cfg@, ts),
{
    let ts: u64 = now_secs();
    heartbeat_at(cfg, ts)
}

/// Waits for work.
pub open spec fn receive_request(cfg: CfgView) -> crate::web::RequestView {
    bare(
        cfg,
        Method::Get,
        crate::router::queue_url(cfg.base, cfg.queue) + "/messages?wait="@
            + crate::text::decimal_text(SUBSTRATE_MAX_WAIT_SECS as nat),
    )
}

/// Waits for work.
pub fn receive(cfg: &Cfg) -> (r: Request)
    ensures
        r@ == receive_request(cfg@),
{
    let url = url_of_queue(cfg.base.as_str(), cfg.queue.as_str()).concat("/messages?wait=");
    make_bare(cfg, Method::Get, url.concat(decimal(SUBSTRATE_MAX_WAIT_SECS).as_str()))
}

/// Acknowledges a message of the worker's queue.
pub open spec fn ack_request(cfg: CfgView, token: Seq<char>) -> crate::web::RequestView {
    bare(
        cfg,
        Method::Delete,
        crate::router::queue_url(cfg.base, cfg.queue) + "/messages/"@ + token,
    )
}

/// Acknowledges a message of the worker's queue.
pub fn ack(cfg: &Cfg, token: &str) -> (r: Request)
    ensures
        r@ == ack_request(cfg@, token@),
{
    let url = url_of_queue(cfg.base.as_str(), cfg.queue.as_str()).concat("/messages/");
    make_bare(cfg, Method::Delete, url.concat(token))
}

/// Sends bytes to a queue.
pub open spec fn send_request(cfg: CfgView, queue: Seq<char>, body: Seq<u8>) -> crate::web::RequestView {
    post(
        cfg,
        crate::router::queue_url(cfg.base, queue) + "/messages"@,
        None,
        "application/octet-stream"@,
        body,
    )
}

/// Sends bytes to a queue.
pub fn send_to_queue(cfg: &Cfg, queue: &str, body: &[u8]) -> (r: Request)
    ensures
        r@ == send_request(cfg@, queue@, body@),
{
    let mut bytes: Vec<u8> = Vec::new();
    bytes.extend_from_slice(body);
    assert(bytes@ =~= body@);
    make_post(
        cfg,
        url_of_queue(cfg.base.as_str(), queue).concat("/messages"),
        None,
        "application/octet-stream",
        bytes,
    )
}

/// Publishes a message about a request.
pub open spec fn response_request(
    cfg: CfgView,
    corr_id: Seq<char>,
    leaf: Seq<char>,
    body: Seq<char>,
) -> crate::web::RequestView {
    post(
        cfg,
        publish_url(cfg.base, crate::names::response_topic_name(Surface::Flat)),
        Some(crate::names::response_subject_name(corr_id, leaf)),
        "application/json"@,
        vstd::utf8::encode_utf8(body),
    )
}

/// Publishes a message about a request.
pub fn publish_to_responses(cfg: &Cfg, corr_id: &str, leaf: &str, body: &str) -> (r: Request)
    ensures
        r@ == response_request(cfg@, corr_id@, leaf@, body@),
{
    make_post(
        cfg,
        url_of_topic(cfg.base.as_str(), response_topic(Surface::Flat).as_str()),
        Some(response_subject(corr_id, leaf)),
        "application/json",
        bytes_of(body),
    )
}

/// Publishes one token.
pub open spec fn token_request(cfg: CfgView, corr_id: Seq<char>, token: Seq<char>) -> crate::web::RequestView {
    response_request(
        cfg,
        corr_id,
        "token"@,
        crate::json::object_text(seq![("token"@, crate::outside::json_string(token))]),
    )
}

/// Publishes one token.
pub fn publish_token(cfg: &Cfg, corr_id: &str, token: &str) -> (r: Request)
    ensures
        r@ == token_request(cfg@, corr_id@, token@),
{
    let mut fields: Vec<Field> = Vec::new();
    fields.push(string_field("token", token));
    assert(crate::json::field_texts(fields@) =~= seq![
        ("token"@, crate::outside::json_string(token@)),
    ]);
    publish_to_responses(cfg, corr_id, "token", object(&fields).as_str())
}

/// Publishes that a request is done.
pub open spec fn done_request(cfg: CfgView, corr_id: Seq<char>, tokens: u32) -> crate::web::RequestView {
    response_request(
        cfg,
        corr_id,
        "done"@,
        crate::json::object_text(seq![("tokens"@, crate::text::decimal_text(tokens as nat))]),
    )
}

/// Publishes that a request is done.
pub fn publish_done(cfg: &Cfg, corr_id: &str, tokens: u32) -> (r: Request)
    ensures
        r@ == done_request(cfg@, corr_id@, tokens),
{
    let mut fields: Vec<Field> = Vec::new();
    fields.push(raw_field("tokens", decimal(tokens as u64)));
    assert(crate::json::field_texts(fields@) =~= seq![
        ("tokens"@, crate::text::decimal_text(tokens as nat)),
    ]);
    publish_to_responses(cfg, corr_id, "done", object(&fields).as_str())
}

/// Publishes that a request has failed.
pub open spec fn error_request(cfg: CfgView, corr_id: Seq<char>, error: Seq<char>) -> crate::web::RequestView {
    response_request(
        cfg,
        corr_id,
        "error"@,
        crate::json::object_text(seq![("error"@, crate::outside::json_string(error))]),
    )
}

/// Publishes that a request has failed.
pub fn publish_error(cfg: &Cfg, corr_id: &str, error: &str) -> (r: Request)
    ensures
        r@ == error_request(cfg@, corr_id@, error@),
{
    let mut fields: Vec<Field> = Vec::new();
    fields.push(string_field("error", error));
    assert(crate::json::field_texts(fields@) =~= seq![
        ("error"@, crate::outside::json_string(error@)),
    ]);
    publish_to_responses(cfg, corr_id, "error", object(&fields).as_str())
}

/// The document that holds the whole output of a model.
pub open spec fn final_document(
    corr_id: Seq<char>,
    model: Seq<char>,
    response: Seq<char>,
    tokens: u32,
) -> Seq<char> {
    crate::json::object_text(
        seq![
            ("corr_id"@, crate::outside::json_string(corr_id)),
            ("model"@, crate::outside::json_string(model)),
            ("response"@, crate::outside::json_string(response)),
            ("tokens"@, crate::text::decimal_text(tokens as nat)),
        ],
    )
}

/// The document that holds the whole output of a model, as bytes.
pub open spec fn final_bytes(
    corr_id: Seq<char>,
    model: Seq<char>,
    response: Seq<char>,
    tokens: u32,
) -> Seq<u8> {
    vstd::utf8::encode_utf8(final_document(corr_id, model, response, tokens))
}

/// The document that holds the whole output of a model.
pub fn final_response(corr_id: &str, model: &str, response: &str, tokens: u32) -> (r: String)
    ensures
        r@ == final_document(corr_id@, model@, response@, tokens),
{
    let mut fields: Vec<Field> = Vec::new();
    fields.push(string_field("corr_id", corr_id));
    fields.push(string_field("model", model));
    fields.push(string_field("response", response));
    fields.push(raw_field("tokens", decimal(tokens as u64)));
    assert(crate::json::field_texts(fields@) =~= seq![
        ("corr_id"@, crate::outside::json_string(corr_id@)),
        ("model"@, crate::outside::json_string(model@)),
        ("response"@, crate::outside::json_string(response@)),
        ("tokens"@, crate::text::decimal_text(tokens as nat)),
    ]);
    object(&fields)
}

/// The document that says why there is no output.
pub open spec fn error_document(corr_id: Seq<char>, model: Seq<char>, error: Seq<char>) -> Seq<char> {
    crate::json::object_text(
        seq![
            ("corr_id"@, crate::outside::json_string(corr_id)),
            ("model"@, crate::outside::json_string(model)),
            ("error"@, crate::outside::json_string(error)),
        ],
    )
}

/// The document that says why there is no output, as bytes.
pub open spec fn error_bytes(corr_id: Seq<char>, model: Seq<char>, error: Seq<char>) -> Seq<u8> {
    vstd::utf8::encode_utf8(error_document(corr_id, model, error))
}

/// The document that says why there is no output.
pub fn error_response(corr_id: &str, model: &str, error: &str) -> (r: String)
    ensures
        r@ == error_document(corr_id@, model@, error@),
{
    let mut fields: Vec<Field> = Vec::new();
    fields.push(string_field("corr_id", corr_id));
    fields.push(string_field("model", model));
    fields.push(string_field("error", error));
    assert(crate::json::field_texts(fields@) =~= seq![
        ("corr_id"@, crate::outside::json_string(corr_id@)),
        ("model"@, crate::outside::json_string(model@)),
        ("error"@, crate::outside::json_string(error@)),
    ]);
    object(&fields)
}

/// Asks the model runtime to generate, streaming its output.
pub open spec fn generate_request(cfg: CfgView, prompt: Seq<char>) -> crate::web::RequestView {
    crate::web::RequestView {
        method: Method::Post,
        url: cfg.ollama_base + "/api/generate"@,
        authorization: None,
        subject: None,
        content_type: Some("application/json"@),
        body: vstd::utf8::encode_utf8(
            crate::json::object_text(
                seq![
                    ("model"@, crate::outside::json_string(cfg.model)),
                    ("prompt"@, crate::outside::json_string(prompt)),
                    ("stream"@, "true"@),
                ],
            ),
        ),
    }
}

/// Asks the model runtime to generate, streaming its output.
pub fn generate(cfg: &Cfg, prompt: &str) -> (r: Request)
    ensures
        r@ == generate_request(cfg@, prompt@),
{
    let mut fields: Vec<Field> = Vec::new();
    fields.push(string_field("model", cfg.model.as_str()));
    fields.push(string_field("prompt", prompt));
    fields.push(raw_field("stream", "true".to_string()));
    assert(crate::json::field_texts(fields@) =~= seq![
        ("model"@, crate::outside::json_string(cfg@.model)),
        ("prompt"@, crate::outside::json_string(prompt@)),
        ("stream"@, "true"@),
    ]);
    Request {
        method: Method::Post,
        url: cfg.ollama_base.clone().concat("/api/generate"),
        authorization: None,
        subject: None,
        content_type: Some("application/json".to_string()),
        body: bytes_of(object(&fields).as_str()),
    }
}

// ---------------------------------------------------------------------------
// Answers
// ---------------------------------------------------------------------------

/// What an answer means to the worker: nothing where it reports success, else a complaint that names
/// what was refused; the status is followed by its reason phrase.
pub open spec fn verdict_with(
    what: Seq<char>,
    status: u16,
    phrase: Option<Seq<char>>,
    detail: Seq<char>,
) -> Option<Seq<char>> {
    if crate::web::success(status) {
        None
    } else {
        Some(what + crate::web::status_with(status, phrase) + ": "@ + detail)
    }
}

/// What an answer means to the worker, with a given reason phrase.
pub fn judge_with(what: &str, status: u16, phrase: Option<String>, detail: &str) -> (r: Option<
    String,
>)
    ensures
        crate::web::opt_text(r) == verdict_with(
            what@,
            status,
            crate::web::opt_text(phrase),
            detail@,
        ),
{
    if is_success(status) {
        None
    } else {
        let status = status_with_phrase(status, phrase);
        Some(what.to_string().concat(status.as_str()).concat(": ").concat(detail))
    }
}

/// What an answer means to the worker, with the canonical reason phrase.
pub open spec fn verdict(what: Seq<char>, status: u16, detail: Seq<char>) -> Option<Seq<char>> {
    verdict_with(what, status, crate::outside::canonical_reason(status), detail)
}

/// What an answer means to the worker.
pub fn judge(what: &str, status: u16, detail: &str) -> (r: Option<String>)
    ensures
        crate::web::opt_text(r) == verdict(what@, status, detail@),
{
    judge_with(what, status, reason_phrase(status), detail)
}

/// What the answer to a heartbeat means.
pub fn heartbeat_verdict(status: u16, detail: &str) -> (r: Option<String>)
    ensures
        crate::web::opt_text(r) == verdict("heartbeat "@, status, detail@),
{
    judge("heartbeat ", status, detail)
}

/// What is refused where a resource cannot be created.
pub open spec fn create_what(path: Seq<char>, name: Seq<char>) -> Seq<char> {
    "create "@ + path + " "@ + name + ": "@
}

/// What the answer to the creation of a resource means.
pub fn create_verdict(path: &str, name: &str, status: u16, detail: &str) -> (r: Option<String>)
    ensures
        crate::web::opt_text(r) == verdict(create_what(path@, name@), status, detail@),
{
    let what = "create ".to_string().concat(path).concat(" ").concat(name).concat(": ");
    judge(what.as_str(), status, detail)
}

/// How a receive came out.
#[derive(Debug)]
pub enum Received {
    /// The request could not be sent or was not answered.
    Failed { error: String },
    /// The service answered; the answer is given where it could be read.
    Answered { status: u16, body: Vec<u8>, answer: Option<ReceiveResponse> },
}

/// What the worker does after a receive.
#[derive(Debug)]
pub enum Turn {
    /// Handle these messages, each on its own, and receive again.
    Dispatch { messages: Vec<ReceivedMessage> },
    /// Complain, pause, and receive again.
    BackOff { error: String, secs: u64 },
}

/// How long the worker pauses after a receive that failed.
pub const BACK_OFF_SECS: u64 = 2;

/// What the worker does after a receive, over mathematical values.
pub enum TurnView {
    Dispatch { messages: Seq<ReceivedMessage> },
    BackOff { error: Seq<char>, secs: u64 },
}

impl View for Turn {
    type V = TurnView;

    open spec fn view(&self) -> TurnView {
        match self {
            Turn::Dispatch { messages } => TurnView::Dispatch { messages: messages@ },
            Turn::BackOff { error, secs } => TurnView::BackOff { error: error@, secs: *secs },
        }
    }
}

/// What comes after a receive, with the body of the answer as text: its messages are handled, or the
/// worker pauses after a complaint.
pub open spec fn turn_with(received: Received, detail: Seq<char>) -> TurnView {
    match received {
        Received::Failed { error } => TurnView::BackOff { error: error@, secs: BACK_OFF_SECS },
        Received::Answered { status, body, answer } => match (
            verdict("receive "@, status, detail),
            answer,
        ) {
            (Some(error), _) => TurnView::BackOff { error, secs: BACK_OFF_SECS },
            (None, None) => TurnView::BackOff {
                error: "queue receive shape"@,
                secs: BACK_OFF_SECS,
            },
            (None, Some(a)) => TurnView::Dispatch { messages: crate::queue::counted_messages(a) },
        },
    }
}

/// What comes after a receive.
pub open spec fn turn_of(received: Received) -> TurnView {
    turn_with(
        received,
        match received {
            Received::Failed { .. } => Seq::empty(),
            Received::Answered { body, .. } => crate::outside::utf8_lossy(body@),
        },
    )
}

/// Decides what comes after a receive; `detail` is the body of the answer as text.
pub fn after_receive(received: Received, detail: &str) -> (r: Turn)
    ensures
        r@ == turn_with(received, detail@),
{
    match received {
        Received::Failed { error } => Turn::BackOff { error, secs: BACK_OFF_SECS },
        Received::Answered { status, body: _, answer } => {
            match judge("receive ", status, detail) {
                Some(error) => Turn::BackOff { error, secs: BACK_OFF_SECS },
                None => match answer {
                    None => Turn::BackOff {
                        error: "queue receive shape".to_string(),
                        secs: BACK_OFF_SECS,
                    },
                    Some(a) => Turn::Dispatch { messages: receive_messages(a) },
                },
            }
        },
    }
}

/// Decides what the worker does after a receive.
pub fn consume(received: Received) -> (r: Turn)
    ensures
        r@ == turn_of(received),
        match received {
            Received::Answered { status, body, answer } => vstd::utf8::valid_utf8(body@) ==> r@
                == turn_with(received, vstd::utf8::decode_utf8(body@)),
            Received::Failed { .. } => true,
        },
{
    let detail = match &received {
        Received::Failed { .. } => String::new(),
        Received::Answered { body, .. } => lossy_text(body.as_slice()),
    };
    after_receive(received, detail.as_str())
}

} // verus!
