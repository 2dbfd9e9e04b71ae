//! The router: its configuration, which endpoint a request is for, and every request that it makes
//! of the messaging service.
use crate::ids::fresh_uuid;
use crate::json::{object, optional_field, raw_field, string_field, Field};
use crate::names::{response_filter, response_topic, Surface};
use crate::text::{bytes_of, decimal, parse_u64, path_only, same};
use crate::web::{bearer_value, text, Method, Request, Response};
use vstd::prelude::*;
use vstd::string::*;

verus! {

// ---------------------------------------------------------------------------
// Configuration
// ---------------------------------------------------------------------------

/// The configuration of the router.
#[derive(Debug)]
pub struct Cfg {
    /// The tenant's bearer token.
    pub bearer: String,
    /// The base URL of the messaging service.
    pub base: String,
    /// How old the last heartbeat of a worker may be.
    pub presence_max_age_secs: u64,
    /// How long the router waits for the reply to a request.
    pub reqres_poll_secs: u64,
    /// The HTTP surface that the messaging service serves.
    pub surface: Surface,
    /// Whether the router itself acknowledges the reply and deletes the response queue. Where it does
    /// not, orphaned queues are reaped from outside.
    pub cleanup: bool,
}

/// The configuration of the router over mathematical values.
pub struct CfgView {
    pub bearer: Seq<char>,
    pub base: Seq<char>,
    pub presence_max_age_secs: u64,
    pub reqres_poll_secs: u64,
    pub surface: Surface,
    pub cleanup: bool,
}

impl View for Cfg {
    type V = CfgView;

    open spec fn view(&self) -> CfgView {
        CfgView {
            bearer: self.bearer@,
            base: self.base@,
            presence_max_age_secs: self.presence_max_age_secs,
            reqres_poll_secs: self.reqres_poll_secs,
            surface: self.surface,
            cleanup: self.cleanup,
        }
    }
}

/// A variable of the environment: its text, or why it could not be read.
pub type Variable = Result<String, String>;

/// A variable over mathematical values.
pub type VariableView = Result<Seq<char>, Seq<char>>;

/// A variable over mathematical values.
pub open spec fn variable_view(v: Variable) -> VariableView {
    match v {
        Ok(s) => Ok(s@),
        Err(e) => Err(e@),
    }
}

/// A variable that holds a number: where it is none, `complaint` is the error.
pub open spec fn number_variable(v: VariableView, complaint: Seq<char>) -> Result<u64, Seq<char>> {
    match v {
        Err(e) => Err(e),
        Ok(s) => match crate::text::parsed_u64(s) {
            Some(n) => Ok(n),
            None => Err(complaint),
        },
    }
}

fn read_number(v: Variable, complaint: &str) -> (r: Result<u64, String>)
    ensures
        match r {
            Ok(n) => number_variable(variable_view(v), complaint@) == Ok::<u64, Seq<char>>(n),
            Err(e) => number_variable(variable_view(v), complaint@) == Err::<u64, Seq<char>>(e@),
        },
{
    match v {
        Err(e) => Err(e),
        Ok(s) => match parse_u64(s.as_str()) {
            Some(n) => Ok(n),
            None => Err(complaint.to_string()),
        },
    }
}

/// The configuration that the variables give, or the complaint about the first of them, in the
/// order of the parameters, that cannot be used.
pub open spec fn loaded_cfg(
    bearer: Option<Seq<char>>,
    base: VariableView,
    max_age: VariableView,
    poll: VariableView,
    surface: Surface,
    cleanup: bool,
) -> Result<CfgView, Seq<char>> {
    match (
        bearer,
        base,
        number_variable(max_age, "presence_max_age_secs must be a number"@),
        number_variable(poll, "reqres_poll_secs must be a number"@),
    ) {
        (None, _, _, _) => Err("variable tenant_bearer not set"@),
        (_, Err(e), _, _) => Err(e),
        (_, _, Err(e), _) => Err(e),
        (_, _, _, Err(e)) => Err(e),
        (Some(bearer), Ok(base), Ok(presence_max_age_secs), Ok(reqres_poll_secs)) => Ok(
            CfgView {
                bearer,
                base,
                presence_max_age_secs,
                reqres_poll_secs,
                surface,
                cleanup,
            },
        ),
    }
}

impl Cfg {
    /// Takes the configuration from the variables `tenant_bearer`, `substrate_base`,
    /// `presence_max_age_secs` and `reqres_poll_secs`.
    pub fn load(
        bearer: Option<String>,
        base: Variable,
        max_age: Variable,
        poll: Variable,
        surface: Surface,
        cleanup: bool,
    ) -> (r: Result<Cfg, String>)
        ensures
            match r {
                Ok(cfg) => Ok::<CfgView, Seq<char>>(cfg@),
                Err(e) => Err(e@),
            } == loaded_cfg(
                crate::web::opt_text(bearer),
                variable_view(base),
                variable_view(max_age),
                variable_view(poll),
                surface,
                cleanup,
            ),
    {
        let bearer = match bearer {
            Some(b) => b,
            None => return Err("variable tenant_bearer not set".to_string()),
        };
        let base = match base {
            Ok(b) => b,
            Err(e) => return Err(e),
        };
        let presence_max_age_secs = match read_number(
            max_age,
            "presence_max_age_secs must be a number",
        ) {
            Ok(n) => n,
            Err(e) => return Err(e),
        };
        let reqres_poll_secs = match read_number(poll, "reqres_poll_secs must be a number") {
            Ok(n) => n,
            Err(e) => return Err(e),
        };
        Ok(
            Cfg { bearer, base, presence_max_age_secs, reqres_poll_secs, surface, cleanup },
        )
    }
}

// ---------------------------------------------------------------------------
// Endpoints
// ---------------------------------------------------------------------------

/// What a request to the router is for.
#[derive(Clone, Copy, Debug, PartialEq, Eq, Structural)]
pub enum Route {
    /// The health check.
    Healthz,
    /// A request for inference.
    Inference,
    /// A heartbeat that the messaging service hands on.
    Presence,
    /// Nothing that the router serves.
    NotFound,
}

/// What a method and a path are for.
pub open spec fn route_of(method: Method, path: Seq<char>) -> Route {
    if method == Method::Get && path == "/healthz"@ {
        Route::Healthz
    } else if method == Method::Post && path == "/v1/inference"@ {
        Route::Inference
    } else if method == Method::Post && path == "/v1/internal/presence"@ {
        Route::Presence
    } else {
        Route::NotFound
    }
}

/// The path of a request: the query is cut off, and a request without a path is for `/`.
pub open spec fn request_path(path_and_query: Option<Seq<char>>) -> Seq<char> {
    match path_and_query {
        Some(p) => crate::text::before_question_mark(p),
        None => "/"@,
    }
}

/// Finds what a request is for.
pub fn handle(method: Method, path_and_query: Option<&str>) -> (r: Route)
    ensures
        r == route_of(
            method,
            request_path(crate::web::opt_str(path_and_query)),
        ),
{
    let path = match path_and_query {
        Some(p) => path_only(p),
        None => "/".to_string(),
    };
    if method == Method::Get && same(path.as_str(), "/healthz") {
        Route::Healthz
    } else if method == Method::Post && same(path.as_str(), "/v1/inference") {
        Route::Inference
    } else if method == Method::Post && same(path.as_str(), "/v1/internal/presence") {
        Route::Presence
    } else {
        Route::NotFound
    }
}

/// The reply of a healthy router.
pub fn ok_reply() -> (r: Response)
    ensures
        r@ == crate::web::text_response(200, "ok\n"@),
{
    text(200, "ok\n")
}

/// The reply to a request for nothing that the router serves.
pub fn not_found_reply() -> (r: Response)
    ensures
        r@ == crate::web::text_response(404, "not found\n"@),
{
    text(404, "not found\n")
}

/// The reply to a request for inference that is not the JSON it should be.
pub fn bad_json_reply(error: &str) -> (r: Response)
    ensures
        r@ == crate::web::text_response(400, "bad json: "@ + error@ + "\n"@),
{
    text(400, "bad json: ".to_string().concat(error).concat("\n").as_str())
}

/// The reply while the presence store cannot be used.
pub fn store_unavailable_reply() -> (r: Response)
    ensures
        r@ == crate::web::text_response(500, "presence-store-unavailable\n"@),
{
    text(500, "presence-store-unavailable\n")
}

/// The reply to a heartbeat, once the store was asked to keep it.
pub fn presence_reply(stored: bool) -> (r: Response)
    ensures
        r@ == if stored {
            crate::web::text_response(200, "ok\n"@)
        } else {
            crate::web::text_response(500, "presence-store-unavailable\n"@)
        },
{
    if stored {
        ok_reply()
    } else {
        store_unavailable_reply()
    }
}

// ---------------------------------------------------------------------------
// Correlation ids
// ---------------------------------------------------------------------------

/// The correlation id made from a UUID.
pub open spec fn corr_id_text(uuid: Seq<char>) -> Seq<char> {
    "corr_"@ + uuid
}

/// The correlation id made from a UUID.
pub fn corr_id_from(uuid: &str) -> (r: String)
    ensures
        r@ == corr_id_text(uuid@),
{
    "corr_".to_string().concat(uuid)
}

/// Whether a text is a correlation id: the fixed head and a random UUID without hyphens.
pub open spec fn is_corr_id(s: Seq<char>) -> bool {
    exists|uuid: Seq<char>|
        #![trigger corr_id_text(uuid)]
        crate::outside::is_simple_uuid(uuid) && s == corr_id_text(uuid)
}

/// Whether a text is the correlation id of a UUID that was drawn at random.
pub open spec fn is_drawn_corr_id(s: Seq<char>) -> bool {
    exists|uuid: String| #[trigger] crate::ids::drawn(uuid) && s == corr_id_text(uuid@)
}

/// A fresh correlation id, from a UUID drawn at random.
pub fn new_corr_id() -> (r: String)
    ensures
        is_corr_id(r@),
        is_drawn_corr_id(r@),
{
    let uuid = fresh_uuid();
    corr_id_from(uuid.as_str())
}

// ---------------------------------------------------------------------------
// Requests to the messaging service
// ---------------------------------------------------------------------------

/// A POST of a JSON document to a path of the service.
pub open spec fn post_json_request(cfg: CfgView, path: Seq<char>, body: Seq<char>) -> crate::web::RequestView {
    crate::web::RequestView {
        method: Method::Post,
        url: cfg.base + path,
        authorization: Some(crate::web::bearer_header(cfg.bearer)),
        subject: None,
        content_type: Some("application/json"@),
        body: vstd::utf8::encode_utf8(body),
    }
}

/// A POST of a JSON document to a path of the service.
pub fn post_json(cfg: &Cfg, path: &str, body: &str) -> (r: Request)
    ensures
        r@ == post_json_request(cfg@, path@, body@),
{
    Request {
        method: Method::Post,
        url: cfg.base.clone().concat(path),
        authorization: Some(bearer_value(cfg.bearer.as_str())),
        subject: None,
        content_type: Some("application/json".to_string()),
        body: bytes_of(body),
    }
}

/// A request to the service without a body.
pub open spec fn bare_request(cfg: CfgView, method: Method, url: Seq<char>) -> crate::web::RequestView {
    crate::web::RequestView {
        method,
        url,
        authorization: Some(crate::web::bearer_header(cfg.bearer)),
        subject: None,
        content_type: None,
        body: Seq::empty(),
    }
}

fn bare(cfg: &Cfg, method: Method, url: String) -> (r: Request)
    ensures
        r@ == bare_request(cfg@, method, url@),
{
    Request {
        method,
        url,
        authorization: Some(bearer_value(cfg.bearer.as_str())),
        subject: None,
        content_type: None,
        body: Vec::new(),
    }
}

/// The document that describes a subscription to the messages about one request.
pub open spec fn subscription_document(surface: Surface, corr_id: Seq<char>) -> Seq<char> {
    crate::json::object_text(
        seq![
            ("delivery"@, "{\"type\":\"sse\"}"@),
            (
                "filter"@,
                crate::outside::json_string(crate::names::response_filter_name(corr_id)),
            ),
            (
                "topic"@,
                crate::outside::json_string(crate::names::response_topic_name(surface)),
            ),
        ],
    )
}

/// Creates the subscription over which a caller follows one request.
pub open spec fn create_subscription_request(cfg: CfgView, corr_id: Seq<char>) -> crate::web::RequestView {
    post_json_request(cfg, "/subscriptions"@, subscription_document(cfg.surface, corr_id))
}

/// Creates the subscription over which a caller follows one request.
pub fn create_subscription(cfg: &Cfg, corr_id: &str) -> (r: Request)
    ensures
        r@ == create_subscription_request(cfg@, corr_id@),
{
    let mut fields: Vec<Field> = Vec::new();
    fields.push(raw_field("delivery", "{\"type\":\"sse\"}".to_string()));
    fields.push(string_field("filter", response_filter(corr_id).as_str()));
    fields.push(string_field("topic", response_topic(cfg.surface).as_str()));
    assert(crate::json::field_texts(fields@) =~= seq![
        ("delivery"@, "{\"type\":\"sse\"}"@),
        ("filter"@, crate::outside::json_string(crate::names::response_filter_name(corr_id@))),
        (
            "topic"@,
            crate::outside::json_string(crate::names::response_topic_name(cfg@.surface)),
        ),
    ]);
    post_json(cfg, "/subscriptions", object(&fields).as_str())
}

/// Creates a queue.
pub open spec fn create_queue_request(cfg: CfgView, name: Seq<char>) -> crate::web::RequestView {
    post_json_request(
        cfg,
        "/queues"@,
        crate::json::object_text(seq![("name"@, crate::outside::json_string(name))]),
    )
}

/// Creates a queue.
pub fn create_queue(cfg: &Cfg, name: &str) -> (r: Request)
    ensures
        r@ == create_queue_request(cfg@, name@),
{
    let mut fields: Vec<Field> = Vec::new();
    fields.push(string_field("name", name));
    assert(crate::json::field_texts(fields@) =~= seq![
        ("name"@, crate::outside::json_string(name@)),
    ]);
    post_json(cfg, "/queues", object(&fields).as_str())
}

/// The URL of a queue.
pub open spec fn queue_url(base: Seq<char>, name: Seq<char>) -> Seq<char> {
    base + "/queues/"@ + name
}

/// The URL of a queue.
pub fn url_of_queue(base: &str, name: &str) -> (r: String)
    ensures
        r@ == queue_url(base@, name@),
{
    base.to_string().concat("/queues/").concat(name)
}

/// Deletes a queue.
pub open spec fn delete_queue_request(cfg: CfgView, name: Seq<char>) -> crate::web::RequestView {
    bare_request(cfg, Method::Delete, queue_url(cfg.base, name))
}

/// Deletes a queue.
pub fn delete_queue(cfg: &Cfg, name: &str) -> (r: Request)
    ensures
        r@ == delete_queue_request(cfg@, name@),
{
    bare(cfg, Method::Delete, url_of_queue(cfg.base.as_str(), name))
}

/// The document that asks a worker for inference.
pub open spec fn work_document(
    corr_id: Seq<char>,
    model: Seq<char>,
    prompt: Seq<char>,
    response_queue: Option<Seq<char>>,
) -> Seq<char> {
    crate::json::object_text(
        seq![
            ("corr_id"@, crate::outside::json_string(corr_id)),
            ("model"@, crate::outside::json_string(model)),
            ("prompt"@, crate::outside::json_string(prompt)),
            ("response_queue"@, crate::json::optional_string(response_queue)),
        ],
    )
}

/// Sends a document to a queue.
pub open spec fn send_request(cfg: CfgView, queue: Seq<char>, body: Seq<char>) -> crate::web::RequestView {
    crate::web::RequestView {
        method: Method::Post,
        url: queue_url(cfg.base, queue) + match cfg.surface {
            Surface::Dotted => "/send"@,
            Surface::Flat => "/messages"@,
        },
        authorization: Some(crate::web::bearer_header(cfg.bearer)),
        subject: None,
        content_type: Some(
            match cfg.surface {
                Surface::Dotted => "application/json"@,
                Surface::Flat => "application/octet-stream"@,
            },
        ),
        body: vstd::utf8::encode_utf8(body),
    }
}

fn send(cfg: &Cfg, queue: &str, body: &str) -> (r: Request)
    ensures
        r@ == send_request(cfg@, queue@, body@),
{
    let url = url_of_queue(cfg.base.as_str(), queue);
    let (url, content_type) = match cfg.surface {
        Surface::Dotted => (url.concat("/send"), "application/json".to_string()),
        Surface::Flat => (url.concat("/messages"), "application/octet-stream".to_string()),
    };
    Request {
        method: Method::Post,
        url,
        authorization: Some(bearer_value(cfg.bearer.as_str())),
        subject: None,
        content_type: Some(content_type),
        body: bytes_of(body),
    }
}

fn work_item(corr_id: &str, model: &str, prompt: &str, response_queue: Option<&str>) -> (r: String)
    ensures
        r@ == work_document(corr_id@, model@, prompt@, crate::web::opt_str(response_queue)),
{
    let mut fields: Vec<Field> = Vec::new();
    fields.push(string_field("corr_id", corr_id));
    fields.push(string_field("model", model));
    fields.push(string_field("prompt", prompt));
    fields.push(optional_field("response_queue", response_queue));
    assert(crate::json::field_texts(fields@) =~= seq![
        ("corr_id"@, crate::outside::json_string(corr_id@)),
        ("model"@, crate::outside::json_string(model@)),
        ("prompt"@, crate::outside::json_string(prompt@)),
        ("response_queue"@, crate::json::optional_string(crate::web::opt_str(response_queue))),
    ]);
    object(&fields)
}

/// Asks the workers behind a queue for inference.
pub fn publish_request(
    cfg: &Cfg,
    queue: &str,
    corr_id: &str,
    model: &str,
    prompt: &str,
    response_queue: Option<&str>,
) -> (r: Request)
    ensures
        r@ == send_request(
            cfg@,
            queue@,
            work_document(corr_id@, model@, prompt@, crate::web::opt_str(response_queue)),
        ),
{
    send(cfg, queue, work_item(corr_id, model, prompt, response_queue).as_str())
}

/// Waits for a message on a queue.
pub open spec fn receive_request(cfg: CfgView, queue: Seq<char>, wait_secs: u64) -> crate::web::RequestView {
    bare_request(
        cfg,
        Method::Get,
        queue_url(cfg.base, queue) + match cfg.surface {
            Surface::Dotted => "/receive?wait="@,
            Surface::Flat => "/messages?wait="@,
        } + crate::text::decimal_text(wait_secs as nat),
    )
}

/// Waits for a message on a queue.
pub fn receive_one(cfg: &Cfg, queue: &str, wait_secs: u64) -> (r: Request)
    ensures
        r@ == receive_request(cfg@, queue@, wait_secs),
{
    let url = url_of_queue(cfg.base.as_str(), queue);
    let url = match cfg.surface {
        Surface::Dotted => url.concat("/receive?wait="),
        Surface::Flat => url.concat("/messages?wait="),
    };
    bare(cfg, Method::Get, url.concat(decimal(wait_secs).as_str()))
}

/// Acknowledges a message of a queue.
pub open spec fn ack_request(cfg: CfgView, queue: Seq<char>, token: Seq<char>) -> crate::web::RequestView {
    match cfg.surface {
        Surface::Dotted => bare_request(
            cfg,
            Method::Post,
            queue_url(cfg.base, queue) + "/ack/"@ + token,
        ),
        Surface::Flat => bare_request(
            cfg,
            Method::Delete,
            queue_url(cfg.base, queue) + "/messages/"@ + token,
        ),
    }
}

/// Acknowledges a message of a queue.
pub fn ack(cfg: &Cfg, queue: &str, token: &str) -> (r: Request)
    ensures
        r@ == ack_request(cfg@, queue@, token@),
{
    let url = url_of_queue(cfg.base.as_str(), queue);
    match cfg.surface {
        Surface::Dotted => bare(cfg, Method::Post, url.concat("/ack/").concat(token)),
        Surface::Flat => bare(cfg, Method::Delete, url.concat("/messages/").concat(token)),
    }
}

/// Where a caller follows a subscription.
pub open spec fn stream_url(cfg: CfgView, sub_id: Seq<char>) -> Seq<char> {
    cfg.base + "/subscriptions/"@ + sub_id + "/stream?bearer="@ + cfg.bearer
}

/// Where a caller follows a subscription.
pub fn url_of_stream(cfg: &Cfg, sub_id: &str) -> (r: String)
    ensures
        r@ == stream_url(cfg@, sub_id@),
{
    cfg.base.clone().concat("/subscriptions/").concat(sub_id).concat("/stream?bearer=").concat(
        cfg.bearer.as_str(),
    )
}

// ---------------------------------------------------------------------------
// Complaints about answers of the messaging service
// ---------------------------------------------------------------------------

/// The complaint about a refused POST.
pub open spec fn post_error_text(url: Seq<char>, status: u16, detail: Seq<char>) -> Seq<char> {
    "POST "@ + url + " -> "@ + crate::text::decimal_text(status as nat) + ": "@ + detail
}

/// The complaint about a refused POST.
pub fn post_error(url: &str, status: u16, detail: &str) -> (r: String)
    ensures
        r@ == post_error_text(url@, status, detail@),
{
    "POST ".to_string().concat(url).concat(" -> ").concat(decimal(status as u64).as_str()).concat(
        ": ",
    ).concat(detail)
}

/// The complaint about a refused request for work.
pub open spec fn publish_error_text(queue: Seq<char>, status: u16, detail: Seq<char>) -> Seq<char> {
    "publish to "@ + queue + " returned "@ + crate::text::decimal_text(status as nat) + ": "@ + detail
}

/// The complaint about a refused request for work.
pub fn publish_error(queue: &str, status: u16, detail: &str) -> (r: String)
    ensures
        r@ == publish_error_text(queue@, status, detail@),
{
    "publish to ".to_string().concat(queue).concat(" returned ").concat(
        decimal(status as u64).as_str(),
    ).concat(": ").concat(detail)
}

/// The complaint about a refused receive.
pub open spec fn receive_error_text(queue: Seq<char>, status: u16, detail: Seq<char>) -> Seq<char> {
    "receive from "@ + queue + " returned "@ + crate::text::decimal_text(status as nat) + ": "@
        + detail
}

/// The complaint about a refused receive.
pub fn receive_error(queue: &str, status: u16, detail: &str) -> (r: String)
    ensures
        r@ == receive_error_text(queue@, status, detail@),
{
    "receive from ".to_string().concat(queue).concat(" returned ").concat(
        decimal(status as u64).as_str(),
    ).concat(": ").concat(detail)
}

} // verus!
