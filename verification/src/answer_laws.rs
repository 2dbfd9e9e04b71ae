//! Configuration, routing, replies and verdicts, said of the functions themselves.
use crate::course_laws;
use crate::exchange;
use crate::exchange::{Event, InferenceRequest};
use crate::names;
use crate::queue::{Delivery, ReceiveResponse, ReceivedMessage};
use crate::router;
use crate::web;
use crate::web::{Method, Request, Response};
use crate::worker;
use crate::worker::BearerFile;
use vstd::prelude::*;

verus! {

// ---------------------------------------------------------------------------
// Messages of the web
// ---------------------------------------------------------------------------

/// Replies say what they were given, all of it.
pub proof fn law_replies(status: u16, msg: &str, body: Vec<u8>, location: String, r: Response)
    ensures
        call_ensures(web::text, (status, msg), r) ==> course_laws::says(r, status, msg@),
        call_ensures(web::json, (body,), r) ==> course_laws::hands_on(r, body@),
        call_ensures(web::redirect, (location,), r) ==> r.status == 302 && r.location is Some
            && r.location->0@ == location@ && r.cache_control is Some && r.cache_control->0@
            == "no-store"@ && r.body@.len() == 0 && r.content_type is None,
        call_ensures(router::ok_reply, (), r) ==> course_laws::says(r, 200, "ok\n"@),
        call_ensures(router::not_found_reply, (), r) ==> course_laws::says(r, 404, "not found\n"@),
        call_ensures(router::bad_json_reply, (msg,), r) ==> course_laws::says(
            r,
            400,
            "bad json: "@ + msg@ + "\n"@,
        ),
        call_ensures(router::store_unavailable_reply, (), r) ==> course_laws::says(
            r,
            500,
            "presence-store-unavailable\n"@,
        ),
        call_ensures(router::presence_reply, (true,), r) ==> course_laws::says(r, 200, "ok\n"@),
        call_ensures(router::presence_reply, (false,), r) ==> course_laws::says(
            r,
            500,
            "presence-store-unavailable\n"@,
        ),
{
}

/// Whether headers hold one with a name and a value.
pub open spec fn has_header(headers: Seq<(String, String)>, name: Seq<char>, value: Seq<char>) -> bool {
    exists|i: int| 0 <= i < headers.len() && (#[trigger] headers[i]).0@ == name && headers[i].1@
        == value
}

proof fn lemma_has_header(headers: Seq<(String, String)>, name: Seq<char>, value: Seq<char>)
    ensures
        has_header(headers, name, value) <==> web::header_texts(headers).contains((name, value)),
{
    let texts = web::header_texts(headers);
    assert(forall|i: int|
        0 <= i < headers.len() ==> #[trigger] texts[i] == (headers[i].0@, headers[i].1@));
    if has_header(headers, name, value) {
        let i = choose|i: int|
            0 <= i < headers.len() && (#[trigger] headers[i]).0@ == name && headers[i].1@ == value;
        assert(texts[i] == (name, value));
    }
    if texts.contains((name, value)) {
        let i = choose|i: int| 0 <= i < texts.len() && texts[i] == (name, value);
        assert(headers[i].0@ == name && headers[i].1@ == value);
    }
}

/// A request is sent with exactly the headers that it has values for.
pub proof fn law_request_headers(r: &Request, headers: Vec<(String, String)>, value: Seq<char>)
    requires
        call_ensures(Request::headers, (r,), headers),
    ensures
        has_header(headers@, "authorization"@, value) <==> r.authorization is Some
            && r.authorization->0@ == value,
        has_header(headers@, "X-MQ-Subject"@, value) <==> r.subject is Some && r.subject->0@
            == value,
        has_header(headers@, "content-type"@, value) <==> r.content_type is Some
            && r.content_type->0@ == value,
        headers@.len() <= 3,
{
    reveal_strlit("authorization");
    reveal_strlit("X-MQ-Subject");
    reveal_strlit("content-type");
    assert("authorization"@.len() == 13 && "X-MQ-Subject"@.len() == 12 && "content-type"@.len()
        == 12);
    assert("X-MQ-Subject"@[0] == 'X' && "content-type"@[0] == 'c');
    let a = web::header("authorization"@, web::opt_text(r.authorization));
    let b = web::header("X-MQ-Subject"@, web::opt_text(r.subject));
    let c = web::header("content-type"@, web::opt_text(r.content_type));
    assert(web::header_texts(headers@) == a + b + c);
    assert(web::header_texts(headers@).len() == headers@.len());
    lemma_three(a, b, c, ("authorization"@, value));
    lemma_three(a, b, c, ("X-MQ-Subject"@, value));
    lemma_three(a, b, c, ("content-type"@, value));
    lemma_header("authorization"@, web::opt_text(r.authorization));
    lemma_header("X-MQ-Subject"@, web::opt_text(r.subject));
    lemma_header("content-type"@, web::opt_text(r.content_type));
    lemma_has_header(headers@, "authorization"@, value);
    lemma_has_header(headers@, "X-MQ-Subject"@, value);
    lemma_has_header(headers@, "content-type"@, value);
}

/// A response is given with exactly the headers that it has values for.
pub proof fn law_response_headers(r: &Response, headers: Vec<(String, String)>, value: Seq<char>)
    requires
        call_ensures(Response::headers, (r,), headers),
    ensures
        has_header(headers@, "content-type"@, value) <==> r.content_type is Some
            && r.content_type->0@ == value,
        has_header(headers@, "location"@, value) <==> r.location is Some && r.location->0@ == value,
        has_header(headers@, "cache-control"@, value) <==> r.cache_control is Some
            && r.cache_control->0@ == value,
        headers@.len() <= 3,
{
    reveal_strlit("content-type");
    reveal_strlit("location");
    reveal_strlit("cache-control");
    assert("content-type"@.len() == 12 && "location"@.len() == 8 && "cache-control"@.len() == 13);
    let a = web::header("content-type"@, web::opt_text(r.content_type));
    let b = web::header("location"@, web::opt_text(r.location));
    let c = web::header("cache-control"@, web::opt_text(r.cache_control));
    assert(web::header_texts(headers@) == a + b + c);
    assert(web::header_texts(headers@).len() == headers@.len());
    lemma_three(a, b, c, ("content-type"@, value));
    lemma_three(a, b, c, ("location"@, value));
    lemma_three(a, b, c, ("cache-control"@, value));
    lemma_header("content-type"@, web::opt_text(r.content_type));
    lemma_header("location"@, web::opt_text(r.location));
    lemma_header("cache-control"@, web::opt_text(r.cache_control));
    lemma_has_header(headers@, "content-type"@, value);
    lemma_has_header(headers@, "location"@, value);
    lemma_has_header(headers@, "cache-control"@, value);
}

proof fn lemma_header(name: Seq<char>, value: Option<Seq<char>>)
    ensures
        web::header(name, value).len() <= 1,
        forall|n: Seq<char>, v: Seq<char>| #[trigger]
            web::header(name, value).contains((n, v)) <==> value is Some && n == name && v
                == value->0,
{
    if value is Some {
        assert(web::header(name, value)[0] == (name, value->0));
    }
}

proof fn lemma_three(
    a: Seq<(Seq<char>, Seq<char>)>,
    b: Seq<(Seq<char>, Seq<char>)>,
    c: Seq<(Seq<char>, Seq<char>)>,
    x: (Seq<char>, Seq<char>),
)
    ensures
        (a + b + c).contains(x) <==> a.contains(x) || b.contains(x) || c.contains(x),
{
    let all = a + b + c;
    if a.contains(x) {
        let i = choose|i: int| 0 <= i < a.len() && a[i] == x;
        assert(all[i] == x);
    }
    if b.contains(x) {
        let i = choose|i: int| 0 <= i < b.len() && b[i] == x;
        assert(all[a.len() + i] == x);
    }
    if c.contains(x) {
        let i = choose|i: int| 0 <= i < c.len() && c[i] == x;
        assert(all[a.len() + b.len() + i] == x);
    }
    if all.contains(x) {
        let i = choose|i: int| 0 <= i < all.len() && all[i] == x;
        if i < a.len() {
            assert(a[i] == x);
        } else if i < a.len() + b.len() {
            assert(b[i - a.len()] == x);
        } else {
            assert(c[i - a.len() - b.len()] == x);
        }
    }
}

/// A bearer stands in its header as it is, and exactly the statuses from 200 to 299 report success.
pub proof fn law_bearer_and_success(bearer: &str, value: String, status: u16, r: bool)
    ensures
        call_ensures(web::bearer_value, (bearer,), value) ==> value@ == "Bearer "@ + bearer@,
        call_ensures(web::is_success, (status,), r) ==> (r <==> 200 <= status <= 299),
{
}

// ---------------------------------------------------------------------------
// The router
// ---------------------------------------------------------------------------

/// The router is configured with exactly what its variables hold, and is not configured where one of
/// them cannot be used; the first of those is complained about.
pub proof fn law_load(
    bearer: Option<String>,
    base: router::Variable,
    max_age: router::Variable,
    poll: router::Variable,
    surface: names::Surface,
    cleanup: bool,
    r: Result<router::Cfg, String>,
    age_text: &str,
    age: Option<u64>,
    poll_text: &str,
    secs: Option<u64>,
)
    requires
        call_ensures(router::Cfg::load, (bearer, base, max_age, poll, surface, cleanup), r),
        max_age is Ok ==> age_text@ == (max_age->Ok_0)@,
        poll is Ok ==> poll_text@ == (poll->Ok_0)@,
        call_ensures(crate::text::parse_u64, (age_text,), age),
        call_ensures(crate::text::parse_u64, (poll_text,), secs),
    ensures
        r is Ok <==> bearer is Some && base is Ok && max_age is Ok && age is Some && poll is Ok
            && secs is Some,
        r is Ok ==> {
            &&& (r->Ok_0).bearer@ == bearer->0@
            &&& (r->Ok_0).base@ == (base->Ok_0)@
            &&& (r->Ok_0).presence_max_age_secs == age->0
            &&& (r->Ok_0).reqres_poll_secs == secs->0
            &&& (r->Ok_0).surface == surface
            &&& (r->Ok_0).cleanup == cleanup
        },
        bearer is None ==> r is Err && (r->Err_0)@ == "variable tenant_bearer not set"@,
        bearer is Some && base is Err ==> r is Err && (r->Err_0)@ == (base->Err_0)@,
        bearer is Some && base is Ok && max_age is Err ==> r is Err && (r->Err_0)@
            == (max_age->Err_0)@,
        bearer is Some && base is Ok && max_age is Ok && age is None ==> r is Err && (r->Err_0)@
            == "presence_max_age_secs must be a number"@,
        bearer is Some && base is Ok && max_age is Ok && age is Some && poll is Err ==> r is Err
            && (r->Err_0)@ == (poll->Err_0)@,
        bearer is Some && base is Ok && max_age is Ok && age is Some && poll is Ok && secs is None
            ==> r is Err && (r->Err_0)@ == "reqres_poll_secs must be a number"@,
{
    if r is Ok {
        assert((r->Ok_0)@.bearer == bearer->0@);
    }
}

/// A request is for the health check, for inference or for a heartbeat exactly when its method and the
/// path before its query are those.
pub proof fn law_routes(
    method: Method,
    path_and_query: Option<&str>,
    r: router::Route,
    path: String,
)
    requires
        call_ensures(router::handle, (method, path_and_query), r),
        path_and_query is Some ==> call_ensures(
            crate::text::path_only,
            (path_and_query->0,),
            path,
        ),
        path_and_query is None ==> path@ == "/"@,
    ensures
        r == router::Route::Healthz <==> method == Method::Get && path@ == "/healthz"@,
        r == router::Route::Inference <==> method == Method::Post && path@ == "/v1/inference"@,
        r == router::Route::Presence <==> method == Method::Post && path@
            == "/v1/internal/presence"@,
{
    reveal_strlit("/healthz");
    reveal_strlit("/v1/inference");
    reveal_strlit("/v1/internal/presence");
    assert("/healthz"@.len() == 8 && "/v1/inference"@.len() == 13 && "/v1/internal/presence"@.len()
        == 21);
}

/// Ids and URLs are made of all that they are given.
pub proof fn law_ids_and_urls(
    cfg: &router::Cfg,
    a: &str,
    b: &str,
    r: String,
)
    ensures
        call_ensures(router::corr_id_from, (a,), r) ==> r@ == "corr_"@ + a@,
        call_ensures(worker::worker_id_from, (a,), r) ==> r@ == "wkr_"@ + a@,
        call_ensures(router::url_of_queue, (a, b), r) ==> r@ == a@ + "/queues/"@ + b@,
        call_ensures(worker::url_of_topic, (a, b), r) ==> r@ == a@ + "/topics/"@ + b@
            + "/publish"@,
        call_ensures(router::url_of_stream, (cfg, a), r) ==> r@ == cfg.base@ + "/subscriptions/"@
            + a@ + "/stream?bearer="@ + cfg.bearer@,
{
}

/// A fresh correlation id is 37 characters long: a fixed head and all of a UUID that was drawn.
pub proof fn law_new_ids(corr_id: String, worker_id: String)
    ensures
        call_ensures(router::new_corr_id, (), corr_id) ==> corr_id@.len() == 37 && exists|
            uuid: String,
        |
            #[trigger] crate::ids::drawn(uuid) && corr_id@ == "corr_"@ + uuid@,
        call_ensures(worker::new_worker_id, (), worker_id) ==> worker_id@.len() == 36 && exists|
            uuid: String,
        |
            #[trigger] crate::ids::drawn(uuid) && worker_id@ == "wkr_"@ + uuid@,
{
    reveal_strlit("wkr_");
    if call_ensures(router::new_corr_id, (), corr_id) {
        crate::meeting_laws::law_corr_id_fits(corr_id@);
        let uuid = choose|uuid: String|
            #[trigger] crate::ids::drawn(uuid) && corr_id@ == router::corr_id_text(uuid@);
        assert(corr_id@ == "corr_"@ + uuid@);
    }
}

/// A request for inference keeps its model and its prompt, and streams exactly when it says so. One
/// that cannot be read is refused with a 400 that says why, and any other is taken as it is.
pub proof fn law_requests_are_taken(
    model: String,
    prompt: String,
    stream: Option<bool>,
    request: InferenceRequest,
    parsed: Result<InferenceRequest, String>,
    r: Result<InferenceRequest, Response>,
    listed: Result<Vec<String>, String>,
    keys: Result<Vec<String>, Response>,
)
    ensures
        call_ensures(exchange::inference_request, (model, prompt, stream), request)
            ==> request.model@ == model@ && request.prompt@ == prompt@ && (request.stream
            <==> stream == Some(true)),
        call_ensures(exchange::admit_request, (parsed,), r) ==> match parsed {
            Ok(q) => r is Ok && (r->Ok_0).model@ == q.model@ && (r->Ok_0).prompt@ == q.prompt@ && (
            r->Ok_0).stream == q.stream,
            Err(e) => r is Err && course_laws::says(r->Err_0, 400, "bad json: "@ + e@ + "\n"@),
        },
        call_ensures(exchange::admit_store, (listed,), keys) ==> match listed {
            Ok(k) => keys is Ok && (keys->Ok_0)@ == k@,
            Err(_) => keys is Err && course_laws::says(keys->Err_0, 500, "presence-store-unavailable\n"@),
        },
{
}

/// How an exchange opens: with a failed search it gives up with the error of the search; otherwise the
/// caller gets a 503 exactly where no worker was found. Its correlation id comes of a UUID that was
/// drawn.
pub proof fn law_handle_inference(
    cfg: &router::Cfg,
    request: InferenceRequest,
    found: crate::presence::Found,
    r: (exchange::Exchange, exchange::Action),
)
    requires
        call_ensures(exchange::handle_inference, (cfg, request, found), r),
    ensures
        exists|uuid: String|
            #[trigger] crate::ids::drawn(uuid) && r.0.corr_id@ == "corr_"@ + uuid@,
        r.0.model@ == request.model@,
        r.0.prompt@ == request.prompt@,
        found is Err ==> r.0.phase is Ended && course_laws::gives_up(r.1, found->Err_0@),
        found is Ok && found->Ok_0 is None ==> r.0.phase is Ended && course_laws::answers(
            r.1,
            503,
            "no-workers\n"@,
        ),
        found is Ok && found->Ok_0 is Some && request.stream ==> r.0.phase is Subscribing && r.1
            is Send,
        found is Ok && found->Ok_0 is Some && !request.stream ==> r.0.phase is CreatingQueue && r.1
            is Send,
{
    let uuid = choose|uuid: String|
        #[trigger] crate::ids::drawn(uuid) && r.0@.corr_id == router::corr_id_text(uuid@);
    assert(r.0.corr_id@ == "corr_"@ + uuid@);
    assert(r.0@.model == request.model@ && r.0@.prompt == request.prompt@);
    assert(r.0.phase@ == r.0@.phase);
    if found is Ok && found->Ok_0 is Some {
        assert(r.1@ is Send);
    } else if found is Ok {
        assert(r.1@ is Finish);
    } else {
        assert(r.1@ is Fail);
    }
}

/// Outcomes are reported as they were.
pub proof fn law_outcomes_are_reported(
    status: u16,
    body: Vec<u8>,
    message: Option<Delivery>,
    r: Event,
)
    ensures
        call_ensures(exchange::replied, (status, body), r) ==> {
            &&& r is Replied && r->Replied_status == status && r->Replied_body@ == body@
            &&& vstd::utf8::valid_utf8(body@) ==> r->Replied_detail@ == vstd::utf8::decode_utf8(
                body@,
            )
        },
        call_ensures(exchange::delivered_one, (message,), r) ==> r is Delivered && match message {
            Some(d) => r->delivery is Ok && r->delivery->Ok_0 is Some && r->delivery->Ok_0->0@
                == d@,
            None => r->delivery is Err && r->delivery->Err_0@ == "queue receive response shape"@,
        },
{
    if call_ensures(exchange::replied, (status, body), r) {
        assert(r@ is Replied);
    }
    if call_ensures(exchange::delivered_one, (message,), r) {
        assert(r@ is Delivered);
        assert(r@->delivery == crate::queue::delivery_view(r->delivery));
    }
}

// ---------------------------------------------------------------------------
// Queues
// ---------------------------------------------------------------------------

/// An answer that counts messages gives all of them, in order, and one that counts none gives none.
pub proof fn law_received_messages(answer: ReceiveResponse, r: Vec<ReceivedMessage>)
    requires
        call_ensures(crate::queue::receive_messages, (answer,), r),
    ensures
        answer.count == 0 ==> r@.len() == 0,
        answer.count > 0 ==> r@ == answer.messages@,
{
}

/// What the base64 text of a body denotes is the body, as it is; one that denotes nothing is an error.
pub proof fn law_bodies(
    msg: &ReceivedMessage,
    ack_token: String,
    decoded: Option<Vec<u8>>,
    r: Result<Vec<u8>, String>,
    d: Result<Option<Delivery>, String>,
)
    ensures
        call_ensures(crate::queue::message_body, (msg,), r) ==> match crate::outside::base64_bytes(
            msg.body_b64@,
        ) {
            Some(bytes) => r is Ok && (r->Ok_0)@ == bytes,
            None => r is Err && (r->Err_0)@ == "body_b64 decode"@,
        },
        call_ensures(crate::queue::body_from, (decoded,), r) ==> match decoded {
            Some(bytes) => r is Ok && (r->Ok_0)@ == bytes@,
            None => r is Err && (r->Err_0)@ == "body_b64 decode"@,
        },
        call_ensures(crate::queue::open_message, (ack_token, decoded), d) ==> match decoded {
            Some(bytes) => d is Ok && d->Ok_0 is Some && d->Ok_0->0.body@ == bytes@
                && d->Ok_0->0.ack_token@ == ack_token@,
            None => d is Err && (d->Err_0)@ == "body_b64 decode"@,
        },
{
    if call_ensures(crate::queue::open_message, (ack_token, decoded), d) {
        if decoded is Some {
            assert(crate::queue::delivery_view(d) is Ok);
            assert(d->Ok_0->0@.body == (decoded->0)@);
        }
    }
}

/// The first message of an answer is taken, with the body that its base64 text denotes and the token by
/// which it is acknowledged; there is none where the answer counts none or holds none.
pub proof fn law_first_message(
    answer: ReceiveResponse,
    r: Result<Option<Delivery>, String>,
    batch: Option<ReceiveResponse>,
    e: Event,
)
    ensures
        call_ensures(crate::queue::take_first, (answer,), r) ==> is_first(answer, r),
        call_ensures(exchange::delivered_batch, (batch,), e) ==> e is Delivered && match batch {
            Some(a) => is_first(a, e->delivery),
            None => e->delivery is Err && e->delivery->Err_0@ == "queue receive response shape"@,
        },
{
    if call_ensures(exchange::delivered_batch, (batch,), e) {
        assert(e@ is Delivered);
        assert(e@->delivery == crate::queue::delivery_view(e->delivery));
    }
}

/// Whether this is the first message of an answer.
pub open spec fn is_first(answer: ReceiveResponse, r: Result<Option<Delivery>, String>) -> bool {
    if answer.count == 0 || answer.messages@.len() == 0 {
        r is Ok && r->Ok_0 is None
    } else {
        match crate::outside::base64_bytes(answer.messages@[0].body_b64@) {
            Some(bytes) => r is Ok && r->Ok_0 is Some && r->Ok_0->0.body@ == bytes
                && r->Ok_0->0.ack_token@ == answer.messages@[0].ack_token@,
            None => r is Err && (r->Err_0)@ == "body_b64 decode"@,
        }
    }
}

// ---------------------------------------------------------------------------
// The worker
// ---------------------------------------------------------------------------

/// A worker is configured with what it is given: the bearer without the white space around it, the base
/// URLs without the slashes at their ends, and the rest as it is; its queue and its subject are named
/// after its model.
pub proof fn law_worker_cfg(
    bearer: &str,
    substrate_base: &str,
    model: String,
    ollama_base: &str,
    region: String,
    worker_id: String,
    r: worker::Cfg,
    trimmed: String,
    base: String,
    runtime: String,
    m: &str,
    normalized: String,
)
    requires
        call_ensures(
            worker::Cfg::new,
            (bearer, substrate_base, model, ollama_base, region, worker_id),
            r,
        ),
        call_ensures(crate::text::trim, (bearer,), trimmed),
        call_ensures(crate::text::trim_end_slashes, (substrate_base,), base),
        call_ensures(crate::text::trim_end_slashes, (ollama_base,), runtime),
        m@ == model@,
        call_ensures(names::normalize_name, (m,), normalized),
    ensures
        r.bearer@ == trimmed@,
        r.base@ == base@,
        r.ollama_base@ == runtime@,
        r.model@ == model@,
        r.region@ == region@,
        r.worker_id@ == worker_id@,
        r.normalized_model@ == normalized@,
        r.queue@ == "inference_req_"@ + normalized@,
{
    assert(r@.bearer == trimmed@ && r@.base == base@ && r@.ollama_base == runtime@ && r@.model
        == model@ && r@.region == region@ && r@.worker_id == worker_id@);
}

/// The bearer is what the first of the two files holds that is there; a file that is there and cannot
/// be read is an error, and so it is where neither is there.
pub proof fn law_bearer_on_disk(above: BearerFile, here: BearerFile, r: Result<String, String>)
    requires
        call_ensures(worker::load_bearer_from_disk, (above, here), r),
    ensures
        above is Contents ==> r is Ok && (r->Ok_0)@ == above->text@,
        above is Missing && here is Contents ==> r is Ok && (r->Ok_0)@ == here->text@,
        above is Unreadable ==> r is Err && (r->Err_0)@ == "reading ../.tenant-bearer"@,
        above is Missing && here is Unreadable ==> r is Err && (r->Err_0)@
            == "reading .tenant-bearer"@,
        above is Missing && here is Missing ==> r is Err,
{
}

/// An answer is held against a request exactly when its status lies outside of 200 to 299; the
/// complaint names what was refused, the status, its phrase and all of what was said.
pub proof fn law_verdicts(
    what: &str,
    status: u16,
    phrase: Option<String>,
    detail: &str,
    path: &str,
    name: &str,
    r: Option<String>,
)
    ensures
        call_ensures(worker::judge_with, (what, status, phrase, detail), r) ==> (r is None
            <==> 200 <= status <= 299),
        call_ensures(worker::judge_with, (what, status, phrase, detail), r) && r is Some
            ==> is_refusal_with(
            r->0@,
            what@,
            status,
            match phrase {
                Some(p) => p@,
                None => "<unknown status code>"@,
            },
            detail@,
        ),
        call_ensures(worker::judge, (what, status, detail), r) ==> (r is None <==> 200 <= status
            <= 299),
        call_ensures(worker::judge, (what, status, detail), r) && r is Some ==> is_refusal(
            r->0@,
            what@,
            status,
            detail@,
        ),
        call_ensures(worker::heartbeat_verdict, (status, detail), r) ==> (r is None <==> 200
            <= status <= 299),
        call_ensures(worker::heartbeat_verdict, (status, detail), r) && r is Some ==> is_refusal(
            r->0@,
            "heartbeat "@,
            status,
            detail@,
        ),
        call_ensures(worker::create_verdict, (path, name, status, detail), r) ==> (r is None
            <==> 200 <= status <= 299),
        call_ensures(worker::create_verdict, (path, name, status, detail), r) && r is Some
            ==> is_refusal(
            r->0@,
            "create "@ + path@ + " "@ + name@ + ": "@,
            status,
            detail@,
        ),
{
    crate::text::law_decimal_reads_back(status as u64);
    let code = crate::text::decimal_text(status as nat);
    if call_ensures(worker::judge_with, (what, status, phrase, detail), r) && r is Some {
        let said = match phrase {
            Some(p) => p@,
            None => "<unknown status code>"@,
        };
        assert(r->0@ =~= refused(what@, code, said, detail@));
    }
    lemma_refusal(what@, status, detail@);
    lemma_refusal("heartbeat "@, status, detail@);
    lemma_refusal("create "@ + path@ + " "@ + name@ + ": "@, status, detail@);
}

/// A complaint about an answer: what was refused, the status and its phrase, and what was said.
pub open spec fn refused(
    what: Seq<char>,
    code: Seq<char>,
    phrase: Seq<char>,
    detail: Seq<char>,
) -> Seq<char> {
    what + code + " "@ + phrase + ": "@ + detail
}

/// Whether a text is a complaint about an answer, with a phrase.
pub open spec fn is_refusal_with(
    text: Seq<char>,
    what: Seq<char>,
    status: u16,
    phrase: Seq<char>,
    detail: Seq<char>,
) -> bool {
    exists|code: Seq<char>|
        crate::text::parsed_u64(code) == Some(status as u64) && text == #[trigger] refused(
            what,
            code,
            phrase,
            detail,
        )
}

/// Whether a text is a complaint about an answer, with the phrase that belongs to the status.
pub open spec fn is_refusal(
    text: Seq<char>,
    what: Seq<char>,
    status: u16,
    detail: Seq<char>,
) -> bool {
    is_refusal_with(
        text,
        what,
        status,
        match crate::outside::canonical_reason(status) {
            Some(p) => p,
            None => "<unknown status code>"@,
        },
        detail,
    )
}

/// What a verdict comes to, in numbers.
pub proof fn lemma_refusal(what: Seq<char>, status: u16, detail: Seq<char>)
    ensures
        worker::verdict(what, status, detail) is None <==> 200 <= status <= 299,
        worker::verdict(what, status, detail) is Some ==> is_refusal(
            worker::verdict(what, status, detail)->0,
            what,
            status,
            detail,
        ),
{
    crate::text::law_decimal_reads_back(status as u64);
    let code = crate::text::decimal_text(status as nat);
    let phrase = match crate::outside::canonical_reason(status) {
        Some(p) => p,
        None => "<unknown status code>"@,
    };
    if worker::verdict(what, status, detail) is Some {
        assert(worker::verdict(what, status, detail)->0 =~= refused(what, code, phrase, detail));
    }
}

/// After a receive that the service answered with success and that could be read, all its messages are
/// handed out, in order; after any other the worker pauses for two seconds with a complaint.
pub proof fn law_turns(received: worker::Received, r: worker::Turn)
    requires
        call_ensures(worker::consume, (received,), r),
    ensures
        match received {
            worker::Received::Failed { error } => r is BackOff && r->secs == 2 && r->error@
                == error@,
            worker::Received::Answered { status, body, answer } => if 200 <= status <= 299 {
                match answer {
                    Some(a) => r is Dispatch && (a.count > 0 ==> r->messages@ == a.messages@) && (
                    a.count == 0 ==> r->messages@.len() == 0),
                    None => r is BackOff && r->secs == 2 && r->error@ == "queue receive shape"@,
                }
            } else {
                &&& r is BackOff && r->secs == 2
                &&& vstd::utf8::valid_utf8(body@) ==> is_refusal(
                    r->error@,
                    "receive "@,
                    status,
                    vstd::utf8::decode_utf8(body@),
                )
            },
        },
{
    if let worker::Received::Answered { status, body, answer } = received {
        lemma_refusal("receive "@, status, crate::outside::utf8_lossy(body@));
        lemma_refusal("receive "@, status, vstd::utf8::decode_utf8(body@));
    }
    assert(r@ == worker::turn_of(received));
}

/// The same for a receive whose body is given as text.
pub proof fn law_turns_with(received: worker::Received, detail: &str, r: worker::Turn)
    requires
        call_ensures(worker::after_receive, (received, detail), r),
    ensures
        match received {
            worker::Received::Failed { error } => r is BackOff && r->secs == 2 && r->error@
                == error@,
            worker::Received::Answered { status, body, answer } => if 200 <= status <= 299 {
                match answer {
                    Some(a) => r is Dispatch && (a.count > 0 ==> r->messages@ == a.messages@) && (
                    a.count == 0 ==> r->messages@.len() == 0),
                    None => r is BackOff && r->secs == 2 && r->error@ == "queue receive shape"@,
                }
            } else {
                r is BackOff && r->secs == 2 && is_refusal(
                    r->error@,
                    "receive "@,
                    status,
                    detail@,
                )
            },
        },
{
    if let worker::Received::Answered { status, body, answer } = received {
        lemma_refusal("receive "@, status, detail@);
    }
    assert(r@ == worker::turn_with(received, detail@));
}

/// A worker needs its own queue, on which it waits, and the two topics to which it publishes.
pub proof fn law_needed_resources(
    cfg: &worker::Cfg,
    r: Vec<worker::Resource>,
    waiting: Request,
    corr_id: &str,
    leaf: &str,
    body: &str,
    message: Request,
    ts: u64,
    heartbeat: Request,
)
    requires
        call_ensures(worker::ensure_resources, (cfg,), r),
        call_ensures(worker::receive, (cfg,), waiting),
        call_ensures(worker::publish_to_responses, (cfg, corr_id, leaf, body), message),
        call_ensures(worker::heartbeat_at, (cfg, ts), heartbeat),
    ensures
        r@.len() == 3,
        r@[0].path@ == "/queues"@ && r@[1].path@ == "/topics"@ && r@[2].path@ == "/topics"@,
        waiting.url@ == cfg.base@ + "/queues/"@ + r@[0].name@ + "/messages?wait="@ + "20"@,
        message.url@ == cfg.base@ + "/topics/"@ + r@[1].name@ + "/publish"@,
        heartbeat.url@ == cfg.base@ + "/topics/"@ + r@[2].name@ + "/publish"@,
{
    let texts = worker::resource_texts(r@);
    assert(texts.len() == r@.len());
    assert(forall|i: int| 0 <= i < r@.len() ==> #[trigger] texts[i] == (r@[i].path@, r@[i].name@));
    assert(texts[0].1 == cfg.queue@);
    assert(texts[1].1 == "inference_responses"@);
    assert(texts[2].1 == "worker_presence"@);
    crate::request_laws::law_worker_queue_requests(cfg, corr_id, waiting);
}

/// A clock that stands before the epoch reads 0, and any other what has elapsed.
pub proof fn law_clock(elapsed: Option<u64>, r: u64)
    requires
        call_ensures(crate::clock::seconds_or_zero, (elapsed,), r),
    ensures
        elapsed is Some ==> r == elapsed->0,
        elapsed is None ==> r == 0,
{
}

/// A reading of the clock is the whole seconds of what has elapsed since the epoch, and 0 where the
/// clock stands before it.
pub proof fn law_now(r: u64)
    requires
        call_ensures(crate::clock::now_secs, (), r),
    ensures
        exists|
            now: std::time::SystemTime,
            epoch: std::time::SystemTime,
            elapsed: Result<std::time::Duration, std::time::SystemTimeError>,
        | #[trigger]
            crate::clock::clock_gave(now, epoch, elapsed) && match elapsed {
                Ok(d) => call_ensures(std::time::Duration::as_secs, (&d,), r),
                Err(_) => r == 0,
            },
{
}

/// A status stands before its phrase in digits that read back as it.
pub proof fn law_status_with_phrase(code: u16, phrase: Option<String>, r: String)
    requires
        call_ensures(crate::web::status_with_phrase, (code, phrase), r),
    ensures
        phrase is Some ==> is_headed(r@, code, phrase->0@),
        phrase is None ==> is_headed(r@, code, "<unknown status code>"@),
{
    crate::text::law_decimal_reads_back(code as u64);
    let digits = crate::text::decimal_text(code as nat);
    if let Some(p) = phrase {
        assert(r@ == headed(digits, p@));
    } else {
        assert(r@ == headed(digits, "<unknown status code>"@));
    }
}

/// Whether a text is a phrase with a number before it.
pub open spec fn is_headed(text: Seq<char>, code: u16, phrase: Seq<char>) -> bool {
    exists|digits: Seq<char>|
        crate::text::parsed_u64(digits) == Some(code as u64) && text == #[trigger] headed(
            digits,
            phrase,
        )
}

/// A phrase with digits before it.
pub open spec fn headed(digits: Seq<char>, phrase: Seq<char>) -> Seq<char> {
    digits + " "@ + phrase
}

} // verus!
