//! What an exchange does with each outcome, said of [`Exchange::begin`] and [`Exchange::step`]
//! themselves: which request goes out, what is in it, and what the caller is answered.
use crate::exchange::{Action, Event, Exchange, InferenceRequest};
use crate::json;
use crate::names;
use crate::outside::Member;
use crate::presence::PresenceRecord;
use crate::request_laws;
use crate::router;
use crate::web::{Method, Request, Response};
use crate::worker;
use vstd::prelude::*;

verus! {

/// Whether a response is a plain text.
pub open spec fn says(r: Response, status: u16, text: Seq<char>) -> bool {
    &&& r.status == status
    &&& r.body@ == vstd::utf8::encode_utf8(text)
    &&& r.content_type is Some && r.content_type->0@ == "text/plain; charset=utf-8"@
    &&& r.location is None
    &&& r.cache_control is None
}

/// Whether a response hands a JSON document on.
pub open spec fn hands_on(r: Response, body: Seq<u8>) -> bool {
    &&& r.status == 200
    &&& r.body@ == body
    &&& r.content_type is Some && r.content_type->0@ == "application/json"@
    &&& r.location is None
    &&& r.cache_control is None
}

/// Whether an action answers the caller with a plain text.
pub open spec fn answers(a: Action, status: u16, text: Seq<char>) -> bool {
    a is Finish && says(a->response, status, text)
}

/// Whether an action gives up with an error.
pub open spec fn gives_up(a: Action, error: Seq<char>) -> bool {
    a is Fail && a->Fail_error@ == error
}

/// Whether an exchange settles a plain text: the caller is answered, or the response queue is deleted
/// first where the router cleans up.
pub open spec fn settles(
    cfg: router::Cfg,
    queue: Seq<char>,
    r: (Exchange, Action),
    status: u16,
    text: Seq<char>,
) -> bool {
    if cfg.cleanup {
        &&& r.0.phase is Deleting && says(r.0.phase->reply, status, text)
        &&& deletes(cfg, queue, r.1)
    } else {
        r.0.phase is Ended && answers(r.1, status, text)
    }
}

/// Whether an action deletes a queue.
pub open spec fn deletes(cfg: router::Cfg, queue: Seq<char>, a: Action) -> bool {
    &&& a is Send
    &&& request_laws::goes(a->request, Method::Delete, cfg.base@ + "/queues/"@ + queue)
    &&& request_laws::bears(a->request, cfg.bearer@)
    &&& request_laws::is_bare(a->request)
}

/// Whether an action acknowledges a message of a queue.
pub open spec fn acknowledges(
    cfg: router::Cfg,
    queue: Seq<char>,
    token: Seq<char>,
    a: Action,
) -> bool {
    &&& a is Send
    &&& if cfg.surface == names::Surface::Flat {
        request_laws::goes(
            a->request,
            Method::Delete,
            cfg.base@ + "/queues/"@ + queue + "/messages/"@ + token,
        )
    } else {
        request_laws::goes(
            a->request,
            Method::Post,
            cfg.base@ + "/queues/"@ + queue + "/ack/"@ + token,
        )
    }
    &&& request_laws::bears(a->request, cfg.bearer@)
    &&& request_laws::is_bare(a->request)
}

/// Whether an action sends work to a queue.
pub open spec fn sends_work(cfg: router::Cfg, queue: Seq<char>, a: Action) -> bool {
    &&& a is Send
    &&& request_laws::goes(
        a->request,
        Method::Post,
        cfg.base@ + "/queues/"@ + queue + (if cfg.surface == names::Surface::Flat {
            "/messages"@
        } else {
            "/send"@
        }),
    )
    &&& request_laws::bears(a->request, cfg.bearer@)
}

/// Whether two exchanges are about the same request.
pub open spec fn same_request(a: Exchange, b: Exchange) -> bool {
    a.corr_id@ == b.corr_id@ && a.model@ == b.model@ && a.prompt@ == b.prompt@
}

/// How an exchange begins. Without a worker the caller gets a 503 and nothing is sent. With one, a
/// streaming request gets its subscription, and any other a queue whose name is found under `name`.
pub proof fn law_exchange_begins(
    cfg: &router::Cfg,
    corr_id: String,
    request: InferenceRequest,
    picked: &Option<PresenceRecord>,
    r: (Exchange, Action),
    id: &str,
    queue: String,
    document: &[u8],
    key: &str,
    found: Result<Option<Member>, String>,
)
    requires
        call_ensures(Exchange::begin, (cfg, corr_id, request, picked), r),
        id@ == corr_id@,
        call_ensures(names::response_queue, (cfg.surface, id), queue),
        r.1 is Send ==> document@ == r.1->request.body@,
        json::looked_up(document, key, found),
    ensures
        r.0.corr_id@ == corr_id@,
        r.0.model@ == request.model@,
        r.0.prompt@ == request.prompt@,
        *picked is None ==> r.0.phase is Ended && answers(r.1, 503, "no-workers\n"@),
        *picked is Some ==> r.1 is Send && request_laws::bears(r.1->request, cfg.bearer@),
        *picked is Some && request.stream ==> r.0.phase is Subscribing && request_laws::goes(
            r.1->request,
            Method::Post,
            cfg.base@ + "/subscriptions"@,
        ),
        *picked is Some && request.stream ==> forall|s: Request| #[trigger]
            call_ensures(router::create_subscription, (cfg, id), s) ==> r.1->request@ == s@,
        *picked is Some && !request.stream ==> r.0.phase is CreatingQueue && request_laws::goes(
            r.1->request,
            Method::Post,
            cfg.base@ + "/queues"@,
        ),
        *picked is Some && !request.stream && key@ == "name"@ ==> request_laws::text_found(found)
            == Some(queue@),
{
    assert(r.0@.corr_id == corr_id@ && r.0@.model == request.model@);
    if *picked is Some && !request.stream {
        assert(r.1@ is Send);
        assert(r.0@.phase is CreatingQueue);
        if key@ == "name"@ {
            request_laws::lemma_name_body(queue@, document, key, found);
        }
    } else if *picked is Some {
        assert(r.1@ is Send);
        assert(r.0@.phase is Subscribing);
    } else {
        assert(r.1@ is Finish);
        assert(r.0@.phase is Ended);
    }
}

/// What an exchange that does not stream does with each outcome, up to the wait for the reply: the work
/// goes out once the queue is there, and in it are the correlation id, the model, the prompt and the
/// response queue; then the router waits on that queue.
pub proof fn law_work_and_wait(
    cfg: &router::Cfg,
    x: Exchange,
    e: Event,
    r: (Exchange, Action),
    id: &str,
    model: &str,
    queue: String,
    target: String,
    document: &[u8],
    key: &str,
    found: Result<Option<Member>, String>,
)
    requires
        x@.awaits(e@),
        call_ensures(Exchange::step, (x, cfg, e), r),
        id@ == x.corr_id@,
        model@ == x.model@,
        call_ensures(names::response_queue, (cfg.surface, id), queue),
        call_ensures(names::work_queue, (cfg.surface, model), target),
        r.1 is Send ==> document@ == r.1->request.body@,
        json::looked_up(document, key, found),
    ensures
        same_request(x, r.0),
        x.phase is CreatingQueue ==> match e {
            Event::Failed { error } => r.0.phase is Ended && gives_up(r.1, error@),
            Event::Replied { status, body, detail } => if status >= 300 {
                r.0.phase is Ended && r.1 is Fail
            } else {
                &&& r.0.phase is Publishing
                &&& sends_work(*cfg, target@, r.1)
                &&& key@ == "response_queue"@ ==> request_laws::text_found(found) == Some(queue@)
            },
            _ => false,
        },
        x.phase is ReadingSubscription ==> match e {
            Event::Subscribed { id: Some(sub_id) } => {
                &&& r.0.phase is PublishingStream && r.0.phase->sub_id@ == sub_id@
                &&& sends_work(*cfg, target@, r.1)
                &&& key@ == "response_queue"@ ==> request_laws::text_found(found) is None
                    && request_laws::notation_found(found) == Some("null"@)
            },
            Event::Subscribed { id: None } => r.0.phase is Ended && answers(
                r.1,
                502,
                "substrate-error: "@ + "subscription create response"@ + "\n"@,
            ),
            _ => false,
        },
        r.0.phase is Publishing || r.0.phase is PublishingStream ==> {
            &&& key@ == "corr_id"@ ==> request_laws::text_found(found) == Some(x.corr_id@)
            &&& key@ == "model"@ ==> request_laws::text_found(found) == Some(x.model@)
            &&& key@ == "prompt"@ ==> request_laws::text_found(found) == Some(x.prompt@)
        },
        x.phase is Publishing ==> match e {
            Event::Replied { status, body, detail } => if status < 300 {
                r.0.phase is Receiving && r.1 is Send && request_laws::bears(
                    r.1->request,
                    cfg.bearer@,
                ) && exists|wait: Seq<char>|
                    crate::text::parsed_u64(wait) == Some(cfg.reqres_poll_secs)
                        && #[trigger] request_laws::waits(
                        r.1->request,
                        cfg.base@,
                        cfg.surface,
                        queue@,
                        wait,
                    )
            } else {
                gave_up_publishing(*cfg, queue@, r)
            },
            Event::Failed { error } => {
                &&& gave_up_publishing(*cfg, queue@, r)
                &&& !cfg.cleanup ==> gives_up(r.1, error@)
                &&& cfg.cleanup ==> r.0.phase->Abandoning_error@ == error@
            },
            _ => false,
        },
        x.phase is Abandoning ==> r.0.phase is Ended && gives_up(r.1, x.phase->Abandoning_error@),
{
    let next = crate::exchange::continuation(cfg@, x@, e@);
    assert(r.0@ == next.0 && r.1@ == next.1);
    assert(x.phase@ == x@.phase && r.0.phase@ == r.0@.phase);
    if r.0.phase is Publishing || r.0.phase is PublishingStream {
        assert(next.1 is Send);
        let rq = if r.0.phase is Publishing {
            Some(queue@)
        } else {
            None
        };
        request_laws::lemma_work_body(x.corr_id@, x.model@, x.prompt@, rq, document, key, found);
    }
    if x.phase is Publishing {
        crate::text::law_decimal_reads_back(cfg.reqres_poll_secs);
        if let Event::Replied { status, body, detail } = e {
            if status < 300 {
                let wait = crate::text::decimal_text(cfg.reqres_poll_secs as nat);
                assert(request_laws::waits(
                    r.1->request,
                    cfg.base@,
                    cfg.surface,
                    queue@,
                    wait,
                ));
            }
        }
    }
}

/// Whether an exchange gave up because its work could not be published: it ends, or the response queue
/// is deleted first where the router cleans up.
pub open spec fn gave_up_publishing(
    cfg: router::Cfg,
    queue: Seq<char>,
    r: (Exchange, Action),
) -> bool {
    if cfg.cleanup {
        r.0.phase is Abandoning && deletes(cfg, queue, r.1)
    } else {
        r.0.phase is Ended && r.1 is Fail
    }
}

/// What an exchange that waits for its reply does with each outcome: a message is handed on as it came,
/// whatever becomes of its acknowledgement; without one the caller gets a 504.
pub proof fn law_reply_or_timeout(
    cfg: &router::Cfg,
    x: Exchange,
    e: Event,
    r: (Exchange, Action),
    id: &str,
    queue: String,
)
    requires
        x@.awaits(e@),
        call_ensures(Exchange::step, (x, cfg, e), r),
        id@ == x.corr_id@,
        call_ensures(names::response_queue, (cfg.surface, id), queue),
    ensures
        same_request(x, r.0),
        x.phase is Receiving ==> match e {
            Event::Failed { error } => settles(
                *cfg,
                queue@,
                r,
                504,
                "substrate error: "@ + error@ + "\n"@,
            ),
            Event::Replied { status, body, detail } => if status == 204 || body@.len() == 0 {
                settles(*cfg, queue@, r, 504, "worker did not respond in time\n"@)
            } else if status >= 300 {
                settles_with(*cfg, queue@, r, 504)
            } else {
                r.0.phase is ReadingDelivery && r.1 is ReadDelivery
                    && r.1->ReadDelivery_document@ == body@
            },
            _ => false,
        },
        x.phase is ReadingDelivery ==> match e {
            Event::Delivered { delivery: Err(error) } => settles(
                *cfg,
                queue@,
                r,
                504,
                "substrate error: "@ + error@ + "\n"@,
            ),
            Event::Delivered { delivery: Ok(None) } => settles(
                *cfg,
                queue@,
                r,
                504,
                "worker did not respond in time\n"@,
            ),
            Event::Delivered { delivery: Ok(Some(d)) } => if cfg.cleanup {
                &&& r.0.phase is Acking && r.0.phase->body@ == d.body@
                &&& acknowledges(*cfg, queue@, d.ack_token@, r.1)
            } else {
                r.0.phase is Ended && r.1 is Finish && hands_on(r.1->response, d.body@)
            },
            _ => false,
        },
        x.phase is Acking ==> if cfg.cleanup {
            &&& r.0.phase is Deleting && hands_on(r.0.phase->reply, x.phase->body@)
            &&& deletes(*cfg, queue@, r.1)
        } else {
            r.0.phase is Ended && r.1 is Finish && hands_on(r.1->response, x.phase->body@)
        },
        x.phase is Deleting ==> r.0.phase is Ended && r.1 is Finish && r.1->response@
            == x.phase->reply@,
{
    let next = crate::exchange::continuation(cfg@, x@, e@);
    assert(r.0@ == next.0 && r.1@ == next.1);
    assert(x.phase@ == x@.phase && r.0.phase@ == r.0@.phase);
}

/// Whether an exchange settles a plain text with a status.
pub open spec fn settles_with(
    cfg: router::Cfg,
    queue: Seq<char>,
    r: (Exchange, Action),
    status: u16,
) -> bool {
    if cfg.cleanup {
        r.0.phase is Deleting && r.0.phase->reply.status == status && deletes(cfg, queue, r.1)
    } else {
        r.0.phase is Ended && r.1 is Finish && r.1->response.status == status
    }
}

/// What an exchange that streams does with each outcome: a subscription that cannot be had is a 502; a
/// caller whose work was published is redirected, past all caches, to the stream of the subscription
/// that was created.
pub proof fn law_stream_course(cfg: &router::Cfg, x: Exchange, e: Event, r: (Exchange, Action))
    requires
        x@.awaits(e@),
        call_ensures(Exchange::step, (x, cfg, e), r),
    ensures
        same_request(x, r.0),
        x.phase is Subscribing ==> match e {
            Event::Failed { error } => r.0.phase is Ended && answers(
                r.1,
                502,
                "substrate-error: "@ + error@ + "\n"@,
            ),
            Event::Replied { status, body, detail } => if status >= 300 {
                r.0.phase is Ended && r.1 is Finish && r.1->response.status == 502
            } else {
                r.0.phase is ReadingSubscription && r.1 is ReadSubscription
                    && r.1->ReadSubscription_document@ == body@
            },
            _ => false,
        },
        x.phase is PublishingStream ==> match e {
            Event::Failed { error } => r.0.phase is Ended && gives_up(r.1, error@),
            Event::Replied { status, body, detail } => if status >= 300 {
                r.0.phase is Ended && r.1 is Fail
            } else {
                &&& r.0.phase is Ended && r.1 is Finish
                &&& r.1->response.status == 302
                &&& r.1->response.location is Some && r.1->response.location->0@ == cfg.base@
                    + "/subscriptions/"@ + x.phase->sub_id@ + "/stream?bearer="@ + cfg.bearer@
                &&& r.1->response.cache_control is Some && r.1->response.cache_control->0@
                    == "no-store"@
                &&& r.1->response.body@.len() == 0
            },
            _ => false,
        },
{
    let next = crate::exchange::continuation(cfg@, x@, e@);
    assert(r.0@ == next.0 && r.1@ == next.1);
    assert(x.phase@ == x@.phase && r.0.phase@ == r.0@.phase);
}

/// Whether a complaint ends with a status and what was said with it.
pub open spec fn complains(
    text: Seq<char>,
    head: Seq<char>,
    status: u16,
    tail: Seq<char>,
) -> bool {
    exists|code: Seq<char>|
        crate::text::parsed_u64(code) == Some(status as u64) && text == #[trigger] complaint(
            head,
            code,
            tail,
        )
}

/// A complaint, its status given as it is written.
pub open spec fn complaint(head: Seq<char>, code: Seq<char>, tail: Seq<char>) -> Seq<char> {
    head + code + ": "@ + tail
}

/// The complaints of the router name what was refused, the status and all of what was said with it.
pub proof fn law_complaints(what: &str, status: u16, detail: &str, r: String)
    ensures
        call_ensures(router::post_error, (what, status, detail), r) ==> complains(
            r@,
            "POST "@ + what@ + " -> "@,
            status,
            detail@,
        ),
        call_ensures(router::publish_error, (what, status, detail), r) ==> complains(
            r@,
            "publish to "@ + what@ + " returned "@,
            status,
            detail@,
        ),
        call_ensures(router::receive_error, (what, status, detail), r) ==> complains(
            r@,
            "receive from "@ + what@ + " returned "@,
            status,
            detail@,
        ),
{
    crate::text::law_decimal_reads_back(status as u64);
    let code = crate::text::decimal_text(status as nat);
    if call_ensures(router::post_error, (what, status, detail), r) {
        assert(r@ == complaint("POST "@ + what@ + " -> "@, code, detail@));
    }
    if call_ensures(router::publish_error, (what, status, detail), r) {
        assert(r@ == complaint("publish to "@ + what@ + " returned "@, code, detail@));
    }
    if call_ensures(router::receive_error, (what, status, detail), r) {
        assert(r@ == complaint("receive from "@ + what@ + " returned "@, code, detail@));
    }
}

/// Where the service refuses a request of an exchange, the caller is told, or the error says, which it
/// was, with the status and all of what the service said.
pub proof fn law_refusals(
    cfg: &router::Cfg,
    x: Exchange,
    status: u16,
    body: Vec<u8>,
    detail: String,
    r: (Exchange, Action),
    id: &str,
    model: &str,
    queue: String,
    target: String,
)
    requires
        x@.awaits((Event::Replied { status, body, detail })@),
        status >= 300,
        call_ensures(Exchange::step, (x, cfg, (Event::Replied { status, body, detail })), r),
        id@ == x.corr_id@,
        model@ == x.model@,
        call_ensures(names::response_queue, (cfg.surface, id), queue),
        call_ensures(names::work_queue, (cfg.surface, model), target),
    ensures
        x.phase is Subscribing ==> exists|text: Seq<char>|
            #[trigger] answers(r.1, 502, text) && complains(
                text,
                "substrate-error: POST "@ + cfg.base@ + "/subscriptions"@ + " -> "@,
                status,
                detail@ + "\n"@,
            ),
        x.phase is CreatingQueue ==> r.1 is Fail && complains(
            r.1->Fail_error@,
            "POST "@ + cfg.base@ + "/queues"@ + " -> "@,
            status,
            detail@,
        ),
        x.phase is PublishingStream || (x.phase is Publishing && !cfg.cleanup) ==> r.1 is Fail
            && complains(
            r.1->Fail_error@,
            "publish to "@ + target@ + " returned "@,
            status,
            detail@,
        ),
        x.phase is Publishing && cfg.cleanup ==> r.0.phase is Abandoning && complains(
            r.0.phase->Abandoning_error@,
            "publish to "@ + target@ + " returned "@,
            status,
            detail@,
        ),
        x.phase is Receiving && body@.len() > 0 ==> exists|text: Seq<char>|
            #[trigger] settles(*cfg, queue@, r, 504, text) && complains(
                text,
                "substrate error: receive from "@ + queue@ + " returned "@,
                status,
                detail@ + "\n"@,
            ),
{
    let e = Event::Replied { status, body, detail };
    let next = crate::exchange::continuation(cfg@, x@, e@);
    assert(r.0@ == next.0 && r.1@ == next.1);
    assert(x.phase@ == x@.phase && r.0.phase@ == r.0@.phase);
    crate::text::law_decimal_reads_back(status as u64);
    let code = crate::text::decimal_text(status as nat);
    if x.phase is Subscribing {
        reveal_strlit("substrate-error: ");
        reveal_strlit("POST ");
        reveal_strlit("substrate-error: POST ");
        let inner = router::post_error_text(cfg.base@ + "/subscriptions"@, status, detail@);
        let text = "substrate-error: "@ + inner + "\n"@;
        let head = "substrate-error: POST "@ + cfg.base@ + "/subscriptions"@ + " -> "@;
        assert(text =~= complaint(head, code, detail@ + "\n"@));
        assert(answers(r.1, 502, text));
    }
    if x.phase is CreatingQueue {
        let head = "POST "@ + cfg.base@ + "/queues"@ + " -> "@;
        assert(r.1->Fail_error@ =~= complaint(head, code, detail@));
    }
    let publishing = "publish to "@ + target@ + " returned "@;
    if x.phase is PublishingStream || (x.phase is Publishing && !cfg.cleanup) {
        assert(r.1->Fail_error@ =~= complaint(publishing, code, detail@));
    }
    if x.phase is Publishing && cfg.cleanup {
        assert(r.0.phase->Abandoning_error@ =~= complaint(publishing, code, detail@));
    }
    if x.phase is Receiving && body@.len() > 0 {
        reveal_strlit("substrate error: ");
        reveal_strlit("receive from ");
        reveal_strlit("substrate error: receive from ");
        let inner = router::receive_error_text(queue@, status, detail@);
        let text = "substrate error: "@ + inner + "\n"@;
        let head = "substrate error: receive from "@ + queue@ + " returned "@;
        assert(text =~= complaint(head, code, detail@ + "\n"@));
        assert(settles(*cfg, queue@, r, 504, text));
    }
}

/// In the course of a request that does not stream, the name that is found under `response_queue` in
/// the work is the very name that is found under `name` in the request that created a queue, and the
/// router then waits on the queue of that name for as long as it is configured to; under `corr_id`,
/// `model` and `prompt` the work holds those of the request.
pub proof fn law_one_response_queue(
    cfg: &router::Cfg,
    corr_id: String,
    request: InferenceRequest,
    picked: &Option<PresenceRecord>,
    create: (Exchange, Action),
    granted: Event,
    publish: (Exchange, Action),
    taken: Event,
    wait: (Exchange, Action),
    id: &str,
    model: &str,
    queue: String,
    target: String,
    created: &[u8],
    name: &str,
    name_found: Result<Option<Member>, String>,
    work: &[u8],
    key: &str,
    found: Result<Option<Member>, String>,
)
    requires
        !request.stream,
        *picked is Some,
        call_ensures(Exchange::begin, (cfg, corr_id, request, picked), create),
        create.0@.awaits(granted@),
        call_ensures(Exchange::step, (create.0, cfg, granted), publish),
        publish.1 is Send,
        publish.0@.awaits(taken@),
        call_ensures(Exchange::step, (publish.0, cfg, taken), wait),
        wait.0.phase is Receiving,
        id@ == corr_id@,
        model@ == request.model@,
        call_ensures(names::response_queue, (cfg.surface, id), queue),
        call_ensures(names::work_queue, (cfg.surface, model), target),
        created@ == create.1->request.body@,
        name@ == "name"@,
        json::looked_up(created, name, name_found),
        work@ == publish.1->request.body@,
        json::looked_up(work, key, found),
    ensures
        request_laws::goes(create.1->request, Method::Post, cfg.base@ + "/queues"@),
        request_laws::text_found(name_found) is Some,
        sends_work(*cfg, target@, publish.1),
        key@ == "response_queue"@ ==> request_laws::text_found(found) == request_laws::text_found(
            name_found,
        ),
        key@ == "corr_id"@ ==> request_laws::text_found(found) == Some(corr_id@),
        key@ == "model"@ ==> request_laws::text_found(found) == Some(request.model@),
        key@ == "prompt"@ ==> request_laws::text_found(found) == Some(request.prompt@),
        wait.1 is Send && exists|secs: Seq<char>|
            crate::text::parsed_u64(secs) == Some(cfg.reqres_poll_secs)
                && #[trigger] request_laws::waits(
                wait.1->request,
                cfg.base@,
                cfg.surface,
                request_laws::text_found(name_found)->0,
                secs,
            ),
{
    law_exchange_begins(
        cfg,
        corr_id,
        request,
        picked,
        create,
        id,
        queue,
        created,
        name,
        name_found,
    );
    law_work_and_wait(
        cfg,
        create.0,
        granted,
        publish,
        id,
        model,
        queue,
        target,
        work,
        key,
        found,
    );
    assert(publish.0.phase is Publishing);
    let next = crate::exchange::continuation(cfg@, publish.0@, taken@);
    assert(wait.0@ == next.0 && wait.1@ == next.1);
    assert(publish.0.phase@ is Publishing && wait.0.phase@ is Receiving);
    crate::text::law_decimal_reads_back(cfg.reqres_poll_secs);
    let secs = crate::text::decimal_text(cfg.reqres_poll_secs as nat);
    assert(request_laws::waits(wait.1->request, cfg.base@, cfg.surface, queue@, secs));
}

/// Whether a character can stand in the name of a model that router and workers write alike.
pub open spec fn is_model_char(c: char) -> bool {
    ||| 'A' <= c <= 'Z'
    ||| 'a' <= c <= 'z'
    ||| '0' <= c <= '9'
    ||| c == '_' || c == '-' || c == ':' || c == '.' || c == '/' || c == ' '
}

/// On the live service the work of an exchange goes to the messages of the queue on which a worker that
/// was configured for the same model waits.
pub proof fn law_work_meets_worker(
    cfg: &router::Cfg,
    x: Exchange,
    e: Event,
    r: (Exchange, Action),
    model: &str,
    target: String,
    bearer: &str,
    base: &str,
    served: String,
    runtime: &str,
    region: String,
    worker_id: String,
    w: worker::Cfg,
    waiting: Request,
)
    requires
        x@.awaits(e@),
        call_ensures(Exchange::step, (x, cfg, e), r),
        r.0.phase is Publishing || r.0.phase is PublishingStream,
        r.1 is Send,
        cfg.surface == names::Surface::Flat,
        call_ensures(
            worker::Cfg::new,
            (bearer, base, served, runtime, region, worker_id),
            w,
        ),
        served@ == x.model@,
        x.model@.len() <= 64,
        forall|i: int| 0 <= i < x.model@.len() ==> is_model_char(#[trigger] x.model@[i]),
        call_ensures(worker::receive, (&w,), waiting),
    ensures
        r.1->request.url@ == cfg.base@ + "/queues/"@ + w.queue@ + "/messages"@,
        waiting.url@ == w.base@ + "/queues/"@ + w.queue@ + "/messages?wait=20"@,
{
    let next = crate::exchange::continuation(cfg@, x@, e@);
    assert(r.0@ == next.0 && r.1@ == next.1);
    assert(x.phase@ == x@.phase && r.0.phase@ == r.0@.phase);
    assert forall|i: int| 0 <= i < x.model@.len() implies (names::is_name_char(
        #[trigger] x.model@[i],
    ) || names::is_reserved(x.model@[i])) by {
        assert(is_model_char(x.model@[i]));
    }
    crate::naming_laws::law_router_and_worker_meet(x.model@);
    reveal_strlit("/messages?wait=20");
    reveal_strlit("/messages?wait=");
    reveal_with_fuel(crate::text::decimal_text, 3);
    assert("/messages?wait="@ + crate::text::decimal_text(20) =~= "/messages?wait=20"@);
    let head = w.base@ + "/queues/"@ + w.queue@;
    assert(head + "/messages?wait="@ + crate::text::decimal_text(20) =~= head + (
    "/messages?wait="@ + crate::text::decimal_text(20)));
}

/// An exchange that has sent a request waits for an answer or a failure, and one that reads an answer
/// for what the answer holds; one that has ended waits for nothing.
pub proof fn law_exchange_accepts(x: &Exchange, e: &Event, r: bool)
    requires
        call_ensures(Exchange::accepts, (x, e), r),
    ensures
        r <==> x@.awaits(e@),
        x.phase is ReadingSubscription ==> (r <==> e is Subscribed),
        x.phase is ReadingDelivery ==> (r <==> e is Delivered),
        x.phase is Ended ==> !r,
        !(x.phase is ReadingSubscription || x.phase is ReadingDelivery || x.phase is Ended) ==> (r
            <==> e is Replied || e is Failed),
{
    assert(x.phase@ == x@.phase);
}

} // verus!
