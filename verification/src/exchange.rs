//! The course of one request for inference through the router.
//!
//! The router performs one [`Action`] after the other and reports each outcome as an [`Event`];
//! [`Exchange::begin`] and [`Exchange::step`] decide what comes next.
use crate::names::{response_queue, work_queue};
use crate::outside::lossy_text;
use crate::presence::{Found, PresenceRecord};
use crate::queue::{take_first, Delivery, ReceiveResponse};
use crate::router::{
    ack, bad_json_reply, create_queue, create_subscription, delete_queue, new_corr_id, post_error,
    publish_error, publish_request, receive_error, receive_one, store_unavailable_reply,
    url_of_stream, Cfg,
};
use crate::web::{json, redirect, text, Request, Response};
use vstd::prelude::*;
use vstd::string::*;

verus! {

/// A request for inference.
#[derive(Debug)]
pub struct InferenceRequest {
    pub model: String,
    pub prompt: String,
    pub stream: bool,
}

/// Whether a request for inference streams; one that does not say so does not.
pub open spec fn streams(stream: Option<bool>) -> bool {
    match stream {
        Some(s) => s,
        None => false,
    }
}

/// A request for inference; one that does not say whether it is to stream does not.
pub fn inference_request(model: String, prompt: String, stream: Option<bool>) -> (r:
    InferenceRequest)
    ensures
        r.model == model,
        r.prompt == prompt,
        r.stream == streams(stream),
{
    let stream = match stream {
        Some(s) => s,
        None => false,
    };
    InferenceRequest { model, prompt, stream }
}

/// Takes in a request for inference as it was read, or why it could not be read. Where it could not,
/// the caller is answered at once.
pub fn admit_request(parsed: Result<InferenceRequest, String>) -> (r: Result<
    InferenceRequest,
    Response,
>)
    ensures
        match parsed {
            Ok(request) => r == Ok::<InferenceRequest, Response>(request),
            Err(e) => r is Err && r->Err_0@ == crate::web::text_response(
                400,
                "bad json: "@ + e@ + "\n"@,
            ),
        },
{
    match parsed {
        Ok(request) => Ok(request),
        Err(e) => Err(bad_json_reply(e.as_str())),
    }
}

/// Takes in the keys of the presence store, or why it could not be opened or listed. Where it could
/// not, the caller is answered at once.
pub fn admit_store(listed: Result<Vec<String>, String>) -> (r: Result<Vec<String>, Response>)
    ensures
        match listed {
            Ok(keys) => r == Ok::<Vec<String>, Response>(keys),
            Err(_) => r is Err && r->Err_0@ == crate::web::text_response(
                500,
                "presence-store-unavailable\n"@,
            ),
        },
{
    match listed {
        Ok(keys) => Ok(keys),
        Err(_) => Err(store_unavailable_reply()),
    }
}

/// How far an exchange has come: which outcome it awaits.
#[derive(Debug)]
pub enum Phase {
    /// The subscription of a streaming request is being created.
    Subscribing,
    /// The answer to that is being read.
    ReadingSubscription,
    /// The work of a streaming request is being published.
    PublishingStream { sub_id: String },
    /// The response queue is being created.
    CreatingQueue,
    /// The work is being published.
    Publishing,
    /// The response queue is being deleted after the work could not be published.
    Abandoning { error: String },
    /// The reply is awaited.
    Receiving,
    /// The answer to that is being read.
    ReadingDelivery,
    /// The reply is being acknowledged; it goes to the caller whatever comes of that.
    Acking { body: Vec<u8> },
    /// The response queue is being deleted.
    Deleting { reply: Response },
    /// The caller has been answered.
    Ended,
}

/// The phases over mathematical values.
pub enum PhaseView {
    Subscribing,
    ReadingSubscription,
    PublishingStream { sub_id: Seq<char> },
    CreatingQueue,
    Publishing,
    Abandoning { error: Seq<char> },
    Receiving,
    ReadingDelivery,
    Acking { body: Seq<u8> },
    Deleting { reply: crate::web::ResponseView },
    Ended,
}

impl View for Phase {
    type V = PhaseView;

    open spec fn view(&self) -> PhaseView {
        match self {
            Phase::Subscribing => PhaseView::Subscribing,
            Phase::ReadingSubscription => PhaseView::ReadingSubscription,
            Phase::PublishingStream { sub_id } => PhaseView::PublishingStream { sub_id: sub_id@ },
            Phase::CreatingQueue => PhaseView::CreatingQueue,
            Phase::Publishing => PhaseView::Publishing,
            Phase::Abandoning { error } => PhaseView::Abandoning { error: error@ },
            Phase::Receiving => PhaseView::Receiving,
            Phase::ReadingDelivery => PhaseView::ReadingDelivery,
            Phase::Acking { body } => PhaseView::Acking { body: body@ },
            Phase::Deleting { reply } => PhaseView::Deleting { reply: reply@ },
            Phase::Ended => PhaseView::Ended,
        }
    }
}

/// The outcome of an action.
#[derive(Debug)]
pub enum Event {
    /// The service answered a request. The detail is the body as text, for complaints.
    Replied { status: u16, body: Vec<u8>, detail: String },
    /// A request could not be sent or was not answered.
    Failed { error: String },
    /// What the answer to a new subscription holds: its id, where it could be read.
    Subscribed { id: Option<String> },
    /// What the answer to a receive holds: a message, none, or why it could not be read.
    Delivered { delivery: Result<Option<Delivery>, String> },
}

/// The outcomes over mathematical values.
pub enum EventView {
    Replied { status: u16, body: Seq<u8>, detail: Seq<char> },
    Failed { error: Seq<char> },
    Subscribed { id: Option<Seq<char>> },
    Delivered { delivery: Result<Option<crate::queue::DeliveryView>, Seq<char>> },
}

impl View for Event {
    type V = EventView;

    open spec fn view(&self) -> EventView {
        match self {
            Event::Replied { status, body, detail } => EventView::Replied {
                status: *status,
                body: body@,
                detail: detail@,
            },
            Event::Failed { error } => EventView::Failed { error: error@ },
            Event::Subscribed { id } => EventView::Subscribed { id: crate::web::opt_text(*id) },
            Event::Delivered { delivery } => EventView::Delivered {
                delivery: crate::queue::delivery_view(*delivery),
            },
        }
    }
}

/// What the router is to do next.
#[derive(Debug)]
pub enum Action {
    /// Send a request to the messaging service.
    Send { request: Request },
    /// Read the id of a new subscription from a JSON document.
    ReadSubscription { document: Vec<u8> },
    /// Read the answer to a receive from a JSON document.
    ReadDelivery { document: Vec<u8> },
    /// Answer the caller.
    Finish { response: Response },
    /// Give up with an error.
    Fail { error: String },
}

/// The actions over mathematical values.
pub enum ActionView {
    Send { request: crate::web::RequestView },
    ReadSubscription { document: Seq<u8> },
    ReadDelivery { document: Seq<u8> },
    Finish { response: crate::web::ResponseView },
    Fail { error: Seq<char> },
}

impl View for Action {
    type V = ActionView;

    open spec fn view(&self) -> ActionView {
        match self {
            Action::Send { request } => ActionView::Send { request: request@ },
            Action::ReadSubscription { document } => ActionView::ReadSubscription {
                document: document@,
            },
            Action::ReadDelivery { document } => ActionView::ReadDelivery { document: document@ },
            Action::Finish { response } => ActionView::Finish { response: response@ },
            Action::Fail { error } => ActionView::Fail { error: error@ },
        }
    }
}

/// One request for inference on its way.
#[derive(Debug)]
pub struct Exchange {
    pub corr_id: String,
    pub model: String,
    pub prompt: String,
    pub phase: Phase,
}

/// One request for inference over mathematical values.
pub struct ExchangeView {
    pub corr_id: Seq<char>,
    pub model: Seq<char>,
    pub prompt: Seq<char>,
    pub phase: PhaseView,
}

impl View for Exchange {
    type V = ExchangeView;

    open spec fn view(&self) -> ExchangeView {
        ExchangeView {
            corr_id: self.corr_id@,
            model: self.model@,
            prompt: self.prompt@,
            phase: self.phase@,
        }
    }
}

// ---------------------------------------------------------------------------
// The course of an exchange
// ---------------------------------------------------------------------------

/// The response queue of an exchange.
pub open spec fn reply_queue(cfg: crate::router::CfgView, x: ExchangeView) -> Seq<char> {
    crate::names::response_queue_name(cfg.surface, x.corr_id)
}

/// The queue of the workers for the model of an exchange.
pub open spec fn target_queue(cfg: crate::router::CfgView, x: ExchangeView) -> Seq<char> {
    crate::names::work_queue_name(cfg.surface, x.model)
}

/// The request for work of an exchange.
pub open spec fn work_request(
    cfg: crate::router::CfgView,
    x: ExchangeView,
    response_queue: Option<Seq<char>>,
) -> crate::web::RequestView {
    crate::router::send_request(
        cfg,
        target_queue(cfg, x),
        crate::router::work_document(x.corr_id, x.model, x.prompt, response_queue),
    )
}

impl ExchangeView {
    /// The exchange in another phase.
    pub open spec fn at(self, phase: PhaseView) -> ExchangeView {
        ExchangeView { phase, ..self }
    }

    /// The exchange ends with an answer to the caller.
    pub open spec fn finish(self, response: crate::web::ResponseView) -> (ExchangeView, ActionView) {
        (self.at(PhaseView::Ended), ActionView::Finish { response })
    }

    /// The exchange ends with an error.
    pub open spec fn fail(self, error: Seq<char>) -> (ExchangeView, ActionView) {
        (self.at(PhaseView::Ended), ActionView::Fail { error })
    }

    /// The next request is sent.
    pub open spec fn send(
        self,
        phase: PhaseView,
        request: crate::web::RequestView,
    ) -> (ExchangeView, ActionView) {
        (self.at(phase), ActionView::Send { request })
    }

    /// The reply to the caller is settled; where the router cleans up, the response queue goes first.
    pub open spec fn settle(
        self,
        cfg: crate::router::CfgView,
        reply: crate::web::ResponseView,
    ) -> (ExchangeView, ActionView) {
        if cfg.cleanup {
            self.send(
                PhaseView::Deleting { reply },
                crate::router::delete_queue_request(cfg, reply_queue(cfg, self)),
            )
        } else {
            self.finish(reply)
        }
    }

    /// The work could not be published; where the router cleans up, the response queue goes first.
    pub open spec fn abandon(
        self,
        cfg: crate::router::CfgView,
        error: Seq<char>,
    ) -> (ExchangeView, ActionView) {
        if cfg.cleanup {
            self.send(
                PhaseView::Abandoning { error },
                crate::router::delete_queue_request(cfg, reply_queue(cfg, self)),
            )
        } else {
            self.fail(error)
        }
    }

    /// Whether an event is the outcome of what the exchange is doing.
    pub open spec fn awaits(self, e: EventView) -> bool {
        match self.phase {
            PhaseView::ReadingSubscription => e is Subscribed,
            PhaseView::ReadingDelivery => e is Delivered,
            PhaseView::Ended => false,
            _ => e is Replied || e is Failed,
        }
    }
}

/// The reply where the subscription could not be created.
pub open spec fn subscription_refused(error: Seq<char>) -> crate::web::ResponseView {
    crate::web::text_response(502, "substrate-error: "@ + error + "\n"@)
}

/// The reply where waiting for the worker's reply failed.
pub open spec fn receive_failed(error: Seq<char>) -> crate::web::ResponseView {
    crate::web::text_response(504, "substrate error: "@ + error + "\n"@)
}

/// The reply where no worker replied in time.
pub open spec fn no_reply() -> crate::web::ResponseView {
    crate::web::text_response(504, "worker did not respond in time\n"@)
}

/// How an exchange begins. Without a worker it ends at once; otherwise a streaming request gets its
/// subscription first and any other its response queue.
pub open spec fn beginning(
    cfg: crate::router::CfgView,
    corr_id: Seq<char>,
    model: Seq<char>,
    prompt: Seq<char>,
    stream: bool,
    worker: bool,
) -> (ExchangeView, ActionView) {
    let x = ExchangeView { corr_id, model, prompt, phase: PhaseView::Ended };
    if !worker {
        x.finish(crate::web::text_response(503, "no-workers\n"@))
    } else if stream {
        x.send(
            PhaseView::Subscribing,
            crate::router::create_subscription_request(cfg, corr_id),
        )
    } else {
        x.send(
            PhaseView::CreatingQueue,
            crate::router::create_queue_request(cfg, reply_queue(cfg, x)),
        )
    }
}

/// How an exchange goes on after an outcome that it awaits.
pub open spec fn continuation(
    cfg: crate::router::CfgView,
    x: ExchangeView,
    e: EventView,
) -> (ExchangeView, ActionView) {
    match (x.phase, e) {
        (PhaseView::Subscribing, EventView::Failed { error }) => x.finish(
            subscription_refused(error),
        ),
        (PhaseView::Subscribing, EventView::Replied { status, body, detail }) => if status >= 300 {
            x.finish(
                subscription_refused(
                    crate::router::post_error_text(
                        cfg.base + "/subscriptions"@,
                        status,
                        detail,
                    ),
                ),
            )
        } else {
            (x.at(PhaseView::ReadingSubscription), ActionView::ReadSubscription { document: body })
        },
        (PhaseView::ReadingSubscription, EventView::Subscribed { id: None }) => x.finish(
            subscription_refused("subscription create response"@),
        ),
        (PhaseView::ReadingSubscription, EventView::Subscribed { id: Some(sub_id) }) => x.send(
            PhaseView::PublishingStream { sub_id },
            work_request(cfg, x, None),
        ),
        (PhaseView::PublishingStream { sub_id }, EventView::Failed { error }) => x.fail(error),
        (PhaseView::PublishingStream { sub_id }, EventView::Replied { status, body, detail }) => if status
            >= 300 {
            x.fail(crate::router::publish_error_text(target_queue(cfg, x), status, detail))
        } else {
            x.finish(crate::web::redirect_response(crate::router::stream_url(cfg, sub_id)))
        },
        (PhaseView::CreatingQueue, EventView::Failed { error }) => x.fail(error),
        (PhaseView::CreatingQueue, EventView::Replied { status, body, detail }) => if status
            >= 300 {
            x.fail(crate::router::post_error_text(cfg.base + "/queues"@, status, detail))
        } else {
            x.send(PhaseView::Publishing, work_request(cfg, x, Some(reply_queue(cfg, x))))
        },
        (PhaseView::Publishing, EventView::Failed { error }) => x.abandon(cfg, error),
        (PhaseView::Publishing, EventView::Replied { status, body, detail }) => if status >= 300 {
            x.abandon(
                cfg,
                crate::router::publish_error_text(target_queue(cfg, x), status, detail),
            )
        } else {
            x.send(
                PhaseView::Receiving,
                crate::router::receive_request(cfg, reply_queue(cfg, x), cfg.reqres_poll_secs),
            )
        },
        (PhaseView::Abandoning { error }, _) => x.fail(error),
        (PhaseView::Receiving, EventView::Failed { error }) => x.settle(cfg, receive_failed(error)),
        (PhaseView::Receiving, EventView::Replied { status, body, detail }) => if status == 204
            || body.len() == 0 {
            x.settle(cfg, no_reply())
        } else if status >= 300 {
            x.settle(
                cfg,
                receive_failed(
                    crate::router::receive_error_text(reply_queue(cfg, x), status, detail),
                ),
            )
        } else {
            (x.at(PhaseView::ReadingDelivery), ActionView::ReadDelivery { document: body })
        },
        (PhaseView::ReadingDelivery, EventView::Delivered { delivery: Err(error) }) => x.settle(
            cfg,
            receive_failed(error),
        ),
        (PhaseView::ReadingDelivery, EventView::Delivered { delivery: Ok(None) }) => x.settle(
            cfg,
            no_reply(),
        ),
        (PhaseView::ReadingDelivery, EventView::Delivered { delivery: Ok(Some(d)) }) => if cfg.cleanup {
            x.send(
                PhaseView::Acking { body: d.body },
                crate::router::ack_request(cfg, reply_queue(cfg, x), d.ack_token),
            )
        } else {
            x.settle(cfg, crate::web::json_response(d.body))
        },
        (PhaseView::Acking { body }, _) => x.settle(cfg, crate::web::json_response(body)),
        (PhaseView::Deleting { reply }, _) => x.finish(reply),
        _ => (x, ActionView::Fail { error: Seq::empty() }),
    }
}

/// The outcome of a request that the service answered.
pub fn replied(status: u16, body: Vec<u8>) -> (r: Event)
    ensures
        r@ == (EventView::Replied {
            status,
            body: body@,
            detail: crate::outside::utf8_lossy(body@),
        }),
        vstd::utf8::valid_utf8(body@) ==> r@->detail == vstd::utf8::decode_utf8(body@),
{
    let detail = lossy_text(body.as_slice());
    Event::Replied { status, body, detail }
}

/// What an answer to a receive holds where it describes one message.
pub open spec fn single_delivery(message: Option<crate::queue::DeliveryView>) -> Result<
    Option<crate::queue::DeliveryView>,
    Seq<char>,
> {
    match message {
        Some(d) => Ok(Some(d)),
        None => Err("queue receive response shape"@),
    }
}

/// The outcome of reading an answer that describes one message; none where it could not be read.
pub fn delivered_one(message: Option<Delivery>) -> (r: Event)
    ensures
        r@ == (EventView::Delivered {
            delivery: single_delivery(
                match message {
                    Some(d) => Some(d@),
                    None => None,
                },
            ),
        }),
{
    match message {
        Some(d) => Event::Delivered { delivery: Ok(Some(d)) },
        None => Event::Delivered { delivery: Err("queue receive response shape".to_string()) },
    }
}

/// The outcome of reading an answer that describes a batch of messages, of which the first counts;
/// none where it could not be read.
pub fn delivered_batch(answer: Option<ReceiveResponse>) -> (r: Event)
    ensures
        r@ == (EventView::Delivered {
            delivery: match answer {
                Some(a) => crate::queue::first_delivery(a),
                None => Err("queue receive response shape"@),
            },
        }),
{
    match answer {
        Some(a) => Event::Delivered { delivery: take_first(a) },
        None => Event::Delivered { delivery: Err("queue receive response shape".to_string()) },
    }
}

impl Exchange {
    /// Starts an exchange; `picked` is the worker that could be picked for the model, if any.
    pub fn begin(
        cfg: &Cfg,
        corr_id: String,
        request: InferenceRequest,
        picked: &Option<PresenceRecord>,
    ) -> (r: (Exchange, Action))
        ensures
            (r.0@, r.1@) == beginning(
                cfg@,
                corr_id@,
                request.model@,
                request.prompt@,
                request.stream,
                *picked is Some,
            ),
    {
        let InferenceRequest { model, prompt, stream } = request;
        if picked.is_none() {
            let x = Exchange { corr_id, model, prompt, phase: Phase::Ended };
            return (x, Action::Finish { response: text(503, "no-workers\n") });
        }
        if stream {
            let request = create_subscription(cfg, corr_id.as_str());
            let x = Exchange { corr_id, model, prompt, phase: Phase::Subscribing };
            (x, Action::Send { request })
        } else {
            let queue = response_queue(cfg.surface, corr_id.as_str());
            let request = create_queue(cfg, queue.as_str());
            let x = Exchange { corr_id, model, prompt, phase: Phase::CreatingQueue };
            (x, Action::Send { request })
        }
    }

    /// Whether an event is the outcome of what the exchange is doing.
    pub fn accepts(&self, event: &Event) -> (r: bool)
        ensures
            r == self@.awaits(event@),
    {
        match self.phase {
            Phase::ReadingSubscription => match event {
                Event::Subscribed { .. } => true,
                _ => false,
            },
            Phase::ReadingDelivery => match event {
                Event::Delivered { .. } => true,
                _ => false,
            },
            Phase::Ended => false,
            _ => match event {
                Event::Replied { .. } | Event::Failed { .. } => true,
                _ => false,
            },
        }
    }

    fn at(self, phase: Phase) -> (r: Exchange)
        ensures
            r@ == self@.at(phase@),
    {
        Exchange { phase, ..self }
    }

    fn finish(self, response: Response) -> (r: (Exchange, Action))
        ensures
            (r.0@, r.1@) == self@.finish(response@),
    {
        (self.at(Phase::Ended), Action::Finish { response })
    }

    fn fail(self, error: String) -> (r: (Exchange, Action))
        ensures
            (r.0@, r.1@) == self@.fail(error@),
    {
        (self.at(Phase::Ended), Action::Fail { error })
    }

    fn send(self, phase: Phase, request: Request) -> (r: (Exchange, Action))
        ensures
            (r.0@, r.1@) == self@.send(phase@, request@),
    {
        (self.at(phase), Action::Send { request })
    }

    fn reply_queue(&self, cfg: &Cfg) -> (r: String)
        ensures
            r@ == reply_queue(cfg@, self@),
    {
        response_queue(cfg.surface, self.corr_id.as_str())
    }

    fn target_queue(&self, cfg: &Cfg) -> (r: String)
        ensures
            r@ == target_queue(cfg@, self@),
    {
        work_queue(cfg.surface, self.model.as_str())
    }

    fn work_request(&self, cfg: &Cfg, response_queue: Option<&str>) -> (r: Request)
        ensures
            r@ == work_request(cfg@, self@, crate::web::opt_str(response_queue)),
    {
        publish_request(
            cfg,
            self.target_queue(cfg).as_str(),
            self.corr_id.as_str(),
            self.model.as_str(),
            self.prompt.as_str(),
            response_queue,
        )
    }

    fn settle(self, cfg: &Cfg, reply: Response) -> (r: (Exchange, Action))
        ensures
            (r.0@, r.1@) == self@.settle(cfg@, reply@),
    {
        if cfg.cleanup {
            let request = delete_queue(cfg, self.reply_queue(cfg).as_str());
            self.send(Phase::Deleting { reply }, request)
        } else {
            self.finish(reply)
        }
    }

    fn abandon(self, cfg: &Cfg, error: String) -> (r: (Exchange, Action))
        ensures
            (r.0@, r.1@) == self@.abandon(cfg@, error@),
    {
        if cfg.cleanup {
            let request = delete_queue(cfg, self.reply_queue(cfg).as_str());
            self.send(Phase::Abandoning { error }, request)
        } else {
            self.fail(error)
        }
    }

    /// Takes the outcome of the last action and decides the next.
    pub fn step(self, cfg: &Cfg, event: Event) -> (r: (Exchange, Action))
        requires
            self@.awaits(event@),
        ensures
            (r.0@, r.1@) == continuation(cfg@, self@, event@),
    {
        let Exchange { corr_id, model, prompt, phase } = self;
        let x = Exchange { corr_id, model, prompt, phase: Phase::Ended };
        assert(forall|p: PhaseView| #[trigger] x@.at(p) == self@.at(p));
        match (phase, event) {
            (Phase::Subscribing, Event::Failed { error }) => x.finish(subscription_error(error)),
            (Phase::Subscribing, Event::Replied { status, body, detail }) => {
                if status >= 300 {
                    let url = cfg.base.clone().concat("/subscriptions");
                    x.finish(
                        subscription_error(post_error(url.as_str(), status, detail.as_str())),
                    )
                } else {
                    (
                        x.at(Phase::ReadingSubscription),
                        Action::ReadSubscription { document: body },
                    )
                }
            },
            (Phase::ReadingSubscription, Event::Subscribed { id }) => match id {
                None => x.finish(subscription_error("subscription create response".to_string())),
                Some(sub_id) => {
                    let request = x.work_request(cfg, None);
                    x.send(Phase::PublishingStream { sub_id }, request)
                },
            },
            (Phase::PublishingStream { .. }, Event::Failed { error }) => x.fail(error),
            (Phase::PublishingStream { sub_id }, Event::Replied { status, body: _, detail }) => {
                if status >= 300 {
                    let queue = x.target_queue(cfg);
                    x.fail(publish_error(queue.as_str(), status, detail.as_str()))
                } else {
                    x.finish(redirect(url_of_stream(cfg, sub_id.as_str())))
                }
            },
            (Phase::CreatingQueue, Event::Failed { error }) => x.fail(error),
            (Phase::CreatingQueue, Event::Replied { status, body: _, detail }) => {
                if status >= 300 {
                    let url = cfg.base.clone().concat("/queues");
                    x.fail(post_error(url.as_str(), status, detail.as_str()))
                } else {
                    let queue = x.reply_queue(cfg);
                    let request = x.work_request(cfg, Some(queue.as_str()));
                    x.send(Phase::Publishing, request)
                }
            },
            (Phase::Publishing, Event::Failed { error }) => x.abandon(cfg, error),
            (Phase::Publishing, Event::Replied { status, body: _, detail }) => {
                if status >= 300 {
                    let queue = x.target_queue(cfg);
                    x.abandon(cfg, publish_error(queue.as_str(), status, detail.as_str()))
                } else {
                    let queue = x.reply_queue(cfg);
                    let request = receive_one(cfg, queue.as_str(), cfg.reqres_poll_secs);
                    x.send(Phase::Receiving, request)
                }
            },
            (Phase::Abandoning { error }, _) => x.fail(error),
            (Phase::Receiving, Event::Failed { error }) => x.settle(cfg, receive_failure(error)),
            (Phase::Receiving, Event::Replied { status, body, detail }) => {
                if status == 204 || body.len() == 0 {
                    x.settle(cfg, text(504, "worker did not respond in time\n"))
                } else if status >= 300 {
                    let queue = x.reply_queue(cfg);
                    let error = receive_error(queue.as_str(), status, detail.as_str());
                    x.settle(cfg, receive_failure(error))
                } else {
                    (x.at(Phase::ReadingDelivery), Action::ReadDelivery { document: body })
                }
            },
            (Phase::ReadingDelivery, Event::Delivered { delivery }) => match delivery {
                Err(error) => x.settle(cfg, receive_failure(error)),
                Ok(None) => x.settle(cfg, text(504, "worker did not respond in time\n")),
                Ok(Some(d)) => {
                    if cfg.cleanup {
                        let queue = x.reply_queue(cfg);
                        let request = ack(cfg, queue.as_str(), d.ack_token.as_str());
                        x.send(Phase::Acking { body: d.body }, request)
                    } else {
                        x.settle(cfg, json(d.body))
                    }
                },
            },
            (Phase::Acking { body }, _) => x.settle(cfg, json(body)),
            (Phase::Deleting { reply }, _) => x.finish(reply),
            (_, _) => x.fail(String::new()),
        }
    }
}

/// How an exchange opens after the search for a worker. Where a record could not be read, the router
/// gives up with that error and asks nothing of the messaging service.
pub open spec fn opening(
    cfg: crate::router::CfgView,
    corr_id: Seq<char>,
    model: Seq<char>,
    prompt: Seq<char>,
    stream: bool,
    found: Result<bool, Seq<char>>,
) -> (ExchangeView, ActionView) {
    match found {
        Ok(worker) => beginning(cfg, corr_id, model, prompt, stream, worker),
        Err(error) => ExchangeView { corr_id, model, prompt, phase: PhaseView::Ended }.fail(error),
    }
}

/// Starts an exchange under a correlation id of its own, from a UUID drawn at random. `found` is what
/// the search for a worker came to.
pub fn handle_inference(cfg: &Cfg, request: InferenceRequest, found: Found) -> (r: (
    Exchange,
    Action,
))
    ensures
        crate::router::is_corr_id(r.0@.corr_id),
        crate::router::is_drawn_corr_id(r.0@.corr_id),
        (r.0@, r.1@) == opening(
            cfg@,
            r.0@.corr_id,
            request.model@,
            request.prompt@,
            request.stream,
            match found {
                Ok(picked) => Ok(picked is Some),
                Err(e) => Err(e@),
            },
        ),
{
    let corr_id = new_corr_id();
    match found {
        Ok(picked) => Exchange::begin(cfg, corr_id, request, &picked),
        Err(error) => {
            let InferenceRequest { model, prompt, stream: _ } = request;
            Exchange { corr_id, model, prompt, phase: Phase::Ended }.fail(error)
        },
    }
}

fn subscription_error(error: String) -> (r: Response)
    ensures
        r@ == subscription_refused(error@),
{
    text(502, "substrate-error: ".to_string().concat(error.as_str()).concat("\n").as_str())
}

fn receive_failure(error: String) -> (r: Response)
    ensures
        r@ == receive_failed(error@),
{
    text(504, "substrate error: ".to_string().concat(error.as_str()).concat("\n").as_str())
}

} // verus!
