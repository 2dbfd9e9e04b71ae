//! What holds of every exchange, whatever the messaging service answers.
use crate::exchange;
use vstd::prelude::*;

verus! {

/// The exchange after a series of outcomes.
pub open spec fn after(
    cfg: crate::router::CfgView,
    x: exchange::ExchangeView,
    events: Seq<exchange::EventView>,
) -> exchange::ExchangeView
    decreases events.len(),
{
    if events.len() == 0 {
        x
    } else {
        after(cfg, exchange::continuation(cfg, x, events[0]).0, events.skip(1))
    }
}

/// Whether each of a series of outcomes is one that the exchange awaits when it comes.
pub open spec fn runs(
    cfg: crate::router::CfgView,
    x: exchange::ExchangeView,
    events: Seq<exchange::EventView>,
) -> bool
    decreases events.len(),
{
    events.len() > 0 ==> {
        &&& x.awaits(events[0])
        &&& runs(cfg, exchange::continuation(cfg, x, events[0]).0, events.skip(1))
    }
}

/// The last action that a series of outcomes leads to; `first` where the series is empty.
pub open spec fn last_action(
    cfg: crate::router::CfgView,
    x: exchange::ExchangeView,
    first: exchange::ActionView,
    events: Seq<exchange::EventView>,
) -> exchange::ActionView
    decreases events.len(),
{
    if events.len() == 0 {
        first
    } else {
        let next = exchange::continuation(cfg, x, events[0]);
        last_action(cfg, next.0, next.1, events.skip(1))
    }
}

/// The request that an action sends, if any.
pub open spec fn request_of(a: exchange::ActionView) -> Seq<crate::web::RequestView> {
    match a {
        exchange::ActionView::Send { request } => seq![request],
        _ => Seq::empty(),
    }
}

/// The requests that are sent in the course of a series of outcomes, in order.
pub open spec fn sent(
    cfg: crate::router::CfgView,
    x: exchange::ExchangeView,
    events: Seq<exchange::EventView>,
) -> Seq<crate::web::RequestView>
    decreases events.len(),
{
    if events.len() == 0 {
        Seq::empty()
    } else {
        let next = exchange::continuation(cfg, x, events[0]);
        request_of(next.1) + sent(cfg, next.0, events.skip(1))
    }
}

/// How many outcomes an exchange can still await.
pub open spec fn remaining(phase: exchange::PhaseView) -> nat {
    match phase {
        exchange::PhaseView::CreatingQueue => 6,
        exchange::PhaseView::Publishing => 5,
        exchange::PhaseView::Receiving => 4,
        exchange::PhaseView::Subscribing => 3,
        exchange::PhaseView::ReadingDelivery => 3,
        exchange::PhaseView::ReadingSubscription => 2,
        exchange::PhaseView::Acking { body } => 2,
        exchange::PhaseView::PublishingStream { sub_id } => 1,
        exchange::PhaseView::Abandoning { error } => 1,
        exchange::PhaseView::Deleting { reply } => 1,
        exchange::PhaseView::Ended => 0,
    }
}

/// Every exchange comes to an end: each outcome brings it nearer, and it has ended exactly when the
/// caller is answered or the router gives up.
pub proof fn law_exchange_ends(
    cfg: crate::router::CfgView,
    x: exchange::ExchangeView,
    events: Seq<exchange::EventView>,
    first: exchange::ActionView,
)
    requires
        runs(cfg, x, events),
        x.phase is Ended <==> (first is Finish || first is Fail),
    ensures
        remaining(after(cfg, x, events).phase) + events.len() <= remaining(x.phase),
        after(cfg, x, events).phase is Ended <==> (last_action(cfg, x, first, events) is Finish
            || last_action(cfg, x, first, events) is Fail),
    decreases events.len(),
{
    if events.len() > 0 {
        let next = exchange::continuation(cfg, x, events[0]);
        law_exchange_ends(cfg, next.0, events.skip(1), next.1);
    }
}

/// Without a worker the caller is refused at once and nothing is asked of the messaging service.
pub proof fn law_no_worker_no_traffic(
    cfg: crate::router::CfgView,
    corr_id: Seq<char>,
    model: Seq<char>,
    prompt: Seq<char>,
    stream: bool,
)
    ensures
        exchange::beginning(cfg, corr_id, model, prompt, stream, false).1
            == (exchange::ActionView::Finish {
            response: crate::web::text_response(503, "no-workers\n"@),
        }),
        exchange::beginning(cfg, corr_id, model, prompt, stream, false).0.phase is Ended,
{
}

/// Where the search for a worker fails, the router gives up at once with the error of the search, and
/// nothing is asked of the messaging service.
pub proof fn law_failed_search_no_traffic(
    cfg: crate::router::CfgView,
    corr_id: Seq<char>,
    model: Seq<char>,
    prompt: Seq<char>,
    stream: bool,
    error: Seq<char>,
)
    ensures
        exchange::opening(cfg, corr_id, model, prompt, stream, Err(error)).1
            == (exchange::ActionView::Fail { error }),
        exchange::opening(cfg, corr_id, model, prompt, stream, Err(error)).0.phase is Ended,
{
}

/// The work goes out only once the place for its results has been granted: the response queue was
/// created, or the subscription was and its id is known.
pub proof fn law_work_follows_provision(
    cfg: crate::router::CfgView,
    x: exchange::ExchangeView,
    e: exchange::EventView,
)
    requires
        x.awaits(e),
    ensures
        exchange::continuation(cfg, x, e).0.phase is Publishing ==> x.phase is CreatingQueue
            && e is Replied && e->Replied_status < 300,
        exchange::continuation(cfg, x, e).0.phase is PublishingStream ==> x.phase
            is ReadingSubscription && e is Subscribed && e->id is Some,
{
}

/// A streaming caller is redirected only after the subscription was created and then the work was
/// published, in this order and with nothing else; the redirect leads to that subscription.
pub proof fn law_stream_order(
    cfg: crate::router::CfgView,
    corr_id: Seq<char>,
    model: Seq<char>,
    prompt: Seq<char>,
    worker: bool,
    events: Seq<exchange::EventView>,
    response: crate::web::ResponseView,
)
    requires
        runs(cfg, exchange::beginning(cfg, corr_id, model, prompt, true, worker).0, events),
        ({
            let start = exchange::beginning(cfg, corr_id, model, prompt, true, worker);
            last_action(cfg, start.0, start.1, events) == (exchange::ActionView::Finish {
                response,
            })
        }),
        response.status == 302,
    ensures
        ({
            let start = exchange::beginning(cfg, corr_id, model, prompt, true, worker);
            request_of(start.1) + sent(cfg, start.0, events) == seq![
                crate::router::create_subscription_request(cfg, corr_id),
                exchange::work_request(cfg, start.0, None),
            ]
        }),
        events.len() == 3,
        events[0] is Replied && events[0]->Replied_status < 300,
        events[1] is Subscribed && events[1]->id is Some,
        events[2] is Replied && events[2]->Replied_status < 300,
        response == crate::web::redirect_response(
            crate::router::stream_url(cfg, events[1]->id->0),
        ),
{
    reveal_with_fuel(runs, 5);
    reveal_with_fuel(sent, 5);
    reveal_with_fuel(last_action, 5);
    let start = exchange::beginning(cfg, corr_id, model, prompt, true, worker);
    let x0 = start.0;
    if events.len() > 0 {
        let n1 = exchange::continuation(cfg, x0, events[0]);
        let r1 = events.skip(1);
        if r1.len() > 0 {
            let n2 = exchange::continuation(cfg, n1.0, r1[0]);
            let r2 = r1.skip(1);
            if r2.len() > 0 {
                let n3 = exchange::continuation(cfg, n2.0, r2[0]);
                let r3 = r2.skip(1);
                if r3.len() == 0 {
                    assert(sent(cfg, n3.0, r3) =~= Seq::empty());
                    assert(sent(cfg, n2.0, r2) =~= Seq::empty());
                    assert(sent(cfg, n1.0, r1) =~= seq![exchange::work_request(cfg, x0, None)]);
                    assert(sent(cfg, x0, events) =~= seq![exchange::work_request(cfg, x0, None)]);
                }
            }
        }
    }
    assert(request_of(start.1) + sent(cfg, x0, events) =~= seq![
        crate::router::create_subscription_request(cfg, corr_id),
        exchange::work_request(cfg, x0, None),
    ]);
}

/// Where the router cleans up, an exchange whose response queue exists ends, in every course that it
/// can take, with the deletion of that queue as its last request.
pub proof fn law_queue_is_deleted(
    cfg: crate::router::CfgView,
    x: exchange::ExchangeView,
    events: Seq<exchange::EventView>,
)
    requires
        cfg.cleanup,
        x.phase is Publishing || x.phase is Receiving || x.phase is ReadingDelivery || x.phase
            is Acking,
        runs(cfg, x, events),
        after(cfg, x, events).phase is Ended,
    ensures
        sent(cfg, x, events).len() > 0,
        sent(cfg, x, events).last() == crate::router::delete_queue_request(
            cfg,
            exchange::reply_queue(cfg, x),
        ),
    decreases events.len(),
{
    reveal_with_fuel(after, 3);
    reveal_with_fuel(runs, 3);
    reveal_with_fuel(sent, 3);
    if events.len() > 0 {
        let next = exchange::continuation(cfg, x, events[0]);
        let rest = events.skip(1);
        if next.0.phase is Deleting || next.0.phase is Abandoning {
            assert(rest.len() > 0);
            let end = exchange::continuation(cfg, next.0, rest[0]);
            if rest.skip(1).len() > 0 {
                assert(!end.0.awaits(rest.skip(1)[0]));
            }
            assert(sent(cfg, end.0, rest.skip(1)) =~= Seq::empty());
            assert(sent(cfg, next.0, rest) =~= Seq::empty());
            assert(sent(cfg, x, events) =~= request_of(next.1));
        } else {
            law_queue_is_deleted(cfg, next.0, rest);
        }
    }
}

/// Where clean-up is left to others, the router never deletes anything and acknowledges nothing: all
/// that it sends in the course of an exchange are its request for work and its wait for the reply.
pub proof fn law_cleanup_left_to_others(
    cfg: crate::router::CfgView,
    x: exchange::ExchangeView,
    events: Seq<exchange::EventView>,
)
    requires
        !cfg.cleanup,
        !(x.phase is Acking || x.phase is Deleting || x.phase is Abandoning),
        runs(cfg, x, events),
    ensures
        forall|i: int|
            0 <= i < sent(cfg, x, events).len() ==> {
                let request = #[trigger] sent(cfg, x, events)[i];
                ||| request == exchange::work_request(cfg, x, None)
                ||| request == exchange::work_request(
                    cfg,
                    x,
                    Some(exchange::reply_queue(cfg, x)),
                )
                ||| request == crate::router::receive_request(
                    cfg,
                    exchange::reply_queue(cfg, x),
                    cfg.reqres_poll_secs,
                )
            },
    decreases events.len(),
{
    if events.len() > 0 {
        let next = exchange::continuation(cfg, x, events[0]);
        law_cleanup_left_to_others(cfg, next.0, events.skip(1));
    }
}

/// Where subscriptions are created.
pub open spec fn subscriptions_url(base: Seq<char>) -> Seq<char> {
    base + "/subscriptions"@
}

/// What is below the queues is not where subscriptions are created.
proof fn lemma_not_subscriptions(base: Seq<char>, url: Seq<char>)
    requires
        (base + "/queues"@).is_prefix_of(url),
    ensures
        url != subscriptions_url(base),
{
    reveal_strlit("/queues");
    reveal_strlit("/subscriptions");
    let p = base + "/queues"@;
    let at = base.len() as int + 1;
    assert(p[at] == 'q');
    assert(url[at] == p[at]);
    assert(subscriptions_url(base)[at] == 's');
}

/// Whether an exchange is on the way of a request that does not stream.
spec fn not_streaming(phase: exchange::PhaseView) -> bool {
    match phase {
        exchange::PhaseView::Subscribing => false,
        exchange::PhaseView::ReadingSubscription => false,
        exchange::PhaseView::PublishingStream { .. } => false,
        exchange::PhaseView::Deleting { reply } => reply.status != 302,
        _ => true,
    }
}

/// Whether an action neither subscribes nor redirects.
spec fn plain_action(cfg: crate::router::CfgView, a: exchange::ActionView) -> bool {
    match a {
        exchange::ActionView::Send { request } => request.url != subscriptions_url(cfg.base),
        exchange::ActionView::Finish { response } => response.status != 302,
        _ => true,
    }
}

proof fn lemma_plain_step(
    cfg: crate::router::CfgView,
    x: exchange::ExchangeView,
    e: exchange::EventView,
)
    requires
        x.awaits(e),
        not_streaming(x.phase),
    ensures
        not_streaming(exchange::continuation(cfg, x, e).0.phase),
        plain_action(cfg, exchange::continuation(cfg, x, e).1),
{
    reveal_strlit("/queues");
    reveal_strlit("/queues/");
    let next = exchange::continuation(cfg, x, e);
    if let exchange::ActionView::Send { request } = next.1 {
        let queues = cfg.base + "/queues"@;
        assert("/queues/"@.take(7) =~= "/queues"@);
        assert(queues.is_prefix_of(request.url)) by {
            assert(queues =~= request.url.subrange(0, queues.len() as int));
        }
        lemma_not_subscriptions(cfg.base, request.url);
    }
}

proof fn lemma_plain_course(
    cfg: crate::router::CfgView,
    x: exchange::ExchangeView,
    first: exchange::ActionView,
    events: Seq<exchange::EventView>,
)
    requires
        runs(cfg, x, events),
        not_streaming(x.phase),
        plain_action(cfg, first),
    ensures
        forall|i: int|
            0 <= i < sent(cfg, x, events).len() ==> (#[trigger] sent(cfg, x, events)[i]).url
                != subscriptions_url(cfg.base),
        plain_action(cfg, last_action(cfg, x, first, events)),
    decreases events.len(),
{
    if events.len() > 0 {
        let next = exchange::continuation(cfg, x, events[0]);
        let rest = events.skip(1);
        lemma_plain_step(cfg, x, events[0]);
        lemma_plain_course(cfg, next.0, next.1, rest);
        let tail = sent(cfg, next.0, rest);
        assert forall|i: int| 0 <= i < sent(cfg, x, events).len() implies (#[trigger] sent(
            cfg,
            x,
            events,
        )[i]).url != subscriptions_url(cfg.base) by {
            let n = request_of(next.1).len() as int;
            if i >= n {
                assert(sent(cfg, x, events)[i] == tail[i - n]);
            }
        }
    }
}

/// A request that does not say whether it is to stream takes the same course as one that says it is
/// not: no subscription is created and the caller is not redirected.
pub proof fn law_no_stream_by_default(
    cfg: crate::router::CfgView,
    corr_id: Seq<char>,
    model: Seq<char>,
    prompt: Seq<char>,
    worker: bool,
    events: Seq<exchange::EventView>,
)
    requires
        runs(
            cfg,
            exchange::beginning(
                cfg,
                corr_id,
                model,
                prompt,
                exchange::streams(Some(false)),
                worker,
            ).0,
            events,
        ),
    ensures
        exchange::beginning(cfg, corr_id, model, prompt, exchange::streams(None), worker)
            == exchange::beginning(
            cfg,
            corr_id,
            model,
            prompt,
            exchange::streams(Some(false)),
            worker,
        ),
        ({
            let start = exchange::beginning(
                cfg,
                corr_id,
                model,
                prompt,
                exchange::streams(None),
                worker,
            );
            let requests = request_of(start.1) + sent(cfg, start.0, events);
            &&& forall|i: int|
                0 <= i < requests.len() ==> (#[trigger] requests[i]).url != subscriptions_url(
                    cfg.base,
                )
            &&& match last_action(cfg, start.0, start.1, events) {
                exchange::ActionView::Finish { response } => response.status != 302,
                _ => true,
            }
        }),
{
    let start = exchange::beginning(cfg, corr_id, model, prompt, false, worker);
    if let exchange::ActionView::Send { request } = start.1 {
        let queues = cfg.base + "/queues"@;
        assert(request.url =~= queues);
        assert(queues.is_prefix_of(queues)) by {
            assert(queues =~= queues.subrange(0, queues.len() as int));
        }
        lemma_not_subscriptions(cfg.base, request.url);
    }
    lemma_plain_course(cfg, start.0, start.1, events);
    let rest = sent(cfg, start.0, events);
    let requests = request_of(start.1) + rest;
    assert forall|i: int| 0 <= i < requests.len() implies (#[trigger] requests[i]).url
        != subscriptions_url(cfg.base) by {
        let n = request_of(start.1).len() as int;
        if i >= n {
            assert(requests[i] == rest[i - n]);
        }
    }
}

/// A caller who gets a 200 gets the body of a message that the response queue delivered, as it came.
pub proof fn law_reply_is_the_workers(
    cfg: crate::router::CfgView,
    corr_id: Seq<char>,
    model: Seq<char>,
    prompt: Seq<char>,
    stream: bool,
    worker: bool,
    events: Seq<exchange::EventView>,
    response: crate::web::ResponseView,
)
    requires
        runs(cfg, exchange::beginning(cfg, corr_id, model, prompt, stream, worker).0, events),
        ({
            let start = exchange::beginning(cfg, corr_id, model, prompt, stream, worker);
            last_action(cfg, start.0, start.1, events) == (exchange::ActionView::Finish {
                response,
            })
        }),
        response.status == 200,
    ensures
        exists|i: int|
            #![trigger events[i]]
            0 <= i < events.len() && delivers(events[i], response),
{
    let start = exchange::beginning(cfg, corr_id, model, prompt, stream, worker);
    lemma_reply_origin(cfg, start.0, start.1, events, response);
}

/// Whether an outcome is a message whose body a response hands on.
pub open spec fn delivers(e: exchange::EventView, response: crate::web::ResponseView) -> bool {
    match e {
        exchange::EventView::Delivered { delivery: Ok(Some(d)) } => response
            == crate::web::json_response(d.body),
        _ => false,
    }
}

/// Whether a response is already settled in a phase.
spec fn settled(phase: exchange::PhaseView, response: crate::web::ResponseView) -> bool {
    match phase {
        exchange::PhaseView::Acking { body } => response == crate::web::json_response(body),
        exchange::PhaseView::Deleting { reply } => response == reply,
        _ => false,
    }
}

proof fn lemma_reply_origin(
    cfg: crate::router::CfgView,
    x: exchange::ExchangeView,
    first: exchange::ActionView,
    events: Seq<exchange::EventView>,
    response: crate::web::ResponseView,
)
    requires
        runs(cfg, x, events),
        last_action(cfg, x, first, events) == (exchange::ActionView::Finish { response }),
        response.status == 200,
        x.phase is Ended <==> (first is Finish || first is Fail),
    ensures
        first == (exchange::ActionView::Finish { response }) || settled(x.phase, response) || (
        exists|i: int|
            #![trigger events[i]]
            0 <= i < events.len() && delivers(events[i], response)),
    decreases events.len(),
{
    if events.len() > 0 {
        let next = exchange::continuation(cfg, x, events[0]);
        let rest = events.skip(1);
        lemma_reply_origin(cfg, next.0, next.1, rest, response);
        if exists|i: int|
            #![trigger rest[i]]
            0 <= i < rest.len() && delivers(rest[i], response) {
            let i = choose|i: int|
                #![trigger rest[i]]
                0 <= i < rest.len() && delivers(rest[i], response);
            assert(events[i + 1] == rest[i]);
        } else {
            assert(events[0] == events[0]);
        }
    }
}

} // verus!
