//! What holds of every job, whatever the model runtime and the messaging service answer.
use crate::job;
use vstd::prelude::*;

verus! {

/// The job after a series of outcomes.
pub open spec fn after(
    cfg: crate::worker::CfgView,
    j: job::JobView,
    events: Seq<job::EventView>,
) -> job::JobView
    decreases events.len(),
{
    if events.len() == 0 {
        j
    } else {
        after(cfg, job::continuation(cfg, j, events[0]).0, events.skip(1))
    }
}

/// Whether each of a series of outcomes is one that the job awaits when it comes.
pub open spec fn runs(
    cfg: crate::worker::CfgView,
    j: job::JobView,
    events: Seq<job::EventView>,
) -> bool
    decreases events.len(),
{
    events.len() > 0 ==> {
        &&& j.awaits(events[0])
        &&& runs(cfg, job::continuation(cfg, j, events[0]).0, events.skip(1))
    }
}

/// The request that an action sends, if any.
pub open spec fn request_of(a: job::ActionView) -> Seq<crate::web::RequestView> {
    match a {
        job::ActionView::Send { request } => seq![request],
        _ => Seq::empty(),
    }
}

/// The requests that are sent in the course of a series of outcomes, in order.
pub open spec fn sent(
    cfg: crate::worker::CfgView,
    j: job::JobView,
    events: Seq<job::EventView>,
) -> Seq<crate::web::RequestView>
    decreases events.len(),
{
    if events.len() == 0 {
        Seq::empty()
    } else {
        let next = job::continuation(cfg, j, events[0]);
        request_of(next.1) + sent(cfg, next.0, events.skip(1))
    }
}

/// The line that an action reads, if any.
pub open spec fn line_of(a: job::ActionView) -> Seq<Seq<u8>> {
    match a {
        job::ActionView::Decode { line } => seq![line],
        _ => Seq::empty(),
    }
}

/// The lines of output that are read in the course of a series of outcomes, in order.
pub open spec fn lines_read(
    cfg: crate::worker::CfgView,
    j: job::JobView,
    events: Seq<job::EventView>,
) -> Seq<Seq<u8>>
    decreases events.len(),
{
    if events.len() == 0 {
        Seq::empty()
    } else {
        let next = job::continuation(cfg, j, events[0]);
        line_of(next.1) + lines_read(cfg, next.0, events.skip(1))
    }
}

/// The last action that a series of outcomes leads to; `first` where the series is empty.
pub open spec fn last_action(
    cfg: crate::worker::CfgView,
    j: job::JobView,
    first: job::ActionView,
    events: Seq<job::EventView>,
) -> job::ActionView
    decreases events.len(),
{
    if events.len() == 0 {
        first
    } else {
        let next = job::continuation(cfg, j, events[0]);
        last_action(cfg, next.0, next.1, events.skip(1))
    }
}

/// All the output that has come in, in one piece.
pub open spec fn stream(events: Seq<job::EventView>) -> Seq<u8>
    decreases events.len(),
{
    if events.len() == 0 {
        Seq::empty()
    } else {
        match events[0] {
            job::EventView::Chunk { bytes } => bytes + stream(events.skip(1)),
            _ => stream(events.skip(1)),
        }
    }
}

/// The token that an outcome brings, if any.
pub open spec fn token_of(e: job::EventView) -> Seq<Seq<char>> {
    match e {
        job::EventView::Decoded { chunk: Some(chunk) } => if chunk.response.len() > 0 {
            seq![chunk.response]
        } else {
            Seq::empty()
        },
        _ => Seq::empty(),
    }
}

/// The tokens that a series of outcomes brings, in order.
pub open spec fn tokens(events: Seq<job::EventView>) -> Seq<Seq<char>>
    decreases events.len(),
{
    if events.len() == 0 {
        Seq::empty()
    } else {
        token_of(events[0]) + tokens(events.skip(1))
    }
}

/// Texts one after the other.
pub open spec fn joined(texts: Seq<Seq<char>>) -> Seq<char>
    decreases texts.len(),
{
    if texts.len() == 0 {
        Seq::empty()
    } else {
        texts[0] + joined(texts.skip(1))
    }
}

/// The requests that publish a series of tokens.
pub open spec fn token_requests(
    cfg: crate::worker::CfgView,
    corr_id: Seq<char>,
    texts: Seq<Seq<char>>,
) -> Seq<crate::web::RequestView> {
    texts.map_values(|t: Seq<char>| crate::worker::token_request(cfg, corr_id, t))
}

/// The output of a job that is still generating.
pub open spec fn output_of(phase: job::PhaseView) -> Option<crate::generation::GenerationView> {
    match phase {
        job::PhaseView::Reading { output } => Some(output),
        job::PhaseView::Decoding { output } => Some(output),
        job::PhaseView::PublishingToken { output } => Some(output),
        _ => None,
    }
}

// ---------------------------------------------------------------------------
// Acknowledgement
// ---------------------------------------------------------------------------

/// A job that has come to its end has acknowledged its message, with its last request, whatever
/// happened before; until then it has deleted nothing.
pub proof fn law_acknowledged_last(
    cfg: crate::worker::CfgView,
    j: job::JobView,
    events: Seq<job::EventView>,
)
    requires
        !(j.phase is Acking) && !(j.phase is Ended),
        runs(cfg, j, events),
    ensures
        ({
            let requests = sent(cfg, j, events);
            let end = after(cfg, j, events).phase;
            if end is Acking || end is Ended {
                &&& requests.len() > 0
                &&& requests.last() == crate::worker::ack_request(cfg, j.ack_token)
                &&& forall|i: int|
                    0 <= i < requests.len() - 1 ==> (#[trigger] requests[i]).method
                        == crate::web::Method::Post
            } else {
                forall|i: int|
                    0 <= i < requests.len() ==> (#[trigger] requests[i]).method
                        == crate::web::Method::Post
            }
        }),
    decreases events.len(),
{
    if events.len() > 0 {
        let next = job::continuation(cfg, j, events[0]);
        let rest = events.skip(1);
        if next.0.phase is Acking {
            lemma_nothing_after_ack(cfg, next.0, rest);
            assert(sent(cfg, j, events) =~= request_of(next.1));
        } else {
            law_acknowledged_last(cfg, next.0, rest);
            let tail = sent(cfg, next.0, rest);
            let requests = sent(cfg, j, events);
            assert(forall|i: int|
                0 <= i < request_of(next.1).len() ==> (#[trigger] request_of(next.1)[i]).method
                    == crate::web::Method::Post);
            assert forall|i: int|
                request_of(next.1).len() <= i < requests.len() implies #[trigger] requests[i]
                == tail[i - request_of(next.1).len()] by {}
        }
    }
}

proof fn lemma_nothing_after_ack(
    cfg: crate::worker::CfgView,
    j: job::JobView,
    events: Seq<job::EventView>,
)
    requires
        j.phase is Acking || j.phase is Ended,
        runs(cfg, j, events),
    ensures
        sent(cfg, j, events) == Seq::<crate::web::RequestView>::empty(),
        after(cfg, j, events).phase is Acking || after(cfg, j, events).phase is Ended,
    decreases events.len(),
{
    if events.len() > 0 {
        lemma_nothing_after_ack(cfg, job::continuation(cfg, j, events[0]).0, events.skip(1));
    }
}

// ---------------------------------------------------------------------------
// Output
// ---------------------------------------------------------------------------

proof fn lemma_generating_is_over(
    cfg: crate::worker::CfgView,
    j: job::JobView,
    events: Seq<job::EventView>,
)
    requires
        output_of(j.phase) is None,
        !(j.phase is Asking),
        runs(cfg, j, events),
    ensures
        output_of(after(cfg, j, events).phase) is None,
    decreases events.len(),
{
    if events.len() > 0 {
        lemma_generating_is_over(cfg, job::continuation(cfg, j, events[0]).0, events.skip(1));
    }
}

proof fn lemma_token_requests_parts(
    cfg: crate::worker::CfgView,
    corr_id: Seq<char>,
    a: Seq<Seq<char>>,
    b: Seq<Seq<char>>,
)
    ensures
        token_requests(cfg, corr_id, a + b) == token_requests(cfg, corr_id, a) + token_requests(
            cfg,
            corr_id,
            b,
        ),
{
    assert(token_requests(cfg, corr_id, a + b) =~= token_requests(cfg, corr_id, a)
        + token_requests(cfg, corr_id, b));
}

/// A token in front of others comes first in their text.
proof fn lemma_joined_front(t: Seq<Seq<char>>, rest: Seq<Seq<char>>)
    requires
        t.len() <= 1,
    ensures
        joined(t + rest) == joined(t) + joined(rest),
        t.len() == 0 ==> joined(t) == Seq::<char>::empty(),
        t.len() == 1 ==> joined(t) == t[0],
{
    if t.len() == 0 {
        assert(t + rest =~= rest);
        assert(joined(t) + joined(rest) =~= joined(rest));
    } else {
        assert((t + rest).skip(1) =~= rest);
        assert(t.skip(1) =~= Seq::empty());
        assert(joined(t.skip(1)) =~= Seq::empty());
        assert(joined(t) =~= t[0]);
    }
}

/// The output that an outcome brings in, if any.
pub open spec fn bytes_in(e: job::EventView) -> Seq<u8> {
    match e {
        job::EventView::Chunk { bytes } => bytes,
        _ => Seq::empty(),
    }
}

/// Whether the beginning of a line that output ends with is no line itself.
spec fn open_tail(g: crate::generation::GenerationView) -> bool {
    crate::generation::lines(g.tail) == Seq::<Seq<u8>>::empty() && crate::generation::tail(g.tail)
        == g.tail
}

/// How output goes on by one outcome.
spec fn output_follows(
    cfg: crate::worker::CfgView,
    corr_id: Seq<char>,
    g0: crate::generation::GenerationView,
    e: job::EventView,
    action: job::ActionView,
    g: crate::generation::GenerationView,
) -> bool {
    &&& open_tail(g)
    &&& request_of(action) == token_requests(cfg, corr_id, token_of(e))
    &&& g.text == g0.text + joined(token_of(e))
    &&& g.tokens == g0.tokens + token_of(e).len()
    &&& line_of(action) + g.pending == g0.pending + crate::generation::filled(
        crate::generation::lines(g0.tail + bytes_in(e)),
    )
    &&& g.tail == crate::generation::tail(g0.tail + bytes_in(e))
}

/// One step of a job that is generating and goes on generating.
proof fn lemma_output_step(cfg: crate::worker::CfgView, j: job::JobView, e: job::EventView)
    requires
        output_of(j.phase) is Some,
        open_tail(output_of(j.phase)->0),
        j.awaits(e),
    ensures
        ({
            let next = job::continuation(cfg, j, e);
            output_of(next.0.phase) is Some ==> output_follows(
                cfg,
                j.item.corr_id,
                output_of(j.phase)->0,
                e,
                next.1,
                output_of(next.0.phase)->0,
            )
        }),
{
    let g0 = output_of(j.phase)->0;
    let next = job::continuation(cfg, j, e);
    if output_of(next.0.phase) is Some {
        let g = output_of(next.0.phase)->0;
        let t = token_of(e);
        let none = Seq::<Seq<u8>>::empty();
        lemma_joined_front(t, Seq::empty());
        if t.len() == 0 {
            assert(g0.text + joined(t) =~= g0.text);
            assert(token_requests(cfg, j.item.corr_id, t) =~= Seq::empty());
        } else {
            assert(token_requests(cfg, j.item.corr_id, t) =~= seq![
                crate::worker::token_request(cfg, j.item.corr_id, t[0]),
            ]);
        }
        if e is Chunk {
            let fed = g0.fed(bytes_in(e));
            crate::generation::lemma_tail_has_no_lines(g0.tail + bytes_in(e));
            assert(seq![fed.pending[0]] + fed.pending.skip(1) =~= fed.pending || fed.pending.len()
                == 0);
            assert(none + fed.pending =~= fed.pending);
        } else {
            assert(g0.tail + bytes_in(e) =~= g0.tail);
            assert(crate::generation::filled(none) =~= none) by {
                reveal(Seq::filter);
            }
            assert(g0.pending + none =~= g0.pending);
            assert(seq![g0.pending[0]] + g0.pending.skip(1) =~= g0.pending || g0.pending.len()
                == 0);
            assert(none + g0.pending =~= g0.pending);
        }
    }
}

/// A job that generates all the while.
proof fn lemma_generating(
    cfg: crate::worker::CfgView,
    j: job::JobView,
    events: Seq<job::EventView>,
)
    requires
        output_of(j.phase) is Some,
        open_tail(output_of(j.phase)->0),
        runs(cfg, j, events),
        output_of(after(cfg, j, events).phase) is Some,
    ensures
        ({
            let g0 = output_of(j.phase)->0;
            let g = output_of(after(cfg, j, events).phase)->0;
            &&& sent(cfg, j, events) == token_requests(cfg, j.item.corr_id, tokens(events))
            &&& g.text == g0.text + joined(tokens(events))
            &&& g.tokens == g0.tokens + tokens(events).len()
            &&& lines_read(cfg, j, events) + g.pending == g0.pending + crate::generation::filled(
                crate::generation::lines(g0.tail + stream(events)),
            )
            &&& g.tail == crate::generation::tail(g0.tail + stream(events))
        }),
    decreases events.len(),
{
    let g0 = output_of(j.phase)->0;
    let none = Seq::<Seq<u8>>::empty();
    if events.len() == 0 {
        assert(token_requests(cfg, j.item.corr_id, tokens(events)) =~= Seq::empty());
        assert(g0.text + joined(tokens(events)) =~= g0.text);
        assert(g0.tail + stream(events) =~= g0.tail);
        assert(crate::generation::filled(none) =~= none) by {
            reveal(Seq::filter);
        }
        assert(none + g0.pending =~= g0.pending + none);
    } else {
        let e = events[0];
        let next = job::continuation(cfg, j, e);
        let rest = events.skip(1);
        if output_of(next.0.phase) is None {
            lemma_generating_is_over(cfg, next.0, rest);
        }
        lemma_output_step(cfg, j, e);
        lemma_generating(cfg, next.0, rest);
        let g1 = output_of(next.0.phase)->0;
        let g = output_of(after(cfg, j, events).phase)->0;
        let b = bytes_in(e);
        let s = stream(rest);
        lemma_token_requests_parts(cfg, j.item.corr_id, token_of(e), tokens(rest));
        lemma_joined_front(token_of(e), tokens(rest));
        assert(g0.text + joined(tokens(events)) =~= g0.text + joined(token_of(e)) + joined(
            tokens(rest),
        ));
        assert(stream(events) =~= b + s);
        assert(g0.tail + stream(events) =~= (g0.tail + b) + s);
        crate::generation::law_lines_of_parts(g0.tail + b, s);
        let l1 = crate::generation::lines(g0.tail + b);
        let l2 = crate::generation::lines(g1.tail + s);
        crate::generation::lemma_filled_parts(l1, l2);
        let f1 = crate::generation::filled(l1);
        let f2 = crate::generation::filled(l2);
        assert(lines_read(cfg, j, events) + g.pending =~= line_of(next.1) + (lines_read(
            cfg,
            next.0,
            rest,
        ) + g.pending));
        assert(line_of(next.1) + (g1.pending + f2) =~= (line_of(next.1) + g1.pending) + f2);
        assert((g0.pending + f1) + f2 =~= g0.pending + (f1 + f2));
    }
}

/// The first outcome of a job either opens the output or fails the job.
proof fn lemma_opening(cfg: crate::worker::CfgView, item: job::WorkItemView, ack_token: Seq<char>, e: job::EventView)
    requires
        job::beginning(cfg, item, ack_token).0.awaits(e),
    ensures
        ({
            let j = job::beginning(cfg, item, ack_token).0;
            let next = job::continuation(cfg, j, e);
            ||| next.0.phase is PublishingError
            ||| {
                &&& next.1 is ReadChunk
                &&& next.0 == j.at(
                    job::PhaseView::Reading {
                        output: crate::generation::GenerationView::empty(),
                    },
                )
            }
        }),
        open_tail(crate::generation::GenerationView::empty()),
        !(e is Chunk) && !(e is Decoded),
{
}

/// While a job generates, every token is published once and in order, nothing else is sent, and the
/// text and count that the job keeps are those of the tokens.
pub proof fn law_tokens_published_in_order(
    cfg: crate::worker::CfgView,
    item: job::WorkItemView,
    ack_token: Seq<char>,
    events: Seq<job::EventView>,
)
    requires
        runs(cfg, job::beginning(cfg, item, ack_token).0, events),
        output_of(after(cfg, job::beginning(cfg, item, ack_token).0, events).phase) is Some,
    ensures
        sent(cfg, job::beginning(cfg, item, ack_token).0, events) == token_requests(
            cfg,
            item.corr_id,
            tokens(events),
        ),
        ({
            let g = output_of(after(cfg, job::beginning(cfg, item, ack_token).0, events).phase)->0;
            g.text == joined(tokens(events)) && g.tokens == tokens(events).len()
        }),
{
    lemma_run_from_start(cfg, item, ack_token, events);
}

/// The lines that a job reads, and those that wait to be read, are the non-empty lines of the whole
/// output, however it was cut into chunks.
pub proof fn law_lines_ignore_chunks(
    cfg: crate::worker::CfgView,
    item: job::WorkItemView,
    ack_token: Seq<char>,
    events: Seq<job::EventView>,
)
    requires
        runs(cfg, job::beginning(cfg, item, ack_token).0, events),
        output_of(after(cfg, job::beginning(cfg, item, ack_token).0, events).phase) is Some,
    ensures
        ({
            let j = job::beginning(cfg, item, ack_token).0;
            let g = output_of(after(cfg, j, events).phase)->0;
            &&& lines_read(cfg, j, events) + g.pending == crate::generation::filled(
                crate::generation::lines(stream(events)),
            )
            &&& g.tail == crate::generation::tail(stream(events))
        }),
{
    lemma_run_from_start(cfg, item, ack_token, events);
}

proof fn lemma_run_from_start(
    cfg: crate::worker::CfgView,
    item: job::WorkItemView,
    ack_token: Seq<char>,
    events: Seq<job::EventView>,
)
    requires
        runs(cfg, job::beginning(cfg, item, ack_token).0, events),
        output_of(after(cfg, job::beginning(cfg, item, ack_token).0, events).phase) is Some,
    ensures
        ({
            let j = job::beginning(cfg, item, ack_token).0;
            let g = output_of(after(cfg, j, events).phase)->0;
            &&& sent(cfg, j, events) == token_requests(cfg, item.corr_id, tokens(events))
            &&& g.text == joined(tokens(events))
            &&& g.tokens == tokens(events).len()
            &&& lines_read(cfg, j, events) + g.pending == crate::generation::filled(
                crate::generation::lines(stream(events)),
            )
            &&& g.tail == crate::generation::tail(stream(events))
        }),
{
    let j = job::beginning(cfg, item, ack_token).0;
    let e = events[0];
    let rest = events.skip(1);
    let next = job::continuation(cfg, j, e).0;
    lemma_opening(cfg, item, ack_token, e);
    if next.phase is PublishingError {
        lemma_generating_is_over(cfg, next, rest);
    }
    lemma_generating(cfg, next, rest);
    let g = output_of(after(cfg, j, events).phase)->0;
    let empty = crate::generation::GenerationView::empty();
    assert(tokens(events) =~= tokens(rest));
    assert(stream(events) == stream(rest));
    assert(empty.text + joined(tokens(rest)) =~= joined(tokens(rest)));
    assert(empty.tail + stream(rest) =~= stream(rest));
    assert(sent(cfg, j, events) =~= sent(cfg, next, rest));
    assert(lines_read(cfg, j, events) =~= lines_read(cfg, next, rest));
    let f = crate::generation::filled(crate::generation::lines(stream(rest)));
    assert(empty.pending + f =~= f);
}

// ---------------------------------------------------------------------------
// Whole jobs
// ---------------------------------------------------------------------------

/// What is sent to the response queue of a work item, if it has one.
pub open spec fn to_response_queue(
    cfg: crate::worker::CfgView,
    item: job::WorkItemView,
    document: Seq<u8>,
) -> Seq<crate::web::RequestView> {
    match item.response_queue {
        Some(queue) => seq![crate::worker::send_request(cfg, queue, document)],
        None => Seq::empty(),
    }
}

/// A job that has failed says so on the topic; where that goes through and there is a response queue,
/// it says so there too; then it acknowledges the message and ends with its error.
pub proof fn law_failed_job(
    cfg: crate::worker::CfgView,
    j: job::JobView,
    error: Seq<char>,
    events: Seq<job::EventView>,
)
    requires
        j.phase == (job::PhaseView::PublishingError { error }),
        runs(cfg, j, events),
        after(cfg, j, events).phase is Ended,
    ensures
        events.len() > 0,
        sent(cfg, j, events) == (if job::complaint("publish "@, events[0]) is None {
            to_response_queue(
                cfg,
                j.item,
                crate::worker::error_bytes(j.item.corr_id, cfg.model, error),
            )
        } else {
            Seq::empty()
        }).push(crate::worker::ack_request(cfg, j.ack_token)),
        last_action(cfg, j, job::ActionView::ReadChunk, events) == (job::ActionView::Finish {
            error: Some(error),
        }),
{
    reveal_with_fuel(after, 5);
    reveal_with_fuel(runs, 5);
    reveal_with_fuel(sent, 5);
    reveal_with_fuel(last_action, 5);
    let ack = crate::worker::ack_request(cfg, j.ack_token);
    let n1 = job::continuation(cfg, j, events[0]);
    let r1 = events.skip(1);
    let n2 = job::continuation(cfg, n1.0, r1[0]);
    let r2 = r1.skip(1);
    if n1.0.phase is Acking {
        lemma_nothing_after_ack(cfg, n1.0, r1);
        assert(sent(cfg, j, events) =~= seq![ack]);
        assert(Seq::empty().push(ack) =~= seq![ack]);
        assert(r2.len() == 0);
    } else {
        lemma_nothing_after_ack(cfg, n2.0, r2);
        let r3 = r2.skip(1);
        assert(r3.len() == 0);
        assert(sent(cfg, n1.0, r1) =~= seq![ack]);
        assert(sent(cfg, j, events) =~= request_of(n1.1).push(ack));
    }
}

/// A job that has failed, or that has ended, does not finish well any more.
proof fn lemma_failure_sticks(
    cfg: crate::worker::CfgView,
    j: job::JobView,
    first: job::ActionView,
    events: Seq<job::EventView>,
)
    requires
        match j.phase {
            job::PhaseView::PublishingError { error } => true,
            job::PhaseView::SendingError { error } => true,
            job::PhaseView::Acking { outcome } => outcome is Some,
            job::PhaseView::Ended => true,
            _ => false,
        },
        first != (job::ActionView::Finish { error: None }),
        runs(cfg, j, events),
    ensures
        last_action(cfg, j, first, events) != (job::ActionView::Finish { error: None }),
    decreases events.len(),
{
    if events.len() > 0 {
        let next = job::continuation(cfg, j, events[0]);
        lemma_failure_sticks(cfg, next.0, next.1, events.skip(1));
    }
}

/// What a job sends once its output is complete and it finishes well.
spec fn closing(
    cfg: crate::worker::CfgView,
    item: job::WorkItemView,
    ack_token: Seq<char>,
    text: Seq<char>,
    count: u32,
) -> Seq<crate::web::RequestView> {
    to_response_queue(
        cfg,
        item,
        crate::worker::final_bytes(item.corr_id, cfg.model, text, count),
    ).push(crate::worker::ack_request(cfg, ack_token))
}

proof fn lemma_closing(
    cfg: crate::worker::CfgView,
    j: job::JobView,
    output: crate::generation::GenerationView,
    first: job::ActionView,
    events: Seq<job::EventView>,
)
    requires
        j.phase == (job::PhaseView::PublishingDone { output }),
        first is Send,
        runs(cfg, j, events),
        last_action(cfg, j, first, events) == (job::ActionView::Finish { error: None }),
    ensures
        sent(cfg, j, events) == closing(cfg, j.item, j.ack_token, output.text, output.tokens),
        tokens(events) == Seq::<Seq<char>>::empty(),
{
    reveal_with_fuel(runs, 5);
    reveal_with_fuel(sent, 5);
    reveal_with_fuel(last_action, 5);
    reveal_with_fuel(tokens, 5);
    let ack = crate::worker::ack_request(cfg, j.ack_token);
    let n1 = job::continuation(cfg, j, events[0]);
    let r1 = events.skip(1);
    if n1.0.phase is PublishingError {
        lemma_failure_sticks(cfg, n1.0, n1.1, r1);
    }
    assert(r1.len() > 0);
    let n2 = job::continuation(cfg, n1.0, r1[0]);
    let r2 = r1.skip(1);
    if n1.0.phase is Acking {
        lemma_nothing_after_ack(cfg, n1.0, r1);
        assert(sent(cfg, j, events) =~= seq![ack]);
        assert(Seq::empty().push(ack) =~= seq![ack]);
        assert(r2.len() == 0);
        assert(tokens(events) =~= Seq::empty());
    } else {
        if n2.0.phase is PublishingError {
            lemma_failure_sticks(cfg, n2.0, n2.1, r2);
        }
        lemma_nothing_after_ack(cfg, n2.0, r2);
        assert(r2.len() > 0);
        assert(r2.skip(1).len() == 0);
        assert(sent(cfg, n1.0, r1) =~= seq![ack]);
        assert(sent(cfg, j, events) =~= request_of(n1.1).push(ack));
        assert(tokens(events) =~= Seq::empty());
    }
}

proof fn lemma_good_ending(
    cfg: crate::worker::CfgView,
    j: job::JobView,
    first: job::ActionView,
    events: Seq<job::EventView>,
)
    requires
        output_of(j.phase) is Some,
        open_tail(output_of(j.phase)->0),
        !(first is Finish),
        runs(cfg, j, events),
        last_action(cfg, j, first, events) == (job::ActionView::Finish { error: None }),
    ensures
        ({
            let g0 = output_of(j.phase)->0;
            let text = g0.text + joined(tokens(events));
            let count = (g0.tokens + tokens(events).len()) as u32;
            &&& g0.tokens + tokens(events).len() <= u32::MAX
            &&& sent(cfg, j, events) == token_requests(cfg, j.item.corr_id, tokens(events)) + seq![
                crate::worker::done_request(cfg, j.item.corr_id, count),
            ] + closing(cfg, j.item, j.ack_token, text, count)
        }),
    decreases events.len(),
{
    let g0 = output_of(j.phase)->0;
    let corr_id = j.item.corr_id;
    let e = events[0];
    let rest = events.skip(1);
    let next = job::continuation(cfg, j, e);
    let t = token_of(e);
    lemma_token_requests_parts(cfg, corr_id, t, tokens(rest));
    lemma_joined_front(t, tokens(rest));
    if output_of(next.0.phase) is Some {
        lemma_output_step(cfg, j, e);
        lemma_good_ending(cfg, next.0, next.1, rest);
        let g1 = output_of(next.0.phase)->0;
        assert(g1.text + joined(tokens(rest)) =~= g0.text + joined(tokens(events)));
        let text = g0.text + joined(tokens(events));
        let count = (g0.tokens + tokens(events).len()) as u32;
        let done = seq![crate::worker::done_request(cfg, corr_id, count)];
        let close = closing(cfg, j.item, j.ack_token, text, count);
        assert(request_of(next.1) + (token_requests(cfg, corr_id, tokens(rest)) + done + close)
            =~= (request_of(next.1) + token_requests(cfg, corr_id, tokens(rest))) + done + close);
    } else if next.0.phase is PublishingDone {
        let output = next.0.phase->PublishingDone_output;
        lemma_closing(cfg, next.0, output, next.1, rest);
        assert(t =~= Seq::empty());
        assert(tokens(events) =~= Seq::empty());
        assert(token_requests(cfg, corr_id, tokens(events)) =~= Seq::empty());
        assert(g0.text + joined(tokens(events)) =~= g0.text);
        let done = seq![crate::worker::done_request(cfg, corr_id, output.tokens)];
        let close = closing(cfg, j.item, j.ack_token, output.text, output.tokens);
        assert(token_requests(cfg, corr_id, tokens(events)) + done + close =~= done + close);
    } else {
        lemma_failure_sticks(cfg, next.0, next.1, rest);
    }
}

/// What a job sends for a model's output that is made of these tokens: every token, then their count,
/// then, where the work item names a response queue, the whole text with the same count to that queue,
/// and last the acknowledgement.
pub open spec fn result_requests(
    cfg: crate::worker::CfgView,
    item: job::WorkItemView,
    ack_token: Seq<char>,
    texts: Seq<Seq<char>>,
) -> Seq<crate::web::RequestView> {
    let count = texts.len() as u32;
    token_requests(cfg, item.corr_id, texts) + seq![
        crate::worker::done_request(cfg, item.corr_id, count),
    ] + to_response_queue(
        cfg,
        item,
        crate::worker::final_bytes(item.corr_id, cfg.model, joined(texts), count),
    ).push(crate::worker::ack_request(cfg, ack_token))
}

/// A job that finishes well has sent, after its request for output, exactly this: every token once and
/// in order, then that it is done with their count, then, where the work item names a response queue,
/// the whole text with the same count to that queue, and last the acknowledgement.
pub proof fn law_successful_job(
    cfg: crate::worker::CfgView,
    item: job::WorkItemView,
    ack_token: Seq<char>,
    events: Seq<job::EventView>,
)
    requires
        runs(cfg, job::beginning(cfg, item, ack_token).0, events),
        ({
            let start = job::beginning(cfg, item, ack_token);
            last_action(cfg, start.0, start.1, events) == (job::ActionView::Finish { error: None })
        }),
    ensures
        tokens(events).len() <= u32::MAX,
        sent(cfg, job::beginning(cfg, item, ack_token).0, events) == result_requests(
            cfg,
            item,
            ack_token,
            tokens(events),
        ),
{
    let start = job::beginning(cfg, item, ack_token);
    let j = start.0;
    let e = events[0];
    let rest = events.skip(1);
    let next = job::continuation(cfg, j, e);
    lemma_opening(cfg, item, ack_token, e);
    if next.0.phase is PublishingError {
        lemma_failure_sticks(cfg, next.0, next.1, rest);
    }
    lemma_good_ending(cfg, next.0, next.1, rest);
    assert(tokens(events) =~= tokens(rest));
    let empty = crate::generation::GenerationView::empty();
    assert(empty.text + joined(tokens(rest)) =~= joined(tokens(rest)));
    assert(sent(cfg, j, events) =~= sent(cfg, next.0, rest));
}

// ---------------------------------------------------------------------------
// Jobs over the same output
// ---------------------------------------------------------------------------

/// How lines of output are read.
pub type Reader = spec_fn(Seq<u8>) -> Option<crate::generation::ChunkView>;

/// Whether a line says that the output is done.
pub open spec fn says_done(read: Reader, line: Seq<u8>) -> bool {
    read(line) is Some && read(line)->0.done
}

/// The tokens that lines of output bring, in order.
pub open spec fn tokens_in(read: Reader, lines: Seq<Seq<u8>>) -> Seq<Seq<char>>
    decreases lines.len(),
{
    if lines.len() == 0 {
        Seq::empty()
    } else {
        token_of(job::EventView::Decoded { chunk: read(lines[0]) }) + tokens_in(
            read,
            lines.skip(1),
        )
    }
}

/// Whether nothing fails in the course of a series of outcomes: every request is answered with
/// success, the output does not break off, and every line is read as `read` has it.
pub open spec fn smooth(
    cfg: crate::worker::CfgView,
    j: job::JobView,
    action: job::ActionView,
    events: Seq<job::EventView>,
    read: Reader,
) -> bool
    decreases events.len(),
{
    events.len() > 0 ==> {
        let next = job::continuation(cfg, j, events[0]);
        &&& match events[0] {
            job::EventView::Replied { status, detail } => crate::web::success(status),
            job::EventView::Failed { error } => false,
            job::EventView::StreamFailed { error } => false,
            _ => true,
        }
        &&& action is Decode ==> events[0] == (job::EventView::Decoded {
            chunk: read(action->line),
        })
        &&& smooth(cfg, next.0, next.1, events.skip(1), read)
    }
}

/// Whether the end of the output is among a series of outcomes.
pub open spec fn hears_end(events: Seq<job::EventView>) -> bool
    decreases events.len(),
{
    events.len() > 0 && (events[0] is StreamEnded || hears_end(events.skip(1)))
}

proof fn lemma_tokens_in_parts(read: Reader, a: Seq<Seq<u8>>, b: Seq<Seq<u8>>)
    ensures
        tokens_in(read, a + b) == tokens_in(read, a) + tokens_in(read, b),
    decreases a.len(),
{
    if a.len() == 0 {
        assert(a + b =~= b);
        assert(tokens_in(read, a) + tokens_in(read, b) =~= tokens_in(read, b));
    } else {
        lemma_tokens_in_parts(read, a.skip(1), b);
        assert((a + b).skip(1) =~= a.skip(1) + b);
        let t = token_of(job::EventView::Decoded { chunk: read(a[0]) });
        assert(t + (tokens_in(read, a.skip(1)) + tokens_in(read, b)) =~= (t + tokens_in(
            read,
            a.skip(1),
        )) + tokens_in(read, b));
    }
}

/// The output of a job that is generating or has just done so.
spec fn flow_of(phase: job::PhaseView) -> Option<crate::generation::GenerationView> {
    match phase {
        job::PhaseView::PublishingDone { output } => Some(output),
        _ => output_of(phase),
    }
}

/// Whether a phase of a generating job and the action that led to it belong together.
spec fn in_step(phase: job::PhaseView, action: job::ActionView) -> bool {
    &&& output_of(phase) is Some
    &&& open_tail(output_of(phase)->0)
    &&& phase is Decoding <==> action is Decode
    &&& phase is Reading ==> output_of(phase)->0.pending.len() == 0
    &&& !(action is Finish)
}

/// One step of a job that is generating, where nothing fails.
proof fn lemma_smooth_step(
    cfg: crate::worker::CfgView,
    j: job::JobView,
    action: job::ActionView,
    e: job::EventView,
    read: Reader,
)
    requires
        in_step(j.phase, action),
        j.awaits(e),
        smooth(cfg, j, action, seq![e], read),
    ensures
        ({
            let next = job::continuation(cfg, j, e);
            let g0 = output_of(j.phase)->0;
            let g = flow_of(next.0.phase)->0;
            &&& flow_of(next.0.phase) is Some
            &&& if next.0.phase is PublishingDone {
                &&& next.1 is Send
                &&& line_of(next.1).len() == 0
                &&& g.pending.len() == 0
                &&& open_tail(g)
                &&& g.done || e is StreamEnded
            } else {
                in_step(next.0.phase, next.1)
            }
            &&& line_of(next.1) + g.pending == g0.pending + crate::generation::filled(
                crate::generation::lines(g0.tail + bytes_in(e)),
            )
            &&& g.tail == crate::generation::tail(g0.tail + bytes_in(e))
            &&& g.done ==> g0.done || (line_of(action).len() == 1 && says_done(
                read,
                line_of(action)[0],
            ))
            &&& token_of(e) == tokens_in(read, line_of(action))
        }),
{
    let g0 = output_of(j.phase)->0;
    let next = job::continuation(cfg, j, e);
    let none = Seq::<Seq<u8>>::empty();
    reveal_with_fuel(tokens_in, 2);
    if action is Decode {
        assert(line_of(action).skip(1) =~= none);
        assert(token_of(e) + Seq::<Seq<char>>::empty() =~= token_of(e));
    }
    lemma_output_step(cfg, j, e);
    if next.0.phase is PublishingDone {
        let fed = g0.fed(bytes_in(e));
        crate::generation::lemma_tail_has_no_lines(g0.tail + bytes_in(e));
        assert(crate::generation::filled(none) =~= none) by {
            reveal(Seq::filter);
        }
        if !(e is Chunk) {
            assert(g0.tail + bytes_in(e) =~= g0.tail);
        }
        assert(fed.pending =~= none);
        assert(none + none =~= none);
    }
}

/// A job whose output is complete closes well where nothing fails.
proof fn lemma_smooth_closing(
    cfg: crate::worker::CfgView,
    j: job::JobView,
    action: job::ActionView,
    events: Seq<job::EventView>,
    read: Reader,
)
    requires
        j.phase is PublishingDone,
        action is Send,
        runs(cfg, j, events),
        smooth(cfg, j, action, events, read),
        after(cfg, j, events).phase is Ended,
    ensures
        last_action(cfg, j, action, events) == (job::ActionView::Finish { error: None }),
        tokens(events) == Seq::<Seq<char>>::empty(),
        stream(events) == Seq::<u8>::empty(),
{
    reveal_with_fuel(runs, 5);
    reveal_with_fuel(after, 5);
    reveal_with_fuel(smooth, 5);
    reveal_with_fuel(last_action, 5);
    reveal_with_fuel(tokens, 5);
    reveal_with_fuel(stream, 5);
    let r1 = events.skip(1);
    let r2 = r1.skip(1);
    let n1 = job::continuation(cfg, j, events[0]);
    assert(n1.0.phase is SendingFinal || n1.0.phase is Acking);
    if n1.0.phase is Acking {
        assert(r2.len() == 0);
    } else {
        let r3 = r2.skip(1);
        let n2 = job::continuation(cfg, n1.0, r1[0]);
        assert(n2.0.phase is Acking);
        assert(r3.len() == 0);
    }
    assert(tokens(events) =~= Seq::empty());
    assert(stream(events) =~= Seq::empty());
}

/// What comes of a job that is generating, where nothing fails: its tokens are those of the lines that
/// are left, and it finishes well.
proof fn lemma_smooth_course(
    cfg: crate::worker::CfgView,
    j: job::JobView,
    action: job::ActionView,
    events: Seq<job::EventView>,
    read: Reader,
)
    requires
        in_step(j.phase, action),
        runs(cfg, j, events),
        smooth(cfg, j, action, events, read),
        after(cfg, j, events).phase is Ended,
    ensures
        ({
            let g0 = output_of(j.phase)->0;
            let all = line_of(action) + (g0.pending + crate::generation::filled(
                crate::generation::lines(g0.tail + stream(events)),
            ));
            &&& tokens(events) == tokens_in(read, all)
            &&& last_action(cfg, j, action, events) == (job::ActionView::Finish { error: None })
            &&& hears_end(events) || g0.done || exists|i: int|
                0 <= i < all.len() && says_done(read, #[trigger] all[i])
        }),
    decreases events.len(),
{
    let g0 = output_of(j.phase)->0;
    let e = events[0];
    let rest = events.skip(1);
    let next = job::continuation(cfg, j, e);
    let b = bytes_in(e);
    let s = stream(rest);
    let none = Seq::<Seq<u8>>::empty();
    assert(smooth(cfg, j, action, seq![e], read)) by {
        reveal_with_fuel(smooth, 2);
    }
    lemma_smooth_step(cfg, j, action, e, read);
    let g = flow_of(next.0.phase)->0;
    assert(stream(events) =~= b + s);
    assert(g0.tail + stream(events) =~= (g0.tail + b) + s);
    crate::generation::law_lines_of_parts(g0.tail + b, s);
    let l1 = crate::generation::lines(g0.tail + b);
    let l2 = crate::generation::lines(g.tail + s);
    crate::generation::lemma_filled_parts(l1, l2);
    let f1 = crate::generation::filled(l1);
    let f2 = crate::generation::filled(l2);
    let line = line_of(action);
    let all = line + (g0.pending + crate::generation::filled(
        crate::generation::lines(g0.tail + stream(events)),
    ));
    let left = line_of(next.1) + (g.pending + f2);
    assert(g0.pending + (f1 + f2) =~= (g0.pending + f1) + f2);
    assert(left =~= (line_of(next.1) + g.pending) + f2);
    assert(all =~= line + left);
    lemma_tokens_in_parts(read, line, left);
    if next.0.phase is PublishingDone {
        lemma_smooth_closing(cfg, next.0, next.1, rest, read);
        assert(g.tail + s =~= g.tail);
        assert(crate::generation::filled(none) =~= none) by {
            reveal(Seq::filter);
        }
        assert(left =~= none);
        assert(tokens_in(read, left) =~= Seq::empty());
    } else {
        lemma_smooth_course(cfg, next.0, next.1, rest, read);
        if exists|i: int| 0 <= i < left.len() && says_done(read, #[trigger] left[i]) {
            let i = choose|i: int| 0 <= i < left.len() && says_done(read, #[trigger] left[i]);
            assert(all[line.len() + i] == left[i]);
        }
    }
    if line.len() == 1 && says_done(read, line[0]) {
        assert(all[0] == line[0]);
    }
}

/// A job in which nothing fails finishes well and sends what the tokens in the lines of the output
/// come to. `output` is all that the model has to say: what the job has taken in and what it has left
/// unread, which is nothing where it has heard the end. Only the last line may say that the output is
/// done.
pub proof fn law_result_of_output(
    cfg: crate::worker::CfgView,
    item: job::WorkItemView,
    ack_token: Seq<char>,
    events: Seq<job::EventView>,
    read: Reader,
    output: Seq<u8>,
    unread: Seq<u8>,
)
    requires
        ({
            let start = job::beginning(cfg, item, ack_token);
            &&& runs(cfg, start.0, events)
            &&& smooth(cfg, start.0, start.1, events, read)
            &&& after(cfg, start.0, events).phase is Ended
        }),
        output == stream(events) + unread,
        hears_end(events) ==> unread.len() == 0,
        forall|i: int|
            0 <= i < crate::generation::filled(crate::generation::lines(output)).len() - 1
                ==> !says_done(
                read,
                #[trigger] crate::generation::filled(crate::generation::lines(output))[i],
            ),
    ensures
        ({
            let start = job::beginning(cfg, item, ack_token);
            let texts = tokens_in(
                read,
                crate::generation::filled(crate::generation::lines(output)),
            );
            &&& last_action(cfg, start.0, start.1, events) == (job::ActionView::Finish {
                error: None,
            })
            &&& texts.len() <= u32::MAX
            &&& sent(cfg, start.0, events) == result_requests(cfg, item, ack_token, texts)
        }),
{
    let start = job::beginning(cfg, item, ack_token);
    let e = events[0];
    let rest = events.skip(1);
    let next = job::continuation(cfg, start.0, e);
    let empty = crate::generation::GenerationView::empty();
    lemma_opening(cfg, item, ack_token, e);
    assert(next.1 is ReadChunk);
    lemma_smooth_course(cfg, next.0, next.1, rest, read);
    let taken = stream(events);
    assert(taken == stream(rest));
    assert(tokens(events) =~= tokens(rest));
    assert(hears_end(events) == hears_end(rest));
    assert(empty.tail + taken =~= taken);
    let read_lines = crate::generation::filled(crate::generation::lines(taken));
    assert(line_of(next.1) + (empty.pending + read_lines) =~= read_lines);
    let whole = crate::generation::filled(crate::generation::lines(output));
    crate::generation::law_lines_of_parts(taken, unread);
    let l2 = crate::generation::lines(crate::generation::tail(taken) + unread);
    crate::generation::lemma_filled_parts(crate::generation::lines(taken), l2);
    if hears_end(events) {
        assert(output =~= taken);
    } else {
        let i = choose|i: int|
            0 <= i < read_lines.len() && says_done(read, #[trigger] read_lines[i]);
        assert(whole[i] == read_lines[i]);
        assert(whole.len() == read_lines.len());
        assert(whole =~= read_lines);
    }
    law_successful_job(cfg, item, ack_token, events);
}

/// Where the stream is cut into chunks has no effect: two jobs for the same work item over the same
/// output, in which nothing fails and only the last line may say that the output is done, send the
/// same requests and both finish well.
pub proof fn law_cuts_have_no_effect(
    cfg: crate::worker::CfgView,
    item: job::WorkItemView,
    ack_token: Seq<char>,
    a: Seq<job::EventView>,
    unread_a: Seq<u8>,
    b: Seq<job::EventView>,
    unread_b: Seq<u8>,
    read: Reader,
)
    requires
        ({
            let start = job::beginning(cfg, item, ack_token);
            &&& runs(cfg, start.0, a)
            &&& smooth(cfg, start.0, start.1, a, read)
            &&& after(cfg, start.0, a).phase is Ended
            &&& runs(cfg, start.0, b)
            &&& smooth(cfg, start.0, start.1, b, read)
            &&& after(cfg, start.0, b).phase is Ended
        }),
        stream(a) + unread_a == stream(b) + unread_b,
        hears_end(a) ==> unread_a.len() == 0,
        hears_end(b) ==> unread_b.len() == 0,
        forall|i: int|
            0 <= i < crate::generation::filled(
                crate::generation::lines(stream(a) + unread_a),
            ).len() - 1 ==> !says_done(
                read,
                #[trigger] crate::generation::filled(
                    crate::generation::lines(stream(a) + unread_a),
                )[i],
            ),
    ensures
        ({
            let start = job::beginning(cfg, item, ack_token);
            &&& sent(cfg, start.0, a) == sent(cfg, start.0, b)
            &&& last_action(cfg, start.0, start.1, a) == (job::ActionView::Finish { error: None })
            &&& last_action(cfg, start.0, start.1, b) == (job::ActionView::Finish { error: None })
        }),
{
    let output = stream(a) + unread_a;
    law_result_of_output(cfg, item, ack_token, a, read, output, unread_a);
    law_result_of_output(cfg, item, ack_token, b, read, output, unread_b);
}

} // verus!
