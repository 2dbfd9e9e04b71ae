//! What a job does with each outcome, said of [`Job::step`] itself, and what becomes of a model's output
//! on the way from its bytes to the topic and the response queue.
use crate::answer_laws;
use crate::generation;
use crate::generation::{ChunkView, Generation, GenerationView};
use crate::job;
use crate::job::{Action, Event, Job};
use crate::job_laws;
use crate::json;
use crate::outside::Member;
use crate::request_laws;
use crate::web::{Method, Request, RequestView};
use crate::worker;
use vstd::prelude::*;

verus! {

// ---------------------------------------------------------------------------
// Lines
// ---------------------------------------------------------------------------

/// Lines put together again, each with the newline that ended it.
pub open spec fn glued(lines: Seq<Seq<u8>>) -> Seq<u8>
    decreases lines.len(),
{
    if lines.len() == 0 {
        Seq::empty()
    } else {
        glued(lines.drop_last()) + lines.last().push(10u8)
    }
}

/// Whether bytes are free of newlines.
pub open spec fn one_line(b: Seq<u8>) -> bool {
    forall|i: int| 0 <= i < b.len() ==> #[trigger] b[i] != 10u8
}

/// Cutting output into lines loses nothing and cuts at every newline: the lines, each with its newline,
/// and what is left over make up the whole, and none of them holds a newline itself.
pub proof fn law_lines(b: Seq<u8>)
    ensures
        glued(generation::lines(b)) + generation::tail(b) == b,
        one_line(generation::tail(b)),
        forall|i: int|
            0 <= i < generation::lines(b).len() ==> one_line(#[trigger] generation::lines(b)[i]),
    decreases b.len(),
{
    if b.len() > 0 {
        let c = b.drop_last();
        law_lines(c);
        let l = generation::lines(c);
        let t = generation::tail(c);
        assert(b =~= c.push(b.last()));
        if b.last() == 10u8 {
            let m = l.push(t);
            assert(generation::lines(b) == m);
            assert(m.drop_last() =~= l);
            assert(glued(m) == glued(l) + t.push(10u8));
            assert(glued(m) + generation::tail(b) =~= (glued(l) + t).push(10u8));
        } else {
            assert(glued(l) + t.push(b.last()) =~= (glued(l) + t).push(b.last()));
        }
    } else {
        assert(glued(generation::lines(b)) + generation::tail(b) =~= b);
    }
}

/// Of lines, exactly the empty ones are passed over.
pub proof fn law_filled(lines: Seq<Seq<u8>>, line: Seq<u8>)
    ensures
        generation::filled(Seq::empty()) == Seq::<Seq<u8>>::empty(),
        generation::filled(lines.push(line)) == if line.len() == 0 {
            generation::filled(lines)
        } else {
            generation::filled(lines).push(line)
        },
{
    reveal(Seq::filter);
    assert(generation::filled(Seq::<Seq<u8>>::empty()) =~= Seq::empty());
    assert(lines.push(line).drop_last() =~= lines);
}

/// Output that comes in is added to what is there: the lines that wait and what is left over are those
/// of all the bytes together, and nothing that was gathered changes.
pub proof fn law_feeding(g: GenerationView, before: Seq<u8>, chunk: Seq<u8>)
    requires
        g.pending == generation::filled(generation::lines(before)),
        g.tail == generation::tail(before),
    ensures
        g.fed(chunk).pending == generation::filled(generation::lines(before + chunk)),
        g.fed(chunk).tail == generation::tail(before + chunk),
        g.fed(chunk).text == g.text,
        g.fed(chunk).tokens == g.tokens,
        g.fed(chunk).done == g.done,
{
    generation::law_lines_of_parts(before, chunk);
    generation::lemma_filled_parts(
        generation::lines(before),
        generation::lines(generation::tail(before) + chunk),
    );
}

/// Taking a line takes the first that waits and leaves the others; what a line says is added to the end
/// of the text and counted where it is not empty, and the output is done once a line has said so.
pub proof fn law_gathering(g: GenerationView, chunk: ChunkView)
    ensures
        g.pending.len() > 0 ==> seq![g.pending[0]] + g.taken().pending == g.pending,
        g.taken().text == g.text && g.taken().tokens == g.tokens && g.taken().done == g.done
            && g.taken().tail == g.tail,
        g.absorbed(chunk).text == g.text + chunk.response,
        g.tokens < u32::MAX ==> g.absorbed(chunk).tokens == g.tokens + (if chunk.response.len()
            > 0 {
            1int
        } else {
            0int
        }),
        g.absorbed(chunk).done <==> g.done || chunk.done,
        g.absorbed(chunk).pending == g.pending && g.absorbed(chunk).tail == g.tail,
{
    if g.pending.len() > 0 {
        assert(seq![g.pending[0]] + g.taken().pending =~= g.pending);
    }
    if chunk.response.len() == 0 {
        assert(g.text + chunk.response =~= g.text);
    }
}

/// Output begins with nothing.
pub proof fn law_new_output(g: Generation)
    requires
        call_ensures(Generation::new, (), g),
    ensures
        generation::filled(generation::lines(g.buf@)).len() == 0,
        generation::tail(g.buf@).len() == 0,
        g.text@.len() == 0 && g.tokens == 0 && !g.done,
{
    assert(g@.pending.len() == 0 && g@.tail.len() == 0 && g@.text.len() == 0);
}

// ---------------------------------------------------------------------------
// Steps of a job
// ---------------------------------------------------------------------------

/// Whether an action acknowledges the message of a job.
pub open spec fn acknowledges(cfg: worker::Cfg, token: Seq<char>, a: Action) -> bool {
    &&& a is Send
    &&& request_laws::goes(
        a->request,
        Method::Delete,
        cfg.base@ + "/queues/"@ + cfg.queue@ + "/messages/"@ + token,
    )
    &&& request_laws::bears(a->request, cfg.bearer@)
    &&& request_laws::is_bare(a->request)
}

/// Whether an action sends bytes to a response queue.
pub open spec fn sends_to(cfg: worker::Cfg, queue: Seq<char>, a: Action) -> bool {
    &&& a is Send
    &&& request_laws::goes(
        a->request,
        Method::Post,
        cfg.base@ + "/queues/"@ + queue + "/messages"@,
    )
    &&& request_laws::bears(a->request, cfg.bearer@)
    &&& request_laws::is_of_type(a->request, "application/octet-stream"@)
}

/// Whether an action publishes a message about a work item.
pub open spec fn publishes(cfg: worker::Cfg, corr_id: Seq<char>, leaf: Seq<char>, a: Action) -> bool {
    a is Send && request_laws::publishes(
        a->request,
        cfg,
        "inference_responses"@,
        "inference."@ + corr_id + "."@ + leaf,
    )
}

/// Whether a job that failed says so: under the subject for errors of its work item.
pub open spec fn reports(cfg: worker::Cfg, j: Job, r: (Job, Action)) -> bool {
    r.0.phase is PublishingError && publishes(cfg, j.item.corr_id@, "error"@, r.1)
}

/// Whether an outcome is an answer that reports success.
pub open spec fn went_well(e: Event) -> bool {
    e is Replied && 200 <= e->status <= 299
}

/// What is found in a document of one text.
proof fn lemma_one_text(
    name: Seq<char>,
    text: Seq<char>,
    document: &[u8],
    key: &str,
    found: Result<Option<Member>, String>,
)
    requires
        json::is_plain_name(name),
        document@ == vstd::utf8::encode_utf8(
            json::object_text(seq![(name, crate::outside::json_string(text))]),
        ),
        key@ == name,
        json::looked_up(document, key, found),
    ensures
        request_laws::text_found(found) == Some(text),
{
    let members = seq![(name, json::Value::Text { text })];
    assert(json::plainly_named(members));
    assert(members.map_values(|m: (Seq<char>, json::Value)| (m.0, json::value_text(m.1))) =~= seq![
        (name, crate::outside::json_string(text)),
    ]);
    json::law_members_read_back(members, 0, document, key, found);
}

/// What is found in a document of one number.
proof fn lemma_one_number(
    name: Seq<char>,
    n: u64,
    document: &[u8],
    key: &str,
    found: Result<Option<Member>, String>,
)
    requires
        json::is_plain_name(name),
        document@ == vstd::utf8::encode_utf8(
            json::object_text(seq![(name, crate::text::decimal_text(n as nat))]),
        ),
        key@ == name,
        json::looked_up(document, key, found),
    ensures
        request_laws::number_found(found) == Some(n),
{
    let members = seq![(name, json::Value::Number { n })];
    assert(json::plainly_named(members));
    assert(members.map_values(|m: (Seq<char>, json::Value)| (m.0, json::value_text(m.1))) =~= seq![
        (name, crate::text::decimal_text(n as nat)),
    ]);
    json::law_members_read_back(members, 0, document, key, found);
    crate::text::law_decimal_reads_back(n);
}

/// Whatever a job does, it keeps its work item and the token of its message. Where it reports a failure,
/// publishes a token or publishes the end of the output, whoever looks into the request finds the error
/// that it then carries, the token, and the count.
pub proof fn law_job_keeps_and_publishes(
    cfg: &worker::Cfg,
    j: Job,
    e: Event,
    r: (Job, Action),
    document: &[u8],
    key: &str,
    found: Result<Option<Member>, String>,
)
    requires
        j@.awaits(e@),
        call_ensures(Job::step, (j, cfg, e), r),
        r.1 is Send ==> document@ == r.1->request.body@,
        json::looked_up(document, key, found),
    ensures
        r.0.item@ == j.item@,
        r.0.ack_token@ == j.ack_token@,
        r.0.phase is PublishingError ==> publishes(*cfg, j.item.corr_id@, "error"@, r.1) && (key@
            == "error"@ ==> request_laws::text_found(found) == Some(
            r.0.phase->PublishingError_error@,
        )),
        r.0.phase is PublishingDone ==> publishes(*cfg, j.item.corr_id@, "done"@, r.1) && (key@
            == "tokens"@ ==> request_laws::number_found(found) == Some(
            r.0.phase->PublishingDone_output.tokens as u64,
        )),
        r.0.phase is PublishingToken ==> {
            &&& publishes(*cfg, j.item.corr_id@, "token"@, r.1)
            &&& e is Decoded && e->chunk is Some
            &&& key@ == "token"@ ==> request_laws::text_found(found) == Some(
                e->chunk->0.response@,
            )
        },
{
    let next = job::continuation(cfg@, j@, e@);
    assert(r.0@ == next.0 && r.1@ == next.1);
    assert(r.0.phase@ == r.0@.phase && j.phase@ == j@.phase);
    reveal_strlit("error");
    reveal_strlit("tokens");
    reveal_strlit("token");
    if r.0.phase is PublishingError {
        assert(next.1 is Send);
        let error = r.0.phase->PublishingError_error@;
        if key@ == "error"@ {
            lemma_one_text("error"@, error, document, key, found);
        }
    }
    if r.0.phase is PublishingDone {
        assert(next.1 is Send);
        if key@ == "tokens"@ {
            lemma_one_number(
                "tokens"@,
                r.0.phase->PublishingDone_output.tokens as u64,
                document,
                key,
                found,
            );
        }
    }
    if r.0.phase is PublishingToken {
        assert(next.1 is Send);
        assert(e@ is Decoded && e@->chunk is Some);
        if key@ == "token"@ {
            lemma_one_text("token"@, e->chunk->0.response@, document, key, found);
        }
    }
}

/// What complaints call the request whose answer a job waits for.
pub open spec fn purpose(j: Job) -> Seq<char> {
    if j.phase is Asking {
        "ollama "@
    } else if j.phase is SendingFinal {
        "send to "@ + j.phase->queue@ + ": "@
    } else {
        "publish "@
    }
}

/// Which failures a job reports, and as what: a request that was not answered and output that broke off
/// with their own error, a refused request with a complaint that names the status and all of what was
/// said.
pub proof fn law_job_failures(cfg: &worker::Cfg, j: Job, e: Event, r: (Job, Action))
    requires
        j@.awaits(e@),
        call_ensures(Job::step, (j, cfg, e), r),
    ensures
        j.phase is Asking || j.phase is PublishingToken || j.phase is PublishingDone || j.phase
            is SendingFinal ==> {
            &&& e is Failed ==> reports(*cfg, j, r) && r.0.phase->PublishingError_error@
                == e->Failed_error@
            &&& e is Replied && !went_well(e) ==> reports(*cfg, j, r) && answer_laws::is_refusal(
                r.0.phase->PublishingError_error@,
                purpose(j),
                e->status,
                e->detail@,
            )
            &&& went_well(e) ==> !(r.0.phase is PublishingError)
        },
        j.phase is Reading ==> {
            &&& e is StreamFailed ==> reports(*cfg, j, r) && r.0.phase->PublishingError_error@
                == e->StreamFailed_error@
            &&& !(e is StreamFailed) ==> !(r.0.phase is PublishingError)
        },
        j.phase is Decoding ==> !(r.0.phase is PublishingError),
{
    let next = job::continuation(cfg@, j@, e@);
    assert(r.0@ == next.0 && r.1@ == next.1);
    assert(r.0.phase@ == r.0@.phase && j.phase@ == j@.phase);
    if let Event::Replied { status, detail } = e {
        answer_laws::lemma_refusal("ollama "@, status, detail@);
        answer_laws::lemma_refusal("publish "@, status, detail@);
        if let job::Phase::SendingFinal { queue } = j.phase {
            answer_laws::lemma_refusal(job::send_what(queue@), status, detail@);
        }
    }
}

/// What a job does with output. Where the runtime takes the request, output is awaited; a chunk is
/// added to the bytes that are there; a line that cannot be read, or that holds no token, is passed
/// over; a token is added to the end of the text and counted before it is published. Where the output
/// ends, the text and the count stand.
pub proof fn law_job_output(cfg: &worker::Cfg, j: Job, e: Event, r: (Job, Action))
    requires
        j@.awaits(e@),
        call_ensures(Job::step, (j, cfg, e), r),
    ensures
        j.phase is Asking && went_well(e) ==> r.0.phase is Reading && r.1 is ReadChunk
            && r.0.phase->Reading_output@.pending.len() == 0 && r.0.phase->Reading_output@.tail.len()
            == 0 && r.0.phase->Reading_output.text@.len() == 0 && r.0.phase->Reading_output.tokens == 0
            && !r.0.phase->Reading_output.done,
        j.phase is Reading && e is StreamEnded ==> r.0.phase is PublishingDone
            && r.0.phase->PublishingDone_output@ == j.phase->Reading_output@,
        j.phase is Reading && e is Chunk ==> goes_on(
            GenerationView {
                pending: j.phase->Reading_output@.pending + generation::filled(
                    generation::lines(j.phase->Reading_output@.tail + e->bytes@),
                ),
                tail: generation::tail(j.phase->Reading_output@.tail + e->bytes@),
                ..j.phase->Reading_output@
            },
            r,
        ),
        j.phase is Decoding && e is Decoded && (e->chunk is None || e->chunk->0.response@.len()
            == 0) ==> goes_on(
            GenerationView {
                done: j.phase->Decoding_output@.done || (e->chunk is Some && e->chunk->0.done),
                ..j.phase->Decoding_output@
            },
            r,
        ),
        j.phase is Decoding && e is Decoded && e->chunk is Some && e->chunk->0.response@.len() > 0
            ==> r.0.phase is PublishingToken && r.0.phase->PublishingToken_output@ == (
        GenerationView {
            text: j.phase->Decoding_output@.text + e->chunk->0.response@,
            tokens: (j.phase->Decoding_output@.tokens + 1) as u32,
            done: j.phase->Decoding_output@.done || e->chunk->0.done,
            ..j.phase->Decoding_output@
        }),
        j.phase is PublishingToken && went_well(e) ==> goes_on(
            j.phase->PublishingToken_output@,
            r,
        ),
{
    let next = job::continuation(cfg@, j@, e@);
    assert(r.0@ == next.0 && r.1@ == next.1);
    assert(r.0.phase@ == r.0@.phase && j.phase@ == j@.phase);
    if let Event::Replied { status, detail } = e {
        answer_laws::lemma_refusal("ollama "@, status, detail@);
        answer_laws::lemma_refusal("publish "@, status, detail@);
    }
    if let Event::Decoded { chunk } = e {
        assert(e@ is Decoded);
    }
}

/// How a job goes on with output: the first line that waits is read next; where none waits, the end of
/// the output is published if a line has said that it is done, and more is awaited if not.
pub open spec fn goes_on(g: GenerationView, r: (Job, Action)) -> bool {
    if g.pending.len() > 0 {
        &&& r.1 is Decode && r.1->line@ == g.pending[0]
        &&& r.0.phase is Decoding && r.0.phase->Decoding_output@ == (GenerationView {
            pending: g.pending.skip(1),
            ..g
        })
    } else if g.done {
        r.0.phase is PublishingDone && r.0.phase->PublishingDone_output@ == g
    } else {
        r.1 is ReadChunk && r.0.phase is Reading && r.0.phase->Reading_output@ == g
    }
}

/// What a job does once its output is complete or it has failed. The whole text with its count goes to
/// the response queue of the work item, if it has one, and so does the error of a job that has failed
/// and could say so on the topic; whoever looks into it finds the correlation id, the worker's model,
/// and the text and the count, or the error. Then, in every case, the message is acknowledged, and the
/// job ends with its error, if it has one.
pub proof fn law_job_closing(
    cfg: &worker::Cfg,
    j: Job,
    e: Event,
    r: (Job, Action),
    document: &[u8],
    key: &str,
    found: Result<Option<Member>, String>,
)
    requires
        j@.awaits(e@),
        call_ensures(Job::step, (j, cfg, e), r),
        r.1 is Send ==> document@ == r.1->request.body@,
        json::looked_up(document, key, found),
    ensures
        j.phase is PublishingDone && went_well(e) && j.item.response_queue is Some ==> {
            &&& r.0.phase is SendingFinal && r.0.phase->queue@ == j.item.response_queue->0@
            &&& sends_to(*cfg, j.item.response_queue->0@, r.1)
            &&& key@ == "corr_id"@ ==> request_laws::text_found(found) == Some(j.item.corr_id@)
            &&& key@ == "model"@ ==> request_laws::text_found(found) == Some(cfg.model@)
            &&& key@ == "response"@ ==> request_laws::text_found(found) == Some(
                j.phase->PublishingDone_output.text@,
            )
            &&& key@ == "tokens"@ ==> request_laws::number_found(found) == Some(
                j.phase->PublishingDone_output.tokens as u64,
            )
        },
        j.phase is PublishingDone && went_well(e) && j.item.response_queue is None ==> acks_with(
            *cfg,
            j,
            r,
            None,
        ),
        j.phase is SendingFinal && went_well(e) ==> acks_with(*cfg, j, r, None),
        j.phase is PublishingError && went_well(e) && j.item.response_queue is Some ==> {
            &&& r.0.phase is SendingError
            &&& r.0.phase->SendingError_error@ == j.phase->PublishingError_error@
            &&& sends_to(*cfg, j.item.response_queue->0@, r.1)
            &&& key@ == "corr_id"@ ==> request_laws::text_found(found) == Some(j.item.corr_id@)
            &&& key@ == "model"@ ==> request_laws::text_found(found) == Some(cfg.model@)
            &&& key@ == "error"@ ==> request_laws::text_found(found) == Some(
                j.phase->PublishingError_error@,
            )
        },
        j.phase is PublishingError && (!went_well(e) || j.item.response_queue is None)
            ==> acks_with(*cfg, j, r, Some(j.phase->PublishingError_error@)),
        j.phase is SendingError ==> acks_with(*cfg, j, r, Some(j.phase->SendingError_error@)),
        j.phase is Acking ==> r.0.phase is Ended && r.1 is Finish && crate::web::opt_text(
            r.1->error,
        ) == crate::web::opt_text(j.phase->outcome),
{
    let next = job::continuation(cfg@, j@, e@);
    assert(r.0@ == next.0 && r.1@ == next.1);
    assert(r.0.phase@ == r.0@.phase && j.phase@ == j@.phase);
    if let Event::Replied { status, detail } = e {
        answer_laws::lemma_refusal("publish "@, status, detail@);
        if let job::Phase::SendingFinal { queue } = j.phase {
            answer_laws::lemma_refusal(job::send_what(queue@), status, detail@);
        }
    }
    if j.phase is PublishingDone && went_well(e) && j.item.response_queue is Some {
        request_laws::lemma_final_body(
            j.item.corr_id@,
            cfg.model@,
            j.phase->PublishingDone_output.text@,
            j.phase->PublishingDone_output.tokens,
            document,
            key,
            found,
        );
    }
    if j.phase is PublishingError && went_well(e) && j.item.response_queue is Some {
        request_laws::lemma_error_body(
            j.item.corr_id@,
            cfg.model@,
            j.phase->PublishingError_error@,
            document,
            key,
            found,
        );
    }
}

/// Whether a job acknowledges its message and then ends with this error, if any.
pub open spec fn acks_with(
    cfg: worker::Cfg,
    j: Job,
    r: (Job, Action),
    error: Option<Seq<char>>,
) -> bool {
    &&& r.0.phase is Acking && crate::web::opt_text(r.0.phase->outcome) == error
    &&& acknowledges(cfg, j.ack_token@, r.1)
}

/// A message whose work item cannot be read has no job; any other begins one for its work item.
pub proof fn law_handle_message(
    cfg: &worker::Cfg,
    item: Option<job::WorkItem>,
    ack_token: String,
    r: Result<(Job, Action), String>,
)
    requires
        call_ensures(job::handle_message, (cfg, item, ack_token), r),
    ensures
        item is None ==> r is Err && (r->Err_0)@ == "decoding work item"@,
        item is Some ==> r is Ok && (r->Ok_0).0.item@ == item->0@ && (r->Ok_0).0.ack_token@
            == ack_token@ && (r->Ok_0).0.phase is Asking && (r->Ok_0).1 is Send,
        item is Some ==> forall|prompt: &str, q: Request|
            prompt@ == item->0.prompt@ && #[trigger] call_ensures(
                worker::generate,
                (cfg, prompt),
                q,
            ) ==> (r->Ok_0).1->request@ == q@,
{
    if item is Some {
        assert((r->Ok_0).1@ is Send);
        assert((r->Ok_0).0@.phase is Asking);
        assert((r->Ok_0).0.phase@ == (r->Ok_0).0@.phase);
    }
}

// ---------------------------------------------------------------------------
// The whole text
// ---------------------------------------------------------------------------

/// Whether one who looks under a name in a document can find this text.
pub open spec fn shows(body: Seq<u8>, name: Seq<char>, text: Seq<char>) -> bool {
    exists|document: &[u8], key: &str, found: Result<Option<Member>, String>|
        #[trigger] json::looked_up(document, key, found) && document@ == body && key@ == name
            && request_laws::text_found(found) == Some(text)
}

/// Whether one who looks under a name in a document can find this number.
pub open spec fn shows_number(body: Seq<u8>, name: Seq<char>, n: u64) -> bool {
    exists|document: &[u8], key: &str, found: Result<Option<Member>, String>|
        #[trigger] json::looked_up(document, key, found) && document@ == body && key@ == name
            && request_laws::number_found(found) == Some(n)
}

/// Whether a request publishes about a work item under the subject of this kind of message.
pub open spec fn is_about(
    cfg: worker::CfgView,
    corr_id: Seq<char>,
    leaf: Seq<char>,
    request: RequestView,
) -> bool {
    &&& request.method == Method::Post
    &&& request.url == cfg.base + "/topics/"@ + "inference_responses"@ + "/publish"@
    &&& request.subject == Some("inference."@ + corr_id + "."@ + leaf)
}

/// What is read from a message that publishes a token is that token.
proof fn lemma_shown_token(
    cfg: worker::CfgView,
    corr_id: Seq<char>,
    token: Seq<char>,
    text: Seq<char>,
)
    requires
        shows(worker::token_request(cfg, corr_id, token).body, "token"@, text),
    ensures
        text == token,
{
    let (document, key, found) = choose|
        document: &[u8],
        key: &str,
        found: Result<Option<Member>, String>,
    |
        #[trigger] json::looked_up(document, key, found) && document@ == worker::token_request(
            cfg,
            corr_id,
            token,
        ).body && key@ == "token"@ && request_laws::text_found(found) == Some(text);
    reveal_strlit("token");
    lemma_one_text("token"@, token, document, key, found);
}

/// What is read from the message with the whole text is that text, and the count is that count.
proof fn lemma_shown_result(
    corr_id: Seq<char>,
    model: Seq<char>,
    response: Seq<char>,
    tokens: u32,
    text: Seq<char>,
    n: u64,
)
    requires
        shows(worker::final_bytes(corr_id, model, response, tokens), "response"@, text),
        shows_number(worker::final_bytes(corr_id, model, response, tokens), "tokens"@, n),
    ensures
        text == response,
        n == tokens,
{
    let body = worker::final_bytes(corr_id, model, response, tokens);
    let (d1, k1, f1) = choose|
        document: &[u8],
        key: &str,
        found: Result<Option<Member>, String>,
    |
        #[trigger] json::looked_up(document, key, found) && document@ == body && key@
            == "response"@ && request_laws::text_found(found) == Some(text);
    request_laws::lemma_final_body(corr_id, model, response, tokens, d1, k1, f1);
    let (d2, k2, f2) = choose|
        document: &[u8],
        key: &str,
        found: Result<Option<Member>, String>,
    |
        #[trigger] json::looked_up(document, key, found) && document@ == body && key@
            == "tokens"@ && request_laws::number_found(found) == Some(n);
    request_laws::lemma_final_body(corr_id, model, response, tokens, d2, k2, f2);
}

/// The stream and the result agree. Of a job that finishes well and whose work item names a response
/// queue, all that it sends after its request for output, but for the last three requests, goes to the
/// topic as tokens. The texts read from those under "token", joined in order, are the text read under
/// "response" from the message to the response queue, and their number is the one read there under
/// "tokens"; and they are the tokens that the model brought.
pub proof fn law_tokens_make_up_the_result(
    cfg: worker::CfgView,
    item: job::WorkItemView,
    ack_token: Seq<char>,
    events: Seq<job::EventView>,
    texts: Seq<Seq<char>>,
    result: Seq<char>,
    count: u64,
)
    requires
        job_laws::runs(cfg, job::beginning(cfg, item, ack_token).0, events),
        job_laws::last_action(
            cfg,
            job::beginning(cfg, item, ack_token).0,
            job::beginning(cfg, item, ack_token).1,
            events,
        ) == (job::ActionView::Finish { error: None }),
        item.response_queue is Some,
        ({
            let sent = job_laws::sent(cfg, job::beginning(cfg, item, ack_token).0, events);
            let n = texts.len() as int;
            &&& sent.len() == n + 3
            &&& forall|i: int|
                0 <= i < n ==> shows(#[trigger] sent[i].body, "token"@, #[trigger] texts[i])
            &&& shows(sent[n + 1].body, "response"@, result)
            &&& shows_number(sent[n + 1].body, "tokens"@, count)
        }),
    ensures
        result == job_laws::joined(texts),
        count == texts.len(),
        texts == job_laws::tokens(events),
        ({
            let sent = job_laws::sent(cfg, job::beginning(cfg, item, ack_token).0, events);
            let n = texts.len() as int;
            &&& forall|i: int|
                0 <= i < n ==> is_about(cfg, item.corr_id, "token"@, #[trigger] sent[i])
            &&& is_about(cfg, item.corr_id, "done"@, sent[n])
            &&& sent[n + 1].method == Method::Post
            &&& sent[n + 1].url == cfg.base + "/queues/"@ + item.response_queue->0
                + "/messages"@
            &&& sent[n + 2].method == Method::Delete
            &&& sent[n + 2].url == cfg.base + "/queues/"@ + cfg.queue + "/messages/"@ + ack_token
        }),
{
    job_laws::law_successful_job(cfg, item, ack_token, events);
    let sent = job_laws::sent(cfg, job::beginning(cfg, item, ack_token).0, events);
    let all = job_laws::tokens(events);
    let n = texts.len() as int;
    assert(sent.len() == all.len() + 3);
    assert forall|i: int| 0 <= i < n implies #[trigger] texts[i] == all[i] && is_about(
        cfg,
        item.corr_id,
        "token"@,
        sent[i],
    ) by {
        assert(sent[i] == worker::token_request(cfg, item.corr_id, all[i]));
        assert(shows(sent[i].body, "token"@, texts[i]));
        lemma_shown_token(cfg, item.corr_id, all[i], texts[i]);
        lemma_about(cfg, item.corr_id, "token"@, sent[i]);
    }
    assert(texts =~= all);
    assert forall|i: int| 0 <= i < n implies is_about(
        cfg,
        item.corr_id,
        "token"@,
        #[trigger] sent[i],
    ) by {
        assert(texts[i] == all[i]);
    }
    assert(sent[n] == worker::done_request(cfg, item.corr_id, n as u32));
    lemma_about(cfg, item.corr_id, "done"@, sent[n]);
    lemma_shown_result(
        item.corr_id,
        cfg.model,
        job_laws::joined(all),
        n as u32,
        result,
        count,
    );
}

/// Where messages about a work item go.
proof fn lemma_about(
    cfg: worker::CfgView,
    corr_id: Seq<char>,
    leaf: Seq<char>,
    request: RequestView,
)
    requires
        exists|document: Seq<char>|
            request == #[trigger] worker::response_request(cfg, corr_id, leaf, document),
    ensures
        is_about(cfg, corr_id, leaf, request),
{
}

// ---------------------------------------------------------------------------
// What a job waits for
// ---------------------------------------------------------------------------

/// A job that has sent a request waits for an answer or a failure, one that reads output for output,
/// its end or its breaking off, and one that reads a line for what the line says; one that has ended
/// waits for nothing. The one outcome that is not taken is a token beyond the largest count.
pub proof fn law_job_accepts(j: &Job, e: &Event, r: bool)
    requires
        call_ensures(Job::accepts, (j, e), r),
    ensures
        r <==> j@.awaits(e@),
        j.phase is Reading ==> (r <==> e is Chunk || e is StreamEnded || e is StreamFailed),
        j.phase is Decoding ==> (r <==> e is Decoded && (e->chunk is Some
            && e->chunk->0.response@.len() > 0 ==> j.phase->Decoding_output.tokens < 4294967295)),
        j.phase is Ended ==> !r,
        !(j.phase is Reading || j.phase is Decoding || j.phase is Ended) ==> (r <==> e is Replied
            || e is Failed),
{
    assert(j.phase@ == j@.phase);
    if let Event::Decoded { chunk } = *e {
        assert(e@ is Decoded);
    }
}

/// What is said of output is what it holds: the bytes that have not been read, cut into lines, and the
/// text, the count and whether it is done.
pub proof fn law_output_holds(g: Generation)
    ensures
        g@.pending == generation::filled(generation::lines(g.buf@)),
        g@.tail == generation::tail(g.buf@),
        g@.text == g.text@,
        g@.tokens == g.tokens,
        g@.done == g.done,
{
}

} // verus!
