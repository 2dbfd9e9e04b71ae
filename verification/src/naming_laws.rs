//! What holds of the names as a whole: normal forms, names that the service admits, the meeting
//! of router and workers on one queue, and the isolation of one request's messages.
use crate::names;
use vstd::prelude::*;

verus! {

/// The router's form of a model name keeps the length, holds no reserved character, and is its own
/// normal form.
pub proof fn law_model_normal_form(model: Seq<char>)
    ensures
        names::normalized_model(model).len() == model.len(),
        forall|i: int|
            0 <= i < model.len() ==> !names::is_reserved(#[trigger] names::normalized_model(model)[i]),
        names::normalized_model(names::normalized_model(model)) == names::normalized_model(model),
{
    assert(names::normalized_model(names::normalized_model(model)) =~= names::normalized_model(model));
}

/// A worker's form of a non-empty text is a name that the service admits, and its own normal form.
pub proof fn law_name_normal_form(s: Seq<char>)
    ensures
        s.len() > 0 ==> names::valid_name(names::normalized_name(s)),
        names::normalized_name(names::normalized_name(s)) == names::normalized_name(s),
{
    assert(names::normalized_name(names::normalized_name(s)) =~= names::normalized_name(s));
}

/// Whether router and workers write a model name alike: every character is one that the service
/// admits or one that the router replaces, and there are no more than the longest name holds.
pub open spec fn plain_model(model: Seq<char>) -> bool {
    &&& model.len() <= names::MAX_NAME
    &&& forall|i: int|
        0 <= i < model.len() ==> (names::is_name_char(#[trigger] model[i]) || names::is_reserved(model[i]))
}

/// Router and workers write a model name alike exactly for plain model names.
pub proof fn law_forms_agree(model: Seq<char>)
    ensures
        names::normalized_model(model) == names::normalized_name(model) <==> plain_model(model),
{
    let a = names::normalized_model(model);
    let b = names::normalized_name(model);
    if plain_model(model) {
        assert(a =~= b);
    }
    if a == b {
        assert forall|i: int| 0 <= i < model.len() implies (names::is_name_char(#[trigger] model[i])
            || names::is_reserved(model[i])) by {
            assert(a.len() == b.len());
            assert(a[i] == names::model_char(model[i]));
            assert(b[i] == names::name_char(model[i]));
        }
    }
}

/// On the live service the router sends the work for a model to the very queue that a worker for
/// that model takes its work from, exactly when the two write the model name alike.
pub proof fn law_router_and_worker_meet(model: Seq<char>)
    ensures
        names::work_queue_name(names::Surface::Flat, model) == names::worker_queue_name(model) <==> plain_model(
            model,
        ),
{
    law_forms_agree(model);
    let p = "inference_req_"@;
    let a = names::normalized_model(model);
    let b = names::normalized_name(model);
    assert((p + a).skip(p.len() as int) =~= a);
    assert((p + b).skip(p.len() as int) =~= b);
}

/// A name made of an admitted prefix and more admitted characters is admitted as long as it is not
/// too long.
proof fn lemma_joined_name(prefix: Seq<char>, rest: Seq<char>)
    requires
        prefix.len() > 0,
        forall|i: int| 0 <= i < prefix.len() ==> names::is_name_char(#[trigger] prefix[i]),
        forall|i: int| 0 <= i < rest.len() ==> names::is_name_char(#[trigger] rest[i]),
    ensures
        names::valid_name(prefix + rest) <==> prefix.len() + rest.len() <= names::MAX_NAME,
{
}

/// The service admits a worker's queue name exactly when the model's normal form has at most fifty
/// characters.
pub proof fn law_worker_queue_admitted(model: Seq<char>)
    ensures
        names::valid_name(names::worker_queue_name(model)) <==> names::normalized_name(model).len() <= 50,
{
    reveal_strlit("inference_req_");
    lemma_joined_name("inference_req_"@, names::normalized_name(model));
}

/// The service admits the router's work queue for every plain model name of at most fifty
/// characters.
pub proof fn law_work_queue_admitted(model: Seq<char>)
    requires
        plain_model(model),
        model.len() <= 50,
    ensures
        names::valid_name(names::work_queue_name(names::Surface::Flat, model)),
{
    law_forms_agree(model);
    law_worker_queue_admitted(model);
}

/// The live service admits the response queue of every correlation id of at most 49 admitted
/// characters.
pub proof fn law_response_queue_admitted(corr_id: Seq<char>)
    requires
        forall|i: int| 0 <= i < corr_id.len() ==> names::is_name_char(#[trigger] corr_id[i]),
        corr_id.len() <= 49,
    ensures
        names::valid_name(names::response_queue_name(names::Surface::Flat, corr_id)),
{
    reveal_strlit("inference_resp_");
    lemma_joined_name("inference_resp_"@, corr_id);
}

/// The live service admits the two topics.
pub proof fn law_topics_admitted()
    ensures
        names::valid_name(names::response_topic_name(names::Surface::Flat)),
        names::valid_name(names::presence_topic_name()),
{
    reveal_strlit("inference_responses");
    reveal_strlit("worker_presence");
}

/// Whether a text can stand as one token of a subject: not empty, no dot.
pub open spec fn is_token(s: Seq<char>) -> bool {
    s.len() > 0 && !s.contains('.')
}

proof fn lemma_tokens_nonempty(s: Seq<char>)
    ensures
        names::tokens(s).len() > 0,
    decreases s.len(),
{
    if s.len() > 0 {
        lemma_tokens_nonempty(s.drop_last());
    }
}

/// Appending dotless characters extends the last token.
proof fn lemma_tokens_extend(s: Seq<char>, t: Seq<char>)
    requires
        !t.contains('.'),
    ensures
        names::tokens(s + t) == names::tokens(s).update(names::tokens(s).len() - 1, names::tokens(s).last() + t),
    decreases t.len(),
{
    lemma_tokens_nonempty(s);
    let ts = names::tokens(s);
    if t.len() == 0 {
        assert(s + t =~= s);
        assert(ts.last() + t =~= ts.last());
        assert(ts.update(ts.len() - 1, ts.last()) =~= ts);
    } else {
        let u = t.drop_last();
        assert(t.last() != '.') by {
            assert(t[t.len() - 1] == t.last());
        }
        assert(!u.contains('.')) by {
            if u.contains('.') {
                let i = choose|i: int| 0 <= i < u.len() && u[i] == '.';
                assert(t[i] == '.');
            }
        }
        lemma_tokens_extend(s, u);
        assert((s + t).drop_last() =~= s + u);
        assert((ts.last() + u).push(t.last()) =~= ts.last() + t);
        let mid = ts.update(ts.len() - 1, ts.last() + u);
        assert(mid.update(mid.len() - 1, (ts.last() + u).push(t.last())) =~= ts.update(
            ts.len() - 1,
            ts.last() + t,
        ));
    }
}

/// A dot starts a fresh token.
proof fn lemma_tokens_dot(s: Seq<char>)
    ensures
        names::tokens(s.push('.')) == names::tokens(s).push(Seq::<char>::empty()),
{
    assert(s.push('.').drop_last() =~= s);
}

proof fn lemma_three_tokens(a: Seq<char>, b: Seq<char>, c: Seq<char>)
    requires
        !a.contains('.'),
        !b.contains('.'),
        !c.contains('.'),
    ensures
        names::tokens((a.push('.') + b).push('.') + c) == seq![a, b, c],
{
    let e = Seq::<char>::empty();
    lemma_tokens_extend(e, a);
    assert(e + a =~= a);
    assert(names::tokens(a) =~= seq![a]);
    lemma_tokens_dot(a);
    assert(names::tokens(a.push('.')) =~= seq![a, e]);
    lemma_tokens_extend(a.push('.'), b);
    assert(e + b =~= b);
    assert(names::tokens(a.push('.') + b) =~= seq![a, b]);
    lemma_tokens_dot(a.push('.') + b);
    assert(names::tokens((a.push('.') + b).push('.')) =~= seq![a, b, e]);
    lemma_tokens_extend((a.push('.') + b).push('.'), c);
    assert(e + c =~= c);
    assert(names::tokens((a.push('.') + b).push('.') + c) =~= seq![a, b, c]);
}

/// The filter of one request selects what is published about that request, whatever the leaf, and
/// nothing that is published about another.
pub proof fn law_filter_isolates_request(mine: Seq<char>, other: Seq<char>, leaf: Seq<char>)
    requires
        is_token(mine),
        mine != seq!['*'],
        is_token(other),
        is_token(leaf),
    ensures
        names::selects(names::response_filter_name(mine), names::response_subject_name(other, leaf)) <==> mine == other,
{
    reveal_strlit("inference.");
    reveal_strlit(".");
    reveal_strlit(".*");
    let head = seq!['i', 'n', 'f', 'e', 'r', 'e', 'n', 'c', 'e'];
    let star = seq!['*'];
    assert("inference."@ =~= head.push('.'));
    assert("."@ =~= seq!['.']);
    assert(names::response_filter_name(mine) =~= (head.push('.') + mine).push('.') + star);
    assert(names::response_subject_name(other, leaf) =~= (head.push('.') + other).push('.') + leaf);
    lemma_three_tokens(head, mine, star);
    lemma_three_tokens(head, other, leaf);
    let f = names::tokens(names::response_filter_name(mine));
    let s = names::tokens(names::response_subject_name(other, leaf));
    assert(f[0] == s[0] && f[1] == mine && s[1] == other && f[2] == star);
}

// ---------------------------------------------------------------------------
// Names as they are given back
// ---------------------------------------------------------------------------

/// The router writes a model name character by character: colons, dots, slashes and spaces become
/// dashes, and every other character stays, however long the name is.
pub proof fn law_normalize_model(model: &str, r: String)
    requires
        call_ensures(names::normalize_model, (model,), r),
    ensures
        r@.len() == model@.len(),
        forall|i: int|
            0 <= i < model@.len() ==> #[trigger] r@[i] == (if model@[i] == ':' || model@[i] == '.'
                || model@[i] == '/' || model@[i] == ' ' {
                '-'
            } else {
                model@[i]
            }),
{
}

/// A worker writes a name character by character, up to the sixty-fourth: letters, digits, underscores
/// and dashes stay, and every other character becomes a dash.
pub proof fn law_normalize_name(s: &str, r: String)
    requires
        call_ensures(names::normalize_name, (s,), r),
    ensures
        r@.len() == if s@.len() <= 64 {
            s@.len()
        } else {
            64
        },
        forall|i: int|
            0 <= i < r@.len() ==> #[trigger] r@[i] == (if 'A' <= s@[i] <= 'Z' || 'a' <= s@[i]
                <= 'z' || '0' <= s@[i] <= '9' || s@[i] == '_' || s@[i] == '-' {
                s@[i]
            } else {
                '-'
            }),
{
}

/// The queues for a model are named after the model as router and worker write it, and different
/// writings give different queues.
pub proof fn law_work_queues(
    surface: names::Surface,
    model: &str,
    queue: String,
    normalized: String,
    other: &str,
    other_queue: String,
    other_normalized: String,
)
    requires
        call_ensures(names::work_queue, (surface, model), queue),
        call_ensures(names::normalize_model, (model,), normalized),
        call_ensures(names::work_queue, (surface, other), other_queue),
        call_ensures(names::normalize_model, (other,), other_normalized),
    ensures
        surface == names::Surface::Flat ==> queue@ == "inference_req_"@ + normalized@,
        surface == names::Surface::Dotted ==> queue@ == "inference."@ + normalized@ + ".req"@,
        queue@ == other_queue@ <==> normalized@ == other_normalized@,
{
    lemma_middle("inference_req_"@, normalized@, other_normalized@, Seq::empty());
    lemma_middle("inference."@, normalized@, other_normalized@, ".req"@);
    assert("inference_req_"@ + normalized@ + Seq::<char>::empty() =~= "inference_req_"@
        + normalized@);
    assert("inference_req_"@ + other_normalized@ + Seq::<char>::empty() =~= "inference_req_"@
        + other_normalized@);
}

/// What stands between two fixed texts is settled by the whole.
pub proof fn lemma_middle(head: Seq<char>, a: Seq<char>, b: Seq<char>, tail: Seq<char>)
    ensures
        head + a + tail == head + b + tail <==> a == b,
{
    if head + a + tail == head + b + tail {
        assert((head + a + tail).len() == (head + b + tail).len());
        assert((head + a + tail).subrange(head.len() as int, (head.len() + a.len()) as int) =~= a);
        assert((head + b + tail).subrange(head.len() as int, (head.len() + b.len()) as int) =~= b);
    }
}

/// The queue of a worker is named after its model as it writes it.
pub proof fn law_worker_queue(model: &str, queue: String, normalized: String)
    requires
        call_ensures(names::worker_queue, (model,), queue),
        call_ensures(names::normalize_name, (model,), normalized),
    ensures
        queue@ == "inference_req_"@ + normalized@,
{
}

/// A response queue is named after its correlation id, all of it, so that no two requests share one.
pub proof fn law_response_queues(
    surface: names::Surface,
    corr_id: &str,
    queue: String,
    other: &str,
    other_queue: String,
)
    requires
        call_ensures(names::response_queue, (surface, corr_id), queue),
        call_ensures(names::response_queue, (surface, other), other_queue),
    ensures
        surface == names::Surface::Flat ==> queue@ == "inference_resp_"@ + corr_id@,
        surface == names::Surface::Dotted ==> queue@ == "inference.resp."@ + corr_id@,
        queue@ == other_queue@ <==> corr_id@ == other@,
{
    let none = Seq::<char>::empty();
    lemma_middle("inference_resp_"@, corr_id@, other@, none);
    lemma_middle("inference.resp."@, corr_id@, other@, none);
    assert("inference_resp_"@ + corr_id@ + none =~= "inference_resp_"@ + corr_id@);
    assert("inference_resp_"@ + other@ + none =~= "inference_resp_"@ + other@);
    assert("inference.resp."@ + corr_id@ + none =~= "inference.resp."@ + corr_id@);
    assert("inference.resp."@ + other@ + none =~= "inference.resp."@ + other@);
}

/// The topics.
pub proof fn law_topics(surface: names::Surface, r: String)
    ensures
        call_ensures(names::response_topic, (surface,), r) && surface == names::Surface::Flat
            ==> r@ == "inference_responses"@,
        call_ensures(names::response_topic, (surface,), r) && surface == names::Surface::Dotted
            ==> r@ == "inference.responses"@,
        call_ensures(names::presence_topic, (), r) ==> r@ == "worker_presence"@,
{
}

/// The subject of a message about a request has three tokens: the second is the correlation id and the
/// third the leaf. The filter for a correlation id selects it exactly when it is about that id.
pub proof fn law_subjects_and_filters(
    mine: &str,
    filter: String,
    other: &str,
    leaf: &str,
    subject: String,
)
    requires
        call_ensures(names::response_filter, (mine,), filter),
        call_ensures(names::response_subject, (other, leaf), subject),
        is_token(mine@),
        mine@ != seq!['*'],
        is_token(other@),
        is_token(leaf@),
    ensures
        names::tokens(subject@) == seq!["inference"@, other@, leaf@],
        names::tokens(filter@) == seq!["inference"@, mine@, seq!['*']],
        names::selects(filter@, subject@) <==> mine@ == other@,
{
    reveal_strlit("inference.");
    reveal_strlit("inference");
    reveal_strlit(".");
    reveal_strlit(".*");
    assert("inference."@ =~= "inference"@.push('.'));
    assert(filter@ =~= ("inference"@.push('.') + mine@).push('.') + seq!['*']);
    assert(subject@ =~= ("inference"@.push('.') + other@).push('.') + leaf@);
    lemma_three_tokens("inference"@, mine@, seq!['*']);
    lemma_three_tokens("inference"@, other@, leaf@);
    law_filter_isolates_request(mine@, other@, leaf@);
}

/// The subject of a worker's heartbeats has three tokens: the second is the worker's id and the third
/// its model.
pub proof fn law_presence_subject(worker_id: &str, normalized: &str, r: String)
    requires
        call_ensures(names::presence_subject, (worker_id, normalized), r),
        is_token(worker_id@),
        is_token(normalized@),
    ensures
        names::tokens(r@) == seq!["presence"@, worker_id@, normalized@],
{
    reveal_strlit("presence.");
    reveal_strlit("presence");
    reveal_strlit(".");
    assert(r@ =~= ("presence"@.push('.') + worker_id@).push('.') + normalized@);
    lemma_three_tokens("presence"@, worker_id@, normalized@);
}

} // verus!
