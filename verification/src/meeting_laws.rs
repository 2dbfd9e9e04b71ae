//! Where router and workers meet on the messaging service: work, replies and tokens arrive where the
//! other side looks for them.
use crate::json;
use crate::names;
use crate::router;
use crate::worker;
use vstd::prelude::*;

verus! {

/// A correlation id is made of characters that the service admits in names, is short enough for the
/// name of a response queue, and is one token of a subject.
pub proof fn law_corr_id_fits(corr_id: Seq<char>)
    requires
        router::is_corr_id(corr_id),
    ensures
        corr_id.len() == 37,
        forall|i: int| 0 <= i < corr_id.len() ==> names::is_name_char(#[trigger] corr_id[i]),
        names::valid_name(names::response_queue_name(names::Surface::Flat, corr_id)),
        crate::naming_laws::is_token(corr_id),
        corr_id != seq!['*'],
{
    reveal_strlit("corr_");
    let uuid = choose|uuid: Seq<char>|
        #![trigger router::corr_id_text(uuid)]
        crate::outside::is_simple_uuid(uuid) && corr_id == router::corr_id_text(uuid);
    assert(corr_id == "corr_"@ + uuid);
    assert forall|i: int| 0 <= i < corr_id.len() implies names::is_name_char(
        #[trigger] corr_id[i],
    ) by {
        if i >= 5 {
            assert(corr_id[i] == uuid[i - 5]);
            assert(crate::outside::is_hex(uuid[i - 5]));
        }
    }
    crate::naming_laws::law_response_queue_admitted(corr_id);
    if corr_id.contains('.') {
        let i = choose|i: int| 0 <= i < corr_id.len() && corr_id[i] == '.';
        assert(names::is_name_char(corr_id[i]));
    }
}

/// On the live service the router's work for a model goes to the queue on which a worker for that
/// model waits, for every plain model name.
pub proof fn law_work_reaches_worker(
    cfg: router::CfgView,
    w: worker::CfgView,
    document: Seq<char>,
)
    requires
        cfg.surface == names::Surface::Flat,
        cfg.base == w.base,
        w.well_formed(),
        crate::naming_laws::plain_model(w.model),
    ensures
        router::send_request(cfg, names::work_queue_name(cfg.surface, w.model), document).url
            == router::queue_url(w.base, w.queue) + "/messages"@,
        worker::receive_request(w).url == router::queue_url(w.base, w.queue) + "/messages?wait="@
            + crate::text::decimal_text(20),
{
    crate::naming_laws::law_router_and_worker_meet(w.model);
}

/// On the live service what a worker sends to the response queue of a work item goes to the queue on
/// which the router waits for it.
pub proof fn law_reply_reaches_router(
    cfg: router::CfgView,
    w: worker::CfgView,
    x: crate::exchange::ExchangeView,
    document: Seq<u8>,
)
    requires
        cfg.surface == names::Surface::Flat,
        cfg.base == w.base,
    ensures
        worker::send_request(w, crate::exchange::reply_queue(cfg, x), document).url
            == router::queue_url(cfg.base, crate::exchange::reply_queue(cfg, x)) + "/messages"@,
        router::receive_request(
            cfg,
            crate::exchange::reply_queue(cfg, x),
            cfg.reqres_poll_secs,
        ).url == router::queue_url(cfg.base, crate::exchange::reply_queue(cfg, x))
            + "/messages?wait="@ + crate::text::decimal_text(cfg.reqres_poll_secs as nat),
{
}

/// On the live service everything that a worker publishes about a request is published to the topic to
/// which the router subscribes a streaming caller, under a subject that the caller's filter selects
/// exactly when it is about the caller's own request.
pub proof fn law_tokens_reach_subscriber(
    w: worker::CfgView,
    mine: Seq<char>,
    other: Seq<char>,
    leaf: Seq<char>,
    body: Seq<char>,
)
    requires
        router::is_corr_id(mine),
        router::is_corr_id(other),
        leaf == "token"@ || leaf == "done"@ || leaf == "error"@,
    ensures
        worker::response_request(w, other, leaf, body).url == worker::publish_url(
            w.base,
            names::response_topic_name(names::Surface::Flat),
        ),
        worker::response_request(w, other, leaf, body).subject is Some,
        names::selects(
            names::response_filter_name(mine),
            worker::response_request(w, other, leaf, body).subject->0,
        ) <==> mine == other,
{
    law_corr_id_fits(mine);
    law_corr_id_fits(other);
    reveal_strlit("token");
    reveal_strlit("done");
    reveal_strlit("error");
    assert(crate::naming_laws::is_token(leaf));
    crate::naming_laws::law_filter_isolates_request(mine, other, leaf);
}

/// The members of the document that asks for work.
pub open spec fn work_members(
    corr_id: Seq<char>,
    model: Seq<char>,
    prompt: Seq<char>,
    response_queue: Option<Seq<char>>,
) -> Seq<(Seq<char>, json::Value)> {
    seq![
        ("corr_id"@, json::Value::Text { text: corr_id }),
        ("model"@, json::Value::Text { text: model }),
        ("prompt"@, json::Value::Text { text: prompt }),
        ("response_queue"@, json::text_or_null(response_queue)),
    ]
}

/// Whoever looks into the body of a request for work finds the correlation id, the model, the prompt
/// and the response queue as they were given, whatever characters they are made of, and null where no
/// response queue was given.
pub proof fn law_work_reads_back(
    cfg: router::CfgView,
    queue: Seq<char>,
    corr_id: Seq<char>,
    model: Seq<char>,
    prompt: Seq<char>,
    response_queue: Option<Seq<char>>,
    i: int,
    document: &[u8],
    key: &str,
    found: Result<Option<crate::outside::Member>, String>,
)
    requires
        document@ == router::send_request(
            cfg,
            queue,
            router::work_document(corr_id, model, prompt, response_queue),
        ).body,
        0 <= i < 4,
        key@ == work_members(corr_id, model, prompt, response_queue)[i].0,
        json::looked_up(document, key, found),
    ensures
        json::finds(
            crate::outside::member_view(found),
            work_members(corr_id, model, prompt, response_queue)[i].1,
        ),
{
    reveal_strlit("corr_id");
    reveal_strlit("model");
    reveal_strlit("prompt");
    reveal_strlit("response_queue");
    let members = work_members(corr_id, model, prompt, response_queue);
    assert("corr_id"@.len() == 7 && "model"@.len() == 5 && "prompt"@.len() == 6
        && "response_queue"@.len() == 14);
    assert(json::plainly_named(members));
    assert(members.map_values(|m: (Seq<char>, json::Value)| (m.0, json::value_text(m.1)))
        =~= seq![
        ("corr_id"@, crate::outside::json_string(corr_id)),
        ("model"@, crate::outside::json_string(model)),
        ("prompt"@, crate::outside::json_string(prompt)),
        ("response_queue"@, json::optional_string(response_queue)),
    ]);
    json::law_members_read_back(members, i, document, key, found);
}

/// The members of a heartbeat.
pub open spec fn heartbeat_members(w: worker::CfgView, ts: u64) -> Seq<(Seq<char>, json::Value)> {
    seq![
        ("worker_id"@, json::Value::Text { text: w.worker_id }),
        ("model"@, json::Value::Text { text: w.model }),
        ("region"@, json::Value::Text { text: w.region }),
        ("ts"@, json::Value::Number { n: ts }),
    ]
}

/// Whoever looks into the body of a heartbeat finds the worker's id, its model, its region and the
/// moment as the worker published them.
pub proof fn law_heartbeat_reads_back(
    w: worker::CfgView,
    ts: u64,
    i: int,
    document: &[u8],
    key: &str,
    found: Result<Option<crate::outside::Member>, String>,
)
    requires
        document@ == worker::heartbeat_request(w, ts).body,
        0 <= i < 4,
        key@ == heartbeat_members(w, ts)[i].0,
        json::looked_up(document, key, found),
    ensures
        json::finds(crate::outside::member_view(found), heartbeat_members(w, ts)[i].1),
{
    reveal_strlit("worker_id");
    reveal_strlit("model");
    reveal_strlit("region");
    reveal_strlit("ts");
    let members = heartbeat_members(w, ts);
    assert("worker_id"@.len() == 9 && "model"@.len() == 5 && "region"@.len() == 6 && "ts"@.len()
        == 2);
    assert(json::plainly_named(members));
    assert(members.map_values(|m: (Seq<char>, json::Value)| (m.0, json::value_text(m.1)))
        =~= seq![
        ("worker_id"@, crate::outside::json_string(w.worker_id)),
        ("model"@, crate::outside::json_string(w.model)),
        ("region"@, crate::outside::json_string(w.region)),
        ("ts"@, crate::text::decimal_text(ts as nat)),
    ]);
    json::law_members_read_back(members, i, document, key, found);
}

/// The members of the document that holds the whole output of a model.
pub open spec fn final_members(
    corr_id: Seq<char>,
    model: Seq<char>,
    response: Seq<char>,
    tokens: u32,
) -> Seq<(Seq<char>, json::Value)> {
    seq![
        ("corr_id"@, json::Value::Text { text: corr_id }),
        ("model"@, json::Value::Text { text: model }),
        ("response"@, json::Value::Text { text: response }),
        ("tokens"@, json::Value::Number { n: tokens as u64 }),
    ]
}

/// Whoever looks into the whole output that a worker sends to a response queue finds the correlation
/// id, the model, the text and the count of tokens as the worker had them.
pub proof fn law_result_reads_back(
    w: worker::CfgView,
    queue: Seq<char>,
    corr_id: Seq<char>,
    response: Seq<char>,
    tokens: u32,
    i: int,
    document: &[u8],
    key: &str,
    found: Result<Option<crate::outside::Member>, String>,
)
    requires
        document@ == worker::send_request(
            w,
            queue,
            worker::final_bytes(corr_id, w.model, response, tokens),
        ).body,
        0 <= i < 4,
        key@ == final_members(corr_id, w.model, response, tokens)[i].0,
        json::looked_up(document, key, found),
    ensures
        json::finds(
            crate::outside::member_view(found),
            final_members(corr_id, w.model, response, tokens)[i].1,
        ),
{
    reveal_strlit("corr_id");
    reveal_strlit("model");
    reveal_strlit("response");
    reveal_strlit("tokens");
    let members = final_members(corr_id, w.model, response, tokens);
    assert("corr_id"@.len() == 7 && "model"@.len() == 5 && "response"@.len() == 8
        && "tokens"@.len() == 6);
    assert(json::plainly_named(members));
    assert(members.map_values(|m: (Seq<char>, json::Value)| (m.0, json::value_text(m.1)))
        =~= seq![
        ("corr_id"@, crate::outside::json_string(corr_id)),
        ("model"@, crate::outside::json_string(w.model)),
        ("response"@, crate::outside::json_string(response)),
        ("tokens"@, crate::text::decimal_text(tokens as nat)),
    ]);
    json::law_members_read_back(members, i, document, key, found);
}

/// The members of the document that says why there is no output.
pub open spec fn error_members(corr_id: Seq<char>, model: Seq<char>, error: Seq<char>) -> Seq<
    (Seq<char>, json::Value),
> {
    seq![
        ("corr_id"@, json::Value::Text { text: corr_id }),
        ("model"@, json::Value::Text { text: model }),
        ("error"@, json::Value::Text { text: error }),
    ]
}

/// Whoever looks into the error that a worker sends to a response queue finds the correlation id, the
/// model and the error as the worker had them.
pub proof fn law_error_reads_back(
    w: worker::CfgView,
    queue: Seq<char>,
    corr_id: Seq<char>,
    error: Seq<char>,
    i: int,
    document: &[u8],
    key: &str,
    found: Result<Option<crate::outside::Member>, String>,
)
    requires
        document@ == worker::send_request(
            w,
            queue,
            worker::error_bytes(corr_id, w.model, error),
        ).body,
        0 <= i < 3,
        key@ == error_members(corr_id, w.model, error)[i].0,
        json::looked_up(document, key, found),
    ensures
        json::finds(
            crate::outside::member_view(found),
            error_members(corr_id, w.model, error)[i].1,
        ),
{
    reveal_strlit("corr_id");
    reveal_strlit("model");
    reveal_strlit("error");
    let members = error_members(corr_id, w.model, error);
    assert("corr_id"@.len() == 7 && "model"@.len() == 5 && "error"@.len() == 5);
    assert("model"@[0] == 'm' && "error"@[0] == 'e');
    assert(json::plainly_named(members));
    assert(members.map_values(|m: (Seq<char>, json::Value)| (m.0, json::value_text(m.1)))
        =~= seq![
        ("corr_id"@, crate::outside::json_string(corr_id)),
        ("model"@, crate::outside::json_string(w.model)),
        ("error"@, crate::outside::json_string(error)),
    ]);
    json::law_members_read_back(members, i, document, key, found);
}

} // verus!
