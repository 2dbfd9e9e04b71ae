//! What holds of the presence store: heartbeats are filed by model and worker, a replay changes
//! nothing, and a model can be served exactly while one of its workers was seen recently enough.
use crate::presence;
use vstd::prelude::*;

verus! {

/// The presence store: records by key.
pub type Store = Map<Seq<char>, presence::RecordView>;

/// The store after a heartbeat.
pub open spec fn after_heartbeat(store: Store, msg: presence::MessageView) -> Store {
    store.insert(presence::record_key(msg.model, msg.worker_id), presence::record_of(msg))
}

/// Whether the store holds a worker for a model that was seen recently enough.
pub open spec fn servable(store: Store, model: Seq<char>, now: u64, max_age_secs: u64) -> bool {
    exists|k: Seq<char>|
        #![trigger store.dom().contains(k)]
        store.dom().contains(k) && presence::key_prefix(model).is_prefix_of(k) && presence::fresh(
            store[k],
            now,
            max_age_secs,
        )
}

/// What the store gives for a list of keys.
pub open spec fn records_at(store: Store, keys: Seq<Seq<char>>) -> Seq<
    Option<presence::RecordView>,
> {
    keys.map_values(
        |k: Seq<char>|
            if store.dom().contains(k) {
                Some(store[k])
            } else {
                None
            },
    )
}

/// The first colon after the fixed head of a key ends the model.
proof fn lemma_prefix_of_key(m1: Seq<char>, m2: Seq<char>, worker: Seq<char>)
    ensures
        presence::key_prefix(m2).is_prefix_of(presence::record_key(m1, worker))
            <==> crate::names::normalized_model(m1) == crate::names::normalized_model(m2),
{
    reveal_strlit("presence:");
    reveal_strlit(":");
    crate::naming_laws::law_model_normal_form(m1);
    crate::naming_laws::law_model_normal_form(m2);
    let a = crate::names::normalized_model(m1);
    let b = crate::names::normalized_model(m2);
    let key = presence::record_key(m1, worker);
    let p = presence::key_prefix(m2);
    assert(key.len() == 10 + a.len() + worker.len());
    assert(p.len() == 10 + b.len());
    assert(forall|i: int| 0 <= i < a.len() ==> key[9 + i] == a[i]);
    assert(key[9 + a.len() as int] == ':');
    assert(forall|i: int| 0 <= i < b.len() ==> p[9 + i] == b[i]);
    assert(p[9 + b.len() as int] == ':');
    if a == b {
        assert(p =~= key.subrange(0, p.len() as int));
    }
    if p.is_prefix_of(key) {
        assert(forall|i: int| 0 <= i < p.len() ==> p[i] == key[i]);
        if b.len() < a.len() {
            assert(p[9 + b.len() as int] == key[9 + b.len() as int]);
            assert(a[b.len() as int] == ':');
        } else if a.len() < b.len() {
            assert(p[9 + a.len() as int] == key[9 + a.len() as int]);
            assert(b[a.len() as int] == ':');
        } else {
            assert forall|i: int| 0 <= i < a.len() implies a[i] == b[i] by {
                assert(p[9 + i] == key[9 + i]);
            }
            assert(a =~= b);
        }
    }
}

/// The keys of a model select the workers of that model and of no other, whatever their ids: model
/// names that the router writes alike count as one.
pub proof fn law_prefix_selects_model(model: Seq<char>, other: Seq<char>, worker_id: Seq<char>)
    ensures
        presence::key_prefix(model).is_prefix_of(presence::record_key(other, worker_id))
            <==> crate::names::normalized_model(model) == crate::names::normalized_model(other),
{
    lemma_prefix_of_key(other, model, worker_id);
}

/// A key stands for one model and one worker.
pub proof fn law_key_identifies_worker(
    m1: Seq<char>,
    w1: Seq<char>,
    m2: Seq<char>,
    w2: Seq<char>,
)
    ensures
        presence::record_key(m1, w1) == presence::record_key(m2, w2) <==> (
        crate::names::normalized_model(m1) == crate::names::normalized_model(m2) && w1 == w2),
{
    let k1 = presence::record_key(m1, w1);
    let k2 = presence::record_key(m2, w2);
    if k1 == k2 {
        let p = presence::key_prefix(m2);
        assert(k2.subrange(0, p.len() as int) =~= p);
        lemma_prefix_of_key(m1, m2, w1);
        assert(k1.skip(p.len() as int) =~= w1);
        assert(k2.skip(p.len() as int) =~= w2);
    }
}

/// How documents are read as heartbeats.
pub type Reader = spec_fn(Seq<u8>) -> Option<presence::MessageView>;

/// The heartbeat of a payload, with documents read as `read` has it.
pub open spec fn heartbeat_in(read: Reader, payload: Seq<u8>) -> Result<
    presence::MessageView,
    Seq<char>,
> {
    presence::heartbeat_of(
        read(payload),
        match presence::envelope_documents(
            crate::outside::document_member(payload, "body"@),
            crate::outside::document_member(payload, "data"@),
            crate::outside::document_member(payload, "message"@),
        ) {
            Ok(documents) => Ok(documents.map_values(read)),
            Err(e) => Err(e),
        },
    )
}

/// Whether an envelope holds something under one of its keys and nothing under the others.
pub open spec fn holds_only(
    envelope: Seq<u8>,
    key: Seq<char>,
    member: (Seq<char>, Option<Seq<char>>),
) -> bool {
    forall|k: Seq<char>|
        k == "body"@ || k == "data"@ || k == "message"@
            ==> #[trigger] crate::outside::document_member(envelope, k) == Ok::<
            Option<(Seq<char>, Option<Seq<char>>)>,
            Seq<char>,
        >(
            if k == key {
                Some(member)
            } else {
                None
            },
        )
}

/// Bare and enveloped heartbeats are accepted alike: a document that is a heartbeat gives the same
/// heartbeat by itself, as the one member of an envelope, and as a string that is the one member of an
/// envelope.
pub proof fn law_envelopes_do_not_matter(
    read: Reader,
    heartbeat: Seq<char>,
    msg: presence::MessageView,
    key: Seq<char>,
    envelope: Seq<u8>,
    quoted: Seq<char>,
    quoting: Seq<u8>,
)
    requires
        key == "body"@ || key == "data"@ || key == "message"@,
        read(vstd::utf8::encode_utf8(heartbeat)) == Some(msg),
        read(envelope) is None,
        holds_only(envelope, key, (heartbeat, None)),
        read(quoting) is None,
        holds_only(quoting, key, (quoted, Some(heartbeat))),
        read(vstd::utf8::encode_utf8(quoted)) is None,
    ensures
        heartbeat_in(read, vstd::utf8::encode_utf8(heartbeat)) == Ok::<
            presence::MessageView,
            Seq<char>,
        >(msg),
        heartbeat_in(read, envelope) == Ok::<presence::MessageView, Seq<char>>(msg),
        heartbeat_in(read, quoting) == Ok::<presence::MessageView, Seq<char>>(msg),
{
    reveal_strlit("body");
    reveal_strlit("data");
    reveal_strlit("message");
    reveal_with_fuel(presence::first_heartbeat, 4);
    assert("body"@[0] == 'b' && "data"@[0] == 'd' && "message"@[0] == 'm');
    let bare = vstd::utf8::encode_utf8(heartbeat);
    let none = Seq::<Seq<u8>>::empty();
    let one = seq![bare];
    assert(one + none + none =~= one && none + one + none =~= one && none + none + one =~= one);
    let two = seq![vstd::utf8::encode_utf8(quoted), bare];
    assert(two + none + none =~= two && none + two + none =~= two && none + none + two =~= two);
    assert(one.map_values(read) =~= seq![Some(msg)]);
    assert(two.map_values(read) =~= seq![None, Some(msg)]);
    assert(two.map_values(read).skip(1) =~= seq![Some(msg)]);
    assert(crate::outside::document_member(envelope, "body"@) is Ok);
    assert(crate::outside::document_member(envelope, "data"@) is Ok);
    assert(crate::outside::document_member(envelope, "message"@) is Ok);
    assert(crate::outside::document_member(quoting, "body"@) is Ok);
    assert(crate::outside::document_member(quoting, "data"@) is Ok);
    assert(crate::outside::document_member(quoting, "message"@) is Ok);
}

/// A heartbeat that is delivered again leaves the store as it is.
pub proof fn law_replay_changes_nothing(store: Store, msg: presence::MessageView)
    ensures
        after_heartbeat(after_heartbeat(store, msg), msg) == after_heartbeat(store, msg),
{
    assert(after_heartbeat(after_heartbeat(store, msg), msg) =~= after_heartbeat(store, msg));
}

/// The heartbeats of two different workers can arrive in either order.
pub proof fn law_workers_are_independent(
    store: Store,
    a: presence::MessageView,
    b: presence::MessageView,
)
    requires
        a.worker_id != b.worker_id,
    ensures
        after_heartbeat(after_heartbeat(store, a), b) == after_heartbeat(
            after_heartbeat(store, b),
            a,
        ),
{
    law_key_identifies_worker(a.model, a.worker_id, b.model, b.worker_id);
    assert(after_heartbeat(after_heartbeat(store, a), b) =~= after_heartbeat(
        after_heartbeat(store, b),
        a,
    ));
}

/// After a heartbeat the model can be served for as long as the heartbeat is recent enough.
pub proof fn law_heartbeat_makes_servable(
    store: Store,
    msg: presence::MessageView,
    now: u64,
    max_age_secs: u64,
)
    requires
        now - msg.ts <= max_age_secs,
    ensures
        servable(after_heartbeat(store, msg), msg.model, now, max_age_secs),
{
    let k = presence::record_key(msg.model, msg.worker_id);
    law_prefix_selects_model(msg.model, msg.model, msg.worker_id);
    assert(after_heartbeat(store, msg).dom().contains(k));
}

/// A heartbeat for one model does not change whether another can be served.
pub proof fn law_models_are_independent(
    store: Store,
    msg: presence::MessageView,
    model: Seq<char>,
    now: u64,
    max_age_secs: u64,
)
    requires
        crate::names::normalized_model(model) != crate::names::normalized_model(msg.model),
    ensures
        servable(after_heartbeat(store, msg), model, now, max_age_secs) == servable(
            store,
            model,
            now,
            max_age_secs,
        ),
{
    let key = presence::record_key(msg.model, msg.worker_id);
    let next = after_heartbeat(store, msg);
    law_prefix_selects_model(model, msg.model, msg.worker_id);
    if servable(store, model, now, max_age_secs) {
        let k = choose|k: Seq<char>|
            #![trigger store.dom().contains(k)]
            store.dom().contains(k) && presence::key_prefix(model).is_prefix_of(k)
                && presence::fresh(store[k], now, max_age_secs);
        assert(next.dom().contains(k));
    }
    if servable(next, model, now, max_age_secs) {
        let k = choose|k: Seq<char>|
            #![trigger next.dom().contains(k)]
            next.dom().contains(k) && presence::key_prefix(model).is_prefix_of(k)
                && presence::fresh(next[k], now, max_age_secs);
        assert(store.dom().contains(k));
    }
}

/// A worker is picked from the store for a model exactly when the model can be served. It was seen
/// recently enough, and no worker for the model was seen later.
pub proof fn law_pick_when_servable(
    store: Store,
    keys: Seq<Seq<char>>,
    model: Seq<char>,
    now: u64,
    max_age_secs: u64,
    picked: Option<presence::RecordView>,
)
    requires
        forall|k: Seq<char>| store.dom().contains(k) <==> keys.contains(k),
        presence::picks(
            records_at(store, presence::keys_for(keys, model)),
            now,
            max_age_secs,
            picked,
        ),
    ensures
        picked is Some <==> servable(store, model, now, max_age_secs),
        picked is Some ==> presence::fresh(picked->0, now, max_age_secs),
        forall|k: Seq<char>|
            #![trigger store.dom().contains(k)]
            picked is Some && store.dom().contains(k) && presence::key_prefix(model).is_prefix_of(k)
                ==> store[k].last_seen <= picked->0.last_seen,
{
    let keep = |k: Seq<char>| presence::key_prefix(model).is_prefix_of(k);
    let mine = presence::keys_for(keys, model);
    let found = records_at(store, mine);
    broadcast use vstd::seq_lib::group_filter_ensures;

    assert forall|k: Seq<char>|
        #![trigger store.dom().contains(k)]
        store.dom().contains(k) && presence::key_prefix(model).is_prefix_of(k) implies exists|
        i: int,
    |
        0 <= i < mine.len() && #[trigger] found[i] == Some(store[k]) by {
        assert(keys.contains(k));
        let j = choose|j: int| 0 <= j < keys.len() && keys[j] == k;
        assert(keep(keys[j]));
        assert(mine.contains(k));
        let i = choose|i: int| 0 <= i < mine.len() && mine[i] == k;
        assert(found[i] == Some(store[k]));
    }
    match picked {
        Some(record) => {
            let i = choose|i: int|
                #[trigger] presence::is_pick(found, i, now, max_age_secs) && found[i] == Some(record);
            assert(keep(mine[i]));
            assert(store.dom().contains(mine[i]));
            assert forall|k: Seq<char>|
                #![trigger store.dom().contains(k)]
                store.dom().contains(k) && presence::key_prefix(model).is_prefix_of(k) implies store[k].last_seen
                <= record.last_seen by {
                let j = choose|j: int| 0 <= j < mine.len() && #[trigger] found[j] == Some(store[k]);
                if store[k].last_seen > record.last_seen {
                    assert(presence::eligible(found[j], now, max_age_secs));
                }
            }
        },
        None => {
            if servable(store, model, now, max_age_secs) {
                let k = choose|k: Seq<char>|
                    #![trigger store.dom().contains(k)]
                    store.dom().contains(k) && presence::key_prefix(model).is_prefix_of(k)
                        && presence::fresh(store[k], now, max_age_secs);
                let i = choose|i: int| 0 <= i < mine.len() && #[trigger] found[i] == Some(store[k]);
                assert(presence::eligible(found[i], now, max_age_secs));
            }
        },
    }
}

} // verus!
