//! What becomes of heartbeats and which worker is picked, said of the functions themselves and in
//! numbers.
use crate::names;
use crate::outside::Member;
use crate::presence;
use crate::presence::{Found, PresenceMessage, PresenceRecord};
use vstd::prelude::*;

verus! {

/// Whether two records are alike.
pub open spec fn alike(a: PresenceRecord, b: PresenceRecord) -> bool {
    &&& a.worker_id@ == b.worker_id@
    &&& a.model@ == b.model@
    &&& crate::web::opt_text(a.region) == crate::web::opt_text(b.region)
    &&& a.last_seen == b.last_seen
}

/// Whether two heartbeats are alike.
pub open spec fn same_heartbeat(a: PresenceMessage, b: PresenceMessage) -> bool {
    &&& a.worker_id@ == b.worker_id@
    &&& a.model@ == b.model@
    &&& crate::web::opt_text(a.region) == crate::web::opt_text(b.region)
    &&& a.ts == b.ts
}

/// Whether the record at `i` is the one to pick: at most `max_age_secs` old, and no other that is as
/// recent as that was seen later, nor at the same time and earlier in the list.
pub open spec fn is_choice(
    records: Seq<Option<PresenceRecord>>,
    i: int,
    now: u64,
    max_age_secs: u64,
) -> bool {
    &&& 0 <= i < records.len()
    &&& records[i] is Some
    &&& now - records[i]->0.last_seen <= max_age_secs
    &&& forall|j: int|
        0 <= j < records.len() && (#[trigger] records[j]) is Some && now - records[j]->0.last_seen
            <= max_age_secs ==> records[j]->0.last_seen <= records[i]->0.last_seen && (j < i
            ==> records[j]->0.last_seen < records[i]->0.last_seen)
}

/// Whether every record was last seen more than `max_age_secs` before `now`.
pub open spec fn all_gone(
    records: Seq<Option<PresenceRecord>>,
    now: u64,
    max_age_secs: u64,
) -> bool {
    forall|i: int|
        0 <= i < records.len() && (#[trigger] records[i]) is Some ==> now
            - records[i]->0.last_seen > max_age_secs
}

/// No worker is picked exactly when every record was last seen more than `max_age_secs` ago. The one
/// that is picked was seen at most `max_age_secs` ago, is among the records, and is the latest of
/// those, the first in the list where several are.
pub proof fn law_pick_in_numbers(
    records: Vec<Option<PresenceRecord>>,
    now: u64,
    max_age_secs: u64,
    r: Option<PresenceRecord>,
)
    requires
        call_ensures(presence::pick_worker_at, (records, now, max_age_secs), r),
    ensures
        r is None <==> all_gone(records@, now, max_age_secs),
        r is Some ==> exists|i: int|
            #[trigger] is_choice(records@, i, now, max_age_secs) && alike(records@[i]->0, r->0),
        r is Some ==> now - r->0.last_seen <= max_age_secs,
{
    let views = presence::record_views(records@);
    assert(views.len() == records@.len());
    assert(forall|i: int|
        0 <= i < records@.len() ==> #[trigger] views[i] == presence::opt_record(records@[i]));
    if r is Some {
        let i = choose|i: int|
            #[trigger] presence::is_pick(views, i, now, max_age_secs) && views[i] == Some(r->0@);
        assert(records@[i] is Some);
        assert(views[i] == Some(records@[i]->0@));
        assert forall|j: int|
            0 <= j < records@.len() && (#[trigger] records@[j]) is Some && now
                - records@[j]->0.last_seen <= max_age_secs implies records@[j]->0.last_seen
            <= records@[i]->0.last_seen && (j < i ==> records@[j]->0.last_seen
            < records@[i]->0.last_seen) by {
            assert(views[j] == Some(records@[j]->0@));
            assert(presence::eligible(views[j], now, max_age_secs));
        }
        assert(is_choice(records@, i, now, max_age_secs));
        assert(records@[i]->0@ == r->0@);
    } else {
        assert forall|i: int| 0 <= i < records@.len() && (#[trigger] records@[i]) is Some implies now
            - records@[i]->0.last_seen > max_age_secs by {
            assert(views[i] == Some(records@[i]->0@));
            assert(!presence::eligible(views[i], now, max_age_secs));
        }
    }
}

proof fn lemma_records_of(found: Seq<Found>, n: int)
    requires
        0 <= n <= found.len(),
    ensures
        ({
            let views = presence::found_views(found).take(n);
            &&& (forall|i: int| 0 <= i < n ==> (#[trigger] found[i]) is Ok)
                ==> presence::records_of(views) is Ok && (presence::records_of(views)->Ok_0).len()
                == n && forall|i: int|
                0 <= i < n ==> #[trigger] (presence::records_of(views)->Ok_0)[i]
                    == presence::opt_record(found[i]->Ok_0)
            &&& forall|k: int|
                0 <= k < n && (#[trigger] found[k]) is Err && (forall|i: int|
                    0 <= i < k ==> (#[trigger] found[i]) is Ok) ==> presence::records_of(views)
                    == Err::<Seq<Option<presence::RecordView>>, Seq<char>>(found[k]->Err_0@)
        }),
    decreases n,
{
    let all = presence::found_views(found);
    let views = all.take(n);
    if n > 0 {
        lemma_records_of(found, n - 1);
        assert(views.drop_last() =~= all.take(n - 1));
        assert(views.last() == all[n - 1]);
        assert(found[n - 1] == found[n - 1]);
    }
}

/// A search ends with the complaint about the first record that cannot be read, and with an error in no
/// other case. A worker that is picked was, at a moment that the clock reads, seen at most
/// `max_age_secs` before; where none is, every record was last seen longer before such a moment.
pub proof fn law_search(found: Vec<Found>, max_age_secs: u64, r: Found)
    requires
        call_ensures(presence::pick_worker, (found, max_age_secs), r),
    ensures
        r is Err <==> exists|k: int| 0 <= k < found@.len() && (#[trigger] found@[k]) is Err,
        forall|k: int|
            0 <= k < found@.len() && (#[trigger] found@[k]) is Err && (forall|i: int|
                0 <= i < k ==> (#[trigger] found@[i]) is Ok) ==> r is Err && r->Err_0@
                == found@[k]->Err_0@,
        r is Ok && r->Ok_0 is Some ==> exists|now: u64, i: int|
            crate::clock::clock_reads(now) && 0 <= i < found@.len() && #[trigger] is_found_choice(
                found@,
                i,
                now,
                max_age_secs,
            ) && alike(found@[i]->Ok_0->0, r->Ok_0->0),
        r is Ok && r->Ok_0 is None ==> exists|now: u64|
            crate::clock::clock_reads(now) && #[trigger] none_found(found@, now, max_age_secs),
{
    let views = presence::found_views(found@);
    assert(views.take(found@.len() as int) =~= views);
    lemma_records_of(found@, found@.len() as int);
    if exists|k: int| 0 <= k < found@.len() && (#[trigger] found@[k]) is Err {
        let k = choose|k: int| 0 <= k < found@.len() && (#[trigger] found@[k]) is Err;
        lemma_first_error(found@, k);
    } else {
        let records = presence::records_of(views)->Ok_0;
        assert(presence::records_of(views) is Ok);
        assert(forall|i: int| 0 <= i < found@.len() ==> (#[trigger] found@[i]) is Ok);
        let picked = presence::opt_record(r->Ok_0);
        assert(presence::picks_by_clock(records, max_age_secs, picked));
        let now = choose|now: u64|
            crate::clock::clock_reads(now) && #[trigger] presence::picks(
                records,
                now,
                max_age_secs,
                picked,
            );
        if r->Ok_0 is Some {
            let i = choose|i: int|
                #[trigger] presence::is_pick(records, i, now, max_age_secs) && records[i] == picked;
            assert(records[i] == presence::opt_record(found@[i]->Ok_0));
            assert forall|j: int|
                0 <= j < found@.len() && (#[trigger] found@[j]) is Ok && found@[j]->Ok_0 is Some
                    && now - found@[j]->Ok_0->0.last_seen <= max_age_secs implies
                found@[j]->Ok_0->0.last_seen <= found@[i]->Ok_0->0.last_seen && (j < i
                ==> found@[j]->Ok_0->0.last_seen < found@[i]->Ok_0->0.last_seen) by {
                assert(records[j] == presence::opt_record(found@[j]->Ok_0));
                assert(presence::eligible(records[j], now, max_age_secs));
            }
            assert(is_found_choice(found@, i, now, max_age_secs));
            assert(found@[i]->Ok_0->0@ == r->Ok_0->0@);
        } else {
            assert forall|j: int|
                0 <= j < found@.len() && (#[trigger] found@[j]) is Ok && found@[j]->Ok_0
                    is Some implies now - found@[j]->Ok_0->0.last_seen > max_age_secs by {
                assert(records[j] == presence::opt_record(found@[j]->Ok_0));
                assert(!presence::eligible(records[j], now, max_age_secs));
            }
            assert(none_found(found@, now, max_age_secs));
        }
    }
}

/// Whether what was found at `i` is the record to pick.
pub open spec fn is_found_choice(found: Seq<Found>, i: int, now: u64, max_age_secs: u64) -> bool {
    &&& 0 <= i < found.len()
    &&& found[i] is Ok && found[i]->Ok_0 is Some
    &&& now - found[i]->Ok_0->0.last_seen <= max_age_secs
    &&& forall|j: int|
        0 <= j < found.len() && (#[trigger] found[j]) is Ok && found[j]->Ok_0 is Some && now
            - found[j]->Ok_0->0.last_seen <= max_age_secs ==> found[j]->Ok_0->0.last_seen
            <= found[i]->Ok_0->0.last_seen && (j < i ==> found[j]->Ok_0->0.last_seen
            < found[i]->Ok_0->0.last_seen)
}

/// Whether every record that was found was last seen more than `max_age_secs` before `now`.
pub open spec fn none_found(found: Seq<Found>, now: u64, max_age_secs: u64) -> bool {
    forall|j: int|
        0 <= j < found.len() && (#[trigger] found[j]) is Ok && found[j]->Ok_0 is Some ==> now
            - found[j]->Ok_0->0.last_seen > max_age_secs
}

proof fn lemma_first_error(found: Seq<Found>, k: int)
    requires
        0 <= k < found.len(),
        found[k] is Err,
    ensures
        exists|m: int|
            0 <= m <= k && (#[trigger] found[m]) is Err && forall|i: int|
                0 <= i < m ==> (#[trigger] found[i]) is Ok,
    decreases k,
{
    if exists|i: int| 0 <= i < k && (#[trigger] found[i]) is Err {
        let i = choose|i: int| 0 <= i < k && (#[trigger] found[i]) is Err;
        lemma_first_error(found, i);
    } else {
        assert(found[k] is Err);
    }
}

// ---------------------------------------------------------------------------
// Heartbeats
// ---------------------------------------------------------------------------

/// The record of a heartbeat holds the worker, its model, its region and the moment of the heartbeat,
/// and is filed under the model, as the router writes it, and the worker's id.
pub proof fn law_heartbeat_is_filed(
    msg: PresenceMessage,
    r: (String, PresenceRecord),
    model: &str,
    normalized: String,
)
    requires
        call_ensures(presence::handle_presence, (msg,), r),
        model@ == msg.model@,
        call_ensures(names::normalize_model, (model,), normalized),
    ensures
        r.0@ == "presence:"@ + normalized@ + ":"@ + msg.worker_id@,
        r.1.worker_id@ == msg.worker_id@,
        r.1.model@ == msg.model@,
        crate::web::opt_text(r.1.region) == crate::web::opt_text(msg.region),
        r.1.last_seen == msg.ts,
{
    assert(r.1@.worker_id == msg@.worker_id && r.1@.model == msg@.model && r.1@.region
        == msg@.region && r.1@.last_seen == msg@.ts);
}

/// The heartbeats of two workers are filed under the same key exactly when they are of one worker and
/// their models are written alike.
pub proof fn law_one_key_per_worker(
    a: PresenceMessage,
    b: PresenceMessage,
    ra: (String, PresenceRecord),
    rb: (String, PresenceRecord),
    ma: &str,
    mb: &str,
    na: String,
    nb: String,
)
    requires
        call_ensures(presence::handle_presence, (a,), ra),
        call_ensures(presence::handle_presence, (b,), rb),
        ma@ == a.model@,
        mb@ == b.model@,
        call_ensures(names::normalize_model, (ma,), na),
        call_ensures(names::normalize_model, (mb,), nb),
    ensures
        ra.0@ == rb.0@ <==> a.worker_id@ == b.worker_id@ && na@ == nb@,
{
    crate::presence_laws::law_key_identifies_worker(a.model@, a.worker_id@, b.model@, b.worker_id@);
}

proof fn lemma_has_key(keys: Seq<String>, key: Seq<char>)
    ensures
        has_key(keys, key) <==> presence::texts(keys).contains(key),
{
    let texts = presence::texts(keys);
    assert(forall|i: int| 0 <= i < keys.len() ==> #[trigger] texts[i] == keys[i]@);
    if has_key(keys, key) {
        let i = choose|i: int| 0 <= i < keys.len() && (#[trigger] keys[i])@ == key;
        assert(texts[i] == key);
    }
    if texts.contains(key) {
        let i = choose|i: int| 0 <= i < texts.len() && texts[i] == key;
        assert(keys[i]@ == key);
    }
}

proof fn lemma_kept(all: Seq<Seq<char>>, keep: spec_fn(Seq<char>) -> bool, key: Seq<char>)
    ensures
        all.filter(keep).contains(key) <==> all.contains(key) && keep(key),
{
    broadcast use vstd::seq_lib::group_filter_ensures;

    if all.filter(keep).contains(key) {
        let i = choose|i: int| 0 <= i < all.filter(keep).len() && all.filter(keep)[i] == key;
        assert(keep(all.filter(keep)[i]));
        lemma_kept_is_there(all, keep, i);
    }
    if all.contains(key) && keep(key) {
        let i = choose|i: int| 0 <= i < all.len() && all[i] == key;
        assert(all.filter(keep).contains(all[i]));
    }
}

proof fn lemma_kept_is_there(all: Seq<Seq<char>>, keep: spec_fn(Seq<char>) -> bool, i: int)
    requires
        0 <= i < all.filter(keep).len(),
    ensures
        all.contains(all.filter(keep)[i]),
    decreases all.len(),
{
    reveal(Seq::filter);
    let rest = all.drop_last();
    if all.len() > 0 {
        if i < rest.filter(keep).len() {
            lemma_kept_is_there(rest, keep, i);
            let j = choose|j: int| 0 <= j < rest.len() && rest[j] == rest.filter(keep)[i];
            assert(all[j] == all.filter(keep)[i]);
        } else {
            assert(all.filter(keep)[i] == all.last());
        }
    }
}

proof fn lemma_kept_len(all: Seq<Seq<char>>, keep: spec_fn(Seq<char>) -> bool)
    ensures
        all.filter(keep).len() <= all.len(),
    decreases all.len(),
{
    reveal(Seq::filter);
    if all.len() > 0 {
        lemma_kept_len(all.drop_last(), keep);
    }
}

/// Whether a list of keys holds a key.
pub open spec fn has_key(keys: Seq<String>, key: Seq<char>) -> bool {
    exists|i: int| 0 <= i < keys.len() && (#[trigger] keys[i])@ == key
}

/// The keys that are read for a model are those of the store under which heartbeats for the model are
/// filed: a heartbeat's key is among them exactly when it is in the store and its model is written
/// alike, and nothing is among them that is not in the store.
pub proof fn law_keys_of_a_model(
    keys: &Vec<String>,
    model: &str,
    r: Vec<String>,
    normalized: String,
    msg: PresenceMessage,
    filed: (String, PresenceRecord),
    other: &str,
    other_normalized: String,
    key: Seq<char>,
)
    requires
        call_ensures(presence::presence_keys, (keys, model), r),
        call_ensures(names::normalize_model, (model,), normalized),
        call_ensures(presence::handle_presence, (msg,), filed),
        other@ == msg.model@,
        call_ensures(names::normalize_model, (other,), other_normalized),
    ensures
        has_key(r@, filed.0@) <==> has_key(keys@, filed.0@) && normalized@ == other_normalized@,
        has_key(r@, key) ==> has_key(keys@, key),
        r@.len() <= keys@.len(),
{
    broadcast use vstd::seq_lib::group_filter_ensures;

    let all = presence::texts(keys@);
    let keep = |k: Seq<char>| presence::key_prefix(model@).is_prefix_of(k);
    let kept = presence::keys_for(all, model@);
    assert(presence::texts(r@) == kept);
    lemma_has_key(keys@, filed.0@);
    lemma_has_key(r@, filed.0@);
    lemma_has_key(keys@, key);
    lemma_has_key(r@, key);
    crate::presence_laws::law_prefix_selects_model(model@, msg.model@, msg.worker_id@);
    lemma_kept(all, keep, filed.0@);
    lemma_kept(all, keep, key);
    lemma_kept_len(all, keep);
    assert(presence::texts(r@).len() == r@.len());
}

// ---------------------------------------------------------------------------
// Payloads
// ---------------------------------------------------------------------------

proof fn lemma_first_heartbeat(v: Seq<Option<PresenceMessage>>, k: int)
    requires
        0 <= k <= v.len(),
        forall|i: int| 0 <= i < k ==> (#[trigger] v[i]) is None,
    ensures
        presence::first_heartbeat(presence::message_views(v)) == presence::first_heartbeat(
            presence::message_views(v).skip(k),
        ),
    decreases k,
{
    let views = presence::message_views(v);
    if k == 0 {
        assert(views.skip(0) =~= views);
    } else {
        lemma_first_heartbeat(v, k - 1);
        assert(views.skip(k - 1)[0] == views[k - 1]);
        assert(v[k - 1] is None);
        assert(views.skip(k - 1).skip(1) =~= views.skip(k));
    }
}

/// A payload that is a heartbeat is that heartbeat. Otherwise the first document of its envelope that
/// is one decides; where there is none, or where the payload is no JSON, the error says so.
pub proof fn law_parse_presence(
    direct: Option<PresenceMessage>,
    enveloped: Result<Vec<Option<PresenceMessage>>, String>,
    r: Result<PresenceMessage, String>,
)
    requires
        call_ensures(presence::parse_presence, (direct, enveloped), r),
    ensures
        direct is Some ==> r is Ok && same_heartbeat(direct->0, r->Ok_0),
        direct is None && enveloped is Err ==> r is Err && r->Err_0@ == "bad presence payload: "@
            + enveloped->Err_0@,
        direct is None && enveloped is Ok ==> forall|k: int|
            0 <= k < (enveloped->Ok_0)@.len() && (#[trigger] (enveloped->Ok_0)@[k]) is Some && (
            forall|i: int| 0 <= i < k ==> (#[trigger] (enveloped->Ok_0)@[i]) is None) ==> r is Ok
                && same_heartbeat((enveloped->Ok_0)@[k]->0, r->Ok_0),
        direct is None && enveloped is Ok && (forall|i: int|
            0 <= i < (enveloped->Ok_0)@.len() ==> (#[trigger] (enveloped->Ok_0)@[i]) is None)
            ==> r is Err && r->Err_0@ == "bad presence payload: "@
            + "could not extract PresenceMessage from payload"@,
{
    if direct is Some {
        assert(r->Ok_0@ == direct->0@);
    } else if enveloped is Ok {
        let v = (enveloped->Ok_0)@;
        let views = presence::message_views(v);
        assert forall|k: int|
            0 <= k < v.len() && (#[trigger] v[k]) is Some && (forall|i: int|
                0 <= i < k ==> (#[trigger] v[i]) is None) implies r is Ok && same_heartbeat(
            v[k]->0,
            r->Ok_0,
        ) by {
            lemma_first_heartbeat(v, k);
            assert(views.skip(k)[0] == views[k]);
            assert(views[k] == Some(v[k]->0@));
            assert(r->Ok_0@ == v[k]->0@);
        }
        if forall|i: int| 0 <= i < v.len() ==> (#[trigger] v[i]) is None {
            lemma_first_heartbeat(v, v.len() as int);
            assert(views.skip(v.len() as int).len() == 0);
        }
    }
}

/// The documents in which a member may hold a heartbeat: its own text, then what it says where it is a
/// string.
pub open spec fn candidates(found: Option<Member>) -> Seq<Seq<u8>> {
    match found {
        None => Seq::empty(),
        Some(m) => match m.text {
            None => seq![vstd::utf8::encode_utf8(m.json@)],
            Some(t) => seq![vstd::utf8::encode_utf8(m.json@), vstd::utf8::encode_utf8(t@)],
        },
    }
}

/// The documents of an envelope are those of its members, in the order in which they were given, and
/// there is an error exactly where a lookup gave one.
pub proof fn law_documents_of(
    body: presence::Lookup,
    data: presence::Lookup,
    message: presence::Lookup,
    r: Result<Vec<Vec<u8>>, String>,
)
    requires
        call_ensures(presence::documents_of, (body, data, message), r),
    ensures
        r is Ok <==> body is Ok && data is Ok && message is Ok,
        r is Ok ==> presence::byte_strings((r->Ok_0)@) == candidates(body->Ok_0) + candidates(
            data->Ok_0,
        ) + candidates(message->Ok_0),
        body is Err ==> r->Err_0@ == body->Err_0@,
        body is Ok && data is Err ==> r->Err_0@ == data->Err_0@,
        body is Ok && data is Ok && message is Err ==> r->Err_0@ == message->Err_0@,
{
    lemma_candidates(body);
    lemma_candidates(data);
    lemma_candidates(message);
}

proof fn lemma_candidates(found: presence::Lookup)
    ensures
        found is Ok ==> crate::outside::member_view(found) is Ok && presence::member_documents(
            crate::outside::member_view(found)->Ok_0,
        ) == candidates(found->Ok_0),
        found is Err ==> crate::outside::member_view(found) == Err::<
            Option<(Seq<char>, Option<Seq<char>>)>,
            Seq<char>,
        >(found->Err_0@),
{
}

/// The documents of a payload's envelope are those of whatever is found in it under `body`, then under
/// `data`, then under `message`.
pub proof fn law_enveloped_documents(
    payload: &[u8],
    r: Result<Vec<Vec<u8>>, String>,
    k1: &str,
    k2: &str,
    k3: &str,
    body: presence::Lookup,
    data: presence::Lookup,
    message: presence::Lookup,
)
    requires
        call_ensures(presence::enveloped_documents, (payload,), r),
        k1@ == "body"@,
        k2@ == "data"@,
        k3@ == "message"@,
        crate::json::looked_up(payload, k1, body),
        crate::json::looked_up(payload, k2, data),
        crate::json::looked_up(payload, k3, message),
    ensures
        r is Ok <==> body is Ok && data is Ok && message is Ok,
        r is Ok ==> presence::byte_strings((r->Ok_0)@) == candidates(body->Ok_0) + candidates(
            data->Ok_0,
        ) + candidates(message->Ok_0),
        body is Err ==> r->Err_0@ == body->Err_0@,
{
    crate::json::law_lookup_is_settled(payload, k1, body);
    crate::json::law_lookup_is_settled(payload, k2, data);
    crate::json::law_lookup_is_settled(payload, k3, message);
    lemma_candidates(body);
    lemma_candidates(data);
    lemma_candidates(message);
}

/// Records are taken out one for one and in order where all of them can be read; else the complaint
/// about the first that cannot be read is given.
pub proof fn law_readable_records(
    found: Vec<Found>,
    r: Result<Vec<Option<PresenceRecord>>, String>,
)
    requires
        call_ensures(presence::readable_records, (found,), r),
    ensures
        r is Err <==> exists|k: int| 0 <= k < found@.len() && (#[trigger] found@[k]) is Err,
        forall|k: int|
            0 <= k < found@.len() && (#[trigger] found@[k]) is Err && (forall|i: int|
                0 <= i < k ==> (#[trigger] found@[i]) is Ok) ==> r is Err && r->Err_0@
                == found@[k]->Err_0@,
        r is Ok ==> (r->Ok_0)@.len() == found@.len() && forall|i: int|
            0 <= i < found@.len() ==> ((#[trigger] (r->Ok_0)@[i]) is Some
                <==> found@[i]->Ok_0 is Some) && ((r->Ok_0)@[i] is Some ==> alike(
                (r->Ok_0)@[i]->0,
                found@[i]->Ok_0->0,
            )),
{
    let views = presence::found_views(found@);
    assert(views.take(found@.len() as int) =~= views);
    lemma_records_of(found@, found@.len() as int);
    if exists|k: int| 0 <= k < found@.len() && (#[trigger] found@[k]) is Err {
        let k = choose|k: int| 0 <= k < found@.len() && (#[trigger] found@[k]) is Err;
        lemma_first_error(found@, k);
    } else {
        assert(forall|i: int| 0 <= i < found@.len() ==> (#[trigger] found@[i]) is Ok);
        let records = presence::records_of(views)->Ok_0;
        let taken = (r->Ok_0)@;
        assert(presence::record_views(taken) == records);
        assert(presence::record_views(taken).len() == taken.len());
        assert forall|i: int| 0 <= i < found@.len() implies ((#[trigger] taken[i]) is Some
            <==> found@[i]->Ok_0 is Some) && (taken[i] is Some ==> alike(
            taken[i]->0,
            found@[i]->Ok_0->0,
        )) by {
            assert(presence::record_views(taken)[i] == presence::opt_record(taken[i]));
            assert(records[i] == presence::opt_record(found@[i]->Ok_0));
            if taken[i] is Some {
                assert(taken[i]->0@ == found@[i]->Ok_0->0@);
            }
        }
    }
}

/// The keys of a model's workers begin with the model, as the router writes it, and go on with the
/// worker's id.
pub proof fn law_presence_key(
    model: &str,
    worker_id: &str,
    prefix: String,
    key: String,
    normalized: String,
)
    requires
        call_ensures(presence::presence_prefix, (model,), prefix),
        call_ensures(presence::presence_key, (model, worker_id), key),
        call_ensures(names::normalize_model, (model,), normalized),
    ensures
        prefix@ == "presence:"@ + normalized@ + ":"@,
        key@ == prefix@ + worker_id@,
{
}

} // verus!
