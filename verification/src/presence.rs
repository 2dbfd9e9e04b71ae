//! Worker presence: what heartbeats leave behind and which worker is picked from it.
use crate::clock::now_secs;
use crate::names::normalize_model;
use crate::outside::{member, Member};
use crate::text::{bytes_of, starts_with};
use vstd::prelude::*;
use vstd::string::*;

verus! {

/// A heartbeat as a worker publishes it.
#[derive(Debug)]
pub struct PresenceMessage {
    pub worker_id: String,
    pub model: String,
    pub region: Option<String>,
    pub ts: u64,
}

/// A heartbeat over mathematical values.
#[verifier::ext_equal]
pub struct MessageView {
    pub worker_id: Seq<char>,
    pub model: Seq<char>,
    pub region: Option<Seq<char>>,
    pub ts: u64,
}

impl View for PresenceMessage {
    type V = MessageView;

    open spec fn view(&self) -> MessageView {
        MessageView {
            worker_id: self.worker_id@,
            model: self.model@,
            region: crate::web::opt_text(self.region),
            ts: self.ts,
        }
    }
}

/// What the presence store keeps of a worker.
#[derive(Debug)]
pub struct PresenceRecord {
    pub worker_id: String,
    pub model: String,
    pub region: Option<String>,
    pub last_seen: u64,
}

/// A presence record over mathematical values.
#[verifier::ext_equal]
pub struct RecordView {
    pub worker_id: Seq<char>,
    pub model: Seq<char>,
    pub region: Option<Seq<char>>,
    pub last_seen: u64,
}

impl View for PresenceRecord {
    type V = RecordView;

    open spec fn view(&self) -> RecordView {
        RecordView {
            worker_id: self.worker_id@,
            model: self.model@,
            region: crate::web::opt_text(self.region),
            last_seen: self.last_seen,
        }
    }
}

/// An optional record over mathematical values.
pub open spec fn opt_record(r: Option<PresenceRecord>) -> Option<RecordView> {
    match r {
        Some(record) => Some(record@),
        None => None,
    }
}

// ---------------------------------------------------------------------------
// Keys and records
// ---------------------------------------------------------------------------

/// What the keys of all workers for a model begin with.
pub open spec fn key_prefix(model: Seq<char>) -> Seq<char> {
    "presence:"@ + crate::names::normalized_model(model) + ":"@
}

/// What the keys of all workers for a model begin with.
pub fn presence_prefix(model: &str) -> (r: String)
    ensures
        r@ == key_prefix(model@),
{
    "presence:".to_string().concat(normalize_model(model).as_str()).concat(":")
}

/// The key of a worker for a model.
pub open spec fn record_key(model: Seq<char>, worker_id: Seq<char>) -> Seq<char> {
    key_prefix(model) + worker_id
}

/// The key of a worker for a model.
pub fn presence_key(model: &str, worker_id: &str) -> (r: String)
    ensures
        r@ == record_key(model@, worker_id@),
{
    presence_prefix(model).concat(worker_id)
}

/// What the store keeps of a heartbeat.
pub open spec fn record_of(msg: MessageView) -> RecordView {
    RecordView {
        worker_id: msg.worker_id,
        model: msg.model,
        region: msg.region,
        last_seen: msg.ts,
    }
}

/// The key under which a heartbeat is stored and the record that is stored there.
pub fn handle_presence(msg: PresenceMessage) -> (r: (String, PresenceRecord))
    ensures
        r.0@ == record_key(msg@.model, msg@.worker_id),
        r.1@ == record_of(msg@),
{
    let key = presence_key(msg.model.as_str(), msg.worker_id.as_str());
    let record = PresenceRecord {
        worker_id: msg.worker_id,
        model: msg.model,
        region: msg.region,
        last_seen: msg.ts,
    };
    (key, record)
}

// ---------------------------------------------------------------------------
// Heartbeats as they arrive
// ---------------------------------------------------------------------------

/// The documents in which one member of an envelope may hold a heartbeat: the member itself and,
/// where it is a string, the document that the string holds.
pub open spec fn member_documents(found: Option<(Seq<char>, Option<Seq<char>>)>) -> Seq<Seq<u8>> {
    match found {
        Some((json, Some(text))) => seq![
            vstd::utf8::encode_utf8(json),
            vstd::utf8::encode_utf8(text),
        ],
        Some((json, None)) => seq![vstd::utf8::encode_utf8(json)],
        None => Seq::empty(),
    }
}

/// The result of looking up one member of an envelope.
pub type Lookup = Result<Option<Member>, String>;

/// A lookup over mathematical values.
pub type LookupView = Result<Option<(Seq<char>, Option<Seq<char>>)>, Seq<char>>;

/// The documents in which an envelope may hold a heartbeat, in the order in which they are tried:
/// those of its members `body`, `data` and `message`. A lookup fails where the envelope is no JSON.
pub open spec fn envelope_documents(body: LookupView, data: LookupView, message: LookupView) -> Result<
    Seq<Seq<u8>>,
    Seq<char>,
> {
    match (body, data, message) {
        (Ok(b), Ok(d), Ok(m)) => Ok(
            member_documents(b) + member_documents(d) + member_documents(m),
        ),
        (Err(e), _, _) => Err(e),
        (_, Err(e), _) => Err(e),
        (_, _, Err(e)) => Err(e),
    }
}

/// Byte strings over their bytes.
pub open spec fn byte_strings(v: Seq<Vec<u8>>) -> Seq<Seq<u8>> {
    v.map_values(|b: Vec<u8>| b@)
}

/// A result with byte strings over mathematical values.
pub open spec fn documents_view(r: Result<Vec<Vec<u8>>, String>) -> Result<Seq<Seq<u8>>, Seq<char>> {
    match r {
        Ok(v) => Ok(byte_strings(v@)),
        Err(e) => Err(e@),
    }
}

fn push_documents(documents: &mut Vec<Vec<u8>>, found: Option<Member>)
    ensures
        byte_strings(final(documents)@) == byte_strings(old(documents)@) + member_documents(
            match found {
                Some(m) => Some(m.view()),
                None => None,
            },
        ),
{
    if let Some(m) = found {
        documents.push(bytes_of(m.json.as_str()));
        if let Some(t) = &m.text {
            documents.push(bytes_of(t.as_str()));
        }
    }
    assert(byte_strings(documents@) =~= byte_strings(old(documents)@) + member_documents(
        match found {
            Some(m) => Some(m.view()),
            None => None,
        },
    ));
}

/// Lists the documents in which an envelope may hold a heartbeat, from what its members hold.
pub fn documents_of(body: Lookup, data: Lookup, message: Lookup) -> (r: Result<
    Vec<Vec<u8>>,
    String,
>)
    ensures
        documents_view(r) == envelope_documents(
            crate::outside::member_view(body),
            crate::outside::member_view(data),
            crate::outside::member_view(message),
        ),
{
    let b = match body {
        Ok(found) => found,
        Err(e) => return Err(e),
    };
    let d = match data {
        Ok(found) => found,
        Err(e) => return Err(e),
    };
    let m = match message {
        Ok(found) => found,
        Err(e) => return Err(e),
    };
    let mut documents: Vec<Vec<u8>> = Vec::new();
    assert(byte_strings(documents@) =~= Seq::empty());
    push_documents(&mut documents, b);
    push_documents(&mut documents, d);
    push_documents(&mut documents, m);
    assert(byte_strings(documents@) =~= documents_view(Ok(documents))->Ok_0);
    Ok(documents)
}

/// Lists the documents in which a payload that is no heartbeat itself may hold one.
pub fn enveloped_documents(payload: &[u8]) -> (r: Result<Vec<Vec<u8>>, String>)
    ensures
        documents_view(r) == envelope_documents(
            crate::outside::document_member(payload@, "body"@),
            crate::outside::document_member(payload@, "data"@),
            crate::outside::document_member(payload@, "message"@),
        ),
{
    documents_of(member(payload, "body"), member(payload, "data"), member(payload, "message"))
}

/// Heartbeats over mathematical values.
pub open spec fn message_views(v: Seq<Option<PresenceMessage>>) -> Seq<Option<MessageView>> {
    v.map_values(|m: Option<PresenceMessage>| opt_message(m))
}

/// An optional heartbeat over mathematical values.
pub open spec fn opt_message(m: Option<PresenceMessage>) -> Option<MessageView> {
    match m {
        Some(msg) => Some(msg@),
        None => None,
    }
}

/// The first heartbeat among documents that were read.
pub open spec fn first_heartbeat(v: Seq<Option<MessageView>>) -> Option<MessageView>
    decreases v.len(),
{
    if v.len() == 0 {
        None
    } else {
        match v[0] {
            Some(m) => Some(m),
            None => first_heartbeat(v.skip(1)),
        }
    }
}

/// The heartbeat of a payload: the payload itself goes first, then the first document of its envelope
/// that is a heartbeat.
pub open spec fn heartbeat_of(
    direct: Option<MessageView>,
    enveloped: Result<Seq<Option<MessageView>>, Seq<char>>,
) -> Result<MessageView, Seq<char>> {
    match (direct, enveloped) {
        (Some(m), _) => Ok(m),
        (None, Err(e)) => Err("bad presence payload: "@ + e),
        (None, Ok(v)) => match first_heartbeat(v) {
            Some(m) => Ok(m),
            None => Err(
                "bad presence payload: "@ + "could not extract PresenceMessage from payload"@,
            ),
        },
    }
}

/// The heartbeat of a payload, from what its documents were read as.
///
/// `direct` is the payload read as a heartbeat; `enveloped` holds, in order, the documents of
/// [`enveloped_documents`] read as heartbeats, or why they could not be listed.
pub fn parse_presence(
    direct: Option<PresenceMessage>,
    enveloped: Result<Vec<Option<PresenceMessage>>, String>,
) -> (r: Result<PresenceMessage, String>)
    ensures
        match r {
            Ok(m) => Ok::<MessageView, Seq<char>>(m@),
            Err(e) => Err(e@),
        } == heartbeat_of(
            opt_message(direct),
            match enveloped {
                Ok(v) => Ok(message_views(v@)),
                Err(e) => Err(e@),
            },
        ),
{
    if let Some(m) = direct {
        return Ok(m);
    }
    match enveloped {
        Err(e) => Err("bad presence payload: ".to_string().concat(e.as_str())),
        Ok(attempts) => {
            let mut attempts = attempts;
            let ghost all = message_views(attempts@);
            while attempts.len() > 0
                invariant
                    enveloped is Ok,
                    all == message_views((enveloped->Ok_0)@),
                    direct is None,
                    first_heartbeat(message_views(attempts@)) == first_heartbeat(all),
                decreases attempts@.len(),
            {
                let ghost before = attempts@;
                let first = attempts.remove(0);
                assert(message_views(attempts@) =~= message_views(before).skip(1));
                assert(message_views(before)[0] == opt_message(first));
                if let Some(m) = first {
                    return Ok(m);
                }
            }
            Err(
                "bad presence payload: ".to_string().concat(
                    "could not extract PresenceMessage from payload",
                ),
            )
        },
    }
}

// ---------------------------------------------------------------------------
// Picking a worker
// ---------------------------------------------------------------------------

/// Strings over their characters.
pub open spec fn texts(v: Seq<String>) -> Seq<Seq<char>> {
    v.map_values(|s: String| s@)
}

/// Of the keys of the store, those of workers for a model, in the order of the store.
pub open spec fn keys_for(keys: Seq<Seq<char>>, model: Seq<char>) -> Seq<Seq<char>> {
    keys.filter(|k: Seq<char>| key_prefix(model).is_prefix_of(k))
}

/// Of the keys of the store, those of workers for a model, in the order of the store.
pub fn presence_keys(keys: &Vec<String>, model: &str) -> (r: Vec<String>)
    ensures
        texts(r@) == keys_for(texts(keys@), model@),
{
    let prefix = presence_prefix(model);
    let ghost all = texts(keys@);
    let ghost keep = |k: Seq<char>| key_prefix(model@).is_prefix_of(k);
    let mut r: Vec<String> = Vec::new();
    let mut i: usize = 0;
    assert(all.take(0).filter(keep) =~= Seq::empty()) by {
        reveal(Seq::filter);
    }
    assert(texts(r@) =~= Seq::empty());
    while i < keys.len()
        invariant
            i <= keys.len(),
            all == texts(keys@),
            prefix@ == key_prefix(model@),
            keep == (|k: Seq<char>| key_prefix(model@).is_prefix_of(k)),
            texts(r@) == all.take(i as int).filter(keep),
        decreases keys.len() - i,
    {
        let ghost before = r@;
        assert(all.take(i + 1).drop_last() =~= all.take(i as int));
        assert(all.take(i + 1).last() == keys@[i as int]@);
        reveal(Seq::filter);
        if starts_with(keys[i].as_str(), prefix.as_str()) {
            r.push(keys[i].clone());
            assert(texts(r@) =~= texts(before).push(keys@[i as int]@));
        }
        i += 1;
    }
    assert(all.take(keys.len() as int) =~= all);
    r
}

/// Whether a worker was seen recently enough: its last heartbeat is at most `max_age_secs` old. One
/// that lies ahead of the clock counts as just seen.
pub open spec fn fresh(record: RecordView, now: u64, max_age_secs: u64) -> bool {
    now - record.last_seen <= max_age_secs
}

/// Whether a record is there and recent enough.
pub open spec fn eligible(record: Option<RecordView>, now: u64, max_age_secs: u64) -> bool {
    record is Some && fresh(record->0, now, max_age_secs)
}

/// Whether the worker at `i` is the one to pick: recent enough, none of the others seen later, and
/// the first of those that were seen at the same time.
pub open spec fn is_pick(
    records: Seq<Option<RecordView>>,
    i: int,
    now: u64,
    max_age_secs: u64,
) -> bool {
    &&& 0 <= i < records.len()
    &&& eligible(records[i], now, max_age_secs)
    &&& forall|j: int|
        0 <= j < records.len() && eligible(#[trigger] records[j], now, max_age_secs) ==> {
            &&& records[j]->0.last_seen <= records[i]->0.last_seen
            &&& (j < i ==> records[j]->0.last_seen < records[i]->0.last_seen)
        }
}

/// Records as the store gave them, over mathematical values.
pub open spec fn record_views(records: Seq<Option<PresenceRecord>>) -> Seq<Option<RecordView>> {
    records.map_values(|r: Option<PresenceRecord>| opt_record(r))
}

/// Whether the right worker was picked at a moment: the one to pick, or none where no record is there
/// and recent enough.
pub open spec fn picks(
    records: Seq<Option<RecordView>>,
    now: u64,
    max_age_secs: u64,
    picked: Option<RecordView>,
) -> bool {
    match picked {
        Some(record) => exists|i: int|
            #[trigger] is_pick(records, i, now, max_age_secs) && records[i] == Some(record),
        None => forall|i: int|
            0 <= i < records.len() ==> !eligible(#[trigger] records[i], now, max_age_secs),
    }
}

/// Picks the worker that was seen last among those that were seen recently enough at the moment `now`,
/// or none where there is no such worker. `records` is what the store holds under the keys of
/// [`presence_keys`]; a key that has gone since counts for nothing.
pub fn pick_worker_at(
    records: Vec<Option<PresenceRecord>>,
    now: u64,
    max_age_secs: u64,
) -> (r: Option<PresenceRecord>)
    ensures
        picks(record_views(records@), now, max_age_secs, opt_record(r)),
{
    let ghost views = record_views(records@);
    let mut best: Option<usize> = None;
    let mut i: usize = 0;
    while i < records.len()
        invariant
            i <= records.len(),
            views == record_views(records@),
            views.len() == records.len(),
            match best {
                Some(b) => b < i && is_pick(views.take(i as int), b as int, now, max_age_secs),
                None => forall|j: int|
                    0 <= j < i ==> !eligible(#[trigger] views[j], now, max_age_secs),
            },
        decreases records.len() - i,
    {
        let ghost shorter = views.take(i as int);
        let ghost longer = views.take(i + 1);
        assert(forall|j: int| 0 <= j < i ==> #[trigger] longer[j] == shorter[j]);
        assert(longer[i as int] == views[i as int]);
        match &records[i] {
            Some(record) => {
                if now.saturating_sub(record.last_seen) <= max_age_secs {
                    match best {
                        Some(b) => {
                            assert(shorter[b as int] == longer[b as int]);
                            match &records[b] {
                                Some(current) => {
                                    if record.last_seen > current.last_seen {
                                        best = Some(i);
                                    }
                                },
                                None => {},
                            }
                        },
                        None => {
                            best = Some(i);
                        },
                    }
                }
            },
            None => {},
        }
        proof {
            if let Some(b) = best {
                assert forall|j: int|
                    0 <= j < longer.len() && eligible(
                        #[trigger] longer[j],
                        now,
                        max_age_secs,
                    ) implies longer[j]->0.last_seen <= longer[b as int]->0.last_seen && (j < b
                    ==> longer[j]->0.last_seen < longer[b as int]->0.last_seen) by {
                    if j < i {
                        assert(shorter[j] == longer[j]);
                        assert(shorter[j] == views[j]);
                    }
                }
            }
        }
        i += 1;
    }
    assert(views.take(records.len() as int) =~= views);
    match best {
        Some(b) => {
            let mut records = records;
            records.remove(b)
        },
        None => None,
    }
}

/// What the store gave for one key: a record, nothing, or why what is there is no record.
pub type Found = Result<Option<PresenceRecord>, String>;

/// What the store gave for some keys, over mathematical values.
pub open spec fn found_views(found: Seq<Found>) -> Seq<Result<Option<RecordView>, Seq<char>>> {
    found.map_values(
        |f: Found|
            match f {
                Ok(r) => Ok::<Option<RecordView>, Seq<char>>(opt_record(r)),
                Err(e) => Err(e@),
            },
    )
}

/// The records that were found, in order, or the first complaint.
pub open spec fn records_of(found: Seq<Result<Option<RecordView>, Seq<char>>>) -> Result<
    Seq<Option<RecordView>>,
    Seq<char>,
>
    decreases found.len(),
{
    if found.len() == 0 {
        Ok(Seq::empty())
    } else {
        match (records_of(found.drop_last()), found.last()) {
            (Err(e), _) => Err(e),
            (Ok(_), Err(e)) => Err(e),
            (Ok(records), Ok(record)) => Ok(records.push(record)),
        }
    }
}

/// A complaint about a key is not made good by what the later keys hold.
proof fn lemma_first_complaint(found: Seq<Result<Option<RecordView>, Seq<char>>>, i: int)
    requires
        0 <= i <= found.len(),
        records_of(found.take(i)) is Err,
    ensures
        records_of(found) == records_of(found.take(i)),
    decreases found.len() - i,
{
    if i < found.len() {
        assert(found.take(i + 1).drop_last() =~= found.take(i));
        lemma_first_complaint(found, i + 1);
    } else {
        assert(found.take(i) =~= found);
    }
}

/// Takes the records out of what the store gave; one that cannot be read is an error.
pub fn readable_records(found: Vec<Found>) -> (r: Result<Vec<Option<PresenceRecord>>, String>)
    ensures
        match r {
            Ok(records) => Ok::<Seq<Option<RecordView>>, Seq<char>>(record_views(records@)),
            Err(e) => Err(e@),
        } == records_of(found_views(found@)),
{
    let ghost all = found_views(found@);
    let mut rest = found;
    let mut records: Vec<Option<PresenceRecord>> = Vec::new();
    let ghost mut i: int = 0;
    assert(all.take(0) =~= Seq::empty());
    assert(record_views(records@) =~= Seq::empty());
    while rest.len() > 0
        invariant
            0 <= i <= all.len(),
            all == found_views(found@),
            found_views(rest@) == all.skip(i),
            records_of(all.take(i)) == Ok::<Seq<Option<RecordView>>, Seq<char>>(
                record_views(records@),
            ),
        decreases rest@.len(),
    {
        let ghost before = rest@;
        let ghost had = records@;
        let first = rest.remove(0);
        proof {
            assert(all.skip(i).len() == before.len());
            assert(all.skip(i)[0] == all[i]);
            assert(rest@ =~= before.skip(1));
            assert(found_views(rest@) =~= found_views(before).skip(1));
            assert(all.skip(i).skip(1) =~= all.skip(i + 1));
            assert(all.take(i + 1).drop_last() =~= all.take(i));
            assert(all.take(i + 1).last() == all[i]);
        }
        match first {
            Ok(record) => {
                records.push(record);
                assert(record_views(records@) =~= record_views(had).push(opt_record(record)));
            },
            Err(e) => {
                proof {
                    lemma_first_complaint(all, i + 1);
                }
                return Err(e);
            },
        }
        proof {
            i = i + 1;
        }
    }
    assert(found_views(rest@).len() == 0);
    assert(all.take(i) =~= all);
    Ok(records)
}

/// Whether the right worker was picked at a moment that the clock reads.
pub open spec fn picks_by_clock(
    records: Seq<Option<RecordView>>,
    max_age_secs: u64,
    picked: Option<RecordView>,
) -> bool {
    exists|now: u64|
        crate::clock::clock_reads(now) && #[trigger] picks(records, now, max_age_secs, picked)
}

/// Picks a worker as [`pick_worker_at`] does, at the moment that the clock reads. `found` is what the
/// store gave for the keys of [`presence_keys`]; a record that cannot be read ends the search.
pub fn pick_worker(found: Vec<Found>, max_age_secs: u64) -> (r: Found)
    ensures
        match records_of(found_views(found@)) {
            Err(e) => r is Err && r->Err_0@ == e,
            Ok(records) => r is Ok && picks_by_clock(
                records,
                max_age_secs,
                opt_record(r->Ok_0),
            ),
        },
{
    match readable_records(found) {
        Err(e) => Err(e),
        Ok(records) => {
            let now: u64 = now_secs();
            let picked = pick_worker_at(records, now, max_age_secs);
            assert(picks_by_clock(record_views(records@), max_age_secs, opt_record(picked)));
            Ok(picked)
        },
    }
}

} // verus!
