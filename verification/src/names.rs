//! Names on the messaging service: queues, topics, subjects and subscription filters, and the
//! normalisation that makes a model name fit into them.
use crate::text::{chars_of, string_of};
use vstd::prelude::*;
use vstd::string::*;

verus! {

/// The HTTP surface of the messaging service that the router speaks.
#[derive(Clone, Copy, Debug, PartialEq, Eq, Structural)]
pub enum Surface {
    /// Resource names have dots, and messages go through the paths `/send`, `/receive` and `/ack` of
    /// a queue.
    Dotted,
    /// Resource names have no dots, and all messages go through the path `/messages` of a queue. This
    /// is what the live service serves and what workers use.
    Flat,
}

// ---------------------------------------------------------------------------
// Model names
// ---------------------------------------------------------------------------

/// Whether a character of a model name is replaced before the name is used in a queue name.
pub open spec fn is_reserved(c: char) -> bool {
    c == ':' || c == '.' || c == '/' || c == ' '
}

/// A character of a model name as the router writes it.
pub open spec fn model_char(c: char) -> char {
    if is_reserved(c) {
        '-'
    } else {
        c
    }
}

/// A model name as the router writes it: every reserved character becomes a dash.
pub open spec fn normalized_model(model: Seq<char>) -> Seq<char> {
    model.map_values(|c: char| model_char(c))
}

/// Writes a model name in the form that the router uses in queue names and presence keys.
pub fn normalize_model(model: &str) -> (r: String)
    ensures
        r@ == normalized_model(model@),
{
    let a = chars_of(model);
    let mut r = String::new();
    let mut i: usize = 0;
    while i < a.len()
        invariant
            i <= a.len(),
            a@ == model@,
            r@ == normalized_model(model@).take(i as int),
        decreases a.len() - i,
    {
        let c = a[i];
        let d = if c == ':' || c == '.' || c == '/' || c == ' ' {
            '-'
        } else {
            c
        };
        r.push(d);
        assert(normalized_model(model@)[i as int] == d);
        i += 1;
    }
    r
}

/// Whether the service admits a character in a resource name.
pub open spec fn is_name_char(c: char) -> bool {
    'A' <= c <= 'Z' || 'a' <= c <= 'z' || '0' <= c <= '9' || c == '_' || c == '-'
}

/// A character as a worker writes it in a resource name.
pub open spec fn name_char(c: char) -> char {
    if is_name_char(c) {
        c
    } else {
        '-'
    }
}

/// The longest resource name that the service admits.
pub const MAX_NAME: usize = 64;

/// A text as a worker writes it in a resource name: whatever the service does not admit becomes
/// a dash, and what is beyond the longest name is cut off.
pub open spec fn normalized_name(s: Seq<char>) -> Seq<char> {
    let mapped = s.map_values(|c: char| name_char(c));
    if mapped.len() <= MAX_NAME {
        mapped
    } else {
        mapped.take(MAX_NAME as int)
    }
}

/// Writes a text in the form that a worker uses in resource names and subjects.
pub fn normalize_name(s: &str) -> (r: String)
    ensures
        r@ == normalized_name(s@),
{
    let a = chars_of(s);
    let end: usize = if a.len() <= MAX_NAME {
        a.len()
    } else {
        MAX_NAME
    };
    let mut r = String::new();
    let mut i: usize = 0;
    while i < end
        invariant
            i <= end <= a.len(),
            a@ == s@,
            end == if s@.len() <= MAX_NAME {
                s@.len() as int
            } else {
                MAX_NAME as int
            },
            r@ == normalized_name(s@).take(i as int),
        decreases end - i,
    {
        let c = a[i];
        let admitted = ('A' <= c && c <= 'Z') || ('a' <= c && c <= 'z') || ('0' <= c && c <= '9')
            || c == '_' || c == '-';
        let d = if admitted {
            c
        } else {
            '-'
        };
        r.push(d);
        assert(normalized_name(s@)[i as int] == d);
        i += 1;
    }
    assert(normalized_name(s@).take(end as int) =~= normalized_name(s@));
    r
}

// ---------------------------------------------------------------------------
// Queues and topics
// ---------------------------------------------------------------------------

/// Whether the live service admits a name for a queue or a topic.
pub open spec fn valid_name(s: Seq<char>) -> bool {
    1 <= s.len() <= MAX_NAME && forall|i: int| 0 <= i < s.len() ==> is_name_char(#[trigger] s[i])
}

/// The queue that a worker for a model takes its work from.
pub open spec fn worker_queue_name(model: Seq<char>) -> Seq<char> {
    "inference_req_"@ + normalized_name(model)
}

/// The queue that a worker for a model takes its work from.
pub fn worker_queue(model: &str) -> (r: String)
    ensures
        r@ == worker_queue_name(model@),
{
    "inference_req_".to_string().concat(normalize_name(model).as_str())
}

/// The queue that the router sends the work for a model to.
pub open spec fn work_queue_name(surface: Surface, model: Seq<char>) -> Seq<char> {
    match surface {
        Surface::Dotted => "inference."@ + normalized_model(model) + ".req"@,
        Surface::Flat => "inference_req_"@ + normalized_model(model),
    }
}

/// The queue that the router sends the work for a model to.
pub fn work_queue(surface: Surface, model: &str) -> (r: String)
    ensures
        r@ == work_queue_name(surface, model@),
{
    let normalized = normalize_model(model);
    match surface {
        Surface::Dotted => "inference.".to_string().concat(normalized.as_str()).concat(".req"),
        Surface::Flat => "inference_req_".to_string().concat(normalized.as_str()),
    }
}

/// The queue on which the router awaits the one reply to a request.
pub open spec fn response_queue_name(surface: Surface, corr_id: Seq<char>) -> Seq<char> {
    match surface {
        Surface::Dotted => "inference.resp."@ + corr_id,
        Surface::Flat => "inference_resp_"@ + corr_id,
    }
}

/// The queue on which the router awaits the one reply to a request.
pub fn response_queue(surface: Surface, corr_id: &str) -> (r: String)
    ensures
        r@ == response_queue_name(surface, corr_id@),
{
    match surface {
        Surface::Dotted => "inference.resp.".to_string().concat(corr_id),
        Surface::Flat => "inference_resp_".to_string().concat(corr_id),
    }
}

/// The topic to which workers publish tokens.
pub open spec fn response_topic_name(surface: Surface) -> Seq<char> {
    match surface {
        Surface::Dotted => "inference.responses"@,
        Surface::Flat => "inference_responses"@,
    }
}

/// The topic to which workers publish tokens.
pub fn response_topic(surface: Surface) -> (r: String)
    ensures
        r@ == response_topic_name(surface),
{
    match surface {
        Surface::Dotted => "inference.responses".to_string(),
        Surface::Flat => "inference_responses".to_string(),
    }
}

/// The topic to which workers publish their heartbeats.
pub open spec fn presence_topic_name() -> Seq<char> {
    "worker_presence"@
}

/// The topic to which workers publish their heartbeats.
pub fn presence_topic() -> (r: String)
    ensures
        r@ == presence_topic_name(),
{
    "worker_presence".to_string()
}

// ---------------------------------------------------------------------------
// Subjects and filters
// ---------------------------------------------------------------------------

/// The subject of one message about a request: the leaf is `token`, `done` or `error`.
pub open spec fn response_subject_name(corr_id: Seq<char>, leaf: Seq<char>) -> Seq<char> {
    "inference."@ + corr_id + "."@ + leaf
}

/// The subject of one message about a request.
pub fn response_subject(corr_id: &str, leaf: &str) -> (r: String)
    ensures
        r@ == response_subject_name(corr_id@, leaf@),
{
    "inference.".to_string().concat(corr_id).concat(".").concat(leaf)
}

/// The filter that selects the messages about one request.
pub open spec fn response_filter_name(corr_id: Seq<char>) -> Seq<char> {
    "inference."@ + corr_id + ".*"@
}

/// The filter that selects the messages about one request.
pub fn response_filter(corr_id: &str) -> (r: String)
    ensures
        r@ == response_filter_name(corr_id@),
{
    "inference.".to_string().concat(corr_id).concat(".*")
}

/// The subject of a worker's heartbeats.
pub open spec fn presence_subject_name(worker_id: Seq<char>, normalized: Seq<char>) -> Seq<char> {
    "presence."@ + worker_id + "."@ + normalized
}

/// The subject of a worker's heartbeats; the model is given as [`normalize_name`] writes it.
pub fn presence_subject(worker_id: &str, normalized: &str) -> (r: String)
    ensures
        r@ == presence_subject_name(worker_id@, normalized@),
{
    "presence.".to_string().concat(worker_id).concat(".").concat(normalized)
}

/// The tokens of a subject or filter: what stands between its dots.
pub open spec fn tokens(s: Seq<char>) -> Seq<Seq<char>>
    decreases s.len(),
{
    if s.len() == 0 {
        seq![Seq::empty()]
    } else {
        let rest = tokens(s.drop_last());
        if s.last() == '.' {
            rest.push(Seq::empty())
        } else {
            rest.update(rest.len() - 1, rest.last().push(s.last()))
        }
    }
}

/// Whether a filter selects a subject, token by token: a star stands for any one token.
pub open spec fn selects(filter: Seq<char>, subject: Seq<char>) -> bool {
    let f = tokens(filter);
    let s = tokens(subject);
    f.len() == s.len() && forall|i: int|
        0 <= i < f.len() ==> (#[trigger] f[i] == seq!['*'] || f[i] == s[i])
}

} // verus!
