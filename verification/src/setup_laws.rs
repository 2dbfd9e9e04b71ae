//! What the start of a worker does with each outcome, said of [`Setup`] itself.
use crate::answer_laws;
use crate::json;
use crate::outside::Member;
use crate::request_laws;
use crate::setup;
use crate::setup::{Outcome, Setup, Step};
use crate::web::Method;
use crate::worker;
use vstd::prelude::*;

verus! {

/// The name of the resource that a worker creates at this place: first its own queue, then the topic
/// for responses, then the topic for presence.
pub open spec fn name_at(cfg: worker::Cfg, i: int) -> Seq<char> {
    if i == 0 {
        cfg.queue@
    } else if i == 1 {
        "inference_responses"@
    } else {
        "worker_presence"@
    }
}

/// The path under which it is created.
pub open spec fn path_at(i: int) -> Seq<char> {
    if i == 0 {
        "/queues"@
    } else {
        "/topics"@
    }
}

/// Whether a step creates the resource at a place: the request goes to the path, and what was found
/// under "name" in its body is the name.
pub open spec fn creates(
    cfg: worker::Cfg,
    i: int,
    step: Step,
    found: Result<Option<Member>, String>,
) -> bool {
    &&& step is Create
    &&& request_laws::goes(step->request, Method::Post, cfg.base@ + path_at(i))
    &&& request_laws::bears(step->request, cfg.bearer@)
    &&& request_laws::is_of_type(step->request, "application/json"@)
    &&& step->request.subject is None
    &&& request_laws::text_found(found) == Some(name_at(cfg, i))
}

/// A start begins with the worker's own queue.
pub proof fn law_setup_begins(
    cfg: &worker::Cfg,
    r: (Setup, Step),
    document: &[u8],
    key: &str,
    found: Result<Option<Member>, String>,
)
    requires
        call_ensures(Setup::begin, (cfg,), r),
        r.1 is Create ==> document@ == r.1->request.body@,
        key@ == "name"@,
        json::looked_up(document, key, found),
    ensures
        r.0.created == 0,
        creates(*cfg, 0, r.1, found),
{
    assert(r.1@ is Create);
    assert(r.1@->request == setup::creation(cfg@, 0));
    request_laws::lemma_name_body(cfg.queue@, document, key, found);
}

/// A resource counts as created exactly when the answer's status lies in 200 to 299. Then comes the
/// next one, and after the third the worker is ready. Any other answer ends the start with a complaint
/// that names the resource, the status and all of what was said; a request that was not answered ends
/// it with its own error.
pub proof fn law_setup_goes_on(
    cfg: &worker::Cfg,
    s: Setup,
    outcome: Outcome,
    r: (Setup, Step),
    document: &[u8],
    key: &str,
    found: Result<Option<Member>, String>,
)
    requires
        s.created < 3,
        call_ensures(Setup::step, (s, cfg, outcome), r),
        r.1 is Create ==> document@ == r.1->request.body@,
        key@ == "name"@,
        json::looked_up(document, key, found),
    ensures
        outcome is Replied && 200 <= outcome->status <= 299 ==> {
            &&& r.0.created == s.created + 1
            &&& s.created < 2 ==> creates(*cfg, s.created + 1, r.1, found)
            &&& s.created == 2 ==> r.1 is Ready
        },
        outcome is Replied && !(200 <= outcome->status <= 299) ==> {
            &&& r.0.created == s.created
            &&& r.1 is Fail
            &&& answer_laws::is_refusal(
                r.1->error@,
                "create "@ + path_at(s.created as int) + " "@ + name_at(*cfg, s.created as int)
                    + ": "@,
                outcome->status,
                outcome->detail@,
            )
        },
        outcome is Failed ==> r.0.created == s.created && r.1 is Fail && r.1->error@
            == outcome->error@,
{
    let needed = worker::needed_resources(cfg@);
    let i = s.created as int;
    assert(needed.len() == 3);
    assert(needed[i].0 == path_at(i) && needed[i].1 == name_at(*cfg, i));
    assert(r.1@ == setup::continuation(cfg@, s.created as nat, outcome@).1);
    if let Outcome::Replied { status, detail } = outcome {
        answer_laws::lemma_refusal(
            worker::create_what(path_at(i), name_at(*cfg, i)),
            status,
            detail@,
        );
        if 200 <= status <= 299 && i < 2 {
            assert(needed[i + 1].0 == path_at(i + 1) && needed[i + 1].1 == name_at(*cfg, i + 1));
            assert(r.1@ is Create);
            assert(r.1@->request == setup::creation(cfg@, i + 1));
            request_laws::lemma_name_body(name_at(*cfg, i + 1), document, key, found);
        }
    }
}

/// Resources are still being created until there are three of them.
pub proof fn law_setup_is_creating(s: &Setup, r: bool)
    requires
        call_ensures(Setup::is_creating, (s,), r),
    ensures
        r <==> s.created < 3,
{
}

} // verus!
