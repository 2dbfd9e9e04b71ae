//! The start of a worker: it creates the resources that it needs, one after the other, and gives up
//! at the first that it cannot have.
use crate::web::Request;
use crate::worker::{create_resource, create_verdict, ensure_resources, Cfg, Resource};
use vstd::prelude::*;

verus! {

/// How many of the resources have been created.
#[derive(Debug)]
pub struct Setup {
    pub created: usize,
}

/// How the creation of a resource came out.
#[derive(Debug)]
pub enum Outcome {
    /// The service answered. The detail is the body as text where the status reports no success.
    Replied { status: u16, detail: String },
    /// The request could not be sent or was not answered.
    Failed { error: String },
}

/// The outcomes over mathematical values.
pub enum OutcomeView {
    Replied { status: u16, detail: Seq<char> },
    Failed { error: Seq<char> },
}

impl View for Outcome {
    type V = OutcomeView;

    open spec fn view(&self) -> OutcomeView {
        match self {
            Outcome::Replied { status, detail } => OutcomeView::Replied {
                status: *status,
                detail: detail@,
            },
            Outcome::Failed { error } => OutcomeView::Failed { error: error@ },
        }
    }
}

/// What the worker does next.
#[derive(Debug)]
pub enum Step {
    /// Create a resource by this request.
    Create { request: Request },
    /// All resources are there.
    Ready,
    /// Give up.
    Fail { error: String },
}

/// What the worker does next, over mathematical values.
pub enum StepView {
    Create { request: crate::web::RequestView },
    Ready,
    Fail { error: Seq<char> },
}

impl View for Step {
    type V = StepView;

    open spec fn view(&self) -> StepView {
        match self {
            Step::Create { request } => StepView::Create { request: request@ },
            Step::Ready => StepView::Ready,
            Step::Fail { error } => StepView::Fail { error: error@ },
        }
    }
}

/// The request that creates the resource at `i`.
pub open spec fn creation(cfg: crate::worker::CfgView, i: int) -> crate::web::RequestView {
    let needed = crate::worker::needed_resources(cfg);
    crate::worker::create_request(cfg, needed[i].0, needed[i].1)
}

/// What comes once so many resources have been created.
pub open spec fn upcoming(cfg: crate::worker::CfgView, created: nat) -> StepView {
    if created < crate::worker::needed_resources(cfg).len() {
        StepView::Create { request: creation(cfg, created as int) }
    } else {
        StepView::Ready
    }
}

/// What is wrong with the creation of the resource at `i`, if anything.
pub open spec fn refusal(cfg: crate::worker::CfgView, i: int, outcome: OutcomeView) -> Option<
    Seq<char>,
> {
    let needed = crate::worker::needed_resources(cfg);
    match outcome {
        OutcomeView::Replied { status, detail } => crate::worker::verdict(
            crate::worker::create_what(needed[i].0, needed[i].1),
            status,
            detail,
        ),
        OutcomeView::Failed { error } => Some(error),
    }
}

/// How the start goes on after an outcome.
pub open spec fn continuation(
    cfg: crate::worker::CfgView,
    created: nat,
    outcome: OutcomeView,
) -> (nat, StepView) {
    match refusal(cfg, created as int, outcome) {
        Some(error) => (created, StepView::Fail { error }),
        None => (created + 1, upcoming(cfg, created + 1)),
    }
}

fn ask(cfg: &Cfg, created: usize) -> (r: Step)
    ensures
        r@ == upcoming(cfg@, created as nat),
{
    let needed = ensure_resources(cfg);
    assert(crate::worker::resource_texts(needed@).len() == needed@.len());
    if created < needed.len() {
        let resource: &Resource = &needed[created];
        assert(crate::worker::resource_texts(needed@)[created as int] == (
            resource.path@,
            resource.name@,
        ));
        Step::Create {
            request: create_resource(cfg, resource.path.as_str(), resource.name.as_str()),
        }
    } else {
        Step::Ready
    }
}

impl Setup {
    /// Starts with the first resource.
    pub fn begin(cfg: &Cfg) -> (r: (Setup, Step))
        ensures
            r.0.created == 0,
            r.1@ == upcoming(cfg@, 0),
    {
        (Setup { created: 0 }, ask(cfg, 0))
    }

    /// Whether a resource is still being created.
    pub fn is_creating(&self) -> (r: bool)
        ensures
            r == (self.created < 3),
    {
        self.created < 3
    }

    /// Takes the outcome of the last creation and decides what comes next.
    pub fn step(self, cfg: &Cfg, outcome: Outcome) -> (r: (Setup, Step))
        requires
            self.created < 3,
        ensures
            (r.0.created as nat, r.1@) == continuation(cfg@, self.created as nat, outcome@),
    {
        let needed = ensure_resources(cfg);
        assert(crate::worker::resource_texts(needed@).len() == needed@.len());
        let resource: &Resource = &needed[self.created];
        assert(crate::worker::resource_texts(needed@)[self.created as int] == (
            resource.path@,
            resource.name@,
        ));
        let refused = match outcome {
            Outcome::Replied { status, detail } => create_verdict(
                resource.path.as_str(),
                resource.name.as_str(),
                status,
                detail.as_str(),
            ),
            Outcome::Failed { error } => Some(error),
        };
        match refused {
            Some(error) => (self, Step::Fail { error }),
            None => {
                let created: usize = self.created + 1;
                (Setup { created }, ask(cfg, created))
            },
        }
    }
}

/// Whether a series of outcomes is one that a start can take from here: it goes on while resources
/// are wanting, and no further than the first refusal.
pub open spec fn runs(
    cfg: crate::worker::CfgView,
    created: nat,
    outcomes: Seq<OutcomeView>,
) -> bool
    decreases outcomes.len(),
{
    outcomes.len() > 0 ==> {
        &&& created < 3
        &&& match refusal(cfg, created as int, outcomes[0]) {
            Some(_) => outcomes.len() == 1,
            None => runs(cfg, created + 1, outcomes.skip(1)),
        }
    }
}

/// The steps that a start takes over a series of outcomes, from the one that is up on.
pub open spec fn steps(
    cfg: crate::worker::CfgView,
    created: nat,
    up: StepView,
    outcomes: Seq<OutcomeView>,
) -> Seq<StepView>
    decreases outcomes.len(),
{
    if outcomes.len() == 0 {
        seq![up]
    } else {
        let next = continuation(cfg, created, outcomes[0]);
        seq![up] + steps(cfg, next.0, next.1, outcomes.skip(1))
    }
}

/// A start creates the needed resources in their order and ends at the first refusal: each step but
/// the last is the creation of the next resource; the last is another creation, or the error of the
/// refusal that came last, or, exactly when all three were created, that the worker is ready.
pub proof fn law_setup(cfg: crate::worker::CfgView, outcomes: Seq<OutcomeView>)
    requires
        runs(cfg, 0, outcomes),
    ensures
        outcomes.len() <= 3,
        ({
            let s = steps(cfg, 0, upcoming(cfg, 0), outcomes);
            &&& s.len() == outcomes.len() + 1
            &&& forall|i: int|
                0 <= i < outcomes.len() ==> #[trigger] s[i] == (StepView::Create {
                    request: creation(cfg, i),
                })
            &&& s.last() is Create ==> s.last() == (StepView::Create {
                request: creation(cfg, outcomes.len() as int),
            })
            &&& s.last() is Ready <==> outcomes.len() == 3 && (forall|i: int|
                0 <= i < 3 ==> refusal(cfg, i, #[trigger] outcomes[i]) is None)
            &&& s.last() is Fail <==> outcomes.len() > 0 && refusal(
                cfg,
                outcomes.len() - 1,
                outcomes.last(),
            ) is Some
            &&& s.last() is Fail ==> refusal(cfg, outcomes.len() - 1, outcomes.last()) == Some(
                s.last()->error,
            )
        }),
{
    reveal_with_fuel(runs, 5);
    reveal_with_fuel(steps, 5);
    if outcomes.len() > 1 {
        let r1 = outcomes.skip(1);
        assert(r1[0] == outcomes[1]);
        if r1.len() > 1 {
            assert(r1.skip(1)[0] == outcomes[2]);
        }
    }
}

/// A resource that is there already is created again without harm: any answer that reports success
/// counts.
pub proof fn law_success_is_no_refusal(
    cfg: crate::worker::CfgView,
    i: int,
    status: u16,
    detail: Seq<char>,
)
    ensures
        refusal(cfg, i, OutcomeView::Replied { status, detail }) is None
            <==> crate::web::success(status),
{
}

} // verus!
