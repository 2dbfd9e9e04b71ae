//! The course of one work item through a worker.
//!
//! The worker performs one [`Action`] after the other and reports each outcome as an [`Event`];
//! [`Job::begin`] and [`Job::step`] decide what comes next: the model's output is asked for, cut into
//! lines, published token by token and as a whole, and the message is acknowledged in the end
//! whatever happened.
use crate::generation::{Generation, OllamaChunk};
use crate::text::bytes_of;
use crate::web::Request;
use crate::worker::{
    ack, error_response, final_response, generate, judge, publish_done, publish_error,
    publish_token, send_to_queue, Cfg,
};
use vstd::prelude::*;
use vstd::string::*;

verus! {

/// A piece of work as the router publishes it.
#[derive(Debug)]
pub struct WorkItem {
    pub corr_id: String,
    pub model: String,
    pub prompt: String,
    pub response_queue: Option<String>,
}

/// A piece of work over mathematical values.
pub struct WorkItemView {
    pub corr_id: Seq<char>,
    pub model: Seq<char>,
    pub prompt: Seq<char>,
    pub response_queue: Option<Seq<char>>,
}

impl View for WorkItem {
    type V = WorkItemView;

    open spec fn view(&self) -> WorkItemView {
        WorkItemView {
            corr_id: self.corr_id@,
            model: self.model@,
            prompt: self.prompt@,
            response_queue: crate::web::opt_text(self.response_queue),
        }
    }
}

/// How far a job has come: which outcome it awaits.
#[derive(Debug)]
pub enum Phase {
    /// The model runtime has been asked to generate.
    Asking,
    /// More output is awaited.
    Reading { output: Generation },
    /// A line of output is being read.
    Decoding { output: Generation },
    /// A token is being published.
    PublishingToken { output: Generation },
    /// The end of the output is being published.
    PublishingDone { output: Generation },
    /// The whole output is being sent to the response queue.
    SendingFinal { queue: String },
    /// A failure is being published.
    PublishingError { error: String },
    /// A failure is being sent to the response queue.
    SendingError { error: String },
    /// The message is being acknowledged; the outcome is what the job failed of, if it did.
    Acking { outcome: Option<String> },
    /// All is done.
    Ended,
}

/// The phases over mathematical values.
pub enum PhaseView {
    Asking,
    Reading { output: crate::generation::GenerationView },
    Decoding { output: crate::generation::GenerationView },
    PublishingToken { output: crate::generation::GenerationView },
    PublishingDone { output: crate::generation::GenerationView },
    SendingFinal { queue: Seq<char> },
    PublishingError { error: Seq<char> },
    SendingError { error: Seq<char> },
    Acking { outcome: Option<Seq<char>> },
    Ended,
}

impl View for Phase {
    type V = PhaseView;

    open spec fn view(&self) -> PhaseView {
        match self {
            Phase::Asking => PhaseView::Asking,
            Phase::Reading { output } => PhaseView::Reading { output: output@ },
            Phase::Decoding { output } => PhaseView::Decoding { output: output@ },
            Phase::PublishingToken { output } => PhaseView::PublishingToken { output: output@ },
            Phase::PublishingDone { output } => PhaseView::PublishingDone { output: output@ },
            Phase::SendingFinal { queue } => PhaseView::SendingFinal { queue: queue@ },
            Phase::PublishingError { error } => PhaseView::PublishingError { error: error@ },
            Phase::SendingError { error } => PhaseView::SendingError { error: error@ },
            Phase::Acking { outcome } => PhaseView::Acking {
                outcome: crate::web::opt_text(*outcome),
            },
            Phase::Ended => PhaseView::Ended,
        }
    }
}

/// The outcome of an action.
#[derive(Debug)]
pub enum Event {
    /// A request was answered. The detail is the body as text where the status reports no success.
    Replied { status: u16, detail: String },
    /// A request could not be sent or was not answered.
    Failed { error: String },
    /// More of the model's output has come in.
    Chunk { bytes: Vec<u8> },
    /// The model's output is at its end.
    StreamEnded,
    /// The model's output broke off.
    StreamFailed { error: String },
    /// What a line of output says, where it could be read.
    Decoded { chunk: Option<OllamaChunk> },
}

/// The outcomes over mathematical values.
pub enum EventView {
    Replied { status: u16, detail: Seq<char> },
    Failed { error: Seq<char> },
    Chunk { bytes: Seq<u8> },
    StreamEnded,
    StreamFailed { error: Seq<char> },
    Decoded { chunk: Option<crate::generation::ChunkView> },
}

impl View for Event {
    type V = EventView;

    open spec fn view(&self) -> EventView {
        match self {
            Event::Replied { status, detail } => EventView::Replied {
                status: *status,
                detail: detail@,
            },
            Event::Failed { error } => EventView::Failed { error: error@ },
            Event::Chunk { bytes } => EventView::Chunk { bytes: bytes@ },
            Event::StreamEnded => EventView::StreamEnded,
            Event::StreamFailed { error } => EventView::StreamFailed { error: error@ },
            Event::Decoded { chunk } => EventView::Decoded {
                chunk: match chunk {
                    Some(c) => Some(c@),
                    None => None,
                },
            },
        }
    }
}

/// What the worker is to do next.
#[derive(Debug)]
pub enum Action {
    /// Send a request. The answer to a request for output is kept open where it reports success.
    Send { request: Request },
    /// Wait for more of the model's output.
    ReadChunk,
    /// Read a line of output as JSON.
    Decode { line: Vec<u8> },
    /// The job is over; the error is what it failed of, if it did.
    Finish { error: Option<String> },
}

/// The actions over mathematical values.
pub enum ActionView {
    Send { request: crate::web::RequestView },
    ReadChunk,
    Decode { line: Seq<u8> },
    Finish { error: Option<Seq<char>> },
}

impl View for Action {
    type V = ActionView;

    open spec fn view(&self) -> ActionView {
        match self {
            Action::Send { request } => ActionView::Send { request: request@ },
            Action::ReadChunk => ActionView::ReadChunk,
            Action::Decode { line } => ActionView::Decode { line: line@ },
            Action::Finish { error } => ActionView::Finish { error: crate::web::opt_text(*error) },
        }
    }
}

/// One work item on its way.
#[derive(Debug)]
pub struct Job {
    pub item: WorkItem,
    pub ack_token: String,
    pub phase: Phase,
}

/// One work item on its way, over mathematical values.
pub struct JobView {
    pub item: WorkItemView,
    pub ack_token: Seq<char>,
    pub phase: PhaseView,
}

impl View for Job {
    type V = JobView;

    open spec fn view(&self) -> JobView {
        JobView { item: self.item@, ack_token: self.ack_token@, phase: self.phase@ }
    }
}

// ---------------------------------------------------------------------------
// The course of a job
// ---------------------------------------------------------------------------

/// What the answer to a request means: nothing where it succeeded, else what went wrong.
pub open spec fn complaint(what: Seq<char>, e: EventView) -> Option<Seq<char>> {
    match e {
        EventView::Replied { status, detail } => crate::worker::verdict(what, status, detail),
        EventView::Failed { error } => Some(error),
        _ => None,
    }
}

/// What is refused where a queue does not take a document.
pub open spec fn send_what(queue: Seq<char>) -> Seq<char> {
    "send to "@ + queue + ": "@
}

impl JobView {
    /// The job in another phase.
    pub open spec fn at(self, phase: PhaseView) -> JobView {
        JobView { phase, ..self }
    }

    /// The next request is sent.
    pub open spec fn send(
        self,
        phase: PhaseView,
        request: crate::web::RequestView,
    ) -> (JobView, ActionView) {
        (self.at(phase), ActionView::Send { request })
    }

    /// The message is acknowledged.
    pub open spec fn acknowledge(
        self,
        cfg: crate::worker::CfgView,
        error: Option<Seq<char>>,
    ) -> (JobView, ActionView) {
        self.send(
            PhaseView::Acking { outcome: error },
            crate::worker::ack_request(cfg, self.ack_token),
        )
    }

    /// The job has failed, which is published.
    pub open spec fn fail(
        self,
        cfg: crate::worker::CfgView,
        error: Seq<char>,
    ) -> (JobView, ActionView) {
        self.send(
            PhaseView::PublishingError { error },
            crate::worker::error_request(cfg, self.item.corr_id, error),
        )
    }

    /// The output is at its end, which is published.
    pub open spec fn complete(
        self,
        cfg: crate::worker::CfgView,
        output: crate::generation::GenerationView,
    ) -> (JobView, ActionView) {
        self.send(
            PhaseView::PublishingDone { output },
            crate::worker::done_request(cfg, self.item.corr_id, output.tokens),
        )
    }

    /// The next waiting line is read. Where none waits, the output is at its end if the model said
    /// so, and else more is awaited.
    pub open spec fn advance(
        self,
        cfg: crate::worker::CfgView,
        output: crate::generation::GenerationView,
    ) -> (JobView, ActionView) {
        if output.pending.len() > 0 {
            (
                self.at(PhaseView::Decoding { output: output.taken() }),
                ActionView::Decode { line: output.pending[0] },
            )
        } else if output.done {
            self.complete(cfg, output)
        } else {
            (self.at(PhaseView::Reading { output }), ActionView::ReadChunk)
        }
    }

    /// Whether an event is the outcome of what the job is doing. A token has to leave the count of
    /// tokens within 32 bits.
    pub open spec fn awaits(self, e: EventView) -> bool {
        match self.phase {
            PhaseView::Reading { output } => e is Chunk || e is StreamEnded || e is StreamFailed,
            PhaseView::Decoding { output } => match e {
                EventView::Decoded { chunk: Some(chunk) } => chunk.response.len() > 0
                    ==> output.tokens < u32::MAX,
                EventView::Decoded { chunk: None } => true,
                _ => false,
            },
            PhaseView::Ended => false,
            _ => e is Replied || e is Failed,
        }
    }
}

/// How a job begins.
pub open spec fn beginning(
    cfg: crate::worker::CfgView,
    item: WorkItemView,
    ack_token: Seq<char>,
) -> (JobView, ActionView) {
    (
        JobView { item, ack_token, phase: PhaseView::Asking },
        ActionView::Send { request: crate::worker::generate_request(cfg, item.prompt) },
    )
}

/// How a job goes on after an outcome that it awaits.
pub open spec fn continuation(
    cfg: crate::worker::CfgView,
    j: JobView,
    e: EventView,
) -> (JobView, ActionView) {
    match j.phase {
        PhaseView::Asking => match complaint("ollama "@, e) {
            Some(error) => j.fail(cfg, error),
            None => j.advance(cfg, crate::generation::GenerationView::empty()),
        },
        PhaseView::Reading { output } => match e {
            EventView::Chunk { bytes } => j.advance(cfg, output.fed(bytes)),
            EventView::StreamFailed { error } => j.fail(cfg, error),
            _ => j.complete(cfg, output),
        },
        PhaseView::Decoding { output } => match e {
            EventView::Decoded { chunk: Some(chunk) } => if chunk.response.len() > 0 {
                j.send(
                    PhaseView::PublishingToken { output: output.absorbed(chunk) },
                    crate::worker::token_request(cfg, j.item.corr_id, chunk.response),
                )
            } else {
                j.advance(cfg, output.absorbed(chunk))
            },
            _ => j.advance(cfg, output),
        },
        PhaseView::PublishingToken { output } => match complaint("publish "@, e) {
            Some(error) => j.fail(cfg, error),
            None => j.advance(cfg, output),
        },
        PhaseView::PublishingDone { output } => match complaint("publish "@, e) {
            Some(error) => j.fail(cfg, error),
            None => match j.item.response_queue {
                Some(queue) => j.send(
                    PhaseView::SendingFinal { queue },
                    crate::worker::send_request(
                        cfg,
                        queue,
                        crate::worker::final_bytes(
                            j.item.corr_id,
                            cfg.model,
                            output.text,
                            output.tokens,
                        ),
                    ),
                ),
                None => j.acknowledge(cfg, None),
            },
        },
        PhaseView::SendingFinal { queue } => match complaint(send_what(queue), e) {
            Some(error) => j.fail(cfg, error),
            None => j.acknowledge(cfg, None),
        },
        PhaseView::PublishingError { error } => match (
            complaint("publish "@, e),
            j.item.response_queue,
        ) {
            (None, Some(queue)) => j.send(
                PhaseView::SendingError { error },
                crate::worker::send_request(
                    cfg,
                    queue,
                    crate::worker::error_bytes(j.item.corr_id, cfg.model, error),
                ),
            ),
            _ => j.acknowledge(cfg, Some(error)),
        },
        PhaseView::SendingError { error } => j.acknowledge(cfg, Some(error)),
        PhaseView::Acking { outcome } => (
            j.at(PhaseView::Ended),
            ActionView::Finish { error: outcome },
        ),
        PhaseView::Ended => (j, ActionView::ReadChunk),
    }
}

/// Whether the answer to a request is a complaint, and which.
fn complain(what: &str, event: Event) -> (r: Option<String>)
    ensures
        crate::web::opt_text(r) == complaint(what@, event@),
{
    match event {
        Event::Replied { status, detail } => judge(what, status, detail.as_str()),
        Event::Failed { error } => Some(error),
        _ => None,
    }
}

/// Starts the job of a message. Without a readable work item there is no job, and the message is left
/// to be delivered again.
pub fn handle_message(cfg: &Cfg, item: Option<WorkItem>, ack_token: String) -> (r: Result<
    (Job, Action),
    String,
>)
    ensures
        match item {
            Some(i) => r is Ok && ((r->Ok_0).0@, (r->Ok_0).1@) == beginning(cfg@, i@, ack_token@),
            None => r is Err && r->Err_0@ == "decoding work item"@,
        },
{
    match item {
        Some(item) => Ok(Job::begin(cfg, item, ack_token)),
        None => Err("decoding work item".to_string()),
    }
}

impl Job {
    /// Starts a job.
    pub fn begin(cfg: &Cfg, item: WorkItem, ack_token: String) -> (r: (Job, Action))
        ensures
            (r.0@, r.1@) == beginning(cfg@, item@, ack_token@),
    {
        let request = generate(cfg, item.prompt.as_str());
        (Job { item, ack_token, phase: Phase::Asking }, Action::Send { request })
    }

    /// Whether an event is the outcome of what the job is doing.
    pub fn accepts(&self, event: &Event) -> (r: bool)
        ensures
            r == self@.awaits(event@),
    {
        match &self.phase {
            Phase::Reading { .. } => match event {
                Event::Chunk { .. } | Event::StreamEnded | Event::StreamFailed { .. } => true,
                _ => false,
            },
            Phase::Decoding { output } => match event {
                Event::Decoded { chunk: Some(chunk) } => chunk.response.as_str().is_empty()
                    || output.tokens < u32::MAX,
                Event::Decoded { chunk: None } => true,
                _ => false,
            },
            Phase::Ended => false,
            _ => match event {
                Event::Replied { .. } | Event::Failed { .. } => true,
                _ => false,
            },
        }
    }

    fn at(self, phase: Phase) -> (r: Job)
        ensures
            r@ == self@.at(phase@),
    {
        Job { phase, ..self }
    }

    fn send(self, phase: Phase, request: Request) -> (r: (Job, Action))
        ensures
            (r.0@, r.1@) == self@.send(phase@, request@),
    {
        (self.at(phase), Action::Send { request })
    }

    fn acknowledge(self, cfg: &Cfg, error: Option<String>) -> (r: (Job, Action))
        ensures
            (r.0@, r.1@) == self@.acknowledge(cfg@, crate::web::opt_text(error)),
    {
        let request = ack(cfg, self.ack_token.as_str());
        self.send(Phase::Acking { outcome: error }, request)
    }

    fn fail(self, cfg: &Cfg, error: String) -> (r: (Job, Action))
        ensures
            (r.0@, r.1@) == self@.fail(cfg@, error@),
    {
        let request = publish_error(cfg, self.item.corr_id.as_str(), error.as_str());
        self.send(Phase::PublishingError { error }, request)
    }

    fn complete(self, cfg: &Cfg, output: Generation) -> (r: (Job, Action))
        ensures
            (r.0@, r.1@) == self@.complete(cfg@, output@),
    {
        let request = publish_done(cfg, self.item.corr_id.as_str(), output.tokens);
        self.send(Phase::PublishingDone { output }, request)
    }

    fn advance(self, cfg: &Cfg, output: Generation) -> (r: (Job, Action))
        ensures
            (r.0@, r.1@) == self@.advance(cfg@, output@),
    {
        let mut output = output;
        match output.next_line() {
            Some(line) => (self.at(Phase::Decoding { output }), Action::Decode { line }),
            None => {
                if output.done {
                    self.complete(cfg, output)
                } else {
                    (self.at(Phase::Reading { output }), Action::ReadChunk)
                }
            },
        }
    }

    fn decoded(self, cfg: &Cfg, output: Generation, chunk: Option<OllamaChunk>) -> (r: (Job, Action))
        requires
            chunk is Some && chunk->0@.response.len() > 0 ==> output@.tokens < u32::MAX,
        ensures
            (r.0@, r.1@) == continuation(
                cfg@,
                self@.at(PhaseView::Decoding { output: output@ }),
                EventView::Decoded {
                    chunk: match chunk {
                        Some(c) => Some(c@),
                        None => None,
                    },
                },
            ),
    {
        let mut output = output;
        match chunk {
            Some(chunk) => match output.absorb(chunk) {
                Some(token) => {
                    let request = publish_token(cfg, self.item.corr_id.as_str(), token.as_str());
                    self.send(Phase::PublishingToken { output }, request)
                },
                None => self.advance(cfg, output),
            },
            None => self.advance(cfg, output),
        }
    }

    fn published_done(self, cfg: &Cfg, output: Generation) -> (r: (Job, Action))
        ensures
            (r.0@, r.1@) == match self@.item.response_queue {
                Some(queue) => self@.send(
                    PhaseView::SendingFinal { queue },
                    crate::worker::send_request(
                        cfg@,
                        queue,
                        crate::worker::final_bytes(
                            self@.item.corr_id,
                            cfg@.model,
                            output@.text,
                            output@.tokens,
                        ),
                    ),
                ),
                None => self@.acknowledge(cfg@, None),
            },
    {
        match &self.item.response_queue {
            Some(queue) => {
                let body = final_response(
                    self.item.corr_id.as_str(),
                    cfg.model.as_str(),
                    output.text.as_str(),
                    output.tokens,
                );
                let request = send_to_queue(cfg, queue.as_str(), bytes_of(body.as_str()).as_slice());
                let queue = queue.clone();
                self.send(Phase::SendingFinal { queue }, request)
            },
            None => self.acknowledge(cfg, None),
        }
    }

    fn published_error(self, cfg: &Cfg, error: String, failed: bool) -> (r: (Job, Action))
        ensures
            (r.0@, r.1@) == match (failed, self@.item.response_queue) {
                (false, Some(queue)) => self@.send(
                    PhaseView::SendingError { error: error@ },
                    crate::worker::send_request(
                        cfg@,
                        queue,
                        crate::worker::error_bytes(self@.item.corr_id, cfg@.model, error@),
                    ),
                ),
                _ => self@.acknowledge(cfg@, Some(error@)),
            },
    {
        if failed {
            return self.acknowledge(cfg, Some(error));
        }
        match &self.item.response_queue {
            Some(queue) => {
                let body = error_response(
                    self.item.corr_id.as_str(),
                    cfg.model.as_str(),
                    error.as_str(),
                );
                let request = send_to_queue(cfg, queue.as_str(), bytes_of(body.as_str()).as_slice());
                self.send(Phase::SendingError { error }, request)
            },
            None => self.acknowledge(cfg, Some(error)),
        }
    }

    /// Takes the outcome of the last action and decides the next.
    pub fn step(self, cfg: &Cfg, event: Event) -> (r: (Job, Action))
        requires
            self@.awaits(event@),
        ensures
            (r.0@, r.1@) == continuation(cfg@, self@, event@),
    {
        let Job { item, ack_token, phase } = self;
        let j = Job { item, ack_token, phase: Phase::Ended };
        assert(forall|p: PhaseView| #[trigger] j@.at(p) == self@.at(p));
        match phase {
            Phase::Asking => match complain("ollama ", event) {
                Some(error) => j.fail(cfg, error),
                None => j.advance(cfg, Generation::new()),
            },
            Phase::Reading { output } => match event {
                Event::Chunk { bytes } => {
                    let mut output = output;
                    output.feed(bytes.as_slice());
                    j.advance(cfg, output)
                },
                Event::StreamFailed { error } => j.fail(cfg, error),
                _ => j.complete(cfg, output),
            },
            Phase::Decoding { output } => match event {
                Event::Decoded { chunk } => {
                    assert(j@.at(PhaseView::Decoding { output: output@ }) == self@);
                    j.decoded(cfg, output, chunk)
                },
                _ => j.advance(cfg, output),
            },
            Phase::PublishingToken { output } => match complain("publish ", event) {
                Some(error) => j.fail(cfg, error),
                None => j.advance(cfg, output),
            },
            Phase::PublishingDone { output } => match complain("publish ", event) {
                Some(error) => j.fail(cfg, error),
                None => j.published_done(cfg, output),
            },
            Phase::SendingFinal { queue } => {
                let what = "send to ".to_string().concat(queue.as_str()).concat(": ");
                match complain(what.as_str(), event) {
                    Some(error) => j.fail(cfg, error),
                    None => j.acknowledge(cfg, None),
                }
            },
            Phase::PublishingError { error } => {
                let failed = complain("publish ", event).is_some();
                j.published_error(cfg, error, failed)
            },
            Phase::SendingError { error } => j.acknowledge(cfg, Some(error)),
            Phase::Acking { outcome } => (j, Action::Finish { error: outcome }),
            Phase::Ended => (j, Action::ReadChunk),
        }
    }
}

} // verus!
