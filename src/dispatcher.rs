use vstd::prelude::*;

use std::collections::VecDeque;

use crate::request::{CompletionRequest, RequestView};

verus! {

/// A unit of asynchronous work: one request, ready to send.
pub struct Job {
    /// Where the job stands in submission order, counted from zero.
    pub ticket: Ghost<nat>,
    pub request: CompletionRequest,
    /// The request's wire form.
    pub body: String,
}

pub struct JobView {
    pub ticket: nat,
    pub request: RequestView,
    pub body: Seq<char>,
}

impl View for Job {
    type V = JobView;

    open spec fn view(&self) -> JobView {
        JobView { ticket: self.ticket@, request: self.request@, body: self.body@ }
    }
}

/// The dispatcher as a mathematical value.
pub struct DispatcherView {
    /// Jobs submitted and not yet started, oldest first.
    pub pending: Seq<JobView>,
    /// Whether a job is in flight.
    pub busy: bool,
    /// How many jobs have been started.
    pub started: nat,
    /// How many jobs have been finished.
    pub finished: nat,
}

impl DispatcherView {
    /// How many jobs have been submitted.
    pub open spec fn submitted(self) -> nat {
        self.started + self.pending.len()
    }

    /// Jobs start one at a time in submission order, and at most one is in
    /// flight.
    pub open spec fn wf(self) -> bool {
        &&& self.finished <= self.started <= self.finished + 1
        &&& self.busy == (self.started == self.finished + 1)
        &&& forall|i: int|
            0 <= i < self.pending.len() ==> #[trigger] self.pending[i].ticket == self.started + i
    }
}

/// A queue of jobs with one worker: jobs are handed out one at a time, in the
/// order they were submitted, and the next only after the previous finished.
pub struct Dispatcher {
    pending: VecDeque<Job>,
    busy: bool,
    started: Ghost<nat>,
    finished: Ghost<nat>,
}

impl View for Dispatcher {
    type V = DispatcherView;

    closed spec fn view(&self) -> DispatcherView {
        DispatcherView {
            pending: self.pending@.map_values(|j: Job| j@),
            busy: self.busy,
            started: self.started@,
            finished: self.finished@,
        }
    }
}

impl Dispatcher {
    /// An idle dispatcher with nothing queued.
    pub fn new() -> (r: Dispatcher)
        ensures
            r@.wf(),
            r@.pending.len() == 0,
            !r@.busy,
            r@.started == 0,
            r@.finished == 0,
    {
        Dispatcher {
            pending: VecDeque::new(),
            busy: false,
            started: Ghost(0),
            finished: Ghost(0),
        }
    }

    /// Whether a job is in flight.
    pub fn is_busy(&self) -> (r: bool)
        ensures
            r == self@.busy,
    {
        self.busy
    }

    /// How many jobs wait to be started.
    pub fn pending_len(&self) -> (r: usize)
        ensures
            r == self@.pending.len(),
    {
        self.pending.len()
    }

    /// Queues a request at the back; it never waits for the worker.
    pub fn submit(&mut self, request: CompletionRequest, body: String)
        requires
            old(self)@.wf(),
        ensures
            final(self)@.wf(),
            final(self)@.pending == old(self)@.pending.push(
                JobView { ticket: old(self)@.submitted(), request: request@, body: body@ },
            ),
            final(self)@.busy == old(self)@.busy,
            final(self)@.started == old(self)@.started,
            final(self)@.finished == old(self)@.finished,
    {
        let ghost ticket = self@.submitted();
        let job = Job { ticket: Ghost(ticket), request, body };
        self.pending.push_back(job);
        assert(self@.pending =~= old(self)@.pending.push(job@));
    }

    /// Hands out the oldest queued job, where no job is in flight; that job
    /// is then in flight. Every job submitted before it has finished.
    pub fn start_next(&mut self) -> (r: Option<Job>)
        requires
            old(self)@.wf(),
        ensures
            final(self)@.wf(),
            (old(self)@.busy || old(self)@.pending.len() == 0) ==> r is None && final(self)@
                == old(self)@,
            !(old(self)@.busy || old(self)@.pending.len() == 0) ==> {
                &&& r is Some
                &&& r->0@ == old(self)@.pending[0]
                &&& r->0@.ticket == old(self)@.finished
                &&& final(self)@.pending == old(self)@.pending.drop_first()
                &&& final(self)@.busy
                &&& final(self)@.started == old(self)@.started + 1
                &&& final(self)@.finished == old(self)@.finished
            },
    {
        if self.busy {
            return None;
        }
        match self.pending.pop_front() {
            Some(job) => {
                self.busy = true;
                self.started = Ghost(self.started@ + 1);
                assert(self@.pending =~= old(self)@.pending.drop_first());
                Some(job)
            },
            None => None,
        }
    }

    /// Marks the job in flight as finished.
    pub fn finish(&mut self)
        requires
            old(self)@.wf(),
            old(self)@.busy,
        ensures
            final(self)@.wf(),
            final(self)@.pending == old(self)@.pending,
            !final(self)@.busy,
            final(self)@.started == old(self)@.started,
            final(self)@.finished == old(self)@.finished + 1,
    {
        self.busy = false;
        self.finished = Ghost(self.finished@ + 1);
        assert(self@.pending =~= old(self)@.pending);
    }
}

/// First in, first out: where jobs `a` and `b` were submitted in that order
/// and `b` has started, `a` has both started and finished.
pub proof fn lemma_fifo(d: DispatcherView, a: nat, b: nat)
    requires
        d.wf(),
        a < b,
        b < d.started,
    ensures
        a < d.finished,
{
}

/// Of the jobs submitted so far, at most one has started and not finished.
pub proof fn lemma_one_in_flight(d: DispatcherView)
    requires
        d.wf(),
    ensures
        d.started - d.finished <= 1,
        d.busy <==> d.started - d.finished == 1,
{
}

} // verus!
