//! The lifecycle of an asynchronous task: upload in chunks, start the analysis,
//! poll the status with backoff, fetch the result, clear the server's copy.
//!
//! Nothing here performs a request. A [`Task`] says which request comes next
//! ([`Action`]) and is told how each request went; the caller performs them.
use vstd::prelude::*;

use crate::errors::Error;
use crate::rep::{is_random_id, random_id, ClusterContent, CommentsCluster, TaskStatus, TextCluster};

verus! {

/// Most documents sent in one upload.
pub const CHUNK_SIZE: usize = 100;

/// The two asynchronous services.
#[derive(Debug, Copy, Clone, PartialEq, Eq, Structural)]
pub enum Namespace {
    /// Text clustering.
    Cluster,
    /// Representative comments.
    Comments,
}

/// The requests that make up a task's lifecycle.
#[derive(Debug, Copy, Clone, PartialEq, Eq, Structural)]
pub enum Operation {
    Push,
    Analysis,
    Status,
    Results,
    Clear,
}

pub open spec fn namespace_name(ns: Namespace) -> Seq<char> {
    match ns {
        Namespace::Cluster => "cluster"@,
        Namespace::Comments => "comments"@,
    }
}

pub open spec fn operation_name(op: Operation) -> Seq<char> {
    match op {
        Operation::Push => "push"@,
        Operation::Analysis => "analysis"@,
        Operation::Status => "status"@,
        Operation::Results => "result"@,
        Operation::Clear => "clear"@,
    }
}

/// `/{namespace}/{operation}/{task_id}`
pub open spec fn endpoint_path(ns: Namespace, op: Operation, task_id: Seq<char>) -> Seq<char> {
    "/"@ + namespace_name(ns) + "/"@ + operation_name(op) + "/"@ + task_id
}

impl Namespace {
    pub fn name(&self) -> (r: &'static str)
        ensures
            r@ == namespace_name(*self),
    {
        match self {
            Namespace::Cluster => "cluster",
            Namespace::Comments => "comments",
        }
    }
}

impl Operation {
    pub fn name(&self) -> (r: &'static str)
        ensures
            r@ == operation_name(*self),
    {
        match self {
            Operation::Push => "push",
            Operation::Analysis => "analysis",
            Operation::Status => "status",
            Operation::Results => "result",
            Operation::Clear => "clear",
        }
    }
}

/// The path of one request of a task.
pub fn endpoint(ns: Namespace, op: Operation, task_id: &str) -> (r: String)
    ensures
        r@ == endpoint_path(ns, op, task_id@),
{
    let mut path = String::from_str("/");
    path.append(ns.name());
    path.append("/");
    path.append(op.name());
    path.append("/");
    path.append(task_id);
    path
}

/// Number of uploads for `n` documents: `n / 100` rounded up.
pub open spec fn chunk_count(n: nat) -> nat {
    ((n + 99) / 100) as nat
}

/// The `k`-th upload of a batch: documents `100 k` up to `100 k + 100`, or to the end.
pub open spec fn chunk_of<A>(docs: Seq<A>, k: int) -> Seq<A> {
    let start = k * 100;
    let end = if start + 100 <= docs.len() {
        start + 100
    } else {
        docs.len() as int
    };
    docs.subrange(start, end)
}

/// All uploads of a batch, in the order they are sent.
pub open spec fn chunks_of<A>(docs: Seq<A>) -> Seq<Seq<A>> {
    Seq::new(chunk_count(docs.len()), |k: int| chunk_of(docs, k))
}

/// Splits a batch into the uploads that carry it.
pub fn split_chunks(docs: &Vec<ClusterContent>) -> (r: Vec<Vec<ClusterContent>>)
    ensures
        r@.len() == chunk_count(docs@.len()),
        forall|k: int| 0 <= k < r@.len() ==> #[trigger] r@[k]@ == chunk_of(docs@, k),
{
    let n = docs.len();
    let mut out: Vec<Vec<ClusterContent>> = Vec::new();
    let mut start: usize = 0;
    while start < n
        invariant
            n == docs@.len(),
            start <= n,
            start <= out@.len() * 100,
            start == n || start == out@.len() * 100,
            out@.len() * 100 < n + 100,
            forall|k: int| 0 <= k < out@.len() ==> #[trigger] out@[k]@ == chunk_of(docs@, k),
        decreases n - start,
    {
        let end: usize = if n - start > CHUNK_SIZE {
            start + CHUNK_SIZE
        } else {
            n
        };
        let mut chunk: Vec<ClusterContent> = Vec::new();
        let mut i: usize = start;
        while i < end
            invariant
                start <= i <= end <= n,
                n == docs@.len(),
                chunk@ == docs@.subrange(start as int, i as int),
            decreases end - i,
        {
            chunk.push(docs[i].clone());
            i = i + 1;
            assert(chunk@ =~= docs@.subrange(start as int, i as int));
        }
        assert(chunk@ == chunk_of(docs@, out@.len() as int));
        out.push(chunk);
        start = end;
    }
    out
}

/// Chunks of `docs` past the first one are the chunks of what follows the first hundred.
proof fn lemma_chunks_shift<A>(docs: Seq<A>)
    requires
        docs.len() > 0,
    ensures
        chunk_of(docs, 0) == docs.subrange(0, if docs.len() <= 100 { docs.len() as int } else { 100 }),
        chunks_of(docs).drop_first() == chunks_of(
            docs.subrange(if docs.len() <= 100 { docs.len() as int } else { 100 }, docs.len() as int),
        ),
{
    let m: int = if docs.len() <= 100 { docs.len() as int } else { 100 };
    let rest = docs.subrange(m, docs.len() as int);
    assert(chunk_count(rest.len()) + 1 == chunk_count(docs.len()));
    assert forall|k: int| 0 <= k < chunk_count(rest.len()) implies chunk_of(docs, k + 1) =~= chunk_of(
        rest,
        k,
    ) by {}
    assert(chunks_of(docs).drop_first() =~= chunks_of(rest));
}

/// A batch is sent as `n / 100` uploads rounded up, in order: put back together
/// the uploads give the batch unchanged, and each holds between 1 and 100 documents.
pub proof fn lemma_chunks_partition<A>(docs: Seq<A>)
    ensures
        chunks_of(docs).len() == chunk_count(docs.len()),
        chunks_of(docs).len() * 100 >= docs.len(),
        chunks_of(docs).len() * 100 < docs.len() + 100,
        chunks_of(docs).flatten() == docs,
        forall|k: int|
            0 <= k < chunks_of(docs).len() ==> 1 <= #[trigger] chunks_of(docs)[k].len() <= 100,
    decreases docs.len(),
{
    if docs.len() == 0 {
        assert(docs =~= Seq::<A>::empty());
    } else {
        let m: int = if docs.len() <= 100 { docs.len() as int } else { 100 };
        let rest = docs.subrange(m, docs.len() as int);
        lemma_chunks_shift(docs);
        lemma_chunks_partition(rest);
        assert(chunks_of(docs).first() == chunk_of(docs, 0));
        assert(chunks_of(docs).flatten() == chunks_of(docs).first() + chunks_of(
            docs,
        ).drop_first().flatten());
        assert(docs =~= docs.subrange(0, m) + rest);
    }
}

/// What `str::to_lowercase` makes of a text.
pub uninterp spec fn lower_of(s: Seq<char>) -> Seq<char>;

/// Relies on `str::to_lowercase`: the lower-cased text depends on the characters alone.
#[verifier::external_body]
fn lowercase(s: &str) -> (r: String)
    ensures
        r@ == lower_of(s@),
{
    s.to_lowercase()
}

fn same_text(a: &str, b: &str) -> (r: bool)
    ensures
        r == (a@ == b@),
{
    String::from_str(a) == String::from_str(b)
}

/// The status that a lower-cased status text names, if any.
pub open spec fn status_named(s: Seq<char>) -> Option<TaskStatus> {
    if s == "received"@ {
        Some(TaskStatus::Received)
    } else if s == "running"@ {
        Some(TaskStatus::Running)
    } else if s == "done"@ {
        Some(TaskStatus::Done)
    } else if s == "error"@ {
        Some(TaskStatus::Error)
    } else {
        None
    }
}

/// The text by which the service says that it does not know a task.
pub open spec fn is_not_found(raw: Seq<char>) -> bool {
    raw == "not found"@
}

/// What a status reply means, given its status text `raw` and `lowered`, that
/// text in lower case: `Some(Err(TaskNotFound))` for exactly "not found",
/// `Some(Ok(status))` for one of the four names in any case, `None` for
/// anything else, which the service never sends.
pub fn status_from_reply(task_id: &str, raw: &str, lowered: &str) -> (r: Option<
    Result<TaskStatus, Error>,
>)
    ensures
        is_not_found(raw@) ==> (r matches Some(Err(Error::TaskNotFound(id))) && id@ == task_id@),
        !is_not_found(raw@) ==> match status_named(lowered@) {
            Some(s) => r == Some(Ok::<TaskStatus, Error>(s)),
            None => r is None,
        },
{
    if same_text(raw, "not found") {
        return Some(Err(Error::TaskNotFound(String::from_str(task_id))));
    }
    if same_text(lowered, "received") {
        Some(Ok(TaskStatus::Received))
    } else if same_text(lowered, "running") {
        Some(Ok(TaskStatus::Running))
    } else if same_text(lowered, "done") {
        Some(Ok(TaskStatus::Done))
    } else if same_text(lowered, "error") {
        Some(Ok(TaskStatus::Error))
    } else {
        None
    }
}

/// What the status text `raw` of a status reply means for task `task_id`:
/// the four statuses are read in any case, "not found" only as written.
/// `None` stands for a text that the service never sends.
pub fn status_of(task_id: &str, raw: &str) -> (r: Option<Result<TaskStatus, Error>>)
    ensures
        is_not_found(raw@) ==> (r matches Some(Err(Error::TaskNotFound(id))) && id@ == task_id@),
        !is_not_found(raw@) ==> match status_named(lower_of(raw@)) {
            Some(s) => r == Some(Ok::<TaskStatus, Error>(s)),
            None => r is None,
        },
{
    let lowered = lowercase(raw);
    status_from_reply(task_id, raw, lowered.as_str())
}

/// Longest pause between two status checks, in seconds: the pause is doubled
/// only while the double stays within it.
pub const MAX_INTERVAL: u64 = 64;

/// `a + b`, or `u64::MAX` where that does not fit.
pub open spec fn saturated_sum(a: u64, b: u64) -> u64 {
    if a + b > u64::MAX {
        u64::MAX
    } else {
        (a + b) as u64
    }
}

/// The pause after a status check that left the check counter at `phase`
/// (the number of checks so far, modulo 3).
pub open spec fn next_interval(interval: u64, phase: u8) -> u64 {
    if phase == 0 && interval * 2 <= MAX_INTERVAL {
        (interval * 2) as u64
    } else {
        interval
    }
}

/// A pause of at most 64 seconds stays within 64 seconds after any check, and
/// it doubles on every third check for as long as the double fits.
pub proof fn lemma_interval_capped(interval: u64, phase: u8)
    requires
        interval <= MAX_INTERVAL,
    ensures
        next_interval(interval, phase) <= MAX_INTERVAL,
        phase == 0 && interval <= MAX_INTERVAL / 2 ==> next_interval(interval, phase) == 2 * interval,
        phase != 0 || interval > MAX_INTERVAL / 2 ==> next_interval(interval, phase) == interval,
{
}

/// What one status check decided.
#[derive(Debug, Copy, Clone, PartialEq, Eq, Structural)]
pub enum Poll {
    /// The task is done.
    Finished,
    /// Check again after the current pause.
    Continue,
    /// The time allowed has run out.
    TimedOut,
}

/// The polling schedule of one wait: the pause before each status check and the
/// time waited so far, in seconds.
#[derive(Debug)]
pub struct Backoff {
    elapsed: u64,
    interval: u64,
    phase: u8,
    timeout: Option<u64>,
}

impl Backoff {
    pub closed spec fn spec_elapsed(&self) -> u64 {
        self.elapsed
    }

    pub closed spec fn spec_interval(&self) -> u64 {
        self.interval
    }

    /// Status checks made so far, modulo 3.
    pub closed spec fn spec_phase(&self) -> u8 {
        self.phase
    }

    pub closed spec fn spec_timeout(&self) -> Option<u64> {
        self.timeout
    }

    pub open spec fn wf(&self) -> bool {
        self.spec_phase() < 3
    }

    /// A schedule that checks at once and then, as described for a wait,
    /// starts from a pause of zero seconds.
    pub fn new(timeout: Option<u64>) -> (r: Self)
        ensures
            r.wf(),
            r.spec_elapsed() == 0,
            r.spec_interval() == 0,
            r.spec_phase() == 0,
            r.spec_timeout() == timeout,
    {
        Backoff { elapsed: 0, interval: 0, phase: 0, timeout }
    }

    /// A schedule whose first pause after the first check is `interval` seconds.
    pub fn with_interval(timeout: Option<u64>, interval: u64) -> (r: Self)
        ensures
            r.wf(),
            r.spec_elapsed() == 0,
            r.spec_interval() == interval,
            r.spec_phase() == 0,
            r.spec_timeout() == timeout,
    {
        Backoff { elapsed: 0, interval, phase: 0, timeout }
    }

    /// Seconds to sleep before the next status check.
    pub fn delay(&self) -> (r: u64)
        ensures
            r == self.spec_interval(),
    {
        self.interval
    }

    /// Seconds waited so far.
    pub fn elapsed(&self) -> (r: u64)
        ensures
            r == self.spec_elapsed(),
    {
        self.elapsed
    }

    pub fn timeout(&self) -> (r: Option<u64>)
        ensures
            r == self.spec_timeout(),
    {
        self.timeout
    }

    /// Takes in the status seen by a check made after sleeping `delay()` seconds.
    /// `Done` ends the wait. Otherwise the pause counts as waited; the wait times
    /// out when a timeout is set and the time waited has reached it; else every
    /// third check doubles the pause, unless the double would pass 64 seconds.
    pub fn observe(&mut self, status: TaskStatus) -> (r: Poll)
        requires
            old(self).wf(),
        ensures
            final(self).wf(),
            final(self).spec_timeout() == old(self).spec_timeout(),
            status == TaskStatus::Done ==> r == Poll::Finished && *final(self) == *old(self),
            status != TaskStatus::Done ==> {
                let waited = saturated_sum(old(self).spec_elapsed(), old(self).spec_interval());
                &&& final(self).spec_elapsed() == waited
                &&& (r == Poll::TimedOut) == (old(self).spec_timeout() matches Some(t) && waited >= t)
                &&& r != Poll::Finished
                &&& r == Poll::Continue ==> final(self).spec_phase() == (old(self).spec_phase() + 1)
                    % 3 && final(self).spec_interval() == next_interval(
                    old(self).spec_interval(),
                    final(self).spec_phase(),
                )
            },
    {
        if status == TaskStatus::Done {
            return Poll::Finished;
        }
        self.elapsed = self.elapsed.saturating_add(self.interval);
        if let Some(t) = self.timeout {
            if self.elapsed >= t {
                return Poll::TimedOut;
            }
        }
        self.phase = (self.phase + 1) % 3;
        if self.phase == 0 && self.interval <= MAX_INTERVAL / 2 {
            self.interval = self.interval * 2;
        }
        Poll::Continue
    }
}

/// Where a task stands in its lifecycle.
#[derive(Debug, Copy, Clone, PartialEq, Eq, Structural)]
pub enum Stage {
    /// Created, nothing sent yet.
    Idle,
    /// Uploading the documents, one chunk at a time.
    Pushing,
    /// Waiting for the analysis to be accepted.
    Analyzing,
    /// Checking the status until the analysis is done.
    Polling,
    /// Fetching the result.
    Fetching,
    /// Clearing the server's copy.
    Clearing,
    /// Over: the last action was `Finish`.
    Finished,
}

/// The next thing to do for a task.
#[derive(Debug)]
pub enum Action<T> {
    /// POST `documents` as JSON to `endpoint`, expecting an upload reply.
    Push { endpoint: String, documents: Vec<ClusterContent> },
    /// GET `endpoint` with the query `params`, expecting a status reply.
    Analyze { endpoint: String, params: Vec<(String, String)> },
    /// Sleep `delay` seconds, then GET `endpoint`, expecting a status reply.
    Poll { delay: u64, endpoint: String },
    /// GET `endpoint`, expecting the result.
    Fetch { endpoint: String },
    /// GET `endpoint`, expecting a text.
    Clear { endpoint: String },
    /// The task is over, with this outcome.
    Finish(Result<Vec<T>, Error>),
}

/// One asynchronous task of the service, as seen by the client.
#[derive(Debug)]
pub struct Task<T> {
    namespace: Namespace,
    task_id: String,
    contents: Vec<ClusterContent>,
    stage: Stage,
    batch: Vec<ClusterContent>,
    chunks: Vec<Vec<ClusterContent>>,
    next_chunk: usize,
    alpha: String,
    beta: String,
    backoff: Backoff,
    results: Vec<T>,
}

/// A text clustering task.
pub type ClusterTask = Task<TextCluster>;

/// A representative comments task.
pub type CommentsTask = Task<CommentsCluster>;

/// `a` is a request to `endpoint_path(ns, op, id)`, with the parameters that `op` takes.
pub open spec fn requests<T>(a: Action<T>, ns: Namespace, op: Operation, id: Seq<char>) -> bool {
    match a {
        Action::Push { endpoint, .. } => op == Operation::Push && endpoint@ == endpoint_path(ns, op, id),
        Action::Analyze { endpoint, .. } => op == Operation::Analysis && endpoint@ == endpoint_path(
            ns,
            op,
            id,
        ),
        Action::Poll { endpoint, .. } => op == Operation::Status && endpoint@ == endpoint_path(
            ns,
            op,
            id,
        ),
        Action::Fetch { endpoint } => op == Operation::Results && endpoint@ == endpoint_path(
            ns,
            op,
            id,
        ),
        Action::Clear { endpoint } => op == Operation::Clear && endpoint@ == endpoint_path(ns, op, id),
        Action::Finish(_) => false,
    }
}

/// The query of an analysis request.
pub open spec fn analysis_params(params: Seq<(String, String)>, alpha: Seq<char>, beta: Seq<char>) -> bool {
    &&& params.len() == 2
    &&& params[0].0@ == "alpha"@
    &&& params[0].1@ == alpha
    &&& params[1].0@ == "beta"@
    &&& params[1].1@ == beta
}

impl<T> Task<T> {
    pub closed spec fn spec_namespace(&self) -> Namespace {
        self.namespace
    }

    pub closed spec fn spec_task_id(&self) -> Seq<char> {
        self.task_id@
    }

    /// Every document uploaded so far.
    pub closed spec fn spec_contents(&self) -> Seq<ClusterContent> {
        self.contents@
    }

    pub closed spec fn spec_stage(&self) -> Stage {
        self.stage
    }

    /// The documents of the current upload.
    pub closed spec fn spec_batch(&self) -> Seq<ClusterContent> {
        self.batch@
    }

    /// Index of the chunk whose upload is under way.
    pub closed spec fn spec_next_chunk(&self) -> nat {
        self.next_chunk as nat
    }

    pub closed spec fn spec_alpha(&self) -> Seq<char> {
        self.alpha@
    }

    pub closed spec fn spec_beta(&self) -> Seq<char> {
        self.beta@
    }

    pub closed spec fn spec_backoff(&self) -> Backoff {
        self.backoff
    }

    /// The result fetched, once there is one.
    pub closed spec fn spec_results(&self) -> Seq<T> {
        self.results@
    }

    pub closed spec fn wf(&self) -> bool {
        &&& self.backoff.wf()
        &&& self.chunks@.len() == chunk_count(self.batch@.len())
        &&& forall|k: int|
            0 <= k < self.chunks@.len() ==> #[trigger] self.chunks@[k]@ == chunk_of(self.batch@, k)
        &&& self.stage == Stage::Pushing ==> self.next_chunk < self.chunks@.len()
        &&& self.stage == Stage::Analyzing || self.stage == Stage::Polling || self.stage
            == Stage::Fetching || self.stage == Stage::Clearing ==> self.contents@.len() > 0
    }

    /// A fresh task of service `namespace` under the identifier `task_id`.
    pub fn with_namespace(namespace: Namespace, task_id: String) -> (r: Self)
        ensures
            r.wf(),
            r.spec_namespace() == namespace,
            r.spec_task_id() == task_id@,
            r.spec_stage() == Stage::Idle,
            r.spec_contents().len() == 0,
    {
        Task {
            namespace,
            task_id,
            contents: Vec::new(),
            stage: Stage::Idle,
            batch: Vec::new(),
            chunks: Vec::new(),
            next_chunk: 0,
            alpha: String::new(),
            beta: String::new(),
            backoff: Backoff::new(None),
            results: Vec::new(),
        }
    }

    pub fn task_id(&self) -> (r: String)
        ensures
            r@ == self.spec_task_id(),
    {
        self.task_id.clone()
    }

    pub fn stage(&self) -> (r: Stage)
        ensures
            r == self.spec_stage(),
    {
        self.stage
    }

    /// Every document uploaded so far.
    pub fn contents(&self) -> (r: &Vec<ClusterContent>)
        ensures
            r@ == self.spec_contents(),
    {
        &self.contents
    }

    /// The polling schedule of the wait.
    pub fn backoff(&self) -> (r: &Backoff)
        ensures
            *r == self.spec_backoff(),
    {
        &self.backoff
    }

    fn request(&self, op: Operation) -> (r: String)
        ensures
            r@ == endpoint_path(self.namespace, op, self.task_id@),
    {
        endpoint(self.namespace, op, self.task_id.as_str())
    }

    /// Ends the task with `outcome`.
    fn finish(&mut self, outcome: Result<Vec<T>, Error>) -> (r: Action<T>)
        ensures
            r == Action::Finish(outcome),
            *final(self) == (Task { stage: Stage::Finished, ..*old(self) }),
    {
        self.stage = Stage::Finished;
        Action::Finish(outcome)
    }

    /// Starts the task on `documents`, to be analysed with the parameters `alpha`
    /// and `beta` and waited for on the schedule `backoff`. With no document
    /// there is nothing to do: the task finishes with an empty result and no
    /// request. Otherwise the first chunk of at most 100 documents is uploaded.
    pub fn start(
        &mut self,
        documents: &Vec<ClusterContent>,
        alpha: String,
        beta: String,
        backoff: Backoff,
    ) -> (r: Action<T>)
        requires
            old(self).wf(),
            old(self).spec_stage() == Stage::Idle,
            backoff.wf(),
        ensures
            final(self).wf(),
            final(self).spec_namespace() == old(self).spec_namespace(),
            final(self).spec_task_id() == old(self).spec_task_id(),
            final(self).spec_contents() == old(self).spec_contents(),
            documents@.len() == 0 ==> final(self).spec_stage() == Stage::Finished && (r matches Action::Finish(Ok(v)) && v@.len() == 0),
            documents@.len() > 0 ==> {
                &&& final(self).spec_stage() == Stage::Pushing
                &&& final(self).spec_batch() == documents@
                &&& final(self).spec_next_chunk() == 0
                &&& final(self).spec_alpha() == alpha@
                &&& final(self).spec_beta() == beta@
                &&& final(self).spec_backoff() == backoff
                &&& requests(r, old(self).spec_namespace(), Operation::Push, old(self).spec_task_id())
                &&& r matches Action::Push { documents: d, .. } && d@ == chunk_of(documents@, 0)
            },
    {
        if documents.len() == 0 {
            return self.finish(Ok(Vec::new()));
        }
        let chunks = split_chunks(documents);
        let first = chunks[0].clone();
        assert(first@ == chunks@[0]@);
        self.batch = documents.clone();
        assert(self.batch@ =~= documents@);
        self.chunks = chunks;
        self.next_chunk = 0;
        self.alpha = alpha;
        self.beta = beta;
        self.backoff = backoff;
        self.stage = Stage::Pushing;
        Action::Push { endpoint: self.request(Operation::Push), documents: first }
    }

    /// Takes in how the upload of the current chunk went. A failure ends the
    /// task with that error: later chunks are not sent. Otherwise the next chunk
    /// is uploaded, or, after the last one, the whole batch counts as uploaded
    /// and the analysis is requested.
    pub fn pushed(&mut self, reply: Result<(), Error>) -> (r: Action<T>)
        requires
            old(self).wf(),
            old(self).spec_stage() == Stage::Pushing,
        ensures
            final(self).wf(),
            final(self).spec_namespace() == old(self).spec_namespace(),
            final(self).spec_task_id() == old(self).spec_task_id(),
            final(self).spec_batch() == old(self).spec_batch(),
            final(self).spec_alpha() == old(self).spec_alpha(),
            final(self).spec_beta() == old(self).spec_beta(),
            final(self).spec_backoff() == old(self).spec_backoff(),
            reply matches Err(e) ==> r == Action::<T>::Finish(Err(e)) && final(self).spec_stage()
                == Stage::Finished && final(self).spec_contents() == old(self).spec_contents(),
            reply is Ok && old(self).spec_next_chunk() + 1 < chunk_count(old(self).spec_batch().len())
                ==> {
                &&& final(self).spec_stage() == Stage::Pushing
                &&& final(self).spec_next_chunk() == old(self).spec_next_chunk() + 1
                &&& final(self).spec_contents() == old(self).spec_contents()
                &&& requests(r, old(self).spec_namespace(), Operation::Push, old(self).spec_task_id())
                &&& r matches Action::Push { documents: d, .. } && d@ == chunk_of(
                    old(self).spec_batch(),
                    old(self).spec_next_chunk() + 1 as int,
                )
            },
            reply is Ok && old(self).spec_next_chunk() + 1 >= chunk_count(old(self).spec_batch().len())
                ==> {
                &&& final(self).spec_stage() == Stage::Analyzing
                &&& final(self).spec_contents() == old(self).spec_contents() + old(self).spec_batch()
                &&& requests(r, old(self).spec_namespace(), Operation::Analysis, old(self).spec_task_id())
                &&& r matches Action::Analyze { params, .. } && analysis_params(
                    params@,
                    old(self).spec_alpha(),
                    old(self).spec_beta(),
                )
            },
    {
        match reply {
            Err(e) => self.finish(Err(e)),
            Ok(()) => {
                if self.next_chunk < self.chunks.len() - 1 {
                    self.next_chunk = self.next_chunk + 1;
                    let chunk = self.chunks[self.next_chunk].clone();
                    assert(chunk@ == self.chunks@[self.next_chunk as int]@);
                    Action::Push { endpoint: self.request(Operation::Push), documents: chunk }
                } else {
                    let mut uploaded = self.batch.clone();
                    assert(uploaded@ =~= self.batch@);
                    self.contents.append(&mut uploaded);
                    assert(self.batch@.len() > 0);
                    self.stage = Stage::Analyzing;
                    let mut params: Vec<(String, String)> = Vec::new();
                    params.push((String::from_str("alpha"), self.alpha.clone()));
                    params.push((String::from_str("beta"), self.beta.clone()));
                    Action::Analyze { endpoint: self.request(Operation::Analysis), params }
                }
            },
        }
    }

    /// Takes in how the analysis request went. A failure ends the task;
    /// otherwise the wait begins with a status check after the first pause.
    pub fn analysis_started(&mut self, reply: Result<(), Error>) -> (r: Action<T>)
        requires
            old(self).wf(),
            old(self).spec_stage() == Stage::Analyzing,
        ensures
            final(self).wf(),
            final(self).spec_namespace() == old(self).spec_namespace(),
            final(self).spec_task_id() == old(self).spec_task_id(),
            final(self).spec_contents() == old(self).spec_contents(),
            final(self).spec_backoff() == old(self).spec_backoff(),
            reply matches Err(e) ==> r == Action::<T>::Finish(Err(e)) && final(self).spec_stage()
                == Stage::Finished,
            reply is Ok ==> {
                &&& final(self).spec_stage() == Stage::Polling
                &&& requests(r, old(self).spec_namespace(), Operation::Status, old(self).spec_task_id())
                &&& r matches Action::Poll { delay, .. } && delay == old(
                    self,
                ).spec_backoff().spec_interval()
            },
    {
        match reply {
            Err(e) => self.finish(Err(e)),
            Ok(()) => {
                self.stage = Stage::Polling;
                Action::Poll { delay: self.backoff.delay(), endpoint: self.request(Operation::Status) }
            },
        }
    }

    /// Takes in the outcome of a status check. A failure, `TaskNotFound` among
    /// them, ends the task, and so does running out of time, with `Timeout`.
    /// `Done` leads to fetching the result; any other status to another check
    /// after the pause that the schedule gives.
    pub fn status_checked(&mut self, reply: Result<TaskStatus, Error>) -> (r: Action<T>)
        requires
            old(self).wf(),
            old(self).spec_stage() == Stage::Polling,
        ensures
            final(self).wf(),
            final(self).spec_namespace() == old(self).spec_namespace(),
            final(self).spec_task_id() == old(self).spec_task_id(),
            final(self).spec_contents() == old(self).spec_contents(),
            reply matches Err(e) ==> r == Action::<T>::Finish(Err(e)) && final(self).spec_stage()
                == Stage::Finished,
            reply matches Ok(status) ==> {
                let b = old(self).spec_backoff();
                let waited = saturated_sum(b.spec_elapsed(), b.spec_interval());
                let timed_out = status != TaskStatus::Done && (b.spec_timeout() matches Some(t)
                    && waited >= t);
                &&& status == TaskStatus::Done ==> final(self).spec_stage() == Stage::Fetching
                    && requests(r, old(self).spec_namespace(), Operation::Results, old(self).spec_task_id())
                &&& timed_out ==> final(self).spec_stage() == Stage::Finished && (r matches Action::Finish(Err(Error::Timeout(id))) && id@ == old(self).spec_task_id())
                &&& status != TaskStatus::Done && !timed_out ==> {
                    &&& final(self).spec_stage() == Stage::Polling
                    &&& final(self).spec_backoff().spec_elapsed() == waited
                    &&& final(self).spec_backoff().spec_phase() == (b.spec_phase() + 1) % 3
                    &&& final(self).spec_backoff().spec_interval() == next_interval(
                        b.spec_interval(),
                        final(self).spec_backoff().spec_phase(),
                    )
                    &&& final(self).spec_backoff().spec_timeout() == b.spec_timeout()
                    &&& requests(r, old(self).spec_namespace(), Operation::Status, old(self).spec_task_id())
                    &&& r matches Action::Poll { delay, .. } && delay == final(self).spec_backoff().spec_interval()
                }
            },
    {
        match reply {
            Err(e) => self.finish(Err(e)),
            Ok(status) => {
                match self.backoff.observe(status) {
                    Poll::Finished => {
                        self.stage = Stage::Fetching;
                        Action::Fetch { endpoint: self.request(Operation::Results) }
                    },
                    Poll::TimedOut => {
                        let id = self.task_id.clone();
                        self.finish(Err(Error::Timeout(id)))
                    },
                    Poll::Continue => Action::Poll {
                        delay: self.backoff.delay(),
                        endpoint: self.request(Operation::Status),
                    },
                }
            },
        }
    }

    /// Takes in the fetched result. A failure ends the task, and the server's
    /// copy is left; otherwise the server's copy is cleared next.
    pub fn fetched(&mut self, reply: Result<Vec<T>, Error>) -> (r: Action<T>)
        requires
            old(self).wf(),
            old(self).spec_stage() == Stage::Fetching,
        ensures
            final(self).wf(),
            final(self).spec_namespace() == old(self).spec_namespace(),
            final(self).spec_task_id() == old(self).spec_task_id(),
            final(self).spec_contents() == old(self).spec_contents(),
            reply matches Err(e) ==> r == Action::<T>::Finish(Err(e)) && final(self).spec_stage()
                == Stage::Finished,
            reply matches Ok(v) ==> final(self).spec_stage() == Stage::Clearing
                && final(self).spec_results() == v@
                && requests(r, old(self).spec_namespace(), Operation::Clear, old(self).spec_task_id()),
    {
        match reply {
            Err(e) => self.finish(Err(e)),
            Ok(v) => {
                self.results = v;
                self.stage = Stage::Clearing;
                Action::Clear { endpoint: self.request(Operation::Clear) }
            },
        }
    }

    /// Takes in how clearing went, and ends the task. A reply whose body could
    /// not be read as JSON still counts as cleared, and the task finishes with
    /// the fetched result; any other failure ends the task with that error.
    pub fn cleared(&mut self, reply: Result<(), Error>) -> (r: Action<T>)
        requires
            old(self).wf(),
            old(self).spec_stage() == Stage::Clearing,
        ensures
            final(self).wf(),
            final(self).spec_stage() == Stage::Finished,
            final(self).spec_contents() == old(self).spec_contents(),
            (reply is Ok || (reply matches Err(Error::Json(_)))) ==> (r matches Action::Finish(Ok(v))
                && v@ == old(self).spec_results()),
            reply matches Err(e) ==> (e is Json || r == Action::<T>::Finish(Err(e))),
    {
        let outcome = match reply {
            Ok(()) | Err(Error::Json(_)) => {
                let v = self.results.split_off(0);
                assert(v@ =~= old(self).results@);
                Ok(v)
            },
            Err(e) => Err(e),
        };
        self.finish(outcome)
    }
}

impl Task<TextCluster> {
    /// A fresh text clustering task under the identifier `task_id`.
    pub fn new(task_id: String) -> (r: Self)
        ensures
            r.wf(),
            r.spec_namespace() == Namespace::Cluster,
            r.spec_task_id() == task_id@,
            r.spec_stage() == Stage::Idle,
            r.spec_contents().len() == 0,
    {
        Task::with_namespace(Namespace::Cluster, task_id)
    }
}

impl Task<CommentsCluster> {
    /// A fresh representative comments task under the identifier `task_id`.
    pub fn new(task_id: String) -> (r: Self)
        ensures
            r.wf(),
            r.spec_namespace() == Namespace::Comments,
            r.spec_task_id() == task_id@,
            r.spec_stage() == Stage::Idle,
            r.spec_contents().len() == 0,
    {
        Task::with_namespace(Namespace::Comments, task_id)
    }
}

/// The identifier for a new task: the one given, else a fresh random one.
pub fn resolve_task_id(task_id: Option<&str>) -> (r: String)
    ensures
        task_id matches Some(id) ==> r@ == id@,
        task_id is None ==> is_random_id(r@),
{
    match task_id {
        Some(id) => String::from_str(id),
        None => random_id(),
    }
}

} // verus!
