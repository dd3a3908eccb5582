//! The decisions of an ingestion call: how records are cut into write
//! chunks, how many chunk writes may be in flight, which error a call
//! reports, and what to do about a destination that may not exist.
use vstd::prelude::*;
use rayon::iter::{IntoParallelIterator, ParallelIterator};
use rayon::slice::ParallelSlice;
use crate::error::ConnectorError;
use crate::records_builder::{records_view, Record, RecordData};

verus! {

/// The store's largest number of records in one write.
pub const MAX_TIMESTREAM_BATCH_SIZE: usize = 100;

/// The default number of permits: chunk writes in flight at once.
pub const NUM_BATCH_THREADS: usize = 16;

/// Seconds to wait before each database or table creation call; the store
/// allows one such call per second.
pub const TIMESTREAM_API_WAIT_SECONDS: u64 = 1;

/// The number of chunks of at most `size` elements that `n` elements make.
pub open spec fn chunk_count(n: int, size: int) -> int {
    (n + size - 1) / size
}

/// The `k`-th chunk of `s`: the elements from `k * size` up to `size` later.
pub open spec fn chunk_at<A>(s: Seq<A>, size: int, k: int) -> Seq<A> {
    s.subrange(k * size, if (k + 1) * size <= s.len() { (k + 1) * size } else { s.len() as int })
}

/// `chunks` cuts `s` into consecutive chunks of `size`, the last possibly
/// shorter.
pub open spec fn is_chunking(chunks: Seq<Seq<RecordData>>, s: Seq<RecordData>, size: int) -> bool {
    &&& chunks.len() == chunk_count(s.len() as int, size)
    &&& forall|k: int| 0 <= k < chunks.len() ==> #[trigger] chunks[k] == chunk_at(s, size, k)
}

/// The views of a sequence of record lists.
pub open spec fn chunks_view(c: Seq<Vec<Record>>) -> Seq<Seq<RecordData>> {
    c.map_values(|v: Vec<Record>| records_view(v@))
}

/// Relies on rayon's `ParallelSlice::par_chunks`: consecutive chunks that do
/// not overlap, each of `size` elements but the last, which may be shorter;
/// collecting an indexed parallel iterator keeps the chunks in order. Each
/// chunk is copied into a `Vec`.
#[verifier::external_body]
fn par_chunks_of(records: &[Record], size: usize) -> (r: Vec<Vec<Record>>)
    requires
        size > 0,
    ensures
        is_chunking(chunks_view(r@), records_view(records@), size as int),
{
    records.par_chunks(size).map(|c| c.to_vec()).collect()
}

/// Cuts a table's records into consecutive chunks of at most
/// [`MAX_TIMESTREAM_BATCH_SIZE`] records, in order.
pub fn chunk_records(records: &[Record]) -> (r: Vec<Vec<Record>>)
    ensures
        is_chunking(chunks_view(r@), records_view(records@), MAX_TIMESTREAM_BATCH_SIZE as int),
        r@.len() == chunk_count(records@.len() as int, MAX_TIMESTREAM_BATCH_SIZE as int),
        forall|k: int| 0 <= k < r@.len() - 1 ==> #[trigger] r@[k]@.len() == MAX_TIMESTREAM_BATCH_SIZE,
        r@.len() > 0 ==> 0 < r@.last()@.len() <= MAX_TIMESTREAM_BATCH_SIZE,
{
    let r = par_chunks_of(records, MAX_TIMESTREAM_BATCH_SIZE);
    proof {
        lemma_chunk_lengths(records_view(records@), chunks_view(r@), MAX_TIMESTREAM_BATCH_SIZE as int);
        assert forall|k: int| 0 <= k < r@.len() implies #[trigger] r@[k]@.len() == chunks_view(r@)[k].len() by {
        }
    }
    r
}

/// In a chunking, every chunk but the last is full and the last is not empty.
pub proof fn lemma_chunk_lengths(s: Seq<RecordData>, chunks: Seq<Seq<RecordData>>, size: int)
    requires
        size > 0,
        is_chunking(chunks, s, size),
    ensures
        forall|k: int| 0 <= k < chunks.len() - 1 ==> #[trigger] chunks[k].len() == size,
        chunks.len() > 0 ==> 0 < chunks.last().len() <= size,
{
    let n = s.len() as int;
    let c = chunks.len() as int;
    assert(c * size >= n && (c - 1) * size < n) by (nonlinear_arith)
        requires
            c == (n + size - 1) / size,
            size > 0,
            n >= 0,
    {
    }
    assert forall|k: int| 0 <= k < c - 1 implies #[trigger] chunks[k].len() == size by {
        assert((k + 1) * size <= (c - 1) * size) by (nonlinear_arith)
            requires
                k + 1 <= c - 1,
                size > 0,
        {
        }
        assert(k * size >= 0) by (nonlinear_arith)
            requires
                k >= 0,
                size > 0,
        {
        }
        assert((k + 1) * size == k * size + size) by (nonlinear_arith);
        assert(chunks[k] == chunk_at(s, size, k));
        assert(chunk_at(s, size, k) == s.subrange(k * size, (k + 1) * size));
    }
    if c > 0 {
        assert((c - 1) * size >= 0) by (nonlinear_arith)
            requires
                c >= 1,
                size > 0,
        {
        }
        assert((c - 1) * size + size == c * size) by (nonlinear_arith);
    }
}

/// A table's records are cut into `ceil(M / 100)` chunks, all of exactly
/// 100 records but possibly the last.
pub proof fn lemma_chunking_counts(records: Seq<RecordData>, chunks: Seq<Seq<RecordData>>)
    requires
        is_chunking(chunks, records, MAX_TIMESTREAM_BATCH_SIZE as int),
    ensures
        chunks.len() == (records.len() + 99) / 100,
        forall|k: int| 0 <= k < chunks.len() - 1 ==> #[trigger] chunks[k].len() == 100,
        chunks.len() > 0 ==> 0 < chunks.last().len() <= 100,
{
    lemma_chunk_lengths(records, chunks, MAX_TIMESTREAM_BATCH_SIZE as int);
}

/// What the caller of a [`WriteScheduler`] does next.
#[derive(Debug, Clone, Copy, PartialEq, Eq)]
pub enum WriteAction {
    /// Take a permit and start the write of the chunk with this index.
    Dispatch(usize),
    /// Wait for a write in flight to complete and report it.
    Wait,
    /// Every chunk was written or failed; take the outcome.
    Finish,
}

/// The state of a scheduler.
pub struct SchedulerState {
    pub permits: nat,
    pub total: nat,
    pub dispatched: nat,
    pub in_flight: nat,
    pub failure: Option<ConnectorError>,
}

/// Decides, for the chunk writes of one ingestion call, when each may start.
/// It holds a pool of permits: a write takes one when it starts and gives it
/// back when it completes, failed or not. Chunks start in index order; every
/// started write is awaited; the first failure reported is the outcome.
pub struct WriteScheduler {
    permits: usize,
    total: usize,
    dispatched: usize,
    in_flight: usize,
    failure: Option<ConnectorError>,
}

impl View for WriteScheduler {
    type V = SchedulerState;

    closed spec fn view(&self) -> SchedulerState {
        SchedulerState {
            permits: self.permits as nat,
            total: self.total as nat,
            dispatched: self.dispatched as nat,
            in_flight: self.in_flight as nat,
            failure: self.failure,
        }
    }
}

impl WriteScheduler {
    /// The scheduler's invariant: at most `permits` writes in flight, none
    /// started beyond the last chunk.
    pub open spec fn wf(&self) -> bool {
        &&& self@.permits > 0
        &&& self@.dispatched <= self@.total
        &&& self@.in_flight <= self@.dispatched
        &&& self@.in_flight <= self@.permits
    }

    /// A scheduler for `total` chunk writes with `permits` permits.
    pub fn new(permits: usize, total: usize) -> (r: Self)
        requires
            permits > 0,
        ensures
            r.wf(),
            r@ == (SchedulerState {
                permits: permits as nat,
                total: total as nat,
                dispatched: 0,
                in_flight: 0,
                failure: None,
            }),
    {
        WriteScheduler { permits, total, dispatched: 0, in_flight: 0, failure: None }
    }

    /// The number of writes in flight.
    pub fn in_flight(&self) -> (r: usize)
        ensures
            r == self@.in_flight,
    {
        self.in_flight
    }

    /// The next step: start the next chunk while a permit is free, else wait
    /// for a write in flight, else finish.
    pub fn next_action(&mut self) -> (r: WriteAction)
        requires
            old(self).wf(),
        ensures
            final(self).wf(),
            final(self)@ == after_event(old(self)@, SchedulerEvent::Step),
            old(self)@.dispatched < old(self)@.total && old(self)@.in_flight < old(self)@.permits ==> {
                &&& r == WriteAction::Dispatch(old(self)@.dispatched as usize)
                &&& final(self)@ == (SchedulerState {
                    dispatched: old(self)@.dispatched + 1,
                    in_flight: old(self)@.in_flight + 1,
                    ..old(self)@
                })
            },
            !(old(self)@.dispatched < old(self)@.total && old(self)@.in_flight < old(self)@.permits) ==> {
                &&& final(self)@ == old(self)@
                &&& r == (if old(self)@.in_flight > 0 {
                    WriteAction::Wait
                } else {
                    WriteAction::Finish
                })
            },
    {
        if self.dispatched < self.total && self.in_flight < self.permits {
            let index = self.dispatched;
            self.dispatched = self.dispatched + 1;
            self.in_flight = self.in_flight + 1;
            WriteAction::Dispatch(index)
        } else if self.in_flight > 0 {
            WriteAction::Wait
        } else {
            WriteAction::Finish
        }
    }

    /// Reports that a write in flight completed with `outcome`; its permit
    /// is free again. Only the first failure is kept.
    pub fn complete(&mut self, outcome: Result<(), ConnectorError>)
        requires
            old(self).wf(),
            old(self)@.in_flight > 0,
        ensures
            final(self).wf(),
            final(self)@ == after_event(old(self)@, SchedulerEvent::Completed(outcome)),
    {
        self.in_flight = self.in_flight - 1;
        if self.failure.is_none() {
            match outcome {
                Ok(()) => {},
                Err(e) => {
                    self.failure = Some(e);
                },
            }
        }
    }

    /// The outcome of the call, once every chunk was started and every
    /// write completed: the first failure reported, or success.
    pub fn finish(self) -> (r: Result<(), ConnectorError>)
        requires
            self.wf(),
            self@.dispatched == self@.total,
            self@.in_flight == 0,
        ensures
            r == match self@.failure {
                Some(e) => Err(e),
                None => Ok::<(), ConnectorError>(()),
            },
    {
        match self.failure {
            Some(e) => Err(e),
            None => Ok(()),
        }
    }
}

/// An event that a scheduler is driven by.
pub enum SchedulerEvent {
    /// The caller asks for the next action.
    Step,
    /// A write in flight completed with this outcome.
    Completed(Result<(), ConnectorError>),
}

/// The state after one event, as [`WriteScheduler::next_action`] and
/// [`WriteScheduler::complete`] change it; a completion with nothing in
/// flight changes nothing.
pub open spec fn after_event(s: SchedulerState, e: SchedulerEvent) -> SchedulerState {
    match e {
        SchedulerEvent::Step => if s.dispatched < s.total && s.in_flight < s.permits {
            SchedulerState { dispatched: s.dispatched + 1, in_flight: s.in_flight + 1, ..s }
        } else {
            s
        },
        SchedulerEvent::Completed(outcome) => if s.in_flight > 0 {
            SchedulerState {
                in_flight: (s.in_flight - 1) as nat,
                failure: match s.failure {
                    Some(e) => Some(e),
                    None => match outcome {
                        Ok(()) => None,
                        Err(e) => Some(e),
                    },
                },
                ..s
            }
        } else {
            s
        },
    }
}

/// The state after a sequence of events.
pub open spec fn after_events(s: SchedulerState, es: Seq<SchedulerEvent>) -> SchedulerState
    decreases es.len(),
{
    if es.len() == 0 {
        s
    } else {
        after_event(after_events(s, es.drop_last()), es.last())
    }
}

/// With a pool of `P` permits and `T` chunks, whatever the order in which
/// steps and completions come, no more than `P` writes are ever in flight
/// and no more than `T` are ever started.
pub proof fn lemma_in_flight_bounded(permits: nat, total: nat, es: Seq<SchedulerEvent>)
    requires
        permits > 0,
    ensures
        ({
            let s = after_events(
                SchedulerState { permits, total, dispatched: 0, in_flight: 0, failure: None },
                es,
            );
            s.in_flight <= permits && s.dispatched <= total && s.permits == permits && s.total == total
        }),
    decreases es.len(),
{
    if es.len() > 0 {
        lemma_in_flight_bounded(permits, total, es.drop_last());
    }
}

/// What to do about a database or table, given the outcome of looking it up.
#[derive(Debug, Clone, PartialEq)]
pub enum ProvisionAction {
    /// It exists: go on.
    Ready,
    /// It is missing and may be created: wait [`TIMESTREAM_API_WAIT_SECONDS`],
    /// then create it.
    Create,
    /// Stop with this error.
    Fail(ConnectorError),
}

/// Which kind of resource is provisioned.
#[derive(Debug, Clone, Copy, PartialEq, Eq)]
pub enum ResourceKind {
    Database,
    Table,
}

/// The decision on one resource: a lookup error is fatal; a missing
/// resource is created only where creation is enabled, else it is fatal
/// and named in the error.
pub fn provision_action(
    kind: ResourceKind,
    name: &str,
    lookup: Result<bool, String>,
    creation_enabled: bool,
) -> (r: ProvisionAction)
    ensures
        lookup == Ok::<bool, String>(true) ==> r == ProvisionAction::Ready,
        lookup == Ok::<bool, String>(false) && creation_enabled ==> r == ProvisionAction::Create,
        lookup == Ok::<bool, String>(false) && !creation_enabled ==> fails_as_missing(r, kind, name@),
        lookup is Err ==> r == ProvisionAction::Fail(ConnectorError::Provision(lookup->Err_0)),
{
    match lookup {
        Ok(true) => ProvisionAction::Ready,
        Ok(false) => if creation_enabled {
            ProvisionAction::Create
        } else {
            match kind {
                ResourceKind::Database => ProvisionAction::Fail(ConnectorError::DatabaseMissing(name.to_owned())),
                ResourceKind::Table => ProvisionAction::Fail(ConnectorError::TableMissing(name.to_owned())),
            }
        },
        Err(msg) => ProvisionAction::Fail(ConnectorError::Provision(msg)),
    }
}

/// Whether `r` stops with the error for a missing resource of `kind` named `name`.
pub open spec fn fails_as_missing(r: ProvisionAction, kind: ResourceKind, name: Seq<char>) -> bool {
    match r {
        ProvisionAction::Fail(ConnectorError::DatabaseMissing(n)) => kind == ResourceKind::Database && n@ == name,
        ProvisionAction::Fail(ConnectorError::TableMissing(n)) => kind == ResourceKind::Table && n@ == name,
        _ => false,
    }
}

} // verus!
