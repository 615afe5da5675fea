//! The job table: one entry per started job, holding the cancel request and
//! the latest snapshot the UI polls. Running the work on a thread and guarding
//! the table with a lock happen outside the library; every change of the table
//! goes through the functions here.

use crate::engine::{message_spec, EngineError, FULL_PPM};
use crate::text::owned;
use std::collections::HashMap;
use vstd::prelude::*;

verus! {

broadcast use vstd::std_specs::hash::group_hash_axioms;

pub const STATUS_RUNNING: u32 = 0;
pub const STATUS_DONE: u32 = 1;
pub const STATUS_ERROR: u32 = 2;
pub const STATUS_CANCELLED: u32 = 3;

/// A point-in-time view of a job, copied out to the caller on each poll.
/// Progress is in parts per million of the whole job, the estimate in
/// milliseconds.
#[derive(Debug)]
pub struct Snapshot {
    pub pct_ppm: u32,
    pub eta_ms: u64,
    pub status: u32,
    pub output_path: String,
    pub error: String,
}

/// A snapshot as plain values.
pub struct SnapshotView {
    pub pct_ppm: nat,
    pub eta_ms: nat,
    pub status: u32,
    pub output_path: Seq<char>,
    pub error: Seq<char>,
}

impl View for Snapshot {
    type V = SnapshotView;

    open spec fn view(&self) -> SnapshotView {
        SnapshotView {
            pct_ppm: self.pct_ppm as nat,
            eta_ms: self.eta_ms as nat,
            status: self.status,
            output_path: self.output_path@,
            error: self.error@,
        }
    }
}

/// The snapshot of a job that has just started.
pub open spec fn fresh_snapshot() -> SnapshotView {
    SnapshotView {
        pct_ppm: 0,
        eta_ms: 0,
        status: STATUS_RUNNING,
        output_path: Seq::empty(),
        error: Seq::empty(),
    }
}

/// What a poll of an id that is not in the table answers.
pub open spec fn unknown_job_snapshot() -> SnapshotView {
    SnapshotView { status: STATUS_ERROR, error: "unknown job"@, ..fresh_snapshot() }
}

impl Default for Snapshot {
    fn default() -> (r: Snapshot)
        ensures
            r@ == fresh_snapshot(),
    {
        Snapshot {
            pct_ppm: 0,
            eta_ms: 0,
            status: STATUS_RUNNING,
            output_path: String::new(),
            error: String::new(),
        }
    }
}

impl Snapshot {
    /// A copy with the same contents.
    pub fn copy(&self) -> (r: Snapshot)
        ensures
            r@ == self@,
    {
        Snapshot {
            pct_ppm: self.pct_ppm,
            eta_ms: self.eta_ms,
            status: self.status,
            output_path: self.output_path.clone(),
            error: self.error.clone(),
        }
    }
}

/// The snapshot a job ends with, given the one it had and how the run ended:
/// done (full progress, no estimate, the output path), cancelled (status
/// only), or failed (status and the error's text).
pub open spec fn finished_snapshot(
    prev: SnapshotView,
    result: Result<Seq<char>, EngineError>,
) -> SnapshotView {
    match result {
        Ok(path) => SnapshotView {
            status: STATUS_DONE,
            output_path: path,
            pct_ppm: FULL_PPM as nat,
            eta_ms: 0,
            ..prev
        },
        Err(EngineError::Cancelled) => SnapshotView { status: STATUS_CANCELLED, ..prev },
        Err(e) => SnapshotView { status: STATUS_ERROR, error: message_spec(e), ..prev },
    }
}

/// The result of a run with its path as plain characters.
pub open spec fn result_view(result: Result<String, EngineError>) -> Result<Seq<char>, EngineError> {
    match result {
        Ok(p) => Ok(p@),
        Err(e) => Err(e),
    }
}

/// One job's bookkeeping.
pub struct JobEntry {
    pub cancel: bool,
    pub snap: Snapshot,
}

/// A job's bookkeeping as plain values.
pub struct JobView {
    pub cancel: bool,
    pub snap: SnapshotView,
}

impl View for JobEntry {
    type V = JobView;

    open spec fn view(&self) -> JobView {
        JobView { cancel: self.cancel, snap: self.snap@ }
    }
}

/// The registry of jobs, keyed by id. Ids are handed out from a counter that
/// starts at 1 and wraps around like an atomic counter.
pub struct JobTable {
    jobs: HashMap<u64, JobEntry>,
    next: u64,
}

impl JobTable {
    /// The jobs in the table.
    pub closed spec fn jobs(&self) -> Map<u64, JobView> {
        self.jobs@.map_values(|e: JobEntry| e@)
    }

    /// The id the next registration hands out.
    pub closed spec fn next_id(&self) -> u64 {
        self.next
    }

    /// Every id in the table was handed out before the counter's value, so
    /// the counter's value is free.
    pub open spec fn ids_fresh(&self) -> bool {
        &&& 1 <= self.next_id()
        &&& forall|k: u64| #[trigger] self.jobs().contains_key(k) ==> 1 <= k < self.next_id()
    }

    /// An empty table whose first id is 1.
    pub fn new() -> (r: JobTable)
        ensures
            r.jobs() == Map::<u64, JobView>::empty(),
            r.next_id() == 1,
            r.ids_fresh(),
    {
        let r = JobTable { jobs: HashMap::new(), next: 1 };
        assert(r.jobs() =~= Map::<u64, JobView>::empty());
        r
    }
}

// ---- the table's transitions as plain values ---------------------------------------

/// The table after registering `id`.
pub open spec fn register_spec(jobs: Map<u64, JobView>, id: u64) -> Map<u64, JobView> {
    jobs.insert(id, JobView { cancel: false, snap: fresh_snapshot() })
}

/// What a poll of `id` answers.
pub open spec fn poll_spec(jobs: Map<u64, JobView>, id: u64) -> SnapshotView {
    if jobs.contains_key(id) {
        jobs[id].snap
    } else {
        unknown_job_snapshot()
    }
}

/// Whether cancellation of `id` was requested.
pub open spec fn cancel_requested_spec(jobs: Map<u64, JobView>, id: u64) -> bool {
    jobs.contains_key(id) && jobs[id].cancel
}

/// The table after a cancel request for `id`.
pub open spec fn cancel_spec(jobs: Map<u64, JobView>, id: u64) -> Map<u64, JobView> {
    if jobs.contains_key(id) {
        jobs.insert(id, JobView { cancel: true, ..jobs[id] })
    } else {
        jobs
    }
}

/// `id` is in the table and still running.
pub open spec fn running_spec(jobs: Map<u64, JobView>, id: u64) -> bool {
    jobs.contains_key(id) && jobs[id].snap.status == STATUS_RUNNING
}

/// The table after `id` reported progress (recorded only while it runs).
pub open spec fn progress_spec(jobs: Map<u64, JobView>, id: u64, pct_ppm: nat, eta_ms: nat) -> Map<
    u64,
    JobView,
> {
    if running_spec(jobs, id) {
        jobs.insert(
            id,
            JobView { snap: SnapshotView { pct_ppm, eta_ms, ..jobs[id].snap }, ..jobs[id] },
        )
    } else {
        jobs
    }
}

/// The table after `id`'s run ended with `result` (a job's end is recorded
/// once: a job that already ended keeps its snapshot).
pub open spec fn finish_spec(
    jobs: Map<u64, JobView>,
    id: u64,
    result: Result<Seq<char>, EngineError>,
) -> Map<u64, JobView> {
    if running_spec(jobs, id) {
        jobs.insert(id, JobView { snap: finished_snapshot(jobs[id].snap, result), ..jobs[id] })
    } else {
        jobs
    }
}

// ---- operations --------------------------------------------------------------------

/// Register a new job: it gets the counter's id, a running snapshot and no
/// cancel request. Starting the work itself is the caller's part.
pub fn register(table: &mut JobTable) -> (id: u64)
    ensures
        id == old(table).next_id(),
        final(table).next_id() == old(table).next_id().wrapping_add(1),
        final(table).jobs() == register_spec(old(table).jobs(), id),
        old(table).ids_fresh() ==> !old(table).jobs().contains_key(id),
        old(table).ids_fresh() && old(table).next_id() < u64::MAX ==> final(table).ids_fresh(),
{
    let id = table.next;
    table.next = table.next.wrapping_add(1);
    let snap = Snapshot::default();
    table.jobs.insert(id, JobEntry { cancel: false, snap });
    assert(table.jobs() =~= old(table).jobs().insert(
        id,
        JobView { cancel: false, snap: fresh_snapshot() },
    ));
    proof {
        if old(table).ids_fresh() && old(table).next_id() < u64::MAX {
            assert forall|k: u64| #[trigger] table.jobs().contains_key(k) implies 1 <= k
                < table.next_id() by {
                if k != id {
                    assert(old(table).jobs().contains_key(k));
                }
            }
        }
    }
    id
}

/// The current snapshot of a job; an id that is not in the table reports as
/// an error snapshot.
pub fn poll(table: &JobTable, id: u64) -> (r: Snapshot)
    ensures
        r@ == poll_spec(table.jobs(), id),
{
    match table.jobs.get(&id) {
        Some(entry) => entry.snap.copy(),
        None => Snapshot {
            pct_ppm: 0,
            eta_ms: 0,
            status: STATUS_ERROR,
            output_path: String::new(),
            error: owned("unknown job"),
        },
    }
}

/// Request cancellation of a job. The worker notices the request between
/// progress lines; an id that is not in the table is ignored.
pub fn cancel(table: &mut JobTable, id: u64)
    ensures
        final(table).next_id() == old(table).next_id(),
        final(table).jobs() == cancel_spec(old(table).jobs(), id),
{
    match table.jobs.remove(&id) {
        Some(entry) => {
            let JobEntry { cancel: _, snap } = entry;
            table.jobs.insert(id, JobEntry { cancel: true, snap });
            assert(table.jobs() =~= old(table).jobs().insert(
                id,
                JobView { cancel: true, ..old(table).jobs()[id] },
            ));
        },
        None => {
            assert(table.jobs() =~= old(table).jobs());
        },
    }
}

/// Drop a job's bookkeeping. Meant for after the UI has read a terminal
/// snapshot; any id may be given.
pub fn release(table: &mut JobTable, id: u64)
    ensures
        final(table).next_id() == old(table).next_id(),
        final(table).jobs() == old(table).jobs().remove(id),
{
    table.jobs.remove(&id);
    assert(table.jobs() =~= old(table).jobs().remove(id));
}

/// Whether cancellation of a job was requested (false for an unknown id).
pub fn is_cancel_requested(table: &JobTable, id: u64) -> (r: bool)
    ensures
        r == cancel_requested_spec(table.jobs(), id),
{
    match table.jobs.get(&id) {
        Some(entry) => entry.cancel,
        None => false,
    }
}

/// Whether `id` is in the table and still running.
fn is_running(table: &JobTable, id: u64) -> (r: bool)
    ensures
        r == running_spec(table.jobs(), id),
{
    match table.jobs.get(&id) {
        Some(entry) => entry.snap.status == STATUS_RUNNING,
        None => false,
    }
}

/// Publish progress of a running job: its share done in parts per million and
/// the estimated time left. An id that is not in the table, or of a job that
/// already ended, is ignored.
pub fn report_progress(table: &mut JobTable, id: u64, pct_ppm: u32, eta_ms: u64)
    ensures
        final(table).next_id() == old(table).next_id(),
        final(table).jobs() == progress_spec(old(table).jobs(), id, pct_ppm as nat, eta_ms as nat),
{
    if !is_running(table, id) {
        return;
    }
    match table.jobs.remove(&id) {
        Some(entry) => {
            let JobEntry { cancel, snap } = entry;
            let Snapshot { pct_ppm: _, eta_ms: _, status, output_path, error } = snap;
            let snap = Snapshot { pct_ppm, eta_ms, status, output_path, error };
            table.jobs.insert(id, JobEntry { cancel, snap });
            assert(table.jobs() =~= old(table).jobs().insert(
                id,
                JobView {
                    snap: SnapshotView {
                        pct_ppm: pct_ppm as nat,
                        eta_ms: eta_ms as nat,
                        ..old(table).jobs()[id].snap
                    },
                    ..old(table).jobs()[id]
                },
            ));
        },
        None => {
            assert(table.jobs() =~= old(table).jobs());
        },
    }
}

/// Record how a job's run ended (see `finished_snapshot`). An id that is not
/// in the table, or of a job that already ended, is ignored.
pub fn finish(table: &mut JobTable, id: u64, result: Result<String, EngineError>)
    ensures
        final(table).next_id() == old(table).next_id(),
        final(table).jobs() == finish_spec(old(table).jobs(), id, result_view(result)),
{
    if !is_running(table, id) {
        return;
    }
    match table.jobs.remove(&id) {
        Some(entry) => {
            let JobEntry { cancel, snap } = entry;
            let Snapshot { pct_ppm, eta_ms, status: _, output_path, error } = snap;
            let snap = match result {
                Ok(path) => Snapshot {
                    pct_ppm: FULL_PPM,
                    eta_ms: 0,
                    status: STATUS_DONE,
                    output_path: path,
                    error,
                },
                Err(EngineError::Cancelled) => Snapshot {
                    pct_ppm,
                    eta_ms,
                    status: STATUS_CANCELLED,
                    output_path,
                    error,
                },
                Err(e) => Snapshot {
                    pct_ppm,
                    eta_ms,
                    status: STATUS_ERROR,
                    output_path,
                    error: e.message(),
                },
            };
            table.jobs.insert(id, JobEntry { cancel, snap });
            assert(table.jobs() =~= old(table).jobs().insert(
                id,
                JobView {
                    snap: finished_snapshot(old(table).jobs()[id].snap, result_view(result)),
                    ..old(table).jobs()[id]
                },
            ));
        },
        None => {
            assert(table.jobs() =~= old(table).jobs());
        },
    }
}

// ---- laws of the table -------------------------------------------------------------

/// A job polled right after it was registered is running, at no progress, with
/// no output and no error.
pub proof fn lemma_poll_after_register(jobs: Map<u64, JobView>, id: u64)
    ensures
        poll_spec(register_spec(jobs, id), id) == fresh_snapshot(),
        !cancel_requested_spec(register_spec(jobs, id), id),
{
}

/// Once released, a job polls as unknown, whatever it was before.
pub proof fn lemma_poll_after_release(jobs: Map<u64, JobView>, id: u64)
    ensures
        poll_spec(jobs.remove(id), id) == unknown_job_snapshot(),
        !cancel_requested_spec(jobs.remove(id), id),
{
}

/// A cancel request is seen by the worker of a job in the table, and changes
/// no snapshot that any poll reports.
pub proof fn lemma_cancel_is_seen_and_silent(jobs: Map<u64, JobView>, id: u64, other: u64)
    ensures
        jobs.contains_key(id) ==> cancel_requested_spec(cancel_spec(jobs, id), id),
        poll_spec(cancel_spec(jobs, id), other) == poll_spec(jobs, other),
{
}

/// Each operation on one job leaves every other job as it was.
pub proof fn lemma_other_jobs_untouched(
    jobs: Map<u64, JobView>,
    id: u64,
    other: u64,
    pct_ppm: nat,
    eta_ms: nat,
    result: Result<Seq<char>, EngineError>,
)
    requires
        other != id,
    ensures
        register_spec(jobs, id).contains_key(other) == jobs.contains_key(other),
        poll_spec(register_spec(jobs, id), other) == poll_spec(jobs, other),
        poll_spec(jobs.remove(id), other) == poll_spec(jobs, other),
        cancel_requested_spec(cancel_spec(jobs, id), other) == cancel_requested_spec(jobs, other),
        poll_spec(progress_spec(jobs, id, pct_ppm, eta_ms), other) == poll_spec(jobs, other),
        poll_spec(finish_spec(jobs, id, result), other) == poll_spec(jobs, other),
{
}

/// A running job whose run succeeded polls as done, at full progress with no time
/// left, naming its output; a cancelled run polls as cancelled; any other
/// failure polls as an error carrying the error's text. Progress reports
/// change only the progress and the estimate.
pub proof fn lemma_poll_after_finish(
    jobs: Map<u64, JobView>,
    id: u64,
    result: Result<Seq<char>, EngineError>,
    pct_ppm: nat,
    eta_ms: nat,
)
    requires
        running_spec(jobs, id),
    ensures
        ({
            let s = poll_spec(finish_spec(jobs, id, result), id);
            match result {
                Ok(path) => s.status == STATUS_DONE && s.output_path == path && s.pct_ppm
                    == FULL_PPM && s.eta_ms == 0,
                Err(EngineError::Cancelled) => s.status == STATUS_CANCELLED,
                Err(e) => s.status == STATUS_ERROR && s.error == message_spec(e),
            }
        }),
        ({
            let s = poll_spec(progress_spec(jobs, id, pct_ppm, eta_ms), id);
            &&& s.pct_ppm == pct_ppm
            &&& s.eta_ms == eta_ms
            &&& s.status == jobs[id].snap.status
            &&& s.output_path == jobs[id].snap.output_path
            &&& s.error == jobs[id].snap.error
        }),
{
}

// ---- the table over a sequence of calls ------------------------------------------

/// One call that changes the table, as plain values.
pub enum TableOp {
    Register,
    Cancel(u64),
    Progress(u64, nat, nat),
    Finish(u64, Result<Seq<char>, EngineError>),
    Release(u64),
}

/// The whole table as plain values: its jobs and its id counter.
pub struct TableState {
    pub jobs: Map<u64, JobView>,
    pub next: u64,
}

impl JobTable {
    /// The table as plain values.
    pub open spec fn state(&self) -> TableState {
        TableState { jobs: self.jobs(), next: self.next_id() }
    }
}

/// The table after one call, as `register`, `cancel`, `report_progress`,
/// `finish` and `release` state it.
pub open spec fn apply_op(t: TableState, op: TableOp) -> TableState {
    match op {
        TableOp::Register => TableState {
            jobs: register_spec(t.jobs, t.next),
            next: t.next.wrapping_add(1),
        },
        TableOp::Cancel(id) => TableState { jobs: cancel_spec(t.jobs, id), next: t.next },
        TableOp::Progress(id, p, e) => TableState { jobs: progress_spec(t.jobs, id, p, e), next: t.next },
        TableOp::Finish(id, r) => TableState { jobs: finish_spec(t.jobs, id, r), next: t.next },
        TableOp::Release(id) => TableState { jobs: t.jobs.remove(id), next: t.next },
    }
}

/// The table after a sequence of calls, in order.
pub open spec fn run_ops(t: TableState, ops: Seq<TableOp>) -> TableState
    decreases ops.len(),
{
    if ops.len() == 0 {
        t
    } else {
        apply_op(run_ops(t, ops.drop_last()), ops.last())
    }
}

/// The ids the registrations among `ops` hand out, in order.
pub open spec fn issued_ids(t: TableState, ops: Seq<TableOp>) -> Seq<u64>
    decreases ops.len(),
{
    if ops.len() == 0 {
        Seq::empty()
    } else if ops.last() is Register {
        issued_ids(t, ops.drop_last()).push(run_ops(t, ops.drop_last()).next)
    } else {
        issued_ids(t, ops.drop_last())
    }
}

/// How many registrations `ops` holds.
pub open spec fn registrations(ops: Seq<TableOp>) -> nat
    decreases ops.len(),
{
    if ops.len() == 0 {
        0
    } else if ops.last() is Register {
        registrations(ops.drop_last()) + 1
    } else {
        registrations(ops.drop_last())
    }
}

/// Every id in the table is below the counter, which is at least 1.
pub open spec fn state_fresh(t: TableState) -> bool {
    &&& 1 <= t.next
    &&& forall|k: u64| #[trigger] t.jobs.contains_key(k) ==> 1 <= k < t.next
}

/// `op` releases `id`.
pub open spec fn releases(op: TableOp, id: u64) -> bool {
    match op {
        TableOp::Release(x) => x == id,
        _ => false,
    }
}

/// `op` records the end of `id`'s run.
pub open spec fn finishes(op: TableOp, id: u64) -> bool {
    match op {
        TableOp::Finish(x, _) => x == id,
        _ => false,
    }
}

/// Ids are handed out counting up from the counter, so no id is handed out
/// twice nor is already in the table, as long as the counter does not wrap
/// around; the table stays fresh.
pub proof fn lemma_ids_never_repeat(t: TableState, ops: Seq<TableOp>)
    requires
        state_fresh(t),
        t.next + registrations(ops) <= u64::MAX,
    ensures
        run_ops(t, ops).next == t.next + registrations(ops),
        state_fresh(run_ops(t, ops)),
        issued_ids(t, ops).len() == registrations(ops),
        forall|i: int|
            0 <= i < issued_ids(t, ops).len() ==> #[trigger] issued_ids(t, ops)[i] == t.next + i,
        forall|i: int, j: int|
            0 <= i < j < issued_ids(t, ops).len() ==> issued_ids(t, ops)[i] != issued_ids(
                t,
                ops,
            )[j],
        forall|i: int|
            0 <= i < issued_ids(t, ops).len() ==> !t.jobs.contains_key(
                #[trigger] issued_ids(t, ops)[i],
            ),
    decreases ops.len(),
{
    if ops.len() > 0 {
        let pre = ops.drop_last();
        lemma_ids_never_repeat(t, pre);
        let s = run_ops(t, pre);
        let s2 = run_ops(t, ops);
        assert(s2 == apply_op(s, ops.last()));
        assert forall|k: u64| #[trigger] s2.jobs.contains_key(k) implies 1 <= k < s2.next by {
            if !(ops.last() is Register) {
                assert(s.jobs.contains_key(k));
            } else if k != s.next {
                assert(s.jobs.contains_key(k));
            }
        }
        let ids = issued_ids(t, ops);
        assert forall|i: int| 0 <= i < ids.len() implies #[trigger] ids[i] == t.next + i by {
            if i < issued_ids(t, pre).len() {
                assert(ids[i] == issued_ids(t, pre)[i]);
            }
        }
    }
}

/// A registered job stays in the table, so polling it never reports "unknown
/// job", until it is released.
pub proof fn lemma_job_persists_until_release(t: TableState, ops: Seq<TableOp>, id: u64)
    requires
        state_fresh(t),
        t.next + registrations(ops) <= u64::MAX,
        t.jobs.contains_key(id),
        forall|i: int| 0 <= i < ops.len() ==> !releases(#[trigger] ops[i], id),
    ensures
        run_ops(t, ops).jobs.contains_key(id),
        poll_spec(run_ops(t, ops).jobs, id) == run_ops(t, ops).jobs[id].snap,
    decreases ops.len(),
{
    if ops.len() > 0 {
        let pre = ops.drop_last();
        assert forall|i: int| 0 <= i < pre.len() implies !releases(#[trigger] pre[i], id) by {
            assert(pre[i] == ops[i]);
        }
        assert(registrations(pre) <= registrations(ops));
        lemma_job_persists_until_release(t, pre, id);
        assert(!releases(ops[ops.len() - 1], id));
    }
}

/// A job's status changes only when its end is recorded; once the job has
/// ended (done, cancelled or failed) its snapshot never changes again, until
/// it is released.
pub proof fn lemma_status_changes_only_at_finish(t: TableState, ops: Seq<TableOp>, id: u64)
    requires
        state_fresh(t),
        t.next + registrations(ops) <= u64::MAX,
        t.jobs.contains_key(id),
        forall|i: int| 0 <= i < ops.len() ==> !releases(#[trigger] ops[i], id),
    ensures
        run_ops(t, ops).jobs.contains_key(id),
        t.jobs[id].snap.status != STATUS_RUNNING ==> run_ops(t, ops).jobs[id].snap
            == t.jobs[id].snap,
        (forall|i: int| 0 <= i < ops.len() ==> !finishes(#[trigger] ops[i], id)) ==> run_ops(
            t,
            ops,
        ).jobs[id].snap.status == t.jobs[id].snap.status,
    decreases ops.len(),
{
    lemma_job_persists_until_release(t, ops, id);
    if ops.len() > 0 {
        let pre = ops.drop_last();
        assert forall|i: int| 0 <= i < pre.len() implies !releases(#[trigger] pre[i], id) by {
            assert(pre[i] == ops[i]);
        }
        assert(registrations(pre) <= registrations(ops));
        lemma_status_changes_only_at_finish(t, pre, id);
        lemma_ids_never_repeat(t, pre);
        lemma_job_persists_until_release(t, pre, id);
        let s = run_ops(t, pre);
        assert(s.jobs.contains_key(id));
        assert(id < s.next);
        let last = ops[ops.len() - 1];
        assert(!releases(last, id));
        if forall|i: int| 0 <= i < ops.len() ==> !finishes(#[trigger] ops[i], id) {
            assert forall|i: int| 0 <= i < pre.len() implies !finishes(#[trigger] pre[i], id) by {
                assert(pre[i] == ops[i]);
            }
            assert(!finishes(last, id));
        }
    }
}

} // verus!
