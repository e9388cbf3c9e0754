//! Model of the shared job table: atomic claim, dependency listing, and
//! terminal success or failure recording.
//!
//! One row stands for one batch-stage job. The claim is the single
//! serialization point of the stage: it turns the first ready row into
//! `Picked` in the same step that reports it, so no two claims can return
//! the same row.

use vstd::prelude::*;

use crate::artifact_store::ArtifactKey;
use crate::errors::StageError;
use crate::types::copy_job_ids;

verus! {

/// Lifecycle of one batch-stage job: `Queued -> Picked -> {Succeeded |
/// Failed}`, each transition taken exactly once.
#[derive(Clone, Copy, Debug, PartialEq, Eq, Structural)]
pub enum JobStatus {
    Queued,
    Picked,
    Succeeded,
    Failed,
}

/// One batch-stage job row.
#[derive(Debug, PartialEq, Eq)]
pub struct JobRow {
    pub batch_number: u32,
    pub protocol_version: u32,
    /// Dependency count recorded when the job was scheduled.
    pub expected_dependency_count: usize,
    /// `(circuit_type, job id)` of the completed dependency jobs.
    pub final_node_proof_job_ids: Vec<(u8, u32)>,
    pub status: JobStatus,
    /// Which worker claimed the row, once one has.
    pub picked_by: Option<String>,
    /// Why the job failed, once it has.
    pub error: Option<StageError>,
    /// Where the artifact was stored, once the job succeeded.
    pub artifact_location: Option<ArtifactKey>,
    /// How long the job took from pick to save, once it succeeded.
    pub duration: Option<u64>,
}

/// Mathematical view of a [`JobRow`].
pub struct JobRowView {
    pub batch_number: u32,
    pub protocol_version: u32,
    pub expected_dependency_count: usize,
    pub final_node_proof_job_ids: Seq<(u8, u32)>,
    pub status: JobStatus,
    pub picked_by: Option<Seq<char>>,
    pub error: Option<StageError>,
    pub artifact_location: Option<ArtifactKey>,
    pub duration: Option<u64>,
}

impl View for JobRow {
    type V = JobRowView;

    open spec fn view(&self) -> JobRowView {
        JobRowView {
            batch_number: self.batch_number,
            protocol_version: self.protocol_version,
            expected_dependency_count: self.expected_dependency_count,
            final_node_proof_job_ids: self.final_node_proof_job_ids@,
            status: self.status,
            picked_by: match &self.picked_by {
                Some(w) => Some(w@),
                None => None,
            },
            error: self.error,
            artifact_location: self.artifact_location,
            duration: self.duration,
        }
    }
}

/// A freshly scheduled row.
pub open spec fn queued_row(
    batch_number: u32,
    protocol_version: u32,
    expected_dependency_count: usize,
    final_node_proof_job_ids: Seq<(u8, u32)>,
) -> JobRowView {
    JobRowView {
        batch_number,
        protocol_version,
        expected_dependency_count,
        final_node_proof_job_ids,
        status: JobStatus::Queued,
        picked_by: None,
        error: None,
        artifact_location: None,
        duration: None,
    }
}

/// The row after a worker claimed it.
pub open spec fn picked_row(row: JobRowView, worker: Seq<char>) -> JobRowView {
    JobRowView {
        batch_number: row.batch_number,
        protocol_version: row.protocol_version,
        expected_dependency_count: row.expected_dependency_count,
        final_node_proof_job_ids: row.final_node_proof_job_ids,
        status: JobStatus::Picked,
        picked_by: Some(worker),
        error: row.error,
        artifact_location: row.artifact_location,
        duration: row.duration,
    }
}

/// The row after its job failed.
pub open spec fn failed_row(row: JobRowView, error: StageError) -> JobRowView {
    JobRowView {
        batch_number: row.batch_number,
        protocol_version: row.protocol_version,
        expected_dependency_count: row.expected_dependency_count,
        final_node_proof_job_ids: row.final_node_proof_job_ids,
        status: JobStatus::Failed,
        picked_by: row.picked_by,
        error: Some(error),
        artifact_location: row.artifact_location,
        duration: row.duration,
    }
}

/// The row after its job succeeded.
pub open spec fn succeeded_row(
    row: JobRowView,
    artifact_location: ArtifactKey,
    duration: u64,
) -> JobRowView {
    JobRowView {
        batch_number: row.batch_number,
        protocol_version: row.protocol_version,
        expected_dependency_count: row.expected_dependency_count,
        final_node_proof_job_ids: row.final_node_proof_job_ids,
        status: JobStatus::Succeeded,
        picked_by: row.picked_by,
        error: row.error,
        artifact_location: Some(artifact_location),
        duration: Some(duration),
    }
}

/// Whether a row is ready to be claimed by a worker running the given
/// protocol version.
pub open spec fn claimable(row: JobRowView, protocol_version: u32) -> bool {
    row.status is Queued && row.protocol_version == protocol_version
}

/// Whether row `i` is the first claimable row of the table.
pub open spec fn is_first_claimable(rows: Seq<JobRowView>, protocol_version: u32, i: int) -> bool {
    &&& 0 <= i < rows.len()
    &&& claimable(rows[i], protocol_version)
    &&& forall|j: int| 0 <= j < i ==> !claimable(#[trigger] rows[j], protocol_version)
}

/// Exactly what one atomic claim attempt does to the table: either there
/// is no ready row and nothing changes, or the first ready row becomes
/// `Picked` in the same step that reports its batch and expected
/// dependency count.
pub open spec fn claim_transition(
    pre: Seq<JobRowView>,
    post: Seq<JobRowView>,
    protocol_version: u32,
    worker: Seq<char>,
    r: Option<(u32, usize)>,
) -> bool {
    match r {
        None => {
            &&& post == pre
            &&& forall|i: int| 0 <= i < pre.len() ==> !claimable(#[trigger] pre[i], protocol_version)
        },
        Some((batch_number, expected_dependency_count)) => {
            exists|i: int|
                {
                    &&& #[trigger] is_first_claimable(pre, protocol_version, i)
                    &&& pre[i].batch_number == batch_number
                    &&& pre[i].expected_dependency_count == expected_dependency_count
                    &&& post == pre.update(i, picked_row(pre[i], worker))
                }
        },
    }
}

/// The dependency ids listed for a batch: those of its first row.
pub open spec fn batch_ids(rows: Seq<JobRowView>, batch_number: u32) -> Seq<(u8, u32)>
    decreases rows.len(),
{
    if rows.len() == 0 {
        Seq::empty()
    } else if rows[0].batch_number == batch_number {
        rows[0].final_node_proof_job_ids
    } else {
        batch_ids(rows.drop_first(), batch_number)
    }
}

proof fn lemma_batch_ids_skip(rows: Seq<JobRowView>, batch_number: u32, i: int)
    requires
        0 <= i <= rows.len(),
        forall|j: int| 0 <= j < i ==> (#[trigger] rows[j]).batch_number != batch_number,
    ensures
        batch_ids(rows, batch_number) == batch_ids(rows.skip(i), batch_number),
    decreases i,
{
    if i > 0 {
        let t = rows.drop_first();
        assert(forall|j: int| 0 <= j < i - 1 ==> (#[trigger] t[j]).batch_number != batch_number);
        lemma_batch_ids_skip(t, batch_number, i - 1);
        assert(t.skip(i - 1) =~= rows.skip(i));
    } else {
        assert(rows.skip(0) =~= rows);
    }
}

proof fn lemma_batch_ids_is_row(rows: Seq<JobRowView>, batch_number: u32)
    ensures
        batch_ids(rows, batch_number).len() == 0 || exists|k: int|
            0 <= k < rows.len() && batch_ids(rows, batch_number) == (
            #[trigger] rows[k]).final_node_proof_job_ids,
    decreases rows.len(),
{
    if rows.len() > 0 && rows[0].batch_number != batch_number {
        lemma_batch_ids_is_row(rows.drop_first(), batch_number);
        if batch_ids(rows, batch_number).len() != 0 {
            let k = choose|k: int|
                0 <= k < rows.drop_first().len() && batch_ids(rows.drop_first(), batch_number)
                    == (#[trigger] rows.drop_first()[k]).final_node_proof_job_ids;
            assert(rows[k + 1] == rows.drop_first()[k]);
        }
    }
}

/// Law: the table has at most one first claimable row.
pub proof fn lemma_first_claimable_unique(
    rows: Seq<JobRowView>,
    protocol_version: u32,
    i: int,
    j: int,
)
    requires
        is_first_claimable(rows, protocol_version, i),
        is_first_claimable(rows, protocol_version, j),
    ensures
        i == j,
{
    if i < j {
        assert(claimable(rows[i], protocol_version));
    } else if j < i {
        assert(claimable(rows[j], protocol_version));
    }
}

/// An update that keeps a row's batch number and dependency listing
/// leaves every batch's dependency listing as it was.
pub proof fn lemma_batch_ids_update_same_ids(
    rows: Seq<JobRowView>,
    i: int,
    row: JobRowView,
    batch_number: u32,
)
    requires
        0 <= i < rows.len(),
        row.batch_number == rows[i].batch_number,
        row.final_node_proof_job_ids == rows[i].final_node_proof_job_ids,
    ensures
        batch_ids(rows.update(i, row), batch_number) == batch_ids(rows, batch_number),
    decreases rows.len(),
{
    let u = rows.update(i, row);
    if i == 0 {
        if rows[0].batch_number != batch_number {
            assert(u.drop_first() =~= rows.drop_first());
        }
    } else {
        assert(u.drop_first() =~= rows.drop_first().update(i - 1, row));
        lemma_batch_ids_update_same_ids(rows.drop_first(), i - 1, row, batch_number);
    }
}

/// Exactly what recording a terminal failure does to the table: every
/// row of the batch becomes `Failed` and carries the error; no other row
/// moves.
pub open spec fn marked_failed(
    pre: Seq<JobRowView>,
    post: Seq<JobRowView>,
    batch_number: u32,
    error: StageError,
) -> bool {
    &&& post.len() == pre.len()
    &&& forall|i: int|
        0 <= i < pre.len() && (#[trigger] pre[i]).batch_number != batch_number ==> post[i]
            == pre[i]
    &&& forall|i: int|
        0 <= i < pre.len() && (#[trigger] pre[i]).batch_number == batch_number ==> post[i]
            == failed_row(pre[i], error)
}

/// Exactly what recording a terminal success does to the table: every
/// row of the batch becomes `Succeeded` and carries the artifact
/// location and the duration; no other row moves.
pub open spec fn marked_succeeded(
    pre: Seq<JobRowView>,
    post: Seq<JobRowView>,
    batch_number: u32,
    artifact_location: ArtifactKey,
    duration: u64,
) -> bool {
    &&& post.len() == pre.len()
    &&& forall|i: int|
        0 <= i < pre.len() && (#[trigger] pre[i]).batch_number != batch_number ==> post[i]
            == pre[i]
    &&& forall|i: int|
        0 <= i < pre.len() && (#[trigger] pre[i]).batch_number == batch_number ==> post[i]
            == succeeded_row(pre[i], artifact_location, duration)
}

/// Whether no two rows of the table stand for the same batch.
pub open spec fn distinct_batches(rows: Seq<JobRowView>) -> bool {
    forall|i: int, j: int|
        0 <= i < j < rows.len() ==> (#[trigger] rows[i]).batch_number != (
        #[trigger] rows[j]).batch_number
}

/// Law: a successful claim leaves the claimed batch `Picked`.
pub proof fn lemma_claim_picks_row(
    pre: Seq<JobRowView>,
    post: Seq<JobRowView>,
    protocol_version: u32,
    worker: Seq<char>,
    batch_number: u32,
    expected_dependency_count: usize,
)
    requires
        claim_transition(
            pre,
            post,
            protocol_version,
            worker,
            Some((batch_number, expected_dependency_count)),
        ),
    ensures
        exists|i: int|
            {
                &&& 0 <= i < post.len()
                &&& (#[trigger] post[i]).batch_number == batch_number
                &&& post[i].status is Picked
                &&& post[i].picked_by == Some(worker)
            },
{
    let i = choose|i: int|
        {
            &&& #[trigger] is_first_claimable(pre, protocol_version, i)
            &&& pre[i].batch_number == batch_number
            &&& pre[i].expected_dependency_count == expected_dependency_count
            &&& post == pre.update(i, picked_row(pre[i], worker))
        };
    assert(post[i].batch_number == batch_number);
}

/// Law: of two claim attempts racing on a table whose rows stand for
/// distinct batches, at most one can observe a given batch; after the
/// first claim has taken it, a second claim, by any worker and under any
/// protocol version, returns some other batch or nothing.
pub proof fn lemma_claim_is_exclusive(
    pre: Seq<JobRowView>,
    mid: Seq<JobRowView>,
    post: Seq<JobRowView>,
    protocol_version_a: u32,
    worker_a: Seq<char>,
    batch_a: u32,
    expected_a: usize,
    protocol_version_b: u32,
    worker_b: Seq<char>,
    batch_b: u32,
    expected_b: usize,
)
    requires
        distinct_batches(pre),
        claim_transition(pre, mid, protocol_version_a, worker_a, Some((batch_a, expected_a))),
        claim_transition(mid, post, protocol_version_b, worker_b, Some((batch_b, expected_b))),
    ensures
        batch_b != batch_a,
{
    let i = choose|i: int|
        {
            &&& #[trigger] is_first_claimable(pre, protocol_version_a, i)
            &&& pre[i].batch_number == batch_a
            &&& pre[i].expected_dependency_count == expected_a
            &&& mid == pre.update(i, picked_row(pre[i], worker_a))
        };
    let j = choose|j: int|
        {
            &&& #[trigger] is_first_claimable(mid, protocol_version_b, j)
            &&& mid[j].batch_number == batch_b
            &&& mid[j].expected_dependency_count == expected_b
            &&& post == mid.update(j, picked_row(mid[j], worker_b))
        };
    if batch_b == batch_a {
        assert(mid[j].batch_number == pre[j].batch_number);
        assert(pre[j].batch_number == pre[i].batch_number);
        assert(j == i);
        assert(mid[i].status is Picked);
        assert(false);
    }
}

/// The shared job table.
pub struct JobTable {
    rows: Vec<JobRow>,
}

impl View for JobTable {
    type V = Seq<JobRowView>;

    closed spec fn view(&self) -> Seq<JobRowView> {
        self.rows@.map_values(|r: JobRow| r@)
    }
}

impl JobTable {
    /// An empty table.
    pub fn new() -> (r: JobTable)
        ensures
            r@ == Seq::<JobRowView>::empty(),
    {
        let r = JobTable { rows: Vec::new() };
        proof {
            assert(r@ =~= Seq::<JobRowView>::empty());
        }
        r
    }

    /// Schedules one batch-stage job, as the upstream scheduler does once
    /// the batch's dependencies are satisfied; a batch has at most one
    /// row per stage, so the batch must not be scheduled already.
    pub fn enqueue(
        &mut self,
        batch_number: u32,
        protocol_version: u32,
        expected_dependency_count: usize,
        final_node_proof_job_ids: Vec<(u8, u32)>,
    )
        requires
            forall|i: int|
                0 <= i < old(self)@.len() ==> (#[trigger] old(self)@[i]).batch_number
                    != batch_number,
        ensures
            final(self)@ == old(self)@.push(
                queued_row(
                    batch_number,
                    protocol_version,
                    expected_dependency_count,
                    final_node_proof_job_ids@,
                ),
            ),
    {
        let ghost pre = self@;
        let row = JobRow {
            batch_number,
            protocol_version,
            expected_dependency_count,
            final_node_proof_job_ids,
            status: JobStatus::Queued,
            picked_by: None,
            error: None,
            artifact_location: None,
            duration: None,
        };
        self.rows.push(row);
        proof {
            assert(self@ =~= pre.push(row@));
        }
    }

    /// How many rows the table holds.
    pub fn len(&self) -> (n: usize)
        ensures
            n == self@.len(),
    {
        self.rows.len()
    }

    /// The row at one index, for inspection.
    pub fn row(&self, i: usize) -> (r: &JobRow)
        requires
            i < self@.len(),
        ensures
            r@ == self@[i as int],
    {
        &self.rows[i]
    }

    /// Every dependency listing the table can hand out came from a row
    /// it holds, so its length fits in memory.
    pub proof fn lemma_batch_ids_fit(&self, batch_number: u32)
        ensures
            batch_ids(self@, batch_number).len() <= usize::MAX,
    {
        lemma_batch_ids_is_row(self@, batch_number);
        if batch_ids(self@, batch_number).len() != 0 {
            let k = choose|k: int|
                0 <= k < self@.len() && batch_ids(self@, batch_number) == (
                #[trigger] self@[k]).final_node_proof_job_ids;
            assert(self@[k] == self.rows@[k]@);
            assert(self.rows@[k].final_node_proof_job_ids@.len() == self.rows@[k].final_node_proof_job_ids.len());
        }
    }

    /// Atomically claims the next ready job for a worker running the
    /// given protocol version: the first `Queued` row of that version
    /// becomes `Picked` in the same step that returns its batch number
    /// and expected dependency count, so no two claims can observe the
    /// same row ready.
    #[verifier::loop_isolation(false)]
    pub fn claim_next(&mut self, protocol_version: u32, worker: &String) -> (r: Option<
        (u32, usize),
    >)
        ensures
            claim_transition(old(self)@, final(self)@, protocol_version, worker@, r),
    {
        let ghost pre = self@;
        let mut i: usize = 0;
        while i < self.rows.len()
            invariant
                i <= self.rows@.len(),
                self.rows@ == old(self).rows@,
                forall|j: int| 0 <= j < i ==> !claimable(#[trigger] pre[j], protocol_version),
            decreases self.rows@.len() - i,
        {
            let ready = match self.rows[i].status {
                JobStatus::Queued => self.rows[i].protocol_version == protocol_version,
                _ => false,
            };
            if ready {
                let batch_number = self.rows[i].batch_number;
                let expected_dependency_count = self.rows[i].expected_dependency_count;
                let picked = JobRow {
                    batch_number,
                    protocol_version: self.rows[i].protocol_version,
                    expected_dependency_count,
                    final_node_proof_job_ids: copy_job_ids(&self.rows[i].final_node_proof_job_ids),
                    status: JobStatus::Picked,
                    picked_by: Some(worker.clone()),
                    error: self.rows[i].error,
                    artifact_location: self.rows[i].artifact_location,
                    duration: self.rows[i].duration,
                };
                proof {
                    assert(picked@ == picked_row(pre[i as int], worker@));
                }
                self.rows.set(i, picked);
                proof {
                    assert(self@ =~= pre.update(i as int, picked_row(pre[i as int], worker@)));
                    assert(is_first_claimable(pre, protocol_version, i as int));
                }
                return Some((batch_number, expected_dependency_count));
            }
            i = i + 1;
        }
        None
    }

    /// Lists the dependency job ids recorded as complete for a batch.
    #[verifier::loop_isolation(false)]
    pub fn get_final_node_proof_job_ids_for(&self, batch_number: u32) -> (r: Vec<(u8, u32)>)
        ensures
            r@ == batch_ids(self@, batch_number),
    {
        let mut i: usize = 0;
        while i < self.rows.len()
            invariant
                i <= self.rows@.len(),
                forall|j: int| 0 <= j < i ==> (#[trigger] self@[j]).batch_number != batch_number,
            decreases self.rows@.len() - i,
        {
            if self.rows[i].batch_number == batch_number {
                proof {
                    lemma_batch_ids_skip(self@, batch_number, i as int);
                    assert(self@.skip(i as int)[0] == self@[i as int]);
                }
                return copy_job_ids(&self.rows[i].final_node_proof_job_ids);
            }
            i = i + 1;
        }
        proof {
            lemma_batch_ids_skip(self@, batch_number, self@.len() as int);
            assert(self@.skip(self@.len() as int) =~= Seq::<JobRowView>::empty());
        }
        Vec::new()
    }

    /// Records a terminal failure, with its error, against every row of
    /// the batch.
    #[verifier::loop_isolation(false)]
    pub fn mark_failed(&mut self, batch_number: u32, error: StageError)
        ensures
            marked_failed(old(self)@, final(self)@, batch_number, error),
    {
        let ghost pre = self@;
        let mut i: usize = 0;
        while i < self.rows.len()
            invariant
                i <= self.rows@.len(),
                self.rows@.len() == pre.len(),
                forall|j: int| i <= j < pre.len() ==> self@[j] == pre[j],
                forall|j: int|
                    0 <= j < i && (#[trigger] pre[j]).batch_number != batch_number ==> self@[j]
                        == pre[j],
                forall|j: int|
                    0 <= j < i && (#[trigger] pre[j]).batch_number == batch_number ==> self@[j]
                        == failed_row(pre[j], error),
            decreases self.rows@.len() - i,
        {
            if self.rows[i].batch_number == batch_number {
                let updated = JobRow {
                    batch_number: self.rows[i].batch_number,
                    protocol_version: self.rows[i].protocol_version,
                    expected_dependency_count: self.rows[i].expected_dependency_count,
                    final_node_proof_job_ids: copy_job_ids(&self.rows[i].final_node_proof_job_ids),
                    status: JobStatus::Failed,
                    picked_by: match &self.rows[i].picked_by {
                        Some(w) => Some(w.clone()),
                        None => None,
                    },
                    error: Some(error),
                    artifact_location: self.rows[i].artifact_location,
                    duration: self.rows[i].duration,
                };
                proof {
                    assert(updated@ == failed_row(pre[i as int], error));
                }
                self.rows.set(i, updated);
            }
            i = i + 1;
        }
    }

    /// Records a terminal success, with the artifact location and the
    /// elapsed duration, against every row of the batch.
    #[verifier::loop_isolation(false)]
    pub fn mark_succeeded(&mut self, batch_number: u32, artifact_location: ArtifactKey, duration: u64)
        ensures
            marked_succeeded(old(self)@, final(self)@, batch_number, artifact_location, duration),
    {
        let ghost pre = self@;
        let mut i: usize = 0;
        while i < self.rows.len()
            invariant
                i <= self.rows@.len(),
                self.rows@.len() == pre.len(),
                forall|j: int| i <= j < pre.len() ==> self@[j] == pre[j],
                forall|j: int|
                    0 <= j < i && (#[trigger] pre[j]).batch_number != batch_number ==> self@[j]
                        == pre[j],
                forall|j: int|
                    0 <= j < i && (#[trigger] pre[j]).batch_number == batch_number ==> self@[j]
                        == succeeded_row(pre[j], artifact_location, duration),
            decreases self.rows@.len() - i,
        {
            if self.rows[i].batch_number == batch_number {
                let updated = JobRow {
                    batch_number: self.rows[i].batch_number,
                    protocol_version: self.rows[i].protocol_version,
                    expected_dependency_count: self.rows[i].expected_dependency_count,
                    final_node_proof_job_ids: copy_job_ids(&self.rows[i].final_node_proof_job_ids),
                    status: JobStatus::Succeeded,
                    picked_by: match &self.rows[i].picked_by {
                        Some(w) => Some(w.clone()),
                        None => None,
                    },
                    error: self.rows[i].error,
                    artifact_location: Some(artifact_location),
                    duration: Some(duration),
                };
                proof {
                    assert(updated@ == succeeded_row(pre[i as int], artifact_location, duration));
                }
                self.rows.set(i, updated);
            }
            i = i + 1;
        }
    }
}

} // verus!
