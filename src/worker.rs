use vstd::prelude::*;
use crate::models::{ExecuteRequest, ExecuteResponse, Job, JobResult, NO_EXIT};
use crate::store::{ResultStore, StoredResult, deadline_after};

verus! {

/// Relies on `uuid::Uuid::new_v4` and `Uuid::as_u128`: a random identifier,
/// of which nothing is promised.
#[verifier::external_body]
fn fresh_job_id() -> (r: u128) {
    uuid::Uuid::new_v4().as_u128()
}

/// A job for the submission `req`, under a freshly drawn identifier.
pub fn new_job(req: ExecuteRequest) -> (r: Job)
    ensures
        r.task_type == req.task,
        r.code@ == req.code@,
{
    Job { id: fresh_job_id(), task_type: req.task, code: req.code }
}

/// The answer to the submission of `job`.
pub fn submission_response(job: &Job) -> (r: ExecuteResponse)
    ensures
        r.job_id == job.id,
{
    ExecuteResponse { job_id: job.id }
}

pub open spec fn fatal_prefix() -> Seq<char> {
    "Fatal execution error: "@
}

/// Whether `res` is the result recorded for a pipeline that ended with
/// `outcome`: its own result, or for a failure of the service an empty stdout,
/// the failure's message after `fatal_prefix()`, and `NO_EXIT`.
pub open spec fn settles_to(outcome: Result<JobResult, String>, res: JobResult) -> bool {
    match outcome {
        Ok(r) => res == r,
        Err(m) => res.stdout@.len() == 0 && res.stderr@ == fatal_prefix() + m@ && res.exit_code == NO_EXIT,
    }
}

/// The one result recorded for a job, whatever way its pipeline ended.
pub fn settle(outcome: Result<JobResult, String>) -> (r: JobResult)
    ensures
        settles_to(outcome, r),
{
    match outcome {
        Ok(res) => res,
        Err(m) => JobResult::failure(String::from_str("Fatal execution error: ").concat(m.as_str())),
    }
}

/// Records the result of job `id`, whose pipeline ended with `outcome`, at
/// instant `now`. Exactly the entry of `id` is written.
pub fn record_completion(store: &mut ResultStore, id: u128, outcome: Result<JobResult, String>, now: u64)
    ensures
        final(store)@.contains_key(id),
        final(store)@ == old(store)@.insert(id, final(store)@[id]),
        final(store)@[id].expires_at == deadline_after(now),
        settles_to(outcome, final(store)@[id].result),
{
    let res = settle(outcome);
    store.put(id, res, now);
}

/// The entries after recording `entries[i]` under `ids[i]`, in that order.
pub open spec fn after_completions(m: Map<u128, StoredResult>, ids: Seq<u128>, entries: Seq<StoredResult>) -> Map<u128, StoredResult>
    decreases ids.len(),
{
    if ids.len() == 0 || entries.len() == 0 {
        m
    } else {
        after_completions(m, ids.drop_last(), entries.drop_last()).insert(ids.last(), entries.last())
    }
}

/// Completing distinct jobs, in whatever order the workers finish them,
/// leaves exactly one entry for each job, holding the result recorded for it,
/// and touches no other identifier.
pub proof fn lemma_each_job_recorded_once(m: Map<u128, StoredResult>, ids: Seq<u128>, entries: Seq<StoredResult>)
    requires
        ids.no_duplicates(),
        ids.len() == entries.len(),
    ensures
        after_completions(m, ids, entries).dom() == m.dom() + ids.to_set(),
        forall|i: int| 0 <= i < ids.len() ==> #[trigger] after_completions(m, ids, entries)[ids[i]] == entries[i],
        forall|k: u128| !ids.contains(k) && m.contains_key(k) ==> #[trigger] after_completions(m, ids, entries)[k] == m[k],
    decreases ids.len(),
{
    if ids.len() > 0 {
        let ids0 = ids.drop_last();
        let entries0 = entries.drop_last();
        assert(ids0.no_duplicates());
        lemma_each_job_recorded_once(m, ids0, entries0);
        let prev = after_completions(m, ids0, entries0);
        assert(ids.to_set() =~= ids0.to_set().insert(ids.last())) by {
            assert forall|x: u128| ids.to_set().contains(x) <==> ids0.to_set().insert(ids.last()).contains(x) by {
                if ids.contains(x) {
                    let j = choose|j: int| 0 <= j < ids.len() && ids[j] == x;
                    if j < ids.len() - 1 {
                        assert(ids0[j] == x);
                    }
                }
                if ids0.contains(x) {
                    let j = choose|j: int| 0 <= j < ids0.len() && ids0[j] == x;
                    assert(ids[j] == x);
                }
                if x == ids.last() {
                    assert(ids[ids.len() - 1] == x);
                }
            }
        }
        assert(after_completions(m, ids, entries).dom() =~= m.dom() + ids.to_set());
        assert forall|i: int| 0 <= i < ids.len() implies #[trigger] after_completions(m, ids, entries)[ids[i]] == entries[i] by {
            if i < ids.len() - 1 {
                assert(ids0[i] == ids[i]);
                assert(ids[i] != ids.last());
            }
        }
        assert forall|k: u128| !ids.contains(k) && m.contains_key(k) implies #[trigger] after_completions(m, ids, entries)[k] == m[k] by {
            if ids0.contains(k) {
                let j = choose|j: int| 0 <= j < ids0.len() && ids0[j] == k;
                assert(ids[j] == k);
            }
            assert(ids[ids.len() - 1] == ids.last());
        }
    } else {
        assert(ids.to_set() =~= Set::<u128>::empty());
        assert(after_completions(m, ids, entries).dom() =~= m.dom() + ids.to_set());
    }
}

} // verus!
