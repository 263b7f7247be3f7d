//! Scheduled jobs: their definitions and the in-memory job table.
use crate::clock::epoch_millis;
use crate::error::Error;
use crate::table::NameTable;
use crate::text::concat2;
use vstd::prelude::*;

verus! {

/// When a job runs.
#[derive(Debug, Clone)]
pub enum CronSchedule {
    /// Once, at this time (milliseconds since the epoch).
    At(i64),
    /// Every this many milliseconds.
    Every(i64),
    /// By a cron expression such as `0 0 * * *`.
    Cron(String),
}

/// What a job does.
#[derive(Debug, Clone)]
pub struct CronPayload {
    pub kind: String,
    pub message: String,
    pub command: Option<String>,
    pub deliver: bool,
    pub channel: Option<String>,
    pub to: Option<String>,
}

/// The run state of a job.
#[derive(Debug, Clone)]
pub struct CronJobState {
    pub next_run_at_ms: Option<i64>,
    pub last_run_at_ms: Option<i64>,
    pub last_status: Option<String>,
    pub last_error: Option<String>,
}

/// A job definition.
#[derive(Debug, Clone)]
pub struct CronJob {
    pub id: String,
    pub name: String,
    pub enabled: bool,
    pub schedule: CronSchedule,
    pub payload: CronPayload,
    pub state: CronJobState,
    pub created_at_ms: i64,
    pub updated_at_ms: i64,
    pub delete_after_run: bool,
}

/// Whether `stored` is `job` registered with id `id` at time `now`.
pub open spec fn is_stamped(stored: CronJob, job: CronJob, id: Seq<char>, now: i64) -> bool {
    &&& stored.id@ == id
    &&& stored.created_at_ms == now
    &&& stored.updated_at_ms == now
    &&& stored.name == job.name
    &&& stored.enabled == job.enabled
    &&& stored.schedule == job.schedule
    &&& stored.payload == job.payload
    &&& stored.state == job.state
    &&& stored.delete_after_run == job.delete_after_run
}

/// Whether `e` is the error for an unknown job id.
pub open spec fn is_job_not_found(e: Error, id: Seq<char>) -> bool {
    e matches Error::Internal(m) && m@ == "Job not found: "@ + id
}

/// Calls `uuid::Uuid::new_v4` and formats the id. The id is random; uuid formats it
/// hyphenated, in 36 characters.
#[verifier::external_body]
fn fresh_job_id() -> (r: String)
    ensures
        r@.len() == 36,
{
    uuid::Uuid::new_v4().to_string()
}

/// The in-memory table of jobs, keyed by job id.
#[derive(Debug)]
pub struct CronService {
    pub jobs: NameTable<CronJob>,
}

impl View for CronService {
    type V = Map<Seq<char>, CronJob>;

    open spec fn view(&self) -> Map<Seq<char>, CronJob> {
        self.jobs@
    }
}

impl CronService {
    /// The service's invariant.
    pub open spec fn wf(&self) -> bool {
        self.jobs.wf()
    }

    /// A service without jobs.
    pub fn new() -> (r: Self)
        ensures
            r.wf(),
            r@ == Map::<Seq<char>, CronJob>::empty(),
    {
        CronService { jobs: NameTable::new() }
    }

    /// Stores `job` under its own id as it is, replacing a job with the same id; used
    /// for jobs read back from storage.
    pub fn restore_job(&mut self, job: CronJob)
        requires
            old(self).wf(),
        ensures
            final(self).wf(),
            final(self)@ == old(self)@.insert(job.id@, job),
    {
        let id = job.id.clone();
        self.jobs.insert(id, job);
    }

    /// Adds `job` with the given fresh id (used when the job has none) and time: the
    /// job keeps a non-empty id of its own, gets both timestamps set to `now`, and
    /// replaces any job with the same id. Returns the job's id.
    pub fn add_job_at(&mut self, job: CronJob, fresh_id: String, now: i64) -> (r: String)
        requires
            old(self).wf(),
        ensures
            final(self).wf(),
            r@ == if job.id@.len() == 0 { fresh_id@ } else { job.id@ },
            final(self)@.contains_key(r@),
            final(self)@ == old(self)@.insert(r@, final(self)@[r@]),
            is_stamped(final(self)@[r@], job, r@, now),
    {
        let mut job = job;
        if job.id.as_str().unicode_len() == 0 {
            job.id = fresh_id;
        }
        job.created_at_ms = now;
        job.updated_at_ms = now;
        let id = job.id.clone();
        let key = job.id.clone();
        self.jobs.insert(key, job);
        id
    }

    /// Adds `job`, stamped with the current time and given a random id when it has
    /// none, and returns its id. It reads the clock, so whether it succeeds is left to
    /// the clock: a failure is an internal error that leaves the jobs as they were.
    pub fn add_job(&mut self, job: CronJob) -> (r: Result<String, Error>)
        requires
            old(self).wf(),
        ensures
            final(self).wf(),
            match r {
                Ok(id) => {
                    &&& (job.id@.len() != 0 ==> id@ == job.id@)
                    &&& (job.id@.len() == 0 ==> id@.len() == 36)
                    &&& final(self)@.contains_key(id@)
                    &&& final(self)@ == old(self)@.insert(id@, final(self)@[id@])
                    &&& exists|t: i64| is_stamped(final(self)@[id@], job, id@, t)
                },
                Err(e) => *final(self) == *old(self) && e is Internal,
            },
    {
        let now = match epoch_millis() {
            Some(ms) => #[verifier::truncate] (ms as i64),
            None => return Err(Error::internal("System clock is before the Unix epoch")),
        };
        let fresh = if job.id.as_str().unicode_len() == 0 { fresh_job_id() } else { String::new() };
        let ghost j = job;
        let id = self.add_job_at(job, fresh, now);
        assert(is_stamped(self@[id@], j, id@, now));
        assert(j.id@.len() != 0 ==> id@ == j.id@);
        assert(j.id@.len() == 0 ==> id@.len() == 36);
        assert(self@.contains_key(id@));
        assert(self@ == old(self)@.insert(id@, self@[id@]));
        assert(exists|t: i64| is_stamped(self@[id@], j, id@, t));
        Ok(id)
    }

    /// The job with id `job_id`, or the internal error `Job not found: {id}`.
    pub fn get_job(&self, job_id: &str) -> (r: Result<&CronJob, Error>)
        requires
            self.wf(),
        ensures
            match r {
                Ok(j) => self@.contains_key(job_id@) && self@[job_id@] == *j,
                Err(e) => !self@.contains_key(job_id@) && is_job_not_found(e, job_id@),
            },
    {
        match self.jobs.get(job_id) {
            Some(j) => Ok(j),
            None => Err(Error::Internal(concat2("Job not found: ", job_id))),
        }
    }

    /// All jobs, in the order of their ids' first registration.
    pub fn list_jobs(&self) -> (r: Vec<&CronJob>)
        ensures
            r.len() == self.jobs.entries.len(),
            forall|i: int| 0 <= i < r.len() ==> *#[trigger] r@[i] == self.jobs.entries@[i].1,
    {
        let mut r: Vec<&CronJob> = Vec::new();
        let mut i: usize = 0;
        while i < self.jobs.entries.len()
            invariant
                i <= self.jobs.entries.len(),
                r.len() == i,
                forall|k: int| 0 <= k < i ==> *#[trigger] r@[k] == self.jobs.entries@[k].1,
            decreases self.jobs.entries.len() - i,
        {
            r.push(&self.jobs.entries[i].1);
            i = i + 1;
        }
        r
    }

    /// Deletes the job with id `job_id`, if there is one. This always succeeds.
    pub fn delete_job(&mut self, job_id: &str) -> (r: Result<(), Error>)
        requires
            old(self).wf(),
        ensures
            final(self).wf(),
            final(self)@ == old(self)@.remove(job_id@),
            r is Ok,
    {
        let _ = self.jobs.remove(job_id);
        Ok(())
    }
}

} // verus!
