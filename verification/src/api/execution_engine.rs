//! The job queue and per-job status bookkeeping.

use vstd::prelude::*;
use crate::kvstore::StrMap;
use crate::api::shared_models::{CodeSubmission, AnalysisResult, AnalysisResultV};
use vstd::string::StringExecFns;

verus! {

/// Where one job stands, and its result once it has one.
#[derive(Debug)]
pub struct JobStatus {
    pub status: String,
    pub result: Option<AnalysisResult>,
}

/// Spec-level image of a `JobStatus`.
pub ghost struct JobStatusV {
    pub status: Seq<char>,
    pub result: Option<AnalysisResultV>,
}

impl View for JobStatus {
    type V = JobStatusV;

    open spec fn view(&self) -> JobStatusV {
        JobStatusV {
            status: self.status@,
            result: match self.result {
                Some(a) => Some(a@),
                None => None,
            },
        }
    }
}

impl Clone for JobStatus {
    fn clone(&self) -> (res: Self)
        ensures
            res@ == self@,
    {
        JobStatus {
            status: self.status.clone(),
            result: match &self.result {
                Some(a) => Some(a.clone()),
                None => None,
            },
        }
    }
}

/// The queue of submitted jobs and their statuses.
pub struct ExecutionEngine {
    pub job_queue: Vec<(String, CodeSubmission)>,
    pub job_statuses: StrMap<JobStatus>,
}

impl ExecutionEngine {
    pub open spec fn wf(&self) -> bool {
        self.job_statuses.wf()
    }

    pub fn new() -> (e: ExecutionEngine)
        ensures
            e.wf(),
            e.job_queue@.len() == 0,
            e.job_statuses.entries@.len() == 0,
    {
        ExecutionEngine { job_queue: Vec::new(), job_statuses: StrMap::new() }
    }

    /// Append the job to the queue and mark it queued.
    pub fn queue_job(&mut self, job_id: &String, submission: &CodeSubmission) -> (r: Result<
        (),
        String,
    >)
        requires
            old(self).wf(),
        ensures
            final(self).wf(),
            r is Ok,
            final(self).job_queue@.len() == old(self).job_queue@.len() + 1,
            final(self).job_queue@.last().0@ == job_id@,
            final(self).job_queue@.last().1@ == submission@,
            forall|i: int|
                0 <= i < old(self).job_queue@.len() ==> #[trigger] final(self).job_queue@[i] == old(
                    self,
                ).job_queue@[i],
            final(self).job_statuses.spec_get(job_id@) matches Some(st) && st.status@ == "Queued"@
                && st.result is None,
            forall|k: Seq<char>|
                k != job_id@ ==> #[trigger] final(self).job_statuses.spec_get(k) == old(
                    self,
                ).job_statuses.spec_get(k),
    {
        self.job_queue.push((job_id.clone(), submission.clone()));
        let status = JobStatus { status: String::from_str("Queued"), result: None };
        self.job_statuses.insert(job_id.clone(), status);
        Ok(())
    }

    /// A copy of the job's status record, if any.
    pub fn get_job_status(&self, job_id: &String) -> (r: Option<JobStatus>)
        ensures
            match r {
                Some(st) => self.job_statuses.spec_get(job_id@) matches Some(t) && st@ == t@,
                None => self.job_statuses.spec_get(job_id@) is None,
            },
    {
        match self.job_statuses.get(job_id) {
            Some(st) => Some(st.clone()),
            None => None,
        }
    }
}

} // verus!
