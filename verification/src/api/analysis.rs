//! The public analysis surface: submit a request, poll its status, fetch
//! its result.

use vstd::prelude::*;
use crate::kvstore::StrMap;
use crate::api::models::AnalysisRequest;
use crate::api::ids::fresh_job_id;
use vstd::string::StringExecFns;

verus! {

/// Where a submitted job stands.
#[derive(Debug)]
pub enum JobStatus {
    Queued,
    Running,
    Completed,
    Failed(String),
}

/// Two status values that read the same.
pub open spec fn same_status(a: JobStatus, b: JobStatus) -> bool {
    match (a, b) {
        (JobStatus::Queued, JobStatus::Queued) => true,
        (JobStatus::Running, JobStatus::Running) => true,
        (JobStatus::Completed, JobStatus::Completed) => true,
        (JobStatus::Failed(x), JobStatus::Failed(y)) => x@ == y@,
        _ => false,
    }
}

impl Clone for JobStatus {
    fn clone(&self) -> (res: Self)
        ensures
            same_status(res, *self),
    {
        match self {
            JobStatus::Queued => JobStatus::Queued,
            JobStatus::Running => JobStatus::Running,
            JobStatus::Completed => JobStatus::Completed,
            JobStatus::Failed(s) => JobStatus::Failed(s.clone()),
        }
    }
}

/// The answer to a submission: the fresh job id and its initial status.
#[derive(Debug)]
pub struct AnalysisResponse {
    pub job_id: String,
    pub status: JobStatus,
}

/// The answer to a status query.
#[derive(Debug)]
pub struct JobStatusResponse {
    pub job_id: String,
    pub status: JobStatus,
    pub result_url: Option<String>,
}

/// A failure of the public surface, with a human-readable cause.
#[derive(Debug)]
pub struct ApiError(pub String);

/// The public surface: submitted jobs and where each stands.
pub struct PublicApi {
    pub jobs: StrMap<(AnalysisRequest, JobStatus)>,
}

impl PublicApi {
    pub open spec fn wf(&self) -> bool {
        self.jobs.wf()
    }

    pub fn new() -> (api: PublicApi)
        ensures
            api.wf(),
            api.jobs.entries@.len() == 0,
    {
        PublicApi { jobs: StrMap::new() }
    }

    /// Register the request under a fresh job id, initially queued.
    pub fn submit_analysis(&mut self, request: AnalysisRequest) -> (r: Result<
        AnalysisResponse,
        ApiError,
    >)
        requires
            old(self).wf(),
        ensures
            final(self).wf(),
            r matches Ok(resp) && {
                &&& resp.job_id@.len() == 36
                &&& resp.status is Queued
                &&& final(self).jobs.spec_get(resp.job_id@) matches Some(e) && e.0 == request
                    && e.1 is Queued
                &&& forall|k: Seq<char>|
                    k != resp.job_id@ ==> #[trigger] final(self).jobs.spec_get(k) == old(
                        self,
                    ).jobs.spec_get(k)
            },
    {
        let job_id = fresh_job_id();
        self.jobs.insert(job_id.clone(), (request, JobStatus::Queued));
        Ok(AnalysisResponse { job_id, status: JobStatus::Queued })
    }

    /// Report where the job stands; a completed job also reports where its
    /// result can be fetched.
    pub fn get_job_status(&self, job_id: &String) -> (r: Result<JobStatusResponse, ApiError>)
        ensures
            match self.jobs.spec_get(job_id@) {
                Some(e) => r matches Ok(resp) && {
                    &&& resp.job_id@ == job_id@
                    &&& same_status(resp.status, e.1)
                    &&& (resp.result_url is Some <==> e.1 is Completed)
                },
                None => r is Err,
            },
    {
        match self.jobs.get(job_id) {
            None => Err(ApiError(String::from_str("Job not found"))),
            Some(entry) => {
                let status = entry.1.clone();
                let result_url: Option<String> = match &entry.1 {
                    JobStatus::Completed => {
                        let mut url = String::from_str("/api/analysis/");
                        url.append(job_id.as_str());
                        url.append("/result");
                        Some(url)
                    },
                    _ => None,
                };
                Ok(JobStatusResponse { job_id: job_id.clone(), status, result_url })
            },
        }
    }

    /// Hand back the result of a completed job; a job that is absent or not
    /// yet completed yields an error.
    pub fn get_result(&self, job_id: &String) -> (r: Result<String, ApiError>)
        ensures
            match self.jobs.spec_get(job_id@) {
                Some(e) => if e.1 is Completed {
                    r is Ok
                } else {
                    r is Err
                },
                None => r is Err,
            },
    {
        match self.jobs.get(job_id) {
            None => Err(ApiError(String::from_str("Job not found"))),
            Some(entry) => {
                match &entry.1 {
                    JobStatus::Completed => {
                        let mut out = String::from_str("Simulated result for job ");
                        out.append(job_id.as_str());
                        Ok(out)
                    },
                    _ => Err(ApiError(String::from_str("Job not completed yet"))),
                }
            },
        }
    }

    /// Mark the job completed, so its result can be fetched.
    pub fn mark_job_completed(&mut self, job_id: &String) -> (r: Result<(), ApiError>)
        requires
            old(self).wf(),
        ensures
            final(self).wf(),
            match old(self).jobs.spec_get(job_id@) {
                Some(e) => {
                    &&& r is Ok
                    &&& final(self).jobs.spec_get(job_id@) matches Some(e2) && e2.0@ == e.0@
                        && e2.1 is Completed
                    &&& forall|k: Seq<char>|
                        k != job_id@ ==> #[trigger] final(self).jobs.spec_get(k) == old(
                            self,
                        ).jobs.spec_get(k)
                },
                None => r is Err && final(self).jobs == old(self).jobs,
            },
    {
        match self.jobs.get(job_id) {
            None => Err(ApiError(String::from_str("Job not found"))),
            Some(entry) => {
                let request = entry.0.clone();
                self.jobs.insert(job_id.clone(), (request, JobStatus::Completed));
                Ok(())
            },
        }
    }
}

} // verus!
