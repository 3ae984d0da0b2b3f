//! Storage for submitted code, keyed by a freshly drawn job id.

use vstd::prelude::*;
use crate::kvstore::StrMap;
use crate::api::shared_models::CodeSubmission;
use crate::api::ids::fresh_job_id;

verus! {

/// The submission store.
pub struct CodeStorage {
    pub submissions: StrMap<CodeSubmission>,
}

impl CodeStorage {
    pub open spec fn wf(&self) -> bool {
        self.submissions.wf()
    }

    pub fn new() -> (s: CodeStorage)
        ensures
            s.wf(),
            s.submissions.entries@.len() == 0,
    {
        CodeStorage { submissions: StrMap::new() }
    }

    /// Store the submission under a fresh job id and hand the id back.
    pub fn store_submission(&mut self, submission: CodeSubmission) -> (job_id: String)
        requires
            old(self).wf(),
        ensures
            final(self).wf(),
            job_id@.len() == 36,
            final(self).submissions.spec_get(job_id@) == Some(submission),
            forall|k: Seq<char>|
                k != job_id@ ==> #[trigger] final(self).submissions.spec_get(k) == old(
                    self,
                ).submissions.spec_get(k),
    {
        let job_id = fresh_job_id();
        let key = job_id.clone();
        self.submissions.insert(key, submission);
        job_id
    }

    /// A copy of the submission stored under the id, if any.
    pub fn get_submission(&self, job_id: &String) -> (r: Option<CodeSubmission>)
        ensures
            match r {
                Some(s) => self.submissions.spec_get(job_id@) matches Some(t) && s@ == t@,
                None => self.submissions.spec_get(job_id@) is None,
            },
    {
        match self.submissions.get(job_id) {
            Some(s) => Some(s.clone()),
            None => None,
        }
    }
}

} // verus!
