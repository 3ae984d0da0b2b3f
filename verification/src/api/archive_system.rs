//! The archive of code submissions, keyed by job id.

use vstd::prelude::*;
use crate::kvstore::StrMap;
use crate::api::shared_models::CodeSubmission;

verus! {

/// The archive store.
pub struct ArchiveSystem {
    pub archives: StrMap<CodeSubmission>,
}

impl ArchiveSystem {
    pub open spec fn wf(&self) -> bool {
        self.archives.wf()
    }

    pub fn new() -> (s: ArchiveSystem)
        ensures
            s.wf(),
            s.archives.entries@.len() == 0,
    {
        ArchiveSystem { archives: StrMap::new() }
    }

    /// Archive a copy of the submission under the job id, replacing any
    /// earlier archive entry for the job.
    pub fn store_submission(&mut self, job_id: &String, submission: &CodeSubmission) -> (r: Result<
        (),
        String,
    >)
        requires
            old(self).wf(),
        ensures
            final(self).wf(),
            r is Ok,
            final(self).archives.spec_get(job_id@) matches Some(s) && s@ == submission@,
            forall|k: Seq<char>|
                k != job_id@ ==> #[trigger] final(self).archives.spec_get(k) == old(
                    self,
                ).archives.spec_get(k),
    {
        let key = job_id.clone();
        self.archives.insert(key, submission.clone());
        Ok(())
    }

    /// A copy of the archived submission for the job, if any.
    pub fn retrieve_submission(&self, job_id: &String) -> (r: Option<CodeSubmission>)
        ensures
            match r {
                Some(s) => self.archives.spec_get(job_id@) matches Some(t) && s@ == t@,
                None => self.archives.spec_get(job_id@) is None,
            },
    {
        match self.archives.get(job_id) {
            Some(s) => Some(s.clone()),
            None => None,
        }
    }
}

} // verus!
