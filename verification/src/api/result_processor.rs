//! Processed analysis results, ready to hand back to callers.

use vstd::prelude::*;
use crate::kvstore::StrMap;
use crate::api::models::AnalysisResult;
use vstd::string::StringExecFns;

verus! {

/// The processed-result store.
pub struct ResultProcessor {
    pub results: StrMap<AnalysisResult>,
}

impl ResultProcessor {
    pub open spec fn wf(&self) -> bool {
        self.results.wf()
    }

    pub fn new() -> (p: ResultProcessor)
        ensures
            p.wf(),
            p.results.entries@.len() == 0,
    {
        ResultProcessor { results: StrMap::new() }
    }

    /// Record the result under its job id, replacing any earlier one.
    pub fn process_result(&mut self, result: AnalysisResult) -> (r: Result<(), String>)
        requires
            old(self).wf(),
        ensures
            final(self).wf(),
            r is Ok,
            final(self).results.spec_get(result.job_id@) == Some(result),
            forall|k: Seq<char>|
                k != result.job_id@ ==> #[trigger] final(self).results.spec_get(k) == old(
                    self,
                ).results.spec_get(k),
    {
        let key = result.job_id.clone();
        self.results.insert(key, result);
        Ok(())
    }

    /// The stored result text for the job, or an error when none is stored.
    pub fn get_processed_result(&self, job_id: &String) -> (r: Result<String, String>)
        ensures
            match self.results.spec_get(job_id@) {
                Some(a) => r matches Ok(s) && s@ == a.result@,
                None => r is Err,
            },
    {
        match self.results.get(job_id) {
            Some(a) => Ok(a.result.clone()),
            None => Err(String::from_str("Result not found")),
        }
    }
}

} // verus!
