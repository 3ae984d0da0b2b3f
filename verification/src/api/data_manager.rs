//! Analysis results keyed by job, and the set of server application ids
//! allowed to query them.

use vstd::prelude::*;
use crate::kvstore::StrMap;
use crate::api::shared_models::AnalysisResult;

verus! {

/// The spec-level image of the registered server application ids.
pub open spec fn id_list_views(ids: Seq<String>) -> Seq<Seq<char>> {
    ids.map_values(|s: String| s@)
}

/// The result store and the id allow-list.
pub struct DataManager {
    pub analysis_results: StrMap<AnalysisResult>,
    pub valid_server_app_ids: Vec<String>,
}

impl DataManager {
    pub open spec fn wf(&self) -> bool {
        self.analysis_results.wf()
    }

    pub fn new() -> (m: DataManager)
        ensures
            m.wf(),
            m.analysis_results.entries@.len() == 0,
            m.valid_server_app_ids@.len() == 0,
    {
        DataManager { analysis_results: StrMap::new(), valid_server_app_ids: Vec::new() }
    }

    /// Store a copy of the result under its job id, replacing any earlier
    /// result for the job.
    pub fn store_analysis_result(&mut self, result: &AnalysisResult) -> (r: Result<(), String>)
        requires
            old(self).wf(),
        ensures
            final(self).wf(),
            r is Ok,
            final(self).analysis_results.spec_get(result.job_id@) matches Some(a) && a@ == result@,
            forall|k: Seq<char>|
                k != result.job_id@ ==> #[trigger] final(self).analysis_results.spec_get(k) == old(
                    self,
                ).analysis_results.spec_get(k),
            final(self).valid_server_app_ids == old(self).valid_server_app_ids,
    {
        let copy = result.clone();
        let key = copy.job_id.clone();
        proof {
            assert(key@ == result.job_id@);
        }
        self.analysis_results.insert(key, copy);
        Ok(())
    }

    /// A copy of the result stored under the job id, if any.
    pub fn get_analysis_result(&self, job_id: &String) -> (r: Option<AnalysisResult>)
        ensures
            match r {
                Some(a) => self.analysis_results.spec_get(job_id@) matches Some(b) && a@ == b@,
                None => self.analysis_results.spec_get(job_id@) is None,
            },
    {
        match self.analysis_results.get(job_id) {
            Some(a) => Some(a.clone()),
            None => None,
        }
    }

    /// Whether the id is on the allow-list.
    pub fn validate_server_app_id(&self, server_app_id: &String) -> (r: bool)
        ensures
            r == id_list_views(self.valid_server_app_ids@).contains(server_app_id@),
    {
        let n = self.valid_server_app_ids.len();
        let mut i: usize = 0;
        while i < n
            invariant
                i <= n,
                n == self.valid_server_app_ids@.len(),
                forall|k: int|
                    0 <= k < i ==> #[trigger] id_list_views(self.valid_server_app_ids@)[k]
                        != server_app_id@,
            decreases n - i,
        {
            proof {
                assert(id_list_views(self.valid_server_app_ids@)[i as int]
                    == self.valid_server_app_ids@[i as int]@);
            }
            if self.valid_server_app_ids[i] == *server_app_id {
                return true;
            }
            i = i + 1;
        }
        false
    }

    /// Put the id on the allow-list; ids already on it stay as they are.
    pub fn add_valid_server_app_id(&mut self, server_app_id: String)
        requires
            old(self).wf(),
        ensures
            final(self).wf(),
            forall|x: Seq<char>|
                #[trigger] id_list_views(final(self).valid_server_app_ids@).contains(x) <==> (
                id_list_views(old(self).valid_server_app_ids@).contains(x) || x
                    == server_app_id@),
            final(self).analysis_results == old(self).analysis_results,
    {
        let ghost pre = self.valid_server_app_ids@;
        let ghost idv = server_app_id@;
        let present = self.validate_server_app_id(&server_app_id);
        if !present {
            self.valid_server_app_ids.push(server_app_id);
            proof {
                assert(id_list_views(self.valid_server_app_ids@) =~= id_list_views(pre).push(idv));
                assert forall|x: Seq<char>| #[trigger]
                    id_list_views(self.valid_server_app_ids@).contains(x) <==> (id_list_views(
                    pre,
                ).contains(x) || x == idv) by {
                    let post = id_list_views(self.valid_server_app_ids@);
                    if post.contains(x) {
                        let iw = choose|iw: int| 0 <= iw < post.len() && post[iw] == x;
                        if iw < id_list_views(pre).len() {
                            assert(id_list_views(pre)[iw] == x);
                        }
                    }
                    if id_list_views(pre).contains(x) {
                        let iw = choose|iw: int|
                            0 <= iw < id_list_views(pre).len() && id_list_views(pre)[iw] == x;
                        assert(post[iw] == x);
                    }
                    if x == idv {
                        assert(post.last() == x);
                    }
                }
            }
        }
    }
}

} // verus!
