//! Data shapes shared between the storage, archive, and execution pieces.

use vstd::prelude::*;

verus! {

/// Where submitted code runs: on the borrower's server or on the central
/// one.
#[derive(Clone, Copy, Debug, PartialEq, Eq, Structural)]
pub enum ExecutionMode {
    Local,
    Remote,
}

/// A request to lay out synthetic data for a cohort.
#[derive(Debug)]
pub struct SyntheticDataSetup {
    pub cohort_id: String,
    pub data_dir: String,
    pub status: String,
}

/// A code submission: the module to run and where its data lives.
#[derive(Debug)]
pub struct CodeSubmission {
    pub cohort_id: String,
    pub wasm_code: Vec<u8>,
    pub entry_point: String,
    pub data_dir: String,
    pub execution_mode: ExecutionMode,
}

/// Spec-level image of a `CodeSubmission`.
pub ghost struct CodeSubmissionV {
    pub cohort_id: Seq<char>,
    pub wasm_code: Seq<u8>,
    pub entry_point: Seq<char>,
    pub data_dir: Seq<char>,
    pub execution_mode: ExecutionMode,
}

impl View for CodeSubmission {
    type V = CodeSubmissionV;

    open spec fn view(&self) -> CodeSubmissionV {
        CodeSubmissionV {
            cohort_id: self.cohort_id@,
            wasm_code: self.wasm_code@,
            entry_point: self.entry_point@,
            data_dir: self.data_dir@,
            execution_mode: self.execution_mode,
        }
    }
}

impl Clone for CodeSubmission {
    fn clone(&self) -> (res: Self)
        ensures
            res@ == self@,
    {
        let wasm_code = self.wasm_code.clone();
        proof {
            assert forall|i: int| 0 <= i < self.wasm_code@.len() implies wasm_code@[i]
                == self.wasm_code@[i] by {}
            assert(wasm_code@ =~= self.wasm_code@);
        }
        CodeSubmission {
            cohort_id: self.cohort_id.clone(),
            wasm_code,
            entry_point: self.entry_point.clone(),
            data_dir: self.data_dir.clone(),
            execution_mode: self.execution_mode,
        }
    }
}

/// The outcome of one analysis job.
#[derive(Debug)]
pub struct AnalysisResult {
    pub job_id: String,
    pub status: String,
    pub result: Option<String>,
    pub error: Option<String>,
}

/// Spec-level image of an `AnalysisResult`.
pub ghost struct AnalysisResultV {
    pub job_id: Seq<char>,
    pub status: Seq<char>,
    pub result: Option<Seq<char>>,
    pub error: Option<Seq<char>>,
}

impl View for AnalysisResult {
    type V = AnalysisResultV;

    open spec fn view(&self) -> AnalysisResultV {
        AnalysisResultV {
            job_id: self.job_id@,
            status: self.status@,
            result: match self.result {
                Some(s) => Some(s@),
                None => None,
            },
            error: match self.error {
                Some(s) => Some(s@),
                None => None,
            },
        }
    }
}

impl Clone for AnalysisResult {
    fn clone(&self) -> (res: Self)
        ensures
            res@ == self@,
    {
        AnalysisResult {
            job_id: self.job_id.clone(),
            status: self.status.clone(),
            result: match &self.result {
                Some(s) => Some(s.clone()),
                None => None,
            },
            error: match &self.error {
                Some(s) => Some(s.clone()),
                None => None,
            },
        }
    }
}

} // verus!
