//! Data shapes of the analysis-request surface.

use vstd::prelude::*;

verus! {

/// Which kind of cohort data a request runs against.
#[derive(Clone, Copy, Debug, PartialEq, Eq, Structural)]
pub enum DataType {
    Synthetic,
    Sensitive,
}

/// A handle to the data an analysis runs on.
#[derive(Debug)]
pub enum AnalysisData {
    Synthetic(String),
    Sensitive(String),
}

/// Compute resources an analysis asks for.
#[derive(Clone, Copy, Debug, PartialEq, Eq, Structural)]
pub struct ResourceRequirements {
    pub cpu_cores: u32,
    pub memory_gb: u32,
    pub disk_space_gb: u32,
}

/// The runtime environment an analysis asks for.
#[derive(Debug)]
pub struct EnvironmentSpecs {
    pub language: String,
    pub version: String,
    pub dependencies: Vec<String>,
    pub resource_requirements: ResourceRequirements,
}

/// An analysis request: the cohort, the code, and the environment.
#[derive(Debug)]
pub struct AnalysisRequest {
    pub cohort_id: String,
    pub code_repository_url: String,
    pub environment_specs: EnvironmentSpecs,
    pub data_type: DataType,
}

/// Spec-level image of an `EnvironmentSpecs`.
pub ghost struct EnvironmentSpecsV {
    pub language: Seq<char>,
    pub version: Seq<char>,
    pub dependencies: Seq<Seq<char>>,
    pub resource_requirements: ResourceRequirements,
}

impl View for EnvironmentSpecs {
    type V = EnvironmentSpecsV;

    open spec fn view(&self) -> EnvironmentSpecsV {
        EnvironmentSpecsV {
            language: self.language@,
            version: self.version@,
            dependencies: self.dependencies.deep_view(),
            resource_requirements: self.resource_requirements,
        }
    }
}

/// Spec-level image of an `AnalysisRequest`.
pub ghost struct AnalysisRequestV {
    pub cohort_id: Seq<char>,
    pub code_repository_url: Seq<char>,
    pub environment_specs: EnvironmentSpecsV,
    pub data_type: DataType,
}

impl View for AnalysisRequest {
    type V = AnalysisRequestV;

    open spec fn view(&self) -> AnalysisRequestV {
        AnalysisRequestV {
            cohort_id: self.cohort_id@,
            code_repository_url: self.code_repository_url@,
            environment_specs: self.environment_specs@,
            data_type: self.data_type,
        }
    }
}

impl Clone for EnvironmentSpecs {
    fn clone(&self) -> (res: Self)
        ensures
            res@ == self@,
    {
        let dependencies = self.dependencies.clone();
        proof {
            assert forall|i: int| 0 <= i < self.dependencies@.len() implies dependencies@[i]
                == self.dependencies@[i] by {}
            assert(dependencies@ =~= self.dependencies@);
            assert(dependencies.deep_view() =~~= self.dependencies.deep_view());
        }
        EnvironmentSpecs {
            language: self.language.clone(),
            version: self.version.clone(),
            dependencies,
            resource_requirements: self.resource_requirements,
        }
    }
}

impl Clone for AnalysisRequest {
    fn clone(&self) -> (res: Self)
        ensures
            res@ == self@,
    {
        AnalysisRequest {
            cohort_id: self.cohort_id.clone(),
            code_repository_url: self.code_repository_url.clone(),
            environment_specs: self.environment_specs.clone(),
            data_type: self.data_type,
        }
    }
}

/// What a status query reports about a job.
#[derive(Debug)]
pub struct JobStatus {
    pub status: String,
    pub result_url: Option<String>,
}

/// A processed analysis outcome keyed by its job.
#[derive(Debug)]
pub struct AnalysisResult {
    pub job_id: String,
    pub result: String,
}

/// Spec-level image of a processed analysis outcome.
pub ghost struct AnalysisResultV {
    pub job_id: Seq<char>,
    pub result: Seq<char>,
}

impl View for AnalysisResult {
    type V = AnalysisResultV;

    open spec fn view(&self) -> AnalysisResultV {
        AnalysisResultV { job_id: self.job_id@, result: self.result@ }
    }
}

impl Clone for AnalysisResult {
    fn clone(&self) -> (res: Self)
        ensures
            res@ == self@,
    {
        AnalysisResult { job_id: self.job_id.clone(), result: self.result.clone() }
    }
}

} // verus!
