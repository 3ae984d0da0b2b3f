use h_bank::api::analysis::{JobStatus as AnalysisJobStatus, PublicApi};
use h_bank::api::archive_system::ArchiveSystem;
use h_bank::api::code_storage::CodeStorage;
use h_bank::api::data_manager::DataManager;
use h_bank::api::execution_engine::ExecutionEngine;
use h_bank::api::models::{
    AnalysisRequest, AnalysisResult as ProcessedResult, DataType, EnvironmentSpecs,
    ResourceRequirements,
};
use h_bank::api::result_processor::ResultProcessor;
use h_bank::api::shared_models::{AnalysisResult, CodeSubmission, ExecutionMode};
use h_bank::data_generation::SyntheticDataGenerator;

fn submission(cohort: &str) -> CodeSubmission {
    CodeSubmission {
        cohort_id: cohort.to_string(),
        wasm_code: vec![0, 1, 2, 3],
        entry_point: "main".to_string(),
        data_dir: "/data/cohort".to_string(),
        execution_mode: ExecutionMode::Local,
    }
}

fn request(cohort: &str) -> AnalysisRequest {
    AnalysisRequest {
        cohort_id: cohort.to_string(),
        code_repository_url: "https://example.test/analysis".to_string(),
        environment_specs: EnvironmentSpecs {
            language: "Python".to_string(),
            version: "3.9".to_string(),
            dependencies: vec!["numpy".to_string()],
            resource_requirements: ResourceRequirements {
                cpu_cores: 4,
                memory_gb: 16,
                disk_space_gb: 100,
            },
        },
        data_type: DataType::Synthetic,
    }
}

#[test]
fn code_storage_round_trips_submissions() {
    let mut storage = CodeStorage::new();
    let job_id = storage.store_submission(submission("cohort_1"));
    assert_eq!(job_id.len(), 36);
    assert_eq!(storage.submissions.len(), 1);
    let fetched = storage.get_submission(&job_id).unwrap();
    assert_eq!(fetched.cohort_id, "cohort_1");
    assert_eq!(fetched.wasm_code, vec![0, 1, 2, 3]);
    assert_eq!(fetched.entry_point, "main");
    assert!(storage.get_submission(&"missing".to_string()).is_none());
}

#[test]
fn archive_round_trips_submissions() {
    let mut archive = ArchiveSystem::new();
    archive
        .store_submission(&"job-1".to_string(), &submission("cohort_2"))
        .unwrap();
    let fetched = archive.retrieve_submission(&"job-1".to_string()).unwrap();
    assert_eq!(fetched.cohort_id, "cohort_2");
    assert!(archive.retrieve_submission(&"job-2".to_string()).is_none());
}

#[test]
fn data_manager_stores_results_and_ids() {
    let mut mgr = DataManager::new();
    let result = AnalysisResult {
        job_id: "job-7".to_string(),
        status: "done".to_string(),
        result: Some("42".to_string()),
        error: None,
    };
    mgr.store_analysis_result(&result).unwrap();
    let fetched = mgr.get_analysis_result(&"job-7".to_string()).unwrap();
    assert_eq!(fetched.status, "done");
    assert_eq!(fetched.result.as_deref(), Some("42"));
    assert!(mgr.get_analysis_result(&"job-8".to_string()).is_none());

    // Storing under the same job id replaces the earlier result.
    let updated = AnalysisResult {
        job_id: "job-7".to_string(),
        status: "revised".to_string(),
        result: None,
        error: Some("timeout".to_string()),
    };
    mgr.store_analysis_result(&updated).unwrap();
    let again = mgr.get_analysis_result(&"job-7".to_string()).unwrap();
    assert_eq!(again.status, "revised");
    assert_eq!(again.error.as_deref(), Some("timeout"));

    assert!(!mgr.validate_server_app_id(&"app-1".to_string()));
    mgr.add_valid_server_app_id("app-1".to_string());
    assert!(mgr.validate_server_app_id(&"app-1".to_string()));
    mgr.add_valid_server_app_id("app-1".to_string());
    assert!(mgr.validate_server_app_id(&"app-1".to_string()));
    assert!(!mgr.validate_server_app_id(&"app-2".to_string()));
}

#[test]
fn result_processor_hands_back_stored_results() {
    let mut proc = ResultProcessor::new();
    proc.process_result(ProcessedResult {
        job_id: "job-3".to_string(),
        result: "summary".to_string(),
    })
    .unwrap();
    assert_eq!(proc.get_processed_result(&"job-3".to_string()).unwrap(), "summary");
    assert!(proc.get_processed_result(&"job-4".to_string()).is_err());
}

#[test]
fn execution_engine_queues_jobs() {
    let mut engine = ExecutionEngine::new();
    engine
        .queue_job(&"job-5".to_string(), &submission("cohort_3"))
        .unwrap();
    let status = engine.get_job_status(&"job-5".to_string()).unwrap();
    assert_eq!(status.status, "Queued");
    assert!(status.result.is_none());
    assert!(engine.get_job_status(&"job-6".to_string()).is_none());
}

#[test]
fn public_api_runs_a_job_through_its_states() {
    let mut api = PublicApi::new();
    let response = api.submit_analysis(request("cohort_1")).unwrap();
    assert!(matches!(response.status, AnalysisJobStatus::Queued));
    assert_eq!(response.job_id.len(), 36);

    let status = api.get_job_status(&response.job_id).unwrap();
    assert!(matches!(status.status, AnalysisJobStatus::Queued));
    assert!(status.result_url.is_none());

    // The result is not available until the job completes.
    assert!(api.get_result(&response.job_id).is_err());

    api.mark_job_completed(&response.job_id).unwrap();
    let done = api.get_job_status(&response.job_id).unwrap();
    assert!(matches!(done.status, AnalysisJobStatus::Completed));
    let url = done.result_url.unwrap();
    assert_eq!(url, format!("/api/analysis/{}/result", response.job_id));

    let result = api.get_result(&response.job_id).unwrap();
    assert_eq!(result, format!("Simulated result for job {}", response.job_id));

    assert!(api.get_job_status(&"unknown".to_string()).is_err());
    assert!(api.get_result(&"unknown".to_string()).is_err());
    assert!(api.mark_job_completed(&"unknown".to_string()).is_err());
}

#[test]
fn synthetic_data_generator_keeps_its_base_path() {
    let gen = SyntheticDataGenerator::new("/srv/synthetic".to_string());
    assert_eq!(gen.base_data_path, "/srv/synthetic");
}
