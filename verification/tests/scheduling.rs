use orbok::scheduling::{
    dispatch, error_kind_for, job_kind_for, observe, startup_queue_action, Dispatch, JobKind,
    JobType, ObservationState, ResourceObservation, StartupQueueAction, WorkerFailure,
};

#[test]
fn each_recorded_type_runs_as_its_kind_of_work() {
    assert_eq!(job_kind_for(JobType::Scan), JobKind::ScanSource);
    assert_eq!(job_kind_for(JobType::Extract), JobKind::ExtractFile);
    assert_eq!(job_kind_for(JobType::Chunk), JobKind::ChunkFile);
    assert_eq!(job_kind_for(JobType::KeywordIndex), JobKind::UpdateKeywordIndex);
    assert_eq!(job_kind_for(JobType::Embedding), JobKind::GenerateEmbedding);
    assert_eq!(job_kind_for(JobType::DeleteStale), JobKind::Cleanup);
    assert_eq!(job_kind_for(JobType::Rebuild), JobKind::Repair);
}

#[test]
fn jobs_are_dispatched_by_kind_file_and_model() {
    assert_eq!(dispatch(JobKind::ScanSource, false, false), Dispatch::Scan);
    assert_eq!(dispatch(JobKind::ExtractFile, true, false), Dispatch::Extract);
    assert_eq!(dispatch(JobKind::ExtractFile, false, true), Dispatch::Nothing);
    assert_eq!(dispatch(JobKind::ChunkFile, true, false), Dispatch::Chunk);
    assert_eq!(dispatch(JobKind::UpdateKeywordIndex, true, false), Dispatch::Chunk);
    assert_eq!(dispatch(JobKind::GenerateEmbedding, true, true), Dispatch::Embed);
    assert_eq!(dispatch(JobKind::GenerateEmbedding, true, false), Dispatch::ModelMissing);
    assert_eq!(dispatch(JobKind::Cleanup, true, true), Dispatch::Nothing);
}

#[test]
fn a_failure_is_categorized_for_retry() {
    assert_eq!(error_kind_for(WorkerFailure::Embedding { category: "model_missing" }), "model_missing");
    assert_eq!(error_kind_for(WorkerFailure::Other), "worker_error");
}

#[test]
fn background_indexing_decides_resume_or_pause_at_startup() {
    assert_eq!(startup_queue_action(true), StartupQueueAction::Resume);
    assert_eq!(startup_queue_action(false), StartupQueueAction::Pause);
}

const START: ObservationState = ObservationState { last_user_activity: None, on_battery: false };

#[test]
fn user_activity_counts_until_the_idle_timeout() {
    let (held, active, _) = observe(START, &vec![ResourceObservation::UserActive], 1000, true);
    assert!(active);
    assert_eq!(held.last_user_activity, Some(1000));
    let (held, active, _) = observe(held, &Vec::new(), 2999, true);
    assert!(active);
    let (held, active, _) = observe(held, &Vec::new(), 3000, true);
    assert!(!active);
    assert_eq!(held.last_user_activity, None);
}

#[test]
fn low_impact_survives_a_user_activity_interleaving() {
    let (held, _, on_battery) =
        observe(START, &vec![ResourceObservation::OnBattery(true)], 0, true);
    assert!(on_battery);
    let (held, active, on_battery) =
        observe(held, &vec![ResourceObservation::UserActive], 10, true);
    assert!(active && on_battery);
    let (_, active, on_battery) = observe(held, &Vec::new(), 5000, true);
    assert!(!active);
    assert!(on_battery, "the battery state is still held once activity stops");
}

#[test]
fn on_battery_does_not_count_when_the_setting_is_disabled() {
    let (held, _, on_battery) =
        observe(START, &vec![ResourceObservation::OnBattery(true)], 0, false);
    assert!(!on_battery);
    assert!(held.on_battery, "the detector's report is still held");
}
