use orbok::model_flow::{
    resolve_model_dir,
    execute_persistence, map_artifact, map_delivery_error, project_startup, reduce,
    ModelArtifact, ModelDeliveryError, ModelDeliveryFailure, ModelDownloadConsent, ModelFlowEffect,
    ModelFlowMessage, ModelFlowState, ModelPersistenceResult, ModelPersistenceState,
    ModelPreferenceStore, ModelProvenance, SearchCapability, VerifyOutcome, WizardState,
};
use std::cell::RefCell;

#[derive(Debug, Clone, Copy, PartialEq, Eq)]
enum ConsentReturn {
    NotConfigured,
}

fn consent_state() -> ModelFlowState<ConsentReturn> {
    let mut state = ModelFlowState::new();
    state.wizard = Some(WizardState::DownloadConsent {
        presentation: ModelDownloadConsent {
            destination: "/managed/models".into(),
        },
        return_to: ConsentReturn::NotConfigured,
    });
    state
}

#[test]
fn confirmation_is_synchronous_and_duplicate_safe() {
    let mut state = consent_state();
    assert_eq!(
        reduce(&mut state, ModelFlowMessage::ConfirmModelDownload),
        Some(ModelFlowEffect::StartManagedDownload)
    );
    assert!(matches!(
        state.wizard,
        Some(WizardState::Downloading { .. })
    ));
    assert_eq!(
        reduce(&mut state, ModelFlowMessage::ConfirmModelDownload),
        Some(ModelFlowEffect::NoWork)
    );
}

#[test]
fn wizard_accept_outside_ready_is_defensive() {
    let mut state: ModelFlowState<ConsentReturn> = ModelFlowState::new();
    state.wizard = Some(WizardState::NotConfigured);
    assert_eq!(
        reduce(&mut state, ModelFlowMessage::WizardAccept),
        Some(ModelFlowEffect::NoWork)
    );
    assert_eq!(state.capability, SearchCapability::KeywordOnly);
    assert!(matches!(state.wizard, Some(WizardState::NotConfigured)));
}

fn ready_state() -> ModelFlowState<ConsentReturn> {
    let mut state = ModelFlowState::new();
    reduce(
        &mut state,
        ModelFlowMessage::WizardChecked {
            model_dir: "/user/model".into(),
            checks: Vec::new(),
            all_ok: true,
        },
    );
    state
}

fn persistence_effect(state: &mut ModelFlowState<ConsentReturn>) -> ModelFlowEffect {
    reduce(state, ModelFlowMessage::WizardAccept).unwrap()
}

#[test]
fn persistence_requires_an_exact_correlated_completion() {
    let mut state = ready_state();
    let effect = persistence_effect(&mut state);
    let ModelFlowEffect::PersistReady {
        ready_id,
        persistence_attempt_id,
        model_dir,
        provenance,
    } = effect
    else {
        panic!("expected persistence effect")
    };
    let wrong_attempt = state
        .model_flow_ids
        .allocate_persistence_attempt()
        .expect("a distinct test attempt");
    let wrong_ready = state
        .model_flow_ids
        .allocate_ready()
        .expect("a distinct test Ready identity");

    for message in [
        ModelFlowMessage::ModelPersistenceCompleted {
            ready_id: wrong_ready,
            persistence_attempt_id,
            model_dir: model_dir.clone(),
            provenance,
            result: ModelPersistenceResult::Saved,
        },
        ModelFlowMessage::ModelPersistenceCompleted {
            ready_id,
            persistence_attempt_id: wrong_attempt,
            model_dir: model_dir.clone(),
            provenance,
            result: ModelPersistenceResult::Saved,
        },
        ModelFlowMessage::ModelPersistenceCompleted {
            ready_id,
            persistence_attempt_id,
            model_dir: "/wrong".into(),
            provenance,
            result: ModelPersistenceResult::Saved,
        },
        ModelFlowMessage::ModelPersistenceCompleted {
            ready_id,
            persistence_attempt_id,
            model_dir: model_dir.clone(),
            provenance: ModelProvenance::AppManaged,
            result: ModelPersistenceResult::Saved,
        },
    ] {
        reduce(&mut state, message);
        assert!(matches!(state.wizard, Some(WizardState::Ready { .. })));
        assert_eq!(state.capability, SearchCapability::KeywordOnly);
    }

    reduce(
        &mut state,
        ModelFlowMessage::ModelPersistenceCompleted {
            ready_id,
            persistence_attempt_id,
            model_dir,
            provenance,
            result: ModelPersistenceResult::Saved,
        },
    );
    assert!(state.wizard.is_none());
    assert_eq!(state.capability, SearchCapability::Hybrid);
    assert_eq!(state.active_model_provenance, Some(provenance));
    reduce(
        &mut state,
        ModelFlowMessage::ModelPersistenceCompleted {
            ready_id,
            persistence_attempt_id,
            model_dir: "/user/model".into(),
            provenance,
            result: ModelPersistenceResult::Saved,
        },
    );
    assert!(state.wizard.is_none(), "duplicate completion is a no-op");
}

#[test]
fn duplicate_accept_during_persistence_emits_no_second_write() {
    let mut state = ready_state();
    assert!(matches!(
        persistence_effect(&mut state),
        ModelFlowEffect::PersistReady { .. }
    ));
    assert_eq!(
        persistence_effect(&mut state),
        ModelFlowEffect::NoWork,
        "an in-flight write must not be duplicated"
    );
}

struct FailingStore;

impl ModelPreferenceStore for FailingStore {
    fn accept_user_supplied(&self, _model_dir: &str) -> Result<(), ()> {
        Err(())
    }

    fn accept_app_managed(&self) -> Result<(), ()> {
        Err(())
    }
}

struct RecordingStore(RefCell<Vec<String>>);

impl ModelPreferenceStore for RecordingStore {
    fn accept_user_supplied(&self, model_dir: &str) -> Result<(), ()> {
        self.0.borrow_mut().push(model_dir.to_string());
        Ok(())
    }

    fn accept_app_managed(&self) -> Result<(), ()> {
        self.0.borrow_mut().push("managed".into());
        Ok(())
    }
}

fn copy_effect(effect: &ModelFlowEffect) -> ModelFlowEffect {
    match effect {
        ModelFlowEffect::NoWork => ModelFlowEffect::NoWork,
        ModelFlowEffect::StartManagedDownload => ModelFlowEffect::StartManagedDownload,
        ModelFlowEffect::PersistReady {
            ready_id,
            persistence_attempt_id,
            model_dir,
            provenance,
        } => ModelFlowEffect::PersistReady {
            ready_id: *ready_id,
            persistence_attempt_id: *persistence_attempt_id,
            model_dir: model_dir.clone(),
            provenance: *provenance,
        },
    }
}

#[test]
fn failed_persistence_retries_with_a_fresh_attempt_without_downloading() {
    let mut state = ready_state();
    let first = persistence_effect(&mut state);
    let completion = execute_persistence(&FailingStore, copy_effect(&first)).unwrap();
    reduce(&mut state, completion);
    assert!(matches!(
        state.wizard,
        Some(WizardState::Ready {
            persistence: ModelPersistenceState::Failed,
            ..
        })
    ));

    let second = persistence_effect(&mut state);
    let (
        ModelFlowEffect::PersistReady {
            persistence_attempt_id: first_id,
            ..
        },
        ModelFlowEffect::PersistReady {
            persistence_attempt_id: second_id,
            ..
        },
    ) = (first, second)
    else {
        panic!("expected persistence effects")
    };
    assert_ne!(first_id, second_id);
}

#[test]
fn delivery_failure_retains_consent_and_retry_never_starts_work() {
    let mut state = consent_state();
    reduce(&mut state, ModelFlowMessage::ConfirmModelDownload);
    reduce(
        &mut state,
        ModelFlowMessage::DownloadFailed(ModelDeliveryFailure::Connection),
    );
    assert!(matches!(
        state.wizard,
        Some(WizardState::DownloadFailed {
            failure: ModelDeliveryFailure::Connection,
            ..
        })
    ));
    assert_eq!(
        reduce(&mut state, ModelFlowMessage::RetryModelDownload),
        Some(ModelFlowEffect::NoWork)
    );
    assert!(matches!(
        state.wizard,
        Some(WizardState::DownloadConsent { .. })
    ));
}

#[test]
fn executor_echoes_the_exact_effect_identity() {
    let mut state = ready_state();
    let effect = persistence_effect(&mut state);
    let store = RecordingStore(RefCell::new(Vec::new()));
    let completion = execute_persistence(&store, copy_effect(&effect)).unwrap();
    let ModelFlowEffect::PersistReady {
        ready_id,
        persistence_attempt_id,
        model_dir,
        provenance,
    } = effect
    else {
        unreachable!()
    };
    assert!(matches!(
        completion,
        ModelFlowMessage::ModelPersistenceCompleted {
            ready_id: actual_ready,
            persistence_attempt_id: actual_attempt,
            model_dir: ref actual_dir,
            provenance: actual_provenance,
            result: ModelPersistenceResult::Saved,
        } if actual_ready == ready_id
            && actual_attempt == persistence_attempt_id
            && actual_dir == &model_dir
            && actual_provenance == provenance
    ));
    assert_eq!(store.0.borrow().as_slice(), ["/user/model"]);
}

/// The managed path: consent, download, progress, completion, save.
#[test]
fn a_managed_download_becomes_the_active_model_once_saved() {
    let mut state = consent_state();
    reduce(&mut state, ModelFlowMessage::ConfirmModelDownload);
    let reserved = match state.wizard.as_ref() {
        Some(WizardState::Downloading {
            reserved_ready_id,
            dest_dir,
            ..
        }) => {
            assert_eq!(dest_dir, "/managed/models");
            *reserved_ready_id
        }
        other => panic!("expected Downloading, got {other:?}"),
    };
    reduce(
        &mut state,
        ModelFlowMessage::DownloadFileProgress {
            artifact: ModelArtifact::Tokenizer,
            bytes: 5,
            total: 10,
            files_done: 0,
            files_total: 2,
        },
    );
    assert!(
        matches!(state.wizard.as_ref(), Some(WizardState::Downloading { bytes: 5, total: 10, .. })),
        "progress must not create Ready"
    );
    reduce(
        &mut state,
        ModelFlowMessage::DownloadAllComplete {
            dest_dir: "/managed/generation".into(),
        },
    );
    assert!(matches!(
        state.wizard.as_ref(),
        Some(WizardState::Ready {
            ready_id,
            provenance: ModelProvenance::AppManaged,
            persistence: ModelPersistenceState::Idle,
            ..
        }) if *ready_id == reserved
    ));
    let persistence = persistence_effect(&mut state);
    let store = RecordingStore(RefCell::new(Vec::new()));
    let completion = execute_persistence(&store, persistence).unwrap();
    reduce(&mut state, completion);
    assert_eq!(store.0.borrow().as_slice(), ["managed"]);
    assert_eq!(state.capability, SearchCapability::Hybrid);
    assert_eq!(
        state.active_model_provenance,
        Some(ModelProvenance::AppManaged)
    );
    assert!(state.wizard.is_none());
}

#[test]
fn a_message_the_flow_does_not_own_is_handed_back() {
    let mut state = consent_state();
    assert_eq!(reduce(&mut state, ModelFlowMessage::Other), None);
    assert!(matches!(state.wizard, Some(WizardState::DownloadConsent { .. })));
}

#[test]
fn worker_error_mapping_is_exhaustive_and_safe() {
    let cases = [
        (
            ModelDeliveryError::StoreUnavailable,
            ModelDeliveryFailure::StoreUnavailable,
        ),
        (
            ModelDeliveryError::StoreBusy,
            ModelDeliveryFailure::StoreUnavailable,
        ),
        (
            ModelDeliveryError::TrustPolicy,
            ModelDeliveryFailure::Verification,
        ),
        (ModelDeliveryError::Plan, ModelDeliveryFailure::Verification),
        (
            ModelDeliveryError::Network,
            ModelDeliveryFailure::Connection,
        ),
        (
            ModelDeliveryError::TransferLimit,
            ModelDeliveryFailure::Verification,
        ),
        (
            ModelDeliveryError::Integrity,
            ModelDeliveryFailure::Verification,
        ),
        (
            ModelDeliveryError::Filesystem,
            ModelDeliveryFailure::LocalStorage,
        ),
        (
            ModelDeliveryError::Catalog,
            ModelDeliveryFailure::LocalStorage,
        ),
        (
            ModelDeliveryError::FinalCheck,
            ModelDeliveryFailure::Verification,
        ),
    ];
    for (error, expected) in cases {
        assert_eq!(map_delivery_error(&error), expected);
    }
    assert_eq!(map_artifact("tokenizer"), Some(ModelArtifact::Tokenizer));
    assert_eq!(map_artifact("onnx-model"), Some(ModelArtifact::OnnxModel));
    assert_eq!(map_artifact("/secret/path"), None);
}

#[test]
fn startup_with_missing_files_opens_the_wizard_on_that_folder() {
    let required = vec!["onnx/model.onnx".to_string(), "tokenizer.json".to_string()];
    let projection = project_startup::<ConsentReturn>(
        VerifyOutcome::FilesInvalid {
            model_dir: "/models/e5".into(),
            issues: vec!["tokenizer.json".into()],
        },
        Some(ModelProvenance::UserSupplied),
        &required,
    );
    assert_eq!(projection.capability, SearchCapability::KeywordOnly);
    assert_eq!(projection.active_provenance, None);
    match projection.wizard {
        Some(WizardState::FileMissing {
            previous_dir,
            checks,
        }) => {
            assert_eq!(previous_dir, "/models/e5");
            assert_eq!(checks.len(), 2);
            assert_eq!(checks[0].relative_path, "onnx/model.onnx");
            assert!(checks[0].found);
            assert_eq!(checks[1].relative_path, "tokenizer.json");
            assert!(!checks[1].found);
        }
        other => panic!("expected FileMissing, got {other:?}"),
    }
    let ready = project_startup::<ConsentReturn>(
        VerifyOutcome::Ready,
        Some(ModelProvenance::AppManaged),
        &required,
    );
    assert_eq!(ready.capability, SearchCapability::Hybrid);
    assert_eq!(ready.active_provenance, Some(ModelProvenance::AppManaged));
    assert!(ready.wizard.is_none());
}

#[test]
fn a_current_managed_generation_wins_over_the_configured_folder() {
    let r = resolve_model_dir(Some("/data/models/gen-2".to_string()), Some("/manual/e5"), false);
    assert_eq!(r.path.as_deref(), Some("/data/models/gen-2"));
    assert_eq!(r.provenance, Some(ModelProvenance::AppManaged));
}

#[test]
fn a_configured_folder_inside_the_managed_store_is_not_manual() {
    let r = resolve_model_dir(None, Some("/data/models/gen-1"), true);
    assert_eq!(r.path, None);
    assert_eq!(r.provenance, None);
}

#[test]
fn a_genuine_manual_folder_is_used_when_nothing_is_managed() {
    let r = resolve_model_dir(None, Some("/manual/e5"), false);
    assert_eq!(r.path.as_deref(), Some("/manual/e5"));
    assert_eq!(r.provenance, Some(ModelProvenance::UserSupplied));
    let none = resolve_model_dir(None, None, false);
    assert_eq!(none.path, None);
    assert_eq!(none.provenance, None);
}
