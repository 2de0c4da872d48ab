//! The embedding-model setup flow: the wizard's states and the messages
//! that move between them.
//!
//! A model becomes active only through one exact sequence: a `Ready` state
//! with a fresh identity, one persistence attempt started from it, and a
//! completion that names that same identity, attempt, folder and
//! provenance. Everything else -- a duplicate accept, a stale or mismatched
//! completion, progress after the fact -- leaves the state as it was.
//!
//! The screen a download consent returns to is carried through untouched,
//! so it is a type parameter `R`.

use crate::text::text_equal;
use vstd::prelude::*;
use vstd::string::*;

verus! {

broadcast use vstd::string::group_string_axioms;

/// The identity of one `Ready` state.
#[derive(Clone, Copy, Debug, PartialEq, Eq, Structural)]
pub struct ReadyId(pub u64);

/// The identity of one persistence attempt.
#[derive(Clone, Copy, Debug, PartialEq, Eq, Structural)]
pub struct PersistenceAttemptId(pub u64);

/// Where the active model came from.
#[derive(Clone, Copy, Debug, PartialEq, Eq, Structural)]
pub enum ModelProvenance {
    UserSupplied,
    AppManaged,
}

/// Whether the `Ready` folder is being saved as the preference.
#[derive(Clone, Copy, Debug, PartialEq, Eq, Structural)]
pub enum ModelPersistenceState {
    Idle,
    InFlight(PersistenceAttemptId),
    Failed,
}

/// How saving the preference went.
#[derive(Clone, Copy, Debug, PartialEq, Eq, Structural)]
pub enum ModelPersistenceResult {
    Saved,
    Failed,
}

/// Why a managed download did not finish, as the user is told.
#[derive(Clone, Copy, Debug, PartialEq, Eq, Structural)]
pub enum ModelDeliveryFailure {
    StoreUnavailable,
    Connection,
    Verification,
    LocalStorage,
    InternalState,
}

/// What the download worker reports when delivery fails.
#[derive(Clone, Copy, Debug, PartialEq, Eq, Structural)]
pub enum ModelDeliveryError {
    StoreUnavailable,
    StoreBusy,
    Network,
    TrustPolicy,
    Plan,
    TransferLimit,
    Integrity,
    FinalCheck,
    Filesystem,
    Catalog,
}

/// A model file being downloaded.
#[derive(Clone, Copy, Debug, PartialEq, Eq, Structural)]
pub enum ModelArtifact {
    Tokenizer,
    OnnxModel,
}

/// What search can use.
#[derive(Clone, Copy, Debug, PartialEq, Eq, Structural)]
pub enum SearchCapability {
    KeywordOnly,
    Hybrid,
}

/// The consent screen's content that the flow reads: where the model goes.
#[derive(Debug)]
pub struct ModelDownloadConsent {
    pub destination: String,
}

/// One required model file and whether it was found.
#[derive(Debug)]
pub struct WizardFileCheck {
    pub relative_path: String,
    pub found: bool,
}

/// The view of a [`WizardFileCheck`].
pub struct CheckView {
    pub relative_path: Seq<char>,
    pub found: bool,
}

impl View for WizardFileCheck {
    type V = CheckView;

    open spec fn view(&self) -> CheckView {
        CheckView { relative_path: self.relative_path@, found: self.found }
    }
}

/// The views of a list of checks.
pub open spec fn checks_view(checks: Seq<WizardFileCheck>) -> Seq<CheckView> {
    checks.map_values(|c: WizardFileCheck| c@)
}

/// The setup wizard's state.
#[derive(Debug)]
pub enum WizardState<R> {
    NotConfigured,
    FileMissing { previous_dir: String, checks: Vec<WizardFileCheck> },
    Checked { model_dir: String, checks: Vec<WizardFileCheck>, all_ok: bool },
    DownloadConsent { presentation: ModelDownloadConsent, return_to: R },
    Downloading {
        reserved_ready_id: ReadyId,
        dest_dir: String,
        presentation: ModelDownloadConsent,
        return_to: R,
        current_artifact: Option<ModelArtifact>,
        bytes: u64,
        total: u64,
        files_done: u64,
        files_total: u64,
    },
    DownloadFailed { presentation: ModelDownloadConsent, return_to: R, failure: ModelDeliveryFailure },
    Ready {
        ready_id: ReadyId,
        model_dir: String,
        provenance: ModelProvenance,
        persistence: ModelPersistenceState,
    },
}

/// The view of a [`WizardState`].
pub enum WizardView<R> {
    NotConfigured,
    FileMissing { previous_dir: Seq<char>, checks: Seq<CheckView> },
    Checked { model_dir: Seq<char>, checks: Seq<CheckView>, all_ok: bool },
    DownloadConsent { destination: Seq<char>, return_to: R },
    Downloading {
        reserved_ready_id: ReadyId,
        dest_dir: Seq<char>,
        destination: Seq<char>,
        return_to: R,
        current_artifact: Option<ModelArtifact>,
        bytes: u64,
        total: u64,
        files_done: u64,
        files_total: u64,
    },
    DownloadFailed { destination: Seq<char>, return_to: R, failure: ModelDeliveryFailure },
    Ready {
        ready_id: ReadyId,
        model_dir: Seq<char>,
        provenance: ModelProvenance,
        persistence: ModelPersistenceState,
    },
}

impl<R> View for WizardState<R> {
    type V = WizardView<R>;

    open spec fn view(&self) -> WizardView<R> {
        match self {
            WizardState::NotConfigured => WizardView::NotConfigured,
            WizardState::FileMissing { previous_dir, checks } => WizardView::FileMissing {
                previous_dir: previous_dir@,
                checks: checks_view(checks@),
            },
            WizardState::Checked { model_dir, checks, all_ok } => WizardView::Checked {
                model_dir: model_dir@,
                checks: checks_view(checks@),
                all_ok: *all_ok,
            },
            WizardState::DownloadConsent { presentation, return_to } =>
                WizardView::DownloadConsent {
                destination: presentation.destination@,
                return_to: *return_to,
            },
            WizardState::Downloading {
                reserved_ready_id,
                dest_dir,
                presentation,
                return_to,
                current_artifact,
                bytes,
                total,
                files_done,
                files_total,
            } => WizardView::Downloading {
                reserved_ready_id: *reserved_ready_id,
                dest_dir: dest_dir@,
                destination: presentation.destination@,
                return_to: *return_to,
                current_artifact: *current_artifact,
                bytes: *bytes,
                total: *total,
                files_done: *files_done,
                files_total: *files_total,
            },
            WizardState::DownloadFailed { presentation, return_to, failure } =>
                WizardView::DownloadFailed {
                destination: presentation.destination@,
                return_to: *return_to,
                failure: *failure,
            },
            WizardState::Ready { ready_id, model_dir, provenance, persistence } =>
                WizardView::Ready {
                ready_id: *ready_id,
                model_dir: model_dir@,
                provenance: *provenance,
                persistence: *persistence,
            },
        }
    }
}

/// The source of fresh identities. Each identity is handed out once; when
/// the space runs out, there are no more.
#[derive(Debug)]
pub struct ModelFlowIds {
    next_ready: u64,
    next_attempt: u64,
}

/// The view of [`ModelFlowIds`]: the next identity of each kind.
pub struct IdsView {
    pub next_ready: u64,
    pub next_attempt: u64,
}

impl View for ModelFlowIds {
    type V = IdsView;

    closed spec fn view(&self) -> IdsView {
        IdsView { next_ready: self.next_ready, next_attempt: self.next_attempt }
    }
}

impl ModelFlowIds {
    /// A fresh source, with nothing handed out.
    pub fn new() -> (r: ModelFlowIds)
        ensures
            r@ == (IdsView { next_ready: 1, next_attempt: 1 }),
    {
        ModelFlowIds { next_ready: 1, next_attempt: 1 }
    }

    /// A `Ready` identity never handed out before, or `None` once the space
    /// is exhausted.
    pub fn allocate_ready(&mut self) -> (r: Option<ReadyId>)
        ensures
            (r, final(self)@) == allocate_ready_spec(old(self)@),
    {
        if self.next_ready == u64::MAX {
            None
        } else {
            let id = ReadyId(self.next_ready);
            self.next_ready = self.next_ready + 1;
            Some(id)
        }
    }

    /// A persistence-attempt identity never handed out before, or `None`
    /// once the space is exhausted.
    pub fn allocate_persistence_attempt(&mut self) -> (r: Option<PersistenceAttemptId>)
        ensures
            (r, final(self)@) == allocate_attempt_spec(old(self)@),
    {
        if self.next_attempt == u64::MAX {
            None
        } else {
            let id = PersistenceAttemptId(self.next_attempt);
            self.next_attempt = self.next_attempt + 1;
            Some(id)
        }
    }
}

/// Handing out one `Ready` identity.
pub open spec fn allocate_ready_spec(ids: IdsView) -> (Option<ReadyId>, IdsView) {
    if ids.next_ready == u64::MAX {
        (None, ids)
    } else {
        (Some(ReadyId(ids.next_ready)), IdsView { next_ready: (ids.next_ready + 1) as u64, ..ids })
    }
}

/// Handing out one persistence-attempt identity.
pub open spec fn allocate_attempt_spec(ids: IdsView) -> (Option<PersistenceAttemptId>, IdsView) {
    if ids.next_attempt == u64::MAX {
        (None, ids)
    } else {
        (
            Some(PersistenceAttemptId(ids.next_attempt)),
            IdsView { next_attempt: (ids.next_attempt + 1) as u64, ..ids },
        )
    }
}

/// The part of the application state this flow owns.
#[derive(Debug)]
pub struct ModelFlowState<R> {
    pub wizard: Option<WizardState<R>>,
    pub model_flow_ids: ModelFlowIds,
    pub capability: SearchCapability,
    pub active_model_provenance: Option<ModelProvenance>,
    pub wizard_path_input: String,
}

/// The view of a [`ModelFlowState`].
pub struct FlowView<R> {
    pub wizard: Option<WizardView<R>>,
    pub ids: IdsView,
    pub capability: SearchCapability,
    pub active_model_provenance: Option<ModelProvenance>,
    pub wizard_path_input: Seq<char>,
}

impl<R> View for ModelFlowState<R> {
    type V = FlowView<R>;

    open spec fn view(&self) -> FlowView<R> {
        FlowView {
            wizard: match self.wizard {
                Some(w) => Some(w@),
                None => None,
            },
            ids: self.model_flow_ids@,
            capability: self.capability,
            active_model_provenance: self.active_model_provenance,
            wizard_path_input: self.wizard_path_input@,
        }
    }
}

impl<R> ModelFlowState<R> {
    /// The state at startup before any model is known: no wizard, keyword
    /// search, no identities handed out.
    pub fn new() -> (r: ModelFlowState<R>)
        ensures
            r@.wizard is None,
            r@.ids == (IdsView { next_ready: 1, next_attempt: 1 }),
            r@.capability == SearchCapability::KeywordOnly,
            r@.active_model_provenance is None,
            r@.wizard_path_input.len() == 0,
    {
        ModelFlowState {
            wizard: None,
            model_flow_ids: ModelFlowIds::new(),
            capability: SearchCapability::KeywordOnly,
            active_model_provenance: None,
            wizard_path_input: String::new(),
        }
    }
}

/// A message this flow reacts to; `Other` is any message it does not own.
#[derive(Debug)]
pub enum ModelFlowMessage {
    ConfirmModelDownload,
    WizardChecked { model_dir: String, checks: Vec<WizardFileCheck>, all_ok: bool },
    WizardAccept,
    ModelPersistenceCompleted {
        ready_id: ReadyId,
        persistence_attempt_id: PersistenceAttemptId,
        model_dir: String,
        provenance: ModelProvenance,
        result: ModelPersistenceResult,
    },
    DownloadFileProgress {
        artifact: ModelArtifact,
        bytes: u64,
        total: u64,
        files_done: u64,
        files_total: u64,
    },
    DownloadAllComplete { dest_dir: String },
    DownloadFailed(ModelDeliveryFailure),
    RetryModelDownload,
    Other,
}

/// The view of a [`ModelFlowMessage`].
pub enum MessageView {
    ConfirmModelDownload,
    WizardChecked { model_dir: Seq<char>, checks: Seq<CheckView>, all_ok: bool },
    WizardAccept,
    ModelPersistenceCompleted {
        ready_id: ReadyId,
        persistence_attempt_id: PersistenceAttemptId,
        model_dir: Seq<char>,
        provenance: ModelProvenance,
        result: ModelPersistenceResult,
    },
    DownloadFileProgress {
        artifact: ModelArtifact,
        bytes: u64,
        total: u64,
        files_done: u64,
        files_total: u64,
    },
    DownloadAllComplete { dest_dir: Seq<char> },
    DownloadFailed(ModelDeliveryFailure),
    RetryModelDownload,
    Other,
}

impl View for ModelFlowMessage {
    type V = MessageView;

    open spec fn view(&self) -> MessageView {
        match self {
            ModelFlowMessage::ConfirmModelDownload => MessageView::ConfirmModelDownload,
            ModelFlowMessage::WizardChecked { model_dir, checks, all_ok } =>
                MessageView::WizardChecked {
                model_dir: model_dir@,
                checks: checks_view(checks@),
                all_ok: *all_ok,
            },
            ModelFlowMessage::WizardAccept => MessageView::WizardAccept,
            ModelFlowMessage::ModelPersistenceCompleted {
                ready_id,
                persistence_attempt_id,
                model_dir,
                provenance,
                result,
            } => MessageView::ModelPersistenceCompleted {
                ready_id: *ready_id,
                persistence_attempt_id: *persistence_attempt_id,
                model_dir: model_dir@,
                provenance: *provenance,
                result: *result,
            },
            ModelFlowMessage::DownloadFileProgress {
                artifact,
                bytes,
                total,
                files_done,
                files_total,
            } => MessageView::DownloadFileProgress {
                artifact: *artifact,
                bytes: *bytes,
                total: *total,
                files_done: *files_done,
                files_total: *files_total,
            },
            ModelFlowMessage::DownloadAllComplete { dest_dir } =>
                MessageView::DownloadAllComplete { dest_dir: dest_dir@ },
            ModelFlowMessage::DownloadFailed(f) => MessageView::DownloadFailed(*f),
            ModelFlowMessage::RetryModelDownload => MessageView::RetryModelDownload,
            ModelFlowMessage::Other => MessageView::Other,
        }
    }
}

/// The backend work a message asks for.
#[derive(Debug)]
pub enum ModelFlowEffect {
    /// Handled; no backend work.
    NoWork,
    StartManagedDownload,
    PersistReady {
        ready_id: ReadyId,
        persistence_attempt_id: PersistenceAttemptId,
        model_dir: String,
        provenance: ModelProvenance,
    },
}

/// The view of a [`ModelFlowEffect`].
pub enum EffectView {
    NoWork,
    StartManagedDownload,
    PersistReady {
        ready_id: ReadyId,
        persistence_attempt_id: PersistenceAttemptId,
        model_dir: Seq<char>,
        provenance: ModelProvenance,
    },
}

impl View for ModelFlowEffect {
    type V = EffectView;

    open spec fn view(&self) -> EffectView {
        match self {
            ModelFlowEffect::NoWork => EffectView::NoWork,
            ModelFlowEffect::StartManagedDownload => EffectView::StartManagedDownload,
            ModelFlowEffect::PersistReady {
                ready_id,
                persistence_attempt_id,
                model_dir,
                provenance,
            } => EffectView::PersistReady {
                ready_id: *ready_id,
                persistence_attempt_id: *persistence_attempt_id,
                model_dir: model_dir@,
                provenance: *provenance,
            },
        }
    }
}

impl PartialEq for ModelFlowEffect {
    fn eq(&self, other: &Self) -> (r: bool) {
        match (self, other) {
            (ModelFlowEffect::NoWork, ModelFlowEffect::NoWork) => true,
            (ModelFlowEffect::StartManagedDownload, ModelFlowEffect::StartManagedDownload) => true,
            (
                ModelFlowEffect::PersistReady {
                    ready_id: a1,
                    persistence_attempt_id: b1,
                    model_dir: c1,
                    provenance: d1,
                },
                ModelFlowEffect::PersistReady {
                    ready_id: a2,
                    persistence_attempt_id: b2,
                    model_dir: c2,
                    provenance: d2,
                },
            ) => *a1 == *a2 && *b1 == *b2 && c1.eq(c2) && *d1 == *d2,
            _ => false,
        }
    }
}

impl vstd::std_specs::cmp::PartialEqSpecImpl for ModelFlowEffect {
    open spec fn obeys_eq_spec() -> bool {
        true
    }

    open spec fn eq_spec(&self, other: &Self) -> bool {
        self@ == other@
    }
}

impl Eq for ModelFlowEffect {

}

/// The view of an optional effect.
pub open spec fn effect_view(e: Option<ModelFlowEffect>) -> Option<EffectView> {
    match e {
        Some(x) => Some(x@),
        None => None,
    }
}

/// Accepting the `Ready` folder: from a `Ready` state that is not already
/// saving, one fresh attempt starts and is asked for; with no attempt
/// identity left the save is marked failed; anything else asks for
/// nothing.
pub open spec fn begin_persistence_spec<R>(s: FlowView<R>) -> (FlowView<R>, EffectView) {
    match s.wizard {
        Some(WizardView::Ready { ready_id, model_dir, provenance, persistence }) => {
            if persistence is InFlight {
                (s, EffectView::NoWork)
            } else {
                let (attempt, ids) = allocate_attempt_spec(s.ids);
                match attempt {
                    None => (
                        FlowView {
                            wizard: Some(
                                WizardView::Ready {
                                    ready_id,
                                    model_dir,
                                    provenance,
                                    persistence: ModelPersistenceState::Failed,
                                },
                            ),
                            ..s
                        },
                        EffectView::NoWork,
                    ),
                    Some(a) => (
                        FlowView {
                            wizard: Some(
                                WizardView::Ready {
                                    ready_id,
                                    model_dir,
                                    provenance,
                                    persistence: ModelPersistenceState::InFlight(a),
                                },
                            ),
                            ids,
                            ..s
                        },
                        EffectView::PersistReady {
                            ready_id,
                            persistence_attempt_id: a,
                            model_dir,
                            provenance,
                        },
                    ),
                }
            }
        },
        _ => (s, EffectView::NoWork),
    }
}

/// Whether a completion names exactly the attempt now in flight.
pub open spec fn completion_matches<R>(
    s: FlowView<R>,
    ready_id: ReadyId,
    attempt: PersistenceAttemptId,
    model_dir: Seq<char>,
    provenance: ModelProvenance,
) -> bool {
    match s.wizard {
        Some(
            WizardView::Ready {
                ready_id: r,
                model_dir: d,
                provenance: p,
                persistence: ModelPersistenceState::InFlight(a),
            },
        ) => r == ready_id && a == attempt && d == model_dir && p == provenance,
        _ => false,
    }
}

/// A completion that names the attempt in flight: saved makes the model
/// active and closes the wizard; failed marks the save failed. Any other
/// completion changes nothing.
pub open spec fn apply_persistence_spec<R>(
    s: FlowView<R>,
    ready_id: ReadyId,
    attempt: PersistenceAttemptId,
    model_dir: Seq<char>,
    provenance: ModelProvenance,
    result: ModelPersistenceResult,
) -> FlowView<R> {
    if !completion_matches(s, ready_id, attempt, model_dir, provenance) {
        s
    } else {
        match result {
            ModelPersistenceResult::Saved => FlowView {
                capability: SearchCapability::Hybrid,
                active_model_provenance: Some(provenance),
                wizard: None,
                wizard_path_input: Seq::empty(),
                ..s
            },
            ModelPersistenceResult::Failed => FlowView {
                wizard: Some(
                    WizardView::Ready {
                        ready_id,
                        model_dir,
                        provenance,
                        persistence: ModelPersistenceState::Failed,
                    },
                ),
                ..s
            },
        }
    }
}

/// The flow's transition for one message: the next state and the work
/// asked for (`None` for a message the flow does not own).
pub open spec fn reduce_spec<R>(s: FlowView<R>, m: MessageView) -> (FlowView<R>, Option<EffectView>) {
    match m {
        MessageView::ConfirmModelDownload => match s.wizard {
            Some(WizardView::DownloadConsent { destination, return_to }) => {
                let (id, ids) = allocate_ready_spec(s.ids);
                match id {
                    None => (
                        FlowView {
                            wizard: Some(
                                WizardView::DownloadFailed {
                                    destination,
                                    return_to,
                                    failure: ModelDeliveryFailure::InternalState,
                                },
                            ),
                            ..s
                        },
                        Some(EffectView::NoWork),
                    ),
                    Some(reserved) => (
                        FlowView {
                            wizard: Some(
                                WizardView::Downloading {
                                    reserved_ready_id: reserved,
                                    dest_dir: destination,
                                    destination,
                                    return_to,
                                    current_artifact: None,
                                    bytes: 0,
                                    total: 0,
                                    files_done: 0,
                                    files_total: 0,
                                },
                            ),
                            ids,
                            ..s
                        },
                        Some(EffectView::StartManagedDownload),
                    ),
                }
            },
            _ => (s, Some(EffectView::NoWork)),
        },
        MessageView::WizardChecked { model_dir, checks, all_ok } => {
            if all_ok {
                let (id, ids) = allocate_ready_spec(s.ids);
                match id {
                    Some(ready_id) => (
                        FlowView {
                            wizard: Some(
                                WizardView::Ready {
                                    ready_id,
                                    model_dir,
                                    provenance: ModelProvenance::UserSupplied,
                                    persistence: ModelPersistenceState::Idle,
                                },
                            ),
                            ids,
                            ..s
                        },
                        Some(EffectView::NoWork),
                    ),
                    None => (
                        FlowView {
                            wizard: Some(WizardView::Checked { model_dir, checks, all_ok: true }),
                            ..s
                        },
                        Some(EffectView::NoWork),
                    ),
                }
            } else {
                (
                    FlowView {
                        wizard: Some(WizardView::Checked { model_dir, checks, all_ok: false }),
                        ..s
                    },
                    Some(EffectView::NoWork),
                )
            }
        },
        MessageView::WizardAccept => {
            let (next, effect) = begin_persistence_spec(s);
            (next, Some(effect))
        },
        MessageView::ModelPersistenceCompleted {
            ready_id,
            persistence_attempt_id,
            model_dir,
            provenance,
            result,
        } => (
            apply_persistence_spec(s, ready_id, persistence_attempt_id, model_dir, provenance, result),
            Some(EffectView::NoWork),
        ),
        MessageView::DownloadFileProgress { artifact, bytes, total, files_done, files_total } =>
            match s.wizard {
            Some(
                WizardView::Downloading {
                    reserved_ready_id,
                    dest_dir,
                    destination,
                    return_to,
                    ..
                },
            ) => (
                FlowView {
                    wizard: Some(
                        WizardView::Downloading {
                            reserved_ready_id,
                            dest_dir,
                            destination,
                            return_to,
                            current_artifact: Some(artifact),
                            bytes,
                            total,
                            files_done,
                            files_total,
                        },
                    ),
                    ..s
                },
                Some(EffectView::NoWork),
            ),
            _ => (s, Some(EffectView::NoWork)),
        },
        MessageView::DownloadAllComplete { dest_dir } => match s.wizard {
            Some(WizardView::Downloading { reserved_ready_id, .. }) => (
                FlowView {
                    wizard: Some(
                        WizardView::Ready {
                            ready_id: reserved_ready_id,
                            model_dir: dest_dir,
                            provenance: ModelProvenance::AppManaged,
                            persistence: ModelPersistenceState::Idle,
                        },
                    ),
                    ..s
                },
                Some(EffectView::NoWork),
            ),
            _ => (s, Some(EffectView::NoWork)),
        },
        MessageView::DownloadFailed(failure) => match s.wizard {
            Some(WizardView::Downloading { destination, return_to, .. }) => (
                FlowView {
                    wizard: Some(WizardView::DownloadFailed { destination, return_to, failure }),
                    ..s
                },
                Some(EffectView::NoWork),
            ),
            _ => (s, Some(EffectView::NoWork)),
        },
        MessageView::RetryModelDownload => match s.wizard {
            Some(WizardView::DownloadFailed { destination, return_to, .. }) => (
                FlowView {
                    wizard: Some(WizardView::DownloadConsent { destination, return_to }),
                    ..s
                },
                Some(EffectView::NoWork),
            ),
            _ => (s, Some(EffectView::NoWork)),
        },
        MessageView::Other => (s, None),
    }
}

fn begin_persistence<R>(state: &mut ModelFlowState<R>) -> (r: ModelFlowEffect)
    ensures
        (final(state)@, r@) == begin_persistence_spec(old(state)@),
{
    let wizard = state.wizard.take();
    match wizard {
        Some(WizardState::Ready { ready_id, model_dir, provenance, persistence }) => {
            if matches!(persistence, ModelPersistenceState::InFlight(_)) {
                state.wizard = Some(WizardState::Ready { ready_id, model_dir, provenance, persistence });
                return ModelFlowEffect::NoWork;
            }
            match state.model_flow_ids.allocate_persistence_attempt() {
                None => {
                    state.wizard = Some(
                        WizardState::Ready {
                            ready_id,
                            model_dir,
                            provenance,
                            persistence: ModelPersistenceState::Failed,
                        },
                    );
                    ModelFlowEffect::NoWork
                },
                Some(attempt) => {
                    let effect_dir = model_dir.clone();
                    state.wizard = Some(
                        WizardState::Ready {
                            ready_id,
                            model_dir,
                            provenance,
                            persistence: ModelPersistenceState::InFlight(attempt),
                        },
                    );
                    ModelFlowEffect::PersistReady {
                        ready_id,
                        persistence_attempt_id: attempt,
                        model_dir: effect_dir,
                        provenance,
                    }
                },
            }
        },
        other => {
            state.wizard = other;
            ModelFlowEffect::NoWork
        },
    }
}

fn apply_persistence_result<R>(
    state: &mut ModelFlowState<R>,
    ready_id: ReadyId,
    persistence_attempt_id: PersistenceAttemptId,
    model_dir: &String,
    provenance: ModelProvenance,
    result: ModelPersistenceResult,
)
    ensures
        final(state)@ == apply_persistence_spec(
            old(state)@,
            ready_id,
            persistence_attempt_id,
            model_dir@,
            provenance,
            result,
        ),
{
    let matches_active = match &state.wizard {
        Some(
            WizardState::Ready {
                ready_id: active_ready,
                model_dir: active_dir,
                provenance: active_provenance,
                persistence: ModelPersistenceState::InFlight(active_attempt),
            },
        ) => *active_ready == ready_id && *active_attempt == persistence_attempt_id
            && active_dir.eq(model_dir) && *active_provenance == provenance,
        _ => false,
    };
    if !matches_active {
        return;
    }
    match result {
        ModelPersistenceResult::Saved => {
            state.capability = SearchCapability::Hybrid;
            state.active_model_provenance = Some(provenance);
            state.wizard = None;
            state.wizard_path_input = String::new();
        },
        ModelPersistenceResult::Failed => {
            let wizard = state.wizard.take();
            match wizard {
                Some(WizardState::Ready { ready_id, model_dir, provenance, .. }) => {
                    state.wizard = Some(
                        WizardState::Ready {
                            ready_id,
                            model_dir,
                            provenance,
                            persistence: ModelPersistenceState::Failed,
                        },
                    );
                },
                other => {
                    state.wizard = other;
                },
            }
        },
    }
}

/// Applies a model-setup message. `None` means the message is not owned by
/// this flow; `Some(ModelFlowEffect::NoWork)` means it was handled without
/// backend work.
pub fn reduce<R>(state: &mut ModelFlowState<R>, message: ModelFlowMessage) -> (r: Option<
    ModelFlowEffect,
>)
    ensures
        (final(state)@, effect_view(r)) == reduce_spec(old(state)@, message@),
{
    match message {
        ModelFlowMessage::ConfirmModelDownload => {
            let wizard = state.wizard.take();
            match wizard {
                Some(WizardState::DownloadConsent { presentation, return_to }) => {
                    match state.model_flow_ids.allocate_ready() {
                        None => {
                            state.wizard = Some(
                                WizardState::DownloadFailed {
                                    presentation,
                                    return_to,
                                    failure: ModelDeliveryFailure::InternalState,
                                },
                            );
                            Some(ModelFlowEffect::NoWork)
                        },
                        Some(reserved_ready_id) => {
                            let dest_dir = presentation.destination.clone();
                            state.wizard = Some(
                                WizardState::Downloading {
                                    reserved_ready_id,
                                    dest_dir,
                                    presentation,
                                    return_to,
                                    current_artifact: None,
                                    bytes: 0,
                                    total: 0,
                                    files_done: 0,
                                    files_total: 0,
                                },
                            );
                            Some(ModelFlowEffect::StartManagedDownload)
                        },
                    }
                },
                other => {
                    state.wizard = other;
                    Some(ModelFlowEffect::NoWork)
                },
            }
        },
        ModelFlowMessage::WizardChecked { model_dir, checks, all_ok } => {
            if all_ok {
                match state.model_flow_ids.allocate_ready() {
                    Some(ready_id) => {
                        state.wizard = Some(
                            WizardState::Ready {
                                ready_id,
                                model_dir,
                                provenance: ModelProvenance::UserSupplied,
                                persistence: ModelPersistenceState::Idle,
                            },
                        );
                    },
                    None => {
                        state.wizard = Some(WizardState::Checked { model_dir, checks, all_ok: true });
                    },
                }
            } else {
                state.wizard = Some(WizardState::Checked { model_dir, checks, all_ok: false });
            }
            Some(ModelFlowEffect::NoWork)
        },
        ModelFlowMessage::WizardAccept => Some(begin_persistence(state)),
        ModelFlowMessage::ModelPersistenceCompleted {
            ready_id,
            persistence_attempt_id,
            model_dir,
            provenance,
            result,
        } => {
            apply_persistence_result(
                state,
                ready_id,
                persistence_attempt_id,
                &model_dir,
                provenance,
                result,
            );
            Some(ModelFlowEffect::NoWork)
        },
        ModelFlowMessage::DownloadFileProgress { artifact, bytes, total, files_done, files_total } => {
            let wizard = state.wizard.take();
            match wizard {
                Some(
                    WizardState::Downloading {
                        reserved_ready_id,
                        dest_dir,
                        presentation,
                        return_to,
                        ..
                    },
                ) => {
                    state.wizard = Some(
                        WizardState::Downloading {
                            reserved_ready_id,
                            dest_dir,
                            presentation,
                            return_to,
                            current_artifact: Some(artifact),
                            bytes,
                            total,
                            files_done,
                            files_total,
                        },
                    );
                },
                other => {
                    state.wizard = other;
                },
            }
            Some(ModelFlowEffect::NoWork)
        },
        ModelFlowMessage::DownloadAllComplete { dest_dir } => {
            let prior = state.wizard.take();
            match prior {
                Some(WizardState::Downloading { reserved_ready_id, .. }) => {
                    state.wizard = Some(
                        WizardState::Ready {
                            ready_id: reserved_ready_id,
                            model_dir: dest_dir,
                            provenance: ModelProvenance::AppManaged,
                            persistence: ModelPersistenceState::Idle,
                        },
                    );
                },
                other => {
                    state.wizard = other;
                },
            }
            Some(ModelFlowEffect::NoWork)
        },
        ModelFlowMessage::DownloadFailed(failure) => {
            let prior = state.wizard.take();
            match prior {
                Some(WizardState::Downloading { presentation, return_to, .. }) => {
                    state.wizard = Some(WizardState::DownloadFailed { presentation, return_to, failure });
                },
                other => {
                    state.wizard = other;
                },
            }
            Some(ModelFlowEffect::NoWork)
        },
        ModelFlowMessage::RetryModelDownload => {
            let prior = state.wizard.take();
            match prior {
                Some(WizardState::DownloadFailed { presentation, return_to, .. }) => {
                    state.wizard = Some(WizardState::DownloadConsent { presentation, return_to });
                },
                other => {
                    state.wizard = other;
                },
            }
            Some(ModelFlowEffect::NoWork)
        },
        ModelFlowMessage::Other => None,
    }
}

/// Saves a model preference; the production store writes the settings
/// file, and tests record or refuse.
///
/// A store may declare saves it always carries out (`saves_user_supplied`,
/// `saves_app_managed`), which must succeed, and saves it always refuses
/// (`refuses_user_supplied`, `refuses_app_managed`), which must fail. By
/// default it declares none.
pub trait ModelPreferenceStore {
    /// Saving this user-supplied folder always succeeds.
    open spec fn saves_user_supplied(&self, model_dir: Seq<char>) -> bool {
        false
    }

    /// Saving the app-managed model always succeeds.
    open spec fn saves_app_managed(&self) -> bool {
        false
    }

    /// Saving this user-supplied folder always fails.
    open spec fn refuses_user_supplied(&self, model_dir: Seq<char>) -> bool {
        false
    }

    /// Saving the app-managed model always fails.
    open spec fn refuses_app_managed(&self) -> bool {
        false
    }

    fn accept_user_supplied(&self, model_dir: &str) -> (r: Result<(), ()>)
        ensures
            self.saves_user_supplied(model_dir@) ==> r is Ok,
            self.refuses_user_supplied(model_dir@) ==> r is Err,
    ;

    fn accept_app_managed(&self) -> (r: Result<(), ()>)
        ensures
            self.saves_app_managed() ==> r is Ok,
            self.refuses_app_managed() ==> r is Err,
    ;
}

/// What a persistence request asks the store to save.
#[derive(Debug)]
pub enum StoreRequest {
    /// This folder, which the user supplied.
    UserSupplied(String),
    /// The app-managed model.
    AppManaged,
}

/// The view of a [`StoreRequest`].
pub enum RequestView {
    UserSupplied(Seq<char>),
    AppManaged,
}

impl View for StoreRequest {
    type V = RequestView;

    open spec fn view(&self) -> RequestView {
        match self {
            StoreRequest::UserSupplied(dir) => RequestView::UserSupplied(dir@),
            StoreRequest::AppManaged => RequestView::AppManaged,
        }
    }
}

/// The save an effect asks for: a user-supplied folder is saved as that
/// folder, an app-managed one as the managed model; any other effect asks
/// for none.
pub open spec fn request_of(effect: EffectView) -> Option<RequestView> {
    match effect {
        EffectView::PersistReady { model_dir, provenance, .. } => match provenance {
            ModelProvenance::UserSupplied => Some(RequestView::UserSupplied(model_dir)),
            ModelProvenance::AppManaged => Some(RequestView::AppManaged),
        },
        _ => None,
    }
}

/// The save an effect asks for (see [`request_of`]).
pub fn store_request(effect: &ModelFlowEffect) -> (r: Option<StoreRequest>)
    ensures
        match r {
            Some(req) => request_of(effect@) == Some(req@),
            None => request_of(effect@) is None,
        },
{
    match effect {
        ModelFlowEffect::PersistReady { model_dir, provenance, .. } => match provenance {
            ModelProvenance::UserSupplied => Some(StoreRequest::UserSupplied(model_dir.clone())),
            ModelProvenance::AppManaged => Some(StoreRequest::AppManaged),
        },
        _ => None,
    }
}

/// The completion reported for an effect once its save went as `saved`
/// says: the request's own identity, attempt, folder and provenance, and
/// `Saved` exactly when the save succeeded; any other effect reports
/// nothing.
pub open spec fn completion_of(effect: EffectView, saved: bool) -> Option<MessageView> {
    match effect {
        EffectView::PersistReady { ready_id, persistence_attempt_id, model_dir, provenance } => Some(
            MessageView::ModelPersistenceCompleted {
                ready_id,
                persistence_attempt_id,
                model_dir,
                provenance,
                result: if saved {
                    ModelPersistenceResult::Saved
                } else {
                    ModelPersistenceResult::Failed
                },
            },
        ),
        _ => None,
    }
}

/// The views of an optional message.
pub open spec fn message_opt_view(m: Option<ModelFlowMessage>) -> Option<MessageView> {
    match m {
        Some(m) => Some(m@),
        None => None,
    }
}

/// The completion of an effect whose save went as `saved` says (see
/// [`completion_of`]).
pub fn completion(effect: ModelFlowEffect, saved: bool) -> (r: Option<ModelFlowMessage>)
    ensures
        message_opt_view(r) == completion_of(effect@, saved),
{
    match effect {
        ModelFlowEffect::PersistReady { ready_id, persistence_attempt_id, model_dir, provenance } => {
            let result = if saved {
                ModelPersistenceResult::Saved
            } else {
                ModelPersistenceResult::Failed
            };
            Some(
                ModelFlowMessage::ModelPersistenceCompleted {
                    ready_id,
                    persistence_attempt_id,
                    model_dir,
                    provenance,
                    result,
                },
            )
        },
        _ => None,
    }
}

/// Whether `store` declares that it carries out the save `request` asks
/// for.
pub open spec fn store_carries_out<S: ModelPreferenceStore>(store: &S, request: RequestView) -> bool {
    match request {
        RequestView::UserSupplied(dir) => store.saves_user_supplied(dir),
        RequestView::AppManaged => store.saves_app_managed(),
    }
}

/// Whether `store` declares that it refuses the save `request` asks for.
pub open spec fn store_refuses<S: ModelPreferenceStore>(store: &S, request: RequestView) -> bool {
    match request {
        RequestView::UserSupplied(dir) => store.refuses_user_supplied(dir),
        RequestView::AppManaged => store.refuses_app_managed(),
    }
}

/// Carries out a persistence request: the store saves what the request asks
/// for (see [`request_of`]), and the completion names the request's own
/// identity, attempt, folder and provenance, `Saved` or `Failed` as the
/// save went. A save the store declares it always carries out is reported
/// `Saved`, and one it declares it refuses is reported `Failed`. Any other
/// effect has nothing to carry out.
pub fn execute_persistence<S: ModelPreferenceStore>(store: &S, effect: ModelFlowEffect) -> (r:
    Option<ModelFlowMessage>)
    ensures
        match request_of(effect@) {
            Some(request) => (message_opt_view(r) == completion_of(effect@, true)
                || message_opt_view(r) == completion_of(effect@, false)) && (store_carries_out(
                store,
                request,
            ) ==> message_opt_view(r) == completion_of(effect@, true)) && (store_refuses(
                store,
                request,
            ) ==> message_opt_view(r) == completion_of(effect@, false)),
            None => r is None,
        },
{
    let saved = match store_request(&effect) {
        Some(StoreRequest::UserSupplied(dir)) => store.accept_user_supplied(dir.as_str()).is_ok(),
        Some(StoreRequest::AppManaged) => store.accept_app_managed().is_ok(),
        None => false,
    };
    completion(effect, saved)
}

/// The names a download progress event may carry for a model file.
pub open spec fn artifact_of(logical_name: Seq<char>) -> Option<ModelArtifact> {
    if logical_name == "tokenizer"@ {
        Some(ModelArtifact::Tokenizer)
    } else if logical_name == "onnx-model"@ {
        Some(ModelArtifact::OnnxModel)
    } else {
        None
    }
}

/// The model file a progress event names; `None` for a name the flow does
/// not know, which is then not shown.
pub fn map_artifact(logical_name: &str) -> (r: Option<ModelArtifact>)
    ensures
        r == artifact_of(logical_name@),
{
    if text_equal(logical_name, "tokenizer") {
        Some(ModelArtifact::Tokenizer)
    } else if text_equal(logical_name, "onnx-model") {
        Some(ModelArtifact::OnnxModel)
    } else {
        None
    }
}

/// What the user is told for a delivery error: one of four safe categories,
/// never the error's own detail.
pub open spec fn delivery_failure_of(error: ModelDeliveryError) -> ModelDeliveryFailure {
    match error {
        ModelDeliveryError::StoreUnavailable | ModelDeliveryError::StoreBusy =>
            ModelDeliveryFailure::StoreUnavailable,
        ModelDeliveryError::Network => ModelDeliveryFailure::Connection,
        ModelDeliveryError::TrustPolicy | ModelDeliveryError::Plan | ModelDeliveryError::TransferLimit
        | ModelDeliveryError::Integrity | ModelDeliveryError::FinalCheck =>
            ModelDeliveryFailure::Verification,
        ModelDeliveryError::Filesystem | ModelDeliveryError::Catalog =>
            ModelDeliveryFailure::LocalStorage,
    }
}

pub fn map_delivery_error(error: &ModelDeliveryError) -> (r: ModelDeliveryFailure)
    ensures
        r == delivery_failure_of(*error),
{
    match error {
        ModelDeliveryError::StoreUnavailable | ModelDeliveryError::StoreBusy =>
            ModelDeliveryFailure::StoreUnavailable,
        ModelDeliveryError::Network => ModelDeliveryFailure::Connection,
        ModelDeliveryError::TrustPolicy | ModelDeliveryError::Plan | ModelDeliveryError::TransferLimit
        | ModelDeliveryError::Integrity | ModelDeliveryError::FinalCheck =>
            ModelDeliveryFailure::Verification,
        ModelDeliveryError::Filesystem | ModelDeliveryError::Catalog =>
            ModelDeliveryFailure::LocalStorage,
    }
}

/// What verifying the configured model folder found.
#[derive(Debug)]
pub enum VerifyOutcome {
    Ready,
    NotConfigured,
    /// Some required files are missing or wrong; `issues` names them by
    /// relative path.
    FilesInvalid { model_dir: String, issues: Vec<String> },
}

/// The views of a list of strings.
pub open spec fn texts_view(texts: Seq<String>) -> Seq<Seq<char>> {
    texts.map_values(|s: String| s@)
}

/// One check per required file, in order: found unless an issue names it.
pub open spec fn checks_against(required: Seq<Seq<char>>, issues: Seq<Seq<char>>) -> Seq<CheckView> {
    Seq::new(
        required.len(),
        |i: int| CheckView { relative_path: required[i], found: !issues.contains(required[i]) },
    )
}

/// One check per required file, all with the same finding.
pub open spec fn checks_all(required: Seq<Seq<char>>, found: bool) -> Seq<CheckView> {
    Seq::new(required.len(), |i: int| CheckView { relative_path: required[i], found })
}

fn text_in(list: &Vec<String>, item: &String) -> (r: bool)
    ensures
        r == texts_view(list@).contains(item@),
{
    let n = list.len();
    let mut i: usize = 0;
    while i < n
        invariant
            n == list@.len(),
            i <= n,
            forall|j: int| 0 <= j < i ==> texts_view(list@)[j] != item@,
        decreases n - i,
    {
        if list[i].eq(item) {
            assert(texts_view(list@)[i as int] == item@);
            return true;
        }
        i = i + 1;
    }
    false
}

fn file_checks(required: &Vec<String>, issues: Option<&Vec<String>>, found_all: bool) -> (r: Vec<
    WizardFileCheck,
>)
    ensures
        checks_view(r@) == match issues {
            Some(list) => checks_against(texts_view(required@), texts_view(list@)),
            None => checks_all(texts_view(required@), found_all),
        },
{
    let ghost expected = match issues {
        Some(list) => checks_against(texts_view(required@), texts_view(list@)),
        None => checks_all(texts_view(required@), found_all),
    };
    let mut checks: Vec<WizardFileCheck> = Vec::new();
    let n = required.len();
    let mut i: usize = 0;
    while i < n
        invariant
            n == required@.len(),
            i <= n,
            expected.len() == n,
            expected == match issues {
                Some(list) => checks_against(texts_view(required@), texts_view(list@)),
                None => checks_all(texts_view(required@), found_all),
            },
            checks_view(checks@) == expected.subrange(0, i as int),
        decreases n - i,
    {
        let found = match issues {
            Some(list) => !text_in(list, &required[i]),
            None => found_all,
        };
        let check = WizardFileCheck { relative_path: required[i].clone(), found };
        let ghost before = checks@;
        let ghost cv = check@;
        assert(cv == expected[i as int]);
        checks.push(check);
        assert(checks_view(checks@) =~= checks_view(before).push(cv));
        assert(expected.subrange(0, i + 1) =~= expected.subrange(0, i as int).push(
            expected[i as int],
        ));
        i = i + 1;
    }
    assert(expected.subrange(0, n as int) =~= expected);
    checks
}

/// The file checks the wizard shows for a verification outcome, and
/// whether all passed.
pub fn build_wizard_checks(outcome: &VerifyOutcome, required_files: &Vec<String>) -> (r: (
    Vec<WizardFileCheck>,
    bool,
))
    ensures
        match outcome {
            VerifyOutcome::Ready => checks_view(r.0@) == checks_all(texts_view(required_files@), true)
                && r.1,
            VerifyOutcome::NotConfigured => checks_view(r.0@) == checks_all(
                texts_view(required_files@),
                false,
            ) && !r.1,
            VerifyOutcome::FilesInvalid { issues, .. } => checks_view(r.0@) == checks_against(
                texts_view(required_files@),
                texts_view(issues@),
            ) && !r.1,
        },
{
    match outcome {
        VerifyOutcome::Ready => (file_checks(required_files, None, true), true),
        VerifyOutcome::FilesInvalid { issues, .. } => (
            file_checks(required_files, Some(issues), false),
            false,
        ),
        VerifyOutcome::NotConfigured => (file_checks(required_files, None, false), false),
    }
}

/// What startup shows for the configured model.
#[derive(Debug)]
pub struct StartupProjection<R> {
    pub capability: SearchCapability,
    pub wizard: Option<WizardState<R>>,
    pub active_provenance: Option<ModelProvenance>,
}

/// A ready model makes search hybrid with the provenance resolved for it;
/// no model opens the wizard at its start; a folder with missing files
/// opens the wizard on that folder, with a check per required file.
pub fn project_startup<R>(
    outcome: VerifyOutcome,
    resolved_provenance: Option<ModelProvenance>,
    required_files: &Vec<String>,
) -> (r: StartupProjection<R>)
    ensures
        match outcome {
            VerifyOutcome::Ready => r.capability == SearchCapability::Hybrid && r.wizard is None
                && r.active_provenance == resolved_provenance,
            VerifyOutcome::NotConfigured => r.capability == SearchCapability::KeywordOnly
                && (r.wizard matches Some(WizardState::NotConfigured)) && r.active_provenance is None,
            VerifyOutcome::FilesInvalid { model_dir, issues } => r.capability
                == SearchCapability::KeywordOnly && r.active_provenance is None && match r.wizard {
                Some(WizardState::FileMissing { previous_dir, checks }) => previous_dir@ == model_dir@
                    && checks_view(checks@) == checks_against(
                    texts_view(required_files@),
                    texts_view(issues@),
                ),
                _ => false,
            },
        },
{
    match outcome {
        VerifyOutcome::Ready => StartupProjection {
            capability: SearchCapability::Hybrid,
            wizard: None,
            active_provenance: resolved_provenance,
        },
        VerifyOutcome::NotConfigured => StartupProjection {
            capability: SearchCapability::KeywordOnly,
            wizard: Some(WizardState::NotConfigured),
            active_provenance: None,
        },
        VerifyOutcome::FilesInvalid { model_dir, issues } => {
            let checks = file_checks(required_files, Some(&issues), false);
            StartupProjection {
                capability: SearchCapability::KeywordOnly,
                wizard: Some(WizardState::FileMissing { previous_dir: model_dir, checks }),
                active_provenance: None,
            }
        },
    }
}

/// Every message but `Other` belongs to the flow, and only `Other` is
/// handed back as not owned.
pub proof fn law_only_other_is_not_owned<R>(s: FlowView<R>, m: MessageView)
    ensures
        reduce_spec(s, m).1 is None <==> m is Other,
{
}

/// Accepting again while a save is in flight asks for no second write and
/// changes nothing.
pub proof fn law_duplicate_accept_asks_no_second_write<R>(s: FlowView<R>)
    requires
        s.wizard matches Some(WizardView::Ready { persistence, .. }) && persistence is InFlight,
    ensures
        reduce_spec(s, MessageView::WizardAccept) == (s, Some(EffectView::NoWork)),
{
}

/// Accepting outside a `Ready` state does nothing.
pub proof fn law_accept_outside_ready_does_nothing<R>(s: FlowView<R>)
    requires
        !(s.wizard matches Some(WizardView::Ready { .. })),
    ensures
        reduce_spec(s, MessageView::WizardAccept) == (s, Some(EffectView::NoWork)),
{
}

/// A completion that does not name the save in flight -- another identity,
/// another attempt, another folder, another provenance, or one arriving a
/// second time -- changes nothing.
pub proof fn law_mismatched_completion_changes_nothing<R>(
    s: FlowView<R>,
    ready_id: ReadyId,
    attempt: PersistenceAttemptId,
    model_dir: Seq<char>,
    provenance: ModelProvenance,
    result: ModelPersistenceResult,
)
    requires
        !completion_matches(s, ready_id, attempt, model_dir, provenance),
    ensures
        reduce_spec(
            s,
            MessageView::ModelPersistenceCompleted {
                ready_id,
                persistence_attempt_id: attempt,
                model_dir,
                provenance,
                result,
            },
        ) == (s, Some(EffectView::NoWork)),
{
}

/// A model becomes active only by a saved completion of the save in
/// flight; then the wizard closes and the provenance is the completion's.
pub proof fn law_only_a_matching_save_activates_the_model<R>(s: FlowView<R>, m: MessageView)
    requires
        s.capability == SearchCapability::KeywordOnly,
        reduce_spec(s, m).0.capability == SearchCapability::Hybrid,
    ensures
        m matches MessageView::ModelPersistenceCompleted {
            ready_id,
            persistence_attempt_id,
            model_dir,
            provenance,
            result,
        } && result == ModelPersistenceResult::Saved && completion_matches(
            s,
            ready_id,
            persistence_attempt_id,
            model_dir,
            provenance,
        ) && reduce_spec(s, m).0.wizard is None && reduce_spec(s, m).0.active_model_provenance
            == Some(provenance),
{
}

/// The save the accept starts is the one whose completion activates the
/// model: accepting from `Ready`, then completing that exact request as
/// saved, makes search hybrid with the `Ready` state's provenance.
pub proof fn law_accept_then_saved_completion_activates<R>(s: FlowView<R>)
    requires
        s.wizard matches Some(WizardView::Ready { persistence, .. }) && !(persistence is InFlight),
        s.ids.next_attempt < u64::MAX,
    ensures
        ({
            let (t, e) = reduce_spec(s, MessageView::WizardAccept);
            e matches Some(
                EffectView::PersistReady {
                    ready_id,
                    persistence_attempt_id,
                    model_dir,
                    provenance,
                },
            ) && {
                let u = reduce_spec(
                    t,
                    MessageView::ModelPersistenceCompleted {
                        ready_id,
                        persistence_attempt_id,
                        model_dir,
                        provenance,
                        result: ModelPersistenceResult::Saved,
                    },
                ).0;
                u.capability == SearchCapability::Hybrid && u.wizard is None
                    && u.active_model_provenance == Some(provenance) && s.wizard->0
                    == (WizardView::<R>::Ready {
                    ready_id,
                    model_dir,
                    provenance,
                    persistence: s.wizard->0->Ready_persistence,
                })
            }
        }),
{
}

/// A finished download makes the wizard ready at the folder the download
/// installed, under the identity reserved when it started, as an
/// app-managed model with nothing saved yet.
pub proof fn law_a_finished_download_is_ready_at_its_folder<R>(s: FlowView<R>, dest_dir: Seq<char>)
    requires
        s.wizard matches Some(WizardView::Downloading { .. }),
    ensures
        reduce_spec(s, MessageView::DownloadAllComplete { dest_dir }).0.wizard == Some(
            WizardView::<R>::Ready {
                ready_id: s.wizard->0->Downloading_reserved_ready_id,
                model_dir: dest_dir,
                provenance: ModelProvenance::AppManaged,
                persistence: ModelPersistenceState::Idle,
            },
        ),
        reduce_spec(s, MessageView::DownloadAllComplete { dest_dir }).0.capability == s.capability,
        reduce_spec(s, MessageView::DownloadAllComplete { dest_dir }).0.ids == s.ids,
        reduce_spec(s, MessageView::DownloadAllComplete { dest_dir }).0.active_model_provenance
            == s.active_model_provenance,
        reduce_spec(s, MessageView::DownloadAllComplete { dest_dir }).0.wizard_path_input
            == s.wizard_path_input,
{
}

/// Each save attempt has an identity never handed out before: once an
/// attempt has been handed out, any later accept asks with another one.
pub proof fn law_each_attempt_is_fresh<R>(s: FlowView<R>, earlier: PersistenceAttemptId)
    requires
        earlier.0 < s.ids.next_attempt,
    ensures
        ({
            let (t, e) = begin_persistence_spec(s);
            &&& (e matches EffectView::PersistReady { persistence_attempt_id, .. }
                ==> persistence_attempt_id != earlier && persistence_attempt_id.0 < t.ids.next_attempt)
            &&& t.ids.next_attempt >= s.ids.next_attempt
        }),
{
}

/// Download progress never creates a `Ready` state, or any other: it only
/// updates a download in progress.
pub proof fn law_progress_keeps_the_state_kind<R>(
    s: FlowView<R>,
    artifact: ModelArtifact,
    bytes: u64,
    total: u64,
    files_done: u64,
    files_total: u64,
)
    ensures
        ({
            let t = reduce_spec(
                s,
                MessageView::DownloadFileProgress { artifact, bytes, total, files_done, files_total },
            ).0;
            &&& (s.wizard matches Some(WizardView::Downloading { .. })) ==> (t.wizard matches Some(
                WizardView::Downloading { .. },
            ))
            &&& !(s.wizard matches Some(WizardView::Downloading { .. })) ==> t == s
            &&& t.capability == s.capability
            &&& t.ids == s.ids
        }),
{
}

/// A failed download keeps the consent, never becomes `Ready`, and retrying
/// returns to the consent screen without starting any work.
pub proof fn law_failure_keeps_consent_and_retry_starts_nothing<R>(
    s: FlowView<R>,
    failure: ModelDeliveryFailure,
)
    requires
        s.wizard matches Some(WizardView::Downloading { .. }),
    ensures
        ({
            let t = reduce_spec(s, MessageView::DownloadFailed(failure)).0;
            let (u, e) = reduce_spec(t, MessageView::RetryModelDownload);
            &&& t.wizard == Some(
                WizardView::DownloadFailed {
                    destination: s.wizard->0->Downloading_destination,
                    return_to: s.wizard->0->Downloading_return_to,
                    failure,
                },
            )
            &&& u.wizard == Some(
                WizardView::DownloadConsent {
                    destination: s.wizard->0->Downloading_destination,
                    return_to: s.wizard->0->Downloading_return_to,
                },
            )
            &&& e == Some(EffectView::NoWork)
        }),
{
}

/// Confirming a download is asked for once: after the first confirmation
/// the flow is downloading, and a second confirmation changes nothing.
pub proof fn law_confirmation_is_duplicate_safe<R>(s: FlowView<R>)
    requires
        s.wizard matches Some(WizardView::DownloadConsent { .. }),
        s.ids.next_ready < u64::MAX,
    ensures
        ({
            let (t, e) = reduce_spec(s, MessageView::ConfirmModelDownload);
            &&& e == Some(EffectView::StartManagedDownload)
            &&& t.wizard matches Some(WizardView::Downloading { .. })
            &&& reduce_spec(t, MessageView::ConfirmModelDownload) == (t, Some(EffectView::NoWork))
        }),
{
}

/// The embedding model folder of the active profile, and where it came
/// from.
#[derive(Debug)]
pub struct ResolvedModelDir {
    pub path: Option<String>,
    pub provenance: Option<ModelProvenance>,
}

/// The model folder to use: the managed store's current generation when
/// the catalog records one; otherwise the configured folder, unless it lies
/// inside the managed store (a managed folder is never treated as one the
/// user supplied); otherwise none.
pub fn resolve_model_dir(
    current_generation_dir: Option<String>,
    configured_dir: Option<&str>,
    configured_in_store: bool,
) -> (r: ResolvedModelDir)
    ensures
        match current_generation_dir {
            Some(dir) => r.path matches Some(p) && p@ == dir@ && r.provenance == Some(
                ModelProvenance::AppManaged,
            ),
            None => match configured_dir {
                Some(dir) => if configured_in_store {
                    r.path is None && r.provenance is None
                } else {
                    r.path matches Some(p) && p@ == dir@ && r.provenance == Some(
                        ModelProvenance::UserSupplied,
                    )
                },
                None => r.path is None && r.provenance is None,
            },
        },
{
    match current_generation_dir {
        Some(dir) => ResolvedModelDir { path: Some(dir), provenance: Some(ModelProvenance::AppManaged) },
        None => match configured_dir {
            Some(dir) => if configured_in_store {
                ResolvedModelDir { path: None, provenance: None }
            } else {
                ResolvedModelDir {
                    path: Some(crate::text::owned(dir)),
                    provenance: Some(ModelProvenance::UserSupplied),
                }
            },
            None => ResolvedModelDir { path: None, provenance: None },
        },
    }
}

} // verus!
