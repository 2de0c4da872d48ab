//! The decisions of the background indexing loop: which kind of work a
//! recorded job is, what the loop does with it, how the held resource
//! observations become the scheduler's view of the user and the battery,
//! and whether queued work resumes at startup.

use vstd::prelude::*;

verus! {

/// The type a job is recorded with in the catalog.
#[derive(Clone, Copy, Debug, PartialEq, Eq, Structural)]
pub enum JobType {
    Scan,
    Extract,
    Chunk,
    KeywordIndex,
    Embedding,
    DeleteStale,
    Rebuild,
}

/// The kind of work the scheduler runs.
#[derive(Clone, Copy, Debug, PartialEq, Eq, Structural)]
pub enum JobKind {
    ScanSource,
    ExtractFile,
    ChunkFile,
    UpdateKeywordIndex,
    GenerateEmbedding,
    Cleanup,
    Repair,
}

/// The work each recorded job type stands for.
pub open spec fn kind_of(job_type: JobType) -> JobKind {
    match job_type {
        JobType::Scan => JobKind::ScanSource,
        JobType::Extract => JobKind::ExtractFile,
        JobType::Chunk => JobKind::ChunkFile,
        JobType::KeywordIndex => JobKind::UpdateKeywordIndex,
        JobType::Embedding => JobKind::GenerateEmbedding,
        JobType::DeleteStale => JobKind::Cleanup,
        JobType::Rebuild => JobKind::Repair,
    }
}

/// The kind of work a recorded job is run as.
pub fn job_kind_for(job_type: JobType) -> (r: JobKind)
    ensures
        r == kind_of(job_type),
{
    match job_type {
        JobType::Scan => JobKind::ScanSource,
        JobType::Extract => JobKind::ExtractFile,
        JobType::Chunk => JobKind::ChunkFile,
        JobType::KeywordIndex => JobKind::UpdateKeywordIndex,
        JobType::Embedding => JobKind::GenerateEmbedding,
        JobType::DeleteStale => JobKind::Cleanup,
        JobType::Rebuild => JobKind::Repair,
    }
}

/// What the loop does with a job it took from the scheduler.
#[derive(Clone, Copy, Debug, PartialEq, Eq, Structural)]
pub enum Dispatch {
    /// Walk the job's source.
    Scan,
    /// Extract the job's file.
    Extract,
    /// Chunk and keyword-index the job's file.
    Chunk,
    /// Embed the job's file with the resolved model.
    Embed,
    /// Fail the job: no embedding model was resolved at startup.
    ModelMissing,
    /// Nothing to run; the job completes.
    Nothing,
}

/// The dispatch of a job of `kind`, with or without a file, given whether
/// an embedding model was resolved: a scan needs no file; the file kinds
/// need one; an embedding without a model fails as `model_missing`;
/// anything else completes with nothing run.
pub open spec fn dispatch_spec(kind: JobKind, has_file: bool, has_model: bool) -> Dispatch {
    match kind {
        JobKind::ScanSource => Dispatch::Scan,
        JobKind::ExtractFile => if has_file {
            Dispatch::Extract
        } else {
            Dispatch::Nothing
        },
        JobKind::ChunkFile | JobKind::UpdateKeywordIndex => if has_file {
            Dispatch::Chunk
        } else {
            Dispatch::Nothing
        },
        JobKind::GenerateEmbedding => if !has_file {
            Dispatch::Nothing
        } else if has_model {
            Dispatch::Embed
        } else {
            Dispatch::ModelMissing
        },
        _ => Dispatch::Nothing,
    }
}

/// What the loop does with a job (see [`dispatch_spec`]).
pub fn dispatch(kind: JobKind, has_file: bool, has_model: bool) -> (r: Dispatch)
    ensures
        r == dispatch_spec(kind, has_file, has_model),
{
    match kind {
        JobKind::ScanSource => Dispatch::Scan,
        JobKind::ExtractFile => if has_file {
            Dispatch::Extract
        } else {
            Dispatch::Nothing
        },
        JobKind::ChunkFile | JobKind::UpdateKeywordIndex => if has_file {
            Dispatch::Chunk
        } else {
            Dispatch::Nothing
        },
        JobKind::GenerateEmbedding => if !has_file {
            Dispatch::Nothing
        } else if has_model {
            Dispatch::Embed
        } else {
            Dispatch::ModelMissing
        },
        _ => Dispatch::Nothing,
    }
}

/// A failure of a job's work.
#[derive(Clone, Copy, Debug)]
pub enum WorkerFailure {
    /// An embedding failure, with its category.
    Embedding { category: &'static str },
    /// Any other failure.
    Other,
}

/// The category the scheduler decides retry or terminal failure by: an
/// embedding failure's own category, `worker_error` for anything else.
pub fn error_kind_for(failure: WorkerFailure) -> (r: &'static str)
    ensures
        r@ == match failure {
            WorkerFailure::Embedding { category } => category@,
            WorkerFailure::Other => "worker_error"@,
        },
{
    match failure {
        WorkerFailure::Embedding { category } => category,
        WorkerFailure::Other => "worker_error",
    }
}

/// What the loop does with queued work when it starts.
#[derive(Clone, Copy, Debug, PartialEq, Eq, Structural)]
pub enum StartupQueueAction {
    /// Resume work, including work a previous session paused.
    Resume,
    /// Pause before any job runs, queued work included.
    Pause,
}

/// Background indexing on resumes queued work; off pauses it.
pub fn startup_queue_action(background_indexing: bool) -> (r: StartupQueueAction)
    ensures
        r == (if background_indexing {
            StartupQueueAction::Resume
        } else {
            StartupQueueAction::Pause
        }),
{
    if background_indexing {
        StartupQueueAction::Resume
    } else {
        StartupQueueAction::Pause
    }
}

/// How long after the last sign of activity the user counts as idle, in
/// milliseconds.
pub const USER_IDLE_TIMEOUT_MS: u64 = 2000;

/// An observation a producer reports about the environment.
#[derive(Clone, Copy, Debug, PartialEq, Eq, Structural)]
pub enum ResourceObservation {
    /// The user is typing or searching.
    UserActive,
    /// The machine's power source changed: on battery or not.
    OnBattery(bool),
}

/// The observations the loop holds between iterations: when the user was
/// last seen active, in milliseconds, and the last reported power state.
#[derive(Clone, Copy, Debug, PartialEq, Eq, Structural)]
pub struct ObservationState {
    pub last_user_activity: Option<u64>,
    pub on_battery: bool,
}

/// The held state after taking in `observations`, received at `now`:
/// activity is stamped with `now`, a power report replaces the power state.
pub open spec fn take_in(state: ObservationState, observations: Seq<ResourceObservation>, now: u64) -> ObservationState
    decreases observations.len(),
{
    if observations.len() == 0 {
        state
    } else {
        let before = take_in(state, observations.drop_last(), now);
        match observations.last() {
            ResourceObservation::UserActive => ObservationState { last_user_activity: Some(now), ..before },
            ResourceObservation::OnBattery(b) => ObservationState { on_battery: b, ..before },
        }
    }
}

/// Whether activity stamped `last` still counts at `now`: less than the
/// idle timeout ago.
pub open spec fn still_active(last: Option<u64>, now: u64) -> bool {
    match last {
        Some(t) => (if now >= t {
            now - t
        } else {
            0
        }) < USER_IDLE_TIMEOUT_MS,
        None => false,
    }
}

/// One iteration's observation step: the observations are taken in; the
/// user is active while the last activity is within the timeout, and a
/// stamp that has run out is dropped; the battery counts only where the
/// user lets it pause embedding. The result is the new held state, whether
/// the user is active, and whether the machine counts as on battery.
pub open spec fn observe_spec(
    state: ObservationState,
    observations: Seq<ResourceObservation>,
    now: u64,
    pause_on_battery: bool,
) -> (ObservationState, bool, bool) {
    let held = take_in(state, observations, now);
    let active = still_active(held.last_user_activity, now);
    let next = if held.last_user_activity is Some && !active {
        ObservationState { last_user_activity: None, ..held }
    } else {
        held
    };
    (next, active, held.on_battery && pause_on_battery)
}

/// One iteration's observation step (see [`observe_spec`]).
pub fn observe(
    state: ObservationState,
    observations: &Vec<ResourceObservation>,
    now: u64,
    pause_on_battery: bool,
) -> (r: (ObservationState, bool, bool))
    ensures
        r == observe_spec(state, observations@, now, pause_on_battery),
{
    let mut held = state;
    let n = observations.len();
    let mut i: usize = 0;
    while i < n
        invariant
            n == observations@.len(),
            i <= n,
            held == take_in(state, observations@.subrange(0, i as int), now),
        decreases n - i,
    {
        assert(observations@.subrange(0, i + 1).drop_last() =~= observations@.subrange(0, i as int));
        assert(observations@.subrange(0, i + 1).last() == observations@[i as int]);
        match observations[i] {
            ResourceObservation::UserActive => {
                held = ObservationState { last_user_activity: Some(now), ..held };
            },
            ResourceObservation::OnBattery(b) => {
                held = ObservationState { on_battery: b, ..held };
            },
        }
        i = i + 1;
    }
    assert(observations@.subrange(0, n as int) =~= observations@);
    let active = match held.last_user_activity {
        Some(t) => {
            let elapsed = if now >= t {
                now - t
            } else {
                0
            };
            elapsed < USER_IDLE_TIMEOUT_MS
        },
        None => false,
    };
    let next = if held.last_user_activity.is_some() && !active {
        ObservationState { last_user_activity: None, ..held }
    } else {
        held
    };
    (next, active, held.on_battery && pause_on_battery)
}

/// Neither observation is lost behind the other: activity leaves the
/// power state as it was, and a power report leaves the activity stamp as
/// it was.
pub proof fn law_observations_do_not_overwrite_each_other(
    state: ObservationState,
    now: u64,
    on_battery: bool,
)
    ensures
        take_in(state, seq![ResourceObservation::UserActive], now).on_battery == state.on_battery,
        take_in(state, seq![ResourceObservation::OnBattery(on_battery)], now).last_user_activity
            == state.last_user_activity,
{
    let active = seq![ResourceObservation::UserActive];
    let power = seq![ResourceObservation::OnBattery(on_battery)];
    assert(active.drop_last() =~= Seq::<ResourceObservation>::empty());
    assert(power.drop_last() =~= Seq::<ResourceObservation>::empty());
    assert(take_in(state, Seq::<ResourceObservation>::empty(), now) == state);
    assert(active.last() == ResourceObservation::UserActive);
    assert(power.last() == ResourceObservation::OnBattery(on_battery));
    assert(take_in(state, active, now) == ObservationState { last_user_activity: Some(now), ..state });
    assert(take_in(state, power, now) == ObservationState { on_battery: on_battery, ..state });
}

/// The battery is ignored where the user does not let it pause embedding.
pub proof fn law_battery_counts_only_when_allowed(
    state: ObservationState,
    observations: Seq<ResourceObservation>,
    now: u64,
)
    ensures
        !observe_spec(state, observations, now, false).2,
{
}

} // verus!
