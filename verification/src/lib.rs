//! Runtime-profile logic of the orbok desktop search app: profile paths,
//! command-line parsing, settings, and the model-setup state machine.

pub mod text;
pub mod paths;
pub mod runtime_context;
pub mod cli;
pub mod settings;
pub mod sources;
pub mod runtime_storage;
pub mod model_flow;
pub mod diagnostics;
pub mod launch;
pub mod battery;
pub mod physical_identity;
pub mod search_scope;
pub mod storage_measurement;
pub mod scheduling;
pub mod appearance;
