// Supervisor of isolated script workers: role configuration, capability
// assembly, environment snapshots, trust-store selection, the bootstrap call,
// memory budgets and the classification of a run's outcome. The script engine
// and its I/O stay with the host; this crate decides, the host carries out.

pub mod bootstrap;
pub mod capability;
pub mod env;
pub mod error;
pub mod laws;
pub mod memory;
pub mod outcome;
pub mod role;
pub mod runtime;
pub mod state;
pub mod trust_store;
pub mod urls;

pub use bootstrap::bootstrap_script;
pub use capability::{
    assemble_capabilities, call_host, has_capability, stdio_mode, Capability, Denial, HostCall,
    StdioMode,
};
pub use env::EnvVars;
pub use error::{get_error_class_name, DenoRuntimeError, SetupError};
pub use memory::MemoryBudget;
pub use outcome::{
    classify, EvaluationState, ExecutionOutcome, GuestError, RunObservation, SchedulerState,
};
pub use role::{mib_to_bytes, UserWorkerConfig, WorkerRole};
pub use runtime::{CacheSetting, CodeSource, DenoRuntime, HostSettings, WorkerInitRequest};
pub use state::{
    construction_state_keys, env_snapshot, event_metadata, run_state_keys, EventMetadata, StateKey,
};
pub use trust_store::{select_ca_stores, split_commas, trim_text, CaStore};
pub use urls::join_path;
