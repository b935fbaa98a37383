use vstd::prelude::*;

verus! {

/// Parameters of a sandboxed user worker.
pub struct UserWorkerConfig {
    pub service_path: String,
    pub memory_limit_mb: u64,
    pub worker_timeout_ms: u64,
    pub cpu_time_soft_limit_ms: u64,
    pub cpu_time_hard_limit_ms: u64,
    pub low_memory_multiplier: u64,
    pub net_access_disabled: bool,
    pub allow_remote_modules: bool,
    /// Opaque identity of one execution.
    pub execution_key: Option<String>,
    /// Whether an outbound events channel was configured for this worker.
    pub has_events_channel: bool,
}

/// The trust tier of a worker. The channels that a role carries at run time
/// (the pool dispatcher of the main worker, the event stream of the event
/// worker) are held by the host; here a role carries only plain values.
pub enum WorkerRole {
    /// Privileged worker that may ask the pool for user workers.
    Main,
    /// Sandboxed worker running untrusted code.
    User(UserWorkerConfig),
    /// Worker that relays lifecycle and telemetry events.
    Event,
}

pub open spec fn mib_bytes(mb: nat) -> nat {
    mb * 1048576
}

/// `mb` mebibytes in bytes, or `u64::MAX` where that does not fit.
pub open spec fn saturated_mib_bytes(mb: nat) -> nat {
    if mib_bytes(mb) <= u64::MAX {
        mib_bytes(mb)
    } else {
        u64::MAX as nat
    }
}

/// Converts mebibytes to bytes, saturating at `u64::MAX`.
pub fn mib_to_bytes(mb: u64) -> (r: u64)
    ensures
        r as nat == saturated_mib_bytes(mb as nat),
{
    if mb <= 17592186044415 {
        mb * 1048576
    } else {
        u64::MAX
    }
}

impl WorkerRole {
    pub open spec fn spec_deadline_ms(&self) -> Option<u64> {
        match self {
            WorkerRole::User(c) => Some(c.worker_timeout_ms),
            _ => None,
        }
    }

    pub open spec fn spec_heap_limit_bytes(&self) -> Option<u64> {
        match self {
            WorkerRole::User(c) => Some(saturated_mib_bytes(c.memory_limit_mb as nat) as u64),
            _ => None,
        }
    }

    pub open spec fn spec_net_access_disabled(&self) -> bool {
        match self {
            WorkerRole::User(c) => c.net_access_disabled,
            _ => false,
        }
    }

    pub open spec fn spec_allow_remote_modules(&self) -> bool {
        match self {
            WorkerRole::User(c) => c.allow_remote_modules,
            _ => true,
        }
    }

    pub fn is_user_worker(&self) -> (r: bool)
        ensures
            r == self is User,
    {
        match self {
            WorkerRole::User(_) => true,
            _ => false,
        }
    }

    pub fn is_main_worker(&self) -> (r: bool)
        ensures
            r == self is Main,
    {
        match self {
            WorkerRole::Main => true,
            _ => false,
        }
    }

    pub fn is_events_worker(&self) -> (r: bool)
        ensures
            r == self is Event,
    {
        match self {
            WorkerRole::Event => true,
            _ => false,
        }
    }

    /// Wall-clock budget of one run: only a user worker has one.
    pub fn deadline_ms(&self) -> (r: Option<u64>)
        ensures
            r == self.spec_deadline_ms(),
    {
        match self {
            WorkerRole::User(c) => Some(c.worker_timeout_ms),
            _ => None,
        }
    }

    /// Heap ceiling in bytes: only a user worker has one.
    pub fn heap_limit_bytes(&self) -> (r: Option<u64>)
        ensures
            r == self.spec_heap_limit_bytes(),
    {
        match self {
            WorkerRole::User(c) => Some(mib_to_bytes(c.memory_limit_mb)),
            _ => None,
        }
    }

    pub fn net_access_disabled(&self) -> (r: bool)
        ensures
            r == self.spec_net_access_disabled(),
    {
        match self {
            WorkerRole::User(c) => c.net_access_disabled,
            _ => false,
        }
    }

    pub fn allow_remote_modules(&self) -> (r: bool)
        ensures
            r == self.spec_allow_remote_modules(),
    {
        match self {
            WorkerRole::User(c) => c.allow_remote_modules,
            _ => true,
        }
    }
}

} // verus!
