use vstd::prelude::*;
use crate::env::EnvVars;
use crate::role::WorkerRole;

verus! {

/// Where a worker's standard streams go.
#[derive(PartialEq, Eq, Structural, Clone, Copy, Debug)]
pub enum StdioMode {
    /// Inherited from the host process.
    Inherit,
    /// Bound to a sink that discards everything.
    Discard,
}

/// One unit of host functionality exposed to guest code.
#[derive(PartialEq, Eq, Structural, Clone, Copy, Debug)]
pub enum Capability {
    /// Permission checks; network requests are refused where access is disabled.
    Permissions { net_access_disabled: bool },
    WebIdl,
    Console,
    Url,
    Web,
    Fetch,
    WebSocket,
    Crypto,
    BroadcastChannel,
    Net,
    Tls,
    Http,
    Io(StdioMode),
    Fs,
    Env,
    Os,
    /// Asking the pool to spawn sibling user workers.
    UserWorkerPool,
    UserEventWorker,
    EventInterceptors,
    CoreMainJs,
    CoreNet,
    CoreHttp,
    Node,
    CoreRuntime,
}

pub open spec fn stdio_of(role: WorkerRole) -> StdioMode {
    if role is User {
        StdioMode::Discard
    } else {
        StdioMode::Inherit
    }
}

/// The capability set of `role`, in the order in which it is installed.
pub open spec fn capability_seq(role: WorkerRole) -> Seq<Capability> {
    seq![
        Capability::Permissions { net_access_disabled: role.spec_net_access_disabled() },
        Capability::WebIdl,
        Capability::Console,
        Capability::Url,
        Capability::Web,
        Capability::Fetch,
        Capability::WebSocket,
        Capability::Crypto,
        Capability::BroadcastChannel,
    ] + (if role.spec_net_access_disabled() {
        Seq::empty()
    } else {
        seq![Capability::Net]
    }) + seq![
        Capability::Tls,
        Capability::Http,
        Capability::Io(stdio_of(role)),
        Capability::Fs,
        Capability::Env,
        Capability::Os,
    ] + (if role is Main {
        seq![Capability::UserWorkerPool]
    } else {
        Seq::empty()
    }) + seq![
        Capability::UserEventWorker,
        Capability::EventInterceptors,
        Capability::CoreMainJs,
        Capability::CoreNet,
        Capability::CoreHttp,
        Capability::Node,
        Capability::CoreRuntime,
    ]
}

/// Standard streams of a worker: a user worker's are discarded.
pub fn stdio_mode(role: &WorkerRole) -> (r: StdioMode)
    ensures
        r == stdio_of(*role),
{
    if role.is_user_worker() {
        StdioMode::Discard
    } else {
        StdioMode::Inherit
    }
}

/// Assembles the capability set of `role`.
pub fn assemble_capabilities(role: &WorkerRole) -> (r: Vec<Capability>)
    ensures
        r@ == capability_seq(*role),
{
    let net_off = role.net_access_disabled();
    let mut v: Vec<Capability> = Vec::new();
    v.push(Capability::Permissions { net_access_disabled: net_off });
    v.push(Capability::WebIdl);
    v.push(Capability::Console);
    v.push(Capability::Url);
    v.push(Capability::Web);
    v.push(Capability::Fetch);
    v.push(Capability::WebSocket);
    v.push(Capability::Crypto);
    v.push(Capability::BroadcastChannel);
    if !net_off {
        v.push(Capability::Net);
    }
    v.push(Capability::Tls);
    v.push(Capability::Http);
    v.push(Capability::Io(stdio_mode(role)));
    v.push(Capability::Fs);
    v.push(Capability::Env);
    v.push(Capability::Os);
    if role.is_main_worker() {
        v.push(Capability::UserWorkerPool);
    }
    v.push(Capability::UserEventWorker);
    v.push(Capability::EventInterceptors);
    v.push(Capability::CoreMainJs);
    v.push(Capability::CoreNet);
    v.push(Capability::CoreHttp);
    v.push(Capability::Node);
    v.push(Capability::CoreRuntime);
    assert(v@ =~= capability_seq(*role));
    v
}

/// Whether `caps` holds `c`.
pub fn has_capability(caps: &Vec<Capability>, c: Capability) -> (r: bool)
    ensures
        r == caps@.contains(c),
{
    let mut i: usize = 0;
    while i < caps.len()
        invariant
            0 <= i <= caps@.len(),
            forall|j: int| 0 <= j < i ==> caps@[j] != c,
        decreases caps@.len() - i,
    {
        if caps[i] == c {
            assert(caps@[i as int] == c);
            return true;
        }
        i = i + 1;
    }
    false
}

/// A request that guest code makes of the host.
pub enum HostCall {
    SpawnSubprocess,
    GetEnv(String),
    SetEnv(String, String),
    OpenConnection,
    DispatchToPool,
}

/// Why the host refused a call.
#[derive(PartialEq, Eq, Structural, Clone, Copy, Debug)]
pub enum Denial {
    /// A user worker tried to start a subprocess.
    SpawnNotAllowed,
    /// The environment is read-only to guests.
    NotSupported,
    /// The worker was configured without network access.
    NetAccessDisabled,
    /// The worker's capability set does not hold what the call needs.
    CapabilityAbsent,
}

pub open spec fn denial_text(d: Denial) -> Seq<char> {
    match d {
        Denial::SpawnNotAllowed => "Spawning subprocesses is not allowed on Supabase Edge Runtime"@,
        Denial::NotSupported => "NotSupported: The operation is not supported"@,
        Denial::NetAccessDisabled => "PermissionDenied: network access is disabled for this worker"@,
        Denial::CapabilityAbsent => "NotCapable: this worker has no such capability"@,
    }
}

impl Denial {
    /// The message that guest code sees.
    pub fn message(&self) -> (r: String)
        ensures
            r@ == denial_text(*self),
    {
        match self {
            Denial::SpawnNotAllowed => String::from_str("Spawning subprocesses is not allowed on Supabase Edge Runtime"),
            Denial::NotSupported => String::from_str("NotSupported: The operation is not supported"),
            Denial::NetAccessDisabled => String::from_str(
                "PermissionDenied: network access is disabled for this worker",
            ),
            Denial::CapabilityAbsent => String::from_str("NotCapable: this worker has no such capability"),
        }
    }
}

/// The answer to `call` from a worker of `role` with capabilities `caps` and
/// environment `env`: `Ok` with the value read, if any, or the denial.
pub open spec fn host_call_outcome(
    role: WorkerRole,
    caps: Seq<Capability>,
    env: Map<Seq<char>, Seq<char>>,
    call: HostCall,
) -> Result<Option<Seq<char>>, Denial> {
    match call {
        HostCall::SpawnSubprocess => if role is User {
            Err(Denial::SpawnNotAllowed)
        } else {
            Err(Denial::CapabilityAbsent)
        },
        HostCall::GetEnv(k) => if caps.contains(Capability::Env) {
            Ok(if env.contains_key(k@) { Some(env[k@]) } else { None })
        } else {
            Err(Denial::CapabilityAbsent)
        },
        HostCall::SetEnv(_, _) => Err(Denial::NotSupported),
        HostCall::OpenConnection => if caps.contains(Capability::Net) {
            Ok(None)
        } else {
            Err(Denial::NetAccessDisabled)
        },
        HostCall::DispatchToPool => if caps.contains(Capability::UserWorkerPool) {
            Ok(None)
        } else {
            Err(Denial::CapabilityAbsent)
        },
    }
}

/// Answers a host call from guest code. No worker can start a subprocess,
/// and a user worker is told so in its own words; no guest can change the
/// environment.
pub fn call_host(role: &WorkerRole, caps: &Vec<Capability>, env: &EnvVars, call: HostCall) -> (r:
    Result<Option<String>, Denial>)
    requires
        env.wf(),
    ensures
        match (r, host_call_outcome(*role, caps@, env@, call)) {
            (Ok(Some(v)), Ok(Some(w))) => v@ == w,
            (Ok(None), Ok(None)) => true,
            (Err(d), Err(e)) => d == e,
            _ => false,
        },
{
    match call {
        HostCall::SpawnSubprocess => if role.is_user_worker() {
            Err(Denial::SpawnNotAllowed)
        } else {
            Err(Denial::CapabilityAbsent)
        },
        HostCall::GetEnv(k) => if has_capability(caps, Capability::Env) {
            Ok(env.get(&k))
        } else {
            Err(Denial::CapabilityAbsent)
        },
        HostCall::SetEnv(_, _) => Err(Denial::NotSupported),
        HostCall::OpenConnection => if has_capability(caps, Capability::Net) {
            Ok(None)
        } else {
            Err(Denial::NetAccessDisabled)
        },
        HostCall::DispatchToPool => if has_capability(caps, Capability::UserWorkerPool) {
            Ok(None)
        } else {
            Err(Denial::CapabilityAbsent)
        },
    }
}

} // verus!
