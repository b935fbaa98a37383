use vstd::prelude::*;
use crate::env::EnvVars;
use crate::role::WorkerRole;

verus! {

/// A key of the per-isolate singleton store. Each is written at most once.
#[derive(PartialEq, Eq, Structural, Clone, Copy, Debug)]
pub enum StateKey {
    /// Inbound stream of runtime events (events worker).
    EventReceiver,
    /// Outbound sender of runtime events (user worker with an events channel).
    EventSender,
    /// Who emits the events: service path and execution key.
    EventMetadata,
    /// The environment snapshot.
    EnvVars,
    /// Incoming connections to serve (every role, at run time).
    ConnectionReceiver,
    /// The pool dispatcher (main worker, at run time).
    PoolDispatch,
}

pub open spec fn has_events_channel(role: WorkerRole) -> bool {
    match role {
        WorkerRole::User(c) => c.has_events_channel,
        _ => false,
    }
}

/// Keys written while the isolate is built, in order.
pub open spec fn construction_keys(role: WorkerRole) -> Seq<StateKey> {
    (if role is Event {
        seq![StateKey::EventReceiver]
    } else {
        Seq::empty()
    }) + (if has_events_channel(role) {
        seq![StateKey::EventSender, StateKey::EventMetadata]
    } else {
        Seq::empty()
    }) + seq![StateKey::EnvVars]
}

/// Keys written when a run starts, in order.
pub open spec fn run_keys(role: WorkerRole) -> Seq<StateKey> {
    seq![StateKey::ConnectionReceiver] + (if role is Main {
        seq![StateKey::PoolDispatch]
    } else {
        Seq::empty()
    })
}

/// The keys that building an isolate of `role` writes.
pub fn construction_state_keys(role: &WorkerRole) -> (r: Vec<StateKey>)
    ensures
        r@ == construction_keys(*role),
{
    let mut v: Vec<StateKey> = Vec::new();
    if role.is_events_worker() {
        v.push(StateKey::EventReceiver);
    }
    let channel = match role {
        WorkerRole::User(c) => c.has_events_channel,
        _ => false,
    };
    if channel {
        v.push(StateKey::EventSender);
        v.push(StateKey::EventMetadata);
    }
    v.push(StateKey::EnvVars);
    assert(v@ =~= construction_keys(*role));
    v
}

/// The keys that starting a run of `role` writes.
pub fn run_state_keys(role: &WorkerRole) -> (r: Vec<StateKey>)
    ensures
        r@ == run_keys(*role),
{
    let mut v: Vec<StateKey> = Vec::new();
    v.push(StateKey::ConnectionReceiver);
    if role.is_main_worker() {
        v.push(StateKey::PoolDispatch);
    }
    assert(v@ =~= run_keys(*role));
    v
}

/// Identity that a user worker's events carry.
pub struct EventMetadata {
    pub service_path: String,
    pub execution_key: Option<String>,
}

pub open spec fn opt_text(o: Option<String>) -> Option<Seq<char>> {
    match o {
        Some(s) => Some(s@),
        None => None,
    }
}

fn clone_opt(o: &Option<String>) -> (r: Option<String>)
    ensures
        opt_text(r) == opt_text(*o),
{
    match o {
        Some(s) => Some(s.clone()),
        None => None,
    }
}

/// `r` is the event metadata of `role`.
pub open spec fn metadata_of(r: Option<EventMetadata>, role: WorkerRole) -> bool {
    match role {
        WorkerRole::User(c) => if c.has_events_channel {
            r is Some && r->0.service_path@ == c.service_path@ && opt_text(r->0.execution_key)
                == opt_text(c.execution_key)
        } else {
            r is None
        },
        _ => r is None,
    }
}

/// The event metadata of a user worker with an events channel; no other
/// worker has any.
pub fn event_metadata(role: &WorkerRole) -> (r: Option<EventMetadata>)
    ensures
        metadata_of(r, *role),
{
    match role {
        WorkerRole::User(c) => if c.has_events_channel {
            Some(
                EventMetadata {
                    service_path: c.service_path.clone(),
                    execution_key: clone_opt(&c.execution_key),
                },
            )
        } else {
            None
        },
        _ => None,
    }
}

pub open spec fn execution_id_text(key: Option<String>) -> Seq<char> {
    match key {
        Some(k) => k@,
        None => Seq::empty(),
    }
}

/// The environment that guest code of `role` sees: the supplied variables,
/// and for a user worker `SB_EXECUTION_ID` set to its execution key (empty
/// where it has none).
pub open spec fn env_snapshot_of(role: WorkerRole, supplied: Map<Seq<char>, Seq<char>>) -> Map<
    Seq<char>,
    Seq<char>,
> {
    match role {
        WorkerRole::User(c) => supplied.insert("SB_EXECUTION_ID"@, execution_id_text(c.execution_key)),
        _ => supplied,
    }
}

/// Builds the environment snapshot of a worker of `role`.
pub fn env_snapshot(role: &WorkerRole, supplied: &EnvVars) -> (r: EnvVars)
    requires
        supplied.wf(),
    ensures
        r.wf(),
        r@ == env_snapshot_of(*role, supplied@),
{
    let mut env = EnvVars::from_pairs(&supplied.to_pairs());
    match role {
        WorkerRole::User(c) => {
            let id = match &c.execution_key {
                Some(k) => k.clone(),
                None => String::new(),
            };
            env.insert(String::from_str("SB_EXECUTION_ID"), id);
        },
        _ => {},
    }
    env
}

} // verus!
