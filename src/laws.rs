use vstd::prelude::*;
use crate::capability::{capability_seq, denial_text, host_call_outcome, Capability, Denial, HostCall};
use crate::memory::{allocate_step, BudgetState};
use crate::outcome::{deadline_passed, outcome_of, ExecutionOutcome, RunObservation};
use crate::role::{saturated_mib_bytes, UserWorkerConfig, WorkerRole};
use crate::runtime::{runtime_of, setup_check, DenoRuntime, WorkerInitRequest, HostSettings};
use crate::state::{construction_keys, env_snapshot_of, run_keys, StateKey};

verus! {

/// A user worker cannot start a subprocess, whatever its other parameters:
/// its capability set holds no such thing, and the call is refused with a
/// message that begins "Spawning subprocesses is not allowed".
pub proof fn user_worker_cannot_spawn(c: UserWorkerConfig, env: Map<Seq<char>, Seq<char>>)
    ensures
        host_call_outcome(
            WorkerRole::User(c),
            capability_seq(WorkerRole::User(c)),
            env,
            HostCall::SpawnSubprocess,
        ) == Err::<Option<Seq<char>>, Denial>(Denial::SpawnNotAllowed),
        denial_text(Denial::SpawnNotAllowed).subrange(0, 36) == "Spawning subprocesses is not allowed"@,
{
    reveal_strlit("Spawning subprocesses is not allowed on Supabase Edge Runtime");
    reveal_strlit("Spawning subprocesses is not allowed");
    assert(denial_text(Denial::SpawnNotAllowed).subrange(0, 36) =~= "Spawning subprocesses is not allowed"@);
}

/// Only the main worker is given the pool dispatcher: it is written into its
/// state when a run starts, never while an isolate is built, and only the
/// main worker's capability set lets guest code reach the pool.
pub proof fn pool_dispatch_only_for_main(role: WorkerRole, env: Map<Seq<char>, Seq<char>>)
    ensures
        run_keys(role).contains(StateKey::PoolDispatch) <==> role is Main,
        !construction_keys(role).contains(StateKey::PoolDispatch),
        capability_seq(role).contains(Capability::UserWorkerPool) <==> role is Main,
        host_call_outcome(role, capability_seq(role), env, HostCall::DispatchToPool) is Ok <==> role is Main,
{
    let r = run_keys(role);
    let k = construction_keys(role);
    let c = capability_seq(role);
    if role is Main {
        assert(r[1] == StateKey::PoolDispatch);
        assert(c[c.len() - 8] == Capability::UserWorkerPool);
    } else {
        assert(r =~= seq![StateKey::ConnectionReceiver]);
        assert(!c.contains(Capability::UserWorkerPool)) by {
            if c.contains(Capability::UserWorkerPool) {
                let i = choose|i: int| 0 <= i < c.len() && c[i] == Capability::UserWorkerPool;
                assert(false);
            }
        }
    }
    assert(!k.contains(StateKey::PoolDispatch)) by {
        if k.contains(StateKey::PoolDispatch) {
            let i = choose|i: int| 0 <= i < k.len() && k[i] == StateKey::PoolDispatch;
            assert(false);
        }
    }
}

/// Each entry of an isolate's state is written once: the keys written while
/// it is built and those written when its run starts are all distinct.
pub proof fn state_entries_written_once(role: WorkerRole)
    ensures
        (construction_keys(role) + run_keys(role)).no_duplicates(),
{
    let s = construction_keys(role) + run_keys(role);
    if role is Event {
        assert(s =~= seq![StateKey::EventReceiver, StateKey::EnvVars] + run_keys(role));
    } else if crate::state::has_events_channel(role) {
        assert(s =~= seq![StateKey::EventSender, StateKey::EventMetadata, StateKey::EnvVars]
            + run_keys(role));
    } else {
        assert(s =~= seq![StateKey::EnvVars] + run_keys(role));
    }
    if role is Main {
        assert(run_keys(role) =~= seq![StateKey::ConnectionReceiver, StateKey::PoolDispatch]);
    } else {
        assert(run_keys(role) =~= seq![StateKey::ConnectionReceiver]);
    }
}

/// A user worker with a ceiling of `memory_limit_mb` mebibytes grants a first
/// buffer allocation of `n` bytes exactly when `n` fits under the ceiling,
/// whatever its other parameters; a refused allocation marks the budget
/// exhausted, and then, short of a force-quit or the deadline, the run ends
/// with `HeapLimitReached`.
pub proof fn heap_ceiling_decides_allocation(c: UserWorkerConfig, n: nat, obs: RunObservation)
    ensures
        ({
            let fresh = BudgetState {
                limit: WorkerRole::User(c).spec_heap_limit_bytes()->0 as nat,
                used: 0,
                exhausted: false,
            };
            &&& allocate_step(fresh, n).1 <==> n <= saturated_mib_bytes(c.memory_limit_mb as nat)
            &&& !allocate_step(fresh, n).1 ==> allocate_step(fresh, n).0.exhausted
        }),
        obs.heap_limit_hit && !obs.force_quit && !deadline_passed(WorkerRole::User(c), obs.elapsed_ms)
            ==> outcome_of(WorkerRole::User(c), obs) == Some(ExecutionOutcome::HeapLimitReached),
{
}

/// A user worker whose root module never settles ends, short of a force-quit,
/// with `ModuleEvaluationTimedOut` once its wall-clock budget `T` has run out.
/// Before `T` it never times out, and with no heap breach and no scheduler
/// fault it has no outcome at all: the run goes on.
pub proof fn unsettled_module_times_out(c: UserWorkerConfig, obs: RunObservation)
    requires
        obs.evaluation is Unsettled,
        !obs.force_quit,
    ensures
        obs.elapsed_ms >= c.worker_timeout_ms ==> outcome_of(WorkerRole::User(c), obs) == Some(
            ExecutionOutcome::ModuleEvaluationTimedOut,
        ),
        obs.elapsed_ms < c.worker_timeout_ms ==> outcome_of(WorkerRole::User(c), obs) != Some(
            ExecutionOutcome::ModuleEvaluationTimedOut,
        ) && outcome_of(WorkerRole::User(c), obs) != Some(ExecutionOutcome::TimedOut),
        obs.elapsed_ms < c.worker_timeout_ms && !obs.heap_limit_hit && !(obs.scheduler is Fault)
            ==> outcome_of(WorkerRole::User(c), obs) is None,
{
}

/// A user worker that has not finished by its deadline `T` ends with a
/// timeout: `TimedOut` where its root module has settled and work is still
/// pending, `ModuleEvaluationTimedOut` where the root module itself has not
/// settled. One that has finished all its work before `T` ends with
/// `Completed`, and one still busy before `T` goes on.
pub proof fn settled_guest_against_deadline(c: UserWorkerConfig, obs: RunObservation)
    requires
        !obs.force_quit,
    ensures
        obs.elapsed_ms >= c.worker_timeout_ms && !(obs.evaluation is Unsettled) ==> outcome_of(
            WorkerRole::User(c),
            obs,
        ) == Some(ExecutionOutcome::TimedOut),
        obs.elapsed_ms >= c.worker_timeout_ms && obs.evaluation is Unsettled ==> outcome_of(
            WorkerRole::User(c),
            obs,
        ) == Some(ExecutionOutcome::ModuleEvaluationTimedOut),
        obs.elapsed_ms < c.worker_timeout_ms && !obs.heap_limit_hit && obs.scheduler is Idle
            && obs.evaluation is Fulfilled ==> outcome_of(WorkerRole::User(c), obs) == Some(
            ExecutionOutcome::Completed,
        ),
        obs.elapsed_ms < c.worker_timeout_ms && !obs.heap_limit_hit && obs.scheduler is Pending
            && !(obs.evaluation is Rejected) ==> outcome_of(WorkerRole::User(c), obs) is None,
{
}

/// A force-quit ends every run of every role with `ForceQuit`, whatever else
/// was observed at the same moment.
pub proof fn force_quit_preempts(role: WorkerRole, obs: RunObservation)
    requires
        obs.force_quit,
    ensures
        outcome_of(role, obs) == Some(ExecutionOutcome::ForceQuit),
{
}

/// Whether the code comes as a prebuilt bundle or is bundled from source
/// changes nothing else about a worker: two requests that differ only there
/// succeed or fail alike, give the same main module, capabilities, limits,
/// bootstrap call, state and environment, and every run of them ends with
/// the same outcome on the same observation.
pub proof fn bundle_source_changes_nothing_else(
    a: WorkerInitRequest,
    b: WorkerInitRequest,
    host: HostSettings,
    ra: DenoRuntime,
    rb: DenoRuntime,
    obs: RunObservation,
)
    requires
        a.service_path@ == b.service_path@,
        a.entrypoint == b.entrypoint,
        a.env_vars@ == b.env_vars@,
        a.role == b.role,
        runtime_of(ra, a, host),
        runtime_of(rb, b, host),
    ensures
        setup_check(a, host) == setup_check(b, host),
        ra.main_module_url@ == rb.main_module_url@,
        ra.ca_stores@ == rb.ca_stores@,
        ra.capabilities@ == rb.capabilities@,
        ra.heap_limit_bytes == rb.heap_limit_bytes,
        ra.bootstrap_script@ == rb.bootstrap_script@,
        ra.construction_state@ == rb.construction_state@,
        ra.env_vars@ == rb.env_vars@,
        ra.guest_env@ == rb.guest_env@,
        outcome_of(ra.conf, obs) == outcome_of(rb.conf, obs),
{
}

/// A worker keeps exactly the variables supplied with its request: with none
/// supplied it holds none, and a main worker holds the whole supplied mapping.
pub proof fn runtime_keeps_supplied_environment(rt: DenoRuntime, opts: WorkerInitRequest, host: HostSettings)
    requires
        runtime_of(rt, opts, host),
    ensures
        rt.env_vars@ == opts.env_vars@,
        opts.env_vars@.dom().is_empty() ==> rt.env_vars@.dom().is_empty(),
        opts.role is Main ==> rt.guest_env@ == opts.env_vars@,
{
}

/// What guest code of a main or events worker sees is exactly the supplied environment.
/// That of a user worker holds the supplied variables and `SB_EXECUTION_ID`,
/// and nothing else: with none supplied, it holds that variable alone. No
/// guest of any role can change its environment.
pub proof fn environment_snapshot_by_role(
    role: WorkerRole,
    supplied: Map<Seq<char>, Seq<char>>,
    caps: Seq<Capability>,
    key: String,
    value: String,
)
    ensures
        !(role is User) ==> env_snapshot_of(role, supplied) == supplied,
        role is User ==> env_snapshot_of(role, supplied).dom() == supplied.dom().insert(
            "SB_EXECUTION_ID"@,
        ),
        role is User ==> forall|k: Seq<char>|
            #![trigger supplied[k]]
            supplied.contains_key(k) && k != "SB_EXECUTION_ID"@ ==> env_snapshot_of(role, supplied)[k]
                == supplied[k],
        role is User && supplied.dom().is_empty() ==> env_snapshot_of(role, supplied).dom() =~= set![
            "SB_EXECUTION_ID"@,
        ],
        host_call_outcome(role, caps, env_snapshot_of(role, supplied), HostCall::SetEnv(key, value))
            == Err::<Option<Seq<char>>, Denial>(Denial::NotSupported),
{
    if role is User && supplied.dom().is_empty() {
        assert(supplied.dom() =~= Set::<Seq<char>>::empty());
    }
}

} // verus!
