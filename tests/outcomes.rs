use edge_worker_runtime::{
    classify, DenoRuntime, EnvVars, EvaluationState, ExecutionOutcome, GuestError, HostSettings,
    MemoryBudget, RunObservation, SchedulerState, UserWorkerConfig, WorkerInitRequest, WorkerRole,
};

fn user_role(memory_limit_mb: u64, worker_timeout_ms: u64) -> WorkerRole {
    WorkerRole::User(UserWorkerConfig {
        service_path: "./test_cases/array_buffers".to_string(),
        memory_limit_mb,
        worker_timeout_ms,
        cpu_time_soft_limit_ms: 100,
        cpu_time_hard_limit_ms: 200,
        low_memory_multiplier: 5,
        net_access_disabled: false,
        allow_remote_modules: true,
        execution_key: None,
        has_events_channel: false,
    })
}

fn create_basic_user_runtime(path: &str, memory_limit: u64, worker_timeout_ms: u64) -> DenoRuntime {
    DenoRuntime::new(
        WorkerInitRequest {
            service_path: path.to_string(),
            entrypoint: None,
            no_module_cache: false,
            import_map_path: None,
            env_vars: EnvVars::new(),
            inline_source: None,
            has_prebuilt_bundle: false,
            role: user_role(memory_limit, worker_timeout_ms),
        },
        &HostSettings {
            working_dir: "/srv".to_string(),
            ca_store_setting: None,
            target: "x86_64-unknown-linux-gnu".to_string(),
            version: None,
        },
    )
    .ok()
    .unwrap()
}

fn obs(
    force_quit: bool,
    elapsed_ms: u64,
    heap_limit_hit: bool,
    scheduler: SchedulerState,
    evaluation: EvaluationState,
) -> RunObservation {
    RunObservation { force_quit, elapsed_ms, heap_limit_hit, scheduler, evaluation }
}

fn rejected(msg: &str) -> EvaluationState {
    EvaluationState::Rejected(GuestError {
        description: msg.to_string(),
        class_name: "TypeError".to_string(),
    })
}

/// Runs a guest that allocates `bytes` of buffer memory and then finishes.
fn run_allocating(rt: &DenoRuntime, bytes: u64) -> ExecutionOutcome {
    let mut budget = MemoryBudget::for_role(&rt.conf).unwrap();
    let granted = budget.try_allocate(bytes);
    let observation = if granted {
        obs(false, 10, false, SchedulerState::Idle, EvaluationState::Fulfilled)
    } else {
        obs(false, 10, budget.is_exhausted(), SchedulerState::Fault, EvaluationState::Unsettled)
    };
    rt.run(observation).unwrap()
}

#[test]
fn test_array_buffer_allocation_below_limit() {
    let user_rt = create_basic_user_runtime("./test_cases/array_buffers", 20, 1000);
    let result = run_allocating(&user_rt, 18 * 1024 * 1024);
    assert!(matches!(result, ExecutionOutcome::Completed), "expected no errors");
}

#[test]
fn test_array_buffer_allocation_above_limit() {
    let user_rt = create_basic_user_runtime("./test_cases/array_buffers", 15, 1000);
    let result = run_allocating(&user_rt, 18 * 1024 * 1024);
    assert!(matches!(result, ExecutionOutcome::HeapLimitReached));
}

#[test]
fn allocation_limit_is_inclusive_and_other_params_do_not_matter() {
    for timeout in [1, 1000, u64::MAX] {
        let mut b = MemoryBudget::for_role(&user_role(15, timeout)).unwrap();
        assert_eq!(b.limit(), 15 * 1048576);
        assert!(b.try_allocate(15 * 1048576));
        assert!(!b.try_allocate(1));
        assert!(b.is_exhausted());
        b.release(1048576);
        assert_eq!(b.used(), 14 * 1048576);
        assert!(b.try_allocate(1048576));
    }
    assert!(MemoryBudget::for_role(&WorkerRole::Main).is_none());
}

#[test]
fn force_quit_preempts_everything() {
    let role = user_role(20, 1000);
    for elapsed in [0, 999, 1000, 5000] {
        let r = classify(&role, obs(true, elapsed, true, SchedulerState::Idle, EvaluationState::Fulfilled));
        assert!(matches!(r, Some(ExecutionOutcome::ForceQuit)));
    }
    let r = classify(&WorkerRole::Main, obs(true, 0, false, SchedulerState::Fault, rejected("x")));
    assert!(matches!(r, Some(ExecutionOutcome::ForceQuit)));
}

#[test]
fn unsettled_module_times_out_at_deadline() {
    let role = user_role(20, 1000);
    let before = classify(&role, obs(false, 999, false, SchedulerState::Pending, EvaluationState::Unsettled));
    assert!(before.is_none());
    let at = classify(&role, obs(false, 1000, false, SchedulerState::Pending, EvaluationState::Unsettled));
    assert!(matches!(at, Some(ExecutionOutcome::ModuleEvaluationTimedOut)));
}

#[test]
fn pending_work_after_deadline_is_timed_out() {
    let role = user_role(20, 1000);
    let r = classify(&role, obs(false, 1500, false, SchedulerState::Pending, EvaluationState::Fulfilled));
    assert!(matches!(r, Some(ExecutionOutcome::TimedOut)));
    let r = classify(&role, obs(false, 1500, true, SchedulerState::Pending, EvaluationState::Fulfilled));
    assert!(matches!(r, Some(ExecutionOutcome::TimedOut)));
}

#[test]
fn settling_before_deadline_completes() {
    let role = user_role(20, 1000);
    let r = classify(&role, obs(false, 400, false, SchedulerState::Idle, EvaluationState::Fulfilled));
    assert!(matches!(r, Some(ExecutionOutcome::Completed)));
    let r = classify(&role, obs(false, 400, false, SchedulerState::Pending, EvaluationState::Fulfilled));
    assert!(r.is_none());
}

#[test]
fn trusted_roles_have_no_deadline() {
    for role in [WorkerRole::Main, WorkerRole::Event] {
        assert_eq!(role.deadline_ms(), None);
        let r = classify(&role, obs(false, u64::MAX, false, SchedulerState::Pending, EvaluationState::Unsettled));
        assert!(r.is_none());
    }
    assert_eq!(user_role(20, 1234).deadline_ms(), Some(1234));
}

#[test]
fn guest_error_is_thrown_with_class() {
    let role = user_role(20, 1000);
    let r = classify(&role, obs(false, 10, false, SchedulerState::Pending, rejected("TypeError: boom")));
    match r {
        Some(ExecutionOutcome::ErrorThrown(e)) => {
            assert_eq!(e.description, "TypeError: boom");
            assert_eq!(e.class_name, "TypeError");
        }
        _ => panic!("expected a thrown error"),
    }
}

#[test]
fn scheduler_fault_is_unknown() {
    let r = classify(&WorkerRole::Main, obs(false, 10, false, SchedulerState::Fault, EvaluationState::Fulfilled));
    assert!(matches!(r, Some(ExecutionOutcome::Unknown)));
    let r = classify(&user_role(20, 1000), obs(false, 10, false, SchedulerState::Fault, EvaluationState::Unsettled));
    assert!(matches!(r, Some(ExecutionOutcome::Unknown)));
}

#[test]
fn idle_scheduler_with_unsettled_module_waits_for_deadline() {
    let role = user_role(20, 1000);
    let r = classify(&role, obs(false, 10, false, SchedulerState::Idle, EvaluationState::Unsettled));
    assert!(r.is_none());
    let r = classify(&role, obs(false, 1000, false, SchedulerState::Idle, EvaluationState::Unsettled));
    assert!(matches!(r, Some(ExecutionOutcome::ModuleEvaluationTimedOut)));
    let r = classify(&WorkerRole::Main, obs(false, u64::MAX, false, SchedulerState::Idle, EvaluationState::Unsettled));
    assert!(r.is_none());
}

#[test]
fn guest_settling_after_deadline_is_timed_out() {
    let role = user_role(20, 1000);
    let r = classify(&role, obs(false, 1000, false, SchedulerState::Pending, rejected("late")));
    assert!(matches!(r, Some(ExecutionOutcome::TimedOut)));
    let r = classify(&role, obs(false, 1000, false, SchedulerState::Idle, EvaluationState::Fulfilled));
    assert!(matches!(r, Some(ExecutionOutcome::TimedOut)));
}

#[test]
fn heap_breach_beats_scheduler_and_result() {
    let role = user_role(20, 1000);
    let r = classify(&role, obs(false, 10, true, SchedulerState::Fault, rejected("RangeError: Array buffer allocation failed")));
    assert!(matches!(r, Some(ExecutionOutcome::HeapLimitReached)));
}
