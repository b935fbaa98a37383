use vstd::prelude::*;
use crate::bootstrap::{bootstrap_script, bootstrap_text, default_version};
use crate::capability::{assemble_capabilities, capability_seq, Capability};
use crate::env::EnvVars;
use crate::error::{SetupError, SetupFailure};
use crate::outcome::{classify, outcome_of, ExecutionOutcome, RunObservation};
use crate::role::WorkerRole;
use crate::state::{
    construction_keys, construction_state_keys, env_snapshot, env_snapshot_of, event_metadata,
    metadata_of, opt_text, run_keys, run_state_keys, EventMetadata, StateKey,
};
use crate::trust_store::{select_ca_stores, selected_stores, CaStore};
use crate::urls::{file_path_url, join_path, parse_url, parsed_url, path_join, url_of_file_path};

verus! {

/// Module-cache policy of the bundler.
#[derive(PartialEq, Eq, Structural, Clone, Copy, Debug)]
pub enum CacheSetting {
    Use,
    ReloadAll,
}

/// Where the isolate's code comes from.
pub enum CodeSource {
    /// A bundle that the caller supplied; the bundler is not called.
    Prebuilt,
    /// Bundle the module graph at the main module.
    Build {
        /// Source text of the main module, used in place of the file.
        inline_source: Option<String>,
        cache: CacheSetting,
        allow_remote_modules: bool,
        import_map_path: Option<String>,
    },
}

/// What a caller asks for when it requests a worker.
pub struct WorkerInitRequest {
    /// Root of the service, relative to the working directory or absolute.
    pub service_path: String,
    /// Explicit main module URL; by default `index.ts` under the root.
    pub entrypoint: Option<String>,
    pub no_module_cache: bool,
    pub import_map_path: Option<String>,
    pub env_vars: EnvVars,
    pub inline_source: Option<String>,
    /// Whether the caller supplies a prebuilt bundle.
    pub has_prebuilt_bundle: bool,
    pub role: WorkerRole,
}

/// Host configuration, passed in rather than read from the process.
pub struct HostSettings {
    /// Absolute working directory against which service paths resolve.
    pub working_dir: String,
    /// Comma-separated trust store names; by default the bundled store.
    pub ca_store_setting: Option<String>,
    /// Target platform triple.
    pub target: String,
    pub version: Option<String>,
}

/// Everything decided about one isolate before its engine is started.
pub struct DenoRuntime {
    pub main_module_url: String,
    pub code_source: CodeSource,
    pub ca_stores: Vec<CaStore>,
    pub capabilities: Vec<Capability>,
    pub heap_limit_bytes: Option<u64>,
    pub bootstrap_script: String,
    pub construction_state: Vec<StateKey>,
    pub event_metadata: Option<EventMetadata>,
    /// The variables supplied with the request.
    pub env_vars: EnvVars,
    /// The environment that guest code sees.
    pub guest_env: EnvVars,
    pub conf: WorkerRole,
}

/// The directory of the service.
pub open spec fn service_dir(opts: WorkerInitRequest, host: HostSettings) -> Seq<char> {
    path_join(host.working_dir@, opts.service_path@)
}

/// The main module's URL: the entrypoint parsed, or `index.ts` in the service directory.
pub open spec fn main_module_of(opts: WorkerInitRequest, host: HostSettings) -> Result<
    Seq<char>,
    SetupFailure,
> {
    match opts.entrypoint {
        Some(e) => match parsed_url(e@) {
            Some(u) => Ok(u),
            None => Err(SetupFailure::InvalidEntrypoint(e@)),
        },
        None => match file_path_url(path_join(service_dir(opts, host), "index.ts"@)) {
            Some(u) => Ok(u),
            None => Err(SetupFailure::InvalidServicePath(service_dir(opts, host))),
        },
    }
}

/// Whether setup succeeds, and with which error it fails: the main module
/// is resolved first, then the trust stores.
pub open spec fn setup_check(opts: WorkerInitRequest, host: HostSettings) -> Result<(), SetupFailure> {
    match main_module_of(opts, host) {
        Err(e) => Err(e),
        Ok(_) => match selected_stores(opt_text(host.ca_store_setting)) {
            Err(n) => Err(SetupFailure::UnknownCertStore(n)),
            Ok(_) => Ok(()),
        },
    }
}

pub open spec fn cache_of(no_module_cache: bool) -> CacheSetting {
    if no_module_cache {
        CacheSetting::ReloadAll
    } else {
        CacheSetting::Use
    }
}

/// The code source of a request: a prebuilt bundle first, else a build that
/// uses the inline source only where no entrypoint was given.
pub open spec fn code_source_of(opts: WorkerInitRequest) -> CodeSource {
    if opts.has_prebuilt_bundle {
        CodeSource::Prebuilt
    } else {
        CodeSource::Build {
            inline_source: if opts.entrypoint is None {
                opts.inline_source
            } else {
                None
            },
            cache: cache_of(opts.no_module_cache),
            allow_remote_modules: opts.role.spec_allow_remote_modules(),
            import_map_path: opts.import_map_path,
        }
    }
}

/// `rt` is the runtime that setting up `opts` under `host` yields.
pub open spec fn runtime_of(rt: DenoRuntime, opts: WorkerInitRequest, host: HostSettings) -> bool {
    &&& main_module_of(opts, host) == Ok::<Seq<char>, SetupFailure>(rt.main_module_url@)
    &&& rt.code_source == code_source_of(opts)
    &&& selected_stores(opt_text(host.ca_store_setting)) == Ok::<Seq<CaStore>, Seq<char>>(
        rt.ca_stores@,
    )
    &&& rt.capabilities@ == capability_seq(opts.role)
    &&& rt.heap_limit_bytes == opts.role.spec_heap_limit_bytes()
    &&& rt.bootstrap_script@ == bootstrap_text(
        host.target@,
        opts.role is User,
        opts.role is Event,
        match host.version {
            Some(v) => v@,
            None => default_version(),
        },
    )
    &&& rt.construction_state@ == construction_keys(opts.role)
    &&& metadata_of(rt.event_metadata, opts.role)
    &&& rt.env_vars.wf()
    &&& rt.env_vars@ == opts.env_vars@
    &&& rt.guest_env.wf()
    &&& rt.guest_env@ == env_snapshot_of(opts.role, opts.env_vars@)
    &&& rt.conf == opts.role
}

fn resolve_main_module(entrypoint: &Option<String>, dir: &String) -> (r: Result<String, SetupError>)
    ensures
        match entrypoint {
            Some(e) => match parsed_url(e@) {
                Some(u) => r is Ok && r->Ok_0@ == u,
                None => r is Err && r->Err_0@ == SetupFailure::InvalidEntrypoint(e@),
            },
            None => match file_path_url(path_join(dir@, "index.ts"@)) {
                Some(u) => r is Ok && r->Ok_0@ == u,
                None => r is Err && r->Err_0@ == SetupFailure::InvalidServicePath(dir@),
            },
        },
{
    match entrypoint {
        Some(e) => match parse_url(e.as_str()) {
            Some(u) => Ok(u),
            None => Err(SetupError::InvalidEntrypoint(e.clone())),
        },
        None => {
            let index = join_path(dir.as_str(), "index.ts");
            match url_of_file_path(index.as_str()) {
                Some(u) => Ok(u),
                None => Err(SetupError::InvalidServicePath(dir.clone())),
            }
        },
    }
}

impl DenoRuntime {
    /// Decides everything about a worker's isolate: its main module, code
    /// source, trust stores, capability set, heap ceiling, bootstrap call,
    /// state entries and environment. Fails exactly when the main module
    /// cannot be resolved or a trust store is unknown.
    pub fn new(opts: WorkerInitRequest, host: &HostSettings) -> (r: Result<DenoRuntime, SetupError>)
        requires
            opts.env_vars.wf(),
        ensures
            match setup_check(opts, *host) {
                Ok(_) => r is Ok && runtime_of(r->Ok_0, opts, *host),
                Err(f) => r is Err && r->Err_0@ == f,
            },
    {
        let ghost req = opts;
        let WorkerInitRequest {
            service_path,
            entrypoint,
            no_module_cache,
            import_map_path,
            env_vars,
            inline_source,
            has_prebuilt_bundle,
            role,
        } = opts;
        let dir = join_path(host.working_dir.as_str(), service_path.as_str());
        let main_module_url = match resolve_main_module(&entrypoint, &dir) {
            Ok(u) => u,
            Err(e) => return Err(e),
        };
        let setting = match &host.ca_store_setting {
            Some(s) => Some(s.as_str()),
            None => None,
        };
        let ca_stores = match select_ca_stores(setting) {
            Ok(v) => v,
            Err(e) => return Err(e),
        };
        let code_source = if has_prebuilt_bundle {
            CodeSource::Prebuilt
        } else {
            let only_inline = entrypoint.is_none();
            CodeSource::Build {
                inline_source: if only_inline {
                    inline_source
                } else {
                    None
                },
                cache: if no_module_cache {
                    CacheSetting::ReloadAll
                } else {
                    CacheSetting::Use
                },
                allow_remote_modules: role.allow_remote_modules(),
                import_map_path,
            }
        };
        let version = match &host.version {
            Some(v) => Some(v.as_str()),
            None => None,
        };
        let script = bootstrap_script(
            host.target.as_str(),
            role.is_user_worker(),
            role.is_events_worker(),
            version,
        );
        let env = env_snapshot(&role, &env_vars);
        let rt = DenoRuntime {
            main_module_url,
            code_source,
            ca_stores,
            capabilities: assemble_capabilities(&role),
            heap_limit_bytes: role.heap_limit_bytes(),
            bootstrap_script: script,
            construction_state: construction_state_keys(&role),
            event_metadata: event_metadata(&role),
            env_vars,
            guest_env: env,
            conf: role,
        };
        Ok(rt)
    }

    /// The state keys written when a run starts: the connection stream, and
    /// for the main worker the pool dispatcher.
    pub fn run_state(&self) -> (r: Vec<StateKey>)
        ensures
            r@ == run_keys(self.conf),
    {
        run_state_keys(&self.conf)
    }

    /// One decision of the run: the outcome that `obs` calls for, or `None`
    /// while the run goes on.
    pub fn run(&self, obs: RunObservation) -> (r: Option<ExecutionOutcome>)
        ensures
            r == outcome_of(self.conf, obs),
    {
        classify(&self.conf, obs)
    }
}

} // verus!
