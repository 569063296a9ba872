//! What it takes to bring up the HTTP service.

use vstd::prelude::*;
use vstd::string::*;

verus! {

/// Whether the service speaks TLS, and with which files.
#[derive(Clone, Debug)]
pub enum Tls {
    Off,
    On { cert_path: String, key_path: String },
}

/// Why the service cannot speak TLS.
#[derive(Clone, Debug)]
pub enum TlsError {
    /// There is no file at the certificate's path.
    CertificateNotFound { path: String },
    /// There is no file at the key's path.
    KeyNotFound { path: String },
    /// Only one of the two paths was given.
    Incomplete,
}

/// A path on the command line, and whether a file was found there.
#[derive(Clone, Debug)]
pub struct GivenPath {
    pub path: String,
    pub exists: bool,
}

/// Where the service listens, and how it is protected.
#[derive(Clone, Debug)]
pub struct ServiceSettings {
    pub port: u16,
    /// The host to listen on. Where it is not given, the service's own default
    /// is taken.
    pub host: Option<String>,
    pub tls: Tls,
}

impl TlsError {
    /// The message for a reader.
    pub open spec fn text(self) -> Seq<char> {
        match self {
            TlsError::CertificateNotFound { path } => "TLS certificate not found: "@ + path@,
            TlsError::KeyNotFound { path } => "TLS key not found: "@ + path@,
            TlsError::Incomplete => {
                "Both --tls-cert-path and --tls-key-path must be provided together to enable TLS"@
            },
        }
    }

    /// The message for a reader.
    pub fn message(&self) -> (r: String)
        ensures
            r@ == self.text(),
    {
        match self {
            TlsError::CertificateNotFound { path } => {
                let mut message = "TLS certificate not found: ".to_owned();
                message.append(path.as_str());
                message
            },
            TlsError::KeyNotFound { path } => {
                let mut message = "TLS key not found: ".to_owned();
                message.append(path.as_str());
                message
            },
            TlsError::Incomplete => {
                "Both --tls-cert-path and --tls-key-path must be provided together to enable TLS".to_owned()
            },
        }
    }
}

/// Where the service listens and how it is protected, by what was given on the
/// command line. TLS takes both files, and both must be there; the certificate
/// is looked at first.
pub fn service_settings(
    port: u16,
    host: Option<String>,
    cert: Option<GivenPath>,
    key: Option<GivenPath>,
) -> (r: Result<ServiceSettings, TlsError>)
    ensures
        match (cert, key) {
            (Some(cert), Some(key)) => if !cert.exists {
                r == Err::<ServiceSettings, TlsError>(
                    TlsError::CertificateNotFound { path: cert.path },
                )
            } else if !key.exists {
                r == Err::<ServiceSettings, TlsError>(TlsError::KeyNotFound { path: key.path })
            } else {
                r == Ok::<ServiceSettings, TlsError>(
                    ServiceSettings {
                        port,
                        host,
                        tls: Tls::On { cert_path: cert.path, key_path: key.path },
                    },
                )
            },
            (None, None) => r == Ok::<ServiceSettings, TlsError>(
                ServiceSettings { port, host, tls: Tls::Off },
            ),
            _ => r == Err::<ServiceSettings, TlsError>(TlsError::Incomplete),
        },
{
    let tls = match (cert, key) {
        (Some(cert), Some(key)) => {
            if !cert.exists {
                return Err(TlsError::CertificateNotFound { path: cert.path });
            }
            if !key.exists {
                return Err(TlsError::KeyNotFound { path: key.path });
            }
            Tls::On { cert_path: cert.path, key_path: key.path }
        },
        (None, None) => Tls::Off,
        _ => {
            return Err(TlsError::Incomplete);
        },
    };
    Ok(ServiceSettings { port, host, tls })
}

/// The namespace that a model is looked for in: its own, or the empty one.
pub open spec fn own_namespace(namespace: Option<&str>) -> Seq<char> {
    match namespace {
        Some(namespace) => namespace@,
        None => Seq::empty(),
    }
}

/// The namespace that discovered models are held to: the local model's own, and
/// none where that is global by `is_global`.
pub fn target_namespace<F>(namespace: Option<&str>, is_global: F) -> (r: Option<String>) where
    F: FnOnce(&str) -> bool,

    requires
        forall|name: &str| name@ == own_namespace(namespace) ==> is_global.requires((name,)),
    ensures
        exists|name: &str|
            name@ == own_namespace(namespace) && #[trigger] is_global.ensures((name,), r is None),
        r matches Some(target) ==> target@ == own_namespace(namespace),
{
    let name = match namespace {
        Some(name) => name,
        None => "",
    };
    proof {
        reveal_strlit("");
        assert(name@ == own_namespace(namespace));
    }
    if is_global(name) {
        None
    } else {
        Some(name.to_owned())
    }
}

/// Where the service's engines come from.
#[derive(Clone, Copy, Debug, PartialEq, Eq, Structural)]
pub enum EngineKind {
    /// Models register themselves while the service runs.
    Dynamic,
    /// One model, served by a remote worker.
    StaticRemote,
    /// One model, served by an engine that takes whole requests.
    StaticFull,
    /// One model, served by an engine that takes tokens.
    StaticCore,
}

/// A step of bringing up the service.
#[derive(Clone, Copy, Debug, PartialEq, Eq, Structural)]
pub enum Step {
    /// Join the cluster.
    Connect,
    /// Join the cluster, with static workers.
    ConnectStatic,
    /// Let the service ask the cluster's store for active workers.
    AttachStore,
    /// Build the service.
    BuildService,
    /// Watch the cluster's store for models.
    WatchModels,
    /// Open a client to the worker's endpoint.
    OpenClient,
    /// Get the chooser that routes by cached keys and values.
    ChooseByCache,
    /// Load the model's tokenizer.
    LoadTokenizer,
    /// Build the engine for chat completions.
    BuildChatEngine,
    /// Offer the model for chat completions.
    AddChatModel,
    /// Build the engine for completions.
    BuildCompletionsEngine,
    /// Offer the model for completions.
    AddCompletionsModel,
    /// Switch every endpoint on.
    EnableEndpoints,
    /// Serve until told to stop.
    Serve,
    /// Stop the rest of the process.
    Shutdown,
}

/// How a step came out.
#[derive(Clone, Copy, Debug, PartialEq, Eq, Structural)]
pub enum Outcome {
    Failed,
    /// The step is done. Whether the cluster has a store is looked at where the
    /// step was to join it.
    Done { has_store: bool },
}

/// The steps that bring up a service with engines of `kind`, in order.
///
/// Models are watched only where the cluster has a store, and the chooser is
/// needed only where requests are routed by cached keys and values.
pub open spec fn plan(kind: EngineKind, has_store: bool, by_cache: bool) -> Seq<Step> {
    match kind {
        EngineKind::Dynamic => seq![Step::Connect, Step::AttachStore, Step::BuildService] + (
        if has_store {
            seq![Step::WatchModels]
        } else {
            seq![]
        }) + seq![Step::Serve, Step::Shutdown],
        EngineKind::StaticRemote => seq![Step::ConnectStatic, Step::BuildService, Step::OpenClient]
            + (if by_cache {
            seq![Step::ChooseByCache]
        } else {
            seq![]
        }) + seq![
            Step::LoadTokenizer,
            Step::BuildChatEngine,
            Step::AddChatModel,
            Step::BuildCompletionsEngine,
            Step::AddCompletionsModel,
            Step::EnableEndpoints,
            Step::Serve,
            Step::Shutdown,
        ],
        EngineKind::StaticFull => seq![
            Step::BuildService,
            Step::AddCompletionsModel,
            Step::AddChatModel,
            Step::EnableEndpoints,
            Step::Serve,
            Step::Shutdown,
        ],
        EngineKind::StaticCore => seq![
            Step::BuildService,
            Step::LoadTokenizer,
            Step::BuildChatEngine,
            Step::AddChatModel,
            Step::BuildCompletionsEngine,
            Step::AddCompletionsModel,
            Step::EnableEndpoints,
            Step::Serve,
            Step::Shutdown,
        ],
    }
}

/// The steps that bring up a service with engines of `kind`, in order.
pub fn startup_plan(kind: EngineKind, has_store: bool, by_cache: bool) -> (r: Vec<Step>)
    ensures
        r@ == plan(kind, has_store, by_cache),
{
    let mut steps: Vec<Step> = Vec::new();
    match kind {
        EngineKind::Dynamic => {
            steps.push(Step::Connect);
            steps.push(Step::AttachStore);
            steps.push(Step::BuildService);
            if has_store {
                steps.push(Step::WatchModels);
            }
        },
        EngineKind::StaticRemote => {
            steps.push(Step::ConnectStatic);
            steps.push(Step::BuildService);
            steps.push(Step::OpenClient);
            if by_cache {
                steps.push(Step::ChooseByCache);
            }
            steps.push(Step::LoadTokenizer);
            steps.push(Step::BuildChatEngine);
            steps.push(Step::AddChatModel);
            steps.push(Step::BuildCompletionsEngine);
            steps.push(Step::AddCompletionsModel);
            steps.push(Step::EnableEndpoints);
        },
        EngineKind::StaticFull => {
            steps.push(Step::BuildService);
            steps.push(Step::AddCompletionsModel);
            steps.push(Step::AddChatModel);
            steps.push(Step::EnableEndpoints);
        },
        EngineKind::StaticCore => {
            steps.push(Step::BuildService);
            steps.push(Step::LoadTokenizer);
            steps.push(Step::BuildChatEngine);
            steps.push(Step::AddChatModel);
            steps.push(Step::BuildCompletionsEngine);
            steps.push(Step::AddCompletionsModel);
            steps.push(Step::EnableEndpoints);
        },
    }
    steps.push(Step::Serve);
    steps.push(Step::Shutdown);
    steps
}

/// A service that is being brought up.
pub struct Startup {
    kind: EngineKind,
    by_cache: bool,
    has_store: bool,
    done: usize,
    failed: bool,
}

/// How far a service has been brought up.
pub ghost struct StartupView {
    pub kind: EngineKind,
    pub by_cache: bool,
    pub has_store: bool,
    pub done: nat,
    pub failed: bool,
}

impl StartupView {
    /// Nothing is done yet, and nothing is known of a store.
    pub open spec fn fresh(kind: EngineKind, by_cache: bool) -> Self {
        StartupView { kind, by_cache, has_store: false, done: 0, failed: false }
    }

    /// The steps as far as they are known now.
    pub open spec fn plan(self) -> Seq<Step> {
        plan(self.kind, self.has_store, self.by_cache)
    }

    /// The step that is to be taken now, if there is one.
    pub open spec fn step(self) -> Option<Step> {
        if !self.failed && self.done < self.plan().len() {
            Some(self.plan()[self.done as int])
        } else {
            None
        }
    }

    /// The state after the step to be taken came out as `outcome`.
    pub open spec fn after(self, outcome: Outcome) -> Self {
        match (self.step(), outcome) {
            (None, _) => self,
            (Some(_), Outcome::Failed) => StartupView { failed: true, ..self },
            (Some(step), Outcome::Done { has_store }) => StartupView {
                has_store: if step == Step::Connect {
                    has_store
                } else {
                    self.has_store
                },
                done: self.done + 1,
                ..self
            },
        }
    }

    /// The state after `n` steps that were all done, in a cluster that has a
    /// store or not.
    pub open spec fn after_done(self, n: nat, has_store: bool) -> Self
        decreases n,
    {
        if n == 0 {
            self
        } else {
            self.after_done((n - 1) as nat, has_store).after(Outcome::Done { has_store })
        }
    }
}

impl View for Startup {
    type V = StartupView;

    closed spec fn view(&self) -> StartupView {
        StartupView {
            kind: self.kind,
            by_cache: self.by_cache,
            has_store: self.has_store,
            done: self.done as nat,
            failed: self.failed,
        }
    }
}

impl Startup {
    /// Starts with engines of `kind`. Requests are routed by cached keys and
    /// values if `by_cache` holds.
    pub fn new(kind: EngineKind, by_cache: bool) -> (r: Self)
        ensures
            r@ == StartupView::fresh(kind, by_cache),
    {
        Startup { kind, by_cache, has_store: false, done: 0, failed: false }
    }

    /// The step that is to be taken now. There is none once every step is done
    /// or one has failed.
    pub fn step(&self) -> (r: Option<Step>)
        ensures
            r == self@.step(),
    {
        let steps = startup_plan(self.kind, self.has_store, self.by_cache);
        if !self.failed && self.done < steps.len() {
            Some(steps[self.done])
        } else {
            None
        }
    }

    /// Notes how the step to be taken came out. A step that failed ends the
    /// start-up where it stands.
    pub fn advance(&mut self, outcome: Outcome)
        ensures
            final(self)@ == old(self)@.after(outcome),
    {
        let steps = startup_plan(self.kind, self.has_store, self.by_cache);
        if !self.failed && self.done < steps.len() {
            match outcome {
                Outcome::Failed => {
                    self.failed = true;
                },
                Outcome::Done { has_store } => {
                    if steps[self.done] == Step::Connect {
                        self.has_store = has_store;
                    }
                    self.done = self.done + 1;
                },
            }
        }
    }

    /// Whether every step is done.
    pub fn is_complete(&self) -> (r: bool)
        ensures
            r == (!self@.failed && self@.step() is None),
    {
        !self.failed && self.step().is_none()
    }
}

/// As long as every step is done, exactly the steps of the plan are taken, in
/// its order. What is known of the store when a step is taken is always enough
/// to tell the step.
pub proof fn startup_follows_the_plan(kind: EngineKind, by_cache: bool, has_store: bool, n: nat)
    requires
        n <= plan(kind, has_store, by_cache).len(),
    ensures
        ({
            let steps = plan(kind, has_store, by_cache);
            let now = StartupView::fresh(kind, by_cache).after_done(n, has_store);
            &&& !now.failed
            &&& now.done == n
            &&& n < steps.len() ==> now.step() == Some(steps[n as int])
            &&& n == steps.len() ==> now.step() is None
        }),
{
    lemma_after_done(kind, by_cache, has_store, n);
}

proof fn lemma_after_done(kind: EngineKind, by_cache: bool, has_store: bool, n: nat)
    requires
        n <= plan(kind, has_store, by_cache).len(),
    ensures
        StartupView::fresh(kind, by_cache).after_done(n, has_store) == (StartupView {
            kind,
            by_cache,
            has_store: n > 0 && kind == EngineKind::Dynamic && has_store,
            done: n,
            failed: false,
        }),
    decreases n,
{
    if n > 0 {
        let before = (n - 1) as nat;
        lemma_after_done(kind, by_cache, has_store, before);
        let then = StartupView::fresh(kind, by_cache).after_done(before, has_store);
        let steps = plan(kind, has_store, by_cache);
        assert(then.step() == Some(steps[before as int]));
        assert(steps[before as int] == Step::Connect <==> kind == EngineKind::Dynamic && before
            == 0);
    }
}

/// A step that failed is the last one.
pub proof fn failure_is_final(now: StartupView, later: Outcome)
    requires
        now.step() is Some,
    ensures
        now.after(Outcome::Failed).step() is None,
        now.after(Outcome::Failed).after(later) == now.after(Outcome::Failed),
{
}

/// Whatever the engines, no step is taken twice, the service is built before it
/// serves, and shutting down is the one step behind serving.
pub proof fn plan_ends_with_serving(kind: EngineKind, has_store: bool, by_cache: bool)
    ensures
        ({
            let steps = plan(kind, has_store, by_cache);
            &&& steps.no_duplicates()
            &&& steps.contains(Step::BuildService)
            &&& steps.len() >= 2
            &&& steps[steps.len() - 2] == Step::Serve
            &&& steps[steps.len() - 1] == Step::Shutdown
        }),
{
    let steps = plan(kind, has_store, by_cache);
    match kind {
        EngineKind::Dynamic => {
            assert(steps[2] == Step::BuildService);
        },
        EngineKind::StaticRemote => {
            assert(steps[1] == Step::BuildService);
        },
        _ => {
            assert(steps[0] == Step::BuildService);
        },
    }
}

/// Where the model is known from the start, it is offered for chat completions
/// and for completions before the endpoints are switched on, and these are
/// switched on right before serving.
pub proof fn static_models_are_offered_first(kind: EngineKind, has_store: bool, by_cache: bool)
    requires
        kind != EngineKind::Dynamic,
    ensures
        ({
            let steps = plan(kind, has_store, by_cache);
            &&& steps.len() >= 3
            &&& steps[steps.len() - 3] == Step::EnableEndpoints
            &&& steps.take(steps.len() - 3).contains(Step::AddChatModel)
            &&& steps.take(steps.len() - 3).contains(Step::AddCompletionsModel)
            &&& !steps.contains(Step::WatchModels)
        }),
{
    let steps = plan(kind, has_store, by_cache);
    let offered = steps.take(steps.len() - 3);
    match kind {
        EngineKind::StaticFull => {
            assert(offered[1] == Step::AddCompletionsModel);
            assert(offered[2] == Step::AddChatModel);
        },
        _ => {
            assert(offered[offered.len() - 1] == Step::AddCompletionsModel);
            assert(offered[offered.len() - 3] == Step::AddChatModel);
        },
    }
}

/// Whether `a` is taken before `b`.
pub open spec fn comes_before(steps: Seq<Step>, a: Step, b: Step) -> bool {
    exists|i: int, j: int|
        0 <= i < j < steps.len() && #[trigger] steps[i] == a && #[trigger] steps[j] == b
}

/// One model that a remote worker serves: whatever the cluster has, the service joins
/// it with static workers, opens a client and loads the tokenizer before any engine is
/// built, and each engine is built before the model is offered for it. The chooser is
/// got behind the client, exactly where requests are routed by what is cached.
pub proof fn remote_model_is_reached_first(has_store: bool, by_cache: bool)
    ensures
        ({
            let steps = plan(EngineKind::StaticRemote, has_store, by_cache);
            &&& forall|step: Step| #[trigger]
                steps.contains(step) <==> step is ConnectStatic || step is BuildService
                    || step is OpenClient || step is LoadTokenizer || step is BuildChatEngine
                    || step is AddChatModel || step is BuildCompletionsEngine
                    || step is AddCompletionsModel || step is EnableEndpoints || step is Serve
                    || step is Shutdown || (by_cache && step is ChooseByCache)
            &&& steps.len() == 11 + (if by_cache {
                1int
            } else {
                0
            })
            &&& steps.no_duplicates()
            &&& comes_before(steps, Step::ConnectStatic, Step::BuildChatEngine)
            &&& comes_before(steps, Step::ConnectStatic, Step::BuildCompletionsEngine)
            &&& comes_before(steps, Step::OpenClient, Step::BuildChatEngine)
            &&& comes_before(steps, Step::OpenClient, Step::BuildCompletionsEngine)
            &&& comes_before(steps, Step::LoadTokenizer, Step::BuildCompletionsEngine)
            &&& comes_before(steps, Step::ConnectStatic, Step::BuildService)
            &&& comes_before(steps, Step::BuildService, Step::OpenClient)
            &&& comes_before(steps, Step::OpenClient, Step::LoadTokenizer)
            &&& comes_before(steps, Step::LoadTokenizer, Step::BuildChatEngine)
            &&& comes_before(steps, Step::BuildChatEngine, Step::AddChatModel)
            &&& comes_before(steps, Step::AddChatModel, Step::BuildCompletionsEngine)
            &&& comes_before(steps, Step::BuildCompletionsEngine, Step::AddCompletionsModel)
            &&& comes_before(steps, Step::AddCompletionsModel, Step::EnableEndpoints)
            &&& comes_before(steps, Step::EnableEndpoints, Step::Serve)
            &&& comes_before(steps, Step::Serve, Step::Shutdown)
            &&& by_cache ==> comes_before(steps, Step::OpenClient, Step::ChooseByCache)
            &&& by_cache ==> comes_before(steps, Step::ChooseByCache, Step::LoadTokenizer)
        }),
{
    let steps = plan(EngineKind::StaticRemote, has_store, by_cache);
    if by_cache {
        assert(steps[0] == Step::ConnectStatic);
        assert(steps[1] == Step::BuildService);
        assert(steps[2] == Step::OpenClient);
        assert(steps[3] == Step::ChooseByCache);
        assert(steps[4] == Step::LoadTokenizer);
        assert(steps[5] == Step::BuildChatEngine);
        assert(steps[6] == Step::AddChatModel);
        assert(steps[7] == Step::BuildCompletionsEngine);
        assert(steps[8] == Step::AddCompletionsModel);
        assert(steps[9] == Step::EnableEndpoints);
        assert(steps[10] == Step::Serve);
        assert(steps[11] == Step::Shutdown);
    } else {
        assert(steps[0] == Step::ConnectStatic);
        assert(steps[1] == Step::BuildService);
        assert(steps[2] == Step::OpenClient);
        assert(steps[3] == Step::LoadTokenizer);
        assert(steps[4] == Step::BuildChatEngine);
        assert(steps[5] == Step::AddChatModel);
        assert(steps[6] == Step::BuildCompletionsEngine);
        assert(steps[7] == Step::AddCompletionsModel);
        assert(steps[8] == Step::EnableEndpoints);
        assert(steps[9] == Step::Serve);
        assert(steps[10] == Step::Shutdown);
    }
    assert forall|step: Step| #[trigger] steps.contains(step) implies step is ConnectStatic
        || step is BuildService || step is OpenClient || step is LoadTokenizer
        || step is BuildChatEngine || step is AddChatModel || step is BuildCompletionsEngine
        || step is AddCompletionsModel || step is EnableEndpoints || step is Serve
        || step is Shutdown || (by_cache && step is ChooseByCache) by {
        let i = steps.index_of(step);
        assert(steps[i] == step);
    }
}

/// Models that register themselves: the service joins the cluster and may ask its store
/// before it is built. Models are watched once it is built, exactly where there is a
/// store, and before it serves.
pub proof fn models_are_watched_in_a_store(has_store: bool, by_cache: bool)
    ensures
        ({
            let steps = plan(EngineKind::Dynamic, has_store, by_cache);
            &&& forall|step: Step| #[trigger]
                steps.contains(step) <==> step is Connect || step is AttachStore
                    || step is BuildService || step is Serve || step is Shutdown || (has_store
                    && step is WatchModels)
            &&& steps.len() == 5 + (if has_store {
                1int
            } else {
                0
            })
            &&& comes_before(steps, Step::Connect, Step::AttachStore)
            &&& comes_before(steps, Step::AttachStore, Step::BuildService)
            &&& comes_before(steps, Step::BuildService, Step::Serve)
            &&& comes_before(steps, Step::Serve, Step::Shutdown)
            &&& has_store ==> comes_before(steps, Step::BuildService, Step::WatchModels)
            &&& has_store ==> comes_before(steps, Step::WatchModels, Step::Serve)
        }),
{
    let steps = plan(EngineKind::Dynamic, has_store, by_cache);
    if has_store {
        assert(steps[0] == Step::Connect);
        assert(steps[1] == Step::AttachStore);
        assert(steps[2] == Step::BuildService);
        assert(steps[3] == Step::WatchModels);
        assert(steps[4] == Step::Serve);
        assert(steps[5] == Step::Shutdown);
    } else {
        assert(steps[0] == Step::Connect);
        assert(steps[1] == Step::AttachStore);
        assert(steps[2] == Step::BuildService);
        assert(steps[3] == Step::Serve);
        assert(steps[4] == Step::Shutdown);
    }
    assert forall|step: Step| #[trigger] steps.contains(step) implies step is Connect
        || step is AttachStore || step is BuildService || step is Serve || step is Shutdown
        || (has_store && step is WatchModels) by {
        let i = steps.index_of(step);
        assert(steps[i] == step);
    }
}

/// One model with an engine that takes tokens: the tokenizer is loaded before any engine
/// is built, and each engine is built before the model is offered for it.
pub proof fn token_engine_is_wrapped(has_store: bool, by_cache: bool)
    ensures
        ({
            let steps = plan(EngineKind::StaticCore, has_store, by_cache);
            &&& forall|step: Step| #[trigger]
                steps.contains(step) <==> step is BuildService || step is LoadTokenizer
                    || step is BuildChatEngine || step is AddChatModel
                    || step is BuildCompletionsEngine || step is AddCompletionsModel
                    || step is EnableEndpoints || step is Serve || step is Shutdown
            &&& steps.len() == 9
            &&& comes_before(steps, Step::BuildService, Step::LoadTokenizer)
            &&& comes_before(steps, Step::LoadTokenizer, Step::BuildChatEngine)
            &&& comes_before(steps, Step::BuildChatEngine, Step::AddChatModel)
            &&& comes_before(steps, Step::AddChatModel, Step::BuildCompletionsEngine)
            &&& comes_before(steps, Step::BuildCompletionsEngine, Step::AddCompletionsModel)
            &&& comes_before(steps, Step::AddCompletionsModel, Step::EnableEndpoints)
            &&& comes_before(steps, Step::EnableEndpoints, Step::Serve)
            &&& comes_before(steps, Step::Serve, Step::Shutdown)
        }),
{
    let steps = plan(EngineKind::StaticCore, has_store, by_cache);
        assert(steps[0] == Step::BuildService);
        assert(steps[1] == Step::LoadTokenizer);
        assert(steps[2] == Step::BuildChatEngine);
        assert(steps[3] == Step::AddChatModel);
        assert(steps[4] == Step::BuildCompletionsEngine);
        assert(steps[5] == Step::AddCompletionsModel);
        assert(steps[6] == Step::EnableEndpoints);
        assert(steps[7] == Step::Serve);
        assert(steps[8] == Step::Shutdown);
    assert forall|step: Step| #[trigger] steps.contains(step) implies step is BuildService
        || step is LoadTokenizer || step is BuildChatEngine || step is AddChatModel
        || step is BuildCompletionsEngine || step is AddCompletionsModel || step is EnableEndpoints
        || step is Serve || step is Shutdown by {
        let i = steps.index_of(step);
        assert(steps[i] == step);
    }
}

/// One model with an engine that takes whole requests: it is offered as it is, and no
/// engine is built.
pub proof fn whole_engine_is_offered(has_store: bool, by_cache: bool)
    ensures
        ({
            let steps = plan(EngineKind::StaticFull, has_store, by_cache);
            &&& forall|step: Step| #[trigger]
                steps.contains(step) <==> step is BuildService || step is AddCompletionsModel
                    || step is AddChatModel || step is EnableEndpoints || step is Serve
                    || step is Shutdown
            &&& steps.len() == 6
            &&& comes_before(steps, Step::BuildService, Step::AddCompletionsModel)
            &&& comes_before(steps, Step::AddCompletionsModel, Step::AddChatModel)
            &&& comes_before(steps, Step::AddChatModel, Step::EnableEndpoints)
            &&& comes_before(steps, Step::EnableEndpoints, Step::Serve)
            &&& comes_before(steps, Step::Serve, Step::Shutdown)
        }),
{
    let steps = plan(EngineKind::StaticFull, has_store, by_cache);
        assert(steps[0] == Step::BuildService);
        assert(steps[1] == Step::AddCompletionsModel);
        assert(steps[2] == Step::AddChatModel);
        assert(steps[3] == Step::EnableEndpoints);
        assert(steps[4] == Step::Serve);
        assert(steps[5] == Step::Shutdown);
    assert forall|step: Step| #[trigger] steps.contains(step) implies step is BuildService
        || step is AddCompletionsModel || step is AddChatModel || step is EnableEndpoints
        || step is Serve || step is Shutdown by {
        let i = steps.index_of(step);
        assert(steps[i] == step);
    }
}

/// Whether requests are routed by what is cached shows in one step only: the chooser,
/// right behind the client. Of other engines it does not show.
pub proof fn routing_shows_in_the_chooser(kind: EngineKind, has_store: bool)
    ensures
        ({
            let with = plan(kind, has_store, true);
            let without = plan(kind, has_store, false);
            &&& kind != EngineKind::StaticRemote ==> with == without
            &&& kind == EngineKind::StaticRemote ==> exists|k: int|
                {
                    &&& 0 < k < with.len()
                    &&& with[k - 1] == Step::OpenClient
                    &&& #[trigger] with[k] == Step::ChooseByCache
                    &&& with.remove(k) == without
                }
        }),
{
    let with = plan(kind, has_store, true);
    let without = plan(kind, has_store, false);
    if kind == EngineKind::StaticRemote {
        assert(with[3] == Step::ChooseByCache);
        assert(with.remove(3) =~= without);
    }
}

/// Whether the cluster has a store shows in one step only: watching it, right behind
/// the building of the service. Of models that are known it does not show.
pub proof fn store_shows_in_the_watching(kind: EngineKind, by_cache: bool)
    ensures
        ({
            let with = plan(kind, true, by_cache);
            let without = plan(kind, false, by_cache);
            &&& kind != EngineKind::Dynamic ==> with == without
            &&& kind == EngineKind::Dynamic ==> exists|k: int|
                {
                    &&& 0 < k < with.len()
                    &&& with[k - 1] == Step::BuildService
                    &&& #[trigger] with[k] == Step::WatchModels
                    &&& with.remove(k) == without
                }
        }),
{
    let with = plan(kind, true, by_cache);
    let without = plan(kind, false, by_cache);
    if kind == EngineKind::Dynamic {
        assert(with[3] == Step::WatchModels);
        assert(with.remove(3) =~= without);
    }
}

/// A start-up begins at the first step of its plan, with nothing failed and no store
/// known.
pub proof fn startup_begins_at_the_first_step(kind: EngineKind, by_cache: bool)
    ensures
        ({
            let now = StartupView::fresh(kind, by_cache);
            &&& now.kind == kind
            &&& now.by_cache == by_cache
            &&& !now.has_store
            &&& !now.failed
            &&& now.done == 0
            &&& now.step() == Some(
                match kind {
                    EngineKind::Dynamic => Step::Connect,
                    EngineKind::StaticRemote => Step::ConnectStatic,
                    EngineKind::StaticFull => Step::BuildService,
                    EngineKind::StaticCore => Step::BuildService,
                },
            )
        }),
{
}

/// What the outcome of a step changes. A step that failed ends the start-up. One that
/// is done leads to the next, and tells of a store only where it was to join the
/// cluster. Where there is no step to take nothing changes, and what is brought up never
/// does.
pub proof fn outcomes_lead_on(now: StartupView, outcome: Outcome)
    ensures
        ({
            let steps = plan(now.kind, now.has_store, now.by_cache);
            let later = now.after(outcome);
            &&& now.step() is Some <==> !now.failed && now.done < steps.len()
            &&& now.step() matches Some(step) ==> step == steps[now.done as int]
            &&& now.step() is None ==> later == now
            &&& later.kind == now.kind
            &&& later.by_cache == now.by_cache
            &&& now.step() is Some && outcome is Failed ==> later.failed && later.done == now.done
                && later.has_store == now.has_store
            &&& now.step() matches Some(step) ==> (outcome matches Outcome::Done { has_store } ==> {
                &&& !later.failed
                &&& later.done == now.done + 1
                &&& step is Connect ==> later.has_store == has_store
                &&& !(step is Connect) ==> later.has_store == now.has_store
            })
        }),
{
}

/// A model's own namespace is looked in, and the empty one where it has none.
pub proof fn namespace_is_the_given_one(namespace: Option<&str>)
    ensures
        namespace matches Some(name) ==> own_namespace(namespace) == name@,
        namespace is None ==> own_namespace(namespace).len() == 0,
{
}

/// What is told where the service cannot speak TLS.
pub proof fn tls_errors_have_their_message(error: TlsError)
    ensures
        error matches TlsError::CertificateNotFound { path } ==> error.text()
            == "TLS certificate not found: "@ + path@,
        error matches TlsError::KeyNotFound { path } ==> error.text() == "TLS key not found: "@
            + path@,
        error is Incomplete ==> error.text()
            == "Both --tls-cert-path and --tls-key-path must be provided together to enable TLS"@,
{
}

/// The service speaks TLS exactly where both files are given and there, with these
/// files, and listens where it was told. Otherwise it speaks none where no file was
/// given, and is not brought up where one was.
pub proof fn tls_takes_both_files(
    port: u16,
    host: Option<String>,
    cert: Option<GivenPath>,
    key: Option<GivenPath>,
    r: Result<ServiceSettings, TlsError>,
)
    requires
        service_settings.ensures((port, host, cert, key), r),
    ensures
        r matches Ok(settings) ==> settings.port == port && settings.host == host,
        r matches Ok(settings) && settings.tls is On <==> (cert matches Some(c) && c.exists) && (
        key matches Some(k) && k.exists),
        r matches Ok(settings) ==> (settings.tls matches Tls::On { cert_path, key_path } ==> (
        cert matches Some(c) && c.path == cert_path) && (key matches Some(k) && k.path
            == key_path)),
        r matches Ok(settings) && settings.tls is Off <==> cert is None && key is None,
        r matches Err(e) && e is Incomplete <==> cert is Some != key is Some,
        r matches Err(e) && e is CertificateNotFound <==> key is Some && (cert matches Some(c)
            && !c.exists),
        r matches Err(e) && e is KeyNotFound <==> (cert matches Some(c) && c.exists) && (
        key matches Some(k) && !k.exists),
        r matches Err(TlsError::CertificateNotFound { path }) ==> path == cert->Some_0.path,
        r matches Err(TlsError::KeyNotFound { path }) ==> path == key->Some_0.path,
{
}

/// The steps that are given are those of the plan: for a remote worker the client is
/// always opened, behind the service that was built and before the tokenizer is loaded.
pub proof fn plans_are_given(kind: EngineKind, has_store: bool, by_cache: bool, r: Vec<Step>)
    requires
        startup_plan.ensures((kind, has_store, by_cache), r),
    ensures
        r@.no_duplicates(),
        r@.contains(Step::BuildService),
        r@.last() is Shutdown,
        r@[r@.len() - 2] is Serve,
        r@.contains(Step::OpenClient) <==> kind is StaticRemote,
        r@.contains(Step::ConnectStatic) <==> kind is StaticRemote,
        r@.contains(Step::Connect) <==> kind is Dynamic,
        r@.contains(Step::AttachStore) <==> kind is Dynamic,
        r@.contains(Step::WatchModels) <==> kind is Dynamic && has_store,
        r@.contains(Step::ChooseByCache) <==> kind is StaticRemote && by_cache,
        r@.contains(Step::LoadTokenizer) <==> kind is StaticRemote || kind is StaticCore,
        r@.contains(Step::BuildChatEngine) <==> kind is StaticRemote || kind is StaticCore,
        r@.contains(Step::BuildCompletionsEngine) <==> kind is StaticRemote || kind is StaticCore,
        r@.contains(Step::AddChatModel) <==> !(kind is Dynamic),
        r@.contains(Step::AddCompletionsModel) <==> !(kind is Dynamic),
        r@.contains(Step::EnableEndpoints) <==> !(kind is Dynamic),
        kind is StaticRemote ==> comes_before(r@, Step::OpenClient, Step::LoadTokenizer),
        by_cache && kind is StaticRemote
            ==> comes_before(r@, Step::OpenClient, Step::ChooseByCache),
{
    plan_ends_with_serving(kind, has_store, by_cache);
    remote_model_is_reached_first(has_store, by_cache);
    models_are_watched_in_a_store(has_store, by_cache);
    token_engine_is_wrapped(has_store, by_cache);
    whole_engine_is_offered(has_store, by_cache);
}

/// A start-up takes the steps of its plan one by one. It is complete exactly where none
/// is left and none failed, and a failure ends it.
pub proof fn startup_takes_its_steps(
    kind: EngineKind,
    by_cache: bool,
    made: Startup,
    startup: &mut Startup,
    outcome: Outcome,
    other: &Startup,
    step: Option<Step>,
    answer: bool,
)
    ensures
        Startup::new.ensures((kind, by_cache), made) ==> {
            &&& made@.kind == kind
            &&& made@.by_cache == by_cache
            &&& made@.done == 0
            &&& !made@.failed
            &&& !made@.has_store
        },
        Startup::step.ensures((other,), step) ==> {
            let steps = plan(other@.kind, other@.has_store, other@.by_cache);
            &&& step is Some <==> !other@.failed && other@.done < steps.len()
            &&& step matches Some(s) ==> s == steps[other@.done as int]
        },
        Startup::is_complete.ensures((other,), answer) ==> (answer <==> !other@.failed
            && other@.done >= plan(other@.kind, other@.has_store, other@.by_cache).len()),
        Startup::advance.ensures((startup, outcome), ()) ==> {
            let now = old(startup)@;
            let later = final(startup)@;
            let steps = plan(now.kind, now.has_store, now.by_cache);
            let takes = !now.failed && now.done < steps.len();
            &&& later.kind == now.kind
            &&& later.by_cache == now.by_cache
            &&& !takes ==> later == now
            &&& takes && outcome is Failed ==> later.failed && later.done == now.done
            &&& takes ==> (outcome matches Outcome::Done { has_store } ==> {
                &&& !later.failed
                &&& later.done == now.done + 1
                &&& later.has_store == if steps[now.done as int] is Connect {
                    has_store
                } else {
                    now.has_store
                }
            })
        },
{
}

/// Discovered models are held to the local model's namespace, and to none exactly where
/// that is told to be global.
pub proof fn models_are_held_to_their_namespace<F>(
    namespace: Option<&str>,
    is_global: F,
    r: Option<String>,
) where F: FnOnce(&str) -> bool
    requires
        target_namespace.ensures((namespace, is_global), r),
    ensures
        r matches Some(target) ==> match namespace {
            Some(name) => target@ == name@,
            None => target@.len() == 0,
        },
        exists|name: &str|
            name@ == own_namespace(namespace) && #[trigger] is_global.ensures((name,), r is None),
{
}

/// What is told of TLS errors is written as it is told.
pub proof fn tls_errors_are_written(error: &TlsError, r: String)
    requires
        TlsError::message.ensures((error,), r),
    ensures
        error matches TlsError::CertificateNotFound { path } ==> r@
            == "TLS certificate not found: "@ + path@,
        error matches TlsError::KeyNotFound { path } ==> r@ == "TLS key not found: "@ + path@,
        error is Incomplete ==> r@
            == "Both --tls-cert-path and --tls-key-path must be provided together to enable TLS"@,
{
}

} // verus!
