use dynamo_serving::entrypoint::startup::{
    service_settings, startup_plan, target_namespace, EngineKind, GivenPath, Outcome, Startup,
    Step, Tls, TlsError,
};
use dynamo_serving::entrypoint::updates::{
    concerns_entry, switch_all, update_http_endpoints, update_model_metrics, EndpointSwitch,
    ModelType, ModelUpdate, UPDATE_QUEUE_CAPACITY,
};
use dynamo_serving::http::exposition::handler_metrics;
use dynamo_serving::http::metrics::{
    Metrics, ModelDeploymentCard, ModelEntry, ModelRuntimeConfig,
};

fn path(path: &str, exists: bool) -> Option<GivenPath> {
    Some(GivenPath {
        path: path.to_string(),
        exists,
    })
}

fn steps_taken(kind: EngineKind, by_cache: bool, has_store: bool) -> Vec<Step> {
    let mut startup = Startup::new(kind, by_cache);
    let mut steps = vec![];
    while let Some(step) = startup.step() {
        assert!(!startup.is_complete());
        steps.push(step);
        startup.advance(Outcome::Done { has_store });
    }
    assert!(startup.is_complete());
    steps
}

fn page_of(metrics: &Metrics) -> String {
    let registry = prometheus::Registry::new();
    metrics.register(&registry, |_, _| Ok(())).unwrap();
    handler_metrics(&registry).body
}

fn model_type(flags: u64, endpoints: &[char]) -> ModelType<char> {
    ModelType {
        flags,
        endpoints: endpoints.to_vec(),
    }
}

fn entry(name: &str, model_type: u64, blocks: u64) -> ModelEntry {
    ModelEntry {
        name: name.to_string(),
        model_type,
        runtime_config: Some(ModelRuntimeConfig {
            total_kv_blocks: Some(blocks),
            max_num_seqs: None,
            max_num_batched_tokens: None,
        }),
    }
}

const CARD: ModelDeploymentCard = ModelDeploymentCard {
    context_length: 100,
    kv_cache_block_size: 16,
    migration_limit: 0,
};

#[test]
fn plain_service() {
    let settings = service_settings(8080, None, None, None).unwrap();
    assert_eq!(settings.port, 8080);
    assert_eq!(settings.host, None);
    assert!(matches!(settings.tls, Tls::Off));
}

#[test]
fn protected_service() {
    let settings = service_settings(
        1,
        Some("localhost".to_string()),
        path("c.pem", true),
        path("k.pem", true),
    )
    .unwrap();
    assert_eq!(settings.host.as_deref(), Some("localhost"));
    assert!(matches!(
        settings.tls,
        Tls::On { cert_path, key_path } if cert_path == "c.pem" && key_path == "k.pem"
    ));
}

#[test]
fn missing_certificate_is_reported_first() {
    let error = service_settings(1, None, path("c.pem", false), path("k.pem", false)).unwrap_err();
    assert!(matches!(error, TlsError::CertificateNotFound { .. }));
    assert_eq!(error.message(), "TLS certificate not found: c.pem");
}

#[test]
fn missing_key_is_reported() {
    let error = service_settings(1, None, path("c.pem", true), path("k.pem", false)).unwrap_err();
    assert!(matches!(error, TlsError::KeyNotFound { .. }));
    assert_eq!(error.message(), "TLS key not found: k.pem");
}

#[test]
fn half_a_protection_is_refused() {
    for (cert, key) in [(path("c.pem", true), None), (None, path("k.pem", true))] {
        let error = service_settings(1, None, cert, key).unwrap_err();
        assert!(matches!(error, TlsError::Incomplete));
        assert_eq!(
            error.message(),
            "Both --tls-cert-path and --tls-key-path must be provided together to enable TLS"
        );
    }
}

#[test]
fn namespaces() {
    let is_global = |name: &str| name.is_empty() || name == "all";
    assert_eq!(
        target_namespace(Some("own"), is_global).as_deref(),
        Some("own")
    );
    assert_eq!(target_namespace(Some("all"), is_global), None);
    assert_eq!(target_namespace(None, is_global), None);
    assert_eq!(target_namespace(None, |_: &str| false).as_deref(), Some(""));
}

#[test]
fn dynamic_startup() {
    assert_eq!(
        steps_taken(EngineKind::Dynamic, false, true),
        vec![
            Step::Connect,
            Step::AttachStore,
            Step::BuildService,
            Step::WatchModels,
            Step::Serve,
            Step::Shutdown
        ]
    );
    assert_eq!(
        steps_taken(EngineKind::Dynamic, true, false),
        startup_plan(EngineKind::Dynamic, false, true)
    );
    assert!(!startup_plan(EngineKind::Dynamic, false, true).contains(&Step::WatchModels));
}

#[test]
fn remote_startup() {
    assert_eq!(
        steps_taken(EngineKind::StaticRemote, true, false),
        vec![
            Step::ConnectStatic,
            Step::BuildService,
            Step::OpenClient,
            Step::ChooseByCache,
            Step::LoadTokenizer,
            Step::BuildChatEngine,
            Step::AddChatModel,
            Step::BuildCompletionsEngine,
            Step::AddCompletionsModel,
            Step::EnableEndpoints,
            Step::Serve,
            Step::Shutdown
        ]
    );
    assert!(!steps_taken(EngineKind::StaticRemote, false, true).contains(&Step::ChooseByCache));
}

#[test]
fn full_engine_startup() {
    assert_eq!(
        steps_taken(EngineKind::StaticFull, false, true),
        vec![
            Step::BuildService,
            Step::AddCompletionsModel,
            Step::AddChatModel,
            Step::EnableEndpoints,
            Step::Serve,
            Step::Shutdown
        ]
    );
}

#[test]
fn core_engine_startup() {
    assert_eq!(
        steps_taken(EngineKind::StaticCore, true, true),
        vec![
            Step::BuildService,
            Step::LoadTokenizer,
            Step::BuildChatEngine,
            Step::AddChatModel,
            Step::BuildCompletionsEngine,
            Step::AddCompletionsModel,
            Step::EnableEndpoints,
            Step::Serve,
            Step::Shutdown
        ]
    );
}

#[test]
fn a_failed_step_is_the_last() {
    let mut startup = Startup::new(EngineKind::StaticFull, false);
    startup.advance(Outcome::Done { has_store: false });
    assert_eq!(startup.step(), Some(Step::AddCompletionsModel));
    startup.advance(Outcome::Failed);
    assert_eq!(startup.step(), None);
    startup.advance(Outcome::Done { has_store: false });
    assert_eq!(startup.step(), None);
    assert!(!startup.is_complete());
}

#[test]
fn the_store_is_looked_at_when_joining() {
    let mut startup = Startup::new(EngineKind::Dynamic, false);
    startup.advance(Outcome::Done { has_store: true });
    startup.advance(Outcome::Done { has_store: false });
    startup.advance(Outcome::Done { has_store: false });
    assert_eq!(startup.step(), Some(Step::WatchModels));
}

#[test]
fn endpoints_follow_the_models() {
    let on = update_http_endpoints(&ModelUpdate::Added(model_type(3, &['a', 'b'])));
    assert_eq!(
        on,
        vec![
            EndpointSwitch {
                endpoint: 'a',
                enabled: true
            },
            EndpointSwitch {
                endpoint: 'b',
                enabled: true
            }
        ]
    );
    let off = update_http_endpoints(&ModelUpdate::Removed(model_type(3, &['a', 'b'])));
    assert_eq!(off.len(), 2);
    for (s, t) in on.iter().zip(off.iter()) {
        assert_eq!(s.endpoint, t.endpoint);
        assert!(s.enabled && !t.enabled);
    }
    assert!(switch_all::<char>(&vec![], true).is_empty());
    assert_eq!(UPDATE_QUEUE_CAPACITY, 32);
}

#[test]
fn added_models_are_published() {
    let mut metrics = Metrics::new("svc");
    let update = ModelUpdate::Added(model_type(2, &[]));
    let entries = vec![entry("x", 2, 10), entry("y", 3, 20), entry("z", 2, 30)];
    assert!(concerns_entry(&update, &entries[0]));
    assert!(!concerns_entry(&update, &entries[1]));
    update_model_metrics(&update, &entries, &vec![None, None, None], &mut metrics);
    let early = page_of(&metrics);
    assert!(early.contains("svc_model_total_kv_blocks{model=\"x\"} 10\n"));
    assert!(early.contains("svc_model_total_kv_blocks{model=\"z\"} 30\n"));
    assert!(!early.contains("model=\"y\""));
    assert!(!early.contains("svc_model_context_length{"));
    let cards = vec![Some(CARD), Some(CARD), None];
    update_model_metrics(&update, &entries, &cards, &mut metrics);
    let late = page_of(&metrics);
    assert!(late.contains("svc_model_context_length{model=\"x\"} 100\n"));
    assert!(!late.contains("model=\"y\""));
    let mut at_once = Metrics::new("svc");
    update_model_metrics(&update, &entries, &cards, &mut at_once);
    assert_eq!(page_of(&at_once), late);
}

#[test]
fn the_last_entry_of_a_model_counts() {
    let mut metrics = Metrics::new("svc");
    let update = ModelUpdate::Added(model_type(1, &[]));
    let entries = vec![entry("x", 1, 10), entry("x", 1, 11)];
    update_model_metrics(&update, &entries, &vec![None, None], &mut metrics);
    assert!(page_of(&metrics).contains("svc_model_total_kv_blocks{model=\"x\"} 11\n"));
}

#[test]
fn removed_models_stay_published() {
    let mut metrics = Metrics::new("svc");
    let entries = vec![entry("x", 1, 10)];
    update_model_metrics(
        &ModelUpdate::Added(model_type(1, &[])),
        &entries,
        &vec![Some(CARD)],
        &mut metrics,
    );
    let before = page_of(&metrics);
    let update = ModelUpdate::Removed(model_type(1, &[]));
    assert!(!concerns_entry(&update, &entries[0]));
    update_model_metrics(&update, &vec![entry("x", 1, 99)], &vec![None], &mut metrics);
    assert_eq!(page_of(&metrics), before);
}
