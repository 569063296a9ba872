use dynamo_serving::http::events::{build_event, EventError};
use dynamo_serving::http::exposition::{handler_metrics, metrics_page, metrics_path};
use dynamo_serving::http::families::{
    chosen_prefix, is_valid_metric_name, is_valid_prefix, register_in_order, Family,
};
use dynamo_serving::http::labels::{Endpoint, RequestType, Status};
use dynamo_serving::http::metrics::{
    clamp_u64_to_i64, Metrics, ModelDeploymentCard, ModelEntry, ModelRuntimeConfig,
};
use dynamo_serving::http::observation::{Measure, Observation};
use dynamo_serving::http::response::ResponseMetricCollector;
use dynamo_serving::http::streaming::{
    convert_event, is_sendable, process_response_and_observe_metrics, process_response_at,
    process_response_using_event_converter_and_observe_metrics, Annotated, EventConverter,
    LLMMetricAnnotation,
};
use dynamo_serving::time::Duration;

const METRICS_EVENT: &str = "llm_metrics";

fn strings(list: &[&str]) -> Vec<String> {
    list.iter().map(|s| s.to_string()).collect()
}

fn annotated(data: Option<u32>, event: Option<&str>, comment: Option<&[&str]>) -> Annotated<u32> {
    Annotated {
        data,
        event: event.map(|s| s.to_string()),
        comment: comment.map(strings),
    }
}

fn annotation(input: usize, output: usize, chunk: usize) -> Option<LLMMetricAnnotation> {
    Some(LLMMetricAnnotation {
        input_tokens: input,
        output_tokens: output,
        chunk_tokens: chunk,
    })
}

fn families(observations: &[Observation]) -> Vec<Family> {
    observations.iter().map(|o| o.family).collect()
}

fn page_of(metrics: &Metrics) -> String {
    let registry = prometheus::Registry::new();
    metrics.register(&registry, |_, _| Ok(())).unwrap();
    let page = handler_metrics(&registry);
    assert_eq!(page.status, 200);
    page.body
}

#[test]
fn label_values() {
    let endpoints = [
        (Endpoint::Completions, "completions"),
        (Endpoint::ChatCompletions, "chat_completions"),
        (Endpoint::Embeddings, "embeddings"),
        (Endpoint::Responses, "responses"),
        (Endpoint::Tensor, "tensor"),
    ];
    for (endpoint, label) in endpoints {
        assert_eq!(endpoint.as_str(), label);
        assert_eq!(endpoint.display(), label);
    }
    assert_eq!(RequestType::Unary.as_str(), "unary");
    assert_eq!(RequestType::Stream.as_str(), "stream");
    assert_eq!(Status::Success.as_str(), "success");
    assert_eq!(Status::Error.as_str(), "error");
}

#[test]
fn family_names_carry_the_prefix() {
    assert_eq!(
        Family::RequestsTotal.metric_name("svc"),
        "svc_requests_total"
    );
    assert_eq!(
        Family::InflightRequests.metric_name("svc"),
        "svc_inflight_requests"
    );
    assert_eq!(
        Family::ModelMigrationLimit.metric_name("svc"),
        "svc_model_migration_limit"
    );
}

#[test]
fn families_in_registration_order() {
    let all = Family::all();
    assert_eq!(all.len(), 15);
    assert_eq!(all[0], Family::RequestsTotal);
    assert_eq!(all[4], Family::RequestDuration);
    assert_eq!(all[14], Family::ModelMigrationLimit);
    let mut names: Vec<String> = all.iter().map(|f| f.metric_name("p")).collect();
    assert!(names.iter().all(|n| is_valid_metric_name(n)));
    names.sort();
    names.dedup();
    assert_eq!(names.len(), 15);
    assert_eq!(all.iter().filter(|f| f.is_histogram()).count(), 5);
}

#[test]
fn labels_of_families() {
    assert_eq!(
        Family::RequestsTotal.labels(),
        vec!["model", "endpoint", "request_type", "status"]
    );
    assert_eq!(Family::InflightRequests.labels(), vec!["model"]);
    assert!(Family::ClientDisconnects.labels().is_empty());
}

#[test]
fn bucket_bounds() {
    assert_eq!(
        Family::RequestDuration.bucket_bounds_milli(),
        vec![0, 1000, 2000, 4000, 8000, 16_000, 32_000, 64_000, 128_000, 256_000]
    );
    assert_eq!(
        Family::InterTokenLatency.bucket_bounds_milli(),
        vec![0, 1, 5, 10, 15, 20, 25, 50, 100, 250, 500, 1000, 2000]
    );
    let ttft = Family::TimeToFirstToken.bucket_bounds_milli();
    assert_eq!(ttft.len(), 18);
    assert_eq!(ttft[17], 480_000);
    assert_eq!(
        Family::InputSequence.bucket_bounds_milli().last(),
        Some(&128_000_000)
    );
    assert_eq!(
        Family::OutputSequence.bucket_bounds_milli().last(),
        Some(&32_000_000)
    );
}

#[test]
fn prefixes() {
    assert_eq!(chosen_prefix(None, "standard"), "standard");
    assert_eq!(
        chosen_prefix(Some("own".to_string()), "standard"),
        "own"
    );
    assert!(is_valid_metric_name("a:b_9"));
    assert!(!is_valid_metric_name(""));
    assert!(!is_valid_metric_name("9a"));
    assert!(!is_valid_metric_name("a-b"));
    assert!(is_valid_prefix(""));
    assert!(is_valid_prefix("svc"));
    assert!(!is_valid_prefix("9a"));
}

#[test]
fn an_empty_prefix_leaves_the_underscore() {
    let mut metrics = Metrics::new("");
    metrics.inc_client_disconnect();
    assert!(page_of(&metrics).contains("_client_disconnects 1\n"));
}

#[test]
fn the_input_length_is_that_of_the_first_tokens() {
    let mut metrics = Metrics::new("svc");
    let mut collector = metrics.create_response_collector("m");
    let mut guard = None;
    let at = Duration::from_millis(1);
    let mut lengths = vec![];
    for (input, tokens) in [(1, 0), (2, 3), (4, 0), (5, 6)] {
        let observations = process_response_at(
            &annotation(input, tokens, tokens),
            &mut collector,
            &mut guard,
            &mut metrics,
            at,
            at,
        );
        for o in observations {
            if let (Family::InputSequence, Measure::Tokens(n)) = (o.family, o.value) {
                lengths.push(n);
            }
        }
    }
    assert_eq!(lengths, vec![2]);
    assert!(!collector.is_first_token());
}

#[test]
fn requests_are_counted_by_their_end() {
    let mut metrics = Metrics::new("svc");
    let mut ok = metrics.create_inflight_guard("Model-A", Endpoint::ChatCompletions, true);
    let failed = metrics.create_inflight_guard("MODEL-a", Endpoint::ChatCompletions, true);
    assert_eq!(metrics.get_inflight_count("model-a"), 2);
    assert_eq!(metrics.get_inflight_count("Model-A"), 0);
    ok.mark_ok();
    let observation = ok.finish_after(&mut metrics, Duration::from_millis(250));
    assert_eq!(observation.family, Family::RequestDuration);
    assert_eq!(observation.model, "model-a");
    assert_eq!(observation.times, 1);
    assert!(matches!(observation.value, Measure::Seconds(d) if d.as_nanos() == 250_000_000));
    assert_eq!(metrics.get_inflight_count("model-a"), 1);
    failed.finish(&mut metrics);
    assert_eq!(metrics.get_inflight_count("model-a"), 0);
    for (status, count) in [(Status::Success, 1), (Status::Error, 1)] {
        assert_eq!(
            metrics.get_request_counter(
                "model-a",
                &Endpoint::ChatCompletions,
                &RequestType::Stream,
                &status
            ),
            count
        );
        assert_eq!(
            metrics.get_request_counter(
                "model-a",
                &Endpoint::ChatCompletions,
                &RequestType::Unary,
                &status
            ),
            0
        );
    }
}

#[test]
fn unary_requests_are_told_apart() {
    let mut metrics = Metrics::new("svc");
    let guard = metrics.create_inflight_guard("m", Endpoint::Embeddings, false);
    guard.finish(&mut metrics);
    assert_eq!(
        metrics.get_request_counter(
            "m",
            &Endpoint::Embeddings,
            &RequestType::Unary,
            &Status::Error
        ),
        1
    );
}

#[test]
fn names_are_taken_in_lower_case() {
    let mut metrics = Metrics::new("svc");
    metrics.create_inflight_guard("GRÖSSE", Endpoint::Tensor, false);
    assert_eq!(metrics.get_inflight_count("grösse"), 1);
}

#[test]
fn disconnects_are_counted() {
    let mut metrics = Metrics::new("svc");
    assert_eq!(metrics.get_client_disconnect_count(), 0);
    metrics.inc_client_disconnect();
    metrics.inc_client_disconnect();
    assert_eq!(metrics.get_client_disconnect_count(), 2);
    assert!(page_of(&metrics).contains("svc_client_disconnects 2\n"));
}

#[test]
fn queue_is_balanced_on_the_page() {
    let mut metrics = Metrics::new("svc");
    let first = metrics.create_http_queue_guard("M");
    let second = metrics.create_http_queue_guard("m");
    assert!(page_of(&metrics).contains("svc_queued_requests_total{model=\"m\"} 2\n"));
    first.release(&mut metrics);
    second.release(&mut metrics);
    assert!(page_of(&metrics).contains("svc_queued_requests_total{model=\"m\"} 0\n"));
}

#[test]
fn series_that_share_their_joined_values_are_one() {
    let mut metrics = Metrics::new("svc");
    let guard = metrics.create_inflight_guard("m", Endpoint::ChatCompletions, true);
    guard.finish(&mut metrics);
    assert_eq!(
        metrics.get_request_counter(
            "mchat_",
            &Endpoint::Completions,
            &RequestType::Stream,
            &Status::Error
        ),
        1
    );
}

#[test]
fn clamping() {
    assert_eq!(clamp_u64_to_i64(0), 0);
    assert_eq!(clamp_u64_to_i64(i64::MAX as u64), i64::MAX);
    assert_eq!(clamp_u64_to_i64(i64::MAX as u64 + 1), i64::MAX);
    assert_eq!(clamp_u64_to_i64(u64::MAX), i64::MAX);
}

#[test]
fn published_models_are_on_the_page() {
    let mut metrics = Metrics::new("svc");
    let entry = ModelEntry {
        name: "M".to_string(),
        model_type: 1,
        runtime_config: Some(ModelRuntimeConfig {
            total_kv_blocks: Some(u64::MAX),
            max_num_seqs: None,
            max_num_batched_tokens: Some(7),
        }),
    };
    let card = ModelDeploymentCard {
        context_length: 4096,
        kv_cache_block_size: 16,
        migration_limit: 3,
    };
    metrics.update_metrics_from_model_entry_with_mdc(&entry, Some(card));
    let page = page_of(&metrics);
    assert!(page.contains("svc_model_max_num_batched_tokens{model=\"M\"} 7\n"));
    assert!(page.contains("svc_model_total_kv_blocks{model=\"M\"} 9223372036854776000\n"));
    assert!(page.contains("svc_model_context_length{model=\"M\"} 4096\n"));
    assert!(page.contains("svc_model_kv_cache_block_size{model=\"M\"} 16\n"));
    assert!(page.contains("svc_model_migration_limit{model=\"M\"} 3\n"));
    assert!(!page.contains("svc_model_max_num_seqs{"));
    metrics.update_metrics_from_model_entry_with_mdc(&entry, Some(card));
    assert_eq!(page_of(&metrics), page);
}

#[test]
fn runtime_config_alone_leaves_the_card_out() {
    let mut metrics = Metrics::new("svc");
    metrics.update_runtime_config_metrics(
        "m",
        &ModelRuntimeConfig {
            total_kv_blocks: Some(5),
            max_num_seqs: Some(6),
            max_num_batched_tokens: None,
        },
    );
    let page = page_of(&metrics);
    assert!(page.contains("svc_model_total_kv_blocks{model=\"m\"} 5\n"));
    assert!(page.contains("svc_model_max_num_seqs{model=\"m\"} 6\n"));
    assert!(!page.contains("svc_model_context_length{"));
}

#[test]
fn registration_stops_at_the_first_error() {
    let metrics = Metrics::new("svc");
    let registry = prometheus::Registry::new();
    metrics.register(&registry, |_, _| Ok(())).unwrap();
    assert!(matches!(
        metrics.register(&registry, |_, _| Ok(())),
        Err(prometheus::Error::AlreadyReg)
    ));
    let other = prometheus::Registry::new();
    let refused = metrics.register(&other, |_, _| Err(prometheus::Error::AlreadyReg));
    assert!(refused.is_err());
    // What comes before the histograms is registered, what comes behind is not.
    assert!(Metrics::new("svc").register(&other, |_, _| Ok(())).is_err());
}

#[test]
fn families_are_registered_in_order() {
    let seen = std::cell::RefCell::new(vec![]);
    let outcome: Result<(), Family> = register_in_order(|family| {
        seen.borrow_mut().push(family);
        Ok(())
    });
    assert_eq!(outcome, Ok(()));
    assert_eq!(seen.into_inner(), Family::all());
    let seen = std::cell::RefCell::new(0);
    let outcome = register_in_order(|family| {
        *seen.borrow_mut() += 1;
        match family {
            Family::QueuedRequests | Family::InputSequence => Err(family),
            _ => Ok(()),
        }
    });
    assert_eq!(outcome, Err(Family::QueuedRequests));
    assert_eq!(seen.into_inner(), 4);
}

#[test]
fn histograms_are_left_to_the_caller() {
    let seen = std::cell::RefCell::new(vec![]);
    let registry = prometheus::Registry::new();
    Metrics::new("svc")
        .register(&registry, |_, family| {
            seen.borrow_mut().push(family);
            Ok(())
        })
        .unwrap();
    assert_eq!(
        seen.into_inner(),
        vec![
            Family::RequestDuration,
            Family::InputSequence,
            Family::OutputSequence,
            Family::TimeToFirstToken,
            Family::InterTokenLatency
        ]
    );
}

#[test]
fn page_shows_counters() {
    let mut metrics = Metrics::new("svc");
    let guard = metrics.create_inflight_guard("m", Endpoint::Responses, true);
    guard.finish(&mut metrics);
    let page = page_of(&metrics);
    assert!(page.contains("# HELP svc_requests_total Total number of LLM requests processed\n"));
    assert!(page.contains("# TYPE svc_requests_total counter\n"));
    assert!(page.contains(
        "svc_requests_total{endpoint=\"responses\",model=\"m\",request_type=\"stream\",status=\"error\"} 1\n"
    ));
}

#[test]
fn pages_for_encoded_metrics() {
    let page = metrics_page(Some("größe 1\n".as_bytes().to_vec()));
    assert_eq!((page.status, page.body.as_str()), (200, "größe 1\n"));
    let page = metrics_page(Some(vec![0xff]));
    assert_eq!(
        (page.status, page.body.as_str()),
        (500, "Failed to encode metrics")
    );
    let page = metrics_page(None);
    assert_eq!(
        (page.status, page.body.as_str()),
        (500, "Failed to encode metrics")
    );
}

struct Untyped {
    desc: prometheus::core::Desc,
}

impl prometheus::core::Collector for Untyped {
    fn desc(&self) -> Vec<&prometheus::core::Desc> {
        vec![&self.desc]
    }

    fn collect(&self) -> Vec<prometheus::proto::MetricFamily> {
        let mut family = prometheus::proto::MetricFamily::default();
        family.set_name("untyped".to_string());
        family.set_field_type(prometheus::proto::MetricType::UNTYPED);
        family.set_metric(vec![prometheus::proto::Metric::default()]);
        vec![family]
    }
}

#[test]
fn families_of_no_type_have_no_page() {
    let registry = prometheus::Registry::new();
    let desc = prometheus::core::Desc::new(
        "untyped".to_string(),
        "help".to_string(),
        vec![],
        Default::default(),
    )
    .unwrap();
    registry.register(Box::new(Untyped { desc })).unwrap();
    let page = handler_metrics(&registry);
    assert_eq!(
        (page.status, page.body.as_str()),
        (500, "Failed to encode metrics")
    );
}

#[test]
fn an_empty_registry_has_an_empty_page() {
    let page = handler_metrics(&prometheus::Registry::new());
    assert_eq!((page.status, page.body.as_str()), (200, ""));
}

#[test]
fn page_paths() {
    assert_eq!(metrics_path(None), "/metrics");
    assert_eq!(metrics_path(Some("/m".to_string())), "/m");
}

#[test]
fn responses_are_recorded() {
    let metrics = Metrics::new("svc");
    let mut collector = metrics.create_response_collector("M");
    assert!(collector.is_first_token());
    let none = collector.observe_response_at(
        10,
        0,
        Duration::from_millis(1),
        Duration::from_millis(1),
    );
    assert!(none.is_empty());
    assert!(collector.is_first_token());
    let first = collector.observe_response_at(
        10,
        3,
        Duration::from_millis(20),
        Duration::from_millis(21),
    );
    assert_eq!(
        families(&first),
        vec![Family::TimeToFirstToken, Family::InputSequence]
    );
    assert!(first.iter().all(|o| o.model == "m" && o.times == 1));
    assert!(matches!(first[0].value, Measure::Seconds(d) if d.as_nanos() == 20_000_000));
    assert!(matches!(first[1].value, Measure::Tokens(10)));
    assert!(!collector.is_first_token());
    let second = collector.observe_response_at(
        10,
        4,
        Duration::from_millis(60),
        Duration::from_millis(61),
    );
    assert_eq!(families(&second), vec![Family::InterTokenLatency]);
    assert_eq!(second[0].times, 4);
    assert!(
        matches!(second[0].value, Measure::SecondsShare(d, 4) if d.as_nanos() == 40_000_000)
    );
    collector.observe_current_osl(7);
    let last = collector.finish();
    assert_eq!(last.family, Family::OutputSequence);
    assert!(matches!(last.value, Measure::Tokens(7)));
}

#[test]
fn responses_are_recorded_by_the_clock() {
    let mut collector = ResponseMetricCollector::new("m".to_string());
    assert_eq!(collector.observe_response(1, 1).len(), 2);
    assert_eq!(families(&collector.observe_response(1, 2)), vec![Family::InterTokenLatency]);
    assert!(collector.observe_response(1, 0).is_empty());
}

#[test]
fn the_wait_ends_with_the_first_token() {
    let mut metrics = Metrics::new("svc");
    let mut collector = metrics.create_response_collector("m");
    let mut guard = Some(metrics.create_http_queue_guard("m"));
    let at = Duration::from_millis(5);
    let none =
        process_response_at(&None, &mut collector, &mut guard, &mut metrics, at, at);
    assert!(none.is_empty() && guard.is_some());
    let none = process_response_at(
        &annotation(8, 2, 0),
        &mut collector,
        &mut guard,
        &mut metrics,
        at,
        at,
    );
    assert!(none.is_empty() && guard.is_some());
    assert!(page_of(&metrics).contains("svc_queued_requests_total{model=\"m\"} 1\n"));
    let first = process_response_at(
        &annotation(8, 3, 1),
        &mut collector,
        &mut guard,
        &mut metrics,
        at,
        at,
    );
    assert_eq!(first.len(), 2);
    assert!(guard.is_none());
    assert!(page_of(&metrics).contains("svc_queued_requests_total{model=\"m\"} 0\n"));
    let later = process_response_and_observe_metrics(
        &annotation(8, 5, 2),
        &mut collector,
        &mut guard,
        &mut metrics,
    );
    assert_eq!(later[0].times, 2);
    assert!(page_of(&metrics).contains("svc_queued_requests_total{model=\"m\"} 0\n"));
    assert!(matches!(collector.finish().value, Measure::Tokens(5)));
}

#[test]
fn latencies_add_up_to_the_stream() {
    let mut metrics = Metrics::new("svc");
    let mut collector = metrics.create_response_collector("m");
    let mut guard = None;
    let mut nanos = 0;
    let mut recorded = 0;
    let mut output = 0;
    for (millis, tokens) in [(5, 0), (10, 3), (25, 1), (25, 0), (70, 4)] {
        output += tokens;
        let at = Duration::from_millis(millis);
        let observations = process_response_at(
            &annotation(8, output, tokens),
            &mut collector,
            &mut guard,
            &mut metrics,
            at,
            at,
        );
        for o in observations {
            if let Measure::SecondsShare(d, parts) = o.value {
                assert_eq!(o.times, parts);
                nanos += d.as_nanos();
                recorded += o.times;
            }
        }
    }
    assert_eq!(nanos, 60_000_000);
    assert_eq!(recorded, 5);
    assert!(matches!(collector.finish().value, Measure::Tokens(8)));
}

#[test]
fn plain_responses_become_events() {
    let converter = EventConverter::from(annotated(Some(4), Some("note"), Some(&["a", "b"])));
    let event = convert_event(converter, &None, METRICS_EVENT);
    assert_eq!(event.data, Some(4));
    let fields = event.outcome.unwrap();
    assert_eq!(fields.event.as_deref(), Some("note"));
    assert_eq!(fields.comments, strings(&["a", "b"]));
}

#[test]
fn responses_without_annotations_become_bare_events() {
    let event = convert_event(EventConverter(annotated(None, None, None)), &None, METRICS_EVENT);
    assert_eq!(event.data, None);
    let fields = event.outcome.unwrap();
    assert_eq!(fields.event, None);
    assert!(fields.comments.is_empty());
}

#[test]
fn error_events_are_errors() {
    let event = convert_event(
        EventConverter(annotated(Some(1), Some("error"), Some(&["bad", "worse"]))),
        &None,
        METRICS_EVENT,
    );
    assert_eq!(event.data, Some(1));
    assert_eq!(event.outcome.unwrap_err(), "bad -- worse");
    let event = convert_event(
        EventConverter(annotated(None, Some("error"), None)),
        &None,
        METRICS_EVENT,
    );
    assert_eq!(event.outcome.unwrap_err(), "unspecified error");
}

#[test]
fn metrics_annotations_are_not_passed_on() {
    let metrics_event = || EventConverter(annotated(Some(1), Some(METRICS_EVENT), Some(&["{}"])));
    let fields = convert_event(metrics_event(), &annotation(1, 2, 3), METRICS_EVENT)
        .outcome
        .unwrap();
    assert_eq!(fields.event, None);
    assert!(fields.comments.is_empty());
    // Metrics that could not be read are passed on.
    let fields = convert_event(metrics_event(), &None, METRICS_EVENT)
        .outcome
        .unwrap();
    assert_eq!(fields.event.as_deref(), Some(METRICS_EVENT));
    assert_eq!(fields.comments, strings(&["{}"]));
}

#[test]
fn converting_records_the_metrics() {
    let mut metrics = Metrics::new("svc");
    let mut collector = metrics.create_response_collector("m");
    let mut guard = Some(metrics.create_http_queue_guard("m"));
    let (event, observations) = process_response_using_event_converter_and_observe_metrics(
        EventConverter(annotated(Some(9), Some(METRICS_EVENT), Some(&["{}"]))),
        &annotation(8, 1, 1),
        METRICS_EVENT,
        |event, data| event.json_data(data),
        &mut collector,
        &mut guard,
        &mut metrics,
    );
    assert!(format!("{:?}", event.unwrap()).contains("b\"data: 9\\n\""));
    assert_eq!(observations.len(), 2);
    assert!(guard.is_none());
}

#[test]
fn errors_come_with_their_metrics() {
    let mut metrics = Metrics::new("svc");
    let mut collector = metrics.create_response_collector("m");
    let mut guard = None;
    let (event, observations) = process_response_using_event_converter_and_observe_metrics(
        EventConverter(annotated(Some(9), Some("error"), Some(&["two\nlines"]))),
        &annotation(8, 1, 1),
        METRICS_EVENT,
        |event, data| event.json_data(data),
        &mut collector,
        &mut guard,
        &mut metrics,
    );
    assert!(matches!(event, Err(EventError::Reported(message)) if message == "two\nlines"));
    assert_eq!(observations.len(), 2);
}

#[test]
fn events_are_written_field_by_field() {
    let converted = convert_event(
        EventConverter(annotated(Some(4), Some("note"), Some(&["a", "b"]))),
        &None,
        METRICS_EVENT,
    );
    let event = build_event(converted, |event, data| event.json_data(data)).unwrap();
    assert!(
        format!("{event:?}").contains("b\"data: 4\\nevent: note\\n: a\\n: b\\n\"")
    );
    let converted = convert_event(EventConverter(annotated(None, None, None)), &None, "");
    let event = build_event(converted, |event, data| event.json_data(data)).unwrap();
    assert!(format!("{event:?}").contains("b\"\""));
}

#[test]
fn failing_data_is_reported_before_an_error() {
    let converted = convert_event(
        EventConverter(annotated(Some(4), Some("error"), None)),
        &None,
        METRICS_EVENT,
    );
    let outcome = build_event(converted, |_, _| Err(axum::Error::new("no data")));
    assert!(matches!(outcome, Err(EventError::Data(e)) if e.to_string() == "no data"));
}

#[test]
fn line_breaks_cannot_be_sent() {
    let sendable = |event: Option<&str>, comment: Option<&[&str]>, metrics| {
        is_sendable(&annotated(None, event, comment), &metrics, METRICS_EVENT)
    };
    assert!(sendable(None, None, None));
    assert!(sendable(Some("note"), Some(&["a", "b"]), None));
    assert!(!sendable(Some("no\nte"), None, None));
    assert!(!sendable(Some("note"), Some(&["a", "b\r"]), None));
    assert!(sendable(Some("error"), Some(&["a\nb"]), None));
    assert!(sendable(Some(METRICS_EVENT), Some(&["a\nb"]), annotation(1, 1, 1)));
    assert!(!sendable(Some(METRICS_EVENT), Some(&["a\nb"]), None));
}
