//! Request counters and gauges of the HTTP service.

use super::families::{
    families_are_valid, register_in_order, registration_order_is_complete, valid_prefix, Family,
};
use super::labels::{Endpoint, RequestType, Status};
use super::guards::{HttpQueueGuard, InflightGuard, InflightView};
use super::response::{CollectorView, ResponseMetricCollector};
use super::series::{
    count_at, counter_about, counter_get, counter_inc, counter_series, gauge_about, gauge_dec,
    gauge_down, gauge_get, gauge_inc, gauge_series, gauge_set, gauge_up, label_hash, level_at,
    new_counter_family, new_gauge_family, new_single_gauge, next_count, register_collector,
    single_about, single_get, single_inc, single_level, About, Collector,
    CounterFamily, GaugeFamily, SingleGauge,
};
use crate::text::{ascii_lower, lowercase, texts};
use crate::time::clock_may_show;
use vstd::prelude::*;
use vstd::string::*;
use vstd::utf8::is_ascii_chars;

verus! {

/// The counters and gauges of the service.
///
/// Series are never taken away: what was once counted stays readable.
pub struct Metrics {
    request_counter: CounterFamily,
    inflight_gauge: GaugeFamily,
    client_disconnect_gauge: SingleGauge,
    http_queue_gauge: GaugeFamily,
    model_total_kv_blocks: GaugeFamily,
    model_max_num_seqs: GaugeFamily,
    model_max_num_batched_tokens: GaugeFamily,
    model_context_length: GaugeFamily,
    model_kv_cache_block_size: GaugeFamily,
    model_migration_limit: GaugeFamily,
    prefix: Ghost<Seq<char>>,
}

/// The values that [`Metrics`] holds, each family's series by the hash of their
/// label values.
#[verifier::ext_equal]
pub ghost struct MetricsView {
    pub requests: Map<u64, u64>,
    pub inflight: Map<u64, i64>,
    pub disconnects: i64,
    pub queued: Map<u64, i64>,
    pub total_kv_blocks: Map<u64, i64>,
    pub max_num_seqs: Map<u64, i64>,
    pub max_num_batched_tokens: Map<u64, i64>,
    pub context_length: Map<u64, i64>,
    pub kv_cache_block_size: Map<u64, i64>,
    pub migration_limit: Map<u64, i64>,
}

/// The runtime configuration of a worker, as far as it is published.
#[derive(Clone, Copy, Debug)]
pub struct ModelRuntimeConfig {
    pub total_kv_blocks: Option<u64>,
    pub max_num_seqs: Option<u64>,
    pub max_num_batched_tokens: Option<u64>,
}

/// The deployment card of a model, as far as it is published.
#[derive(Clone, Copy, Debug)]
pub struct ModelDeploymentCard {
    pub context_length: u64,
    pub kv_cache_block_size: u64,
    pub migration_limit: u64,
}

/// A model that is being served.
#[derive(Clone, Debug)]
pub struct ModelEntry {
    pub name: String,
    /// The kinds of request that the model takes, as a set of flags.
    pub model_type: u64,
    pub runtime_config: Option<ModelRuntimeConfig>,
}

/// The key of the counter of requests with the given dimensions.
pub open spec fn request_key(
    model: Seq<char>,
    endpoint: Endpoint,
    request_type: RequestType,
    status: Status,
) -> u64 {
    label_hash(model + endpoint.label() + request_type.label() + status.label())
}

/// The largest 64-bit signed number that is not above `v`.
pub open spec fn clamped(v: u64) -> i64 {
    if v > i64::MAX {
        i64::MAX
    } else {
        v as i64
    }
}

/// A family of gauges after one of them was set, where there is a value.
pub open spec fn gauge_set_if(series: Map<u64, i64>, key: u64, v: Option<u64>) -> Map<u64, i64> {
    match v {
        Some(v) => series.insert(key, clamped(v)),
        None => series,
    }
}

impl MetricsView {
    /// The values of a new service: no series, and no client disconnected.
    pub open spec fn fresh() -> Self {
        MetricsView {
            requests: Map::empty(),
            inflight: Map::empty(),
            disconnects: 0,
            queued: Map::empty(),
            total_kv_blocks: Map::empty(),
            max_num_seqs: Map::empty(),
            max_num_batched_tokens: Map::empty(),
            context_length: Map::empty(),
            kv_cache_block_size: Map::empty(),
            migration_limit: Map::empty(),
        }
    }

    /// One more request in flight for `model`.
    pub open spec fn inflight_up(self, model: Seq<char>) -> Self {
        let key = label_hash(model);
        MetricsView {
            inflight: self.inflight.insert(key, gauge_up(level_at(self.inflight, key))),
            ..self
        }
    }

    /// One request less in flight for `model`.
    pub open spec fn inflight_down(self, model: Seq<char>) -> Self {
        let key = label_hash(model);
        MetricsView {
            inflight: self.inflight.insert(key, gauge_down(level_at(self.inflight, key))),
            ..self
        }
    }

    /// One more request queued for `model`.
    pub open spec fn queued_up(self, model: Seq<char>) -> Self {
        let key = label_hash(model);
        MetricsView {
            queued: self.queued.insert(key, gauge_up(level_at(self.queued, key))),
            ..self
        }
    }

    /// One request less queued for `model`.
    pub open spec fn queued_down(self, model: Seq<char>) -> Self {
        let key = label_hash(model);
        MetricsView {
            queued: self.queued.insert(key, gauge_down(level_at(self.queued, key))),
            ..self
        }
    }

    /// One more request counted under `key`.
    pub open spec fn request_counted(self, key: u64) -> Self {
        MetricsView {
            requests: self.requests.insert(key, next_count(count_at(self.requests, key))),
            ..self
        }
    }

    /// A worker's runtime configuration published for `model`.
    pub open spec fn runtime_config_set(self, model: Seq<char>, config: ModelRuntimeConfig) -> Self {
        let key = label_hash(model);
        MetricsView {
            total_kv_blocks: gauge_set_if(self.total_kv_blocks, key, config.total_kv_blocks),
            max_num_seqs: gauge_set_if(self.max_num_seqs, key, config.max_num_seqs),
            max_num_batched_tokens: gauge_set_if(
                self.max_num_batched_tokens,
                key,
                config.max_num_batched_tokens,
            ),
            ..self
        }
    }

    /// A deployment card published for `model`.
    pub open spec fn card_set(self, model: Seq<char>, card: ModelDeploymentCard) -> Self {
        let key = label_hash(model);
        MetricsView {
            context_length: self.context_length.insert(key, card.context_length as i64),
            kv_cache_block_size: self.kv_cache_block_size.insert(
                key,
                card.kv_cache_block_size as i64,
            ),
            migration_limit: self.migration_limit.insert(key, card.migration_limit as i64),
            ..self
        }
    }

    /// What is known of a model published: its runtime configuration and its
    /// deployment card, each where there is one.
    pub open spec fn entry_set(
        self,
        model: Seq<char>,
        config: Option<ModelRuntimeConfig>,
        card: Option<ModelDeploymentCard>,
    ) -> Self {
        let configured = match config {
            Some(config) => self.runtime_config_set(model, config),
            None => self,
        };
        match card {
            Some(card) => configured.card_set(model, card),
            None => configured,
        }
    }

    /// Whether every series of `self` is still there in `later`.
    pub open spec fn kept_in(self, later: Self) -> bool {
        &&& self.requests.dom().subset_of(later.requests.dom())
        &&& self.inflight.dom().subset_of(later.inflight.dom())
        &&& self.queued.dom().subset_of(later.queued.dom())
        &&& self.total_kv_blocks.dom().subset_of(later.total_kv_blocks.dom())
        &&& self.max_num_seqs.dom().subset_of(later.max_num_seqs.dom())
        &&& self.max_num_batched_tokens.dom().subset_of(later.max_num_batched_tokens.dom())
        &&& self.context_length.dom().subset_of(later.context_length.dom())
        &&& self.kv_cache_block_size.dom().subset_of(later.kv_cache_block_size.dom())
        &&& self.migration_limit.dom().subset_of(later.migration_limit.dom())
    }
}

impl View for Metrics {
    type V = MetricsView;

    closed spec fn view(&self) -> MetricsView {
        MetricsView {
            requests: counter_series(self.request_counter),
            inflight: gauge_series(self.inflight_gauge),
            disconnects: single_level(self.client_disconnect_gauge)[0],
            queued: gauge_series(self.http_queue_gauge),
            total_kv_blocks: gauge_series(self.model_total_kv_blocks),
            max_num_seqs: gauge_series(self.model_max_num_seqs),
            max_num_batched_tokens: gauge_series(self.model_max_num_batched_tokens),
            context_length: gauge_series(self.model_context_length),
            kv_cache_block_size: gauge_series(self.model_kv_cache_block_size),
            migration_limit: gauge_series(self.model_migration_limit),
        }
    }
}

/// The largest 64-bit signed number that is not above `v`.
pub fn clamp_u64_to_i64(v: u64) -> (r: i64)
    ensures
        r == clamped(v),
{
    if v > i64::MAX as u64 {
        i64::MAX
    } else {
        v as i64
    }
}

/// `v` as the level of a gauge; numbers beyond its range wrap round.
fn as_level(v: u64) -> (r: i64)
    ensures
        r == v as i64,
{
    v as i64
}

proof fn lemma_four_texts(values: Seq<String>)
    requires
        values.len() == 4,
    ensures
        texts(values).flatten() == values[0]@ + values[1]@ + values[2]@ + values[3]@,
{
    let t = texts(values);
    reveal_with_fuel(Seq::flatten, 5);
    assert(t.drop_first().drop_first().drop_first().drop_first().len() == 0);
    assert(t.flatten() =~= values[0]@ + values[1]@ + values[2]@ + values[3]@);
}

/// The label values of a request, in the order of the label names.
fn request_labels(
    model: &str,
    endpoint: &Endpoint,
    request_type: &RequestType,
    status: &Status,
) -> (r: Vec<String>)
    ensures
        r.len() == 4,
        label_hash(texts(r@).flatten()) == request_key(
            model@,
            *endpoint,
            *request_type,
            *status,
        ),
{
    let mut r: Vec<String> = Vec::new();
    r.push(model.to_owned());
    r.push(endpoint.as_str().to_owned());
    r.push(request_type.as_str().to_owned());
    r.push(status.as_str().to_owned());
    proof {
        lemma_four_texts(r@);
    }
    r
}

/// Makes the counters of requests under `prefix`.
fn counters_of(family: Family, prefix: &str) -> (r: CounterFamily)
    requires
        valid_prefix(prefix@),
        family.label_texts().len() > 0,
    ensures
        counter_series(r) == Map::<u64, u64>::empty(),
        counter_about(r) == family.about(prefix@),
{
    let name = family.metric_name(prefix);
    let labels = family.labels();
    proof {
        families_are_valid(prefix@, family);
        assert(labels@.map_values(|l: &str| l@).len() == labels@.len());
    }
    new_counter_family(name.as_str(), family.help(), labels.as_slice()).unwrap()
}

/// Makes the gauges of `family` under `prefix`.
fn gauges_of(family: Family, prefix: &str) -> (r: GaugeFamily)
    requires
        valid_prefix(prefix@),
        family.label_texts().len() > 0,
    ensures
        gauge_series(r) == Map::<u64, i64>::empty(),
        gauge_about(r) == family.about(prefix@),
{
    let name = family.metric_name(prefix);
    let labels = family.labels();
    proof {
        families_are_valid(prefix@, family);
        assert(labels@.map_values(|l: &str| l@).len() == labels@.len());
    }
    new_gauge_family(name.as_str(), family.help(), labels.as_slice()).unwrap()
}

/// Whether `register_histogram` can be asked to register `family`, where it is a
/// histogram.
pub open spec fn can_register<F>(
    register_histogram: &F,
    registry: &prometheus::Registry,
    family: Family,
) -> bool where F: Fn(&prometheus::Registry, Family) -> Result<(), prometheus::Error> {
    family.is_histogram_family() ==> (*register_histogram).requires((registry, family))
}

impl Metrics {
    /// The prefix of every metric name.
    pub closed spec fn prefix(&self) -> Seq<char> {
        self.prefix@
    }

    /// Each family was made with its own name under the prefix, its help text
    /// and its labels.
    pub closed spec fn wf(&self) -> bool {
        let prefix = self.prefix@;
        &&& counter_about(self.request_counter) == Family::RequestsTotal.about(prefix)
        &&& gauge_about(self.inflight_gauge) == Family::InflightRequests.about(prefix)
        &&& single_about(self.client_disconnect_gauge) == Family::ClientDisconnects.about(prefix)
        &&& single_level(self.client_disconnect_gauge).len() == 1
        &&& gauge_about(self.http_queue_gauge) == Family::QueuedRequests.about(prefix)
        &&& gauge_about(self.model_total_kv_blocks) == Family::ModelTotalKvBlocks.about(prefix)
        &&& gauge_about(self.model_max_num_seqs) == Family::ModelMaxNumSeqs.about(prefix)
        &&& gauge_about(self.model_max_num_batched_tokens)
            == Family::ModelMaxNumBatchedTokens.about(prefix)
        &&& gauge_about(self.model_context_length) == Family::ModelContextLength.about(prefix)
        &&& gauge_about(self.model_kv_cache_block_size)
            == Family::ModelKvCacheBlockSize.about(prefix)
        &&& gauge_about(self.model_migration_limit) == Family::ModelMigrationLimit.about(prefix)
    }

    /// Makes the counters and gauges under `prefix`. Every family's name is the
    /// prefix, an underscore and the family's suffix.
    pub fn new(prefix: &str) -> (r: Self)
        requires
            valid_prefix(prefix@),
        ensures
            r.wf(),
            r.prefix() == prefix@,
            r@ == MetricsView::fresh(),
    {
        let disconnects = Family::ClientDisconnects;
        let disconnects_name = disconnects.metric_name(prefix);
        proof {
            families_are_valid(prefix@, disconnects);
        }
        let client_disconnect_gauge = new_single_gauge(
            disconnects_name.as_str(),
            disconnects.help(),
        ).unwrap();
        let r = Metrics {
            request_counter: counters_of(Family::RequestsTotal, prefix),
            inflight_gauge: gauges_of(Family::InflightRequests, prefix),
            client_disconnect_gauge,
            http_queue_gauge: gauges_of(Family::QueuedRequests, prefix),
            model_total_kv_blocks: gauges_of(Family::ModelTotalKvBlocks, prefix),
            model_max_num_seqs: gauges_of(Family::ModelMaxNumSeqs, prefix),
            model_max_num_batched_tokens: gauges_of(Family::ModelMaxNumBatchedTokens, prefix),
            model_context_length: gauges_of(Family::ModelContextLength, prefix),
            model_kv_cache_block_size: gauges_of(Family::ModelKvCacheBlockSize, prefix),
            model_migration_limit: gauges_of(Family::ModelMigrationLimit, prefix),
            prefix: Ghost(prefix@),
        };
        r
    }

    /// The number of requests with the given dimensions. A counter that is
    /// asked for the first time is made, with the count zero.
    pub fn get_request_counter(
        &mut self,
        model: &str,
        endpoint: &Endpoint,
        request_type: &RequestType,
        status: &Status,
    ) -> (r: u64)
        requires
            old(self).wf(),
        ensures
            final(self).wf(),
            final(self).prefix() == old(self).prefix(),
            r == count_at(
                old(self)@.requests,
                request_key(model@, *endpoint, *request_type, *status),
            ),
            final(self)@ == (MetricsView {
                requests: old(self)@.requests.insert(
                    request_key(model@, *endpoint, *request_type, *status),
                    r,
                ),
                ..old(self)@
            }),
    {
        let labels = request_labels(model, endpoint, request_type, status);
        counter_get(&mut self.request_counter, &labels)
    }

    /// Counts one request with the given dimensions.
    pub(crate) fn inc_request_counter(
        &mut self,
        model: &str,
        endpoint: &Endpoint,
        request_type: &RequestType,
        status: &Status,
    )
        requires
            old(self).wf(),
        ensures
            final(self).wf(),
            final(self).prefix() == old(self).prefix(),
            final(self)@ == old(self)@.request_counted(
                request_key(model@, *endpoint, *request_type, *status),
            ),
    {
        let labels = request_labels(model, endpoint, request_type, status);
        counter_inc(&mut self.request_counter, &labels);
    }

    /// The number of requests in flight for `model`. A gauge that is asked for
    /// the first time is made, with the level zero.
    pub fn get_inflight_count(&mut self, model: &str) -> (r: i64)
        requires
            old(self).wf(),
        ensures
            final(self).wf(),
            final(self).prefix() == old(self).prefix(),
            r == level_at(old(self)@.inflight, label_hash(model@)),
            final(self)@ == (MetricsView {
                inflight: old(self)@.inflight.insert(label_hash(model@), r),
                ..old(self)@
            }),
    {
        gauge_get(&mut self.inflight_gauge, model)
    }

    pub(crate) fn inc_inflight_gauge(&mut self, model: &str)
        requires
            old(self).wf(),
        ensures
            final(self).wf(),
            final(self).prefix() == old(self).prefix(),
            final(self)@ == old(self)@.inflight_up(model@),
    {
        gauge_inc(&mut self.inflight_gauge, model);
    }

    pub(crate) fn dec_inflight_gauge(&mut self, model: &str)
        requires
            old(self).wf(),
        ensures
            final(self).wf(),
            final(self).prefix() == old(self).prefix(),
            final(self)@ == old(self)@.inflight_down(model@),
    {
        gauge_dec(&mut self.inflight_gauge, model);
    }

    /// Notes that a client disconnected.
    pub fn inc_client_disconnect(&mut self)
        requires
            old(self).wf(),
        ensures
            final(self).wf(),
            final(self).prefix() == old(self).prefix(),
            final(self)@ == (MetricsView {
                disconnects: gauge_up(old(self)@.disconnects),
                ..old(self)@
            }),
    {
        single_inc(&mut self.client_disconnect_gauge);
    }

    /// The number of clients that disconnected.
    pub fn get_client_disconnect_count(&self) -> (r: i64)
        requires
            self.wf(),
        ensures
            r == self@.disconnects,
    {
        single_get(&self.client_disconnect_gauge)
    }

    pub(crate) fn inc_http_queue_gauge(&mut self, model: &str)
        requires
            old(self).wf(),
        ensures
            final(self).wf(),
            final(self).prefix() == old(self).prefix(),
            final(self)@ == old(self)@.queued_up(model@),
    {
        gauge_inc(&mut self.http_queue_gauge, model);
    }

    pub(crate) fn dec_http_queue_gauge(&mut self, model: &str)
        requires
            old(self).wf(),
        ensures
            final(self).wf(),
            final(self).prefix() == old(self).prefix(),
            final(self)@ == old(self)@.queued_down(model@),
    {
        gauge_dec(&mut self.http_queue_gauge, model);
    }

    /// Publishes a worker's runtime configuration: each value that is known,
    /// clamped to the range of a gauge. Values that are not known stay as they
    /// are.
    pub fn update_runtime_config_metrics(
        &mut self,
        model_name: &str,
        runtime_config: &ModelRuntimeConfig,
    )
        requires
            old(self).wf(),
        ensures
            final(self).wf(),
            final(self).prefix() == old(self).prefix(),
            final(self)@ == old(self)@.runtime_config_set(model_name@, *runtime_config),
    {
        if let Some(total_kv_blocks) = runtime_config.total_kv_blocks {
            gauge_set(
                &mut self.model_total_kv_blocks,
                model_name,
                clamp_u64_to_i64(total_kv_blocks),
            );
        }
        if let Some(max_num_seqs) = runtime_config.max_num_seqs {
            gauge_set(&mut self.model_max_num_seqs, model_name, clamp_u64_to_i64(max_num_seqs));
        }
        if let Some(max_batched_tokens) = runtime_config.max_num_batched_tokens {
            gauge_set(
                &mut self.model_max_num_batched_tokens,
                model_name,
                clamp_u64_to_i64(max_batched_tokens),
            );
        }
    }

    /// Publishes what is known of a model: the runtime configuration in its
    /// entry, where there is one, and its deployment card, where one was found.
    pub fn update_metrics_from_model_entry_with_mdc(
        &mut self,
        model_entry: &ModelEntry,
        mdc: Option<ModelDeploymentCard>,
    )
        requires
            old(self).wf(),
        ensures
            final(self).wf(),
            final(self).prefix() == old(self).prefix(),
            final(self)@ == old(self)@.entry_set(model_entry.name@, model_entry.runtime_config, mdc),
    {
        if let Some(runtime_config) = &model_entry.runtime_config {
            self.update_runtime_config_metrics(model_entry.name.as_str(), runtime_config);
        }
        if let Some(mdc) = mdc {
            let name = model_entry.name.as_str();
            gauge_set(&mut self.model_context_length, name, as_level(mdc.context_length));
            gauge_set(&mut self.model_kv_cache_block_size, name, as_level(mdc.kv_cache_block_size));
            gauge_set(&mut self.model_migration_limit, name, as_level(mdc.migration_limit));
        }
    }

    /// What the counters or gauges of `family` were made with.
    pub closed spec fn about_of(&self, family: Family) -> About {
        match family {
            Family::RequestsTotal => counter_about(self.request_counter),
            Family::InflightRequests => gauge_about(self.inflight_gauge),
            Family::ClientDisconnects => single_about(self.client_disconnect_gauge),
            Family::QueuedRequests => gauge_about(self.http_queue_gauge),
            Family::ModelTotalKvBlocks => gauge_about(self.model_total_kv_blocks),
            Family::ModelMaxNumSeqs => gauge_about(self.model_max_num_seqs),
            Family::ModelMaxNumBatchedTokens => gauge_about(self.model_max_num_batched_tokens),
            Family::ModelContextLength => gauge_about(self.model_context_length),
            Family::ModelKvCacheBlockSize => gauge_about(self.model_kv_cache_block_size),
            Family::ModelMigrationLimit => gauge_about(self.model_migration_limit),
            _ => family.about(self.prefix@),
        }
    }

    /// Whether `collector` are the counters or gauges that count for `family`
    /// here.
    pub closed spec fn owns(&self, family: Family, collector: Collector<'_>) -> bool {
        match family {
            Family::RequestsTotal => collector == Collector::Counters(&self.request_counter),
            Family::InflightRequests => collector == Collector::Gauges(&self.inflight_gauge),
            Family::ClientDisconnects => collector == Collector::Single(
                &self.client_disconnect_gauge,
            ),
            Family::QueuedRequests => collector == Collector::Gauges(&self.http_queue_gauge),
            Family::ModelTotalKvBlocks => collector == Collector::Gauges(
                &self.model_total_kv_blocks,
            ),
            Family::ModelMaxNumSeqs => collector == Collector::Gauges(&self.model_max_num_seqs),
            Family::ModelMaxNumBatchedTokens => collector == Collector::Gauges(
                &self.model_max_num_batched_tokens,
            ),
            Family::ModelContextLength => collector == Collector::Gauges(
                &self.model_context_length,
            ),
            Family::ModelKvCacheBlockSize => collector == Collector::Gauges(
                &self.model_kv_cache_block_size,
            ),
            Family::ModelMigrationLimit => collector == Collector::Gauges(
                &self.model_migration_limit,
            ),
            _ => false,
        }
    }

    /// Whether `register` may answer `r` when it is handed the counters or gauges
    /// of `family`.
    pub open spec fn may_answer<G>(
        &self,
        register: G,
        registry: &prometheus::Registry,
        family: Family,
        r: Result<(), prometheus::Error>,
    ) -> bool where G: Fn(&prometheus::Registry, Collector<'_>) -> Result<(), prometheus::Error> {
        exists|collector: Collector<'_>|
            {
                &&& self.owns(family, collector)
                &&& collector.about() == self.about_of(family)
                &&& #[trigger] register.ensures((registry, collector), r)
            }
    }

    /// Each family was made with its own name under the prefix, its help text and
    /// its labels.
    pub proof fn families_keep_their_names(&self, family: Family)
        requires
            self.wf(),
        ensures
            self.about_of(family) == family.about(self.prefix()),
    {
    }

    /// Whether `r` may come of registering `family`: of a histogram, what
    /// `register_histogram` may answer, and of counters or gauges, what
    /// [`register_collector`] may answer when it is handed those of the family.
    pub open spec fn family_registers<F>(
        &self,
        registry: &prometheus::Registry,
        register_histogram: &F,
        family: Family,
        r: Result<(), prometheus::Error>,
    ) -> bool where F: Fn(&prometheus::Registry, Family) -> Result<(), prometheus::Error> {
        if family.is_histogram_family() {
            (*register_histogram).ensures((registry, family), r)
        } else {
            self.may_answer(register_collector, registry, family, r)
        }
    }

    /// The counters or gauges of `family`.
    fn collector(&self, family: Family) -> (r: Collector<'_>)
        requires
            !family.is_histogram_family(),
        ensures
            self.owns(family, r),
            r.about() == self.about_of(family),
    {
        match family {
            Family::RequestsTotal => Collector::Counters(&self.request_counter),
            Family::InflightRequests => Collector::Gauges(&self.inflight_gauge),
            Family::ClientDisconnects => Collector::Single(&self.client_disconnect_gauge),
            Family::QueuedRequests => Collector::Gauges(&self.http_queue_gauge),
            Family::ModelTotalKvBlocks => Collector::Gauges(&self.model_total_kv_blocks),
            Family::ModelMaxNumSeqs => Collector::Gauges(&self.model_max_num_seqs),
            Family::ModelMaxNumBatchedTokens => {
                Collector::Gauges(&self.model_max_num_batched_tokens)
            },
            Family::ModelContextLength => Collector::Gauges(&self.model_context_length),
            Family::ModelKvCacheBlockSize => Collector::Gauges(&self.model_kv_cache_block_size),
            _ => Collector::Gauges(&self.model_migration_limit),
        }
    }

    /// Registers one family with `registry`: a histogram, which the caller keeps,
    /// by `register_histogram`, and counters or gauges by `register`.
    fn register_family<F, G>(
        &self,
        registry: &prometheus::Registry,
        family: Family,
        register: G,
        register_histogram: &F,
    ) -> (r: Result<(), prometheus::Error>) where
        F: Fn(&prometheus::Registry, Family) -> Result<(), prometheus::Error>,
        G: Fn(&prometheus::Registry, Collector<'_>) -> Result<(), prometheus::Error>,

        requires
            can_register(register_histogram, registry, family),
            forall|collector: Collector<'_>| #[trigger] register.requires((registry, collector)),
        ensures
            family.is_histogram_family() ==> (*register_histogram).ensures((registry, family), r),
            !family.is_histogram_family() ==> self.may_answer(register, registry, family, r),
    {
        if family.is_histogram() {
            register_histogram(registry, family)
        } else {
            register(registry, self.collector(family))
        }
    }

    /// Registers every family with `registry`, in the order of
    /// [`Family::registration_order`]. The first registration that fails ends
    /// it, and its error is returned. The histograms, which the caller keeps,
    /// are registered by `register_histogram`.
    ///
    /// Whether a counter or gauge can be registered is left open: that depends on
    /// what every holder of the registry did before.
    pub fn register<F>(&self, registry: &prometheus::Registry, register_histogram: F) -> (r: Result<
        (),
        prometheus::Error,
    >) where F: Fn(&prometheus::Registry, Family) -> Result<(), prometheus::Error>
        requires
            forall|family: Family|
                family.is_histogram_family() ==> #[trigger] register_histogram.requires((registry, family)),
        ensures
            match r {
                Ok(_) => forall|i: int|
                    0 <= i < Family::registration_order().len() ==> self.family_registers(
                        registry,
                        &register_histogram,
                        #[trigger] Family::registration_order()[i],
                        Ok(()),
                    ),
                Err(error) => exists|k: int|
                    #![trigger Family::registration_order()[k]]
                    {
                        &&& 0 <= k < Family::registration_order().len()
                        &&& self.family_registers(
                            registry,
                            &register_histogram,
                            Family::registration_order()[k],
                            Err(error),
                        )
                        &&& forall|i: int|
                            0 <= i < k ==> self.family_registers(
                                registry,
                                &register_histogram,
                                #[trigger] Family::registration_order()[i],
                                Ok(()),
                            )
                    },
            },
            r is Ok ==> forall|family: Family|
                family.is_histogram_family() ==> #[trigger] register_histogram.ensures(
                    (registry, family),
                    Ok(()),
                ),
    {
        let by = &register_histogram;
        let register_one = |family: Family| -> (r: Result<(), prometheus::Error>)
            requires
                can_register(by, registry, family),
            ensures
                self.family_registers(registry, by, family, r),
            {
                self.register_family(registry, family, register_collector, by)
            };
        proof {
            assert forall|family: Family| #[trigger] register_one.requires((family,)) by {
                assert(family.is_histogram_family() ==> register_histogram.requires(
                    (registry, family),
                ));
            }
        }
        let r = register_in_order(register_one);
        proof {
            if r is Ok {
                assert forall|family: Family| family.is_histogram_family() implies #[trigger]
                register_histogram.ensures((registry, family), Ok(())) by {
                    registration_order_is_complete(family);
                    let i = Family::registration_order().index_of(family);
                    assert(register_one.ensures((Family::registration_order()[i],), Ok(())));
                }
            }
        }
        r
    }

    /// Starts the account of a request that is being processed. The model's
    /// name is taken in lower case.
    pub fn create_inflight_guard(
        &mut self,
        model: &str,
        endpoint: Endpoint,
        streaming: bool,
    ) -> (r: InflightGuard)
        requires
            old(self).wf(),
        ensures
            final(self).wf(),
            final(self).prefix() == old(self).prefix(),
            final(self)@ == old(self)@.inflight_up(r@.model),
            r@ == (InflightView {
                model: lowercase(model@),
                endpoint,
                request_type: if streaming {
                    RequestType::Stream
                } else {
                    RequestType::Unary
                },
                status: Status::Error,
                started: r@.started,
            }),
            clock_may_show(r@.started),
            is_ascii_chars(model@) ==> r@.model == model@.map_values(|c: char| ascii_lower(c)),
    {
        let request_type = if streaming {
            RequestType::Stream
        } else {
            RequestType::Unary
        };
        InflightGuard::new(self, model.to_lowercase(), endpoint, request_type)
    }

    /// Starts the account of the responses to a request. The model's name is
    /// taken in lower case.
    pub fn create_response_collector(&self, model: &str) -> (r: ResponseMetricCollector)
        ensures
            r@ == CollectorView::fresh(lowercase(model@), r@.started),
            clock_may_show(r@.started),
            is_ascii_chars(model@) ==> r@.model == model@.map_values(|c: char| ascii_lower(c)),
    {
        ResponseMetricCollector::new(model.to_lowercase())
    }

    /// Notes that a request waits for its first token. The model's name is
    /// taken in lower case.
    pub fn create_http_queue_guard(&mut self, model: &str) -> (r: HttpQueueGuard)
        requires
            old(self).wf(),
        ensures
            final(self).wf(),
            final(self).prefix() == old(self).prefix(),
            final(self)@ == old(self)@.queued_up(r@),
            r@ == lowercase(model@),
            is_ascii_chars(model@) ==> r@ == model@.map_values(|c: char| ascii_lower(c)),
    {
        HttpQueueGuard::new(self, model.to_lowercase())
    }
}

/// Whatever is done, every series that was there stays there: requests that
/// arrive, wait and end, counters and gauges that are read, and models that are
/// published.
pub proof fn series_are_kept(
    before: MetricsView,
    model: Seq<char>,
    key: u64,
    config: Option<ModelRuntimeConfig>,
    card: Option<ModelDeploymentCard>,
)
    ensures
        before.kept_in(before.inflight_up(model)),
        before.kept_in(before.inflight_down(model)),
        before.kept_in(before.queued_up(model)),
        before.kept_in(before.queued_down(model)),
        before.kept_in(before.request_counted(key)),
        before.kept_in(before.entry_set(model, config, card)),
        before.kept_in(
            MetricsView {
                requests: before.requests.insert(key, count_at(before.requests, key)),
                ..before
            },
        ),
        before.kept_in(
            MetricsView {
                inflight: before.inflight.insert(key, level_at(before.inflight, key)),
                ..before
            },
        ),
        before.kept_in(MetricsView { disconnects: gauge_up(before.disconnects), ..before }),
{
}

/// Series that are kept by each of two steps are kept by both together.
pub proof fn keeping_series_chains(a: MetricsView, b: MetricsView, c: MetricsView)
    requires
        a.kept_in(b),
        b.kept_in(c),
    ensures
        a.kept_in(c),
{
}

/// Publishing what is known of a model a second time changes nothing.
pub proof fn publishing_is_idempotent(
    before: MetricsView,
    model: Seq<char>,
    config: Option<ModelRuntimeConfig>,
    card: Option<ModelDeploymentCard>,
)
    ensures
        before.entry_set(model, config, card).entry_set(model, config, card) == before.entry_set(
            model,
            config,
            card,
        ),
{
    let once = before.entry_set(model, config, card);
    let twice = once.entry_set(model, config, card);
    assert(twice =~= once);
}

/// Publishing a model changes no request counter, no request gauge and no gauge
/// of a model with another key.
pub proof fn publishing_is_local(
    before: MetricsView,
    model: Seq<char>,
    other: u64,
    config: Option<ModelRuntimeConfig>,
    card: Option<ModelDeploymentCard>,
)
    requires
        other != label_hash(model),
    ensures
        ({
            let after = before.entry_set(model, config, card);
            &&& after.requests == before.requests
            &&& after.inflight == before.inflight
            &&& after.queued == before.queued
            &&& after.disconnects == before.disconnects
            &&& level_at(after.total_kv_blocks, other) == level_at(before.total_kv_blocks, other)
            &&& level_at(after.max_num_seqs, other) == level_at(before.max_num_seqs, other)
            &&& level_at(after.max_num_batched_tokens, other) == level_at(
                before.max_num_batched_tokens,
                other,
            )
            &&& level_at(after.context_length, other) == level_at(before.context_length, other)
            &&& level_at(after.kv_cache_block_size, other) == level_at(
                before.kv_cache_block_size,
                other,
            )
            &&& level_at(after.migration_limit, other) == level_at(before.migration_limit, other)
        }),
{
}

/// A number is shown by a gauge as it is, and by the largest that the gauge has
/// where it is larger still.
pub proof fn clamping_keeps_what_fits(v: u64)
    ensures
        v <= i64::MAX ==> clamped(v) == v,
        v > i64::MAX ==> clamped(v) == i64::MAX,
{
}

/// A request is counted under its model, its endpoint, the way that it is answered
/// and its end, in this order.
pub proof fn requests_are_counted_by_four_labels(
    model: Seq<char>,
    endpoint: Endpoint,
    request_type: RequestType,
    status: Status,
)
    ensures
        request_key(model, endpoint, request_type, status) == label_hash(
            model + endpoint.label() + request_type.label() + status.label(),
        ),
{
}

/// A new service shows nothing.
pub proof fn new_service_shows_nothing(key: u64)
    ensures
        ({
            let m = MetricsView::fresh();
            &&& m.disconnects == 0
            &&& m.requests.dom() == Set::<u64>::empty()
            &&& m.inflight.dom() == Set::<u64>::empty()
            &&& m.queued.dom() == Set::<u64>::empty()
            &&& m.total_kv_blocks.dom() == Set::<u64>::empty()
            &&& m.max_num_seqs.dom() == Set::<u64>::empty()
            &&& m.max_num_batched_tokens.dom() == Set::<u64>::empty()
            &&& m.context_length.dom() == Set::<u64>::empty()
            &&& m.kv_cache_block_size.dom() == Set::<u64>::empty()
            &&& m.migration_limit.dom() == Set::<u64>::empty()
            &&& count_at(m.requests, key) == 0
            &&& level_at(m.inflight, key) == 0
        }),
{
}

/// A request that arrives or ends moves the gauge of requests in flight of its own
/// model by one, and nothing else.
pub proof fn inflight_moves_by_one(before: MetricsView, model: Seq<char>, other: u64)
    requires
        i64::MIN < level_at(before.inflight, label_hash(model)) < i64::MAX,
    ensures
        ({
            let up = before.inflight_up(model);
            let down = before.inflight_down(model);
            let key = label_hash(model);
            &&& level_at(up.inflight, key) == level_at(before.inflight, key) + 1
            &&& level_at(down.inflight, key) == level_at(before.inflight, key) - 1
            &&& other != key ==> level_at(up.inflight, other) == level_at(before.inflight, other)
            &&& other != key ==> level_at(down.inflight, other) == level_at(before.inflight, other)
            &&& up.requests == before.requests
            &&& up.disconnects == before.disconnects
            &&& up.queued == before.queued
            &&& up.total_kv_blocks == before.total_kv_blocks
            &&& up.max_num_seqs == before.max_num_seqs
            &&& up.max_num_batched_tokens == before.max_num_batched_tokens
            &&& up.context_length == before.context_length
            &&& up.kv_cache_block_size == before.kv_cache_block_size
            &&& up.migration_limit == before.migration_limit
            &&& down.requests == before.requests
            &&& down.disconnects == before.disconnects
            &&& down.queued == before.queued
            &&& down.total_kv_blocks == before.total_kv_blocks
            &&& down.max_num_seqs == before.max_num_seqs
            &&& down.max_num_batched_tokens == before.max_num_batched_tokens
            &&& down.context_length == before.context_length
            &&& down.kv_cache_block_size == before.kv_cache_block_size
            &&& down.migration_limit == before.migration_limit
        }),
{
}

/// A request that starts or stops to wait moves the gauge of waiting requests of its
/// own model by one, and nothing else.
pub proof fn queue_moves_by_one(before: MetricsView, model: Seq<char>, other: u64)
    requires
        i64::MIN < level_at(before.queued, label_hash(model)) < i64::MAX,
    ensures
        ({
            let up = before.queued_up(model);
            let down = before.queued_down(model);
            let key = label_hash(model);
            &&& level_at(up.queued, key) == level_at(before.queued, key) + 1
            &&& level_at(down.queued, key) == level_at(before.queued, key) - 1
            &&& other != key ==> level_at(up.queued, other) == level_at(before.queued, other)
            &&& other != key ==> level_at(down.queued, other) == level_at(before.queued, other)
            &&& up.requests == before.requests
            &&& up.inflight == before.inflight
            &&& up.disconnects == before.disconnects
            &&& up.total_kv_blocks == before.total_kv_blocks
            &&& up.max_num_seqs == before.max_num_seqs
            &&& up.max_num_batched_tokens == before.max_num_batched_tokens
            &&& up.context_length == before.context_length
            &&& up.kv_cache_block_size == before.kv_cache_block_size
            &&& up.migration_limit == before.migration_limit
            &&& down.requests == before.requests
            &&& down.inflight == before.inflight
            &&& down.disconnects == before.disconnects
            &&& down.total_kv_blocks == before.total_kv_blocks
            &&& down.max_num_seqs == before.max_num_seqs
            &&& down.max_num_batched_tokens == before.max_num_batched_tokens
            &&& down.context_length == before.context_length
            &&& down.kv_cache_block_size == before.kv_cache_block_size
            &&& down.migration_limit == before.migration_limit
        }),
{
}

/// A request that is counted moves its own counter by one, and nothing else.
pub proof fn counting_moves_by_one(before: MetricsView, key: u64, other: u64)
    requires
        count_at(before.requests, key) < u64::MAX,
    ensures
        ({
            let after = before.request_counted(key);
            &&& count_at(after.requests, key) == count_at(before.requests, key) + 1
            &&& other != key ==> count_at(after.requests, other) == count_at(
                before.requests,
                other,
            )
            &&& after.inflight == before.inflight
            &&& after.disconnects == before.disconnects
            &&& after.queued == before.queued
            &&& after.total_kv_blocks == before.total_kv_blocks
            &&& after.max_num_seqs == before.max_num_seqs
            &&& after.max_num_batched_tokens == before.max_num_batched_tokens
            &&& after.context_length == before.context_length
            &&& after.kv_cache_block_size == before.kv_cache_block_size
            &&& after.migration_limit == before.migration_limit
        }),
{
}

/// What is published of a model: each number that is known stands in the gauge of
/// its own kind, under the model's name. The numbers of a worker are shown by the
/// largest level where they are larger still, and those of a card wrap round. What
/// is not known stays as it was.
pub proof fn publishing_shows_the_numbers(
    before: MetricsView,
    model: Seq<char>,
    config: Option<ModelRuntimeConfig>,
    card: Option<ModelDeploymentCard>,
)
    ensures
        ({
            let after = before.entry_set(model, config, card);
            let key = label_hash(model);
            &&& match config {
                Some(ModelRuntimeConfig { total_kv_blocks: Some(v), .. }) => level_at(after.total_kv_blocks, key) == (if v
                    <= i64::MAX {
                    v as int
                } else {
                    i64::MAX as int
                }),
                _ => after.total_kv_blocks == before.total_kv_blocks,
            }
            &&& match config {
                Some(ModelRuntimeConfig { max_num_seqs: Some(v), .. }) => level_at(after.max_num_seqs, key) == (if v
                    <= i64::MAX {
                    v as int
                } else {
                    i64::MAX as int
                }),
                _ => after.max_num_seqs == before.max_num_seqs,
            }
            &&& match config {
                Some(ModelRuntimeConfig { max_num_batched_tokens: Some(v), .. }) => level_at(after.max_num_batched_tokens, key) == (if v
                    <= i64::MAX {
                    v as int
                } else {
                    i64::MAX as int
                }),
                _ => after.max_num_batched_tokens == before.max_num_batched_tokens,
            }
            &&& match card {
                Some(card) => level_at(after.context_length, key)
                    == (if card.context_length <= i64::MAX {
                    card.context_length as int
                } else {
                    card.context_length - 0x1_0000_0000_0000_0000
                }),
                None => after.context_length == before.context_length,
            }
            &&& match card {
                Some(card) => level_at(after.kv_cache_block_size, key)
                    == (if card.kv_cache_block_size <= i64::MAX {
                    card.kv_cache_block_size as int
                } else {
                    card.kv_cache_block_size - 0x1_0000_0000_0000_0000
                }),
                None => after.kv_cache_block_size == before.kv_cache_block_size,
            }
            &&& match card {
                Some(card) => level_at(after.migration_limit, key)
                    == (if card.migration_limit <= i64::MAX {
                    card.migration_limit as int
                } else {
                    card.migration_limit - 0x1_0000_0000_0000_0000
                }),
                None => after.migration_limit == before.migration_limit,
            }
            &&& after.requests == before.requests
            &&& after.inflight == before.inflight
            &&& after.queued == before.queued
            &&& after.disconnects == before.disconnects
        }),
{
    if let Some(card) = card {
        lemma_level_wraps(card.context_length);
        lemma_level_wraps(card.kv_cache_block_size);
        lemma_level_wraps(card.migration_limit);
    }
}

proof fn lemma_level_wraps(v: u64)
    ensures
        v <= i64::MAX ==> v as i64 == v,
        v > i64::MAX ==> v as i64 == v - 0x1_0000_0000_0000_0000,
{
    assert(v <= 0x7fff_ffff_ffff_ffff ==> v as i64 == v) by (bit_vector);
    assert(v > 0x7fff_ffff_ffff_ffff ==> v as i64 == v - 0x1_0000_0000_0000_0000) by (bit_vector);
}

/// To publish a worker's configuration alone is to publish the model without a
/// card.
pub proof fn configuration_alone_is_published(
    before: MetricsView,
    model: Seq<char>,
    config: ModelRuntimeConfig,
)
    ensures
        before.runtime_config_set(model, config) == before.entry_set(model, Some(config), None),
{
}

impl Metrics {
    /// What is registered for a family is what the service moves for it, and each
    /// family has one such thing.
    pub proof fn families_show_their_values(&self, family: Family, collector: Collector<'_>)
        ensures
            self.owns(family, collector) ==> !family.is_histogram_family() && collector.about()
                == self.about_of(family),
            self.owns(Family::RequestsTotal, collector) ==> (collector matches Collector::Counters(
                c,
            ) && counter_series(*c) == self@.requests),
            self.owns(Family::ClientDisconnects, collector)
                ==> (collector matches Collector::Single(
                g,
            ) && single_level(*g)[0] == self@.disconnects),
            self.owns(Family::InflightRequests, collector)
                ==> (collector matches Collector::Gauges(g)
                && gauge_series(*g) == self@.inflight),
            self.owns(Family::QueuedRequests, collector) ==> (collector matches Collector::Gauges(g)
                && gauge_series(*g) == self@.queued),
            self.owns(Family::ModelTotalKvBlocks, collector)
                ==> (collector matches Collector::Gauges(g)
                && gauge_series(*g) == self@.total_kv_blocks),
            self.owns(Family::ModelMaxNumSeqs, collector)
                ==> (collector matches Collector::Gauges(g)
                && gauge_series(*g) == self@.max_num_seqs),
            self.owns(Family::ModelMaxNumBatchedTokens, collector)
                ==> (collector matches Collector::Gauges(g)
                && gauge_series(*g) == self@.max_num_batched_tokens),
            self.owns(Family::ModelContextLength, collector)
                ==> (collector matches Collector::Gauges(g)
                && gauge_series(*g) == self@.context_length),
            self.owns(Family::ModelKvCacheBlockSize, collector)
                ==> (collector matches Collector::Gauges(g)
                && gauge_series(*g) == self@.kv_cache_block_size),
            self.owns(Family::ModelMigrationLimit, collector)
                ==> (collector matches Collector::Gauges(g)
                && gauge_series(*g) == self@.migration_limit),
    {
    }
}

/// What reading a counter of requests answers: the count under the model, the endpoint,
/// the way of answering and the end, zero where there is none. Nothing else changes.
pub proof fn request_counter_is_read(
    metrics: &mut Metrics,
    model: &str,
    endpoint: &Endpoint,
    request_type: &RequestType,
    status: &Status,
    r: u64,
)
    requires
        Metrics::get_request_counter.ensures((metrics, model, endpoint, request_type, status), r),
    ensures
        ({
            let key = label_hash(
                model@ + endpoint.label() + request_type.label() + status.label(),
            );
            let before = old(metrics)@;
            let after = final(metrics)@;
            &&& r == count_at(before.requests, key)
            &&& forall|k: u64| #[trigger] count_at(after.requests, k)
                == count_at(before.requests, k)
            &&& after.inflight == before.inflight
            &&& after.disconnects == before.disconnects
            &&& after.queued == before.queued
            &&& after.total_kv_blocks == before.total_kv_blocks
            &&& after.max_num_seqs == before.max_num_seqs
            &&& after.max_num_batched_tokens == before.max_num_batched_tokens
            &&& after.context_length == before.context_length
            &&& after.kv_cache_block_size == before.kv_cache_block_size
            &&& after.migration_limit == before.migration_limit
        }),
{
}

/// What reading the gauge of requests in flight answers: the level of the model, zero
/// where there is none. Nothing else changes.
pub proof fn inflight_gauge_is_read(metrics: &mut Metrics, model: &str, r: i64)
    requires
        Metrics::get_inflight_count.ensures((metrics, model), r),
    ensures
        ({
            let before = old(metrics)@;
            let after = final(metrics)@;
            &&& r == level_at(before.inflight, label_hash(model@))
            &&& forall|k: u64| #[trigger] level_at(after.inflight, k)
                == level_at(before.inflight, k)
            &&& after.requests == before.requests
            &&& after.disconnects == before.disconnects
            &&& after.queued == before.queued
            &&& after.total_kv_blocks == before.total_kv_blocks
            &&& after.max_num_seqs == before.max_num_seqs
            &&& after.max_num_batched_tokens == before.max_num_batched_tokens
            &&& after.context_length == before.context_length
            &&& after.kv_cache_block_size == before.kv_cache_block_size
            &&& after.migration_limit == before.migration_limit
        }),
{
}

/// A client that disconnected is counted once, and nothing else changes. What is read
/// is what was counted.
pub proof fn disconnects_are_counted(metrics: &mut Metrics, other: &Metrics, r: i64)
    ensures
        Metrics::inc_client_disconnect.ensures((metrics,), ()) ==> {
            let before = old(metrics)@;
            let after = final(metrics)@;
            &&& before.disconnects < i64::MAX ==> after.disconnects == before.disconnects + 1
            &&& after.requests == before.requests
            &&& after.inflight == before.inflight
            &&& after.queued == before.queued
            &&& after.total_kv_blocks == before.total_kv_blocks
            &&& after.max_num_seqs == before.max_num_seqs
            &&& after.max_num_batched_tokens == before.max_num_batched_tokens
            &&& after.context_length == before.context_length
            &&& after.kv_cache_block_size == before.kv_cache_block_size
            &&& after.migration_limit == before.migration_limit
        },
        Metrics::get_client_disconnect_count.ensures((other,), r) ==> r == other@.disconnects,
{
}

/// A number is clamped to the range of a gauge.
pub proof fn numbers_are_clamped(v: u64, r: i64)
    requires
        clamp_u64_to_i64.ensures((v,), r),
    ensures
        v <= i64::MAX ==> r == v,
        v > i64::MAX ==> r == i64::MAX,
{
}

/// New metrics show nothing, under the prefix that was given.
pub proof fn new_metrics_show_nothing(prefix: &str, r: Metrics)
    requires
        Metrics::new.ensures((prefix,), r),
    ensures
        r.prefix() == prefix@,
        r@.disconnects == 0,
        forall|key: u64| #[trigger] count_at(r@.requests, key) == 0,
        forall|key: u64| #[trigger] level_at(r@.inflight, key) == 0,
        forall|key: u64| #[trigger] level_at(r@.queued, key) == 0,
        forall|family: Family| #[trigger] r.about_of(family) == family.about(prefix@),
{
}

/// What is published of a model's entry is its own configuration and the card that was
/// found, under its own name; and of a configuration, that configuration.
pub proof fn entries_are_published(
    metrics: &mut Metrics,
    entry: &ModelEntry,
    card: Option<ModelDeploymentCard>,
    name: &str,
    config: &ModelRuntimeConfig,
)
    ensures
        Metrics::update_metrics_from_model_entry_with_mdc.ensures((metrics, entry, card), ())
            ==> final(metrics)@ == old(metrics)@.entry_set(entry.name@, entry.runtime_config, card),
        Metrics::update_runtime_config_metrics.ensures((metrics, name, config), ())
            ==> final(metrics)@ == old(metrics)@.entry_set(name@, Some(*config), None),
{
}

/// A request that is taken in raises the gauge of its model, in lower case, by one. It
/// is an error until it is marked as a success, and a stream where it asks for one.
pub proof fn requests_are_taken_in(
    metrics: &mut Metrics,
    model: &str,
    endpoint: Endpoint,
    streaming: bool,
    r: InflightGuard,
)
    requires
        Metrics::create_inflight_guard.ensures((metrics, model, endpoint, streaming), r),
    ensures
        ({
            let before = old(metrics)@;
            let after = final(metrics)@;
            let key = label_hash(lowercase(model@));
            &&& r@.model == lowercase(model@)
            &&& r@.endpoint == endpoint
            &&& streaming <==> r@.request_type is Stream
            &&& r@.status is Error
            &&& clock_may_show(r@.started)
            &&& level_at(before.inflight, key) < i64::MAX ==> level_at(after.inflight, key)
                == level_at(before.inflight, key) + 1
            &&& forall|k: u64|
                k != key ==> #[trigger] level_at(after.inflight, k) == level_at(before.inflight, k)
            &&& after.requests == before.requests
            &&& after.disconnects == before.disconnects
            &&& after.queued == before.queued
            &&& after.total_kv_blocks == before.total_kv_blocks
            &&& after.max_num_seqs == before.max_num_seqs
            &&& after.max_num_batched_tokens == before.max_num_batched_tokens
            &&& after.context_length == before.context_length
            &&& after.kv_cache_block_size == before.kv_cache_block_size
            &&& after.migration_limit == before.migration_limit
        }),
{
}

/// A request that waits raises the gauge of its model, in lower case, by one.
pub proof fn requests_are_queued(metrics: &mut Metrics, model: &str, r: HttpQueueGuard)
    requires
        Metrics::create_http_queue_guard.ensures((metrics, model), r),
    ensures
        ({
            let before = old(metrics)@;
            let after = final(metrics)@;
            let key = label_hash(lowercase(model@));
            &&& r@ == lowercase(model@)
            &&& level_at(before.queued, key) < i64::MAX ==> level_at(after.queued, key) == level_at(
                before.queued,
                key,
            ) + 1
            &&& forall|k: u64|
                k != key ==> #[trigger] level_at(after.queued, k) == level_at(before.queued, k)
            &&& after.requests == before.requests
            &&& after.inflight == before.inflight
            &&& after.disconnects == before.disconnects
            &&& after.total_kv_blocks == before.total_kv_blocks
            &&& after.max_num_seqs == before.max_num_seqs
            &&& after.max_num_batched_tokens == before.max_num_batched_tokens
            &&& after.context_length == before.context_length
            &&& after.kv_cache_block_size == before.kv_cache_block_size
            &&& after.migration_limit == before.migration_limit
        }),
{
}

/// An account of responses is kept under the model in lower case, and starts without
/// any.
pub proof fn accounts_start_empty(metrics: &Metrics, model: &str, r: ResponseMetricCollector)
    requires
        Metrics::create_response_collector.ensures((metrics, model), r),
    ensures
        r@.model == lowercase(model@),
        r@.first_token,
        r@.last_response is None,
        r@.osl == 0,
        clock_may_show(r@.started),
{
}

impl Metrics {
    /// Registering hands out every family once: the histograms to the one who keeps
    /// them, and of any other family what counts for it here to the registry.
    pub proof fn families_are_handed_to_the_registry<F>(
        &self,
        registry: &prometheus::Registry,
        register_histogram: F,
        r: Result<(), prometheus::Error>,
    ) where F: Fn(&prometheus::Registry, Family) -> Result<(), prometheus::Error>
        requires
            Metrics::register.ensures((self, registry, register_histogram), r),
        ensures
            r is Ok ==> forall|family: Family|
                family.is_histogram_family() ==> #[trigger] register_histogram.ensures(
                    (registry, family),
                    Ok(()),
                ),
            r is Ok ==> forall|family: Family|
                !(#[trigger] family.is_histogram_family()) ==> exists|collector: Collector<'_>|
                    self.owns(family, collector) && #[trigger] register_collector.ensures(
                        (registry, collector),
                        Ok(()),
                    ),
            r matches Err(error) ==> (exists|family: Family|
                family.is_histogram_family() && #[trigger] register_histogram.ensures(
                    (registry, family),
                    Err(error),
                )) || (exists|family: Family, collector: Collector<'_>| #[trigger]
                self.owns(family, collector) && #[trigger] register_collector.ensures(
                    (registry, collector),
                    Err(error),
                )),
    {
        let order = Family::registration_order();
        if r is Ok {
            assert forall|family: Family|
                !(#[trigger] family.is_histogram_family()) implies exists|collector: Collector<'_>|
                    self.owns(family, collector) && #[trigger] register_collector.ensures(
                        (registry, collector),
                        Ok(()),
                    ) by {
                registration_order_is_complete(family);
                let i = order.index_of(family);
                assert(self.family_registers(
                    registry,
                    &register_histogram,
                    Family::registration_order()[i],
                    Ok(()),
                ));
            }
        } else if let Err(error) = r {
            let k = choose|k: int|
                #![trigger Family::registration_order()[k]]
                0 <= k < Family::registration_order().len() && self.family_registers(
                    registry,
                    &register_histogram,
                    Family::registration_order()[k],
                    Err(error),
                );
            let family = Family::registration_order()[k];
            if !family.is_histogram_family() {
                let collector = choose|collector: Collector<'_>|
                    {
                        &&& self.owns(family, collector)
                        &&& collector.about() == self.about_of(family)
                        &&& #[trigger] register_collector.ensures((registry, collector), Err(error))
                    };
                assert(self.owns(family, collector));
            }
        }
    }
}

} // verus!
