//! Models that come and go while the service runs.

use crate::http::metrics::{Metrics, MetricsView, ModelDeploymentCard, ModelEntry};
use crate::http::series::{label_hash, level_at};
use vstd::prelude::*;

verus! {

/// How many updates may wait to be taken up.
pub const UPDATE_QUEUE_CAPACITY: usize = 32;

/// The kinds of request that a model takes.
#[derive(Clone, Debug)]
pub struct ModelType<E> {
    /// The kinds as a set of flags.
    pub flags: u64,
    /// The endpoints that these kinds need.
    pub endpoints: Vec<E>,
}

/// A change of what is served.
#[derive(Clone, Debug)]
pub enum ModelUpdate<E> {
    Added(ModelType<E>),
    Removed(ModelType<E>),
}

/// An endpoint to be switched on or off.
#[derive(Clone, Copy, Debug, PartialEq, Eq)]
pub struct EndpointSwitch<E> {
    pub endpoint: E,
    pub enabled: bool,
}

impl<E> ModelUpdate<E> {
    /// Whether models were added.
    pub open spec fn adds(self) -> bool {
        self is Added
    }

    /// The kinds of request whose models changed.
    pub open spec fn model_type(self) -> ModelType<E> {
        match self {
            ModelUpdate::Added(model_type) => model_type,
            ModelUpdate::Removed(model_type) => model_type,
        }
    }

    /// Whether what is known of `entry` is to be published.
    pub open spec fn concerns(self, entry: ModelEntry) -> bool {
        self.adds() && entry.model_type == self.model_type().flags
    }
}

/// Every one of `endpoints` to be switched on or off, in order.
pub open spec fn all_switched<E>(endpoints: Seq<E>, enabled: bool) -> Seq<EndpointSwitch<E>> {
    endpoints.map_values(|endpoint: E| EndpointSwitch { endpoint, enabled })
}

/// The endpoints that are on after `switches`, where `enabled` were on before.
pub open spec fn switched<E>(enabled: Set<E>, switches: Seq<EndpointSwitch<E>>) -> Set<E>
    decreases switches.len(),
{
    if switches.len() == 0 {
        enabled
    } else {
        let before = switched(enabled, switches.drop_last());
        let last = switches.last();
        if last.enabled {
            before.insert(last.endpoint)
        } else {
            before.remove(last.endpoint)
        }
    }
}

/// The published values after an update. Entry by entry, what is known of those
/// that the update concerns is published: the runtime configuration in the
/// entry, and the deployment card that was found for it, each where there is
/// one.
pub open spec fn published<E>(
    before: MetricsView,
    update: ModelUpdate<E>,
    entries: Seq<ModelEntry>,
    cards: Seq<Option<ModelDeploymentCard>>,
) -> MetricsView
    decreases entries.len(),
{
    if entries.len() == 0 {
        before
    } else {
        let then = published(before, update, entries.drop_last(), cards);
        let entry = entries.last();
        if update.concerns(entry) {
            then.entry_set(entry.name@, entry.runtime_config, cards[entries.len() - 1])
        } else {
            then
        }
    }
}

/// Every one of `endpoints` to be switched on or off, in order.
pub fn switch_all<E: Copy>(endpoints: &Vec<E>, enabled: bool) -> (r: Vec<EndpointSwitch<E>>)
    ensures
        r@ == all_switched(endpoints@, enabled),
{
    let mut r: Vec<EndpointSwitch<E>> = Vec::new();
    let mut i: usize = 0;
    while i < endpoints.len()
        invariant
            i <= endpoints.len(),
            r@ == all_switched(endpoints@.take(i as int), enabled),
        decreases endpoints.len() - i,
    {
        r.push(EndpointSwitch { endpoint: endpoints[i], enabled });
        i = i + 1;
    }
    proof {
        assert(endpoints@.take(i as int) == endpoints@);
    }
    r
}

/// The endpoints to be switched by an update: all that the models need, on
/// where models were added, and off where they were removed.
pub fn update_http_endpoints<E: Copy>(update: &ModelUpdate<E>) -> (r: Vec<EndpointSwitch<E>>)
    ensures
        r@ == all_switched(update.model_type().endpoints@, update.adds()),
{
    match update {
        ModelUpdate::Added(model_type) => switch_all(&model_type.endpoints, true),
        ModelUpdate::Removed(model_type) => switch_all(&model_type.endpoints, false),
    }
}

/// Whether what is known of `entry` is to be published after an update. A model
/// that was removed keeps what was published of it.
pub fn concerns_entry<E>(update: &ModelUpdate<E>, entry: &ModelEntry) -> (r: bool)
    ensures
        r == update.concerns(*entry),
{
    match update {
        ModelUpdate::Added(model_type) => entry.model_type == model_type.flags,
        ModelUpdate::Removed(_) => false,
    }
}

/// Publishes what is known of the models that an update concerns, in the order
/// of `entries`. The deployment card that was found for an entry stands at the
/// same place in `cards`.
pub fn update_model_metrics<E>(
    update: &ModelUpdate<E>,
    entries: &Vec<ModelEntry>,
    cards: &Vec<Option<ModelDeploymentCard>>,
    metrics: &mut Metrics,
)
    requires
        old(metrics).wf(),
        cards.len() == entries.len(),
    ensures
        final(metrics).wf(),
        final(metrics).prefix() == old(metrics).prefix(),
        final(metrics)@ == published(old(metrics)@, *update, entries@, cards@),
{
    let mut i: usize = 0;
    while i < entries.len()
        invariant
            i <= entries.len(),
            cards.len() == entries.len(),
            metrics.wf(),
            metrics.prefix() == old(metrics).prefix(),
            metrics@ == published(old(metrics)@, *update, entries@.take(i as int), cards@),
        decreases entries.len() - i,
    {
        proof {
            assert(entries@.take(i + 1).drop_last() == entries@.take(i as int));
        }
        if concerns_entry(update, &entries[i]) {
            metrics.update_metrics_from_model_entry_with_mdc(&entries[i], cards[i]);
        }
        i = i + 1;
    }
    proof {
        assert(entries@.take(i as int) == entries@);
    }
}

/// The values of `base` with those of `over` in their place, wherever there are
/// any.
pub open spec fn overlaid(base: MetricsView, over: MetricsView) -> MetricsView {
    MetricsView {
        total_kv_blocks: base.total_kv_blocks.union_prefer_right(over.total_kv_blocks),
        max_num_seqs: base.max_num_seqs.union_prefer_right(over.max_num_seqs),
        max_num_batched_tokens: base.max_num_batched_tokens.union_prefer_right(
            over.max_num_batched_tokens,
        ),
        context_length: base.context_length.union_prefer_right(over.context_length),
        kv_cache_block_size: base.kv_cache_block_size.union_prefer_right(over.kv_cache_block_size),
        migration_limit: base.migration_limit.union_prefer_right(over.migration_limit),
        ..base
    }
}

/// What an update publishes does not depend on what was published before: it is
/// laid over it.
pub proof fn published_is_laid_over<E>(
    before: MetricsView,
    update: ModelUpdate<E>,
    entries: Seq<ModelEntry>,
    cards: Seq<Option<ModelDeploymentCard>>,
)
    ensures
        published(before, update, entries, cards) == overlaid(
            before,
            published(MetricsView::fresh(), update, entries, cards),
        ),
    decreases entries.len(),
{
    let fresh = MetricsView::fresh();
    if entries.len() == 0 {
        assert(overlaid(before, fresh) =~= before);
    } else {
        published_is_laid_over(before, update, entries.drop_last(), cards);
        let over = published(fresh, update, entries.drop_last(), cards);
        let entry = entries.last();
        if update.concerns(entry) {
            let card = cards[entries.len() - 1];
            assert(overlaid(before, over).entry_set(entry.name@, entry.runtime_config, card)
                =~= overlaid(before, over.entry_set(entry.name@, entry.runtime_config, card)));
        }
    }
}

proof fn lemma_published_with_fewer_cards<E>(
    update: ModelUpdate<E>,
    entries: Seq<ModelEntry>,
    fewer: Seq<Option<ModelDeploymentCard>>,
    cards: Seq<Option<ModelDeploymentCard>>,
)
    requires
        forall|i: int| 0 <= i < entries.len() ==> fewer[i] is None || fewer[i] == #[trigger] cards[i],
    ensures
        published(MetricsView::fresh(), update, entries, fewer).kept_in(
            published(MetricsView::fresh(), update, entries, cards),
        ),
    decreases entries.len(),
{
    if entries.len() > 0 {
        lemma_published_with_fewer_cards(update, entries.drop_last(), fewer, cards);
        assert(fewer[entries.len() - 1] is None || fewer[entries.len() - 1] == cards[entries.len()
            - 1]);
    }
}

/// An update may be published as soon as the runtime configurations are known,
/// and again when deployment cards have been found: the values come out as if
/// all had been known at once. In particular, to publish twice is to publish
/// once.
pub proof fn cards_may_follow<E>(
    before: MetricsView,
    update: ModelUpdate<E>,
    entries: Seq<ModelEntry>,
    early: Seq<Option<ModelDeploymentCard>>,
    cards: Seq<Option<ModelDeploymentCard>>,
)
    requires
        forall|i: int| 0 <= i < entries.len() ==> early[i] is None || early[i] == #[trigger] cards[i],
    ensures
        published(published(before, update, entries, early), update, entries, cards) == published(
            before,
            update,
            entries,
            cards,
        ),
{
    let fresh = MetricsView::fresh();
    let first = published(before, update, entries, early);
    published_is_laid_over(before, update, entries, early);
    published_is_laid_over(first, update, entries, cards);
    published_is_laid_over(before, update, entries, cards);
    lemma_published_with_fewer_cards(update, entries, early, cards);
    assert(published(first, update, entries, cards) =~= published(before, update, entries, cards));
}

/// Removing models changes nothing that was published of them.
pub proof fn removal_keeps_history<E>(
    before: MetricsView,
    update: ModelUpdate<E>,
    entries: Seq<ModelEntry>,
    cards: Seq<Option<ModelDeploymentCard>>,
)
    requires
        !update.adds(),
    ensures
        published(before, update, entries, cards) == before,
    decreases entries.len(),
{
    if entries.len() > 0 {
        removal_keeps_history(before, update, entries.drop_last(), cards);
    }
}

/// An update switches every endpoint that its models need, and no other.
pub proof fn update_switches_its_endpoints<E>(enabled: Set<E>, endpoints: Seq<E>, adds: bool)
    ensures
        forall|e: E| #[trigger]
            switched(enabled, all_switched(endpoints, adds)).contains(e) == if endpoints.contains(
                e,
            ) {
                adds
            } else {
                enabled.contains(e)
            },
    decreases endpoints.len(),
{
    if endpoints.len() > 0 {
        update_switches_its_endpoints(enabled, endpoints.drop_last(), adds);
        let all = all_switched(endpoints, adds);
        assert(all.drop_last() =~= all_switched(endpoints.drop_last(), adds));
        assert(all.last() == (EndpointSwitch { endpoint: endpoints.last(), enabled: adds }));
        assert forall|e: E| endpoints.contains(e) == (endpoints.drop_last().contains(e) || e
            == endpoints.last()) by {
            if endpoints.contains(e) {
                let i = endpoints.index_of(e);
                if i < endpoints.len() - 1 {
                    assert(endpoints.drop_last()[i] == e);
                }
            }
            if endpoints.drop_last().contains(e) {
                let i = endpoints.drop_last().index_of(e);
                assert(endpoints[i] == e);
            }
            if e == endpoints.last() {
                assert(endpoints[endpoints.len() - 1] == e);
            }
        }
        assert forall|e: E| #[trigger] switched(enabled, all).contains(e) == if endpoints.contains(
            e,
        ) {
            adds
        } else {
            enabled.contains(e)
        } by {
            assert(switched(enabled, all_switched(endpoints.drop_last(), adds)).contains(e)
                == if endpoints.drop_last().contains(e) {
                adds
            } else {
                enabled.contains(e)
            });
        }
    }
}

/// Models that are added and removed again leave the endpoints that they needed
/// off, and all others as they were.
pub proof fn removal_undoes_addition<E>(enabled: Set<E>, endpoints: Seq<E>)
    ensures
        forall|e: E| #[trigger]
            switched(
                switched(enabled, all_switched(endpoints, true)),
                all_switched(endpoints, false),
            ).contains(e) == (enabled.contains(e) && !endpoints.contains(e)),
{
    let on = switched(enabled, all_switched(endpoints, true));
    update_switches_its_endpoints(enabled, endpoints, true);
    update_switches_its_endpoints(on, endpoints, false);
    assert forall|e: E| #[trigger] switched(on, all_switched(endpoints, false)).contains(e) == (
    enabled.contains(e) && !endpoints.contains(e)) by {
        assert(on.contains(e) == if endpoints.contains(e) {
            true
        } else {
            enabled.contains(e)
        });
    }
}

/// What an update is about: models that were added, or models that were removed.
pub proof fn updates_add_or_remove<E>(model_type: ModelType<E>, entry: ModelEntry)
    ensures
        ModelUpdate::Added(model_type).adds(),
        !ModelUpdate::Removed(model_type).adds(),
        ModelUpdate::Added(model_type).model_type() == model_type,
        ModelUpdate::Removed(model_type).model_type() == model_type,
        ModelUpdate::Added(model_type).concerns(entry) <==> entry.model_type == model_type.flags,
        !ModelUpdate::Removed(model_type).concerns(entry),
{
}

/// Each endpoint is switched once, in the order of the list, and all the same way.
pub proof fn each_endpoint_is_switched<E>(endpoints: Seq<E>, enabled: bool)
    ensures
        all_switched(endpoints, enabled).len() == endpoints.len(),
        forall|i: int|
            0 <= i < endpoints.len() ==> (#[trigger] all_switched(endpoints, enabled)[i]).endpoint
                == endpoints[i] && all_switched(endpoints, enabled)[i].enabled == enabled,
{
}

/// A switch turns its own endpoint on or off, whatever was switched before, and no
/// other.
pub proof fn last_switch_counts<E>(
    enabled: Set<E>,
    switches: Seq<EndpointSwitch<E>>,
    last: EndpointSwitch<E>,
    other: E,
)
    ensures
        switched(enabled, Seq::empty()) == enabled,
        switched(enabled, switches.push(last)).contains(last.endpoint) == last.enabled,
        other != last.endpoint ==> switched(enabled, switches.push(last)).contains(other)
            == switched(enabled, switches).contains(other),
{
    assert(switches.push(last).drop_last() =~= switches);
}

/// Of one more entry, what is known is published where models of its kind were added,
/// with the card that was found for it, and nothing where they were not.
pub proof fn entries_are_published_in_turn<E>(
    before: MetricsView,
    update: ModelUpdate<E>,
    entries: Seq<ModelEntry>,
    cards: Seq<Option<ModelDeploymentCard>>,
    entry: ModelEntry,
)
    ensures
        published(before, update, Seq::empty(), cards) == before,
        ({
            let then = published(before, update, entries, cards);
            let after = published(before, update, entries.push(entry), cards);
            let added = update matches ModelUpdate::Added(t) && t.flags == entry.model_type;
            &&& added ==> after == then.entry_set(
                entry.name@,
                entry.runtime_config,
                cards[entries.len() as int],
            )
            &&& !added ==> after == then
        }),
{
    assert(entries.push(entry).drop_last() =~= entries);
}

/// Nothing is published of a model that no entry of the added kind is for, and nothing
/// but numbers of models is published.
pub proof fn other_models_are_left_alone<E>(
    before: MetricsView,
    update: ModelUpdate<E>,
    entries: Seq<ModelEntry>,
    cards: Seq<Option<ModelDeploymentCard>>,
    key: u64,
)
    requires
        forall|i: int|
            0 <= i < entries.len() && label_hash((#[trigger] entries[i]).name@) == key ==> !(
            update matches ModelUpdate::Added(t) && t.flags == entries[i].model_type),
    ensures
        ({
            let after = published(before, update, entries, cards);
            &&& level_at(after.total_kv_blocks, key) == level_at(before.total_kv_blocks, key)
            &&& after.total_kv_blocks.contains_key(key) == before.total_kv_blocks.contains_key(key)
            &&& level_at(after.max_num_seqs, key) == level_at(before.max_num_seqs, key)
            &&& after.max_num_seqs.contains_key(key) == before.max_num_seqs.contains_key(key)
            &&& level_at(after.max_num_batched_tokens, key)
                == level_at(before.max_num_batched_tokens, key)
            &&& after.max_num_batched_tokens.contains_key(key)
                == before.max_num_batched_tokens.contains_key(key)
            &&& level_at(after.context_length, key) == level_at(before.context_length, key)
            &&& after.context_length.contains_key(key) == before.context_length.contains_key(key)
            &&& level_at(after.kv_cache_block_size, key)
                == level_at(before.kv_cache_block_size, key)
            &&& after.kv_cache_block_size.contains_key(key)
                == before.kv_cache_block_size.contains_key(key)
            &&& level_at(after.migration_limit, key) == level_at(before.migration_limit, key)
            &&& after.migration_limit.contains_key(key) == before.migration_limit.contains_key(key)
            &&& after.requests == before.requests
            &&& after.inflight == before.inflight
            &&& after.queued == before.queued
            &&& after.disconnects == before.disconnects
        }),
    decreases entries.len(),
{
    if entries.len() > 0 {
        let earlier = entries.drop_last();
        assert forall|i: int|
            0 <= i < earlier.len() && label_hash((#[trigger] earlier[i]).name@) == key implies !(
        update matches ModelUpdate::Added(t) && t.flags == earlier[i].model_type) by {
            assert(earlier[i] == entries[i]);
        }
        other_models_are_left_alone(before, update, earlier, cards, key);
        assert(entries[entries.len() - 1] == entries.last());
    }
}

/// An update switches each endpoint that its models need once, on where models were
/// added and off where they were removed.
pub proof fn updates_switch_their_endpoints<E: Copy>(
    update: &ModelUpdate<E>,
    r: Vec<EndpointSwitch<E>>,
)
    requires
        update_http_endpoints.ensures((update,), r),
    ensures
        ({
            let needed = match update {
                ModelUpdate::Added(t) => t.endpoints@,
                ModelUpdate::Removed(t) => t.endpoints@,
            };
            &&& r@.len() == needed.len()
            &&& forall|i: int|
                0 <= i < needed.len() ==> (#[trigger] r@[i]).endpoint == needed[i] && (r@[i].enabled
                    <==> update is Added)
        }),
{
}

/// Endpoints are all switched the same way, each once and in order.
pub proof fn endpoints_are_switched<E: Copy>(
    endpoints: &Vec<E>,
    enabled: bool,
    r: Vec<EndpointSwitch<E>>,
)
    requires
        switch_all.ensures((endpoints, enabled), r),
    ensures
        r@.len() == endpoints@.len(),
        forall|i: int|
            0 <= i < r@.len() ==> (#[trigger] r@[i]).endpoint == endpoints@[i] && r@[i].enabled
                == enabled,
{
}

/// An entry is concerned where models of its kind were added.
pub proof fn added_kinds_are_concerned<E>(
    update: &ModelUpdate<E>,
    entry: &ModelEntry,
    answer: bool,
)
    requires
        concerns_entry.ensures((update, entry), answer),
    ensures
        answer <==> (update matches ModelUpdate::Added(t) && t.flags == entry.model_type),
{
}

/// An update publishes its entries one behind the other, and keeps the prefix. Of models
/// that were removed it publishes nothing.
pub proof fn updates_are_published<E>(
    update: &ModelUpdate<E>,
    entries: &Vec<ModelEntry>,
    cards: &Vec<Option<ModelDeploymentCard>>,
    metrics: &mut Metrics,
)
    requires
        update_model_metrics.ensures((update, entries, cards, metrics), ()),
    ensures
        final(metrics).prefix() == old(metrics).prefix(),
        final(metrics)@ == published(old(metrics)@, *update, entries@, cards@),
        update is Removed ==> final(metrics)@ == old(metrics)@,
        entries@.len() == 0 ==> final(metrics)@ == old(metrics)@,
{
    if update is Removed {
        removal_keeps_history(old(metrics)@, *update, entries@, cards@);
    }
}

} // verus!
