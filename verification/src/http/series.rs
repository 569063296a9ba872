//! Labelled integer series, kept by the Prometheus client library.

use crate::calls::answer_to_both;
use crate::text::texts;
use vstd::prelude::*;
use vstd::utf8::encode_utf8;

verus! {

/// The errors of the Prometheus client.
#[verifier::external_type_specification]
#[verifier::external_body]
pub struct ExPrometheusError(prometheus::Error);

/// The set of collectors that are read out together.
#[verifier::external_type_specification]
#[verifier::external_body]
pub struct ExPrometheusRegistry(prometheus::Registry);

/// Whether `c` may start a metric name.
pub open spec fn metric_name_start(c: char) -> bool {
    label_name_start(c) || c == ':'
}

/// Whether `c` may start a label name.
pub open spec fn label_name_start(c: char) -> bool {
    ('a' <= c && c <= 'z') || ('A' <= c && c <= 'Z') || c == '_'
}

/// Whether `c` is an ASCII digit.
pub open spec fn ascii_digit(c: char) -> bool {
    '0' <= c && c <= '9'
}

/// The metric names that Prometheus takes: a letter, an underscore or a colon,
/// and after it the same or digits.
pub open spec fn valid_metric_name(name: Seq<char>) -> bool {
    &&& name.len() > 0
    &&& metric_name_start(name[0])
    &&& forall|i: int|
        1 <= i < name.len() ==> metric_name_start(#[trigger] name[i]) || ascii_digit(name[i])
}

/// The label names that Prometheus takes: as metric names, without colons.
pub open spec fn valid_label_name(name: Seq<char>) -> bool {
    &&& name.len() > 0
    &&& label_name_start(name[0])
    &&& forall|i: int|
        1 <= i < name.len() ==> label_name_start(#[trigger] name[i]) || ascii_digit(name[i])
}

/// What a family of series is made with.
#[verifier::ext_equal]
pub struct About {
    pub name: Seq<char>,
    pub help: Seq<char>,
    pub labels: Seq<Seq<char>>,
}

impl About {
    /// Whether Prometheus makes a family of this.
    pub open spec fn valid(self) -> bool {
        &&& self.help.len() > 0
        &&& valid_metric_name(self.name)
        &&& forall|i: int| 0 <= i < self.labels.len() ==> valid_label_name(#[trigger] self.labels[i])
        &&& self.labels.no_duplicates()
    }
}

/// The 64-bit FNV-1a hash of some bytes.
pub open spec fn fnv_hash(bytes: Seq<u8>) -> u64
    decreases bytes.len(),
{
    if bytes.len() == 0 {
        0xcbf2_9ce4_8422_2325
    } else {
        let mixed: u64 = fnv_hash(bytes.drop_last()) ^ (bytes.last() as u64);
        ((mixed * 0x100_0000_01b3) % 0x1_0000_0000_0000_0000) as u64
    }
}

/// The hash of a text's UTF-8 bytes.
///
/// The client finds a series by this hash of its label values, written one
/// behind the other. Two series whose values have the same hash are one.
#[verifier::opaque]
pub open spec fn label_hash(values: Seq<char>) -> u64 {
    fnv_hash(encode_utf8(values))
}

/// A counter after one more event; it starts again at zero behind the largest
/// number.
pub open spec fn next_count(v: u64) -> u64 {
    if v == u64::MAX {
        0
    } else {
        (v + 1) as u64
    }
}

/// A gauge after it went up by one; behind the largest number comes the least.
pub open spec fn gauge_up(v: i64) -> i64 {
    if v == i64::MAX {
        i64::MIN
    } else {
        (v + 1) as i64
    }
}

/// A gauge after it went down by one; below the least number comes the largest.
pub open spec fn gauge_down(v: i64) -> i64 {
    if v == i64::MIN {
        i64::MAX
    } else {
        (v - 1) as i64
    }
}

/// The count under `key`: zero where there is no series yet.
pub open spec fn count_at(series: Map<u64, u64>, key: u64) -> u64 {
    if series.dom().contains(key) {
        series[key]
    } else {
        0
    }
}

/// The level under `key`: zero where there is no series yet.
pub open spec fn level_at(series: Map<u64, i64>, key: u64) -> i64 {
    if series.dom().contains(key) {
        series[key]
    } else {
        0
    }
}

/// A family of counters that differ in their label values:
/// `prometheus::IntCounterVec`.
///
/// The handle stays inside the crate. A registry that it is registered with
/// holds another handle and only reads through it.
#[verifier::external_body]
pub struct CounterFamily {
    inner: prometheus::IntCounterVec,
}

/// The counters of a family that have been used so far, by the hash of their
/// label values.
pub uninterp spec fn counter_series(family: CounterFamily) -> Map<u64, u64>;

/// What a family of counters was made with.
pub uninterp spec fn counter_about(family: CounterFamily) -> About;

/// A family of gauges that differ in their label values:
/// `prometheus::IntGaugeVec`. What is said of [`CounterFamily`]'s handle holds
/// of this one.
#[verifier::external_body]
pub struct GaugeFamily {
    inner: prometheus::IntGaugeVec,
}

/// The gauges of a family that have been used so far, by the hash of their
/// label values.
pub uninterp spec fn gauge_series(family: GaugeFamily) -> Map<u64, i64>;

/// What a family of gauges was made with.
pub uninterp spec fn gauge_about(family: GaugeFamily) -> About;

/// One gauge without labels: `prometheus::IntGauge`. What is said of
/// [`CounterFamily`]'s handle holds of this one.
#[verifier::external_body]
pub struct SingleGauge {
    inner: prometheus::IntGauge,
}

/// The levels that a gauge without labels holds: one.
pub uninterp spec fn single_level(gauge: SingleGauge) -> Seq<i64>;

/// What a gauge without labels was made with.
pub uninterp spec fn single_about(gauge: SingleGauge) -> About;

/// Makes a family of counters: `prometheus::IntCounterVec::new`. It succeeds
/// where the help text is not empty, the names are valid and no label name
/// comes twice. A new family has no series.
#[verifier::external_body]
pub(crate) fn new_counter_family(name: &str, help: &str, labels: &[&str]) -> (r: Result<
    CounterFamily,
    prometheus::Error,
>)
    requires
        labels@.len() > 0,
    ensures
        r is Ok <==> (About {
            name: name@,
            help: help@,
            labels: labels@.map_values(|l: &str| l@),
        }).valid(),
        r matches Ok(family) ==> {
            &&& counter_series(family) == Map::<u64, u64>::empty()
            &&& counter_about(family) == (About {
                name: name@,
                help: help@,
                labels: labels@.map_values(|l: &str| l@),
            })
        },
{
    let inner = prometheus::IntCounterVec::new(prometheus::Opts::new(name, help), labels)?;
    Ok(CounterFamily { inner })
}

/// Reads a counter: `with_label_values` and `IntCounter::get`. A counter that
/// is read for the first time comes into being with the count zero.
#[verifier::external_body]
pub(crate) fn counter_get(family: &mut CounterFamily, values: &Vec<String>) -> (r: u64)
    requires
        values.len() == counter_about(*old(family)).labels.len(),
    ensures
        r == count_at(counter_series(*old(family)), label_hash(texts(values@).flatten())),
        counter_series(*final(family)) == counter_series(*old(family)).insert(
            label_hash(texts(values@).flatten()),
            r,
        ),
        counter_about(*final(family)) == counter_about(*old(family)),
{
    family.inner.with_label_values(values).get()
}

/// Counts one event: `with_label_values` and `IntCounter::inc`.
#[verifier::external_body]
pub(crate) fn counter_inc(family: &mut CounterFamily, values: &Vec<String>)
    requires
        values.len() == counter_about(*old(family)).labels.len(),
    ensures
        counter_series(*final(family)) == counter_series(*old(family)).insert(
            label_hash(texts(values@).flatten()),
            next_count(
                count_at(counter_series(*old(family)), label_hash(texts(values@).flatten())),
            ),
        ),
        counter_about(*final(family)) == counter_about(*old(family)),
{
    family.inner.with_label_values(values).inc()
}

/// Makes a family of gauges: `prometheus::IntGaugeVec::new`, under the same
/// conditions as a family of counters.
#[verifier::external_body]
pub(crate) fn new_gauge_family(name: &str, help: &str, labels: &[&str]) -> (r: Result<
    GaugeFamily,
    prometheus::Error,
>)
    requires
        labels@.len() > 0,
    ensures
        r is Ok <==> (About {
            name: name@,
            help: help@,
            labels: labels@.map_values(|l: &str| l@),
        }).valid(),
        r matches Ok(family) ==> {
            &&& gauge_series(family) == Map::<u64, i64>::empty()
            &&& gauge_about(family) == (About {
                name: name@,
                help: help@,
                labels: labels@.map_values(|l: &str| l@),
            })
        },
{
    let inner = prometheus::IntGaugeVec::new(prometheus::Opts::new(name, help), labels)?;
    Ok(GaugeFamily { inner })
}

/// Reads the gauge of one label value: `with_label_values` and
/// `IntGauge::get`. A gauge that is read for the first time comes into being
/// with the level zero.
#[verifier::external_body]
pub(crate) fn gauge_get(family: &mut GaugeFamily, value: &str) -> (r: i64)
    requires
        gauge_about(*old(family)).labels.len() == 1,
    ensures
        r == level_at(gauge_series(*old(family)), label_hash(value@)),
        gauge_series(*final(family)) == gauge_series(*old(family)).insert(label_hash(value@), r),
        gauge_about(*final(family)) == gauge_about(*old(family)),
{
    family.inner.with_label_values(&[value]).get()
}

/// Raises the gauge of one label value by one: `with_label_values` and
/// `IntGauge::inc`.
#[verifier::external_body]
pub(crate) fn gauge_inc(family: &mut GaugeFamily, value: &str)
    requires
        gauge_about(*old(family)).labels.len() == 1,
    ensures
        gauge_series(*final(family)) == gauge_series(*old(family)).insert(
            label_hash(value@),
            gauge_up(level_at(gauge_series(*old(family)), label_hash(value@))),
        ),
        gauge_about(*final(family)) == gauge_about(*old(family)),
{
    family.inner.with_label_values(&[value]).inc()
}

/// Lowers the gauge of one label value by one: `with_label_values` and
/// `IntGauge::dec`.
#[verifier::external_body]
pub(crate) fn gauge_dec(family: &mut GaugeFamily, value: &str)
    requires
        gauge_about(*old(family)).labels.len() == 1,
    ensures
        gauge_series(*final(family)) == gauge_series(*old(family)).insert(
            label_hash(value@),
            gauge_down(level_at(gauge_series(*old(family)), label_hash(value@))),
        ),
        gauge_about(*final(family)) == gauge_about(*old(family)),
{
    family.inner.with_label_values(&[value]).dec()
}

/// Sets the gauge of one label value: `with_label_values` and `IntGauge::set`.
#[verifier::external_body]
pub(crate) fn gauge_set(family: &mut GaugeFamily, value: &str, level: i64)
    requires
        gauge_about(*old(family)).labels.len() == 1,
    ensures
        gauge_series(*final(family)) == gauge_series(*old(family)).insert(
            label_hash(value@),
            level,
        ),
        gauge_about(*final(family)) == gauge_about(*old(family)),
{
    family.inner.with_label_values(&[value]).set(level)
}

/// Makes a gauge without labels: `prometheus::IntGauge::new`. It succeeds where
/// the help text is not empty and the name is valid, and the gauge stands at
/// zero.
#[verifier::external_body]
pub(crate) fn new_single_gauge(name: &str, help: &str) -> (r: Result<
    SingleGauge,
    prometheus::Error,
>)
    ensures
        r is Ok <==> (About { name: name@, help: help@, labels: Seq::empty() }).valid(),
        r matches Ok(gauge) ==> {
            &&& single_level(gauge) == seq![0i64]
            &&& single_about(gauge) == (About { name: name@, help: help@, labels: Seq::empty() })
        },
{
    let inner = prometheus::IntGauge::new(name, help)?;
    Ok(SingleGauge { inner })
}

/// Reads a gauge without labels: `prometheus::IntGauge::get`.
#[verifier::external_body]
pub(crate) fn single_get(gauge: &SingleGauge) -> (r: i64)
    ensures
        single_level(*gauge) == seq![r],
{
    gauge.inner.get()
}

/// Raises a gauge without labels by one: `prometheus::IntGauge::inc`.
#[verifier::external_body]
pub(crate) fn single_inc(gauge: &mut SingleGauge)
    ensures
        single_level(*final(gauge)) == seq![gauge_up(single_level(*old(gauge))[0])],
        single_about(*final(gauge)) == single_about(*old(gauge)),
{
    gauge.inner.inc()
}

/// Registers a family of counters: `prometheus::Registry::register` on another
/// handle of the family. Nothing is promised of the result: whether the name is
/// still free depends on what every holder of the registry did before.
#[verifier::external_body]
pub(crate) fn register_counters(registry: &prometheus::Registry, family: &CounterFamily) -> (r:
    Result<(), prometheus::Error>) {
    registry.register(Box::new(family.inner.clone()))
}

/// Registers a family of gauges, as [`register_counters`] does counters.
#[verifier::external_body]
pub(crate) fn register_gauges(registry: &prometheus::Registry, family: &GaugeFamily) -> (r: Result<
    (),
    prometheus::Error,
>) {
    registry.register(Box::new(family.inner.clone()))
}

/// Registers a gauge without labels, as [`register_counters`] does counters.
#[verifier::external_body]
pub(crate) fn register_single(registry: &prometheus::Registry, gauge: &SingleGauge) -> (r: Result<
    (),
    prometheus::Error,
>) {
    registry.register(Box::new(gauge.inner.clone()))
}

/// Counters or gauges that can be registered.
pub enum Collector<'a> {
    Counters(&'a CounterFamily),
    Gauges(&'a GaugeFamily),
    Single(&'a SingleGauge),
}

impl<'a> Collector<'a> {
    /// What they were made with.
    pub open spec fn about(self) -> About {
        match self {
            Collector::Counters(family) => counter_about(*family),
            Collector::Gauges(family) => gauge_about(*family),
            Collector::Single(gauge) => single_about(*gauge),
        }
    }
}

/// Whether `registry` may answer `r` when it is handed `collector`.
pub closed spec fn registry_may_answer(
    registry: &prometheus::Registry,
    collector: Collector<'_>,
    r: Result<(), prometheus::Error>,
) -> bool {
    match collector {
        Collector::Counters(family) => register_counters.ensures((registry, family), r),
        Collector::Gauges(family) => register_gauges.ensures((registry, family), r),
        Collector::Single(gauge) => register_single.ensures((registry, gauge), r),
    }
}

/// Registers counters or gauges. The registry is handed them, and its answer is
/// returned: whether they can be registered depends on what every holder of the
/// registry did before.
pub fn register_collector(registry: &prometheus::Registry, collector: Collector<'_>) -> (r: Result<
    (),
    prometheus::Error,
>)
    ensures
        registry_may_answer(registry, collector, r),
{
    match collector {
        Collector::Counters(family) => answer_to_both(register_counters, registry, family),
        Collector::Gauges(family) => answer_to_both(register_gauges, registry, family),
        Collector::Single(gauge) => answer_to_both(register_single, registry, gauge),
    }
}

/// A counter goes up by one and a gauge by one either way, as long as there is
/// room, and going down undoes going up.
pub proof fn steps_are_by_one(count: u64, level: i64)
    ensures
        count < u64::MAX ==> next_count(count) == count + 1,
        next_count(u64::MAX) == 0,
        level < i64::MAX ==> gauge_up(level) == level + 1,
        level > i64::MIN ==> gauge_down(level) == level - 1,
        gauge_down(gauge_up(level)) == level,
        gauge_up(gauge_down(level)) == level,
{
}

/// A series that was not used yet reads zero, and one that was reads its value.
pub proof fn series_read_their_values(
    counts: Map<u64, u64>,
    levels: Map<u64, i64>,
    key: u64,
    other: u64,
    count: u64,
    level: i64,
)
    ensures
        count_at(Map::empty(), key) == 0,
        level_at(Map::empty(), key) == 0,
        count_at(counts.insert(key, count), key) == count,
        level_at(levels.insert(key, level), key) == level,
        other != key ==> count_at(counts.insert(key, count), other) == count_at(counts, other),
        other != key ==> level_at(levels.insert(key, level), other) == level_at(levels, other),
{
}

/// Hashing goes byte by byte: each is mixed in, and the result is multiplied by
/// the prime of the hash.
pub proof fn hash_goes_byte_by_byte(text: Seq<char>, bytes: Seq<u8>, byte: u8)
    ensures
        label_hash(text) == fnv_hash(encode_utf8(text)),
        fnv_hash(Seq::empty()) == 14_695_981_039_346_656_037,
        fnv_hash(bytes.push(byte)) as int == ((fnv_hash(bytes) ^ (byte as u64)) * 1_099_511_628_211)
            % 18_446_744_073_709_551_616,
{
    reveal(label_hash);
    assert(bytes.push(byte).drop_last() =~= bytes);
    assert(bytes.push(byte).last() == byte);
}

/// The names that are taken are words of letters, digits, underscores and, for
/// metrics, colons, that start with no digit.
pub proof fn valid_names_are_words(name: Seq<char>, i: int)
    requires
        0 <= i < name.len(),
    ensures
        valid_metric_name(name) ==> {
            &&& !('0' <= name[0] && name[0] <= '9')
            &&& ('a' <= name[i] && name[i] <= 'z') || ('A' <= name[i] && name[i] <= 'Z') || (
            '0' <= name[i] && name[i] <= '9') || name[i] == '_' || name[i] == ':'
        },
        valid_label_name(name) <==> valid_metric_name(name) && !name.contains(':'),
        !valid_metric_name(Seq::empty()),
        valid_metric_name(name) ==> valid_metric_name(name.push('z')) && valid_metric_name(
            name.push('0'),
        ) && valid_metric_name(name.push('_')) && valid_metric_name(name.push('A')),
{
    if valid_label_name(name) {
        assert forall|j: int| 0 <= j < name.len() implies #[trigger] name[j] != ':' by {
            if j > 0 {
                assert(label_name_start(name[j]) || ascii_digit(name[j]));
            }
        }
        assert(valid_metric_name(name)) by {
            assert forall|j: int| 1 <= j < name.len() implies metric_name_start(
                #[trigger] name[j],
            ) || ascii_digit(name[j]) by {
                assert(label_name_start(name[j]) || ascii_digit(name[j]));
            }
        }
    }
    if valid_metric_name(name) && !name.contains(':') {
        assert(name[0] != ':');
        assert forall|j: int| 1 <= j < name.len() implies label_name_start(#[trigger] name[j])
            || ascii_digit(name[j]) by {
            assert(metric_name_start(name[j]) || ascii_digit(name[j]));
            assert(name[j] != ':');
        }
    }
    if valid_metric_name(name) {
        assert forall|c: char, j: int| (metric_name_start(c) || ascii_digit(c)) && 1 <= j
            < name.push(c).len() implies metric_name_start(#[trigger] name.push(c)[j])
                || ascii_digit(
            name.push(c)[j],
        ) by {
            if j < name.len() {
                assert(name.push(c)[j] == name[j]);
            }
        }
    }
}

/// A registry is handed exactly the counters or gauges that are to be registered.
pub(crate) proof fn registry_is_handed_the_collector(
    registry: &prometheus::Registry,
    counters: &CounterFamily,
    gauges: &GaugeFamily,
    gauge: &SingleGauge,
    r: Result<(), prometheus::Error>,
)
    ensures
        registry_may_answer(registry, Collector::Counters(counters), r)
            <==> register_counters.ensures((registry, counters), r),
        registry_may_answer(registry, Collector::Gauges(gauges), r) <==> register_gauges.ensures(
            (registry, gauges),
            r,
        ),
        registry_may_answer(registry, Collector::Single(gauge), r) <==> register_single.ensures(
            (registry, gauge),
            r,
        ),
        Collector::Counters(counters).about() == counter_about(*counters),
        Collector::Gauges(gauges).about() == gauge_about(*gauges),
        Collector::Single(gauge).about() == single_about(*gauge),
{
}

/// Registering counters or gauges hands exactly these to the registry, and passes its
/// answer on.
pub(crate) proof fn collectors_are_registered(
    registry: &prometheus::Registry,
    collector: Collector<'_>,
    r: Result<(), prometheus::Error>,
)
    requires
        register_collector.ensures((registry, collector), r),
    ensures
        collector matches Collector::Counters(family) ==> register_counters.ensures(
            (registry, family),
            r,
        ),
        collector matches Collector::Gauges(family) ==> register_gauges.ensures(
            (registry, family),
            r,
        ),
        collector matches Collector::Single(gauge) ==> register_single.ensures(
            (registry, gauge),
            r,
        ),
{
}

} // verus!
