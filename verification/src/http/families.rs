//! The families of series that the service publishes: their names, help texts,
//! labels and histogram buckets.

use super::series::{
    ascii_digit, label_name_start, metric_name_start, valid_label_name, valid_metric_name, About,
};
use vstd::prelude::*;
use vstd::string::*;

verus! {

/// A family of series.
#[derive(Clone, Copy, Debug, PartialEq, Eq, Structural)]
pub enum Family {
    /// The requests that were processed.
    RequestsTotal,
    /// The requests in flight.
    InflightRequests,
    /// The connections that clients dropped.
    ClientDisconnects,
    /// The requests that wait for their first token.
    QueuedRequests,
    /// How long requests took.
    RequestDuration,
    /// The length of the inputs.
    InputSequence,
    /// The length of the outputs.
    OutputSequence,
    /// The time until the first token.
    TimeToFirstToken,
    /// The time between tokens.
    InterTokenLatency,
    /// The KV cache blocks of a worker.
    ModelTotalKvBlocks,
    /// The sequences that a worker takes.
    ModelMaxNumSeqs,
    /// The batched tokens that a worker takes.
    ModelMaxNumBatchedTokens,
    /// The context length of the model.
    ModelContextLength,
    /// The KV cache block size.
    ModelKvCacheBlockSize,
    /// The migrations that a request may make.
    ModelMigrationLimit,
}

impl Family {
    /// The families in the order in which they are registered.
    pub open spec fn registration_order() -> Seq<Family> {
        seq![
            Family::RequestsTotal,
            Family::InflightRequests,
            Family::ClientDisconnects,
            Family::QueuedRequests,
            Family::RequestDuration,
            Family::InputSequence,
            Family::OutputSequence,
            Family::TimeToFirstToken,
            Family::InterTokenLatency,
            Family::ModelTotalKvBlocks,
            Family::ModelMaxNumSeqs,
            Family::ModelMaxNumBatchedTokens,
            Family::ModelContextLength,
            Family::ModelKvCacheBlockSize,
            Family::ModelMigrationLimit,
        ]
    }

    /// The name of the family behind the prefix.
    pub open spec fn suffix_text(self) -> Seq<char> {
        match self {
            Family::RequestsTotal => "requests_total"@,
            Family::InflightRequests => "inflight_requests"@,
            Family::ClientDisconnects => "client_disconnects"@,
            Family::QueuedRequests => "queued_requests_total"@,
            Family::RequestDuration => "request_duration_seconds"@,
            Family::InputSequence => "input_sequence_tokens"@,
            Family::OutputSequence => "output_sequence_tokens"@,
            Family::TimeToFirstToken => "time_to_first_token_seconds"@,
            Family::InterTokenLatency => "inter_token_latency_seconds"@,
            Family::ModelTotalKvBlocks => "model_total_kv_blocks"@,
            Family::ModelMaxNumSeqs => "model_max_num_seqs"@,
            Family::ModelMaxNumBatchedTokens => "model_max_num_batched_tokens"@,
            Family::ModelContextLength => "model_context_length"@,
            Family::ModelKvCacheBlockSize => "model_kv_cache_block_size"@,
            Family::ModelMigrationLimit => "model_migration_limit"@,
        }
    }

    /// The help text of the family.
    pub open spec fn help_text(self) -> Seq<char> {
        match self {
            Family::RequestsTotal => {
                "Total number of LLM requests processed"@
            },
            Family::InflightRequests => {
                "Number of inflight requests"@
            },
            Family::ClientDisconnects => {
                "Number of connections dropped by clients"@
            },
            Family::QueuedRequests => {
                "Number of requests in HTTP processing queue"@
            },
            Family::RequestDuration => {
                "Duration of LLM requests"@
            },
            Family::InputSequence => {
                "Input sequence length in tokens"@
            },
            Family::OutputSequence => {
                "Output sequence length in tokens"@
            },
            Family::TimeToFirstToken => {
                "Time to first token in seconds"@
            },
            Family::InterTokenLatency => {
                "Inter-token latency in seconds"@
            },
            Family::ModelTotalKvBlocks => {
                "Total KV cache blocks available for a worker serving the model"@
            },
            Family::ModelMaxNumSeqs => {
                "Maximum number of sequences for a worker serving the model"@
            },
            Family::ModelMaxNumBatchedTokens => {
                "Maximum number of batched tokens for a worker serving the model"@
            },
            Family::ModelContextLength => {
                "Maximum context length in tokens for a worker serving the model"@
            },
            Family::ModelKvCacheBlockSize => {
                "KV cache block size in tokens for a worker serving the model"@
            },
            Family::ModelMigrationLimit => {
                "Maximum number of request migrations allowed for the model"@
            },
        }
    }

    /// The label names of the family.
    pub open spec fn label_texts(self) -> Seq<Seq<char>> {
        match self {
            Family::RequestsTotal => seq!["model"@, "endpoint"@, "request_type"@, "status"@],
            Family::ClientDisconnects => Seq::empty(),
            _ => seq!["model"@],
        }
    }

    /// Whether the family is a histogram.
    pub open spec fn is_histogram_family(self) -> bool {
        match self {
            Family::RequestDuration
            | Family::InputSequence
            | Family::OutputSequence
            | Family::TimeToFirstToken
            | Family::InterTokenLatency => true,
            _ => false,
        }
    }

    /// The upper bounds of the histogram's buckets in thousandths (of a second
    /// or of a token), in ascending order.
    pub open spec fn bucket_bounds(self) -> Seq<u64> {
        match self {
            Family::RequestDuration => seq![
                0u64,
                1000u64,
                2000u64,
                4000u64,
                8000u64,
                16000u64,
                32000u64,
                64000u64,
                128000u64,
                256000u64,
            ],
            Family::InputSequence => seq![
                0u64,
                50000u64,
                100000u64,
                500000u64,
                1000000u64,
                2000000u64,
                4000000u64,
                8000000u64,
                16000000u64,
                32000000u64,
                64000000u64,
                128000000u64,
            ],
            Family::OutputSequence => seq![
                0u64,
                50000u64,
                100000u64,
                500000u64,
                1000000u64,
                2000000u64,
                4000000u64,
                8000000u64,
                16000000u64,
                32000000u64,
            ],
            Family::TimeToFirstToken => seq![
                0u64,
                1u64,
                5u64,
                10u64,
                25u64,
                50u64,
                100u64,
                250u64,
                500u64,
                1000u64,
                2000u64,
                5000u64,
                10000u64,
                30000u64,
                60000u64,
                120000u64,
                240000u64,
                480000u64,
            ],
            Family::InterTokenLatency => seq![
                0u64,
                1u64,
                5u64,
                10u64,
                15u64,
                20u64,
                25u64,
                50u64,
                100u64,
                250u64,
                500u64,
                1000u64,
                2000u64,
            ],
            _ => Seq::empty(),
        }
    }

    /// What the family is made with under `prefix`.
    pub open spec fn about(self, prefix: Seq<char>) -> About {
        About {
            name: metric_name_text(prefix, self.suffix_text()),
            help: self.help_text(),
            labels: self.label_texts(),
        }
    }

    /// The name of the family behind the prefix.
    pub fn suffix(&self) -> (r: &'static str)
        ensures
            r@ == self.suffix_text(),
    {
        match self {
            Family::RequestsTotal => "requests_total",
            Family::InflightRequests => "inflight_requests",
            Family::ClientDisconnects => "client_disconnects",
            Family::QueuedRequests => "queued_requests_total",
            Family::RequestDuration => "request_duration_seconds",
            Family::InputSequence => "input_sequence_tokens",
            Family::OutputSequence => "output_sequence_tokens",
            Family::TimeToFirstToken => "time_to_first_token_seconds",
            Family::InterTokenLatency => "inter_token_latency_seconds",
            Family::ModelTotalKvBlocks => "model_total_kv_blocks",
            Family::ModelMaxNumSeqs => "model_max_num_seqs",
            Family::ModelMaxNumBatchedTokens => "model_max_num_batched_tokens",
            Family::ModelContextLength => "model_context_length",
            Family::ModelKvCacheBlockSize => "model_kv_cache_block_size",
            Family::ModelMigrationLimit => "model_migration_limit",
        }
    }

    /// The help text of the family.
    pub fn help(&self) -> (r: &'static str)
        ensures
            r@ == self.help_text(),
    {
        match self {
            Family::RequestsTotal => {
                "Total number of LLM requests processed"
            },
            Family::InflightRequests => {
                "Number of inflight requests"
            },
            Family::ClientDisconnects => {
                "Number of connections dropped by clients"
            },
            Family::QueuedRequests => {
                "Number of requests in HTTP processing queue"
            },
            Family::RequestDuration => {
                "Duration of LLM requests"
            },
            Family::InputSequence => {
                "Input sequence length in tokens"
            },
            Family::OutputSequence => {
                "Output sequence length in tokens"
            },
            Family::TimeToFirstToken => {
                "Time to first token in seconds"
            },
            Family::InterTokenLatency => {
                "Inter-token latency in seconds"
            },
            Family::ModelTotalKvBlocks => {
                "Total KV cache blocks available for a worker serving the model"
            },
            Family::ModelMaxNumSeqs => {
                "Maximum number of sequences for a worker serving the model"
            },
            Family::ModelMaxNumBatchedTokens => {
                "Maximum number of batched tokens for a worker serving the model"
            },
            Family::ModelContextLength => {
                "Maximum context length in tokens for a worker serving the model"
            },
            Family::ModelKvCacheBlockSize => {
                "KV cache block size in tokens for a worker serving the model"
            },
            Family::ModelMigrationLimit => {
                "Maximum number of request migrations allowed for the model"
            },
        }
    }

    /// The label names of the family.
    pub fn labels(&self) -> (r: Vec<&'static str>)
        ensures
            r@.map_values(|l: &str| l@) == self.label_texts(),
    {
        match self {
            Family::RequestsTotal => vec!["model", "endpoint", "request_type", "status"],
            Family::ClientDisconnects => Vec::new(),
            _ => vec!["model"],
        }
    }

    /// Whether the family is a histogram.
    pub fn is_histogram(&self) -> (r: bool)
        ensures
            r == self.is_histogram_family(),
    {
        match self {
            Family::RequestDuration
            | Family::InputSequence
            | Family::OutputSequence
            | Family::TimeToFirstToken
            | Family::InterTokenLatency => true,
            _ => false,
        }
    }

    /// The upper bounds of the histogram's buckets in thousandths; none where
    /// the family is no histogram.
    pub fn bucket_bounds_milli(&self) -> (r: Vec<u64>)
        ensures
            r@ == self.bucket_bounds(),
    {
        match self {
            Family::RequestDuration => vec![
                0,
                1000,
                2000,
                4000,
                8000,
                16000,
                32000,
                64000,
                128000,
                256000,
            ],
            Family::InputSequence => vec![
                0,
                50000,
                100000,
                500000,
                1000000,
                2000000,
                4000000,
                8000000,
                16000000,
                32000000,
                64000000,
                128000000,
            ],
            Family::OutputSequence => vec![
                0,
                50000,
                100000,
                500000,
                1000000,
                2000000,
                4000000,
                8000000,
                16000000,
                32000000,
            ],
            Family::TimeToFirstToken => vec![
                0,
                1,
                5,
                10,
                25,
                50,
                100,
                250,
                500,
                1000,
                2000,
                5000,
                10000,
                30000,
                60000,
                120000,
                240000,
                480000,
            ],
            Family::InterTokenLatency => vec![
                0,
                1,
                5,
                10,
                15,
                20,
                25,
                50,
                100,
                250,
                500,
                1000,
                2000,
            ],
            _ => Vec::new(),
        }
    }

    /// The name of the family under `prefix`.
    pub fn metric_name(&self, prefix: &str) -> (r: String)
        ensures
            r@ == self.about(prefix@).name,
    {
        let mut name = prefix.to_owned();
        name.append("_");
        name.append(self.suffix());
        proof {
            reveal_strlit("_");
            assert("_"@ == seq!['_']);
        }
        name
    }

    /// The families in the order in which they are registered.
    pub fn all() -> (r: Vec<Family>)
        ensures
            r@ == Family::registration_order(),
    {
        vec![
            Family::RequestsTotal,
            Family::InflightRequests,
            Family::ClientDisconnects,
            Family::QueuedRequests,
            Family::RequestDuration,
            Family::InputSequence,
            Family::OutputSequence,
            Family::TimeToFirstToken,
            Family::InterTokenLatency,
            Family::ModelTotalKvBlocks,
            Family::ModelMaxNumSeqs,
            Family::ModelMaxNumBatchedTokens,
            Family::ModelContextLength,
            Family::ModelKvCacheBlockSize,
            Family::ModelMigrationLimit,
        ]
    }
}

/// A metric name: the prefix and the suffix with an underscore between them.
pub open spec fn metric_name_text(prefix: Seq<char>, suffix: Seq<char>) -> Seq<char> {
    prefix.push('_') + suffix
}

/// Whether the characters from `k` on may all stand inside a metric name.
spec fn name_chars_from(s: Seq<char>, k: nat) -> bool
    decreases s.len() - k,
{
    k >= s.len() || ((metric_name_start(s[k as int]) || ascii_digit(s[k as int]))
        && name_chars_from(s, k + 1))
}

/// Whether the characters from `k` on may all start a label name.
spec fn label_chars_from(s: Seq<char>, k: nat) -> bool
    decreases s.len() - k,
{
    k >= s.len() || (label_name_start(s[k as int]) && label_chars_from(s, k + 1))
}

proof fn lemma_name_chars(s: Seq<char>, k: nat)
    requires
        name_chars_from(s, k),
    ensures
        forall|i: int| k <= i < s.len() ==> metric_name_start(#[trigger] s[i]) || ascii_digit(s[i]),
    decreases s.len() - k,
{
    if k < s.len() {
        lemma_name_chars(s, k + 1);
    }
}

proof fn lemma_label_chars(s: Seq<char>, k: nat)
    requires
        label_chars_from(s, k),
    ensures
        forall|i: int| k <= i < s.len() ==> label_name_start(#[trigger] s[i]),
    decreases s.len() - k,
{
    if k < s.len() {
        lemma_label_chars(s, k + 1);
    }
}

proof fn lemma_suffix_chars(family: Family)
    ensures
        name_chars_from(family.suffix_text(), 0),
{
    reveal_with_fuel(name_chars_from, 32);
    reveal_strlit("requests_total");
    reveal_strlit("inflight_requests");
    reveal_strlit("client_disconnects");
    reveal_strlit("queued_requests_total");
    reveal_strlit("request_duration_seconds");
    reveal_strlit("input_sequence_tokens");
    reveal_strlit("output_sequence_tokens");
    reveal_strlit("time_to_first_token_seconds");
    reveal_strlit("inter_token_latency_seconds");
    reveal_strlit("model_total_kv_blocks");
    reveal_strlit("model_max_num_seqs");
    reveal_strlit("model_max_num_batched_tokens");
    reveal_strlit("model_context_length");
    reveal_strlit("model_kv_cache_block_size");
    reveal_strlit("model_migration_limit");
}

proof fn lemma_help_given(family: Family)
    ensures
        family.help_text().len() > 0,
{
    reveal_strlit("Total number of LLM requests processed");
    reveal_strlit("Number of inflight requests");
    reveal_strlit("Number of connections dropped by clients");
    reveal_strlit("Number of requests in HTTP processing queue");
    reveal_strlit("Duration of LLM requests");
    reveal_strlit("Input sequence length in tokens");
    reveal_strlit("Output sequence length in tokens");
    reveal_strlit("Time to first token in seconds");
    reveal_strlit("Inter-token latency in seconds");
    reveal_strlit("Total KV cache blocks available for a worker serving the model");
    reveal_strlit("Maximum number of sequences for a worker serving the model");
    reveal_strlit("Maximum number of batched tokens for a worker serving the model");
    reveal_strlit("Maximum context length in tokens for a worker serving the model");
    reveal_strlit("KV cache block size in tokens for a worker serving the model");
    reveal_strlit("Maximum number of request migrations allowed for the model");
}

proof fn lemma_labels_valid(family: Family)
    ensures
        forall|i: int|
            0 <= i < family.label_texts().len() ==> valid_label_name(
                #[trigger] family.label_texts()[i],
            ),
        family.label_texts().no_duplicates(),
{
    reveal_with_fuel(label_chars_from, 16);
    reveal_strlit("model");
    reveal_strlit("endpoint");
    reveal_strlit("request_type");
    reveal_strlit("status");
    lemma_label_chars("model"@, 0);
    lemma_label_chars("endpoint"@, 0);
    lemma_label_chars("request_type"@, 0);
    lemma_label_chars("status"@, 0);
    assert("model"@.len() == 5);
    assert("endpoint"@.len() == 8);
    assert("request_type"@.len() == 12);
    assert("status"@.len() == 6);
}

/// Whether `prefix` can start metric names, with an underscore behind it. The
/// empty one can.
pub open spec fn valid_prefix(prefix: Seq<char>) -> bool {
    valid_metric_name(prefix.push('_'))
}

/// Under a valid prefix every family can be made.
pub proof fn families_are_valid(prefix: Seq<char>, family: Family)
    requires
        valid_prefix(prefix),
    ensures
        family.about(prefix).valid(),
{
    let suffix = family.suffix_text();
    let name = metric_name_text(prefix, suffix);
    lemma_suffix_chars(family);
    lemma_name_chars(suffix, 0);
    lemma_help_given(family);
    lemma_labels_valid(family);
    let start = prefix.push('_');
    assert(name[0] == start[0]);
    assert forall|i: int| 1 <= i < name.len() implies metric_name_start(#[trigger] name[i])
        || ascii_digit(name[i]) by {
        if i < start.len() {
            assert(name[i] == start[i]);
        } else {
            assert(name[i] == suffix[i - start.len()]);
        }
    }
}

proof fn lemma_suffixes_differ(a: Family, b: Family)
    requires
        a.suffix_text() == b.suffix_text(),
    ensures
        a == b,
{
    reveal_strlit("requests_total");
    reveal_strlit("inflight_requests");
    reveal_strlit("client_disconnects");
    reveal_strlit("queued_requests_total");
    reveal_strlit("request_duration_seconds");
    reveal_strlit("input_sequence_tokens");
    reveal_strlit("output_sequence_tokens");
    reveal_strlit("time_to_first_token_seconds");
    reveal_strlit("inter_token_latency_seconds");
    reveal_strlit("model_total_kv_blocks");
    reveal_strlit("model_max_num_seqs");
    reveal_strlit("model_max_num_batched_tokens");
    reveal_strlit("model_context_length");
    reveal_strlit("model_kv_cache_block_size");
    reveal_strlit("model_migration_limit");
    assert("requests_total"@.len() == 14);
    assert("requests_total"@[6] == 't');
    assert("requests_total"@[10] == 'o');
    assert("inflight_requests"@.len() == 17);
    assert("inflight_requests"@[6] == 'h');
    assert("inflight_requests"@[10] == 'e');
    assert("client_disconnects"@.len() == 18);
    assert("client_disconnects"@[6] == '_');
    assert("client_disconnects"@[10] == 'c');
    assert("queued_requests_total"@.len() == 21);
    assert("queued_requests_total"@[6] == '_');
    assert("queued_requests_total"@[10] == 'u');
    assert("request_duration_seconds"@.len() == 24);
    assert("request_duration_seconds"@[6] == 't');
    assert("request_duration_seconds"@[10] == 'r');
    assert("input_sequence_tokens"@.len() == 21);
    assert("input_sequence_tokens"@[6] == 's');
    assert("input_sequence_tokens"@[10] == 'e');
    assert("output_sequence_tokens"@.len() == 22);
    assert("output_sequence_tokens"@[6] == '_');
    assert("output_sequence_tokens"@[10] == 'u');
    assert("time_to_first_token_seconds"@.len() == 27);
    assert("time_to_first_token_seconds"@[6] == 'o');
    assert("time_to_first_token_seconds"@[10] == 'r');
    assert("inter_token_latency_seconds"@.len() == 27);
    assert("inter_token_latency_seconds"@[6] == 't');
    assert("inter_token_latency_seconds"@[10] == 'n');
    assert("model_total_kv_blocks"@.len() == 21);
    assert("model_total_kv_blocks"@[6] == 't');
    assert("model_total_kv_blocks"@[10] == 'l');
    assert("model_max_num_seqs"@.len() == 18);
    assert("model_max_num_seqs"@[6] == 'm');
    assert("model_max_num_seqs"@[10] == 'n');
    assert("model_max_num_batched_tokens"@.len() == 28);
    assert("model_max_num_batched_tokens"@[6] == 'm');
    assert("model_max_num_batched_tokens"@[10] == 'n');
    assert("model_context_length"@.len() == 20);
    assert("model_context_length"@[6] == 'c');
    assert("model_context_length"@[10] == 'e');
    assert("model_kv_cache_block_size"@.len() == 25);
    assert("model_kv_cache_block_size"@[6] == 'k');
    assert("model_kv_cache_block_size"@[10] == 'a');
    assert("model_migration_limit"@.len() == 21);
    assert("model_migration_limit"@[6] == 'm');
    assert("model_migration_limit"@[10] == 'a');
    let (s, t) = (a.suffix_text(), b.suffix_text());
    assert(s.len() == t.len() && s[6] == t[6] && s[10] == t[10]);
}

/// Under one prefix no two families have the same name.
pub proof fn family_names_differ(prefix: Seq<char>, a: Family, b: Family)
    requires
        a.about(prefix).name == b.about(prefix).name,
    ensures
        a == b,
{
    let start = prefix.push('_');
    assert(a.suffix_text() =~= (start + a.suffix_text()).skip(start.len() as int));
    assert(b.suffix_text() =~= (start + b.suffix_text()).skip(start.len() as int));
    lemma_suffixes_differ(a, b);
}

/// Every family is registered, and none twice.
pub proof fn registration_order_is_complete(family: Family)
    ensures
        Family::registration_order().contains(family),
        Family::registration_order().no_duplicates(),
{
    let order = Family::registration_order();
    assert(order.len() == 15);
    assert(order[0] == Family::RequestsTotal);
    assert(order[1] == Family::InflightRequests);
    assert(order[2] == Family::ClientDisconnects);
    assert(order[3] == Family::QueuedRequests);
    assert(order[4] == Family::RequestDuration);
    assert(order[5] == Family::InputSequence);
    assert(order[6] == Family::OutputSequence);
    assert(order[7] == Family::TimeToFirstToken);
    assert(order[8] == Family::InterTokenLatency);
    assert(order[9] == Family::ModelTotalKvBlocks);
    assert(order[10] == Family::ModelMaxNumSeqs);
    assert(order[11] == Family::ModelMaxNumBatchedTokens);
    assert(order[12] == Family::ModelContextLength);
    assert(order[13] == Family::ModelKvCacheBlockSize);
    assert(order[14] == Family::ModelMigrationLimit);
}

/// Registers every family by `register_one`, in the order of
/// [`Family::registration_order`]. The first registration that fails ends it, and
/// its error is returned.
pub fn register_in_order<F, E>(register_one: F) -> (r: Result<(), E>) where
    F: Fn(Family) -> Result<(), E>,

    requires
        forall|family: Family| #[trigger] register_one.requires((family,)),
    ensures
        match r {
            Ok(_) => forall|i: int|
                0 <= i < Family::registration_order().len() ==> register_one.ensures(
                    (#[trigger] Family::registration_order()[i],),
                    Ok(()),
                ),
            Err(error) => exists|k: int|
                #![trigger Family::registration_order()[k]]
                {
                    &&& 0 <= k < Family::registration_order().len()
                    &&& register_one.ensures((Family::registration_order()[k],), Err(error))
                    &&& forall|i: int|
                        0 <= i < k ==> register_one.ensures(
                            (#[trigger] Family::registration_order()[i],),
                            Ok(()),
                        )
                },
        },
{
    let all = Family::all();
    let mut i: usize = 0;
    while i < all.len()
        invariant
            i <= all.len(),
            all@ == Family::registration_order(),
            forall|family: Family| #[trigger] register_one.requires((family,)),
            forall|j: int|
                0 <= j < i ==> register_one.ensures(
                    (#[trigger] Family::registration_order()[j],),
                    Ok(()),
                ),
        decreases all.len() - i,
    {
        let outcome = register_one(all[i]);
        assert(register_one.ensures((Family::registration_order()[i as int],), outcome));
        match outcome {
            Ok(unit) => {
                assert(unit == ());
            },
            Err(error) => {
                return Err(error);
            },
        }
        i = i + 1;
    }
    Ok(())
}

/// The prefix of the metric names: the one from the environment, and the
/// standard one otherwise.
pub fn chosen_prefix(from_environment: Option<String>, standard: &str) -> (r: String)
    ensures
        r@ == match from_environment {
            Some(prefix) => prefix@,
            None => standard@,
        },
{
    match from_environment {
        Some(prefix) => prefix,
        None => standard.to_owned(),
    }
}

/// Whether `prefix` can start metric names, with an underscore behind it.
pub fn is_valid_prefix(prefix: &str) -> (r: bool)
    ensures
        r == valid_prefix(prefix@),
{
    let mut start = prefix.to_owned();
    start.append("_");
    proof {
        reveal_strlit("_");
        assert(prefix@ + "_"@ =~= prefix@.push('_'));
    }
    is_valid_metric_name(start.as_str())
}

/// Whether Prometheus takes `name` as a metric name.
pub fn is_valid_metric_name(name: &str) -> (r: bool)
    ensures
        r == valid_metric_name(name@),
{
    let len: usize = name.unicode_len();
    if len == 0 {
        return false;
    }
    let mut i: usize = 0;
    while i < len
        invariant
            len == name@.len(),
            0 <= i <= len,
            i > 0 ==> metric_name_start(name@[0]),
            forall|j: int|
                1 <= j < i ==> metric_name_start(#[trigger] name@[j]) || ascii_digit(name@[j]),
        decreases len - i,
    {
        let c = name.get_char(i);
        let letter = ('a' <= c && c <= 'z') || ('A' <= c && c <= 'Z') || c == '_' || c == ':';
        let digit = '0' <= c && c <= '9';
        if !letter && (i == 0 || !digit) {
            return false;
        }
        i = i + 1;
    }
    true
}

/// Under a prefix every family is published by the prefix, an underscore and its
/// own word.
pub proof fn families_have_their_names(family: Family, prefix: Seq<char>)
    ensures
        family is RequestsTotal ==> family.about(prefix).name
            == prefix + seq!['_'] + "requests_total"@,
        family is InflightRequests ==> family.about(prefix).name
            == prefix + seq!['_'] + "inflight_requests"@,
        family is ClientDisconnects ==> family.about(prefix).name
            == prefix + seq!['_'] + "client_disconnects"@,
        family is QueuedRequests ==> family.about(prefix).name
            == prefix + seq!['_'] + "queued_requests_total"@,
        family is RequestDuration ==> family.about(prefix).name
            == prefix + seq!['_'] + "request_duration_seconds"@,
        family is InputSequence ==> family.about(prefix).name
            == prefix + seq!['_'] + "input_sequence_tokens"@,
        family is OutputSequence ==> family.about(prefix).name
            == prefix + seq!['_'] + "output_sequence_tokens"@,
        family is TimeToFirstToken ==> family.about(prefix).name
            == prefix + seq!['_'] + "time_to_first_token_seconds"@,
        family is InterTokenLatency ==> family.about(prefix).name
            == prefix + seq!['_'] + "inter_token_latency_seconds"@,
        family is ModelTotalKvBlocks ==> family.about(prefix).name
            == prefix + seq!['_'] + "model_total_kv_blocks"@,
        family is ModelMaxNumSeqs ==> family.about(prefix).name
            == prefix + seq!['_'] + "model_max_num_seqs"@,
        family is ModelMaxNumBatchedTokens ==> family.about(prefix).name
            == prefix + seq!['_'] + "model_max_num_batched_tokens"@,
        family is ModelContextLength ==> family.about(prefix).name
            == prefix + seq!['_'] + "model_context_length"@,
        family is ModelKvCacheBlockSize ==> family.about(prefix).name
            == prefix + seq!['_'] + "model_kv_cache_block_size"@,
        family is ModelMigrationLimit ==> family.about(prefix).name
            == prefix + seq!['_'] + "model_migration_limit"@,
{
    assert(prefix.push('_') + "requests_total"@ =~= prefix + seq!['_'] + "requests_total"@);
    assert(prefix.push('_') + "inflight_requests"@ =~= prefix + seq!['_'] + "inflight_requests"@);
    assert(prefix.push('_') + "client_disconnects"@ =~= prefix + seq!['_'] + "client_disconnects"@);
    assert(prefix.push('_') + "queued_requests_total"@
        =~= prefix + seq!['_'] + "queued_requests_total"@);
    assert(prefix.push('_') + "request_duration_seconds"@
        =~= prefix + seq!['_'] + "request_duration_seconds"@);
    assert(prefix.push('_') + "input_sequence_tokens"@
        =~= prefix + seq!['_'] + "input_sequence_tokens"@);
    assert(prefix.push('_') + "output_sequence_tokens"@
        =~= prefix + seq!['_'] + "output_sequence_tokens"@);
    assert(prefix.push('_') + "time_to_first_token_seconds"@
        =~= prefix + seq!['_'] + "time_to_first_token_seconds"@);
    assert(prefix.push('_') + "inter_token_latency_seconds"@
        =~= prefix + seq!['_'] + "inter_token_latency_seconds"@);
    assert(prefix.push('_') + "model_total_kv_blocks"@
        =~= prefix + seq!['_'] + "model_total_kv_blocks"@);
    assert(prefix.push('_') + "model_max_num_seqs"@ =~= prefix + seq!['_'] + "model_max_num_seqs"@);
    assert(prefix.push('_') + "model_max_num_batched_tokens"@
        =~= prefix + seq!['_'] + "model_max_num_batched_tokens"@);
    assert(prefix.push('_') + "model_context_length"@
        =~= prefix + seq!['_'] + "model_context_length"@);
    assert(prefix.push('_') + "model_kv_cache_block_size"@
        =~= prefix + seq!['_'] + "model_kv_cache_block_size"@);
    assert(prefix.push('_') + "model_migration_limit"@
        =~= prefix + seq!['_'] + "model_migration_limit"@);
}

/// Every family says what it counts or measures.
pub proof fn families_have_their_help(family: Family, prefix: Seq<char>)
    ensures
        family is RequestsTotal ==> family.about(prefix).help
            == "Total number of LLM requests processed"@,
        family is InflightRequests ==> family.about(prefix).help
            == "Number of inflight requests"@,
        family is ClientDisconnects ==> family.about(prefix).help
            == "Number of connections dropped by clients"@,
        family is QueuedRequests ==> family.about(prefix).help
            == "Number of requests in HTTP processing queue"@,
        family is RequestDuration ==> family.about(prefix).help
            == "Duration of LLM requests"@,
        family is InputSequence ==> family.about(prefix).help
            == "Input sequence length in tokens"@,
        family is OutputSequence ==> family.about(prefix).help
            == "Output sequence length in tokens"@,
        family is TimeToFirstToken ==> family.about(prefix).help
            == "Time to first token in seconds"@,
        family is InterTokenLatency ==> family.about(prefix).help
            == "Inter-token latency in seconds"@,
        family is ModelTotalKvBlocks ==> family.about(prefix).help
            == "Total KV cache blocks available for a worker serving the model"@,
        family is ModelMaxNumSeqs ==> family.about(prefix).help
            == "Maximum number of sequences for a worker serving the model"@,
        family is ModelMaxNumBatchedTokens ==> family.about(prefix).help
            == "Maximum number of batched tokens for a worker serving the model"@,
        family is ModelContextLength ==> family.about(prefix).help
            == "Maximum context length in tokens for a worker serving the model"@,
        family is ModelKvCacheBlockSize ==> family.about(prefix).help
            == "KV cache block size in tokens for a worker serving the model"@,
        family is ModelMigrationLimit ==> family.about(prefix).help
            == "Maximum number of request migrations allowed for the model"@,
{
}

/// Everything is kept by model, but for the clients that disconnected, of which
/// there is one count; and requests also by where they went, how they were answered
/// and how they ended.
pub proof fn families_have_their_labels(family: Family, prefix: Seq<char>)
    ensures
        ({
            let labels = family.about(prefix).labels;
            &&& family is ClientDisconnects <==> labels.len() == 0
            &&& !(family is ClientDisconnects) ==> labels[0] == "model"@
            &&& family is RequestsTotal <==> labels.len() == 4
            &&& family is RequestsTotal ==> labels[1] == "endpoint"@ && labels[2]
                == "request_type"@ && labels[3] == "status"@
            &&& labels.len() <= 1 || family is RequestsTotal
        }),
{
}

/// The histograms are those of times and lengths, and they are the families with
/// buckets. The bounds of the buckets go up from zero.
pub proof fn histograms_have_buckets(family: Family)
    ensures
        family.is_histogram_family() <==> family is RequestDuration || family is InputSequence
            || family is OutputSequence || family is TimeToFirstToken
            || family is InterTokenLatency,
        family.is_histogram_family() <==> family.bucket_bounds().len() > 0,
        family.is_histogram_family() ==> family.bucket_bounds()[0] == 0,
        forall|i: int, j: int|
            0 <= i < j < family.bucket_bounds().len() ==> #[trigger] family.bucket_bounds()[i]
                < #[trigger] family.bucket_bounds()[j],
{
}

/// The bounds of each histogram's buckets, in thousandths of a second or of a
/// token.
pub proof fn buckets_have_their_bounds(family: Family, bound: u64)
    ensures
        family is RequestDuration ==> (family.bucket_bounds().contains(bound) <==> bound == 0
            || bound == 1000 || bound == 2000 || bound == 4000 || bound == 8000 || bound == 16000
            || bound == 32000 || bound == 64000 || bound == 128000 || bound == 256000),
        family is InputSequence ==> (family.bucket_bounds().contains(bound) <==> bound == 0
            || bound == 50000 || bound == 100000 || bound == 500000 || bound == 1000000 || bound
            == 2000000 || bound == 4000000 || bound == 8000000 || bound == 16000000 || bound
            == 32000000 || bound == 64000000 || bound == 128000000),
        family is OutputSequence ==> (family.bucket_bounds().contains(bound) <==> bound == 0
            || bound == 50000 || bound == 100000 || bound == 500000 || bound == 1000000 || bound
            == 2000000 || bound == 4000000 || bound == 8000000 || bound == 16000000 || bound
            == 32000000),
        family is TimeToFirstToken ==> (family.bucket_bounds().contains(bound) <==> bound == 0
            || bound == 1 || bound == 5 || bound == 10 || bound == 25 || bound == 50 || bound
            == 100 || bound == 250 || bound == 500 || bound == 1000 || bound == 2000 || bound
            == 5000 || bound == 10000 || bound == 30000 || bound == 60000 || bound == 120000
            || bound == 240000 || bound == 480000),
        family is InterTokenLatency ==> (family.bucket_bounds().contains(bound) <==> bound == 0
            || bound == 1 || bound == 5 || bound == 10 || bound == 15 || bound == 20 || bound == 25
            || bound == 50 || bound == 100 || bound == 250 || bound == 500 || bound == 1000
            || bound == 2000),
{
    match family {
        Family::RequestDuration => {
            let b = family.bucket_bounds();
            assert(b[0] == 0);
            assert(b[1] == 1000);
            assert(b[2] == 2000);
            assert(b[3] == 4000);
            assert(b[4] == 8000);
            assert(b[5] == 16000);
            assert(b[6] == 32000);
            assert(b[7] == 64000);
            assert(b[8] == 128000);
            assert(b[9] == 256000);
        },
        Family::InputSequence => {
            let b = family.bucket_bounds();
            assert(b[0] == 0);
            assert(b[1] == 50000);
            assert(b[2] == 100000);
            assert(b[3] == 500000);
            assert(b[4] == 1000000);
            assert(b[5] == 2000000);
            assert(b[6] == 4000000);
            assert(b[7] == 8000000);
            assert(b[8] == 16000000);
            assert(b[9] == 32000000);
            assert(b[10] == 64000000);
            assert(b[11] == 128000000);
        },
        Family::OutputSequence => {
            let b = family.bucket_bounds();
            assert(b[0] == 0);
            assert(b[1] == 50000);
            assert(b[2] == 100000);
            assert(b[3] == 500000);
            assert(b[4] == 1000000);
            assert(b[5] == 2000000);
            assert(b[6] == 4000000);
            assert(b[7] == 8000000);
            assert(b[8] == 16000000);
            assert(b[9] == 32000000);
        },
        Family::TimeToFirstToken => {
            let b = family.bucket_bounds();
            assert(b[0] == 0);
            assert(b[1] == 1);
            assert(b[2] == 5);
            assert(b[3] == 10);
            assert(b[4] == 25);
            assert(b[5] == 50);
            assert(b[6] == 100);
            assert(b[7] == 250);
            assert(b[8] == 500);
            assert(b[9] == 1000);
            assert(b[10] == 2000);
            assert(b[11] == 5000);
            assert(b[12] == 10000);
            assert(b[13] == 30000);
            assert(b[14] == 60000);
            assert(b[15] == 120000);
            assert(b[16] == 240000);
            assert(b[17] == 480000);
        },
        Family::InterTokenLatency => {
            let b = family.bucket_bounds();
            assert(b[0] == 0);
            assert(b[1] == 1);
            assert(b[2] == 5);
            assert(b[3] == 10);
            assert(b[4] == 15);
            assert(b[5] == 20);
            assert(b[6] == 25);
            assert(b[7] == 50);
            assert(b[8] == 100);
            assert(b[9] == 250);
            assert(b[10] == 500);
            assert(b[11] == 1000);
            assert(b[12] == 2000);
        },
        _ => {},
    }
}

/// What a family answers of itself is what it is made with: its name under a prefix,
/// its help, its labels and its buckets.
pub proof fn families_answer_what_they_are_made_with(
    family: &Family,
    prefix: &str,
    name: String,
    text: &'static str,
    labels: Vec<&'static str>,
    bounds: Vec<u64>,
    answer: bool,
)
    ensures
        Family::metric_name.ensures((family, prefix), name) ==> name@ == family.about(prefix@).name,
        Family::suffix.ensures((family,), text) ==> prefix@ + seq!['_'] + text@ == family.about(
            prefix@,
        ).name,
        Family::help.ensures((family,), text) ==> text@ == family.about(prefix@).help,
        Family::labels.ensures((family,), labels) ==> labels@.len() == family.about(
            prefix@,
        ).labels.len() && forall|i: int|
            0 <= i < labels@.len() ==> #[trigger] labels@[i]@ == family.about(prefix@).labels[i],
        Family::bucket_bounds_milli.ensures((family,), bounds) ==> bounds@
            == family.bucket_bounds(),
        Family::is_histogram.ensures((family,), answer) ==> (answer <==> family is RequestDuration
            || family is InputSequence || family is OutputSequence || family is TimeToFirstToken
            || family is InterTokenLatency),
{
    assert(prefix@.push('_') + text@ =~= prefix@ + seq!['_'] + text@);
    if Family::labels.ensures((family,), labels) {
        let said = labels@.map_values(|l: &str| l@);
        assert forall|i: int| 0 <= i < labels@.len() implies #[trigger] labels@[i]@
            == family.about(prefix@).labels[i] by {
            assert(said[i] == labels@[i]@);
        }
    }
}

/// The families are registered in this order, each of them once.
pub proof fn families_are_registered_in_order(all: Vec<Family>)
    requires
        Family::all.ensures((), all),
    ensures
        all@.len() == 15,
        all@[0] is RequestsTotal,
        all@[1] is InflightRequests,
        all@[2] is ClientDisconnects,
        all@[3] is QueuedRequests,
        all@[4] is RequestDuration,
        all@[5] is InputSequence,
        all@[6] is OutputSequence,
        all@[7] is TimeToFirstToken,
        all@[8] is InterTokenLatency,
        all@[9] is ModelTotalKvBlocks,
        all@[10] is ModelMaxNumSeqs,
        all@[11] is ModelMaxNumBatchedTokens,
        all@[12] is ModelContextLength,
        all@[13] is ModelKvCacheBlockSize,
        all@[14] is ModelMigrationLimit,
{
}

/// A prefix from the environment is taken, and the standard one only without it.
pub proof fn prefix_from_the_environment_counts(given: Option<String>, standard: &str, r: String)
    requires
        chosen_prefix.ensures((given, standard), r),
    ensures
        given matches Some(prefix) ==> r@ == prefix@,
        given is None ==> r@ == standard@,
{
}

/// A prefix can start names where it is empty or starts with a letter, an underscore or
/// a colon, and holds these and digits only.
pub proof fn valid_prefixes_are_words(prefix: &str, answer: bool)
    requires
        is_valid_prefix.ensures((prefix,), answer),
    ensures
        answer <==> forall|i: int|
            0 <= i < prefix@.len() ==> 'a' <= #[trigger] prefix@[i] <= 'z' || 'A' <= prefix@[i]
                <= 'Z' || prefix@[i] == '_' || prefix@[i] == ':' || (i > 0 && '0' <= prefix@[i]
                <= '9'),
{
    let name = prefix@.push('_');
    assert(forall|i: int| 0 <= i < prefix@.len() ==> #[trigger] name[i] == prefix@[i]);
    if !answer {
        if metric_name_start(name[0]) {
            let i = choose|i: int|
                1 <= i < name.len() && !(metric_name_start(#[trigger] name[i]) || ascii_digit(
                    name[i],
                ));
            assert(name[i] == prefix@[i]);
        } else {
            assert(name[0] == prefix@[0]);
        }
    } else {
        assert forall|i: int| 0 <= i < prefix@.len() implies 'a' <= #[trigger] prefix@[i] <= 'z'
            || 'A' <= prefix@[i] <= 'Z' || prefix@[i] == '_' || prefix@[i] == ':' || (i > 0 && '0'
            <= prefix@[i] <= '9') by {
            assert(name[i] == prefix@[i]);
        }
    }
}

/// Registering goes through the families in their order, and ends with the first error.
pub proof fn registering_ends_with_the_first_error<F, E>(register_one: F, r: Result<(), E>) where
    F: Fn(Family) -> Result<(), E>,

    requires
        register_in_order.ensures((register_one,), r),
    ensures
        r is Ok ==> forall|family: Family| #[trigger] register_one.ensures((family,), Ok(())),
        r matches Err(error) ==> exists|family: Family| #[trigger]
            register_one.ensures((family,), Err(error)),
{
    if r is Ok {
        assert forall|family: Family| #[trigger] register_one.ensures((family,), Ok(())) by {
            registration_order_is_complete(family);
            let i = Family::registration_order().index_of(family);
            assert(register_one.ensures((Family::registration_order()[i],), Ok(())));
        }
    }
}

} // verus!
