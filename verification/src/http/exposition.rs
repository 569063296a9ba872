//! The page that shows the metrics.

use crate::calls::answer_to;
use vstd::prelude::*;
use vstd::string::*;
use vstd::utf8::{decode_utf8, valid_utf8};

verus! {

/// A family of series as it is read out.
#[verifier::external_type_specification]
#[verifier::external_body]
pub struct ExMetricFamily(prometheus::proto::MetricFamily);

/// The status of a page that could be made.
pub const STATUS_OK: u16 = 200;

/// The status of a page that could not be made.
pub const STATUS_INTERNAL_SERVER_ERROR: u16 = 500;

/// A page: a status and a text.
#[derive(Debug)]
pub struct MetricsPage {
    pub status: u16,
    pub body: String,
}

/// Reads every registered family: `prometheus::Registry::gather`. Nothing is
/// promised of what is read: it is what the series hold at that moment.
#[verifier::external_body]
pub(crate) fn gather(registry: &prometheus::Registry) -> (r: Vec<prometheus::proto::MetricFamily>) {
    registry.gather()
}

/// Whether a family is of no type.
pub uninterp spec fn untyped(family: prometheus::proto::MetricFamily) -> bool;

/// Whether a family is of no type: `prometheus::proto::MetricFamily::get_field_type`
/// gives `UNTYPED`.
#[verifier::external_body]
fn is_untyped(family: &prometheus::proto::MetricFamily) -> (r: bool)
    ensures
        r == untyped(*family),
{
    matches!(family.get_field_type(), prometheus::proto::MetricType::UNTYPED)
}

/// Whether `registry` may be read out as `families`.
pub closed spec fn may_gather(
    registry: &prometheus::Registry,
    families: Vec<prometheus::proto::MetricFamily>,
) -> bool {
    gather.ensures((registry,), families)
}

/// Families in the text format, where they can be written in it.
pub uninterp spec fn text_format(families: Seq<prometheus::proto::MetricFamily>) -> Option<Seq<u8>>;

/// Whether every family has a type.
pub open spec fn all_typed(families: Seq<prometheus::proto::MetricFamily>) -> bool {
    forall|i: int| 0 <= i < families.len() ==> !untyped(#[trigger] families[i])
}

/// The encoding of families: none where one of them has no type, and otherwise
/// the text format.
pub open spec fn encoding_of(families: Seq<prometheus::proto::MetricFamily>) -> Option<Seq<u8>> {
    if all_typed(families) {
        text_format(families)
    } else {
        None
    }
}

/// Writes families in the text format: `prometheus::TextEncoder::encode`, into
/// an empty buffer. What it writes, and whether it can, follows from the
/// families alone. It does not return on a family of no type.
#[verifier::external_body]
fn encode(families: &Vec<prometheus::proto::MetricFamily>) -> (r: Result<Vec<u8>, prometheus::Error>)
    requires
        all_typed(families@),
    ensures
        text_format(families@) == match r {
            Ok(bytes) => Some(bytes@),
            Err(_) => None,
        },
{
    let mut buffer = vec![];
    prometheus::Encoder::encode(&prometheus::TextEncoder::new(), families, &mut buffer)?;
    Ok(buffer)
}

/// The text of UTF-8 bytes, if they are UTF-8: `String::from_utf8`.
#[verifier::external_body]
fn utf8_text(bytes: Vec<u8>) -> (r: Option<String>)
    ensures
        r is Some <==> valid_utf8(bytes@),
        r matches Some(text) ==> text@ == decode_utf8(bytes@),
{
    String::from_utf8(bytes).ok()
}

/// The page for encoded metrics: the text, or an error where there are none or
/// they are no text.
pub open spec fn page_for(encoded: Option<Seq<u8>>, page: MetricsPage) -> bool {
    match encoded {
        Some(bytes) if valid_utf8(bytes) => {
            &&& page.status == STATUS_OK
            &&& page.body@ == decode_utf8(bytes)
        },
        _ => {
            &&& page.status == STATUS_INTERNAL_SERVER_ERROR
            &&& page.body@ == "Failed to encode metrics"@
        },
    }
}

/// Makes the page for encoded metrics; `None` stands for metrics that could not
/// be encoded.
pub fn metrics_page(encoded: Option<Vec<u8>>) -> (r: MetricsPage)
    ensures
        page_for(
            match encoded {
                Some(bytes) => Some(bytes@),
                None => None,
            },
            r,
        ),
{
    let text = match encoded {
        Some(bytes) => utf8_text(bytes),
        None => None,
    };
    match text {
        Some(body) => MetricsPage { status: STATUS_OK, body },
        None => MetricsPage {
            status: STATUS_INTERNAL_SERVER_ERROR,
            body: "Failed to encode metrics".to_owned(),
        },
    }
}

/// Whether every family has a type.
fn are_typed(families: &Vec<prometheus::proto::MetricFamily>) -> (r: bool)
    ensures
        r == all_typed(families@),
{
    let mut i: usize = 0;
    while i < families.len()
        invariant
            i <= families.len(),
            forall|j: int| 0 <= j < i ==> !untyped(#[trigger] families@[j]),
        decreases families.len() - i,
    {
        if is_untyped(&families[i]) {
            assert(untyped(families@[i as int]));
            return false;
        }
        i = i + 1;
    }
    true
}

/// The encoding of families, where they have one.
fn encode_families(families: &Vec<prometheus::proto::MetricFamily>) -> (r: Option<Vec<u8>>)
    ensures
        encoding_of(families@) == match r {
            Some(bytes) => Some(bytes@),
            None => None,
        },
{
    if !are_typed(families) {
        return None;
    }
    match encode(families) {
        Ok(bytes) => Some(bytes),
        Err(_) => None,
    }
}

/// Makes the page of what `registry` holds now: the families that it is read out
/// as, in the text format, or an error where they cannot be written in it.
pub fn handler_metrics(registry: &prometheus::Registry) -> (r: MetricsPage)
    ensures
        exists|families: Vec<prometheus::proto::MetricFamily>| #[trigger]
            may_gather(registry, families) && page_for(encoding_of(families@), r),
{
    let families = answer_to(gather, registry);
    assert(may_gather(registry, families));
    metrics_page(encode_families(&families))
}

/// The path of the page: the one asked for, and `/metrics` otherwise.
pub fn metrics_path(path: Option<String>) -> (r: String)
    ensures
        r@ == match path {
            Some(path) => path@,
            None => "/metrics"@,
        },
{
    match path {
        Some(path) => path,
        None => "/metrics".to_owned(),
    }
}

/// A page shows an encoding that is text, with status 200, and otherwise says with
/// status 500 that there is none, and shows no part of it.
pub proof fn pages_show_text_or_an_error(bytes: Seq<u8>, page: MetricsPage)
    ensures
        page_for(Some(bytes), page) && valid_utf8(bytes) ==> page.status == 200 && page.body@
            == decode_utf8(bytes),
        page_for(Some(bytes), page) && !valid_utf8(bytes) ==> page.status == 500 && page.body@
            == "Failed to encode metrics"@,
        page_for(None, page) ==> page.status == 500 && page.body@ == "Failed to encode metrics"@,
{
}

/// Families are encoded in the text format, all of them, unless one has no type.
pub proof fn families_are_encoded_together(families: Seq<prometheus::proto::MetricFamily>)
    ensures
        (exists|i: int| 0 <= i < families.len() && untyped(#[trigger] families[i]))
            ==> encoding_of(families) is None,
        (forall|i: int| 0 <= i < families.len() ==> !untyped(#[trigger] families[i]))
            ==> encoding_of(families) == text_format(families),
{
}

/// What a registry may be read out as is what it answers.
pub(crate) proof fn registry_is_read_out(
    registry: &prometheus::Registry,
    families: Vec<prometheus::proto::MetricFamily>,
)
    ensures
        may_gather(registry, families) <==> gather.ensures((registry,), families),
{
}

/// The page for encoded metrics: the text with status 200, and the same error with
/// status 500 where there are none or they are no text.
pub proof fn pages_are_made(encoded: Option<Vec<u8>>, r: MetricsPage)
    requires
        metrics_page.ensures((encoded,), r),
    ensures
        encoded matches Some(bytes) && valid_utf8(bytes@) ==> r.status == 200 && r.body@
            == decode_utf8(encoded->Some_0@),
        !(encoded matches Some(bytes) && valid_utf8(bytes@)) ==> r.status == 500 && r.body@
            == "Failed to encode metrics"@,
{
}

/// The page of a registry shows what the registry was read out as.
pub(crate) proof fn registries_are_shown(registry: &prometheus::Registry, r: MetricsPage)
    requires
        handler_metrics.ensures((registry,), r),
    ensures
        exists|families: Vec<prometheus::proto::MetricFamily>|
            {
                &&& #[trigger] gather.ensures((registry,), families)
                &&& r.status == 200 ==> (text_format(families@) matches Some(bytes) && r.body@
                    == decode_utf8(bytes))
                &&& r.status == 200 || (r.status == 500 && r.body@ == "Failed to encode metrics"@)
                &&& (forall|i: int| 0 <= i < families@.len() ==> !untyped(#[trigger] families@[i]))
                    && (text_format(families@) matches Some(bytes) && valid_utf8(bytes))
                    ==> r.status == 200
            },
{
    let families = choose|families: Vec<prometheus::proto::MetricFamily>| #[trigger]
        may_gather(registry, families) && page_for(encoding_of(families@), r);
    assert(gather.ensures((registry,), families));
}

/// The page is where it was asked for, and at `/metrics` otherwise.
pub proof fn pages_have_their_path(path: Option<String>, r: String)
    requires
        metrics_path.ensures((path,), r),
    ensures
        path matches Some(asked) ==> r@ == asked@,
        path is None ==> r@ == "/metrics"@,
{
}

} // verus!
