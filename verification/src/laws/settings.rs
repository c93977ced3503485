//! Labels and settings.
use crate::client::{BlockFilters, CommitmentLevel};
use crate::labels::YellowstoneGrpcSubscriptionMetricsLabels;
use std::time::Duration;
use vstd::prelude::*;

verus! {

/// The label of a value is its trimmed text, cut at 96 chars: each letter, digit, hyphen,
/// underscore, full stop and colon stays, and an underscore stands for every other char. A value
/// of white space alone makes the default.
pub proof fn law_label_char_by_char(value: Seq<char>, default: Seq<char>)
    ensures
        crate::text::trimmed(value).len() == 0 ==> crate::labels::sanitized_label(value, default) == default,
        crate::text::trimmed(value).len() > 0 ==> {
            let text = crate::text::trimmed(value);
            let label = crate::labels::sanitized_label(value, default);
            &&& text.len() <= 96 ==> label.len() == text.len()
            &&& text.len() > 96 ==> label.len() == 96
            &&& forall|i: int|
                0 <= i < label.len() ==> {
                    let kept = {
                        ||| '0' <= text[i] <= '9'
                        ||| 'A' <= text[i] <= 'Z'
                        ||| 'a' <= text[i] <= 'z'
                        ||| text[i] == '-'
                        ||| text[i] == '_'
                        ||| text[i] == '.'
                        ||| text[i] == ':'
                    };
                    &&& kept ==> #[trigger] label[i] == text[i]
                    &&& !kept ==> label[i] == '_'
                }
        },
{
}

/// A text can stand as a label exactly if it has 1 to 96 chars, all of them letters, digits,
/// hyphens, underscores, full stops and colons.
pub proof fn law_labels(text: Seq<char>)
    ensures
        crate::labels::is_label(text) <==> {
            &&& 1 <= text.len() <= 96
            &&& forall|i: int|
                0 <= i < text.len() ==> {
                    ||| '0' <= #[trigger] text[i] <= '9'
                    ||| 'A' <= text[i] <= 'Z'
                    ||| 'a' <= text[i] <= 'z'
                    ||| text[i] == '-'
                    ||| text[i] == '_'
                    ||| text[i] == '.'
                    ||| text[i] == ':'
                }
        },
{
    if forall|i: int|
        0 <= i < text.len() ==> {
            ||| '0' <= #[trigger] text[i] <= '9'
            ||| 'A' <= text[i] <= 'Z'
            ||| 'a' <= text[i] <= 'z'
            ||| text[i] == '-'
            ||| text[i] == '_'
            ||| text[i] == '.'
            ||| text[i] == ':'
        } {
        assert forall|i: int| 0 <= i < text.len() implies crate::labels::is_label_char(#[trigger] text[i]) by {}
    }
    if crate::labels::is_label(text) {
        assert forall|i: int| 0 <= i < text.len() implies {
            ||| '0' <= #[trigger] text[i] <= '9'
            ||| 'A' <= text[i] <= 'Z'
            ||| 'a' <= text[i] <= 'z'
            ||| text[i] == '-'
            ||| text[i] == '_'
            ||| text[i] == '.'
            ||| text[i] == ':'
        } by {
            assert(crate::labels::is_label_char(text[i]));
        }
    }
}

/// Of several settings the first counts that is there and holds more than white space.
pub proof fn law_first_setting_counts(values: Seq<Option<String>>, i: int)
    requires
        0 <= i < values.len(),
        values[i] matches Some(value) && crate::text::trimmed(value@).len() > 0,
        forall|j: int|
            0 <= j < i ==> (#[trigger] values[j] is None || crate::text::trimmed(values[j]->0@).len() == 0),
    ensures
        crate::labels::first_setting(values) == values[i]->0@,
    decreases i,
{
    if i > 0 {
        let rest = values.drop_first();
        assert(values[0] is None || crate::text::trimmed(values[0]->0@).len() == 0);
        assert(rest[i - 1] == values[i]);
        assert forall|j: int| 0 <= j < i - 1 implies (#[trigger] rest[j] is None || crate::text::trimmed(
            rest[j]->0@,
        ).len() == 0) by {
            assert(rest[j] == values[j + 1]);
        }
        law_first_setting_counts(rest, i - 1);
    }
}

/// Where no setting is there, or all hold white space alone, nothing is set.
pub proof fn law_no_setting_counts(values: Seq<Option<String>>)
    requires
        forall|j: int|
            0 <= j < values.len() ==> (#[trigger] values[j] is None || crate::text::trimmed(values[j]->0@).len()
                == 0),
    ensures
        crate::labels::first_setting(values).len() == 0,
    decreases values.len(),
{
    if values.len() > 0 {
        let rest = values.drop_first();
        assert(values[0] is None || crate::text::trimmed(values[0]->0@).len() == 0);
        assert forall|j: int| 0 <= j < rest.len() implies (#[trigger] rest[j] is None || crate::text::trimmed(
            rest[j]->0@,
        ).len() == 0) by {
            assert(rest[j] == values[j + 1]);
        }
        law_no_setting_counts(rest);
    }
}

/// Each part of the labels of a subscription is made of its own value, and has its own default.
pub proof fn law_labels_are_made_of_their_values(
    labels: YellowstoneGrpcSubscriptionMetricsLabels,
    service: Seq<char>,
    region: Seq<char>,
    source: Seq<char>,
    subscription: Seq<char>,
)
    requires
        labels.made_of(service, region, source, subscription),
    ensures
        labels.service@ == crate::labels::sanitized_label(service, "unknown"@),
        labels.region@ == crate::labels::sanitized_label(region, "unknown"@),
        labels.source@ == crate::labels::sanitized_label(source, "yellowstone-grpc"@),
        labels.subscription@ == crate::labels::sanitized_label(subscription, "default"@),
{
}

/// The labels of every metric of a subscription are its four parts, under their names.
pub proof fn law_connection_labels(labels: YellowstoneGrpcSubscriptionMetricsLabels)
    ensures
        labels.connection_labels().len() == 4,
        labels.connection_labels()[0] == crate::labels::metric_label("service"@, labels.service@),
        labels.connection_labels()[1] == crate::labels::metric_label("region"@, labels.region@),
        labels.connection_labels()[2] == crate::labels::metric_label("source"@, labels.source@),
        labels.connection_labels()[3] == crate::labels::metric_label("subscription"@, labels.subscription@),
{
}

/// The settings of a client that hold unless said otherwise.
pub proof fn law_client_defaults(timeout: Duration)
    ensures
        crate::client::timeout_or_default(None) == crate::client::duration_of_secs(15),
        crate::client::timeout_or_default(Some(timeout)) == timeout,
        crate::client::DEFAULT_STREAM_TIMEOUT_SECS == 30,
        crate::client::DEFAULT_REQUEST_TIMEOUT_SECS == 15,
        crate::client::SLOT_PROGRESS_FILTER == "source_progress",
{
}

/// The numbers of the commitment levels.
pub proof fn law_commitment_numbers()
    ensures
        CommitmentLevel::Processed.number() == 0,
        CommitmentLevel::Confirmed.number() == 1,
        CommitmentLevel::Finalized.number() == 2,
{
}

/// The failed transactions of blocks are left out exactly where that is asked for.
pub proof fn law_failed_transactions_are_kept_by_default(filters: BlockFilters)
    ensures
        filters.keeps_failed() <==> filters.failed_transactions != Some(false),
{
}

} // verus!
