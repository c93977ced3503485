//! Labels, settings and error texts, over what they are made of.
use crate::client::{
    BlockFilters, CommitmentLevel, ConnectionSettings, SubscriptionPlan, TlsSetting, YellowstoneGrpcClientConfig,
    YellowstoneGrpcGeyserClient,
};
use crate::delivery::{TransactionUpdateRejection, TransactionVersion};
use crate::error::{ConversionError, MessageErrorKind};
use crate::labels::{LabelPart, YellowstoneGrpcSubscriptionMetricsLabels};
use crate::output::AuthoritativeOutputError;
use crate::updates::UpdateType;
use std::collections::HashMap;
use std::time::Duration;
use vstd::prelude::*;

verus! {

/// A text is blank exactly if it is white space alone.
pub proof fn law_is_blank(text: &str, r: bool)
    requires
        call_ensures(crate::text::is_blank, (text,), r),
    ensures
        r ==> forall|i: int| 0 <= i < text@.len() ==> crate::text::is_white_space(#[trigger] text@[i]),
        !r ==> exists|i: int| 0 <= i < text@.len() && !crate::text::is_white_space(#[trigger] text@[i]),
{
    crate::laws::numbers::law_trimmed_is_the_middle(text@);
    let (start, end) = choose|start: int, end: int|
        #![trigger text@.subrange(start, end)]
        {
            &&& 0 <= start <= end <= text@.len()
            &&& crate::text::trimmed(text@) == text@.subrange(start, end)
            &&& forall|i: int| 0 <= i < start ==> crate::text::is_white_space(#[trigger] text@[i])
            &&& forall|i: int| end <= i < text@.len() ==> crate::text::is_white_space(#[trigger] text@[i])
        };
    if !r {
        assert(crate::text::trimmed(text@)[0] == text@[start]);
    }
}

/// The label of a value: its trimmed text, cut at 96 chars, with an underscore for every char
/// that is no letter, digit, hyphen, underscore, full stop or colon; the default for a blank
/// value.
pub proof fn law_sanitize_metric_label(value: &str, default: &str, r: String)
    requires
        call_ensures(crate::labels::sanitize_metric_label, (value, default), r),
    ensures
        crate::text::trimmed(value@).len() == 0 ==> r@ == default@,
        crate::text::trimmed(value@).len() > 0 ==> {
            let text = crate::text::trimmed(value@);
            &&& text.len() <= 96 ==> r@.len() == text.len()
            &&& text.len() > 96 ==> r@.len() == 96
            &&& forall|i: int|
                0 <= i < r@.len() ==> {
                    let kept = {
                        ||| '0' <= text[i] <= '9'
                        ||| 'A' <= text[i] <= 'Z'
                        ||| 'a' <= text[i] <= 'z'
                        ||| text[i] == '-'
                        ||| text[i] == '_'
                        ||| text[i] == '.'
                        ||| text[i] == ':'
                    };
                    &&& kept ==> #[trigger] r@[i] == text[i]
                    &&& !kept ==> r@[i] == '_'
                }
        },
{
    crate::laws::settings::law_label_char_by_char(value@, default@);
}

/// Of several settings the first counts that is there and not blank.
pub proof fn law_first_env_label(values: &Vec<Option<String>>, i: int, r: String)
    requires
        call_ensures(crate::labels::first_env_label, (values,), r),
        0 <= i < values@.len(),
        values@[i] matches Some(value) && crate::text::trimmed(value@).len() > 0,
        forall|j: int|
            0 <= j < i ==> (#[trigger] values@[j] is None || crate::text::trimmed(values@[j]->0@).len() == 0),
    ensures
        r@ == values@[i]->0@,
{
    crate::laws::settings::law_first_setting_counts(values@, i);
}

/// Where no setting is there, or all are blank, none counts.
pub proof fn law_first_env_label_of_none(values: &Vec<Option<String>>, r: String)
    requires
        call_ensures(crate::labels::first_env_label, (values,), r),
        forall|j: int|
            0 <= j < values@.len() ==> (#[trigger] values@[j] is None || crate::text::trimmed(values@[j]->0@).len()
                == 0),
    ensures
        r@.len() == 0,
{
    crate::laws::settings::law_no_setting_counts(values@);
}

/// The environment variables of each part of the labels, in order of precedence.
pub proof fn law_env_names(part: LabelPart, r: Vec<&'static str>)
    requires
        call_ensures(crate::labels::env_names, (part,), r),
    ensures
        part == LabelPart::Service ==> r@.len() == 3 && r@[0] == "SERVICE_NAME" && r@[1] == "OTEL_SERVICE_NAME"
            && r@[2] == "K_SERVICE",
        part == LabelPart::Region ==> r@.len() == 3 && r@[0] == "REGION" && r@[1] == "GCP_REGION" && r@[2]
            == "AWS_REGION",
        part == LabelPart::Source ==> r@.len() == 2 && r@[0] == "YELLOWSTONE_SOURCE_NAME" && r@[1]
            == "GEYSER_SOURCE_NAME",
        part == LabelPart::Subscription ==> r@.len() == 2 && r@[0] == "YELLOWSTONE_SUBSCRIPTION_NAME" && r@[1]
            == "GEYSER_SUBSCRIPTION_NAME",
{
}

/// Each part of the labels is made of its own value, and has its own default; labels that are
/// made anew are made of the parts of the old ones, and those of the environment of the settings
/// that count.
pub proof fn law_labels_of_a_subscription(
    service: &str,
    region: &str,
    source: &str,
    subscription: &str,
    labels: YellowstoneGrpcSubscriptionMetricsLabels,
    again: YellowstoneGrpcSubscriptionMetricsLabels,
)
    requires
        call_ensures(
            YellowstoneGrpcSubscriptionMetricsLabels::new,
            (service, region, source, subscription),
            labels,
        ),
        call_ensures(YellowstoneGrpcSubscriptionMetricsLabels::sanitized, (labels,), again),
    ensures
        labels.service@ == crate::labels::sanitized_label(service@, "unknown"@),
        labels.region@ == crate::labels::sanitized_label(region@, "unknown"@),
        labels.source@ == crate::labels::sanitized_label(source@, "yellowstone-grpc"@),
        labels.subscription@ == crate::labels::sanitized_label(subscription@, "default"@),
        again.service@ == labels.service@,
        again.region@ == labels.region@,
        again.source@ == labels.source@,
        again.subscription@ == labels.subscription@,
{
    crate::laws::settings::law_labels_are_made_of_their_values(
        labels,
        service@,
        region@,
        source@,
        subscription@,
    );
    crate::labels::law_sanitized_labels_are_kept(labels, again);
}

/// The labels of the environment: each part is made of the setting of its own that counts.
pub proof fn law_labels_of_the_environment(
    service: &Vec<Option<String>>,
    region: &Vec<Option<String>>,
    source: &Vec<Option<String>>,
    subscription: &Vec<Option<String>>,
    labels: YellowstoneGrpcSubscriptionMetricsLabels,
)
    requires
        call_ensures(
            YellowstoneGrpcSubscriptionMetricsLabels::from_environment,
            (service, region, source, subscription),
            labels,
        ),
    ensures
        labels.service@ == crate::labels::sanitized_label(crate::labels::first_setting(service@), "unknown"@),
        labels.region@ == crate::labels::sanitized_label(crate::labels::first_setting(region@), "unknown"@),
        labels.source@ == crate::labels::sanitized_label(crate::labels::first_setting(source@), "yellowstone-grpc"@),
        labels.subscription@ == crate::labels::sanitized_label(
            crate::labels::first_setting(subscription@),
            "default"@,
        ),
{
}

/// The labels of the metrics: the four parts of the subscription, and behind them what the
/// metric counts.
pub proof fn law_metric_labels(
    labels: &YellowstoneGrpcSubscriptionMetricsLabels,
    connection: Vec<metrics::Label>,
    update_type: &'static str,
    updates: Vec<metrics::Label>,
    version: TransactionVersion,
    rejection: &TransactionUpdateRejection,
    rejections: Vec<metrics::Label>,
    error: &AuthoritativeOutputError,
    failures: Vec<metrics::Label>,
)
    requires
        call_ensures(crate::labels::ingress_connection_metric_labels, (labels,), connection),
        call_ensures(crate::labels::ingress_update_metric_labels, (labels, update_type), updates),
        call_ensures(crate::labels::rejection_metric_labels, (labels, version, rejection), rejections),
        call_ensures(crate::labels::output_failure_metric_labels, (labels, error), failures),
    ensures
        connection@.len() == 4,
        connection@[0] == crate::labels::metric_label("service"@, labels.service@),
        connection@[1] == crate::labels::metric_label("region"@, labels.region@),
        connection@[2] == crate::labels::metric_label("source"@, labels.source@),
        connection@[3] == crate::labels::metric_label("subscription"@, labels.subscription@),
        updates@ == connection@.push(crate::labels::metric_label("update_type"@, update_type@)),
        rejections@ == connection@.push(
            crate::labels::metric_label("transaction_version"@, version.label()@),
        ).push(crate::labels::metric_label("reason"@, rejection.label()@)),
        failures@ == connection@.push(
            crate::labels::metric_label("update_type"@, error.lost_type().name_text()),
        ).push(crate::labels::metric_label("channel"@, error.state_label()@)),
{
}

/// What a connection is set up with: what is configured, and without it 15 seconds for each
/// limit and the enabled root certificates. An encoding is set both ways.
pub proof fn law_geyser_config_builder(config: &YellowstoneGrpcClientConfig, r: ConnectionSettings<'_>)
    requires
        call_ensures(YellowstoneGrpcClientConfig::geyser_config_builder, (config,), r),
    ensures
        config.connect_timeout is None ==> r.connect_timeout == crate::client::duration_of_secs(15),
        config.connect_timeout matches Some(timeout) ==> r.connect_timeout == timeout,
        config.timeout is None ==> r.timeout == crate::client::duration_of_secs(15),
        config.timeout matches Some(timeout) ==> r.timeout == timeout,
        config.tls_config is None ==> r.tls is EnabledRoots,
        config.tls_config matches Some(tls) ==> r.tls == TlsSetting::Configured(&tls),
        config.compression is None ==> r.send_compressed is None && r.accept_compressed is None,
        config.compression matches Some(encoding) ==> r.send_compressed == Some(&encoding) && r.accept_compressed
            == Some(&encoding),
        r.max_decoding_message_size == config.max_decoding_message_size,
        r.tcp_nodelay == config.tcp_nodelay,
{
}

/// What a subscription asks for: the slots of the source, the commitment that is set, and the
/// name of the subscription.
pub proof fn law_subscription_plan(
    client: &YellowstoneGrpcGeyserClient,
    plan: SubscriptionPlan,
    kinds: Vec<UpdateType>,
)
    requires
        call_ensures(YellowstoneGrpcGeyserClient::subscription_plan, (client,), plan),
        call_ensures(YellowstoneGrpcGeyserClient::update_types, (client,), kinds),
    ensures
        plan.slot_filter == "source_progress",
        client.commitment is None ==> plan.commitment is None,
        client.commitment == Some(CommitmentLevel::Processed) ==> plan.commitment == Some(0i32),
        client.commitment == Some(CommitmentLevel::Confirmed) ==> plan.commitment == Some(1i32),
        client.commitment == Some(CommitmentLevel::Finalized) ==> plan.commitment == Some(2i32),
        plan.subscription_id@ == crate::labels::sanitized_label(client.metrics_labels.subscription@, "default"@),
        kinds@.len() == 3,
        kinds@[0] == UpdateType::AccountUpdate,
        kinds@[1] == UpdateType::Transaction,
        kinds@[2] == UpdateType::AccountDeletion,
{
}

/// A client keeps what it is made of, and times out after 30 seconds unless said otherwise.
pub proof fn law_new_client(
    endpoint: String,
    x_token: Option<String>,
    commitment: Option<CommitmentLevel>,
    account_filters: HashMap<String, yellowstone_grpc_proto::geyser::SubscribeRequestFilterAccounts>,
    transaction_filters: HashMap<String, yellowstone_grpc_proto::geyser::SubscribeRequestFilterTransactions>,
    block_filters: BlockFilters,
    config: YellowstoneGrpcClientConfig,
    stream_timeout: Option<Duration>,
    labels: YellowstoneGrpcSubscriptionMetricsLabels,
    r: YellowstoneGrpcGeyserClient,
)
    requires
        call_ensures(
            YellowstoneGrpcGeyserClient::new,
            (
                endpoint,
                x_token,
                commitment,
                account_filters,
                transaction_filters,
                block_filters,
                config,
                stream_timeout,
                labels,
            ),
            r,
        ),
    ensures
        r.endpoint == endpoint,
        r.x_token == x_token,
        r.commitment == commitment,
        r.account_filters == account_filters,
        r.transaction_filters == transaction_filters,
        r.block_filters == block_filters,
        r.geyser_config == config,
        stream_timeout is None ==> r.stream_timeout == crate::client::duration_of_secs(30),
        stream_timeout matches Some(timeout) ==> r.stream_timeout == timeout,
        r.metrics_labels == labels,
{
}

/// A configuration keeps what it is made of.
pub proof fn law_new_config(
    compression: Option<yellowstone_grpc_proto::tonic::codec::CompressionEncoding>,
    connect_timeout: Option<Duration>,
    timeout: Option<Duration>,
    max_decoding_message_size: Option<usize>,
    tls_config: Option<yellowstone_grpc_proto::tonic::transport::ClientTlsConfig>,
    tcp_nodelay: Option<bool>,
    r: YellowstoneGrpcClientConfig,
)
    requires
        call_ensures(
            YellowstoneGrpcClientConfig::new,
            (compression, connect_timeout, timeout, max_decoding_message_size, tls_config, tcp_nodelay),
            r,
        ),
    ensures
        r.compression == compression,
        r.connect_timeout == connect_timeout,
        r.timeout == timeout,
        r.max_decoding_message_size == max_decoding_message_size,
        r.tls_config == tls_config,
        r.tcp_nodelay == tcp_nodelay,
{
}

/// Unless said otherwise, a configuration has 15 seconds for each limit and nothing else, and
/// no block is filtered.
pub proof fn law_default_settings(config: YellowstoneGrpcClientConfig, filters: BlockFilters)
    requires
        call_ensures(<YellowstoneGrpcClientConfig as Default>::default, (), config),
        call_ensures(<BlockFilters as Default>::default, (), filters),
    ensures
        config.compression is None,
        config.connect_timeout == Some(crate::client::duration_of_secs(15)),
        config.timeout == Some(crate::client::duration_of_secs(15)),
        config.max_decoding_message_size is None,
        config.tls_config is None,
        config.tcp_nodelay is None,
        filters.filters@.len() == 0,
        filters.failed_transactions is None,
{
}

/// With other labels a client is the same client, with the labels that those make.
pub proof fn law_with_metrics_labels(
    client: YellowstoneGrpcGeyserClient,
    labels: YellowstoneGrpcSubscriptionMetricsLabels,
    r: YellowstoneGrpcGeyserClient,
)
    requires
        call_ensures(YellowstoneGrpcGeyserClient::with_metrics_labels, (client, labels), r),
    ensures
        r.metrics_labels.service@ == crate::labels::sanitized_label(labels.service@, "unknown"@),
        r.metrics_labels.region@ == crate::labels::sanitized_label(labels.region@, "unknown"@),
        r.metrics_labels.source@ == crate::labels::sanitized_label(labels.source@, "yellowstone-grpc"@),
        r.metrics_labels.subscription@ == crate::labels::sanitized_label(labels.subscription@, "default"@),
        r.endpoint == client.endpoint,
        r.x_token == client.x_token,
        r.commitment == client.commitment,
        r.account_filters == client.account_filters,
        r.transaction_filters == client.transaction_filters,
        r.block_filters == client.block_filters,
        r.geyser_config == client.geyser_config,
        r.stream_timeout == client.stream_timeout,
{
}

/// The failed transactions of blocks are left out exactly where that is asked for.
pub proof fn law_retain_failed_transactions(filters: &BlockFilters, r: bool)
    requires
        call_ensures(BlockFilters::retain_failed_transactions, (filters,), r),
    ensures
        r <==> filters.failed_transactions != Some(false),
{
}

/// The number of a commitment level.
pub proof fn law_commitment_code(level: &CommitmentLevel, r: i32)
    requires
        call_ensures(CommitmentLevel::code, (level,), r),
    ensures
        *level is Processed ==> r == 0,
        *level is Confirmed ==> r == 1,
        *level is Finalized ==> r == 2,
{
}

/// The rule that an error names, if it names one.
pub proof fn law_v1_kind(error: &ConversionError, kind: MessageErrorKind, r: Option<MessageErrorKind>)
    requires
        call_ensures(ConversionError::v1_kind, (error,), r),
    ensures
        r is Some <==> *error is InvalidV1Message,
        *error == ConversionError::InvalidV1Message(crate::error::message_error(kind)) ==> r == Some(kind),
{
}

/// The text of an error of a conversion.
pub proof fn law_describe_error(error: &ConversionError, r: String)
    requires
        call_ensures(ConversionError::describe, (error,), r),
    ensures
        *error matches ConversionError::Legacy(message) ==> r@ == message@,
        *error matches ConversionError::InvalidV1Message(rule) ==> r@ == "invalid V1 message: "@
            + crate::error::message_error_text(rule),
        *error is V1AddressTableLookups ==> r@ == "V1 messages cannot contain address table lookups"@,
        *error is V1TransactionTooLarge ==> r@ == "V1 transaction exceeds the 4096-byte wire limit"@,
        *error is InvalidV1SignatureCount ==> r@ == "V1 signature count does not match the message header"@,
{
}

} // verus!
