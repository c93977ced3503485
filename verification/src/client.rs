//! The settings of a Yellowstone client.
use crate::labels::{sanitize_metric_label, YellowstoneGrpcSubscriptionMetricsLabels, DEFAULT_METRICS_SUBSCRIPTION};
use crate::updates::UpdateType;
use std::collections::HashMap;
use std::time::Duration;
use vstd::prelude::*;

verus! {

/// Default timeout for detecting stale connections (30 seconds)
pub const DEFAULT_STREAM_TIMEOUT_SECS: u64 = 30;

/// Default limit on the time to connect, and on the time of a request.
pub const DEFAULT_REQUEST_TIMEOUT_SECS: u64 = 15;

/// The name of the one slot filter that every subscription asks for, to see the progress
/// of the source.
pub const SLOT_PROGRESS_FILTER: &'static str = "source_progress";

/// `yellowstone_grpc_proto::tonic::codec::CompressionEncoding`, carried through unread.
#[verifier::external_type_specification]
#[verifier::external_body]
pub struct ExCompressionEncoding(yellowstone_grpc_proto::tonic::codec::CompressionEncoding);

/// `yellowstone_grpc_proto::tonic::transport::ClientTlsConfig`, carried through unread.
#[verifier::external_type_specification]
#[verifier::external_body]
pub struct ExClientTlsConfig(yellowstone_grpc_proto::tonic::transport::ClientTlsConfig);

/// `yellowstone_grpc_proto::geyser::SubscribeRequestFilterAccounts`, carried through unread.
#[verifier::external_type_specification]
#[verifier::external_body]
pub struct ExSubscribeRequestFilterAccounts(yellowstone_grpc_proto::geyser::SubscribeRequestFilterAccounts);

/// `yellowstone_grpc_proto::geyser::SubscribeRequestFilterTransactions`, carried through
/// unread.
#[verifier::external_type_specification]
#[verifier::external_body]
pub struct ExSubscribeRequestFilterTransactions(yellowstone_grpc_proto::geyser::SubscribeRequestFilterTransactions);

/// `yellowstone_grpc_proto::geyser::SubscribeRequestFilterBlocks`, carried through unread.
#[verifier::external_type_specification]
#[verifier::external_body]
pub struct ExSubscribeRequestFilterBlocks(yellowstone_grpc_proto::geyser::SubscribeRequestFilterBlocks);

/// The duration of a whole number of seconds.
pub uninterp spec fn duration_of_secs(secs: u64) -> Duration;

/// `std::time::Duration::from_secs`: the duration depends on the number of seconds alone.
pub assume_specification[ Duration::from_secs ](secs: u64) -> (r: Duration)
    ensures
        r == duration_of_secs(secs),
;

/// How settled a slot has to be for its updates to be sent.
#[derive(Debug, Clone, Copy, PartialEq, Eq, Structural)]
pub enum CommitmentLevel {
    Processed,
    Confirmed,
    Finalized,
}

impl CommitmentLevel {
    /// The number of the level on the wire.
    pub open spec fn number(&self) -> i32 {
        match self {
            CommitmentLevel::Processed => 0,
            CommitmentLevel::Confirmed => 1,
            CommitmentLevel::Finalized => 2,
        }
    }

    /// The number of the level on the wire.
    pub fn code(&self) -> (r: i32)
        ensures
            r == self.number(),
    {
        match self {
            CommitmentLevel::Processed => 0,
            CommitmentLevel::Confirmed => 1,
            CommitmentLevel::Finalized => 2,
        }
    }
}

/// Which blocks to subscribe to, and what to keep of them.
#[derive(Debug, Clone)]
pub struct BlockFilters {
    pub filters: HashMap<String, yellowstone_grpc_proto::geyser::SubscribeRequestFilterBlocks>,
    pub failed_transactions: Option<bool>,
}

impl Default for BlockFilters {
    fn default() -> (r: Self)
        ensures
            r.filters@ == Map::<String, yellowstone_grpc_proto::geyser::SubscribeRequestFilterBlocks>::empty(),
            r.failed_transactions is None,
    {
        BlockFilters { filters: HashMap::new(), failed_transactions: None }
    }
}

impl BlockFilters {
    /// Whether the failed transactions of a block are kept; they are, unless said otherwise.
    pub open spec fn keeps_failed(&self) -> bool {
        match self.failed_transactions {
            Some(keep) => keep,
            None => true,
        }
    }

    /// Whether the failed transactions of a block are kept; they are, unless said otherwise.
    pub fn retain_failed_transactions(&self) -> (r: bool)
        ensures
            r == self.keeps_failed(),
    {
        self.failed_transactions.unwrap_or(true)
    }
}

/// How to connect.
#[derive(Debug, Clone)]
pub struct YellowstoneGrpcClientConfig {
    pub compression: Option<yellowstone_grpc_proto::tonic::codec::CompressionEncoding>,
    pub connect_timeout: Option<Duration>,
    pub timeout: Option<Duration>,
    pub max_decoding_message_size: Option<usize>,
    pub tls_config: Option<yellowstone_grpc_proto::tonic::transport::ClientTlsConfig>,
    pub tcp_nodelay: Option<bool>,
}

/// The TLS configuration of a connection. Every connection has one.
#[derive(Debug)]
pub enum TlsSetting<'a> {
    /// The one that is configured.
    Configured(&'a yellowstone_grpc_proto::tonic::transport::ClientTlsConfig),
    /// A default one, with the enabled root certificates.
    EnabledRoots,
}

/// What a connection is set up with.
#[derive(Debug)]
pub struct ConnectionSettings<'a> {
    pub connect_timeout: Duration,
    pub timeout: Duration,
    pub tls: TlsSetting<'a>,
    /// The encoding to send in.
    pub send_compressed: Option<&'a yellowstone_grpc_proto::tonic::codec::CompressionEncoding>,
    /// The encoding to accept.
    pub accept_compressed: Option<&'a yellowstone_grpc_proto::tonic::codec::CompressionEncoding>,
    pub max_decoding_message_size: Option<usize>,
    pub tcp_nodelay: Option<bool>,
}

impl Default for YellowstoneGrpcClientConfig {
    fn default() -> (r: Self)
        ensures
            r.compression is None,
            r.connect_timeout == Some(duration_of_secs(DEFAULT_REQUEST_TIMEOUT_SECS)),
            r.timeout == Some(duration_of_secs(DEFAULT_REQUEST_TIMEOUT_SECS)),
            r.max_decoding_message_size is None,
            r.tls_config is None,
            r.tcp_nodelay is None,
    {
        YellowstoneGrpcClientConfig {
            compression: None,
            connect_timeout: Some(Duration::from_secs(DEFAULT_REQUEST_TIMEOUT_SECS)),
            timeout: Some(Duration::from_secs(DEFAULT_REQUEST_TIMEOUT_SECS)),
            max_decoding_message_size: None,
            tls_config: None,
            tcp_nodelay: None,
        }
    }
}

/// A limit on a time, or the default one.
pub open spec fn timeout_or_default(timeout: Option<Duration>) -> Duration {
    match timeout {
        Some(timeout) => timeout,
        None => duration_of_secs(DEFAULT_REQUEST_TIMEOUT_SECS),
    }
}

impl YellowstoneGrpcClientConfig {
    pub fn new(
        compression: Option<yellowstone_grpc_proto::tonic::codec::CompressionEncoding>,
        connect_timeout: Option<Duration>,
        timeout: Option<Duration>,
        max_decoding_message_size: Option<usize>,
        tls_config: Option<yellowstone_grpc_proto::tonic::transport::ClientTlsConfig>,
        tcp_nodelay: Option<bool>,
    ) -> (r: Self)
        ensures
            r.compression == compression,
            r.connect_timeout == connect_timeout,
            r.timeout == timeout,
            r.max_decoding_message_size == max_decoding_message_size,
            r.tls_config == tls_config,
            r.tcp_nodelay == tcp_nodelay,
    {
        YellowstoneGrpcClientConfig {
            compression,
            connect_timeout,
            timeout,
            max_decoding_message_size,
            tls_config,
            tcp_nodelay,
        }
    }

    /// What a connection is set up with: the configured values; without them, the default
    /// limits on time and the enabled root certificates. An encoding is set for sending and
    /// for accepting alike. What is not set is left as the connection has it.
    pub fn geyser_config_builder(&self) -> (r: ConnectionSettings<'_>)
        ensures
            r.connect_timeout == timeout_or_default(self.connect_timeout),
            r.timeout == timeout_or_default(self.timeout),
            match self.tls_config {
                Some(tls) => r.tls == TlsSetting::Configured(&tls),
                None => r.tls == TlsSetting::EnabledRoots,
            },
            match self.compression {
                Some(encoding) => r.send_compressed == Some(&encoding) && r.accept_compressed == Some(&encoding),
                None => r.send_compressed is None && r.accept_compressed is None,
            },
            r.max_decoding_message_size == self.max_decoding_message_size,
            r.tcp_nodelay == self.tcp_nodelay,
    {
        ConnectionSettings {
            connect_timeout: match self.connect_timeout {
                Some(timeout) => timeout,
                None => Duration::from_secs(DEFAULT_REQUEST_TIMEOUT_SECS),
            },
            timeout: match self.timeout {
                Some(timeout) => timeout,
                None => Duration::from_secs(DEFAULT_REQUEST_TIMEOUT_SECS),
            },
            tls: match &self.tls_config {
                Some(tls) => TlsSetting::Configured(tls),
                None => TlsSetting::EnabledRoots,
            },
            send_compressed: self.compression.as_ref(),
            accept_compressed: self.compression.as_ref(),
            max_decoding_message_size: self.max_decoding_message_size,
            tcp_nodelay: self.tcp_nodelay,
        }
    }
}

/// What a subscription asks for, beside its filters of accounts, transactions and blocks.
#[derive(Debug, Clone, PartialEq, Eq)]
pub struct SubscriptionPlan {
    /// The name of the one slot filter.
    pub slot_filter: &'static str,
    /// The number of the commitment level.
    pub commitment: Option<i32>,
    /// The value of the `x-subscription-id` metadata.
    pub subscription_id: String,
}

/// A client of a Yellowstone stream.
#[derive(Debug)]
pub struct YellowstoneGrpcGeyserClient {
    pub endpoint: String,
    pub x_token: Option<String>,
    pub commitment: Option<CommitmentLevel>,
    pub account_filters: HashMap<String, yellowstone_grpc_proto::geyser::SubscribeRequestFilterAccounts>,
    pub transaction_filters: HashMap<String, yellowstone_grpc_proto::geyser::SubscribeRequestFilterTransactions>,
    pub block_filters: BlockFilters,
    pub geyser_config: YellowstoneGrpcClientConfig,
    /// Timeout for detecting hung/stale connections. Default: 30 seconds.
    pub stream_timeout: Duration,
    pub metrics_labels: YellowstoneGrpcSubscriptionMetricsLabels,
}

impl YellowstoneGrpcGeyserClient {
    /// Creates a client with optional stream timeout.
    /// If `stream_timeout` is None, defaults to 30 seconds.
    pub fn new(
        endpoint: String,
        x_token: Option<String>,
        commitment: Option<CommitmentLevel>,
        account_filters: HashMap<String, yellowstone_grpc_proto::geyser::SubscribeRequestFilterAccounts>,
        transaction_filters: HashMap<String, yellowstone_grpc_proto::geyser::SubscribeRequestFilterTransactions>,
        block_filters: BlockFilters,
        geyser_config: YellowstoneGrpcClientConfig,
        stream_timeout: Option<Duration>,
        environment_labels: YellowstoneGrpcSubscriptionMetricsLabels,
    ) -> (r: Self)
        ensures
            r.endpoint == endpoint,
            r.x_token == x_token,
            r.commitment == commitment,
            r.account_filters == account_filters,
            r.transaction_filters == transaction_filters,
            r.block_filters == block_filters,
            r.geyser_config == geyser_config,
            r.stream_timeout == match stream_timeout {
                Some(timeout) => timeout,
                None => duration_of_secs(DEFAULT_STREAM_TIMEOUT_SECS),
            },
            r.metrics_labels == environment_labels,
    {
        YellowstoneGrpcGeyserClient {
            endpoint,
            x_token,
            commitment,
            account_filters,
            transaction_filters,
            block_filters,
            geyser_config,
            stream_timeout: match stream_timeout {
                Some(timeout) => timeout,
                None => Duration::from_secs(DEFAULT_STREAM_TIMEOUT_SECS),
            },
            metrics_labels: environment_labels,
        }
    }

    /// The same client, with other labels on its metrics.
    pub fn with_metrics_labels(self, labels: YellowstoneGrpcSubscriptionMetricsLabels) -> (r: Self)
        ensures
            r.metrics_labels.made_of(labels.service@, labels.region@, labels.source@, labels.subscription@),
            r.metrics_labels.wf(),
            r.endpoint == self.endpoint,
            r.x_token == self.x_token,
            r.commitment == self.commitment,
            r.account_filters == self.account_filters,
            r.transaction_filters == self.transaction_filters,
            r.block_filters == self.block_filters,
            r.geyser_config == self.geyser_config,
            r.stream_timeout == self.stream_timeout,
    {
        let mut client = self;
        client.metrics_labels = labels.sanitized();
        client
    }

    /// What the subscription asks for, beside its filters.
    pub fn subscription_plan(&self) -> (r: SubscriptionPlan)
        ensures
            r.slot_filter == SLOT_PROGRESS_FILTER,
            r.commitment == match self.commitment {
                Some(level) => Some(level.number()),
                None => None,
            },
            r.subscription_id@ == crate::labels::sanitized_label(
                self.metrics_labels.subscription@,
                DEFAULT_METRICS_SUBSCRIPTION@,
            ),
            crate::labels::is_label(r.subscription_id@),
    {
        proof {
            crate::labels::law_defaults_are_labels();
            crate::labels::law_sanitized_is_label(self.metrics_labels.subscription@, DEFAULT_METRICS_SUBSCRIPTION@);
        }
        SubscriptionPlan {
            slot_filter: SLOT_PROGRESS_FILTER,
            commitment: match &self.commitment {
                Some(level) => Some(level.code()),
                None => None,
            },
            subscription_id: sanitize_metric_label(
                self.metrics_labels.subscription.as_str(),
                DEFAULT_METRICS_SUBSCRIPTION,
            ),
        }
    }

    /// The kinds of update that the client hands to the pipeline.
    pub fn update_types(&self) -> (r: Vec<UpdateType>)
        ensures
            r@ == seq![UpdateType::AccountUpdate, UpdateType::Transaction, UpdateType::AccountDeletion],
    {
        vec![UpdateType::AccountUpdate, UpdateType::Transaction, UpdateType::AccountDeletion]
    }
}

} // verus!
