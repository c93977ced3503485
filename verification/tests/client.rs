use carbon_datasources::client::{
    BlockFilters, CommitmentLevel, TlsSetting, YellowstoneGrpcClientConfig, YellowstoneGrpcGeyserClient,
};
use carbon_datasources::labels::YellowstoneGrpcSubscriptionMetricsLabels;
use carbon_datasources::updates::UpdateType;
use std::collections::HashMap;
use std::time::Duration;
use yellowstone_grpc_proto::tonic::codec::CompressionEncoding;

fn client(stream_timeout: Option<Duration>) -> YellowstoneGrpcGeyserClient {
    YellowstoneGrpcGeyserClient::new(
        "http://localhost:10000".to_string(),
        Some("token".to_string()),
        Some(CommitmentLevel::Confirmed),
        HashMap::new(),
        HashMap::new(),
        BlockFilters::default(),
        YellowstoneGrpcClientConfig::default(),
        stream_timeout,
        YellowstoneGrpcSubscriptionMetricsLabels::new("svc", "eu", "src", "sub"),
    )
}

#[test]
fn a_client_times_out_after_thirty_seconds_unless_told() {
    assert_eq!(client(None).stream_timeout, Duration::from_secs(30));
    assert_eq!(client(Some(Duration::from_millis(7))).stream_timeout, Duration::from_millis(7));
}

#[test]
fn a_client_keeps_what_it_is_made_of() {
    let client = client(None);
    assert_eq!(client.endpoint, "http://localhost:10000");
    assert_eq!(client.x_token, Some("token".to_string()));
    assert_eq!(client.commitment, Some(CommitmentLevel::Confirmed));
    assert!(client.block_filters.filters.is_empty());
    assert_eq!(client.metrics_labels.subscription, "sub");
    assert_eq!(
        client.update_types(),
        vec![UpdateType::AccountUpdate, UpdateType::Transaction, UpdateType::AccountDeletion]
    );
}

#[test]
fn other_labels_are_sanitized() {
    let labels = YellowstoneGrpcSubscriptionMetricsLabels {
        service: "a b".to_string(),
        region: String::new(),
        source: "x".to_string(),
        subscription: " sub/1 ".to_string(),
    };
    let client = client(None).with_metrics_labels(labels);
    assert_eq!(client.metrics_labels.service, "a_b");
    assert_eq!(client.metrics_labels.region, "unknown");
    assert_eq!(client.metrics_labels.subscription, "sub_1");
    assert_eq!(client.endpoint, "http://localhost:10000");
}

#[test]
fn a_subscription_asks_for_one_slot_filter() {
    let plan = client(None).subscription_plan();
    assert_eq!(plan.slot_filter, "source_progress");
    assert_eq!(plan.commitment, Some(1));
    assert_eq!(plan.subscription_id, "sub");

    let mut other = client(None);
    other.commitment = None;
    other.metrics_labels.subscription = " ".to_string();
    let plan = other.subscription_plan();
    assert_eq!(plan.commitment, None);
    assert_eq!(plan.subscription_id, "default");
}

#[test]
fn commitment_levels_have_their_numbers() {
    assert_eq!(
        CommitmentLevel::Processed.code(),
        yellowstone_grpc_proto::geyser::CommitmentLevel::Processed as i32
    );
    assert_eq!(
        CommitmentLevel::Confirmed.code(),
        yellowstone_grpc_proto::geyser::CommitmentLevel::Confirmed as i32
    );
    assert_eq!(
        CommitmentLevel::Finalized.code(),
        yellowstone_grpc_proto::geyser::CommitmentLevel::Finalized as i32
    );
}

#[test]
fn the_default_connection_has_limits_of_fifteen_seconds() {
    let config = YellowstoneGrpcClientConfig::default();
    assert_eq!(config.connect_timeout, Some(Duration::from_secs(15)));
    assert_eq!(config.timeout, Some(Duration::from_secs(15)));
    assert!(config.compression.is_none());
    assert_eq!(config.max_decoding_message_size, None);
    assert!(config.tls_config.is_none());
    assert_eq!(config.tcp_nodelay, None);
}

#[test]
fn a_connection_uses_what_is_configured() {
    let unset = YellowstoneGrpcClientConfig::new(None, None, None, None, None, None);
    let settings = unset.geyser_config_builder();
    assert_eq!(settings.connect_timeout, Duration::from_secs(15));
    assert_eq!(settings.timeout, Duration::from_secs(15));
    assert!(matches!(settings.tls, TlsSetting::EnabledRoots));
    assert!(settings.send_compressed.is_none());
    assert!(settings.accept_compressed.is_none());
    assert_eq!(settings.max_decoding_message_size, None);
    assert_eq!(settings.tcp_nodelay, None);

    let set = YellowstoneGrpcClientConfig::new(
        Some(CompressionEncoding::Gzip),
        Some(Duration::from_secs(1)),
        Some(Duration::from_secs(2)),
        Some(3),
        Some(yellowstone_grpc_proto::tonic::transport::ClientTlsConfig::new()),
        Some(true),
    );
    let settings = set.geyser_config_builder();
    assert_eq!(settings.connect_timeout, Duration::from_secs(1));
    assert_eq!(settings.timeout, Duration::from_secs(2));
    assert!(matches!(settings.tls, TlsSetting::Configured(_)));
    assert_eq!(settings.send_compressed, Some(&CompressionEncoding::Gzip));
    assert_eq!(settings.accept_compressed, Some(&CompressionEncoding::Gzip));
    assert_eq!(settings.max_decoding_message_size, Some(3));
    assert_eq!(settings.tcp_nodelay, Some(true));
}

#[test]
fn failed_transactions_of_a_block_are_kept_unless_told() {
    let mut filters = BlockFilters::default();
    assert!(filters.retain_failed_transactions());
    filters.failed_transactions = Some(false);
    assert!(!filters.retain_failed_transactions());
    filters.failed_transactions = Some(true);
    assert!(filters.retain_failed_transactions());
}

#[test]
fn settings_can_be_cloned() {
    let config = YellowstoneGrpcClientConfig::new(None, None, Some(Duration::from_secs(2)), Some(3), None, None);
    let clone = config.clone();
    assert_eq!(clone.timeout, Some(Duration::from_secs(2)));
    assert_eq!(clone.max_decoding_message_size, Some(3));
    let filters = BlockFilters { filters: HashMap::new(), failed_transactions: Some(false) };
    assert_eq!(filters.clone().failed_transactions, Some(false));
}
