use carbon_datasources::delivery::{TransactionUpdateRejection, TransactionVersion};
use carbon_datasources::labels::{
    env_names, first_env_label, ingress_connection_metric_labels, ingress_update_metric_labels,
    output_failure_metric_labels, rejection_metric_labels, sanitize_metric_label, LabelPart, YellowstoneGrpcSubscriptionMetricsLabels,
};
use carbon_datasources::output::AuthoritativeOutputError;
use carbon_datasources::updates::UpdateType;

fn setting(value: &str) -> Option<String> {
    Some(value.to_string())
}

fn label(name: &'static str, value: &str) -> metrics::Label {
    metrics::Label::new(name, value.to_string())
}

#[test]
fn a_label_keeps_its_chars_and_replaces_the_rest() {
    assert_eq!(sanitize_metric_label("  eu-west_1.a:b ", "none"), "eu-west_1.a:b");
    assert_eq!(sanitize_metric_label("a b/c\u{e9}", "none"), "a_b_c_");
}

#[test]
fn a_blank_label_is_the_default() {
    assert_eq!(sanitize_metric_label("", "none"), "none");
    assert_eq!(sanitize_metric_label(" \t\u{3000}\n", "none"), "none");
}

#[test]
fn a_label_is_cut_at_its_greatest_length() {
    let long = "x".repeat(97);
    assert_eq!(sanitize_metric_label(&long, "none"), "x".repeat(96));
    let wide = "\u{e9}".repeat(200);
    assert_eq!(sanitize_metric_label(&wide, "none"), "_".repeat(96));
}

#[test]
fn a_label_is_sanitized_once() {
    for value in [" a b ", "", "x:y", "\u{e9}\u{e9}"] {
        let once = sanitize_metric_label(value, "none");
        assert_eq!(sanitize_metric_label(&once, "none"), once);
    }
}

#[test]
fn labels_have_their_defaults() {
    let labels = YellowstoneGrpcSubscriptionMetricsLabels::new("", " ", "", "");
    assert_eq!(labels.service, "unknown");
    assert_eq!(labels.region, "unknown");
    assert_eq!(labels.source, "yellowstone-grpc");
    assert_eq!(labels.subscription, "default");
    assert_eq!(labels.clone().sanitized(), labels);
}

#[test]
fn the_first_setting_that_is_not_blank_counts() {
    assert_eq!(first_env_label(&vec![None, setting("  "), setting(" b "), setting("c")]), " b ");
    assert_eq!(first_env_label(&vec![None, setting("")]), "");
    assert_eq!(first_env_label(&vec![]), "");
}

#[test]
fn the_environment_sets_the_labels() {
    let labels = YellowstoneGrpcSubscriptionMetricsLabels::from_environment(
        &vec![None, setting("indexer")],
        &vec![setting(" "), None, setting("eu 1")],
        &vec![None, None],
        &vec![setting("swaps"), setting("other")],
    );
    assert_eq!(
        labels,
        YellowstoneGrpcSubscriptionMetricsLabels::new("indexer", "eu_1", "yellowstone-grpc", "swaps")
    );
    assert_eq!(env_names(LabelPart::Service), vec!["SERVICE_NAME", "OTEL_SERVICE_NAME", "K_SERVICE"]);
    assert_eq!(env_names(LabelPart::Region), vec!["REGION", "GCP_REGION", "AWS_REGION"]);
    assert_eq!(env_names(LabelPart::Source), vec!["YELLOWSTONE_SOURCE_NAME", "GEYSER_SOURCE_NAME"]);
    assert_eq!(
        env_names(LabelPart::Subscription),
        vec!["YELLOWSTONE_SUBSCRIPTION_NAME", "GEYSER_SUBSCRIPTION_NAME"]
    );
}

#[test]
fn metrics_carry_the_labels_of_their_subscription() {
    let labels = YellowstoneGrpcSubscriptionMetricsLabels::new("a", "b", "c", "d");
    let connection = vec![
        label("service", "a"),
        label("region", "b"),
        label("source", "c"),
        label("subscription", "d"),
    ];
    assert_eq!(ingress_connection_metric_labels(&labels), connection);
    assert_eq!(connection[1].key(), "region");
    assert_eq!(connection[1].value(), "b");

    let mut update = connection.clone();
    update.push(label("update_type", "slot"));
    assert_eq!(ingress_update_metric_labels(&labels, "slot"), update);

    let mut rejection = connection;
    rejection.push(label("transaction_version", "v1"));
    rejection.push(label("reason", "missing_meta"));
    assert_eq!(rejection_metric_labels(&labels, TransactionVersion::V1, &TransactionUpdateRejection::MissingMeta), rejection);
}

#[test]
fn lost_updates_are_counted_by_their_kind_and_the_channel() {
    let labels = YellowstoneGrpcSubscriptionMetricsLabels::new("a", "b", "c", "d");
    let full = AuthoritativeOutputError::Full { update_type: UpdateType::Transaction, slot: 7 };
    let mut expected = ingress_connection_metric_labels(&labels);
    expected.push(label("update_type", "Transaction"));
    expected.push(label("channel", "full"));
    assert_eq!(output_failure_metric_labels(&labels, &full), expected);

    let closed = AuthoritativeOutputError::Closed { update_type: UpdateType::AccountDeletion, slot: 8 };
    let metric_labels = output_failure_metric_labels(&labels, &closed);
    assert_eq!(metric_labels.len(), 6);
    assert_eq!(metric_labels[4], label("update_type", "AccountDeletion"));
    assert_eq!(metric_labels[5], label("channel", "closed"));
}
