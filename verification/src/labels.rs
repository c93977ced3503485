//! The labels under which a subscription reports its metrics.
use crate::delivery::{TransactionUpdateRejection, TransactionVersion};
use crate::output::AuthoritativeOutputError;
use crate::text::{chars_of, is_blank, trim_bounds};
use vstd::prelude::*;

verus! {

/// The greatest number of chars of a label.
pub const MAX_METRICS_LABEL_LEN: usize = 96;

pub const DEFAULT_METRICS_SERVICE: &'static str = "unknown";

pub const DEFAULT_METRICS_REGION: &'static str = "unknown";

pub const DEFAULT_METRICS_SOURCE: &'static str = "yellowstone-grpc";

pub const DEFAULT_METRICS_SUBSCRIPTION: &'static str = "default";

/// Whether a label may hold a char.
pub open spec fn is_label_char(c: char) -> bool {
    ||| '0' <= c <= '9'
    ||| 'A' <= c <= 'Z'
    ||| 'a' <= c <= 'z'
    ||| c == '-'
    ||| c == '_'
    ||| c == '.'
    ||| c == ':'
}

/// What becomes of a char in a label.
pub open spec fn label_char(c: char) -> char {
    if is_label_char(c) {
        c
    } else {
        '_'
    }
}

/// The chars of a value that a label keeps: those of the trimmed value, up to the greatest
/// length, with an underscore in place of each that a label may not hold.
pub open spec fn label_chars(value: Seq<char>) -> Seq<char> {
    let text = crate::text::trimmed(value);
    let len = if text.len() <= MAX_METRICS_LABEL_LEN {
        text.len() as int
    } else {
        MAX_METRICS_LABEL_LEN as int
    };
    Seq::new(len as nat, |i: int| label_char(text[i]))
}

/// The label that a value makes; a value of nothing but white space makes the default.
pub open spec fn sanitized_label(value: Seq<char>, default: Seq<char>) -> Seq<char> {
    if label_chars(value).len() == 0 {
        default
    } else {
        label_chars(value)
    }
}

/// A text that can stand as a label.
pub open spec fn is_label(text: Seq<char>) -> bool {
    &&& 0 < text.len() <= MAX_METRICS_LABEL_LEN
    &&& forall|i: int| 0 <= i < text.len() ==> is_label_char(#[trigger] text[i])
}

/// Every value makes a label: of bounded length, not empty, and of label chars alone.
pub proof fn law_sanitized_is_label(value: Seq<char>, default: Seq<char>)
    requires
        is_label(default),
    ensures
        is_label(sanitized_label(value, default)),
{
}

/// A label stays as it is, whatever the default.
pub proof fn law_label_is_kept(text: Seq<char>, default: Seq<char>)
    requires
        is_label(text),
    ensures
        sanitized_label(text, default) == text,
{
    assert(is_label_char(text[0]));
    assert(is_label_char(text[text.len() - 1]));
    assert(crate::text::trimmed(text) == text);
    assert(label_chars(text) =~= text);
}

/// To sanitize twice is to sanitize once.
pub proof fn law_sanitize_idempotent(value: Seq<char>, default: Seq<char>)
    requires
        is_label(default),
    ensures
        sanitized_label(sanitized_label(value, default), default) == sanitized_label(value, default),
{
    law_sanitized_is_label(value, default);
    law_label_is_kept(sanitized_label(value, default), default);
}

/// The defaults are labels.
pub proof fn law_defaults_are_labels()
    ensures
        is_label(DEFAULT_METRICS_SERVICE@),
        is_label(DEFAULT_METRICS_REGION@),
        is_label(DEFAULT_METRICS_SOURCE@),
        is_label(DEFAULT_METRICS_SUBSCRIPTION@),
{
    reveal_strlit("unknown");
    reveal_strlit("yellowstone-grpc");
    reveal_strlit("default");
}

/// The label that a value makes.
pub fn sanitize_metric_label(value: &str, default: &str) -> (r: String)
    ensures
        r@ == sanitized_label(value@, default@),
{
    let chars = chars_of(value);
    let (start, end) = trim_bounds(&chars);
    let stop: usize = if end - start > MAX_METRICS_LABEL_LEN {
        start + MAX_METRICS_LABEL_LEN
    } else {
        end
    };
    let ghost text = crate::text::trimmed(value@);
    let mut sanitized = String::new();
    for i in start..stop
        invariant
            start <= stop <= end <= chars@.len(),
            text == chars@.subrange(start as int, end as int),
            sanitized@ == Seq::new((i - start) as nat, |j: int| label_char(text[j])),
    {
        let c: char = chars[i];
        assert(text[i - start] == c);
        if ('0' <= c && c <= '9') || ('A' <= c && c <= 'Z') || ('a' <= c && c <= 'z') || c == '-' || c == '_' || c == '.' || c == ':' {
            sanitized.push(c);
        } else {
            sanitized.push('_');
        }
        assert(sanitized@ =~= Seq::new((i + 1 - start) as nat, |j: int| label_char(text[j])));
    }
    assert(sanitized@ =~= label_chars(value@));
    if sanitized.as_str().is_empty() {
        default.to_owned()
    } else {
        sanitized
    }
}

/// The labels of a subscription.
#[derive(Debug, Clone, PartialEq, Eq)]
pub struct YellowstoneGrpcSubscriptionMetricsLabels {
    pub service: String,
    pub region: String,
    pub source: String,
    pub subscription: String,
}

/// The parts of the labels of a subscription.
#[derive(Debug, Clone, Copy, PartialEq, Eq, Structural)]
pub enum LabelPart {
    Service,
    Region,
    Source,
    Subscription,
}

/// The first of several settings that is there and does not hold white space alone.
pub open spec fn first_setting(values: Seq<Option<String>>) -> Seq<char>
    decreases values.len(),
{
    if values.len() == 0 {
        Seq::empty()
    } else {
        match values[0] {
            Some(value) => if crate::text::trimmed(value@).len() != 0 {
                value@
            } else {
                first_setting(values.drop_first())
            },
            None => first_setting(values.drop_first()),
        }
    }
}

/// The first of several settings that is there and does not hold white space alone; an
/// empty text where there is none.
pub fn first_env_label(values: &Vec<Option<String>>) -> (r: String)
    ensures
        r@ == first_setting(values@),
{
    assert(values@.skip(0) =~= values@);
    for i in 0..values.len()
        invariant
            first_setting(values@.skip(i as int)) == first_setting(values@),
    {
        proof {
            assert(values@.skip(i as int)[0] == values@[i as int]);
            assert(values@.skip(i as int).drop_first() =~= values@.skip(i + 1));
        }
        if let Some(value) = &values[i] {
            if !is_blank(value.as_str()) {
                return value.clone();
            }
        }
    }
    String::new()
}

/// The environment variables that set a part of the labels, in order of precedence.
pub fn env_names(part: LabelPart) -> (r: Vec<&'static str>)
    ensures
        match part {
            LabelPart::Service => r@ == seq!["SERVICE_NAME", "OTEL_SERVICE_NAME", "K_SERVICE"],
            LabelPart::Region => r@ == seq!["REGION", "GCP_REGION", "AWS_REGION"],
            LabelPart::Source => r@ == seq!["YELLOWSTONE_SOURCE_NAME", "GEYSER_SOURCE_NAME"],
            LabelPart::Subscription => r@ == seq!["YELLOWSTONE_SUBSCRIPTION_NAME", "GEYSER_SUBSCRIPTION_NAME"],
        },
{
    match part {
        LabelPart::Service => vec!["SERVICE_NAME", "OTEL_SERVICE_NAME", "K_SERVICE"],
        LabelPart::Region => vec!["REGION", "GCP_REGION", "AWS_REGION"],
        LabelPart::Source => vec!["YELLOWSTONE_SOURCE_NAME", "GEYSER_SOURCE_NAME"],
        LabelPart::Subscription => vec!["YELLOWSTONE_SUBSCRIPTION_NAME", "GEYSER_SUBSCRIPTION_NAME"],
    }
}

impl YellowstoneGrpcSubscriptionMetricsLabels {
    /// Every part is a label.
    pub open spec fn wf(&self) -> bool {
        &&& is_label(self.service@)
        &&& is_label(self.region@)
        &&& is_label(self.source@)
        &&& is_label(self.subscription@)
    }

    /// The parts are the labels that four values make.
    pub open spec fn made_of(&self, service: Seq<char>, region: Seq<char>, source: Seq<char>, subscription: Seq<char>) -> bool {
        &&& self.service@ == sanitized_label(service, DEFAULT_METRICS_SERVICE@)
        &&& self.region@ == sanitized_label(region, DEFAULT_METRICS_REGION@)
        &&& self.source@ == sanitized_label(source, DEFAULT_METRICS_SOURCE@)
        &&& self.subscription@ == sanitized_label(subscription, DEFAULT_METRICS_SUBSCRIPTION@)
    }

    /// The labels that four values make.
    pub fn new(service: &str, region: &str, source: &str, subscription: &str) -> (r: Self)
        ensures
            r.made_of(service@, region@, source@, subscription@),
            r.wf(),
    {
        proof {
            law_defaults_are_labels();
            law_sanitized_is_label(service@, DEFAULT_METRICS_SERVICE@);
            law_sanitized_is_label(region@, DEFAULT_METRICS_REGION@);
            law_sanitized_is_label(source@, DEFAULT_METRICS_SOURCE@);
            law_sanitized_is_label(subscription@, DEFAULT_METRICS_SUBSCRIPTION@);
        }
        YellowstoneGrpcSubscriptionMetricsLabels {
            service: sanitize_metric_label(service, DEFAULT_METRICS_SERVICE),
            region: sanitize_metric_label(region, DEFAULT_METRICS_REGION),
            source: sanitize_metric_label(source, DEFAULT_METRICS_SOURCE),
            subscription: sanitize_metric_label(subscription, DEFAULT_METRICS_SUBSCRIPTION),
        }
    }

    /// The labels that the parts of these make.
    pub fn sanitized(self) -> (r: Self)
        ensures
            r.made_of(self.service@, self.region@, self.source@, self.subscription@),
            r.wf(),
    {
        Self::new(self.service.as_str(), self.region.as_str(), self.source.as_str(), self.subscription.as_str())
    }

    /// The labels that the environment sets, given the values of the variables that set
    /// each part, in order of precedence.
    pub fn from_environment(
        service: &Vec<Option<String>>,
        region: &Vec<Option<String>>,
        source: &Vec<Option<String>>,
        subscription: &Vec<Option<String>>,
    ) -> (r: Self)
        ensures
            r.made_of(
                first_setting(service@),
                first_setting(region@),
                first_setting(source@),
                first_setting(subscription@),
            ),
            r.wf(),
    {
        let service = first_env_label(service);
        let region = first_env_label(region);
        let source = first_env_label(source);
        let subscription = first_env_label(subscription);
        Self::new(service.as_str(), region.as_str(), source.as_str(), subscription.as_str())
    }
}

/// Labels that are already sanitized stay as they are.
pub proof fn law_sanitized_labels_are_kept(
    labels: YellowstoneGrpcSubscriptionMetricsLabels,
    again: YellowstoneGrpcSubscriptionMetricsLabels,
)
    requires
        labels.wf(),
        again.made_of(labels.service@, labels.region@, labels.source@, labels.subscription@),
    ensures
        again.service@ == labels.service@,
        again.region@ == labels.region@,
        again.source@ == labels.source@,
        again.subscription@ == labels.subscription@,
{
    law_label_is_kept(labels.service@, DEFAULT_METRICS_SERVICE@);
    law_label_is_kept(labels.region@, DEFAULT_METRICS_REGION@);
    law_label_is_kept(labels.source@, DEFAULT_METRICS_SOURCE@);
    law_label_is_kept(labels.subscription@, DEFAULT_METRICS_SUBSCRIPTION@);
}

/// `metrics::Label`, carried through unread.
#[verifier::external_type_specification]
#[verifier::external_body]
pub struct ExLabel(metrics::Label);

/// The label of a metric with this name and this value.
pub uninterp spec fn metric_label(name: Seq<char>, value: Seq<char>) -> metrics::Label;

/// `metrics::Label::new`: the label depends on its name and its value alone.
#[verifier::external_body]
fn label_of(name: &'static str, value: String) -> (r: metrics::Label)
    ensures
        r == metric_label(name@, value@),
{
    metrics::Label::new(name, value)
}

impl YellowstoneGrpcSubscriptionMetricsLabels {
    /// The labels of every metric of the subscription.
    pub open spec fn connection_labels(&self) -> Seq<metrics::Label> {
        seq![
            metric_label("service"@, self.service@),
            metric_label("region"@, self.region@),
            metric_label("source"@, self.source@),
            metric_label("subscription"@, self.subscription@),
        ]
    }
}

/// The labels of every metric of a subscription.
pub fn ingress_connection_metric_labels(labels: &YellowstoneGrpcSubscriptionMetricsLabels) -> (r: Vec<metrics::Label>)
    ensures
        r@ == labels.connection_labels(),
{
    let mut metric_labels: Vec<metrics::Label> = Vec::new();
    metric_labels.push(label_of("service", labels.service.clone()));
    metric_labels.push(label_of("region", labels.region.clone()));
    metric_labels.push(label_of("source", labels.source.clone()));
    metric_labels.push(label_of("subscription", labels.subscription.clone()));
    metric_labels
}

/// The labels of a metric that counts the messages of one kind.
pub fn ingress_update_metric_labels(
    labels: &YellowstoneGrpcSubscriptionMetricsLabels,
    update_type: &'static str,
) -> (r: Vec<metrics::Label>)
    ensures
        r@ == labels.connection_labels().push(metric_label("update_type"@, update_type@)),
{
    let mut metric_labels = ingress_connection_metric_labels(labels);
    metric_labels.push(label_of("update_type", update_type.to_owned()));
    metric_labels
}

/// The labels of a metric that counts rejected transactions.
pub fn rejection_metric_labels(
    labels: &YellowstoneGrpcSubscriptionMetricsLabels,
    version: TransactionVersion,
    rejection: &TransactionUpdateRejection,
) -> (r: Vec<metrics::Label>)
    ensures
        r@ == labels.connection_labels().push(metric_label("transaction_version"@, version.label()@)).push(
            metric_label("reason"@, rejection.label()@),
        ),
{
    let mut metric_labels = ingress_connection_metric_labels(labels);
    metric_labels.push(label_of("transaction_version", version.as_label().to_owned()));
    metric_labels.push(label_of("reason", rejection.as_label().to_owned()));
    metric_labels
}

/// The labels of a metric that counts lost updates: the kind of the update, and the state of
/// the channel that did not take it. The slot is no label.
pub fn output_failure_metric_labels(
    labels: &YellowstoneGrpcSubscriptionMetricsLabels,
    error: &AuthoritativeOutputError,
) -> (r: Vec<metrics::Label>)
    ensures
        r@ == labels.connection_labels().push(metric_label("update_type"@, error.lost_type().name_text())).push(
            metric_label("channel"@, error.state_label()@),
        ),
{
    let mut metric_labels = ingress_connection_metric_labels(labels);
    metric_labels.push(label_of("update_type", error.update_type().name().to_owned()));
    metric_labels.push(label_of("channel", error.as_label().to_owned()));
    metric_labels
}

/// The labels of a lost update come from two closed sets.
pub proof fn law_output_failure_labels_are_closed(error: AuthoritativeOutputError)
    ensures
        seq!["full", "closed"].contains(error.state_label()),
        seq!["AccountUpdate"@, "Transaction"@, "AccountDeletion"@, "BlockDetails"@].contains(
            error.lost_type().name_text(),
        ),
{
    let states = seq!["full", "closed"];
    assert(states[0] == "full" && states[1] == "closed");
    let types = seq!["AccountUpdate"@, "Transaction"@, "AccountDeletion"@, "BlockDetails"@];
    assert(types[0] == "AccountUpdate"@ && types[1] == "Transaction"@);
    assert(types[2] == "AccountDeletion"@ && types[3] == "BlockDetails"@);
}

} // verus!
