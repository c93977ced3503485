//! What the operations are for, stated over the fields of what goes in and what comes out.
pub mod accounts;
pub mod buffers;
pub mod conversions;
pub mod deliveries;
pub mod firehose;
pub mod messages;
pub mod numbers;
pub mod plans;
pub mod reports;
pub mod settings;
pub mod statuses;
pub mod steps;
pub mod streams;
pub mod wire;
