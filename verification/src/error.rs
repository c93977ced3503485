//! Why a message of the stream cannot be converted.
use solana_message::v1::MessageError as Wire;
use vstd::prelude::*;

verus! {

/// `solana_message::v1::MessageError`, carried through unread.
#[verifier::external_type_specification]
#[verifier::external_body]
pub struct ExMessageError(solana_message::v1::MessageError);

/// The errors of V1 messages, each named as its counterpart in `solana_message::v1`.
#[derive(Debug, Clone, Copy, PartialEq, Eq, Structural)]
pub enum MessageErrorKind {
    BufferTooSmall,
    InvalidHeapSize,
    InstructionAccountsTooLarge,
    InstructionDataTooLarge,
    InvalidConfigMask,
    InvalidInstructionAccountIndex,
    InvalidProgramIdIndex,
    InvalidVersion,
    MissingLifetimeSpecifier,
    NotEnoughAddressesForSignatures,
    TooManyAddresses,
    TooManyInstructions,
    TooManySignatures,
    TrailingData,
    TransactionTooLarge,
    ZeroSigners,
    DuplicateAddresses,
    InvalidConfigValue,
    NotEnoughAccountKeys,
}

/// The error of `solana_message::v1` of a kind: the variant of the same name.
pub uninterp spec fn message_error(kind: MessageErrorKind) -> solana_message::v1::MessageError;

/// The variant of a `solana_message::v1::MessageError`: every error is the error of exactly
/// one kind.
#[verifier::external_body]
fn kind_of_message_error(error: &solana_message::v1::MessageError) -> (r: MessageErrorKind)
    ensures
        forall|kind: MessageErrorKind| #[trigger] message_error(kind) == *error <==> kind == r,
{
    match error {
        Wire::BufferTooSmall => MessageErrorKind::BufferTooSmall, Wire::InvalidHeapSize => MessageErrorKind::InvalidHeapSize,
        Wire::InstructionAccountsTooLarge => MessageErrorKind::InstructionAccountsTooLarge, Wire::InstructionDataTooLarge => MessageErrorKind::InstructionDataTooLarge,
        Wire::InvalidConfigMask => MessageErrorKind::InvalidConfigMask, Wire::InvalidInstructionAccountIndex => MessageErrorKind::InvalidInstructionAccountIndex,
        Wire::InvalidProgramIdIndex => MessageErrorKind::InvalidProgramIdIndex, Wire::InvalidVersion => MessageErrorKind::InvalidVersion,
        Wire::MissingLifetimeSpecifier => MessageErrorKind::MissingLifetimeSpecifier, Wire::NotEnoughAddressesForSignatures => MessageErrorKind::NotEnoughAddressesForSignatures,
        Wire::TooManyAddresses => MessageErrorKind::TooManyAddresses, Wire::TooManyInstructions => MessageErrorKind::TooManyInstructions,
        Wire::TooManySignatures => MessageErrorKind::TooManySignatures, Wire::TrailingData => MessageErrorKind::TrailingData,
        Wire::TransactionTooLarge => MessageErrorKind::TransactionTooLarge, Wire::ZeroSigners => MessageErrorKind::ZeroSigners,
        Wire::DuplicateAddresses => MessageErrorKind::DuplicateAddresses, Wire::InvalidConfigValue => MessageErrorKind::InvalidConfigValue,
        Wire::NotEnoughAccountKeys => MessageErrorKind::NotEnoughAccountKeys,
    }
}

/// The error of a conversion.
#[derive(Debug, PartialEq, Eq)]
pub enum ConversionError {
    /// A part is missing or malformed.
    Legacy(&'static str),
    /// The rules of V1 messages are broken.
    InvalidV1Message(solana_message::v1::MessageError),
    /// A V1 message brings address table lookups.
    V1AddressTableLookups,
    /// A V1 transaction does not fit its wire limit.
    V1TransactionTooLarge,
    /// A V1 transaction brings another number of signatures than its header asks for.
    InvalidV1SignatureCount,
}

/// `Clone::clone` on `solana_message::v1::MessageError`, which holds no fields: the clone
/// is the same error.
#[verifier::external_body]
fn clone_of_message_error(error: &solana_message::v1::MessageError) -> (r: solana_message::v1::MessageError)
    ensures
        r == *error,
{
    error.clone()
}

impl Clone for ConversionError {
    fn clone(&self) -> (r: Self)
        ensures
            r == *self,
    {
        match self {
            ConversionError::Legacy(message) => ConversionError::Legacy(*message),
            ConversionError::InvalidV1Message(error) => {
                ConversionError::InvalidV1Message(clone_of_message_error(error))
            },
            ConversionError::V1AddressTableLookups => ConversionError::V1AddressTableLookups,
            ConversionError::V1TransactionTooLarge => ConversionError::V1TransactionTooLarge,
            ConversionError::InvalidV1SignatureCount => ConversionError::InvalidV1SignatureCount,
        }
    }
}

impl From<&'static str> for ConversionError {
    fn from(message: &'static str) -> (r: Self) {
        ConversionError::Legacy(message)
    }
}

impl vstd::std_specs::convert::FromSpecImpl<&'static str> for ConversionError {
    open spec fn obeys_from_spec() -> bool {
        true
    }

    open spec fn from_spec(message: &'static str) -> Self {
        ConversionError::Legacy(message)
    }
}

impl From<solana_message::v1::MessageError> for ConversionError {
    fn from(error: solana_message::v1::MessageError) -> (r: Self) {
        ConversionError::InvalidV1Message(error)
    }
}

impl vstd::std_specs::convert::FromSpecImpl<solana_message::v1::MessageError> for ConversionError {
    open spec fn obeys_from_spec() -> bool {
        true
    }

    open spec fn from_spec(error: solana_message::v1::MessageError) -> Self {
        ConversionError::InvalidV1Message(error)
    }
}

/// The text in which `solana_message::v1::MessageError` displays an error.
pub uninterp spec fn message_error_text(error: solana_message::v1::MessageError) -> Seq<char>;

/// `ToString::to_string` on `solana_message::v1::MessageError`: the text depends on the
/// error alone.
#[verifier::external_body]
fn text_of_message_error(error: &solana_message::v1::MessageError) -> (r: String)
    ensures
        r@ == message_error_text(*error),
{
    error.to_string()
}

impl ConversionError {
    /// The kind of the V1 rule that is broken, if one is.
    pub fn v1_kind(&self) -> (r: Option<MessageErrorKind>)
        ensures
            match self {
                ConversionError::InvalidV1Message(error) => {
                    &&& r is Some
                    &&& forall|kind: MessageErrorKind| #[trigger] message_error(kind) == *error <==> r == Some(kind)
                },
                _ => r is None,
            },
    {
        match self {
            ConversionError::InvalidV1Message(error) => Some(kind_of_message_error(error)),
            _ => None,
        }
    }

    /// The text of the error.
    pub open spec fn text(&self) -> Seq<char> {
        match self {
            ConversionError::Legacy(message) => message@,
            ConversionError::InvalidV1Message(error) => "invalid V1 message: "@ + message_error_text(*error),
            ConversionError::V1AddressTableLookups => "V1 messages cannot contain address table lookups"@,
            ConversionError::V1TransactionTooLarge => "V1 transaction exceeds the 4096-byte wire limit"@,
            ConversionError::InvalidV1SignatureCount => "V1 signature count does not match the message header"@,
        }
    }

    /// The text of the error.
    pub fn describe(&self) -> (r: String)
        ensures
            r@ == self.text(),
    {
        match self {
            ConversionError::Legacy(message) => (*message).to_owned(),
            ConversionError::InvalidV1Message(error) => {
                let detail = text_of_message_error(error);
                let mut text = "invalid V1 message: ".to_owned();
                text.append(detail.as_str());
                text
            },
            ConversionError::V1AddressTableLookups => {
                "V1 messages cannot contain address table lookups".to_owned()
            },
            ConversionError::V1TransactionTooLarge => {
                "V1 transaction exceeds the 4096-byte wire limit".to_owned()
            },
            ConversionError::InvalidV1SignatureCount => {
                "V1 signature count does not match the message header".to_owned()
            },
        }
    }
}

} // verus!
