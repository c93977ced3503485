//! V1 messages: their rules and their size on the wire.
use crate::chain::{CompiledInstruction, MessageHeader, MessageV1, TransactionConfig};
use crate::error::{ConversionError, MessageErrorKind};
use solana_hash::Hash as WireHash;
use solana_message::compiled_instruction::CompiledInstruction as WireInstruction;
use solana_message::v1::{Message as WireMessage, TransactionConfig as WireConfig};
use solana_message::MessageHeader as WireHeader;
use solana_pubkey::Pubkey as WirePubkey;
use vstd::prelude::*;

verus! {

/// The greatest number of bytes of a V1 transaction on the wire.
pub const MAX_TRANSACTION_SIZE: usize = 4096;

/// The greatest number of signatures of a V1 message.
pub const MAX_SIGNATURES: u8 = 12;

/// The greatest number of addresses of a V1 message.
pub const MAX_ADDRESSES: usize = 64;

/// The greatest number of instructions of a V1 message.
pub const MAX_INSTRUCTIONS: usize = 64;

/// The unit of heap sizes, in bytes.
pub const HEAP_SIZE_UNIT: u32 = 1024;

/// The least heap size, in bytes.
pub const MIN_HEAP_SIZE: u32 = 32 * 1024;

/// The greatest heap size, in bytes.
pub const MAX_HEAP_SIZE: u32 = 256 * 1024;

/// The number of bytes of a signature on the wire.
pub const SIGNATURE_SIZE: usize = 64;

/// An instruction by its contents.
#[verifier::ext_equal]
pub struct InstructionView {
    pub program_id_index: u8,
    pub accounts: Seq<u8>,
    pub data: Seq<u8>,
}

/// A V1 message by its contents.
#[verifier::ext_equal]
pub struct MessageV1View {
    pub header: MessageHeader,
    pub config: TransactionConfig,
    pub lifetime_specifier: Seq<u8>,
    pub account_keys: Seq<Seq<u8>>,
    pub instructions: Seq<InstructionView>,
}

impl View for CompiledInstruction {
    type V = InstructionView;

    open spec fn view(&self) -> InstructionView {
        InstructionView {
            program_id_index: self.program_id_index,
            accounts: self.accounts@,
            data: self.data@,
        }
    }
}

impl View for MessageV1 {
    type V = MessageV1View;

    open spec fn view(&self) -> MessageV1View {
        MessageV1View {
            header: self.header,
            config: self.config,
            lifetime_specifier: self.lifetime_specifier@,
            account_keys: Seq::new(self.account_keys@.len(), |i: int| self.account_keys@[i]@),
            instructions: Seq::new(self.instructions@.len(), |i: int| self.instructions@[i]@),
        }
    }
}

/// The bytes that the set values of a configuration take.
pub open spec fn config_size(config: TransactionConfig) -> nat {
    (if config.priority_fee is Some { 8nat } else { 0nat })
        + (if config.compute_unit_limit is Some { 4nat } else { 0nat })
        + (if config.loaded_accounts_data_size_limit is Some { 4nat } else { 0nat })
        + (if config.heap_size is Some { 4nat } else { 0nat })
}

/// The bytes that the account indexes and the data of instructions take.
pub open spec fn payload_size(instructions: Seq<InstructionView>) -> nat
    decreases instructions.len(),
{
    if instructions.len() == 0 {
        0
    } else {
        payload_size(instructions.drop_last()) + instructions.last().accounts.len()
            + instructions.last().data.len()
    }
}

/// The bytes that a message takes on the wire, without its version byte: the header, the
/// configuration mask, the lifetime specifier and two counts, then 32 bytes for each
/// address, the configuration, and for each instruction 4 bytes and its payload.
pub open spec fn message_size(message: MessageV1View) -> nat {
    3 + 4 + 32 + 1 + 1 + 32 * message.account_keys.len() + config_size(message.config)
        + 4 * message.instructions.len() + payload_size(message.instructions)
}

/// The bytes that a transaction takes on the wire: its version byte, its message, and the
/// signatures that its header asks for.
pub open spec fn transaction_size(message: MessageV1View) -> nat {
    1 + message_size(message) + message.header.num_required_signatures as nat * SIGNATURE_SIZE as nat
}

/// The counts of the header suit the addresses: there are addresses for all signers and for
/// the accounts that are only read, and the first signer, who pays, can be written to.
pub open spec fn header_rules(header: MessageHeader, addresses: nat) -> bool {
    &&& header.num_required_signatures <= MAX_SIGNATURES
    &&& header.num_readonly_signed_accounts < header.num_required_signatures
    &&& header.num_required_signatures + header.num_readonly_unsigned_accounts <= addresses
}

/// A heap size, where there is one, is a whole number of units within its bounds.
pub open spec fn heap_rules(heap_size: Option<u32>) -> bool {
    heap_size matches Some(size) ==> {
        &&& size % HEAP_SIZE_UNIT == 0
        &&& MIN_HEAP_SIZE <= size <= MAX_HEAP_SIZE
    }
}

/// An instruction runs a program that the message lists and that does not pay, on accounts
/// that the message lists, and its parts fit their counts on the wire.
pub open spec fn instruction_rules(instruction: InstructionView, addresses: nat) -> bool {
    &&& 0 < instruction.program_id_index < addresses
    &&& instruction.accounts.len() <= u8::MAX
    &&& instruction.data.len() <= u16::MAX
    &&& forall|j: int| 0 <= j < instruction.accounts.len() ==> (#[trigger] instruction.accounts[j]) < addresses
}

/// The rules of V1 messages.
pub open spec fn v1_rules(message: MessageV1View) -> bool {
    &&& header_rules(message.header, message.account_keys.len())
    &&& heap_rules(message.config.heap_size)
    &&& message.account_keys.len() <= MAX_ADDRESSES
    &&& message.account_keys.no_duplicates()
    &&& message.instructions.len() <= MAX_INSTRUCTIONS
    &&& forall|i: int|
        0 <= i < message.instructions.len() ==> instruction_rules(
            #[trigger] message.instructions[i],
            message.account_keys.len(),
        )
}

/// The first rule that an instruction breaks, if it breaks one.
pub open spec fn instruction_error(instruction: InstructionView, addresses: nat) -> Option<MessageErrorKind> {
    if !(0 < instruction.program_id_index < addresses) {
        Some(MessageErrorKind::InvalidInstructionAccountIndex)
    } else if instruction.accounts.len() > u8::MAX {
        Some(MessageErrorKind::InstructionAccountsTooLarge)
    } else if instruction.data.len() > u16::MAX {
        Some(MessageErrorKind::InstructionDataTooLarge)
    } else if !instruction_rules(instruction, addresses) {
        Some(MessageErrorKind::InvalidInstructionAccountIndex)
    } else {
        None
    }
}

/// The first rule that the first bad instruction breaks, if there is one.
pub open spec fn instructions_error(instructions: Seq<InstructionView>, addresses: nat) -> Option<MessageErrorKind>
    decreases instructions.len(),
{
    if instructions.len() == 0 {
        None
    } else {
        match instructions_error(instructions.drop_last(), addresses) {
            Some(kind) => Some(kind),
            None => instruction_error(instructions.last(), addresses),
        }
    }
}

/// The first of the rules of V1 messages that a message breaks, if it breaks one.
pub open spec fn broken_rule(message: MessageV1View) -> Option<MessageErrorKind> {
    let header = message.header;
    let addresses = message.account_keys.len();
    if header.num_required_signatures > MAX_SIGNATURES {
        Some(MessageErrorKind::TooManySignatures)
    } else if message.instructions.len() > MAX_INSTRUCTIONS {
        Some(MessageErrorKind::TooManyInstructions)
    } else if addresses > MAX_ADDRESSES {
        Some(MessageErrorKind::TooManyAddresses)
    } else if addresses < header.num_required_signatures + header.num_readonly_unsigned_accounts {
        Some(MessageErrorKind::NotEnoughAddressesForSignatures)
    } else if header.num_readonly_signed_accounts >= header.num_required_signatures {
        Some(MessageErrorKind::ZeroSigners)
    } else if !message.account_keys.no_duplicates() {
        Some(MessageErrorKind::DuplicateAddresses)
    } else if !heap_rules(message.config.heap_size) {
        Some(MessageErrorKind::InvalidHeapSize)
    } else {
        instructions_error(message.instructions, addresses)
    }
}

/// Instructions break no rule exactly if each of them keeps all.
proof fn lemma_instructions_error(instructions: Seq<InstructionView>, addresses: nat)
    ensures
        instructions_error(instructions, addresses) is None <==> forall|i: int|
            0 <= i < instructions.len() ==> instruction_rules(#[trigger] instructions[i], addresses),
    decreases instructions.len(),
{
    if instructions.len() > 0 {
        let rest = instructions.drop_last();
        let last = instructions.len() - 1;
        lemma_instructions_error(rest, addresses);
        assert(instructions.last() == instructions[last]);
        if instructions_error(instructions, addresses) is None {
            assert forall|i: int| 0 <= i < instructions.len() implies instruction_rules(
                #[trigger] instructions[i],
                addresses,
            ) by {
                if i < last {
                    assert(rest[i] == instructions[i]);
                }
            }
        }
        if forall|i: int| 0 <= i < instructions.len() ==> instruction_rules(#[trigger] instructions[i], addresses) {
            assert forall|i: int| 0 <= i < rest.len() implies instruction_rules(#[trigger] rest[i], addresses) by {
                assert(rest[i] == instructions[i]);
            }
        }
    }
}

/// A message breaks no rule exactly if it meets them all.
pub proof fn law_no_broken_rule(message: MessageV1View)
    ensures
        broken_rule(message) is None <==> v1_rules(message),
{
    lemma_instructions_error(message.instructions, message.account_keys.len());
}

/// `solana_message::v1::Message::validate`: the error is that of the first rule that the
/// message breaks, in the order of [`broken_rule`].
#[verifier::external_body]
pub(crate) fn validate(message: &MessageV1) -> (r: Result<(), solana_message::v1::MessageError>)
    ensures
        match broken_rule(message@) {
            None => r is Ok,
            Some(kind) => r == Err::<(), _>(crate::error::message_error(kind)),
        },
{
    let keys = message.account_keys.iter().map(|key| WirePubkey::new_from_array(key.bytes)).collect();
    let instructions = message.instructions.iter().map(|ix| WireInstruction {
        program_id_index: ix.program_id_index, accounts: ix.accounts.clone(), data: ix.data.clone(),
    }).collect();
    let header = WireHeader {
        num_required_signatures: message.header.num_required_signatures,
        num_readonly_signed_accounts: message.header.num_readonly_signed_accounts,
        num_readonly_unsigned_accounts: message.header.num_readonly_unsigned_accounts,
    };
    let config = WireConfig {
        priority_fee: message.config.priority_fee, compute_unit_limit: message.config.compute_unit_limit,
        loaded_accounts_data_size_limit: message.config.loaded_accounts_data_size_limit, heap_size: message.config.heap_size,
    };
    WireMessage::new(header, config, WireHash::new_from_array(message.lifetime_specifier.bytes), keys, instructions).validate()
}

/// `solana_message::v1::Message::size`: the number of bytes on the wire, as
/// [`message_size`] counts them, for a message whose size a `usize` can hold.
#[verifier::external_body]
pub(crate) fn size(message: &MessageV1) -> (r: usize)
    requires
        message_size(message@) <= usize::MAX,
    ensures
        r == message_size(message@),
{
    let keys = message.account_keys.iter().map(|key| WirePubkey::new_from_array(key.bytes)).collect();
    let instructions = message.instructions.iter().map(|ix| WireInstruction {
        program_id_index: ix.program_id_index, accounts: ix.accounts.clone(), data: ix.data.clone(),
    }).collect();
    let header = WireHeader {
        num_required_signatures: message.header.num_required_signatures,
        num_readonly_signed_accounts: message.header.num_readonly_signed_accounts,
        num_readonly_unsigned_accounts: message.header.num_readonly_unsigned_accounts,
    };
    let config = WireConfig {
        priority_fee: message.config.priority_fee, compute_unit_limit: message.config.compute_unit_limit,
        loaded_accounts_data_size_limit: message.config.loaded_accounts_data_size_limit, heap_size: message.config.heap_size,
    };
    WireMessage::new(header, config, WireHash::new_from_array(message.lifetime_specifier.bytes), keys, instructions).size()
}

/// The instructions of a valid message have a bounded payload.
proof fn lemma_payload_bound(instructions: Seq<InstructionView>, addresses: nat)
    requires
        forall|i: int| 0 <= i < instructions.len() ==> instruction_rules(#[trigger] instructions[i], addresses),
    ensures
        payload_size(instructions) <= 65790 * instructions.len(),
    decreases instructions.len(),
{
    if instructions.len() > 0 {
        let rest = instructions.drop_last();
        assert forall|i: int| 0 <= i < rest.len() implies instruction_rules(#[trigger] rest[i], addresses) by {
            assert(rest[i] == instructions[i]);
        }
        lemma_payload_bound(rest, addresses);
        assert(instructions.last() == instructions[instructions.len() - 1]);
    }
}

/// A V1 message together with what the rules say of it.
///
/// The message is accepted if it is valid and its transaction fits the wire limit.
pub fn accept_v1_message(
    message: MessageV1,
    validity: Result<(), solana_message::v1::MessageError>,
) -> (r: Result<MessageV1, ConversionError>)
    requires
        validity is Ok ==> transaction_size(message@) <= usize::MAX,
    ensures
        match validity {
            Err(error) => r == Err::<MessageV1, _>(ConversionError::InvalidV1Message(error)),
            Ok(()) => if transaction_size(message@) > MAX_TRANSACTION_SIZE {
                r == Err::<MessageV1, _>(ConversionError::V1TransactionTooLarge)
            } else {
                r == Ok::<_, ConversionError>(message)
            },
        },
{
    match validity {
        Err(error) => Err(ConversionError::InvalidV1Message(error)),
        Ok(()) => {
            let signatures: usize = message.header.num_required_signatures as usize * SIGNATURE_SIZE;
            let transaction_size: usize = 1 + size(&message) + signatures;
            if transaction_size > MAX_TRANSACTION_SIZE {
                Err(ConversionError::V1TransactionTooLarge)
            } else {
                Ok(message)
            }
        },
    }
}

/// Why a V1 message is refused, if it is: it breaks a rule of V1 messages, or its
/// transaction does not fit the wire limit.
pub open spec fn v1_fault(message: MessageV1View) -> Option<ConversionError> {
    match broken_rule(message) {
        Some(kind) => Some(ConversionError::InvalidV1Message(crate::error::message_error(kind))),
        None => if transaction_size(message) > MAX_TRANSACTION_SIZE {
            Some(ConversionError::V1TransactionTooLarge)
        } else {
            None
        },
    }
}

/// Checks a V1 message against the rules of V1 messages and against the wire limit.
pub fn check_v1_message(message: MessageV1) -> (r: Result<MessageV1, ConversionError>)
    ensures
        match v1_fault(message@) {
            Some(error) => r == Err::<MessageV1, _>(error),
            None => r == Ok::<_, ConversionError>(message),
        },
{
    let validity = validate(&message);
    proof {
        if validity is Ok {
            law_no_broken_rule(message@);
            lemma_payload_bound(message@.instructions, message@.account_keys.len());
        }
    }
    accept_v1_message(message, validity)
}

} // verus!
