//! V1 messages: their rules and their size on the wire.
use crate::error::{ConversionError, MessageErrorKind};
use crate::proto;
use crate::v1::{InstructionView, MessageV1View};
use vstd::prelude::*;

verus! {

/// The V1 message that a message stands for has its counts, its configuration, its block hash,
/// its addresses and its instructions.
pub proof fn law_v1_contents_are_kept(message: proto::Message)
    requires
        message.header matches Some(header) && header.num_required_signatures < 256
            && header.num_readonly_signed_accounts < 256 && header.num_readonly_unsigned_accounts < 256,
        message.config is Some,
        forall|i: int|
            0 <= i < message.instructions@.len() ==> (#[trigger] message.instructions@[i]).program_id_index < 256,
    ensures
        ({
            let out = crate::convert_from::v1_contents(message);
            let header = message.header->0;
            let config = message.config->0;
            &&& out.header.num_required_signatures as int == header.num_required_signatures as int
            &&& out.header.num_readonly_signed_accounts as int == header.num_readonly_signed_accounts as int
            &&& out.header.num_readonly_unsigned_accounts as int == header.num_readonly_unsigned_accounts as int
            &&& out.config.priority_fee == config.priority_fee
            &&& out.config.compute_unit_limit == config.compute_unit_limit
            &&& out.config.loaded_accounts_data_size_limit == config.loaded_accounts_data_size_limit
            &&& out.config.heap_size == config.heap_size
            &&& out.lifetime_specifier == message.recent_blockhash@
            &&& out.account_keys.len() == message.account_keys@.len()
            &&& forall|i: int|
                0 <= i < message.account_keys@.len() ==> #[trigger] out.account_keys[i] == message.account_keys@[i]@
            &&& out.instructions.len() == message.instructions@.len()
            &&& forall|i: int|
                0 <= i < message.instructions@.len() ==> {
                    &&& (#[trigger] out.instructions[i]).program_id_index as int
                        == message.instructions@[i].program_id_index as int
                    &&& out.instructions[i].accounts == message.instructions@[i].accounts@
                    &&& out.instructions[i].data == message.instructions@[i].data@
                }
        }),
{
}

/// A message without addresses, instructions and configuration takes 41 bytes, and its
/// transaction 42 and 64 for each signature.
pub proof fn law_bare_message_size(message: MessageV1View)
    requires
        message.account_keys.len() == 0,
        message.instructions.len() == 0,
        message.config.priority_fee is None,
        message.config.compute_unit_limit is None,
        message.config.loaded_accounts_data_size_limit is None,
        message.config.heap_size is None,
    ensures
        crate::v1::message_size(message) == 41,
        crate::v1::transaction_size(message) == 42 + 64 * message.header.num_required_signatures,
{
}

/// Every address takes 32 bytes more.
pub proof fn law_address_takes_32_bytes(message: MessageV1View, address: Seq<u8>)
    ensures
        ({
            let longer = MessageV1View { account_keys: message.account_keys.push(address), ..message };
            &&& crate::v1::message_size(longer) == crate::v1::message_size(message) + 32
            &&& crate::v1::transaction_size(longer) == crate::v1::transaction_size(message) + 32
        }),
{
}

/// Every instruction takes 4 bytes more, one for each of its accounts, and its data.
pub proof fn law_instruction_takes_its_payload(message: MessageV1View, instruction: InstructionView)
    ensures
        ({
            let longer = MessageV1View { instructions: message.instructions.push(instruction), ..message };
            &&& crate::v1::message_size(longer) == crate::v1::message_size(message) + 4 + instruction.accounts.len()
                + instruction.data.len()
            &&& crate::v1::transaction_size(longer) == crate::v1::transaction_size(message) + 4
                + instruction.accounts.len() + instruction.data.len()
        }),
{
    assert(message.instructions.push(instruction).drop_last() =~= message.instructions);
}

/// A priority fee takes 8 bytes more, and every other value of the configuration 4.
pub proof fn law_config_takes_its_values(
    message: MessageV1View,
    fee: u64,
    units: u32,
    data_size: u32,
    heap_size: u32,
)
    requires
        message.config.priority_fee is None,
        message.config.compute_unit_limit is None,
        message.config.loaded_accounts_data_size_limit is None,
        message.config.heap_size is None,
    ensures
        ({
            let with_fee = MessageV1View {
                config: crate::chain::TransactionConfig { priority_fee: Some(fee), ..message.config },
                ..message
            };
            let with_units = MessageV1View {
                config: crate::chain::TransactionConfig { compute_unit_limit: Some(units), ..with_fee.config },
                ..with_fee
            };
            let with_data_size = MessageV1View {
                config: crate::chain::TransactionConfig {
                    loaded_accounts_data_size_limit: Some(data_size),
                    ..with_units.config
                },
                ..with_units
            };
            let with_heap_size = MessageV1View {
                config: crate::chain::TransactionConfig { heap_size: Some(heap_size), ..with_data_size.config },
                ..with_data_size
            };
            &&& crate::v1::message_size(with_fee) == crate::v1::message_size(message) + 8
            &&& crate::v1::message_size(with_units) == crate::v1::message_size(with_fee) + 4
            &&& crate::v1::message_size(with_data_size) == crate::v1::message_size(with_units) + 4
            &&& crate::v1::message_size(with_heap_size) == crate::v1::message_size(with_data_size) + 4
        }),
{
}

/// A transaction is its version byte, its message, and 64 bytes for each signature that the
/// header asks for.
pub proof fn law_signature_takes_64_bytes(message: MessageV1View)
    ensures
        crate::v1::transaction_size(message) == 1 + crate::v1::message_size(message) + 64
            * message.header.num_required_signatures,
{
}

/// The rules of V1 messages: at most 12 signers, of whom the first can be written to; at most
/// 64 addresses, all different, enough for the signers and for the accounts that are only read;
/// a heap of whole kibibytes between 32 and 256; at most 64 instructions, each of which runs a
/// listed program other than the first account, on at most 255 listed accounts, with at most
/// 65535 bytes of data.
pub proof fn law_v1_rules(message: MessageV1View)
    ensures
        crate::v1::v1_rules(message) <==> {
            let header = message.header;
            let addresses = message.account_keys.len();
            &&& header.num_required_signatures <= 12
            &&& header.num_readonly_signed_accounts < header.num_required_signatures
            &&& header.num_required_signatures + header.num_readonly_unsigned_accounts <= addresses
            &&& addresses <= 64
            &&& forall|i: int, j: int|
                0 <= i < addresses && 0 <= j < addresses && i != j ==> #[trigger] message.account_keys[i]
                    != #[trigger] message.account_keys[j]
            &&& message.config.heap_size matches Some(size) ==> size % 1024 == 0 && 32768 <= size <= 262144
            &&& message.instructions.len() <= 64
            &&& forall|i: int|
                0 <= i < message.instructions.len() ==> {
                    &&& 0 < (#[trigger] message.instructions[i]).program_id_index < addresses
                    &&& message.instructions[i].accounts.len() <= 255
                    &&& message.instructions[i].data.len() <= 65535
                    &&& forall|k: int|
                        0 <= k < message.instructions[i].accounts.len() ==> (
                        #[trigger] message.instructions[i].accounts[k]) < addresses
                }
        },
{
    let addresses = message.account_keys.len();
    assert forall|i: int| 0 <= i < message.instructions.len() implies crate::v1::instruction_rules(
        #[trigger] message.instructions[i],
        addresses,
    ) == {
        &&& 0 < message.instructions[i].program_id_index < addresses
        &&& message.instructions[i].accounts.len() <= 255
        &&& message.instructions[i].data.len() <= 65535
        &&& forall|k: int|
            0 <= k < message.instructions[i].accounts.len() ==> (#[trigger] message.instructions[i].accounts[k])
                < addresses
    } by {}
}

/// The first rule that a message breaks is told: the number of signers, of instructions and of
/// addresses, room for the signers, a first signer who can be written to, addresses that all
/// differ, the heap, and last the instructions.
pub proof fn law_first_broken_rule_is_told(message: MessageV1View)
    ensures
        message.header.num_required_signatures > 12 ==> crate::v1::broken_rule(message) == Some(
            MessageErrorKind::TooManySignatures,
        ),
        message.header.num_required_signatures <= 12 ==> {
            &&& message.instructions.len() > 64 ==> crate::v1::broken_rule(message) == Some(
                MessageErrorKind::TooManyInstructions,
            )
            &&& message.instructions.len() <= 64 ==> {
                &&& message.account_keys.len() > 64 ==> crate::v1::broken_rule(message) == Some(
                    MessageErrorKind::TooManyAddresses,
                )
                &&& message.account_keys.len() <= 64 ==> {
                    &&& message.account_keys.len() < message.header.num_required_signatures
                        + message.header.num_readonly_unsigned_accounts ==> crate::v1::broken_rule(message) == Some(
                        MessageErrorKind::NotEnoughAddressesForSignatures,
                    )
                    &&& message.account_keys.len() >= message.header.num_required_signatures
                        + message.header.num_readonly_unsigned_accounts ==> {
                        &&& message.header.num_readonly_signed_accounts >= message.header.num_required_signatures
                            ==> crate::v1::broken_rule(message) == Some(MessageErrorKind::ZeroSigners)
                        &&& message.header.num_readonly_signed_accounts < message.header.num_required_signatures ==> {
                            &&& (exists|i: int, j: int|
                                0 <= i < j < message.account_keys.len() && #[trigger] message.account_keys[i]
                                    == #[trigger] message.account_keys[j]) ==> crate::v1::broken_rule(message) == Some(
                                MessageErrorKind::DuplicateAddresses,
                            )
                            &&& message.account_keys.no_duplicates() ==> match message.config.heap_size {
                                Some(size) => if size % 1024 != 0 || size < 32768 || size > 262144 {
                                    crate::v1::broken_rule(message) == Some(MessageErrorKind::InvalidHeapSize)
                                } else {
                                    crate::v1::broken_rule(message) == crate::v1::instructions_error(
                                        message.instructions,
                                        message.account_keys.len(),
                                    )
                                },
                                None => crate::v1::broken_rule(message) == crate::v1::instructions_error(
                                    message.instructions,
                                    message.account_keys.len(),
                                ),
                            }
                        }
                    }
                }
            }
        },
{
}

/// The rule that an instruction breaks is told: its program, the number of its accounts, the
/// size of its data, and last its accounts.
pub proof fn law_broken_instruction_is_told(instruction: InstructionView, addresses: nat)
    ensures
        instruction.program_id_index == 0 || instruction.program_id_index >= addresses ==> crate::v1::instruction_error(
            instruction,
            addresses,
        ) == Some(MessageErrorKind::InvalidInstructionAccountIndex),
        0 < instruction.program_id_index < addresses ==> {
            &&& instruction.accounts.len() > 255 ==> crate::v1::instruction_error(instruction, addresses) == Some(
                MessageErrorKind::InstructionAccountsTooLarge,
            )
            &&& instruction.accounts.len() <= 255 && instruction.data.len() > 65535 ==> crate::v1::instruction_error(
                instruction,
                addresses,
            ) == Some(MessageErrorKind::InstructionDataTooLarge)
            &&& instruction.accounts.len() <= 255 && instruction.data.len() <= 65535 ==> {
                &&& (exists|k: int|
                    0 <= k < instruction.accounts.len() && (#[trigger] instruction.accounts[k]) >= addresses)
                    ==> crate::v1::instruction_error(instruction, addresses) == Some(
                    MessageErrorKind::InvalidInstructionAccountIndex,
                )
                &&& (forall|k: int|
                    0 <= k < instruction.accounts.len() ==> (#[trigger] instruction.accounts[k]) < addresses)
                    ==> crate::v1::instruction_error(instruction, addresses) is None
            }
        },
{
}

/// Of several instructions, the error is that of the first bad one.
pub proof fn law_first_broken_instruction_is_told(instructions: Seq<InstructionView>, addresses: nat)
    ensures
        match crate::v1::instructions_error(instructions, addresses) {
            None => forall|i: int|
                0 <= i < instructions.len() ==> crate::v1::instruction_error(#[trigger] instructions[i], addresses)
                    is None,
            Some(kind) => exists|k: int|
                0 <= k < instructions.len() && crate::v1::instruction_error(#[trigger] instructions[k], addresses)
                    == Some(kind) && (forall|j: int|
                    0 <= j < k ==> crate::v1::instruction_error(#[trigger] instructions[j], addresses) is None),
        },
    decreases instructions.len(),
{
    if instructions.len() > 0 {
        let rest = instructions.drop_last();
        let last = instructions.len() - 1;
        law_first_broken_instruction_is_told(rest, addresses);
        assert(instructions[last] == instructions.last());
        match crate::v1::instructions_error(rest, addresses) {
            None => {
                assert forall|i: int| 0 <= i < last implies crate::v1::instruction_error(
                    #[trigger] instructions[i],
                    addresses,
                ) is None by {
                    assert(instructions[i] == rest[i]);
                }
            },
            Some(kind) => {
                let k = choose|k: int|
                    0 <= k < rest.len() && crate::v1::instruction_error(#[trigger] rest[k], addresses) == Some(kind)
                        && (forall|j: int|
                        0 <= j < k ==> crate::v1::instruction_error(#[trigger] rest[j], addresses) is None);
                assert(instructions[k] == rest[k]);
                assert forall|j: int| 0 <= j < k implies crate::v1::instruction_error(
                    #[trigger] instructions[j],
                    addresses,
                ) is None by {
                    assert(instructions[j] == rest[j]);
                }
            },
        }
    }
}

/// A message that breaks a rule is refused with the error of that rule, one whose transaction
/// has more than 4096 bytes as too large, and no other.
pub proof fn law_v1_refusals(message: MessageV1View)
    ensures
        crate::v1::broken_rule(message) matches Some(kind) ==> crate::v1::v1_fault(message) == Some(
            ConversionError::InvalidV1Message(crate::error::message_error(kind)),
        ),
        crate::v1::broken_rule(message) is None && crate::v1::transaction_size(message) > 4096 ==> crate::v1::v1_fault(
            message,
        ) == Some(ConversionError::V1TransactionTooLarge),
        crate::v1::broken_rule(message) is None && crate::v1::transaction_size(message) <= 4096
            ==> crate::v1::v1_fault(message) is None,
{
}

/// The texts of the errors.
pub proof fn law_error_texts(message: &'static str, error: solana_message::v1::MessageError)
    ensures
        ConversionError::Legacy(message).text() == message@,
        ConversionError::InvalidV1Message(error).text() == "invalid V1 message: "@ + crate::error::message_error_text(
            error,
        ),
        ConversionError::V1AddressTableLookups.text() == "V1 messages cannot contain address table lookups"@,
        ConversionError::V1TransactionTooLarge.text() == "V1 transaction exceeds the 4096-byte wire limit"@,
        ConversionError::InvalidV1SignatureCount.text() == "V1 signature count does not match the message header"@,
{
}

} // verus!
