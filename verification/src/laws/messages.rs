//! Messages and signed transactions.
use crate::chain::{
    CompiledInstruction, LegacyMessage, MessageHeader, MessageV0, MessageV1, VersionedMessage, VersionedTransaction,
};
use crate::error::ConversionError;
use crate::proto;
use vstd::prelude::*;

verus! {

/// An accepted instruction keeps its program, its accounts and its data.
pub proof fn law_instruction_is_kept(ix: proto::CompiledInstruction, out: CompiledInstruction)
    requires
        crate::convert_from::instruction_fault(ix.program_id_index) is None,
        crate::convert_from::instruction_matches(ix, out),
    ensures
        out.program_id_index as int == ix.program_id_index as int,
        out.accounts@ == ix.accounts@,
        out.data@ == ix.data@,
{
}

/// An instruction is refused exactly if the index of its program does not fit a byte.
pub proof fn law_instruction_is_checked(program_id_index: u32)
    ensures
        program_id_index < 256 ==> crate::convert_from::instruction_fault(program_id_index) is None,
        program_id_index >= 256 ==> crate::convert_from::instruction_fault(program_id_index) == Some(
            ConversionError::Legacy("failed to decode CompiledInstruction.program_id_index)"),
        ),
{
}

/// Accepted instructions keep their number, their order, and each its program, its accounts
/// and its data.
pub proof fn law_instructions_are_kept(ixs: Seq<proto::CompiledInstruction>, out: Seq<CompiledInstruction>)
    requires
        crate::convert_from::instructions_fault(ixs) is None,
        crate::convert_from::instructions_match(ixs, out),
    ensures
        out.len() == ixs.len(),
        forall|i: int|
            0 <= i < ixs.len() ==> {
                &&& (#[trigger] out[i]).program_id_index as int == ixs[i].program_id_index as int
                &&& out[i].accounts@ == ixs[i].accounts@
                &&& out[i].data@ == ixs[i].data@
            },
{
    assert forall|i: int| 0 <= i < ixs.len() implies {
        &&& (#[trigger] out[i]).program_id_index as int == ixs[i].program_id_index as int
        &&& out[i].accounts@ == ixs[i].accounts@
        &&& out[i].data@ == ixs[i].data@
    } by {
        assert(crate::convert_from::instruction_matches(ixs[i], out[i]));
        assert(ixs[i].program_id_index < 256);
    }
}

/// Instructions are refused exactly if the index of a program does not fit a byte.
pub proof fn law_instructions_are_checked(ixs: Seq<proto::CompiledInstruction>)
    ensures
        (forall|i: int| 0 <= i < ixs.len() ==> (#[trigger] ixs[i]).program_id_index < 256)
            ==> crate::convert_from::instructions_fault(ixs) is None,
        forall|i: int|
            0 <= i < ixs.len() && (#[trigger] ixs[i]).program_id_index >= 256
                ==> crate::convert_from::instructions_fault(ixs) == Some(
                ConversionError::Legacy("failed to decode CompiledInstruction.program_id_index)"),
            ),
{
}

/// A header keeps its three counts, each as it is.
pub proof fn law_header_is_kept(header: proto::MessageHeader)
    requires
        crate::convert_from::header_fault(Some(header)) is None,
    ensures
        ({
            let out: MessageHeader = crate::convert_from::header_contents(header);
            &&& out.num_required_signatures as int == header.num_required_signatures as int
            &&& out.num_readonly_signed_accounts as int == header.num_readonly_signed_accounts as int
            &&& out.num_readonly_unsigned_accounts as int == header.num_readonly_unsigned_accounts as int
        }),
{
}

/// A header is refused exactly if it is missing or a count does not fit a byte; the first such
/// count is told.
pub proof fn law_header_is_checked(header: Option<proto::MessageHeader>)
    ensures
        match header {
            None => crate::convert_from::header_fault(header) == Some(
                ConversionError::Legacy("failed to get MessageHeader"),
            ),
            Some(counts) => {
                &&& counts.num_required_signatures >= 256 ==> crate::convert_from::header_fault(header) == Some(
                    ConversionError::Legacy("failed to parse num_required_signatures"),
                )
                &&& counts.num_required_signatures < 256 && counts.num_readonly_signed_accounts >= 256
                    ==> crate::convert_from::header_fault(header) == Some(
                    ConversionError::Legacy("failed to parse num_readonly_signed_accounts"),
                )
                &&& counts.num_required_signatures < 256 && counts.num_readonly_signed_accounts < 256
                    && counts.num_readonly_unsigned_accounts >= 256 ==> crate::convert_from::header_fault(header)
                    == Some(ConversionError::Legacy("failed to parse num_readonly_unsigned_accounts"))
                &&& counts.num_required_signatures < 256 && counts.num_readonly_signed_accounts < 256
                    && counts.num_readonly_unsigned_accounts < 256 ==> crate::convert_from::header_fault(header)
                    is None
            },
        },
{
}

/// An accepted message from before versions keeps its header, its addresses, its block hash
/// and its instructions.
pub proof fn law_legacy_message_is_kept(message: proto::Message, out: LegacyMessage)
    requires
        crate::convert_from::message_fault(message) is None,
        crate::convert_from::message_matches(message, VersionedMessage::Legacy(out)),
    ensures
        message.config is None,
        !message.versioned,
        message.header matches Some(header) && {
            &&& out.header.num_required_signatures as int == header.num_required_signatures as int
            &&& out.header.num_readonly_signed_accounts as int == header.num_readonly_signed_accounts as int
            &&& out.header.num_readonly_unsigned_accounts as int == header.num_readonly_unsigned_accounts as int
        },
        out.account_keys@.len() == message.account_keys@.len(),
        forall|i: int|
            0 <= i < message.account_keys@.len() ==> (#[trigger] out.account_keys@[i]).bytes@
                == message.account_keys@[i]@,
        out.recent_blockhash.bytes@ == message.recent_blockhash@,
        out.instructions@.len() == message.instructions@.len(),
        forall|i: int|
            0 <= i < message.instructions@.len() ==> {
                &&& (#[trigger] out.instructions@[i]).program_id_index as int
                    == message.instructions@[i].program_id_index as int
                &&& out.instructions@[i].accounts@ == message.instructions@[i].accounts@
                &&& out.instructions@[i].data@ == message.instructions@[i].data@
            },
{
    crate::laws::accounts::law_addresses_are_kept(message.account_keys@, out.account_keys@);
    law_instructions_are_kept(message.instructions@, out.instructions@);
    law_header_is_checked(message.header);
    law_header_is_kept(message.header->0);
    assert(out.recent_blockhash@ == message.recent_blockhash@);
}

/// An accepted V0 message keeps its header, its addresses, its block hash and its
/// instructions, and every one of its address table lookups: the table, the indexes to write
/// and the indexes to read.
pub proof fn law_v0_message_is_kept(message: proto::Message, out: MessageV0)
    requires
        crate::convert_from::message_fault(message) is None,
        crate::convert_from::message_matches(message, VersionedMessage::V0(out)),
    ensures
        message.config is None,
        message.versioned,
        message.header matches Some(header) && {
            &&& out.header.num_required_signatures as int == header.num_required_signatures as int
            &&& out.header.num_readonly_signed_accounts as int == header.num_readonly_signed_accounts as int
            &&& out.header.num_readonly_unsigned_accounts as int == header.num_readonly_unsigned_accounts as int
        },
        out.account_keys@.len() == message.account_keys@.len(),
        forall|i: int|
            0 <= i < message.account_keys@.len() ==> (#[trigger] out.account_keys@[i]).bytes@
                == message.account_keys@[i]@,
        out.recent_blockhash.bytes@ == message.recent_blockhash@,
        out.instructions@.len() == message.instructions@.len(),
        forall|i: int|
            0 <= i < message.instructions@.len() ==> {
                &&& (#[trigger] out.instructions@[i]).program_id_index as int
                    == message.instructions@[i].program_id_index as int
                &&& out.instructions@[i].accounts@ == message.instructions@[i].accounts@
                &&& out.instructions@[i].data@ == message.instructions@[i].data@
            },
        out.address_table_lookups@.len() == message.address_table_lookups@.len(),
        forall|i: int|
            0 <= i < message.address_table_lookups@.len() ==> {
                &&& (#[trigger] out.address_table_lookups@[i]).account_key.bytes@
                    == message.address_table_lookups@[i].account_key@
                &&& out.address_table_lookups@[i].writable_indexes@
                    == message.address_table_lookups@[i].writable_indexes@
                &&& out.address_table_lookups@[i].readonly_indexes@
                    == message.address_table_lookups@[i].readonly_indexes@
            },
{
    crate::laws::accounts::law_addresses_are_kept(message.account_keys@, out.account_keys@);
    law_instructions_are_kept(message.instructions@, out.instructions@);
    law_header_is_checked(message.header);
    law_header_is_kept(message.header->0);
    assert(out.recent_blockhash@ == message.recent_blockhash@);
    let lookups = message.address_table_lookups@;
    assert forall|i: int| 0 <= i < lookups.len() implies {
        &&& (#[trigger] out.address_table_lookups@[i]).account_key.bytes@ == lookups[i].account_key@
        &&& out.address_table_lookups@[i].writable_indexes@ == lookups[i].writable_indexes@
        &&& out.address_table_lookups@[i].readonly_indexes@ == lookups[i].readonly_indexes@
    } by {
        assert(crate::convert_from::lookup_matches(lookups[i], out.address_table_lookups@[i]));
        assert(out.address_table_lookups@[i].account_key@ == lookups[i].account_key@);
    }
}

/// An accepted V1 message keeps its header, each value of its configuration, its addresses,
/// its block hash and its instructions.
pub proof fn law_v1_message_is_kept(message: proto::Message, out: MessageV1)
    requires
        crate::convert_from::message_fault(message) is None,
        crate::convert_from::message_matches(message, VersionedMessage::V1(out)),
    ensures
        message.address_table_lookups@.len() == 0,
        message.config matches Some(config) && {
            &&& out.config.priority_fee == config.priority_fee
            &&& out.config.compute_unit_limit == config.compute_unit_limit
            &&& out.config.loaded_accounts_data_size_limit == config.loaded_accounts_data_size_limit
            &&& out.config.heap_size == config.heap_size
        },
        message.header matches Some(header) && {
            &&& out.header.num_required_signatures as int == header.num_required_signatures as int
            &&& out.header.num_readonly_signed_accounts as int == header.num_readonly_signed_accounts as int
            &&& out.header.num_readonly_unsigned_accounts as int == header.num_readonly_unsigned_accounts as int
        },
        out.account_keys@.len() == message.account_keys@.len(),
        forall|i: int|
            0 <= i < message.account_keys@.len() ==> (#[trigger] out.account_keys@[i]).bytes@
                == message.account_keys@[i]@,
        out.lifetime_specifier.bytes@ == message.recent_blockhash@,
        out.instructions@.len() == message.instructions@.len(),
        forall|i: int|
            0 <= i < message.instructions@.len() ==> {
                &&& (#[trigger] out.instructions@[i]).program_id_index as int
                    == message.instructions@[i].program_id_index as int
                &&& out.instructions@[i].accounts@ == message.instructions@[i].accounts@
                &&& out.instructions@[i].data@ == message.instructions@[i].data@
            },
{
    crate::laws::accounts::law_addresses_are_kept(message.account_keys@, out.account_keys@);
    law_instructions_are_kept(message.instructions@, out.instructions@);
    law_header_is_checked(message.header);
    law_header_is_kept(message.header->0);
    assert(out@.lifetime_specifier == message.recent_blockhash@);
    assert(out@.lifetime_specifier == out.lifetime_specifier@);
    assert(out@.header == out.header);
    assert(out@.config == out.config);
}

/// A message without a configuration is accepted if and only if its header is whole, its block
/// hash and its addresses have 32 bytes each, its programs fit a byte and, where it is
/// versioned, its lookup tables have 32 bytes each.
pub proof fn law_message_without_config_is_checked(message: proto::Message)
    requires
        message.config is None,
    ensures
        crate::convert_from::message_fault(message) is None <==> {
            &&& message.header matches Some(header)
            &&& header.num_required_signatures < 256
            &&& header.num_readonly_signed_accounts < 256
            &&& header.num_readonly_unsigned_accounts < 256
            &&& message.recent_blockhash@.len() == 32
            &&& forall|i: int|
                0 <= i < message.account_keys@.len() ==> (#[trigger] message.account_keys@[i])@.len() == 32
            &&& forall|i: int|
                0 <= i < message.instructions@.len() ==> (#[trigger] message.instructions@[i]).program_id_index < 256
            &&& message.versioned ==> forall|i: int|
                0 <= i < message.address_table_lookups@.len() ==> (#[trigger] message.address_table_lookups@[
                    i
                ]).account_key@.len() == 32
        },
{
    law_header_is_checked(message.header);
    crate::laws::accounts::law_addresses_have_32_bytes_each(message.account_keys@);
    law_instructions_are_checked(message.instructions@);
}

/// A message with a configuration is accepted if and only if its header is whole, its block
/// hash and its addresses have 32 bytes each, its programs fit a byte, it brings no address
/// table lookups, it meets the rules of V1 messages, and its transaction has at most 4096
/// bytes.
pub proof fn law_message_with_config_is_checked(message: proto::Message)
    requires
        message.config is Some,
    ensures
        crate::convert_from::message_fault(message) is None <==> {
            &&& message.header matches Some(header)
            &&& header.num_required_signatures < 256
            &&& header.num_readonly_signed_accounts < 256
            &&& header.num_readonly_unsigned_accounts < 256
            &&& message.recent_blockhash@.len() == 32
            &&& forall|i: int|
                0 <= i < message.account_keys@.len() ==> (#[trigger] message.account_keys@[i])@.len() == 32
            &&& forall|i: int|
                0 <= i < message.instructions@.len() ==> (#[trigger] message.instructions@[i]).program_id_index < 256
            &&& message.address_table_lookups@.len() == 0
            &&& crate::v1::v1_rules(crate::convert_from::v1_contents(message))
            &&& crate::v1::transaction_size(crate::convert_from::v1_contents(message)) <= 4096
        },
{
    law_header_is_checked(message.header);
    crate::laws::accounts::law_addresses_have_32_bytes_each(message.account_keys@);
    law_instructions_are_checked(message.instructions@);
    crate::v1::law_no_broken_rule(crate::convert_from::v1_contents(message));
}

/// The faults of a message come in a fixed order, whatever else is wrong with it: the header,
/// the block hash, the addresses, the instructions, and last what its version asks for.
pub proof fn law_message_faults_have_an_order(message: proto::Message)
    ensures
        message.header is None ==> crate::convert_from::message_fault(message) == Some(
            ConversionError::Legacy("failed to get MessageHeader"),
        ),
        message.header matches Some(header) ==> header.num_required_signatures >= 256
            ==> crate::convert_from::message_fault(message) == Some(
            ConversionError::Legacy("failed to parse num_required_signatures"),
        ),
        message.header matches Some(header) ==> header.num_required_signatures < 256
            && header.num_readonly_signed_accounts >= 256 ==> crate::convert_from::message_fault(message) == Some(
            ConversionError::Legacy("failed to parse num_readonly_signed_accounts"),
        ),
        message.header matches Some(header) ==> header.num_required_signatures < 256
            && header.num_readonly_signed_accounts < 256 && header.num_readonly_unsigned_accounts >= 256
            ==> crate::convert_from::message_fault(message) == Some(
            ConversionError::Legacy("failed to parse num_readonly_unsigned_accounts"),
        ),
        message.header matches Some(header) ==> header.num_required_signatures < 256
            && header.num_readonly_signed_accounts < 256 && header.num_readonly_unsigned_accounts < 256 ==> {
            &&& message.recent_blockhash@.len() != 32 ==> crate::convert_from::message_fault(message) == Some(
                ConversionError::Legacy("failed to parse hash"),
            )
            &&& message.recent_blockhash@.len() == 32 && (exists|i: int|
                0 <= i < message.account_keys@.len() && (#[trigger] message.account_keys@[i])@.len() != 32)
                ==> crate::convert_from::message_fault(message) == Some(
                ConversionError::Legacy("failed to parse Pubkey"),
            )
            &&& message.recent_blockhash@.len() == 32 && (forall|i: int|
                0 <= i < message.account_keys@.len() ==> (#[trigger] message.account_keys@[i])@.len() == 32) && (
            exists|i: int|
                0 <= i < message.instructions@.len() && (#[trigger] message.instructions@[i]).program_id_index >= 256)
                ==> crate::convert_from::message_fault(message) == Some(
                ConversionError::Legacy("failed to decode CompiledInstruction.program_id_index)"),
            )
            &&& message.recent_blockhash@.len() == 32 && (forall|i: int|
                0 <= i < message.account_keys@.len() ==> (#[trigger] message.account_keys@[i])@.len() == 32) && (
            forall|i: int|
                0 <= i < message.instructions@.len() ==> (#[trigger] message.instructions@[i]).program_id_index < 256)
                ==> {
                &&& message.config is Some && message.address_table_lookups@.len() > 0
                    ==> crate::convert_from::message_fault(message) == Some(ConversionError::V1AddressTableLookups)
                &&& message.config is Some && message.address_table_lookups@.len() == 0
                    ==> crate::convert_from::message_fault(message) == crate::v1::v1_fault(
                    crate::convert_from::v1_contents(message),
                )
                &&& message.config is None && !message.versioned ==> crate::convert_from::message_fault(message) is None
                &&& message.config is None && message.versioned && (exists|i: int|
                    0 <= i < message.address_table_lookups@.len() && (#[trigger] message.address_table_lookups@[
                        i
                    ]).account_key@.len() != 32) ==> crate::convert_from::message_fault(message) == Some(
                    ConversionError::Legacy("failed to parse Pubkey"),
                )
            }
        },
{
    law_header_is_checked(message.header);
    crate::laws::accounts::law_addresses_have_32_bytes_each(message.account_keys@);
    law_instructions_are_checked(message.instructions@);
}

/// An accepted transaction keeps its signatures, in order, and brings a message that is
/// accepted; a V1 one has as many signatures as its header asks for.
pub proof fn law_transaction_is_kept(tx: proto::Transaction, out: VersionedTransaction)
    requires
        crate::convert_from::transaction_fault(tx) is None,
        crate::convert_from::transaction_matches(tx, out),
    ensures
        out.signatures@.len() == tx.signatures@.len(),
        forall|i: int| 0 <= i < tx.signatures@.len() ==> (#[trigger] out.signatures@[i]).bytes@ == tx.signatures@[i]@,
        forall|i: int| 0 <= i < tx.signatures@.len() ==> (#[trigger] tx.signatures@[i])@.len() == 64,
        tx.message matches Some(message) && crate::convert_from::message_fault(message) is None
            && crate::convert_from::message_matches(message, out.message),
        out.message is V1 ==> tx.signatures@.len() == tx.message->0.header->0.num_required_signatures,
{
    assert forall|i: int| 0 <= i < tx.signatures@.len() implies (#[trigger] out.signatures@[i]).bytes@
        == tx.signatures@[i]@ by {
        assert(out.signatures@[i]@ == tx.signatures@[i]@);
    }
}

/// A transaction is accepted if and only if its signatures have 64 bytes each, it brings a
/// message that is accepted and, with a configuration, as many signatures as the header asks
/// for. A bad signature is told before anything else, then a missing message, then what is
/// wrong with the message.
pub proof fn law_transaction_is_checked(tx: proto::Transaction)
    ensures
        crate::convert_from::transaction_fault(tx) is None <==> {
            &&& forall|i: int| 0 <= i < tx.signatures@.len() ==> (#[trigger] tx.signatures@[i])@.len() == 64
            &&& tx.message matches Some(message)
            &&& crate::convert_from::message_fault(message) is None
            &&& message.config is Some ==> tx.signatures@.len() == message.header->0.num_required_signatures
        },
        (exists|i: int| 0 <= i < tx.signatures@.len() && (#[trigger] tx.signatures@[i])@.len() != 64)
            ==> crate::convert_from::transaction_fault(tx) == Some(
            ConversionError::Legacy("failed to parse Signature"),
        ),
        (forall|i: int| 0 <= i < tx.signatures@.len() ==> (#[trigger] tx.signatures@[i])@.len() == 64) ==> {
            &&& tx.message is None ==> crate::convert_from::transaction_fault(tx) == Some(
                ConversionError::Legacy("failed to get message"),
            )
            &&& tx.message matches Some(message) ==> crate::convert_from::message_fault(message) is Some
                ==> crate::convert_from::transaction_fault(tx) == crate::convert_from::message_fault(message)
            &&& tx.message matches Some(message) ==> crate::convert_from::message_fault(message) is None
                && message.config is Some && tx.signatures@.len() != message.header->0.num_required_signatures
                ==> crate::convert_from::transaction_fault(tx) == Some(ConversionError::InvalidV1SignatureCount)
        },
{
}

} // verus!
