//! Conversion of the messages of the stream into transactions, accounts and blocks.
//!
//! For every kind of message, a `_fault` function says which error refuses it, if any, and
//! a `_matches` relation says what an accepted one becomes.
use crate::chain::{
    Account, CompiledInstruction, ConfirmedBlock, InnerInstruction, InnerInstructions, LegacyMessage,
    LoadedAddresses, MessageAddressTableLookup, MessageHeader, MessageV0, MessageV1, Reward, RewardType,
    RewardsAndNumPartitions, TransactionConfig, TransactionReturnData, TransactionStatusMeta,
    TransactionTokenBalance, TransactionWithStatusMeta, UiTokenAmount, VersionedMessage,
    VersionedTransaction, VersionedTransactionWithStatusMeta,
};
use crate::error::ConversionError;
use crate::keys::{BlockHash, Pubkey, Signature, HASH_BYTES, PUBKEY_BYTES, SIGNATURE_BYTES};
use crate::proto;
use crate::text::{parse_u16, parse_u8};
use crate::v1::{check_v1_message, InstructionView, MessageV1View};
use vstd::prelude::*;

verus! {

/// The result of a conversion.
pub type CreateResult<T> = Result<T, ConversionError>;

// ---------------------------------------------------------------------------------------
// Lists

/// The error of the first item that has one.
pub open spec fn first_fault<T>(
    items: Seq<T>,
    fault: spec_fn(T) -> Option<ConversionError>,
) -> Option<ConversionError>
    decreases items.len(),
{
    if items.len() == 0 {
        None
    } else {
        match first_fault(items.drop_last(), fault) {
            Some(error) => Some(error),
            None => fault(items.last()),
        }
    }
}

/// A list is refused with the error of its first refused item, and accepted if no item is
/// refused.
pub proof fn law_first_fault<T>(items: Seq<T>, fault: spec_fn(T) -> Option<ConversionError>)
    ensures
        match first_fault(items, fault) {
            None => forall|i: int| 0 <= i < items.len() ==> fault(#[trigger] items[i]) is None,
            Some(error) => exists|k: int|
                0 <= k < items.len() && fault(#[trigger] items[k]) == Some(error) && (forall|j: int|
                    0 <= j < k ==> fault(#[trigger] items[j]) is None),
        },
    decreases items.len(),
{
    if items.len() > 0 {
        let rest = items.drop_last();
        law_first_fault(rest, fault);
        match first_fault(rest, fault) {
            Some(error) => {
                let k = choose|k: int|
                    0 <= k < rest.len() && fault(#[trigger] rest[k]) == Some(error) && (forall|j: int|
                        0 <= j < k ==> fault(#[trigger] rest[j]) is None);
                assert(items[k] == rest[k]);
                assert forall|j: int| 0 <= j < k implies fault(#[trigger] items[j]) is None by {
                    assert(items[j] == rest[j]);
                }
            },
            None => {
                let last = items.len() - 1;
                assert forall|j: int| 0 <= j < last implies fault(#[trigger] items[j]) is None by {
                    assert(items[j] == rest[j]);
                }
                assert(items[last] == items.last());
            },
        }
    }
}

/// One more item of a list.
proof fn lemma_first_fault_step<T>(items: Seq<T>, i: int, fault: spec_fn(T) -> Option<ConversionError>)
    requires
        0 <= i < items.len(),
    ensures
        first_fault(items.take(i + 1), fault) == match first_fault(items.take(i), fault) {
            Some(error) => Some(error),
            None => fault(items[i]),
        },
{
    assert(items.take(i + 1).drop_last() =~= items.take(i));
    assert(items.take(i + 1).last() == items[i]);
}

/// The error of a part of a list is the error of the list.
proof fn lemma_first_fault_prefix<T>(items: Seq<T>, i: int, fault: spec_fn(T) -> Option<ConversionError>)
    requires
        0 <= i <= items.len(),
        first_fault(items.take(i), fault) is Some,
    ensures
        first_fault(items, fault) == first_fault(items.take(i), fault),
    decreases items.len() - i,
{
    if i == items.len() {
        assert(items.take(i) =~= items);
    } else {
        lemma_first_fault_step(items, i, fault);
        lemma_first_fault_prefix(items, i + 1, fault);
    }
}

// ---------------------------------------------------------------------------------------
// Addresses and accounts

/// Why bytes are no address.
pub open spec fn pubkey_fault(pubkey: Seq<u8>) -> Option<ConversionError> {
    if pubkey.len() == PUBKEY_BYTES {
        None
    } else {
        Some(ConversionError::Legacy("failed to parse Pubkey"))
    }
}

/// Why one of several byte strings is no address.
pub open spec fn pubkeys_fault(pubkeys: Seq<Vec<u8>>) -> Option<ConversionError> {
    if forall|i: int| 0 <= i < pubkeys.len() ==> (#[trigger] pubkeys[i])@.len() == PUBKEY_BYTES {
        None
    } else {
        Some(ConversionError::Legacy("failed to parse Pubkey"))
    }
}

/// The addresses are those that the byte strings hold, in order.
pub open spec fn pubkeys_match(pubkeys: Seq<Vec<u8>>, out: Seq<Pubkey>) -> bool {
    &&& out.len() == pubkeys.len()
    &&& forall|i: int| 0 <= i < pubkeys.len() ==> (#[trigger] out[i])@ == pubkeys[i]@
}

/// The address that bytes hold.
pub fn create_pubkey(pubkey: &[u8]) -> (r: CreateResult<Pubkey>)
    ensures
        match r {
            Ok(key) => pubkey_fault(pubkey@) is None && key@ == pubkey@,
            Err(error) => pubkey_fault(pubkey@) == Some(error),
        },
{
    match Pubkey::from_slice(pubkey) {
        Some(key) => Ok(key),
        None => Err(ConversionError::Legacy("failed to parse Pubkey")),
    }
}

/// The addresses that byte strings hold.
pub fn create_pubkey_vec(pubkeys: Vec<Vec<u8>>) -> (r: CreateResult<Vec<Pubkey>>)
    ensures
        match r {
            Ok(keys) => pubkeys_fault(pubkeys@) is None && pubkeys_match(pubkeys@, keys@),
            Err(error) => pubkeys_fault(pubkeys@) == Some(error),
        },
{
    let mut keys: Vec<Pubkey> = Vec::with_capacity(pubkeys.len());
    for i in 0..pubkeys.len()
        invariant
            keys@.len() == i,
            forall|j: int| 0 <= j < i ==> (#[trigger] pubkeys@[j])@.len() == PUBKEY_BYTES,
            forall|j: int| 0 <= j < i ==> (#[trigger] keys@[j])@ == pubkeys@[j]@,
    {
        match create_pubkey(pubkeys[i].as_slice()) {
            Ok(key) => keys.push(key),
            Err(error) => {
                assert(pubkeys@[i as int]@.len() != PUBKEY_BYTES);
                return Err(error);
            },
        }
    }
    Ok(keys)
}

/// Why the addresses that a transaction loads are refused.
pub open spec fn loaded_addresses_fault(writable: Seq<Vec<u8>>, readonly: Seq<Vec<u8>>) -> Option<
    ConversionError,
> {
    match pubkeys_fault(writable) {
        Some(error) => Some(error),
        None => pubkeys_fault(readonly),
    }
}

/// What the addresses that a transaction loads become.
pub open spec fn loaded_addresses_match(
    writable: Seq<Vec<u8>>,
    readonly: Seq<Vec<u8>>,
    out: LoadedAddresses,
) -> bool {
    pubkeys_match(writable, out.writable@) && pubkeys_match(readonly, out.readonly@)
}

/// The addresses that a transaction loads.
pub fn create_loaded_addresses(writable: Vec<Vec<u8>>, readonly: Vec<Vec<u8>>) -> (r: CreateResult<
    LoadedAddresses,
>)
    ensures
        match r {
            Ok(out) => loaded_addresses_fault(writable@, readonly@) is None && loaded_addresses_match(
                writable@,
                readonly@,
                out,
            ),
            Err(error) => loaded_addresses_fault(writable@, readonly@) == Some(error),
        },
{
    let writable = create_pubkey_vec(writable)?;
    let readonly = create_pubkey_vec(readonly)?;
    Ok(LoadedAddresses { writable, readonly })
}

/// Takes the data out of an account, and leaves it without any.
pub fn take_account_data(account: &mut proto::SubscribeUpdateAccountInfo) -> (r: Vec<u8>)
    ensures
        r == old(account).data,
        final(account).data@ == Seq::<u8>::empty(),
        *final(account) == (proto::SubscribeUpdateAccountInfo { data: final(account).data, ..*old(account) }),
{
    let mut data: Vec<u8> = Vec::new();
    std::mem::swap(&mut data, &mut account.data);
    data
}

/// Why an account is refused.
pub open spec fn account_fault(account: proto::SubscribeUpdateAccountInfo) -> Option<ConversionError> {
    match pubkey_fault(account.pubkey@) {
        Some(error) => Some(error),
        None => pubkey_fault(account.owner@),
    }
}

/// What an account becomes.
pub open spec fn account_matches(account: proto::SubscribeUpdateAccountInfo, pubkey: Pubkey, out: Account) -> bool {
    &&& pubkey@ == account.pubkey@
    &&& out.lamports == account.lamports
    &&& out.data == account.data
    &&& out.owner@ == account.owner@
    &&& out.executable == account.executable
    &&& out.rent_epoch == account.rent_epoch
}

/// The address and the state of an account.
pub fn create_account(account: proto::SubscribeUpdateAccountInfo) -> (r: CreateResult<(Pubkey, Account)>)
    ensures
        match r {
            Ok(out) => account_fault(account) is None && account_matches(account, out.0, out.1),
            Err(error) => account_fault(account) == Some(error),
        },
{
    let mut account = account;
    let pubkey = create_pubkey(account.pubkey.as_slice())?;
    let data = take_account_data(&mut account);
    let owner = create_pubkey(account.owner.as_slice())?;
    Ok(
        (
            pubkey,
            Account {
                lamports: account.lamports,
                data,
                owner,
                executable: account.executable,
                rent_epoch: account.rent_epoch,
            },
        ),
    )
}

// ---------------------------------------------------------------------------------------
// Messages and transactions

/// Why an instruction is refused.
pub open spec fn instruction_fault(program_id_index: u32) -> Option<ConversionError> {
    if program_id_index <= u8::MAX {
        None
    } else {
        Some(ConversionError::Legacy("failed to decode CompiledInstruction.program_id_index)"))
    }
}

/// What an instruction becomes.
pub open spec fn instruction_matches(ix: proto::CompiledInstruction, out: CompiledInstruction) -> bool {
    &&& out.program_id_index == ix.program_id_index
    &&& out.accounts == ix.accounts
    &&& out.data == ix.data
}

/// Why the instructions of a message are refused.
pub open spec fn instructions_fault(ixs: Seq<proto::CompiledInstruction>) -> Option<ConversionError> {
    if forall|i: int| 0 <= i < ixs.len() ==> (#[trigger] ixs[i]).program_id_index <= u8::MAX {
        None
    } else {
        Some(ConversionError::Legacy("failed to decode CompiledInstruction.program_id_index)"))
    }
}

/// What the instructions of a message become, in order.
pub open spec fn instructions_match(ixs: Seq<proto::CompiledInstruction>, out: Seq<CompiledInstruction>) -> bool {
    &&& out.len() == ixs.len()
    &&& forall|i: int| 0 <= i < ixs.len() ==> instruction_matches(ixs[i], #[trigger] out[i])
}

/// An instruction of a message.
pub fn create_message_instruction(ix: proto::CompiledInstruction) -> (r: CreateResult<CompiledInstruction>)
    ensures
        match r {
            Ok(out) => instruction_fault(ix.program_id_index) is None && instruction_matches(ix, out),
            Err(error) => instruction_fault(ix.program_id_index) == Some(error),
        },
{
    match u8::try_from(ix.program_id_index) {
        Ok(program_id_index) => Ok(
            CompiledInstruction { program_id_index, accounts: ix.accounts, data: ix.data },
        ),
        Err(_) => Err(ConversionError::Legacy("failed to decode CompiledInstruction.program_id_index)")),
    }
}

/// The instructions of a message.
pub fn create_message_instructions(ixs: Vec<proto::CompiledInstruction>) -> (r: CreateResult<
    Vec<CompiledInstruction>,
>)
    ensures
        match r {
            Ok(out) => instructions_fault(ixs@) is None && instructions_match(ixs@, out@),
            Err(error) => instructions_fault(ixs@) == Some(error),
        },
{
    let mut out: Vec<CompiledInstruction> = Vec::with_capacity(ixs.len());
    for ix in it: ixs
        invariant
            it.seq() == ixs@,
            out@.len() == it.index(),
            forall|j: int| 0 <= j < it.index() ==> (#[trigger] ixs@[j]).program_id_index <= u8::MAX,
            forall|j: int| 0 <= j < it.index() ==> instruction_matches(ixs@[j], #[trigger] out@[j]),
    {
        assert(ix == ixs@[it.index()]);
        match create_message_instruction(ix) {
            Ok(instruction) => out.push(instruction),
            Err(error) => return Err(error),
        }
    }
    Ok(out)
}

/// The V1 message that a message of the stream stands for.
pub open spec fn v1_contents(message: proto::Message) -> MessageV1View {
    MessageV1View {
        header: header_contents(message.header->0),
        config: TransactionConfig {
            priority_fee: message.config->0.priority_fee,
            compute_unit_limit: message.config->0.compute_unit_limit,
            loaded_accounts_data_size_limit: message.config->0.loaded_accounts_data_size_limit,
            heap_size: message.config->0.heap_size,
        },
        lifetime_specifier: message.recent_blockhash@,
        account_keys: Seq::new(message.account_keys@.len(), |i: int| message.account_keys@[i]@),
        instructions: Seq::new(
            message.instructions@.len(),
            |i: int|
                InstructionView {
                    program_id_index: message.instructions@[i].program_id_index as u8,
                    accounts: message.instructions@[i].accounts@,
                    data: message.instructions@[i].data@,
                },
        ),
    }
}

/// The counts of a header.
pub open spec fn header_contents(header: proto::MessageHeader) -> MessageHeader {
    MessageHeader {
        num_required_signatures: header.num_required_signatures as u8,
        num_readonly_signed_accounts: header.num_readonly_signed_accounts as u8,
        num_readonly_unsigned_accounts: header.num_readonly_unsigned_accounts as u8,
    }
}

/// Why a header is refused.
pub open spec fn header_fault(header: Option<proto::MessageHeader>) -> Option<ConversionError> {
    match header {
        None => Some(ConversionError::Legacy("failed to get MessageHeader")),
        Some(header) => if header.num_required_signatures > u8::MAX {
            Some(ConversionError::Legacy("failed to parse num_required_signatures"))
        } else if header.num_readonly_signed_accounts > u8::MAX {
            Some(ConversionError::Legacy("failed to parse num_readonly_signed_accounts"))
        } else if header.num_readonly_unsigned_accounts > u8::MAX {
            Some(ConversionError::Legacy("failed to parse num_readonly_unsigned_accounts"))
        } else {
            None
        },
    }
}

/// Why address table lookups are refused.
pub open spec fn lookups_fault(lookups: Seq<proto::MessageAddressTableLookup>) -> Option<ConversionError> {
    if forall|i: int| 0 <= i < lookups.len() ==> (#[trigger] lookups[i]).account_key@.len() == PUBKEY_BYTES {
        None
    } else {
        Some(ConversionError::Legacy("failed to parse Pubkey"))
    }
}

/// What an address table lookup becomes.
pub open spec fn lookup_matches(lookup: proto::MessageAddressTableLookup, out: MessageAddressTableLookup) -> bool {
    &&& out.account_key@ == lookup.account_key@
    &&& out.writable_indexes == lookup.writable_indexes
    &&& out.readonly_indexes == lookup.readonly_indexes
}

/// What address table lookups become, in order.
pub open spec fn lookups_match(
    lookups: Seq<proto::MessageAddressTableLookup>,
    out: Seq<MessageAddressTableLookup>,
) -> bool {
    &&& out.len() == lookups.len()
    &&& forall|i: int| 0 <= i < lookups.len() ==> lookup_matches(lookups[i], #[trigger] out[i])
}

/// Why a message is refused.
///
/// A message with a configuration is a V1 message: it must not bring address table lookups,
/// and it must meet the rules and the wire limit of V1 messages.
pub open spec fn message_fault(message: proto::Message) -> Option<ConversionError> {
    if header_fault(message.header) is Some {
        header_fault(message.header)
    } else if message.recent_blockhash@.len() != HASH_BYTES {
        Some(ConversionError::Legacy("failed to parse hash"))
    } else if pubkeys_fault(message.account_keys@) is Some {
        pubkeys_fault(message.account_keys@)
    } else if instructions_fault(message.instructions@) is Some {
        instructions_fault(message.instructions@)
    } else if message.config is Some {
        if message.address_table_lookups@.len() != 0 {
            Some(ConversionError::V1AddressTableLookups)
        } else {
            crate::v1::v1_fault(v1_contents(message))
        }
    } else if message.versioned {
        lookups_fault(message.address_table_lookups@)
    } else {
        None
    }
}

/// What a message becomes: V1 if it brings a configuration, else V0 if it is versioned,
/// else a message from before versions.
pub open spec fn message_matches(message: proto::Message, out: VersionedMessage) -> bool {
    match out {
        VersionedMessage::V1(out) => {
            &&& message.config is Some
            &&& out@ == v1_contents(message)
            &&& pubkeys_match(message.account_keys@, out.account_keys@)
            &&& instructions_match(message.instructions@, out.instructions@)
        },
        VersionedMessage::V0(out) => {
            &&& message.config is None
            &&& message.versioned
            &&& out.header == header_contents(message.header->0)
            &&& pubkeys_match(message.account_keys@, out.account_keys@)
            &&& out.recent_blockhash@ == message.recent_blockhash@
            &&& instructions_match(message.instructions@, out.instructions@)
            &&& lookups_match(message.address_table_lookups@, out.address_table_lookups@)
        },
        VersionedMessage::Legacy(out) => {
            &&& message.config is None
            &&& !message.versioned
            &&& out.header == header_contents(message.header->0)
            &&& pubkeys_match(message.account_keys@, out.account_keys@)
            &&& out.recent_blockhash@ == message.recent_blockhash@
            &&& instructions_match(message.instructions@, out.instructions@)
        },
    }
}

/// The counts of a header, as far as they fit a byte each.
fn create_header(header: Option<proto::MessageHeader>) -> (r: CreateResult<MessageHeader>)
    ensures
        match r {
            Ok(out) => header_fault(header) is None && out == header_contents(header->0),
            Err(error) => header_fault(header) == Some(error),
        },
{
    let header = match header {
        Some(header) => header,
        None => return Err(ConversionError::Legacy("failed to get MessageHeader")),
    };
    let num_required_signatures: u8 = match u8::try_from(header.num_required_signatures) {
        Ok(count) => count,
        Err(_) => return Err(ConversionError::Legacy("failed to parse num_required_signatures")),
    };
    let num_readonly_signed_accounts: u8 = match u8::try_from(header.num_readonly_signed_accounts) {
        Ok(count) => count,
        Err(_) => return Err(ConversionError::Legacy("failed to parse num_readonly_signed_accounts")),
    };
    let num_readonly_unsigned_accounts: u8 = match u8::try_from(header.num_readonly_unsigned_accounts) {
        Ok(count) => count,
        Err(_) => return Err(ConversionError::Legacy("failed to parse num_readonly_unsigned_accounts")),
    };
    Ok(MessageHeader { num_required_signatures, num_readonly_signed_accounts, num_readonly_unsigned_accounts })
}

/// The address table lookups of a message.
fn create_lookups(lookups: Vec<proto::MessageAddressTableLookup>) -> (r: CreateResult<Vec<MessageAddressTableLookup>>)
    ensures
        match r {
            Ok(out) => lookups_fault(lookups@) is None && lookups_match(lookups@, out@),
            Err(error) => lookups_fault(lookups@) == Some(error),
        },
{
    let mut out: Vec<MessageAddressTableLookup> = Vec::with_capacity(lookups.len());
    for lookup in it: lookups
        invariant
            it.seq() == lookups@,
            out@.len() == it.index(),
            forall|j: int| 0 <= j < it.index() ==> (#[trigger] lookups@[j]).account_key@.len() == PUBKEY_BYTES,
            forall|j: int| 0 <= j < it.index() ==> lookup_matches(lookups@[j], #[trigger] out@[j]),
    {
        assert(lookup == lookups@[it.index()]);
        match create_pubkey(lookup.account_key.as_slice()) {
            Ok(account_key) => out.push(
                MessageAddressTableLookup {
                    account_key,
                    writable_indexes: lookup.writable_indexes,
                    readonly_indexes: lookup.readonly_indexes,
                },
            ),
            Err(error) => return Err(error),
        }
    }
    Ok(out)
}

/// The message of a transaction.
pub fn create_message(message: proto::Message) -> (r: CreateResult<VersionedMessage>)
    ensures
        match r {
            Ok(out) => message_fault(message) is None && message_matches(message, out),
            Err(error) => message_fault(message) == Some(error),
        },
{
    let ghost wire = message;
    let header = create_header(message.header)?;
    let recent_blockhash = match BlockHash::from_slice(message.recent_blockhash.as_slice()) {
        Some(hash) => hash,
        None => return Err(ConversionError::Legacy("failed to parse hash")),
    };
    let account_keys = create_pubkey_vec(message.account_keys)?;
    let instructions = create_message_instructions(message.instructions)?;

    if let Some(config) = message.config {
        if message.address_table_lookups.len() != 0 {
            return Err(ConversionError::V1AddressTableLookups);
        }
        let out = MessageV1 {
            header,
            config: TransactionConfig {
                priority_fee: config.priority_fee,
                compute_unit_limit: config.compute_unit_limit,
                loaded_accounts_data_size_limit: config.loaded_accounts_data_size_limit,
                heap_size: config.heap_size,
            },
            lifetime_specifier: recent_blockhash,
            account_keys,
            instructions,
        };
        proof {
            assert(out@.account_keys =~= v1_contents(wire).account_keys);
            assert(out@.instructions =~= v1_contents(wire).instructions) by {
                assert forall|i: int| 0 <= i < wire.instructions@.len() implies out@.instructions[i]
                    == v1_contents(wire).instructions[i] by {
                    assert(instruction_matches(wire.instructions@[i], out.instructions@[i]));
                }
            }
            assert(out@ == v1_contents(wire));
        }
        match check_v1_message(out) {
            Ok(out) => Ok(VersionedMessage::V1(out)),
            Err(error) => Err(error),
        }
    } else if message.versioned {
        let address_table_lookups = create_lookups(message.address_table_lookups)?;
        Ok(
            VersionedMessage::V0(
                MessageV0 { header, account_keys, recent_blockhash, instructions, address_table_lookups },
            ),
        )
    } else {
        Ok(VersionedMessage::Legacy(LegacyMessage { header, account_keys, recent_blockhash, instructions }))
    }
}

/// Why signatures are refused.
pub open spec fn signatures_fault(signatures: Seq<Vec<u8>>) -> Option<ConversionError> {
    if forall|i: int| 0 <= i < signatures.len() ==> (#[trigger] signatures[i])@.len() == SIGNATURE_BYTES {
        None
    } else {
        Some(ConversionError::Legacy("failed to parse Signature"))
    }
}

/// The signatures are those that the byte strings hold, in order.
pub open spec fn signatures_match(signatures: Seq<Vec<u8>>, out: Seq<Signature>) -> bool {
    &&& out.len() == signatures.len()
    &&& forall|i: int| 0 <= i < signatures.len() ==> (#[trigger] out[i])@ == signatures[i]@
}

/// Why a transaction is refused.
///
/// A V1 transaction must bring as many signatures as the header of its message asks for.
pub open spec fn transaction_fault(tx: proto::Transaction) -> Option<ConversionError> {
    if signatures_fault(tx.signatures@) is Some {
        signatures_fault(tx.signatures@)
    } else {
        match tx.message {
            None => Some(ConversionError::Legacy("failed to get message")),
            Some(message) => if message_fault(message) is Some {
                message_fault(message)
            } else if message.config is Some && tx.signatures@.len()
                != message.header->0.num_required_signatures {
                Some(ConversionError::InvalidV1SignatureCount)
            } else {
                None
            },
        }
    }
}

/// What a transaction becomes.
pub open spec fn transaction_matches(tx: proto::Transaction, out: VersionedTransaction) -> bool {
    signatures_match(tx.signatures@, out.signatures@) && message_matches(tx.message->0, out.message)
}

/// A signed transaction.
pub fn create_tx_versioned(tx: proto::Transaction) -> (r: CreateResult<VersionedTransaction>)
    ensures
        match r {
            Ok(out) => transaction_fault(tx) is None && transaction_matches(tx, out),
            Err(error) => transaction_fault(tx) == Some(error),
        },
{
    let mut signatures: Vec<Signature> = Vec::with_capacity(tx.signatures.len());
    for i in 0..tx.signatures.len()
        invariant
            signatures@.len() == i,
            forall|j: int| 0 <= j < i ==> (#[trigger] tx.signatures@[j])@.len() == SIGNATURE_BYTES,
            forall|j: int| 0 <= j < i ==> (#[trigger] signatures@[j])@ == tx.signatures@[j]@,
    {
        match Signature::from_slice(tx.signatures[i].as_slice()) {
            Some(signature) => signatures.push(signature),
            None => {
                assert(tx.signatures@[i as int]@.len() != SIGNATURE_BYTES);
                return Err(ConversionError::Legacy("failed to parse Signature"));
            },
        }
    }

    let message = match tx.message {
        Some(message) => create_message(message)?,
        None => return Err(ConversionError::Legacy("failed to get message")),
    };
    if let VersionedMessage::V1(v1) = &message {
        if signatures.len() != v1.header.num_required_signatures as usize {
            return Err(ConversionError::InvalidV1SignatureCount);
        }
    }
    Ok(VersionedTransaction { signatures, message })
}

// ---------------------------------------------------------------------------------------
// Rewards

/// The version of a message follows from two of its parts: with a configuration it is V1,
/// without one it is V0 where it is marked as versioned, and else from before versions.
pub proof fn law_message_version(message: proto::Message, out: VersionedMessage)
    requires
        message_fault(message) is None,
        message_matches(message, out),
    ensures
        out is V1 <==> message.config is Some,
        out is V0 <==> message.config is None && message.versioned,
        out is Legacy <==> message.config is None && !message.versioned,
{
}

/// Whatever the version, a message keeps its header, its addresses in order, its block hash
/// and its instructions in order.
pub proof fn law_message_contents(message: proto::Message, out: VersionedMessage)
    requires
        message_fault(message) is None,
        message_matches(message, out),
    ensures
        out.header_of() == header_contents(message.header->0),
        out.header_of().num_required_signatures == message.header->0.num_required_signatures,
        out.header_of().num_readonly_signed_accounts == message.header->0.num_readonly_signed_accounts,
        out.header_of().num_readonly_unsigned_accounts == message.header->0.num_readonly_unsigned_accounts,
        pubkeys_match(message.account_keys@, out.static_keys()),
        out.blockhash()@ == message.recent_blockhash@,
        instructions_match(message.instructions@, out.instruction_list()),
{
}

/// A V1 transaction that is accepted meets the rules of V1 messages, fits the wire limit,
/// brings no address table lookups, and has as many signatures as its header asks for.
pub proof fn law_v1_transaction_is_within_limits(tx: proto::Transaction, out: VersionedTransaction)
    requires
        transaction_fault(tx) is None,
        transaction_matches(tx, out),
        out.message is V1,
    ensures
        crate::v1::v1_rules(out.message->V1_0@),
        crate::v1::transaction_size(out.message->V1_0@) <= crate::v1::MAX_TRANSACTION_SIZE,
        tx.message->0.address_table_lookups@.len() == 0,
        out.signatures@.len() == out.message.header_of().num_required_signatures,
{
    crate::v1::law_no_broken_rule(out.message->V1_0@);
}

/// A V1 message is accepted exactly if it is whole, brings no address table lookups, meets
/// the rules of V1 messages and fits the wire limit.
pub proof fn law_v1_accepted(message: proto::Message)
    requires
        message.config is Some,
    ensures
        message_fault(message) is None <==> {
            &&& header_fault(message.header) is None
            &&& message.recent_blockhash@.len() == HASH_BYTES
            &&& pubkeys_fault(message.account_keys@) is None
            &&& instructions_fault(message.instructions@) is None
            &&& message.address_table_lookups@.len() == 0
            &&& crate::v1::v1_rules(v1_contents(message))
            &&& crate::v1::transaction_size(v1_contents(message)) <= crate::v1::MAX_TRANSACTION_SIZE
        },
{
    crate::v1::law_no_broken_rule(v1_contents(message));
}

/// A V1 message that is whole and brings no address table lookups, but breaks a rule of V1
/// messages, is refused with the error of the first rule that it breaks.
pub proof fn law_v1_broken_rule_is_told(message: proto::Message)
    requires
        header_fault(message.header) is None,
        message.recent_blockhash@.len() == HASH_BYTES,
        pubkeys_fault(message.account_keys@) is None,
        instructions_fault(message.instructions@) is None,
        message.config is Some,
        message.address_table_lookups@.len() == 0,
        !crate::v1::v1_rules(v1_contents(message)),
    ensures
        crate::v1::broken_rule(v1_contents(message)) matches Some(kind) && message_fault(message) == Some(
            ConversionError::InvalidV1Message(crate::error::message_error(kind)),
        ),
{
    crate::v1::law_no_broken_rule(v1_contents(message));
}

/// The wire limit alone decides on a V1 message that is whole, brings no address table
/// lookups and meets the rules of V1 messages: it is accepted exactly if its transaction fits.
pub proof fn law_v1_wire_limit(message: proto::Message)
    requires
        header_fault(message.header) is None,
        message.recent_blockhash@.len() == HASH_BYTES,
        pubkeys_fault(message.account_keys@) is None,
        instructions_fault(message.instructions@) is None,
        message.config is Some,
        message.address_table_lookups@.len() == 0,
        crate::v1::v1_rules(v1_contents(message)),
    ensures
        message_fault(message) is None <==> crate::v1::transaction_size(v1_contents(message))
            <= crate::v1::MAX_TRANSACTION_SIZE,
        message_fault(message) is Some ==> message_fault(message) == Some(ConversionError::V1TransactionTooLarge),
{
    crate::v1::law_no_broken_rule(v1_contents(message));
}

/// The kind of a reward, where the wire format specifies one.
pub open spec fn reward_kind(code: i32) -> Option<RewardType> {
    match proto::reward_type_of_code(code) {
        Some(proto::RewardType::Fee) => Some(RewardType::Fee),
        Some(proto::RewardType::Rent) => Some(RewardType::Rent),
        Some(proto::RewardType::Staking) => Some(RewardType::Staking),
        Some(proto::RewardType::Voting) => Some(RewardType::Voting),
        Some(proto::RewardType::DeactivatedStake) => Some(RewardType::DeactivatedStake),
        _ => None,
    }
}

/// The number that a commission writes; an empty text writes none.
pub open spec fn commission_value(text: Seq<char>, max: nat) -> Option<nat> {
    if text.len() == 0 {
        None
    } else {
        crate::text::parsed_unsigned(text, max)
    }
}

/// Why a reward is refused.
pub open spec fn reward_fault(reward: proto::Reward) -> Option<ConversionError> {
    if reward.commission_bps@.len() != 0 && crate::text::parsed_unsigned(
        reward.commission_bps@,
        u16::MAX as nat,
    ) is None {
        Some(ConversionError::Legacy("failed to parse reward commission bps"))
    } else if proto::reward_type_of_code(reward.reward_type) is None {
        Some(ConversionError::Legacy("failed to parse reward_type"))
    } else if reward.commission@.len() != 0 && crate::text::parsed_unsigned(
        reward.commission@,
        u8::MAX as nat,
    ) is None {
        Some(ConversionError::Legacy("failed to parse reward commission"))
    } else {
        None
    }
}

/// What a reward becomes.
pub open spec fn reward_matches(reward: proto::Reward, out: Reward) -> bool {
    &&& out.pubkey == reward.pubkey
    &&& out.lamports == reward.lamports
    &&& out.post_balance == reward.post_balance
    &&& out.reward_type == reward_kind(reward.reward_type)
    &&& match out.commission {
        Some(commission) => commission_value(reward.commission@, u8::MAX as nat) == Some(commission as nat),
        None => commission_value(reward.commission@, u8::MAX as nat) is None,
    }
    &&& match out.commission_bps {
        Some(bps) => commission_value(reward.commission_bps@, u16::MAX as nat) == Some(bps as nat),
        None => commission_value(reward.commission_bps@, u16::MAX as nat) is None,
    }
}

/// The check of one reward of a list.
pub open spec fn reward_check() -> spec_fn(proto::Reward) -> Option<ConversionError> {
    |reward: proto::Reward| reward_fault(reward)
}

/// Why a list of rewards is refused.
pub open spec fn rewards_fault(rewards: Seq<proto::Reward>) -> Option<ConversionError> {
    first_fault(rewards, reward_check())
}

/// What a list of rewards becomes, in order.
pub open spec fn rewards_match(rewards: Seq<proto::Reward>, out: Seq<Reward>) -> bool {
    &&& out.len() == rewards.len()
    &&& forall|i: int| 0 <= i < rewards.len() ==> reward_matches(rewards[i], #[trigger] out[i])
}

/// A reward.
pub fn create_reward(reward: proto::Reward) -> (r: CreateResult<Reward>)
    ensures
        match r {
            Ok(out) => reward_fault(reward) is None && reward_matches(reward, out),
            Err(error) => reward_fault(reward) == Some(error),
        },
{
    let commission_bps: Option<u16> = if reward.commission_bps.as_str().is_empty() {
        None
    } else {
        match parse_u16(reward.commission_bps.as_str()) {
            Some(bps) => Some(bps),
            None => return Err(ConversionError::Legacy("failed to parse reward commission bps")),
        }
    };
    let reward_type = match proto::RewardType::from_code(reward.reward_type) {
        None => return Err(ConversionError::Legacy("failed to parse reward_type")),
        Some(proto::RewardType::Unspecified) => None,
        Some(proto::RewardType::Fee) => Some(RewardType::Fee),
        Some(proto::RewardType::Rent) => Some(RewardType::Rent),
        Some(proto::RewardType::Staking) => Some(RewardType::Staking),
        Some(proto::RewardType::Voting) => Some(RewardType::Voting),
        Some(proto::RewardType::DeactivatedStake) => Some(RewardType::DeactivatedStake),
    };
    let commission: Option<u8> = if reward.commission.as_str().is_empty() {
        None
    } else {
        match parse_u8(reward.commission.as_str()) {
            Some(commission) => Some(commission),
            None => return Err(ConversionError::Legacy("failed to parse reward commission")),
        }
    };
    Ok(
        Reward {
            pubkey: reward.pubkey,
            lamports: reward.lamports,
            post_balance: reward.post_balance,
            reward_type,
            commission,
            commission_bps,
        },
    )
}

/// A list of rewards.
fn create_rewards(rewards: Vec<proto::Reward>) -> (r: CreateResult<Vec<Reward>>)
    ensures
        match r {
            Ok(out) => rewards_fault(rewards@) is None && rewards_match(rewards@, out@),
            Err(error) => rewards_fault(rewards@) == Some(error),
        },
{
    let mut out: Vec<Reward> = Vec::with_capacity(rewards.len());
    for reward in it: rewards
        invariant
            it.seq() == rewards@,
            out@.len() == it.index(),
            first_fault(rewards@.take(it.index()), reward_check()) is None,
            forall|j: int| 0 <= j < it.index() ==> reward_matches(rewards@[j], #[trigger] out@[j]),
    {
        proof {
            lemma_first_fault_step(rewards@, it.index(), reward_check());
        }
        assert(reward == rewards@[it.index()]);
        match create_reward(reward) {
            Ok(reward) => out.push(reward),
            Err(error) => {
                proof {
                    lemma_first_fault_prefix(rewards@, it.index() + 1, reward_check());
                }
                return Err(error);
            },
        }
    }
    assert(rewards@.take(rewards@.len() as int) =~= rewards@);
    Ok(out)
}

/// What the rewards of a block become.
pub open spec fn rewards_obj_matches(rewards: proto::Rewards, out: RewardsAndNumPartitions) -> bool {
    &&& rewards_match(rewards.rewards@, out.rewards@)
    &&& out.num_partitions == num_partitions_of(rewards.num_partitions)
}

/// The number of partitions, where one is given.
pub open spec fn num_partitions_of(num_partitions: Option<proto::NumPartitions>) -> Option<u64> {
    match num_partitions {
        Some(wrapper) => Some(wrapper.num_partitions),
        None => None,
    }
}

/// The rewards of a block.
pub fn create_rewards_obj(rewards: proto::Rewards) -> (r: CreateResult<RewardsAndNumPartitions>)
    ensures
        match r {
            Ok(out) => rewards_fault(rewards.rewards@) is None && rewards_obj_matches(rewards, out),
            Err(error) => rewards_fault(rewards.rewards@) == Some(error),
        },
{
    let out = create_rewards(rewards.rewards)?;
    let num_partitions: Option<u64> = match rewards.num_partitions {
        Some(wrapper) => Some(wrapper.num_partitions),
        None => None,
    };
    Ok(RewardsAndNumPartitions { rewards: out, num_partitions })
}

// ---------------------------------------------------------------------------------------
// Token balances and inner instructions

/// Why a token balance is refused.
pub open spec fn token_balance_fault(balance: proto::TokenBalance) -> Option<ConversionError> {
    match balance.ui_token_amount {
        None => Some(ConversionError::Legacy("failed to get ui_token_amount")),
        Some(ui_amount) => if balance.account_index > u8::MAX {
            Some(ConversionError::Legacy("failed to parse account_index"))
        } else if ui_amount.decimals > u8::MAX {
            Some(ConversionError::Legacy("failed to parse decimals"))
        } else {
            None
        },
    }
}

/// What a token balance becomes.
pub open spec fn token_balance_matches(balance: proto::TokenBalance, out: TransactionTokenBalance) -> bool {
    let ui_amount = balance.ui_token_amount->0;
    &&& out.account_index == balance.account_index
    &&& out.mint == balance.mint
    &&& out.ui_token_amount.ui_amount_bits == Some(ui_amount.ui_amount_bits)
    &&& out.ui_token_amount.decimals == ui_amount.decimals
    &&& out.ui_token_amount.amount == ui_amount.amount
    &&& out.ui_token_amount.ui_amount_string == ui_amount.ui_amount_string
    &&& out.owner == balance.owner
    &&& out.program_id == balance.program_id
}

/// The check of one token balance of a list.
pub open spec fn token_balance_check() -> spec_fn(proto::TokenBalance) -> Option<ConversionError> {
    |balance: proto::TokenBalance| token_balance_fault(balance)
}

/// Why token balances are refused.
pub open spec fn token_balances_fault(balances: Seq<proto::TokenBalance>) -> Option<ConversionError> {
    first_fault(balances, token_balance_check())
}

/// What token balances become, in order.
pub open spec fn token_balances_match(
    balances: Seq<proto::TokenBalance>,
    out: Seq<TransactionTokenBalance>,
) -> bool {
    &&& out.len() == balances.len()
    &&& forall|i: int| 0 <= i < balances.len() ==> token_balance_matches(balances[i], #[trigger] out[i])
}

/// A token balance.
fn create_token_balance(balance: proto::TokenBalance) -> (r: CreateResult<TransactionTokenBalance>)
    ensures
        match r {
            Ok(out) => token_balance_fault(balance) is None && token_balance_matches(balance, out),
            Err(error) => token_balance_fault(balance) == Some(error),
        },
{
    let ui_amount = match balance.ui_token_amount {
        Some(ui_amount) => ui_amount,
        None => return Err(ConversionError::Legacy("failed to get ui_token_amount")),
    };
    let account_index: u8 = match u8::try_from(balance.account_index) {
        Ok(index) => index,
        Err(_) => return Err(ConversionError::Legacy("failed to parse account_index")),
    };
    let decimals: u8 = match u8::try_from(ui_amount.decimals) {
        Ok(decimals) => decimals,
        Err(_) => return Err(ConversionError::Legacy("failed to parse decimals")),
    };
    Ok(
        TransactionTokenBalance {
            account_index,
            mint: balance.mint,
            ui_token_amount: UiTokenAmount {
                ui_amount_bits: Some(ui_amount.ui_amount_bits),
                decimals,
                amount: ui_amount.amount,
                ui_amount_string: ui_amount.ui_amount_string,
            },
            owner: balance.owner,
            program_id: balance.program_id,
        },
    )
}

/// Token balances.
pub fn create_token_balances(balances: Vec<proto::TokenBalance>) -> (r: CreateResult<
    Vec<TransactionTokenBalance>,
>)
    ensures
        match r {
            Ok(out) => token_balances_fault(balances@) is None && token_balances_match(balances@, out@),
            Err(error) => token_balances_fault(balances@) == Some(error),
        },
{
    let mut out: Vec<TransactionTokenBalance> = Vec::with_capacity(balances.len());
    for balance in it: balances
        invariant
            it.seq() == balances@,
            out@.len() == it.index(),
            first_fault(balances@.take(it.index()), token_balance_check()) is None,
            forall|j: int| 0 <= j < it.index() ==> token_balance_matches(balances@[j], #[trigger] out@[j]),
    {
        proof {
            lemma_first_fault_step(balances@, it.index(), token_balance_check());
        }
        assert(balance == balances@[it.index()]);
        match create_token_balance(balance) {
            Ok(balance) => out.push(balance),
            Err(error) => {
                proof {
                    lemma_first_fault_prefix(balances@, it.index() + 1, token_balance_check());
                }
                return Err(error);
            },
        }
    }
    assert(balances@.take(balances@.len() as int) =~= balances@);
    Ok(out)
}

/// Why the inner instructions of one instruction are refused.
pub open spec fn inner_instruction_fault(ix: proto::InnerInstructions) -> Option<ConversionError> {
    if exists|i: int| 0 <= i < ix.instructions@.len() && (#[trigger] ix.instructions@[i]).program_id_index > u8::MAX {
        Some(ConversionError::Legacy("failed to decode CompiledInstruction.program_id_index)"))
    } else if ix.index > u8::MAX {
        Some(ConversionError::Legacy("failed to decode InnerInstructions.index"))
    } else {
        None
    }
}

/// What an inner instruction becomes.
pub open spec fn inner_step_matches(ix: proto::InnerInstruction, out: InnerInstruction) -> bool {
    &&& out.instruction.program_id_index == ix.program_id_index
    &&& out.instruction.accounts == ix.accounts
    &&& out.instruction.data == ix.data
    &&& out.stack_height == ix.stack_height
}

/// What the inner instructions of one instruction become, in order.
pub open spec fn inner_instruction_matches(ix: proto::InnerInstructions, out: InnerInstructions) -> bool {
    &&& out.index == ix.index
    &&& out.instructions@.len() == ix.instructions@.len()
    &&& forall|i: int|
        0 <= i < ix.instructions@.len() ==> inner_step_matches(ix.instructions@[i], #[trigger] out.instructions@[i])
}

/// The check of the inner instructions of one instruction of a list.
pub open spec fn inner_instruction_check() -> spec_fn(proto::InnerInstructions) -> Option<ConversionError> {
    |ix: proto::InnerInstructions| inner_instruction_fault(ix)
}

/// Why inner instructions are refused.
pub open spec fn inner_instructions_fault(ixs: Seq<proto::InnerInstructions>) -> Option<ConversionError> {
    first_fault(ixs, inner_instruction_check())
}

/// What inner instructions become, in order.
pub open spec fn inner_instructions_match(
    ixs: Seq<proto::InnerInstructions>,
    out: Seq<InnerInstructions>,
) -> bool {
    &&& out.len() == ixs.len()
    &&& forall|i: int| 0 <= i < ixs.len() ==> inner_instruction_matches(ixs[i], #[trigger] out[i])
}

/// The inner instructions of one instruction.
pub fn create_meta_inner_instruction(ix: proto::InnerInstructions) -> (r: CreateResult<InnerInstructions>)
    ensures
        match r {
            Ok(out) => inner_instruction_fault(ix) is None && inner_instruction_matches(ix, out),
            Err(error) => inner_instruction_fault(ix) == Some(error),
        },
{
    let ghost steps = ix.instructions@;
    let mut instructions: Vec<InnerInstruction> = Vec::new();
    for step in it: ix.instructions
        invariant
            it.seq() == steps,
            steps == ix.instructions@,
            instructions@.len() == it.index(),
            forall|j: int| 0 <= j < it.index() ==> (#[trigger] steps[j]).program_id_index <= u8::MAX,
            forall|j: int| 0 <= j < it.index() ==> inner_step_matches(steps[j], #[trigger] instructions@[j]),
    {
        assert(step == steps[it.index()]);
        match u8::try_from(step.program_id_index) {
            Ok(program_id_index) => instructions.push(
                InnerInstruction {
                    instruction: CompiledInstruction { program_id_index, accounts: step.accounts, data: step.data },
                    stack_height: step.stack_height,
                },
            ),
            Err(_) => {
                return Err(ConversionError::Legacy("failed to decode CompiledInstruction.program_id_index)"));
            },
        }
    }
    match u8::try_from(ix.index) {
        Ok(index) => Ok(InnerInstructions { index, instructions }),
        Err(_) => Err(ConversionError::Legacy("failed to decode InnerInstructions.index")),
    }
}

/// The inner instructions of a transaction.
pub fn create_meta_inner_instructions(ixs: Vec<proto::InnerInstructions>) -> (r: CreateResult<
    Vec<InnerInstructions>,
>)
    ensures
        match r {
            Ok(out) => inner_instructions_fault(ixs@) is None && inner_instructions_match(ixs@, out@),
            Err(error) => inner_instructions_fault(ixs@) == Some(error),
        },
{
    let mut out: Vec<InnerInstructions> = Vec::with_capacity(ixs.len());
    for ix in it: ixs
        invariant
            it.seq() == ixs@,
            out@.len() == it.index(),
            first_fault(ixs@.take(it.index()), inner_instruction_check()) is None,
            forall|j: int| 0 <= j < it.index() ==> inner_instruction_matches(ixs@[j], #[trigger] out@[j]),
    {
        proof {
            lemma_first_fault_step(ixs@, it.index(), inner_instruction_check());
        }
        assert(ix == ixs@[it.index()]);
        match create_meta_inner_instruction(ix) {
            Ok(ix) => out.push(ix),
            Err(error) => {
                proof {
                    lemma_first_fault_prefix(ixs@, it.index() + 1, inner_instruction_check());
                }
                return Err(error);
            },
        }
    }
    assert(ixs@.take(ixs@.len() as int) =~= ixs@);
    Ok(out)
}

// ---------------------------------------------------------------------------------------
// Status and blocks

/// What `bincode::deserialize` makes of the encoding of a transaction error.
pub uninterp spec fn decoded_transaction_error(encoding: Seq<u8>) -> Option<
    solana_transaction_error::TransactionError,
>;

/// `bincode::deserialize` for `solana_transaction_error::TransactionError`: the outcome
/// depends on the encoding alone; `None` stands for an encoding that it refuses.
#[verifier::external_body]
fn decode_transaction_error(encoding: &[u8]) -> (r: Option<solana_transaction_error::TransactionError>)
    ensures
        r == decoded_transaction_error(encoding@),
{
    bincode::deserialize::<solana_transaction_error::TransactionError>(encoding).ok()
}

/// The error of a transaction, once its encoding was read; `None` stands for an encoding
/// that could not be read.
pub fn read_tx_error(decoded: Option<solana_transaction_error::TransactionError>) -> (r: CreateResult<
    Option<solana_transaction_error::TransactionError>,
>)
    ensures
        match decoded {
            Some(error) => r == Ok::<_, ConversionError>(Some(error)),
            None => r == Err::<Option<solana_transaction_error::TransactionError>, _>(
                ConversionError::Legacy("failed to decode TransactionError"),
            ),
        },
{
    match decoded {
        Some(error) => Ok(Some(error)),
        None => Err(ConversionError::Legacy("failed to decode TransactionError")),
    }
}

/// Why the error of a transaction is refused.
pub open spec fn tx_error_fault(err: Option<proto::EncodedTransactionError>) -> Option<ConversionError> {
    match err {
        Some(err) => if decoded_transaction_error(err.err@) is None {
            Some(ConversionError::Legacy("failed to decode TransactionError"))
        } else {
            None
        },
        None => None,
    }
}

/// The error of a transaction, where it has one.
pub open spec fn tx_error_of(err: Option<proto::EncodedTransactionError>) -> Option<
    solana_transaction_error::TransactionError,
> {
    match err {
        Some(err) => decoded_transaction_error(err.err@),
        None => None,
    }
}

/// The error of a transaction, where it has one.
pub fn create_tx_error(err: Option<&proto::EncodedTransactionError>) -> (r: CreateResult<
    Option<solana_transaction_error::TransactionError>,
>)
    ensures
        match err {
            None => r == Ok::<_, ConversionError>(None::<solana_transaction_error::TransactionError>),
            Some(err) => match r {
                Ok(out) => tx_error_fault(Some(*err)) is None && out is Some && out == tx_error_of(Some(*err)),
                Err(error) => tx_error_fault(Some(*err)) == Some(error),
            },
        },
{
    match err {
        Some(err) => read_tx_error(decode_transaction_error(err.err.as_slice())),
        None => Ok(None),
    }
}

/// Why the data that a transaction returned is refused.
pub open spec fn return_data_fault(return_data_none: bool, return_data: Option<proto::ReturnData>) -> Option<
    ConversionError,
> {
    if return_data_none {
        None
    } else {
        match return_data {
            None => Some(ConversionError::Legacy("failed to get return_data")),
            Some(data) => if data.program_id@.len() == PUBKEY_BYTES {
                None
            } else {
                Some(ConversionError::Legacy("failed to parse program_id"))
            },
        }
    }
}

/// What the data that a transaction returned becomes.
pub open spec fn return_data_matches(
    return_data_none: bool,
    return_data: Option<proto::ReturnData>,
    out: Option<TransactionReturnData>,
) -> bool {
    match out {
        None => return_data_none,
        Some(out) => {
            &&& !return_data_none
            &&& return_data is Some
            &&& out.program_id@ == return_data->0.program_id@
            &&& out.data == return_data->0.data
        },
    }
}

/// The data that a transaction returned, unless it is marked as returning none.
fn create_return_data(return_data_none: bool, return_data: Option<proto::ReturnData>) -> (r: CreateResult<
    Option<TransactionReturnData>,
>)
    ensures
        match r {
            Ok(out) => return_data_fault(return_data_none, return_data) is None && return_data_matches(
                return_data_none,
                return_data,
                out,
            ),
            Err(error) => return_data_fault(return_data_none, return_data) == Some(error),
        },
{
    if return_data_none {
        return Ok(None);
    }
    match return_data {
        None => Err(ConversionError::Legacy("failed to get return_data")),
        Some(data) => match Pubkey::from_slice(data.program_id.as_slice()) {
            Some(program_id) => Ok(Some(TransactionReturnData { program_id, data: data.data })),
            None => Err(ConversionError::Legacy("failed to parse program_id")),
        },
    }
}

/// Why the status of a transaction is refused.
pub open spec fn meta_fault(meta: proto::TransactionStatusMeta) -> Option<ConversionError> {
    if tx_error_fault(meta.err) is Some {
        tx_error_fault(meta.err)
    } else if rewards_fault(meta.rewards@) is Some {
        rewards_fault(meta.rewards@)
    } else if inner_instructions_fault(meta.inner_instructions@) is Some {
        inner_instructions_fault(meta.inner_instructions@)
    } else if token_balances_fault(meta.pre_token_balances@) is Some {
        token_balances_fault(meta.pre_token_balances@)
    } else if token_balances_fault(meta.post_token_balances@) is Some {
        token_balances_fault(meta.post_token_balances@)
    } else if loaded_addresses_fault(meta.loaded_writable_addresses@, meta.loaded_readonly_addresses@) is Some {
        loaded_addresses_fault(meta.loaded_writable_addresses@, meta.loaded_readonly_addresses@)
    } else {
        return_data_fault(meta.return_data_none, meta.return_data)
    }
}

/// What the status of a transaction becomes.
pub open spec fn meta_matches(meta: proto::TransactionStatusMeta, out: TransactionStatusMeta) -> bool {
    &&& match tx_error_of(meta.err) {
        Some(error) => out.status == Err::<(), _>(error),
        None => out.status is Ok,
    }
    &&& out.fee == meta.fee
    &&& out.pre_balances == meta.pre_balances
    &&& out.post_balances == meta.post_balances
    &&& out.inner_instructions is Some
    &&& inner_instructions_match(meta.inner_instructions@, out.inner_instructions->0@)
    &&& out.log_messages == Some(meta.log_messages)
    &&& out.pre_token_balances is Some
    &&& token_balances_match(meta.pre_token_balances@, out.pre_token_balances->0@)
    &&& out.post_token_balances is Some
    &&& token_balances_match(meta.post_token_balances@, out.post_token_balances->0@)
    &&& out.rewards is Some
    &&& rewards_match(meta.rewards@, out.rewards->0@)
    &&& loaded_addresses_match(
        meta.loaded_writable_addresses@,
        meta.loaded_readonly_addresses@,
        out.loaded_addresses,
    )
    &&& return_data_matches(meta.return_data_none, meta.return_data, out.return_data)
    &&& out.compute_units_consumed == meta.compute_units_consumed
    &&& out.cost_units == meta.cost_units
}

/// The status of a transaction.
pub fn create_tx_meta(meta: proto::TransactionStatusMeta) -> (r: CreateResult<TransactionStatusMeta>)
    ensures
        match r {
            Ok(out) => meta_fault(meta) is None && meta_matches(meta, out),
            Err(error) => meta_fault(meta) == Some(error),
        },
{
    let status = match create_tx_error(meta.err.as_ref())? {
        Some(error) => Err(error),
        None => Ok(()),
    };
    let rewards = create_rewards(meta.rewards)?;
    let inner_instructions = create_meta_inner_instructions(meta.inner_instructions)?;
    let pre_token_balances = create_token_balances(meta.pre_token_balances)?;
    let post_token_balances = create_token_balances(meta.post_token_balances)?;
    let loaded_addresses = create_loaded_addresses(meta.loaded_writable_addresses, meta.loaded_readonly_addresses)?;
    let return_data = create_return_data(meta.return_data_none, meta.return_data)?;
    Ok(
        TransactionStatusMeta {
            status,
            fee: meta.fee,
            pre_balances: meta.pre_balances,
            post_balances: meta.post_balances,
            inner_instructions: Some(inner_instructions),
            log_messages: Some(meta.log_messages),
            pre_token_balances: Some(pre_token_balances),
            post_token_balances: Some(post_token_balances),
            rewards: Some(rewards),
            loaded_addresses,
            return_data,
            compute_units_consumed: meta.compute_units_consumed,
            cost_units: meta.cost_units,
        },
    )
}

/// Why a transaction with its status is refused.
pub open spec fn tx_with_meta_fault(tx: proto::SubscribeUpdateTransactionInfo) -> Option<ConversionError> {
    if tx.meta is None {
        Some(ConversionError::Legacy("failed to get transaction meta"))
    } else if tx.transaction is None {
        Some(ConversionError::Legacy("failed to get transaction transaction"))
    } else if transaction_fault(tx.transaction->0) is Some {
        transaction_fault(tx.transaction->0)
    } else {
        meta_fault(tx.meta->0)
    }
}

/// What a transaction with its status becomes.
pub open spec fn tx_with_meta_matches(
    tx: proto::SubscribeUpdateTransactionInfo,
    out: TransactionWithStatusMeta,
) -> bool {
    match out {
        TransactionWithStatusMeta::Complete(out) => transaction_matches(tx.transaction->0, out.transaction)
            && meta_matches(tx.meta->0, out.meta),
    }
}

/// The check of one transaction of a block.
pub open spec fn tx_with_meta_check() -> spec_fn(proto::SubscribeUpdateTransactionInfo) -> Option<ConversionError> {
    |tx: proto::SubscribeUpdateTransactionInfo| tx_with_meta_fault(tx)
}

/// A transaction with its status.
pub fn create_tx_with_meta(tx: proto::SubscribeUpdateTransactionInfo) -> (r: CreateResult<
    TransactionWithStatusMeta,
>)
    ensures
        match r {
            Ok(out) => tx_with_meta_fault(tx) is None && tx_with_meta_matches(tx, out),
            Err(error) => tx_with_meta_fault(tx) == Some(error),
        },
{
    let meta = match tx.meta {
        Some(meta) => meta,
        None => return Err(ConversionError::Legacy("failed to get transaction meta")),
    };
    let transaction = match tx.transaction {
        Some(transaction) => transaction,
        None => return Err(ConversionError::Legacy("failed to get transaction transaction")),
    };
    let transaction = create_tx_versioned(transaction)?;
    let meta = create_tx_meta(meta)?;
    Ok(TransactionWithStatusMeta::Complete(VersionedTransactionWithStatusMeta { transaction, meta }))
}

/// Why a block is refused.
pub open spec fn block_fault(block: proto::SubscribeUpdateBlock) -> Option<ConversionError> {
    if first_fault(block.transactions@, tx_with_meta_check()) is Some {
        first_fault(block.transactions@, tx_with_meta_check())
    } else if block.rewards is None {
        Some(ConversionError::Legacy("failed to get rewards"))
    } else if rewards_fault(block.rewards->0.rewards@) is Some {
        rewards_fault(block.rewards->0.rewards@)
    } else if block.block_time is None {
        Some(ConversionError::Legacy("failed to get block_time"))
    } else if block.block_height is None {
        Some(ConversionError::Legacy("failed to get block_height"))
    } else {
        None
    }
}

/// What the transactions of a block become, in order.
pub open spec fn txs_with_meta_match(
    txs: Seq<proto::SubscribeUpdateTransactionInfo>,
    out: Seq<TransactionWithStatusMeta>,
) -> bool {
    &&& out.len() == txs.len()
    &&& forall|i: int| 0 <= i < txs.len() ==> tx_with_meta_matches(txs[i], #[trigger] out[i])
}

/// What a block becomes.
pub open spec fn block_matches(block: proto::SubscribeUpdateBlock, out: ConfirmedBlock) -> bool {
    &&& out.previous_blockhash == block.parent_blockhash
    &&& out.blockhash == block.blockhash
    &&& out.parent_slot == block.parent_slot
    &&& txs_with_meta_match(block.transactions@, out.transactions@)
    &&& rewards_match(block.rewards->0.rewards@, out.rewards@)
    &&& out.num_partitions == num_partitions_of(block.rewards->0.num_partitions)
    &&& out.block_time == Some(block.block_time->0.timestamp)
    &&& out.block_height == Some(block.block_height->0.block_height)
}

/// The transactions of a block.
fn create_block_transactions(txs: Vec<proto::SubscribeUpdateTransactionInfo>) -> (r: CreateResult<
    Vec<TransactionWithStatusMeta>,
>)
    ensures
        match r {
            Ok(out) => first_fault(txs@, tx_with_meta_check()) is None && txs_with_meta_match(txs@, out@),
            Err(error) => first_fault(txs@, tx_with_meta_check()) == Some(error),
        },
{
    let mut out: Vec<TransactionWithStatusMeta> = Vec::with_capacity(txs.len());
    for tx in it: txs
        invariant
            it.seq() == txs@,
            out@.len() == it.index(),
            first_fault(txs@.take(it.index()), tx_with_meta_check()) is None,
            forall|j: int| 0 <= j < it.index() ==> tx_with_meta_matches(txs@[j], #[trigger] out@[j]),
    {
        proof {
            lemma_first_fault_step(txs@, it.index(), tx_with_meta_check());
        }
        assert(tx == txs@[it.index()]);
        match create_tx_with_meta(tx) {
            Ok(tx) => out.push(tx),
            Err(error) => {
                proof {
                    lemma_first_fault_prefix(txs@, it.index() + 1, tx_with_meta_check());
                }
                return Err(error);
            },
        }
    }
    assert(txs@.take(txs@.len() as int) =~= txs@);
    Ok(out)
}

/// A block with its transactions and rewards.
pub fn create_block(block: proto::SubscribeUpdateBlock) -> (r: CreateResult<ConfirmedBlock>)
    ensures
        match r {
            Ok(out) => block_fault(block) is None && block_matches(block, out),
            Err(error) => block_fault(block) == Some(error),
        },
{
    let transactions = create_block_transactions(block.transactions)?;
    let block_rewards = match block.rewards {
        Some(rewards) => create_rewards_obj(rewards)?,
        None => return Err(ConversionError::Legacy("failed to get rewards")),
    };
    let block_time: i64 = match block.block_time {
        Some(wrapper) => wrapper.timestamp,
        None => return Err(ConversionError::Legacy("failed to get block_time")),
    };
    let block_height: u64 = match block.block_height {
        Some(wrapper) => wrapper.block_height,
        None => return Err(ConversionError::Legacy("failed to get block_height")),
    };
    Ok(
        ConfirmedBlock {
            previous_blockhash: block.parent_blockhash,
            blockhash: block.blockhash,
            parent_slot: block.parent_slot,
            transactions,
            rewards: block_rewards.rewards,
            num_partitions: block_rewards.num_partitions,
            block_time: Some(block_time),
            block_height: Some(block_height),
        },
    )
}

} // verus!
