//! What becomes of accounts and transactions of the stream.
use crate::delivery::{DeliveryPlan, Tally, TransactionUpdateRejection, TransactionVersion};
use crate::output::{AuthoritativeOutputError, SendFailure};
use crate::proto::{SubscribeUpdateAccountInfo, SubscribeUpdateTransactionInfo};
use crate::updates::{AccountUpdate, TransactionUpdate, Update, UpdateType};
use vstd::prelude::*;

verus! {

/// A transaction is told whole: the update holds the signature, the signatures, the place, the
/// mark of votes and the status numbers of the message, the slot and the block time that go with
/// it, and no block hash.
pub proof fn law_transaction_is_told_whole(
    info: SubscribeUpdateTransactionInfo,
    slot: u64,
    block_time: Option<i64>,
    out: TransactionUpdate,
)
    requires
        crate::delivery::transaction_rejection(info) is None,
        crate::delivery::transaction_update_matches(info, slot, block_time, out),
    ensures
        out.signature.bytes@ == info.signature@,
        out.is_vote == info.is_vote,
        out.slot == slot,
        out.index == Some(info.index),
        out.block_time == block_time,
        out.block_hash is None,
        info.transaction matches Some(transaction) && {
            &&& crate::convert_from::transaction_fault(transaction) is None
            &&& crate::convert_from::transaction_matches(transaction, out.transaction)
            &&& out.transaction.signatures@.len() == transaction.signatures@.len()
            &&& forall|i: int|
                0 <= i < transaction.signatures@.len() ==> (#[trigger] out.transaction.signatures@[i]).bytes@
                    == transaction.signatures@[i]@
        },
        info.meta matches Some(meta) && {
            &&& crate::convert_from::meta_fault(meta) is None
            &&& crate::convert_from::meta_matches(meta, out.meta)
            &&& out.meta.fee == meta.fee
            &&& out.meta.status is Ok <==> meta.err is None
        },
{
    assert(out.signature@ == info.signature@);
    crate::laws::messages::law_transaction_is_kept(info.transaction->0, out.transaction);
    crate::laws::statuses::law_status_is_kept(info.meta->0, out.meta);
}

/// Why a transaction is not handed on: its signature has not 64 bytes, it is missing, it is
/// malformed, its status is missing, or its status is malformed. The first of these is told,
/// and without any of them the transaction is handed on.
pub proof fn law_rejections_have_an_order(info: SubscribeUpdateTransactionInfo)
    ensures
        info.signature@.len() != 64 ==> crate::delivery::transaction_rejection(info) == Some(
            TransactionUpdateRejection::InvalidSignature,
        ),
        info.signature@.len() == 64 ==> match info.transaction {
            None => crate::delivery::transaction_rejection(info) == Some(
                TransactionUpdateRejection::MissingTransaction,
            ),
            Some(transaction) => match crate::convert_from::transaction_fault(transaction) {
                Some(error) => crate::delivery::transaction_rejection(info) == Some(
                    TransactionUpdateRejection::InvalidTransaction(error),
                ),
                None => match info.meta {
                    None => crate::delivery::transaction_rejection(info) == Some(
                        TransactionUpdateRejection::MissingMeta,
                    ),
                    Some(meta) => match crate::convert_from::meta_fault(meta) {
                        Some(error) => crate::delivery::transaction_rejection(info) == Some(
                            TransactionUpdateRejection::InvalidMeta(error),
                        ),
                        None => crate::delivery::transaction_rejection(info) is None,
                    },
                },
            },
        },
{
}

/// What is planned for a transaction: without any contents it is rejected as missing, a
/// malformed one is rejected for its reason, and any other is sent with its own signature, slot,
/// place and mark.
pub proof fn law_transaction_plan(
    info: Option<SubscribeUpdateTransactionInfo>,
    slot: u64,
    block_time: Option<i64>,
    plan: DeliveryPlan,
)
    requires
        crate::delivery::transaction_plan_matches(info, slot, block_time, plan),
    ensures
        info is None ==> plan == (DeliveryPlan::Rejected {
            version: TransactionVersion::Unknown,
            rejection: TransactionUpdateRejection::MissingInfo,
        }),
        info matches Some(inner) ==> match crate::delivery::transaction_rejection(inner) {
            Some(rejection) => {
                &&& plan matches DeliveryPlan::Rejected { version, rejection: reason }
                &&& reason == rejection
                &&& version == TransactionVersion::version_of(info)
            },
            None => {
                &&& plan matches DeliveryPlan::Send(Update::Transaction(update))
                &&& update.signature.bytes@ == inner.signature@
                &&& update.is_vote == inner.is_vote
                &&& update.slot == slot
                &&& update.index == Some(inner.index)
                &&& update.block_time == block_time
                &&& update.block_hash is None
                &&& crate::delivery::transaction_update_matches(inner, slot, block_time, *update)
            },
        },
{
    if info is Some && crate::delivery::transaction_rejection(info->0) is None {
        let update = plan->Send_0->Transaction_0;
        law_transaction_is_told_whole(info->0, slot, block_time, *update);
    }
}

/// The version of a transaction: V1 with a configuration, V0 if it is versioned without one,
/// else from before versions; unknown without a message.
pub proof fn law_transaction_versions(info: SubscribeUpdateTransactionInfo)
    ensures
        TransactionVersion::version_of(None) == TransactionVersion::Unknown,
        info.transaction is None ==> TransactionVersion::version_of(Some(info)) == TransactionVersion::Unknown,
        info.transaction matches Some(transaction) ==> {
            &&& transaction.message is None ==> TransactionVersion::version_of(Some(info))
                == TransactionVersion::Unknown
            &&& transaction.message matches Some(message) ==> {
                &&& message.config is Some ==> TransactionVersion::version_of(Some(info)) == TransactionVersion::V1
                &&& message.config is None && message.versioned ==> TransactionVersion::version_of(Some(info))
                    == TransactionVersion::V0
                &&& message.config is None && !message.versioned ==> TransactionVersion::version_of(Some(info))
                    == TransactionVersion::Legacy
            }
        },
{
}

/// The version that a rejected transaction is counted under is the version that it would have
/// been converted to.
pub proof fn law_version_is_that_of_the_message(info: SubscribeUpdateTransactionInfo, slot: u64, out: TransactionUpdate)
    requires
        crate::delivery::transaction_rejection(info) is None,
        crate::delivery::transaction_update_matches(info, slot, None, out),
    ensures
        out.transaction.message is V1 <==> TransactionVersion::version_of(Some(info)) == TransactionVersion::V1,
        out.transaction.message is V0 <==> TransactionVersion::version_of(Some(info)) == TransactionVersion::V0,
        out.transaction.message is Legacy <==> TransactionVersion::version_of(Some(info)) == TransactionVersion::Legacy,
{
}

/// The labels of the versions and of the reasons.
pub proof fn law_rejection_labels(error: crate::error::ConversionError)
    ensures
        TransactionVersion::Legacy.label() == "legacy",
        TransactionVersion::V0.label() == "v0",
        TransactionVersion::V1.label() == "v1",
        TransactionVersion::Unknown.label() == "unknown",
        TransactionUpdateRejection::MissingInfo.label() == "missing_info",
        TransactionUpdateRejection::InvalidSignature.label() == "invalid_signature",
        TransactionUpdateRejection::MissingTransaction.label() == "missing_transaction",
        TransactionUpdateRejection::MissingMeta.label() == "missing_meta",
        TransactionUpdateRejection::InvalidTransaction(error).label() == "invalid_transaction",
        TransactionUpdateRejection::InvalidMeta(error).label() == "invalid_meta",
{
}

/// An account is gone exactly if it holds no lamports and no data, and is owned by the address
/// of 32 zeros.
pub proof fn law_deletion_is_an_empty_system_account(info: SubscribeUpdateAccountInfo)
    ensures
        crate::delivery::is_deletion(info) <==> {
            &&& info.lamports == 0
            &&& info.data@.len() == 0
            &&& info.owner@.len() == 32
            &&& forall|j: int| 0 <= j < 32 ==> #[trigger] info.owner@[j] == 0
        },
{
    crate::laws::accounts::law_system_program_is_all_zeros(info.owner@);
}

/// A well-formed account that is not gone is told whole, whatever accounts are watched: the
/// update holds the address, the lamports, the data, the owner, the executable flag, the rent
/// epoch and the write version of the message, its slot, and the signature of the transaction
/// that wrote it, where that has 64 bytes.
pub proof fn law_live_account_is_told_whole(
    info: SubscribeUpdateAccountInfo,
    slot: u64,
    watched: Set<Seq<u8>>,
    plan: DeliveryPlan,
)
    requires
        crate::delivery::account_plan_matches(Some(info), slot, watched, plan),
        info.pubkey@.len() == 32,
        info.owner@.len() == 32,
        info.lamports > 0 || info.data@.len() > 0 || exists|j: int| 0 <= j < 32 && #[trigger] info.owner@[j] != 0,
    ensures
        plan matches DeliveryPlan::Send(Update::Account(update)) && {
            &&& update.pubkey.bytes@ == info.pubkey@
            &&& update.account.lamports == info.lamports
            &&& update.account.data@ == info.data@
            &&& update.account.owner.bytes@ == info.owner@
            &&& update.account.executable == info.executable
            &&& update.account.rent_epoch == info.rent_epoch
            &&& update.slot == slot
            &&& update.write_version == Some(info.write_version)
            &&& info.txn_signature is None ==> update.transaction_signature is None
            &&& info.txn_signature matches Some(signature) ==> {
                &&& signature@.len() != 64 ==> update.transaction_signature is None
                &&& signature@.len() == 64 ==> (update.transaction_signature matches Some(writer)
                    && writer.bytes@ == signature@)
            }
        },
{
    law_deletion_is_an_empty_system_account(info);
    let update: AccountUpdate = plan->Send_0->Account_0;
    assert(update.pubkey@ == info.pubkey@);
    assert(update.account.owner@ == info.owner@);
    if let Some(writer) = update.transaction_signature {
        assert(writer@ == info.txn_signature->0@);
        assert(writer.bytes@.len() == 64);
    }
}

/// A well-formed account that is gone is told as gone if it is watched, with its address, its
/// slot, its write version and its writer, and is not told at all if it is not.
pub proof fn law_gone_account_is_told_if_watched(
    info: SubscribeUpdateAccountInfo,
    slot: u64,
    watched: Set<Seq<u8>>,
    plan: DeliveryPlan,
)
    requires
        crate::delivery::account_plan_matches(Some(info), slot, watched, plan),
        info.pubkey@.len() == 32,
        info.owner@.len() == 32,
        info.lamports == 0,
        info.data@.len() == 0,
        forall|j: int| 0 <= j < 32 ==> #[trigger] info.owner@[j] == 0,
    ensures
        !watched.contains(info.pubkey@) ==> plan is UntrackedDeletion,
        watched.contains(info.pubkey@) ==> (plan matches DeliveryPlan::Send(Update::AccountDeletion(deletion)) && {
            &&& deletion.pubkey.bytes@ == info.pubkey@
            &&& deletion.slot == slot
            &&& deletion.write_version == Some(info.write_version)
            &&& info.txn_signature is None ==> deletion.transaction_signature is None
            &&& info.txn_signature matches Some(signature) ==> {
                &&& signature@.len() != 64 ==> deletion.transaction_signature is None
                &&& signature@.len() == 64 ==> (deletion.transaction_signature matches Some(writer)
                    && writer.bytes@ == signature@)
            }
        }),
{
    law_deletion_is_an_empty_system_account(info);
    if watched.contains(info.pubkey@) {
        let deletion = plan->Send_0->AccountDeletion_0;
        assert(deletion.pubkey@ == info.pubkey@);
        if let Some(writer) = deletion.transaction_signature {
            assert(writer@ == info.txn_signature->0@);
            assert(writer.bytes@.len() == 64);
        }
    }
}

/// An account whose address or owner has not 32 bytes is not told, and a message without an
/// account brings none.
pub proof fn law_malformed_account_is_not_told(
    info: Option<SubscribeUpdateAccountInfo>,
    slot: u64,
    watched: Set<Seq<u8>>,
    plan: DeliveryPlan,
)
    requires
        crate::delivery::account_plan_matches(info, slot, watched, plan),
    ensures
        info is None <==> plan is MissingAccount,
        plan is MalformedAccount <==> (info matches Some(account) && (account.pubkey@.len() != 32
            || account.owner@.len() != 32)),
        plan !is Rejected,
{
}

/// What is counted: accounts and gone accounts as accounts, whether they are told or not,
/// transactions as transactions, rejected ones as rejected, and nothing for what is malformed
/// or missing.
pub proof fn law_tallies(plan: DeliveryPlan)
    ensures
        plan is MissingAccount ==> plan.counts() == Tally::Nothing,
        plan is MalformedAccount ==> plan.counts() == Tally::Nothing,
        plan is UntrackedDeletion ==> plan.counts() == Tally::AccountReceived,
        plan is Rejected ==> plan.counts() == Tally::TransactionRejected,
        plan matches DeliveryPlan::Send(update) ==> {
            &&& update is Account ==> plan.counts() == Tally::AccountReceived
            &&& update is AccountDeletion ==> plan.counts() == Tally::AccountReceived
            &&& update is Transaction ==> plan.counts() == Tally::TransactionReceived
            &&& update is BlockDetails ==> plan.counts() == Tally::Nothing
        },
{
}

/// What a plan comes to: an update that was taken is counted, one that was refused by a full
/// channel is lost, one that was refused by a closed channel is lost too unless the datasource
/// was cancelled, and a plan that sends nothing is counted whatever the channel says.
pub proof fn law_delivery_outcomes(plan: DeliveryPlan, slot: u64, sent: Result<(), SendFailure>, cancelled: bool)
    ensures
        plan !is Send ==> crate::delivery::delivery_outcome(plan, slot, sent, cancelled) == Ok::<
            Tally,
            AuthoritativeOutputError,
        >(plan.counts()),
        plan matches DeliveryPlan::Send(update) ==> {
            &&& sent is Ok ==> crate::delivery::delivery_outcome(plan, slot, sent, cancelled) == Ok::<
                Tally,
                AuthoritativeOutputError,
            >(plan.counts())
            &&& sent == Err::<(), _>(SendFailure::Full) ==> crate::delivery::delivery_outcome(
                plan,
                slot,
                sent,
                cancelled,
            ) == Err::<Tally, _>(AuthoritativeOutputError::Full { update_type: update.kind(), slot })
            &&& sent == Err::<(), _>(SendFailure::Closed) && !cancelled ==> crate::delivery::delivery_outcome(
                plan,
                slot,
                sent,
                cancelled,
            ) == Err::<Tally, _>(AuthoritativeOutputError::Closed { update_type: update.kind(), slot })
            &&& sent == Err::<(), _>(SendFailure::Closed) && cancelled ==> crate::delivery::delivery_outcome(
                plan,
                slot,
                sent,
                cancelled,
            ) == Ok::<Tally, AuthoritativeOutputError>(Tally::Nothing)
        },
{
}

/// A receipt holds the slot and what is counted, and the kind of the update where one is sent.
pub proof fn law_receipts(plan: DeliveryPlan, slot: u64)
    ensures
        plan.receipt_of(slot).slot == slot,
        plan.receipt_of(slot).tally == plan.counts(),
        plan !is Send ==> plan.receipt_of(slot).update_type is None,
        plan matches DeliveryPlan::Send(update) ==> plan.receipt_of(slot).update_type == Some(update.kind()),
{
}

/// An update that a closed channel refuses is lost, with its kind and its slot, unless the
/// datasource was cancelled.
pub proof fn law_closed_channel_loses_updates(update_type: UpdateType, slot: u64)
    ensures
        crate::output::send_outcome(update_type, slot, Err(SendFailure::Closed), false) == Err::<bool, _>(
            AuthoritativeOutputError::Closed { update_type, slot },
        ),
        crate::output::send_outcome(update_type, slot, Err(SendFailure::Closed), true) == Ok::<
            bool,
            AuthoritativeOutputError,
        >(false),
{
}

/// The text, the state and the kind of a lost update.
pub proof fn law_lost_update_is_named(update_type: UpdateType, slot: u64)
    ensures
        (AuthoritativeOutputError::Full { update_type, slot }).text() == "authoritative output channel "@ + "full"@
            + " for "@ + update_type.name_text() + " at slot "@ + crate::text::decimal_digits(slot as nat),
        (AuthoritativeOutputError::Closed { update_type, slot }).text() == "authoritative output channel "@ + "closed"@
            + " for "@ + update_type.name_text() + " at slot "@ + crate::text::decimal_digits(slot as nat),
        (AuthoritativeOutputError::Full { update_type, slot }).state_label() == "full",
        (AuthoritativeOutputError::Closed { update_type, slot }).state_label() == "closed",
        (AuthoritativeOutputError::Full { update_type, slot }).lost_type() == update_type,
        (AuthoritativeOutputError::Closed { update_type, slot }).lost_type() == update_type,
{
}

/// The kind of an update, and the names of the kinds.
pub proof fn law_update_kinds(update: Update)
    ensures
        update is Account <==> update.kind() == UpdateType::AccountUpdate,
        update is Transaction <==> update.kind() == UpdateType::Transaction,
        update is AccountDeletion <==> update.kind() == UpdateType::AccountDeletion,
        update is BlockDetails <==> update.kind() == UpdateType::BlockDetails,
        UpdateType::AccountUpdate.name_text() == "AccountUpdate"@,
        UpdateType::Transaction.name_text() == "Transaction"@,
        UpdateType::AccountDeletion.name_text() == "AccountDeletion"@,
        UpdateType::BlockDetails.name_text() == "BlockDetails"@,
{
}

} // verus!
