//! What is planned for accounts and transactions, over what the stream brings.
use crate::delivery::{DeliveryPlan, Receipt, Tally, TransactionUpdateRejection, TransactionVersion};
use crate::error::ConversionError;
use crate::keys::PubkeySet;
use crate::output::{AuthoritativeOutputError, SendFailure};
use crate::proto::{SubscribeUpdateAccountInfo, SubscribeUpdateTransactionInfo};
use crate::updates::{TransactionUpdate, Update, UpdateType};
use vstd::prelude::*;

verus! {

/// For a well-formed account that is not gone, the update that is sent holds the address, the
/// lamports, the data, the owner, the executable flag, the rent epoch and the write version of
/// the message, its slot, and its writer.
pub proof fn law_plan_account_update_live(
    info: SubscribeUpdateAccountInfo,
    slot: u64,
    watched: &PubkeySet,
    plan: DeliveryPlan,
)
    requires
        call_ensures(crate::delivery::plan_account_update, (Some(info), slot, watched), plan),
        info.pubkey@.len() == 32,
        info.owner@.len() == 32,
        info.lamports > 0 || info.data@.len() > 0 || exists|j: int| 0 <= j < 32 && #[trigger] info.owner@[j] != 0,
    ensures
        plan matches DeliveryPlan::Send(Update::Account(update)) && {
            &&& update.pubkey.bytes@ == info.pubkey@
            &&& update.account.lamports == info.lamports
            &&& update.account.data@ == info.data@
            &&& update.account.owner.bytes@ == info.owner@
            &&& update.account.executable == info.executable
            &&& update.account.rent_epoch == info.rent_epoch
            &&& update.slot == slot
            &&& update.write_version == Some(info.write_version)
            &&& info.txn_signature is None ==> update.transaction_signature is None
            &&& info.txn_signature matches Some(signature) ==> {
                &&& signature@.len() != 64 ==> update.transaction_signature is None
                &&& signature@.len() == 64 ==> (update.transaction_signature matches Some(writer)
                    && writer.bytes@ == signature@)
            }
        },
{
    crate::laws::deliveries::law_live_account_is_told_whole(info, slot, watched@, plan);
}

/// A well-formed account that is gone is told as gone if it is watched, and else not at all.
pub proof fn law_plan_account_update_gone(
    info: SubscribeUpdateAccountInfo,
    slot: u64,
    watched: &PubkeySet,
    plan: DeliveryPlan,
)
    requires
        call_ensures(crate::delivery::plan_account_update, (Some(info), slot, watched), plan),
        info.pubkey@.len() == 32,
        info.owner@.len() == 32,
        info.lamports == 0,
        info.data@.len() == 0,
        forall|j: int| 0 <= j < 32 ==> #[trigger] info.owner@[j] == 0,
    ensures
        !watched@.contains(info.pubkey@) ==> plan is UntrackedDeletion,
        watched@.contains(info.pubkey@) ==> (plan matches DeliveryPlan::Send(Update::AccountDeletion(deletion)) && {
            &&& deletion.pubkey.bytes@ == info.pubkey@
            &&& deletion.slot == slot
            &&& deletion.write_version == Some(info.write_version)
            &&& info.txn_signature is None ==> deletion.transaction_signature is None
            &&& info.txn_signature matches Some(signature) ==> {
                &&& signature@.len() != 64 ==> deletion.transaction_signature is None
                &&& signature@.len() == 64 ==> (deletion.transaction_signature matches Some(writer)
                    && writer.bytes@ == signature@)
            }
        }),
{
    crate::laws::deliveries::law_gone_account_is_told_if_watched(info, slot, watched@, plan);
}

/// Nothing is planned for a message without an account, or for an account whose address or
/// owner has not 32 bytes.
pub proof fn law_plan_account_update_malformed(
    info: Option<SubscribeUpdateAccountInfo>,
    slot: u64,
    watched: &PubkeySet,
    plan: DeliveryPlan,
)
    requires
        call_ensures(crate::delivery::plan_account_update, (info, slot, watched), plan),
    ensures
        info is None <==> plan is MissingAccount,
        plan is MalformedAccount <==> (info matches Some(account) && (account.pubkey@.len() != 32
            || account.owner@.len() != 32)),
        plan !is Rejected,
{
    crate::laws::deliveries::law_malformed_account_is_not_told(info, slot, watched@, plan);
}

/// The watched accounts are asked for exactly where a well-formed account is gone.
pub proof fn law_is_account_deletion(info: &Option<SubscribeUpdateAccountInfo>, r: bool)
    requires
        call_ensures(crate::delivery::is_account_deletion, (info,), r),
    ensures
        r <==> (*info matches Some(account) && {
            &&& account.pubkey@.len() == 32
            &&& account.owner@.len() == 32
            &&& account.lamports == 0
            &&& account.data@.len() == 0
            &&& forall|j: int| 0 <= j < 32 ==> #[trigger] account.owner@[j] == 0
        }),
{
    if let Some(account) = info {
        crate::laws::deliveries::law_deletion_is_an_empty_system_account(*account);
    }
}

/// A well-formed transaction is sent with its own signature, mark, place and status, under its
/// slot, with the block time that goes with it and without a block hash.
pub proof fn law_plan_transaction_update(
    info: SubscribeUpdateTransactionInfo,
    slot: u64,
    block_time: Option<i64>,
    plan: DeliveryPlan,
)
    requires
        call_ensures(crate::delivery::plan_transaction_update, (Some(info), slot, block_time), plan),
    ensures
        plan is Send <==> {
            &&& info.signature@.len() == 64
            &&& info.transaction matches Some(transaction)
            &&& crate::convert_from::transaction_fault(transaction) is None
            &&& info.meta matches Some(meta)
            &&& crate::convert_from::meta_fault(meta) is None
        },
        plan is Send ==> (plan matches DeliveryPlan::Send(Update::Transaction(update)) && {
            &&& update.signature.bytes@ == info.signature@
            &&& update.is_vote == info.is_vote
            &&& update.slot == slot
            &&& update.index == Some(info.index)
            &&& update.block_time == block_time
            &&& update.block_hash is None
            &&& info.transaction matches Some(transaction)
            &&& crate::convert_from::transaction_matches(transaction, update.transaction)
            &&& info.meta matches Some(meta)
            &&& crate::convert_from::meta_matches(meta, update.meta)
        }),
        plan !is Send ==> plan is Rejected && crate::delivery::transaction_rejection(info) == Some(plan->rejection)
            && plan->version == TransactionVersion::version_of(Some(info)),
{
    crate::laws::deliveries::law_rejections_have_an_order(info);
    crate::laws::deliveries::law_transaction_plan(Some(info), slot, block_time, plan);
}

/// A message without a transaction is rejected as such.
pub proof fn law_plan_transaction_update_missing(slot: u64, block_time: Option<i64>, plan: DeliveryPlan)
    requires
        call_ensures(
            crate::delivery::plan_transaction_update,
            (None::<SubscribeUpdateTransactionInfo>, slot, block_time),
            plan,
        ),
    ensures
        plan == (DeliveryPlan::Rejected {
            version: TransactionVersion::Unknown,
            rejection: TransactionUpdateRejection::MissingInfo,
        }),
{
}

/// A transaction that is converted keeps its signature, its mark and its place, under its slot
/// and with the block time that goes with it; one that is not is rejected for its first fault.
pub proof fn law_convert_transaction_update(
    info: SubscribeUpdateTransactionInfo,
    slot: u64,
    block_time: Option<i64>,
    r: Result<TransactionUpdate, TransactionUpdateRejection>,
)
    requires
        call_ensures(crate::delivery::convert_transaction_update, (info, slot, block_time), r),
    ensures
        r is Ok <==> {
            &&& info.signature@.len() == 64
            &&& info.transaction matches Some(transaction)
            &&& crate::convert_from::transaction_fault(transaction) is None
            &&& info.meta matches Some(meta)
            &&& crate::convert_from::meta_fault(meta) is None
        },
        r matches Ok(out) ==> {
            &&& out.signature.bytes@ == info.signature@
            &&& out.is_vote == info.is_vote
            &&& out.slot == slot
            &&& out.index == Some(info.index)
            &&& out.block_time == block_time
            &&& out.block_hash is None
            &&& info.transaction matches Some(transaction)
            &&& crate::convert_from::transaction_matches(transaction, out.transaction)
            &&& info.meta matches Some(meta)
            &&& crate::convert_from::meta_matches(meta, out.meta)
        },
        r matches Err(rejection) ==> {
            &&& rejection is InvalidSignature <==> info.signature@.len() != 64
            &&& rejection is MissingTransaction <==> info.signature@.len() == 64 && info.transaction is None
            &&& rejection !is MissingInfo
            &&& rejection is MissingMeta ==> info.meta is None
            &&& rejection matches TransactionUpdateRejection::InvalidTransaction(error)
                ==> crate::convert_from::transaction_fault(info.transaction->0) == Some(error)
            &&& rejection matches TransactionUpdateRejection::InvalidMeta(error) ==> crate::convert_from::meta_fault(
                info.meta->0,
            ) == Some(error)
        },
{
    crate::laws::deliveries::law_rejections_have_an_order(info);
    if let Ok(out) = r {
        crate::laws::deliveries::law_transaction_is_told_whole(info, slot, block_time, out);
    }
}

/// The version of a transaction follows from its message.
pub proof fn law_of_info(info: &Option<SubscribeUpdateTransactionInfo>, r: TransactionVersion)
    requires
        call_ensures(TransactionVersion::of_info, (info,), r),
    ensures
        r == TransactionVersion::Unknown <==> !(*info matches Some(inner) && inner.transaction is Some
            && inner.transaction->0.message is Some),
        *info matches Some(inner) ==> inner.transaction matches Some(transaction) ==> transaction.message matches Some(
            message,
        ) ==> {
            &&& r == TransactionVersion::V1 <==> message.config is Some
            &&& r == TransactionVersion::V0 <==> message.config is None && message.versioned
            &&& r == TransactionVersion::Legacy <==> message.config is None && !message.versioned
        },
{
}

/// The labels of versions and reasons, and the error that a reason brings.
pub proof fn law_reasons(
    version: &TransactionVersion,
    version_label: &'static str,
    rejection: &TransactionUpdateRejection,
    rejection_label: &'static str,
    error: Option<&ConversionError>,
)
    requires
        call_ensures(TransactionVersion::as_label, (version,), version_label),
        call_ensures(TransactionUpdateRejection::as_label, (rejection,), rejection_label),
        call_ensures(TransactionUpdateRejection::conversion_error, (rejection,), error),
    ensures
        *version is Legacy ==> version_label == "legacy",
        *version is V0 ==> version_label == "v0",
        *version is V1 ==> version_label == "v1",
        *version is Unknown ==> version_label == "unknown",
        *rejection is MissingInfo ==> rejection_label == "missing_info" && error is None,
        *rejection is InvalidSignature ==> rejection_label == "invalid_signature" && error is None,
        *rejection is MissingTransaction ==> rejection_label == "missing_transaction" && error is None,
        *rejection is MissingMeta ==> rejection_label == "missing_meta" && error is None,
        *rejection matches TransactionUpdateRejection::InvalidTransaction(fault) ==> rejection_label
            == "invalid_transaction" && error == Some(&fault),
        *rejection matches TransactionUpdateRejection::InvalidMeta(fault) ==> rejection_label == "invalid_meta"
            && error == Some(&fault),
{
}

/// What is counted for a plan.
pub proof fn law_tally(plan: &DeliveryPlan, r: Tally)
    requires
        call_ensures(DeliveryPlan::tally, (plan,), r),
    ensures
        r == Tally::Nothing <==> {
            ||| *plan is MissingAccount
            ||| *plan is MalformedAccount
            ||| *plan matches DeliveryPlan::Send(Update::BlockDetails(_))
        },
        r == Tally::AccountReceived <==> {
            ||| *plan is UntrackedDeletion
            ||| *plan matches DeliveryPlan::Send(Update::Account(_))
            ||| *plan matches DeliveryPlan::Send(Update::AccountDeletion(_))
        },
        r == Tally::TransactionReceived <==> (*plan matches DeliveryPlan::Send(Update::Transaction(_))),
        r == Tally::TransactionRejected <==> *plan is Rejected,
{
}

/// The receipt of a plan, and what the plan comes to with the answer of the channel: counted
/// where nothing was to be sent or the update was taken, not counted where it was dropped in an
/// orderly shutdown, and else an error that names the update and its slot.
pub proof fn law_settle(
    plan: &DeliveryPlan,
    slot: u64,
    receipt: Receipt,
    tally: Tally,
    sent: Result<(), SendFailure>,
    cancelled: bool,
    r: Result<Tally, AuthoritativeOutputError>,
)
    requires
        call_ensures(DeliveryPlan::receipt, (plan, slot), receipt),
        call_ensures(DeliveryPlan::tally, (plan,), tally),
        call_ensures(Receipt::settle, (&receipt, sent, cancelled), r),
    ensures
        receipt.slot == slot,
        receipt.tally == tally,
        receipt.update_type is Some <==> *plan is Send,
        *plan !is Send ==> r == Ok::<Tally, AuthoritativeOutputError>(tally),
        *plan matches DeliveryPlan::Send(update) ==> {
            &&& receipt.update_type == Some(update.kind())
            &&& sent is Ok ==> r == Ok::<Tally, AuthoritativeOutputError>(tally)
            &&& sent == Err::<(), _>(SendFailure::Full) ==> r == Err::<Tally, _>(
                AuthoritativeOutputError::Full { update_type: update.kind(), slot },
            )
            &&& sent == Err::<(), _>(SendFailure::Closed) && !cancelled ==> r == Err::<Tally, _>(
                AuthoritativeOutputError::Closed { update_type: update.kind(), slot },
            )
            &&& sent == Err::<(), _>(SendFailure::Closed) && cancelled ==> r == Ok::<Tally, AuthoritativeOutputError>(
                Tally::Nothing,
            )
        },
{
}

/// A send comes to an error exactly if the update was refused, unless the datasource was
/// cancelled and the channel is closed.
pub proof fn law_try_send(
    update_type: UpdateType,
    slot: u64,
    sent: Result<(), SendFailure>,
    cancelled: bool,
    r: Result<bool, AuthoritativeOutputError>,
)
    requires
        call_ensures(crate::output::try_send_authoritative_update, (update_type, slot, sent, cancelled), r),
    ensures
        r == Ok::<bool, AuthoritativeOutputError>(true) <==> sent is Ok,
        r == Ok::<bool, AuthoritativeOutputError>(false) <==> sent == Err::<(), _>(SendFailure::Closed) && cancelled,
        sent == Err::<(), _>(SendFailure::Full) ==> r == Err::<bool, _>(
            AuthoritativeOutputError::Full { update_type, slot },
        ),
        sent == Err::<(), _>(SendFailure::Closed) && !cancelled ==> r == Err::<bool, _>(
            AuthoritativeOutputError::Closed { update_type, slot },
        ),
{
}

/// Only a closed channel of a cancelled datasource is expected.
pub proof fn law_expected_closed_send(error: SendFailure, cancelled: bool, r: bool)
    requires
        call_ensures(crate::output::expected_closed_send_after_cancellation, (error, cancelled), r),
    ensures
        r <==> cancelled && error is Closed,
{
}

/// A lost update is named by the state of the channel, its kind and its slot.
pub proof fn law_lost_update(
    error: &AuthoritativeOutputError,
    label: &'static str,
    update_type: UpdateType,
    text: String,
)
    requires
        call_ensures(AuthoritativeOutputError::as_label, (error,), label),
        call_ensures(AuthoritativeOutputError::update_type, (error,), update_type),
        call_ensures(AuthoritativeOutputError::describe, (error,), text),
    ensures
        *error matches AuthoritativeOutputError::Full { update_type: lost, slot } ==> {
            &&& label == "full"
            &&& update_type == lost
            &&& text@ == "authoritative output channel "@ + "full"@ + " for "@ + lost.name_text() + " at slot "@
                + crate::text::decimal_digits(slot as nat)
        },
        *error matches AuthoritativeOutputError::Closed { update_type: lost, slot } ==> {
            &&& label == "closed"
            &&& update_type == lost
            &&& text@ == "authoritative output channel "@ + "closed"@ + " for "@ + lost.name_text() + " at slot "@
                + crate::text::decimal_digits(slot as nat)
        },
{
}

/// The kind of an update, and its name.
pub proof fn law_kind_of_update(update: &Update, kind: UpdateType, name: &'static str)
    requires
        call_ensures(Update::update_type, (update,), kind),
        call_ensures(UpdateType::name, (&kind,), name),
    ensures
        *update is Account ==> kind == UpdateType::AccountUpdate && name@ == "AccountUpdate"@,
        *update is Transaction ==> kind == UpdateType::Transaction && name@ == "Transaction"@,
        *update is AccountDeletion ==> kind == UpdateType::AccountDeletion && name@ == "AccountDeletion"@,
        *update is BlockDetails ==> kind == UpdateType::BlockDetails && name@ == "BlockDetails"@,
{
}

} // verus!
