//! From the messages of the stream to the updates of the pipeline.
use crate::chain::Account;
use crate::convert_from::{create_tx_meta, create_tx_versioned};
use crate::error::ConversionError;
use crate::keys::{Pubkey, PubkeySet, Signature, PUBKEY_BYTES, SIGNATURE_BYTES};
use crate::output::{try_send_authoritative_update, AuthoritativeOutputError, SendFailure};
use crate::proto::{SubscribeUpdateAccountInfo, SubscribeUpdateTransactionInfo};
use crate::updates::{AccountDeletion, AccountUpdate, TransactionUpdate, Update, UpdateType};
use vstd::prelude::*;

verus! {

/// Why a transaction of the stream is not handed on.
#[derive(Debug, PartialEq, Eq)]
pub enum TransactionUpdateRejection {
    MissingInfo,
    InvalidSignature,
    MissingTransaction,
    MissingMeta,
    InvalidTransaction(ConversionError),
    InvalidMeta(ConversionError),
}

impl TransactionUpdateRejection {
    /// The label of the reason.
    pub open spec fn label(&self) -> &'static str {
        match self {
            TransactionUpdateRejection::MissingInfo => "missing_info",
            TransactionUpdateRejection::InvalidSignature => "invalid_signature",
            TransactionUpdateRejection::MissingTransaction => "missing_transaction",
            TransactionUpdateRejection::MissingMeta => "missing_meta",
            TransactionUpdateRejection::InvalidTransaction(_) => "invalid_transaction",
            TransactionUpdateRejection::InvalidMeta(_) => "invalid_meta",
        }
    }

    /// The label of the reason.
    pub fn as_label(&self) -> (r: &'static str)
        ensures
            r == self.label(),
    {
        match self {
            TransactionUpdateRejection::MissingInfo => "missing_info",
            TransactionUpdateRejection::InvalidSignature => "invalid_signature",
            TransactionUpdateRejection::MissingTransaction => "missing_transaction",
            TransactionUpdateRejection::MissingMeta => "missing_meta",
            TransactionUpdateRejection::InvalidTransaction(_) => "invalid_transaction",
            TransactionUpdateRejection::InvalidMeta(_) => "invalid_meta",
        }
    }

    /// The error of the conversion, if it is the reason.
    pub fn conversion_error(&self) -> (r: Option<&ConversionError>)
        ensures
            match self {
                TransactionUpdateRejection::InvalidTransaction(error) => r == Some(error),
                TransactionUpdateRejection::InvalidMeta(error) => r == Some(error),
                _ => r is None,
            },
    {
        match self {
            TransactionUpdateRejection::InvalidTransaction(error) => Some(error),
            TransactionUpdateRejection::InvalidMeta(error) => Some(error),
            TransactionUpdateRejection::MissingInfo
            | TransactionUpdateRejection::InvalidSignature
            | TransactionUpdateRejection::MissingTransaction
            | TransactionUpdateRejection::MissingMeta => None,
        }
    }
}

/// The version of a transaction of the stream, as far as it can be told.
#[derive(Debug, Clone, Copy, PartialEq, Eq, Structural)]
pub enum TransactionVersion {
    Legacy,
    V0,
    V1,
    Unknown,
}

impl TransactionVersion {
    /// The label of the version.
    pub open spec fn label(&self) -> &'static str {
        match self {
            TransactionVersion::Legacy => "legacy",
            TransactionVersion::V0 => "v0",
            TransactionVersion::V1 => "v1",
            TransactionVersion::Unknown => "unknown",
        }
    }

    /// The version of a transaction: unknown where it brings no message.
    pub open spec fn version_of(info: Option<SubscribeUpdateTransactionInfo>) -> TransactionVersion {
        match info {
            None => TransactionVersion::Unknown,
            Some(info) => match info.transaction {
                None => TransactionVersion::Unknown,
                Some(transaction) => match transaction.message {
                    None => TransactionVersion::Unknown,
                    Some(message) => if message.config is Some {
                        TransactionVersion::V1
                    } else if message.versioned {
                        TransactionVersion::V0
                    } else {
                        TransactionVersion::Legacy
                    },
                },
            },
        }
    }

    /// The label of the version.
    pub fn as_label(&self) -> (r: &'static str)
        ensures
            r == self.label(),
    {
        match self {
            TransactionVersion::Legacy => "legacy",
            TransactionVersion::V0 => "v0",
            TransactionVersion::V1 => "v1",
            TransactionVersion::Unknown => "unknown",
        }
    }

    /// The version of a transaction of the stream.
    pub fn of_info(info: &Option<SubscribeUpdateTransactionInfo>) -> (r: TransactionVersion)
        ensures
            r == TransactionVersion::version_of(*info),
    {
        let info = match info {
            Some(info) => info,
            None => return TransactionVersion::Unknown,
        };
        let transaction = match &info.transaction {
            Some(transaction) => transaction,
            None => return TransactionVersion::Unknown,
        };
        match &transaction.message {
            None => TransactionVersion::Unknown,
            Some(message) => if message.config.is_some() {
                TransactionVersion::V1
            } else if message.versioned {
                TransactionVersion::V0
            } else {
                TransactionVersion::Legacy
            },
        }
    }
}

/// Why a transaction of the stream is not handed on, if it is not.
pub open spec fn transaction_rejection(info: SubscribeUpdateTransactionInfo) -> Option<TransactionUpdateRejection> {
    if info.signature@.len() != SIGNATURE_BYTES {
        Some(TransactionUpdateRejection::InvalidSignature)
    } else if info.transaction is None {
        Some(TransactionUpdateRejection::MissingTransaction)
    } else if crate::convert_from::transaction_fault(info.transaction->0) is Some {
        Some(
            TransactionUpdateRejection::InvalidTransaction(
                crate::convert_from::transaction_fault(info.transaction->0)->0,
            ),
        )
    } else if info.meta is None {
        Some(TransactionUpdateRejection::MissingMeta)
    } else if crate::convert_from::meta_fault(info.meta->0) is Some {
        Some(TransactionUpdateRejection::InvalidMeta(crate::convert_from::meta_fault(info.meta->0)->0))
    } else {
        None
    }
}

/// What a transaction of the stream becomes.
pub open spec fn transaction_update_matches(
    info: SubscribeUpdateTransactionInfo,
    slot: u64,
    block_time: Option<i64>,
    out: TransactionUpdate,
) -> bool {
    &&& out.signature@ == info.signature@
    &&& crate::convert_from::transaction_matches(info.transaction->0, out.transaction)
    &&& crate::convert_from::meta_matches(info.meta->0, out.meta)
    &&& out.is_vote == info.is_vote
    &&& out.slot == slot
    &&& out.index == Some(info.index)
    &&& out.block_time == block_time
    &&& out.block_hash is None
}

/// The update that a transaction of the stream makes.
pub fn convert_transaction_update(
    transaction_info: SubscribeUpdateTransactionInfo,
    slot: u64,
    block_time: Option<i64>,
) -> (r: Result<TransactionUpdate, TransactionUpdateRejection>)
    ensures
        match r {
            Ok(out) => transaction_rejection(transaction_info) is None && transaction_update_matches(
                transaction_info,
                slot,
                block_time,
                out,
            ),
            Err(rejection) => transaction_rejection(transaction_info) == Some(rejection),
        },
{
    let signature = match Signature::from_slice(transaction_info.signature.as_slice()) {
        Some(signature) => signature,
        None => return Err(TransactionUpdateRejection::InvalidSignature),
    };
    let transaction = match transaction_info.transaction {
        Some(transaction) => match create_tx_versioned(transaction) {
            Ok(transaction) => transaction,
            Err(error) => return Err(TransactionUpdateRejection::InvalidTransaction(error)),
        },
        None => return Err(TransactionUpdateRejection::MissingTransaction),
    };
    let meta = match transaction_info.meta {
        Some(meta) => match create_tx_meta(meta) {
            Ok(meta) => meta,
            Err(error) => return Err(TransactionUpdateRejection::InvalidMeta(error)),
        },
        None => return Err(TransactionUpdateRejection::MissingMeta),
    };
    Ok(
        TransactionUpdate {
            signature,
            transaction,
            meta,
            is_vote: transaction_info.is_vote,
            slot,
            index: Some(transaction_info.index),
            block_time,
            block_hash: None,
        },
    )
}

/// What is to be done with an account or a transaction of the stream.
#[derive(Debug, PartialEq, Eq)]
pub enum DeliveryPlan {
    /// Nothing: the message does not hold the account that it announces.
    MissingAccount,
    /// Nothing: the address or the owner of the account is no address.
    MalformedAccount,
    /// Nothing: the account is gone, and nobody asked to hear of it.
    UntrackedDeletion,
    /// Nothing: the transaction is malformed.
    Rejected { version: TransactionVersion, rejection: TransactionUpdateRejection },
    /// The update is handed to the pipeline.
    Send(Update),
}

/// What is counted once a plan is carried out.
#[derive(Debug, Clone, Copy, PartialEq, Eq, Structural)]
pub enum Tally {
    Nothing,
    AccountReceived,
    TransactionReceived,
    TransactionRejected,
}

impl DeliveryPlan {
    /// What is counted once the plan is carried out.
    pub open spec fn counts(&self) -> Tally {
        match self {
            DeliveryPlan::MissingAccount => Tally::Nothing,
            DeliveryPlan::MalformedAccount => Tally::Nothing,
            DeliveryPlan::UntrackedDeletion => Tally::AccountReceived,
            DeliveryPlan::Rejected { .. } => Tally::TransactionRejected,
            DeliveryPlan::Send(update) => match update {
                Update::Account(_) => Tally::AccountReceived,
                Update::AccountDeletion(_) => Tally::AccountReceived,
                Update::Transaction(_) => Tally::TransactionReceived,
                Update::BlockDetails(_) => Tally::Nothing,
            },
        }
    }

    /// What is counted once the plan is carried out.
    pub fn tally(&self) -> (r: Tally)
        ensures
            r == self.counts(),
    {
        match self {
            DeliveryPlan::MissingAccount => Tally::Nothing,
            DeliveryPlan::MalformedAccount => Tally::Nothing,
            DeliveryPlan::UntrackedDeletion => Tally::AccountReceived,
            DeliveryPlan::Rejected { version: _, rejection: _ } => Tally::TransactionRejected,
            DeliveryPlan::Send(update) => match update {
                Update::Account(_) => Tally::AccountReceived,
                Update::AccountDeletion(_) => Tally::AccountReceived,
                Update::Transaction(_) => Tally::TransactionReceived,
                Update::BlockDetails(_) => Tally::Nothing,
            },
        }
    }
}

/// What has to be known of a plan once its update is on its way.
#[derive(Debug, Clone, Copy, PartialEq, Eq, Structural)]
pub struct Receipt {
    /// The kind of the update, if the plan is to send one.
    pub update_type: Option<UpdateType>,
    pub slot: u64,
    pub tally: Tally,
}

/// What a plan comes to: an update that is lost is an error, one that is dropped in an
/// orderly shutdown is not counted, and everything else is counted.
pub open spec fn delivery_outcome(
    plan: DeliveryPlan,
    slot: u64,
    sent: Result<(), SendFailure>,
    cancelled: bool,
) -> Result<Tally, AuthoritativeOutputError> {
    match plan {
        DeliveryPlan::Send(update) => match crate::output::send_outcome(update.kind(), slot, sent, cancelled) {
            Ok(true) => Ok(plan.counts()),
            Ok(false) => Ok(Tally::Nothing),
            Err(error) => Err(error),
        },
        _ => Ok(plan.counts()),
    }
}

impl DeliveryPlan {
    /// The receipt of a plan.
    pub open spec fn receipt_of(&self, slot: u64) -> Receipt {
        Receipt {
            update_type: match self {
                DeliveryPlan::Send(update) => Some(update.kind()),
                _ => None,
            },
            slot,
            tally: self.counts(),
        }
    }

    /// The receipt of a plan.
    pub fn receipt(&self, slot: u64) -> (r: Receipt)
        ensures
            r == self.receipt_of(slot),
    {
        let update_type = match self {
            DeliveryPlan::Send(update) => Some(update.update_type()),
            _ => None,
        };
        Receipt { update_type, slot, tally: self.tally() }
    }
}

impl Receipt {
    /// What a plan comes to, given the answer of the channel; the answer is not looked at
    /// where the plan is not to send anything.
    pub fn settle(&self, sent: Result<(), SendFailure>, cancelled: bool) -> (r: Result<Tally, AuthoritativeOutputError>)
        ensures
            forall|plan: DeliveryPlan| #[trigger]
                plan.receipt_of(self.slot) == *self ==> r == delivery_outcome(plan, self.slot, sent, cancelled),
            match self.update_type {
                None => r == Ok::<Tally, AuthoritativeOutputError>(self.tally),
                Some(update_type) => match crate::output::send_outcome(update_type, self.slot, sent, cancelled) {
                    Ok(true) => r == Ok::<Tally, AuthoritativeOutputError>(self.tally),
                    Ok(false) => r == Ok::<Tally, AuthoritativeOutputError>(Tally::Nothing),
                    Err(error) => r == Err::<Tally, AuthoritativeOutputError>(error),
                },
            },
    {
        match self.update_type {
            None => Ok(self.tally),
            Some(update_type) => match try_send_authoritative_update(update_type, self.slot, sent, cancelled) {
                Ok(true) => Ok(self.tally),
                Ok(false) => Ok(Tally::Nothing),
                Err(error) => Err(error),
            },
        }
    }
}

/// A malformed account or transaction never ends the stream: whatever the channel says, a
/// plan that sends nothing comes to no error. A transaction that is rejected is counted.
pub proof fn law_malformed_input_is_no_error(
    plan: DeliveryPlan,
    slot: u64,
    sent: Result<(), SendFailure>,
    cancelled: bool,
)
    ensures
        plan !is Send ==> delivery_outcome(plan, slot, sent, cancelled) is Ok,
        plan is Rejected ==> delivery_outcome(plan, slot, sent, cancelled) == Ok::<Tally, AuthoritativeOutputError>(
            Tally::TransactionRejected,
        ),
{
}

/// What becomes of a transaction of the stream.
pub open spec fn transaction_plan_matches(
    info: Option<SubscribeUpdateTransactionInfo>,
    slot: u64,
    block_time: Option<i64>,
    plan: DeliveryPlan,
) -> bool {
    match info {
        None => plan == (DeliveryPlan::Rejected {
            version: TransactionVersion::Unknown,
            rejection: TransactionUpdateRejection::MissingInfo,
        }),
        Some(inner) => match transaction_rejection(inner) {
            Some(rejection) => plan == (DeliveryPlan::Rejected {
                version: TransactionVersion::version_of(info),
                rejection,
            }),
            None => {
                &&& plan matches DeliveryPlan::Send(Update::Transaction(update))
                &&& transaction_update_matches(inner, slot, block_time, *update)
            },
        },
    }
}

/// What is to be done with a transaction of the stream: a malformed one is rejected, and
/// every other one is handed on.
pub fn plan_transaction_update(
    transaction_info: Option<SubscribeUpdateTransactionInfo>,
    slot: u64,
    block_time: Option<i64>,
) -> (r: DeliveryPlan)
    ensures
        transaction_plan_matches(transaction_info, slot, block_time, r),
{
    let version = TransactionVersion::of_info(&transaction_info);
    match transaction_info {
        None => DeliveryPlan::Rejected { version, rejection: TransactionUpdateRejection::MissingInfo },
        Some(transaction_info) => match convert_transaction_update(transaction_info, slot, block_time) {
            Ok(update) => DeliveryPlan::Send(Update::Transaction(Box::new(update))),
            Err(rejection) => DeliveryPlan::Rejected { version, rejection },
        },
    }
}

/// Whether an account of the stream is gone: it holds nothing, and the system program owns it.
pub open spec fn is_deletion(info: SubscribeUpdateAccountInfo) -> bool {
    &&& info.lamports == 0
    &&& info.data@.len() == 0
    &&& info.owner@ == crate::keys::system_program()
}

/// Whether an account of the stream is well formed and gone, so that it depends on the watched
/// accounts what becomes of it.
pub fn is_account_deletion(account_info: &Option<SubscribeUpdateAccountInfo>) -> (r: bool)
    ensures
        r == (account_info matches Some(info) && info.pubkey@.len() == PUBKEY_BYTES && is_deletion(*info)),
{
    match account_info {
        None => false,
        Some(info) => info.lamports == 0 && info.data.len() == 0 && info.pubkey.len() == PUBKEY_BYTES
            && match Pubkey::from_slice(info.owner.as_slice()) {
            Some(owner) => owner.is_system_program(),
            None => false,
        },
    }
}

/// The signature of the transaction that wrote an account, if there is one of the right length.
pub open spec fn writer_matches(txn_signature: Option<Vec<u8>>, out: Option<Signature>) -> bool {
    match out {
        Some(signature) => txn_signature is Some && signature@ == txn_signature->0@,
        None => txn_signature is None || txn_signature->0@.len() != SIGNATURE_BYTES,
    }
}

/// What becomes of an account of the stream.
pub open spec fn account_plan_matches(
    info: Option<SubscribeUpdateAccountInfo>,
    slot: u64,
    watched: Set<Seq<u8>>,
    plan: DeliveryPlan,
) -> bool {
    match info {
        None => plan is MissingAccount,
        Some(info) => if info.pubkey@.len() != PUBKEY_BYTES || info.owner@.len() != PUBKEY_BYTES {
            plan is MalformedAccount
        } else if is_deletion(info) {
            if watched.contains(info.pubkey@) {
                &&& plan matches DeliveryPlan::Send(Update::AccountDeletion(deletion))
                &&& deletion.pubkey@ == info.pubkey@
                &&& deletion.slot == slot
                &&& writer_matches(info.txn_signature, deletion.transaction_signature)
                &&& deletion.write_version == Some(info.write_version)
            } else {
                plan is UntrackedDeletion
            }
        } else {
            &&& plan matches DeliveryPlan::Send(Update::Account(update))
            &&& update.pubkey@ == info.pubkey@
            &&& update.account.lamports == info.lamports
            &&& update.account.data == info.data
            &&& update.account.owner@ == info.owner@
            &&& update.account.executable == info.executable
            &&& update.account.rent_epoch == info.rent_epoch
            &&& update.slot == slot
            &&& writer_matches(info.txn_signature, update.transaction_signature)
            &&& update.write_version == Some(info.write_version)
        },
    }
}

/// What is to be done with an account of the stream, given the accounts whose end is to be
/// told.
pub fn plan_account_update(
    account_info: Option<SubscribeUpdateAccountInfo>,
    slot: u64,
    account_deletions_tracked: &PubkeySet,
) -> (r: DeliveryPlan)
    ensures
        account_plan_matches(account_info, slot, account_deletions_tracked@, r),
{
    let account_info = match account_info {
        Some(account_info) => account_info,
        None => return DeliveryPlan::MissingAccount,
    };
    let pubkey = match Pubkey::from_slice(account_info.pubkey.as_slice()) {
        Some(pubkey) => pubkey,
        None => return DeliveryPlan::MalformedAccount,
    };
    let owner = match Pubkey::from_slice(account_info.owner.as_slice()) {
        Some(owner) => owner,
        None => return DeliveryPlan::MalformedAccount,
    };
    let transaction_signature = match &account_info.txn_signature {
        Some(signature) => Signature::from_slice(signature.as_slice()),
        None => None,
    };
    let write_version = Some(account_info.write_version);

    if account_info.lamports == 0 && account_info.data.len() == 0 && owner.is_system_program() {
        if account_deletions_tracked.contains(&pubkey) {
            DeliveryPlan::Send(
                Update::AccountDeletion(AccountDeletion { pubkey, slot, transaction_signature, write_version }),
            )
        } else {
            DeliveryPlan::UntrackedDeletion
        }
    } else {
        let account = Account {
            lamports: account_info.lamports,
            data: account_info.data,
            owner,
            executable: account_info.executable,
            rent_epoch: account_info.rent_epoch,
        };
        DeliveryPlan::Send(
            Update::Account(AccountUpdate { pubkey, account, slot, transaction_signature, write_version }),
        )
    }
}

/// A deletion is told only of an account that is gone and whose end was asked for.
pub proof fn law_deletions_are_tracked(
    info: SubscribeUpdateAccountInfo,
    slot: u64,
    watched: Set<Seq<u8>>,
    plan: DeliveryPlan,
)
    requires
        account_plan_matches(Some(info), slot, watched, plan),
        plan matches DeliveryPlan::Send(update) && update is AccountDeletion,
    ensures
        is_deletion(info),
        watched.contains(info.pubkey@),
{
}

/// An account that is not gone is handed on whatever accounts are tracked, and the update
/// does not depend on them.
pub proof fn law_live_account_ignores_tracking(
    info: SubscribeUpdateAccountInfo,
    slot: u64,
    watched: Set<Seq<u8>>,
    other: Set<Seq<u8>>,
    plan: DeliveryPlan,
)
    requires
        info.pubkey@.len() == PUBKEY_BYTES,
        info.owner@.len() == PUBKEY_BYTES,
        !is_deletion(info),
        account_plan_matches(Some(info), slot, watched, plan),
    ensures
        plan matches DeliveryPlan::Send(update) && update is Account,
        account_plan_matches(Some(info), slot, other, plan),
{
}

/// What becomes of an account that is not a well-formed deletion does not depend on the
/// watched accounts.
pub proof fn law_only_deletions_ask_for_tracking(
    info: Option<SubscribeUpdateAccountInfo>,
    slot: u64,
    watched: Set<Seq<u8>>,
    other: Set<Seq<u8>>,
    plan: DeliveryPlan,
)
    requires
        !(info matches Some(account) && account.pubkey@.len() == PUBKEY_BYTES && is_deletion(account)),
        account_plan_matches(info, slot, watched, plan),
    ensures
        account_plan_matches(info, slot, other, plan),
{
}

/// A transaction is handed on if and only if it is well formed; a rejected one is counted
/// under its version and its reason, and nothing of it reaches the pipeline.
pub proof fn law_malformed_transactions_are_rejected(
    info: Option<SubscribeUpdateTransactionInfo>,
    slot: u64,
    block_time: Option<i64>,
    plan: DeliveryPlan,
)
    requires
        transaction_plan_matches(info, slot, block_time, plan),
    ensures
        plan is Send <==> info is Some && transaction_rejection(info->0) is None,
        plan is Send || plan is Rejected,
        plan is Rejected ==> plan->version == TransactionVersion::version_of(info),
        plan is Rejected ==> plan.counts() == Tally::TransactionRejected,
        plan is Send ==> plan.counts() == Tally::TransactionReceived,
{
}

/// The labels of a rejection come from two closed sets.
pub proof fn law_rejection_labels_are_closed(version: TransactionVersion, rejection: TransactionUpdateRejection)
    ensures
        seq!["legacy", "v0", "v1", "unknown"].contains(version.label()),
        seq![
            "missing_info",
            "invalid_signature",
            "missing_transaction",
            "missing_meta",
            "invalid_transaction",
            "invalid_meta",
        ].contains(rejection.label()),
{
    let versions = seq!["legacy", "v0", "v1", "unknown"];
    assert(versions[0] == "legacy" && versions[1] == "v0" && versions[2] == "v1" && versions[3] == "unknown");
    let reasons = seq![
        "missing_info",
        "invalid_signature",
        "missing_transaction",
        "missing_meta",
        "invalid_transaction",
        "invalid_meta",
    ];
    assert(reasons[0] == "missing_info" && reasons[1] == "invalid_signature" && reasons[2] == "missing_transaction");
    assert(reasons[3] == "missing_meta" && reasons[4] == "invalid_transaction" && reasons[5] == "invalid_meta");
}

} // verus!
