use carbon_datasources::chain::{
    MessageHeader, MessageV1, RewardType, TransactionConfig, TransactionWithStatusMeta, VersionedMessage,
};
use carbon_datasources::convert_from::{
    create_account, create_block, create_loaded_addresses, create_message, create_message_instruction,
    create_message_instructions, create_meta_inner_instruction, create_meta_inner_instructions, create_pubkey,
    create_pubkey_vec, create_reward, create_rewards_obj, create_token_balances, create_tx_error, create_tx_meta,
    create_tx_versioned, create_tx_with_meta, read_tx_error, take_account_data,
};
use carbon_datasources::error::{ConversionError, MessageErrorKind};
use carbon_datasources::keys::{BlockHash, Pubkey, Signature, HASH_BYTES};
use carbon_datasources::proto;
use carbon_datasources::v1::accept_v1_message;
use solana_message::v1::MessageError;
use solana_transaction_error::TransactionError;

fn unique_key(seed: u8) -> Vec<u8> {
    (0..32).map(|i| seed.wrapping_add(i)).collect()
}

fn proto_v1_message(config: proto::TransactionConfig) -> proto::Message {
    proto::Message {
        header: Some(proto::MessageHeader {
            num_required_signatures: 1,
            num_readonly_signed_accounts: 0,
            num_readonly_unsigned_accounts: 1,
        }),
        account_keys: vec![unique_key(1), unique_key(2)],
        recent_blockhash: [17; HASH_BYTES].to_vec(),
        instructions: vec![proto::CompiledInstruction {
            program_id_index: 1,
            accounts: vec![0],
            data: vec![4, 5, 6],
        }],
        versioned: true,
        address_table_lookups: vec![],
        config: Some(config),
    }
}

fn proto_meta() -> proto::TransactionStatusMeta {
    proto::TransactionStatusMeta {
        return_data_none: true,
        ..proto::TransactionStatusMeta::default()
    }
}

fn legacy(message: &'static str) -> ConversionError {
    ConversionError::Legacy(message)
}

#[test]
fn protobuf_v1_with_all_config_fields_decodes_exactly() {
    let sent = proto_v1_message(proto::TransactionConfig {
        priority_fee: Some(9_001),
        compute_unit_limit: Some(700_000),
        loaded_accounts_data_size_limit: Some(64 * 1024),
        heap_size: Some(128 * 1024),
    });

    let decoded = create_message(sent.clone()).unwrap();
    let VersionedMessage::V1(MessageV1 {
        header,
        config,
        lifetime_specifier,
        account_keys,
        instructions,
    }) = decoded
    else {
        panic!("protobuf field 7 must select VersionedMessage::V1");
    };

    assert_eq!(
        header,
        MessageHeader {
            num_required_signatures: 1,
            num_readonly_signed_accounts: 0,
            num_readonly_unsigned_accounts: 1,
        }
    );
    assert_eq!(account_keys, create_pubkey_vec(sent.account_keys).unwrap());
    assert_eq!(lifetime_specifier, BlockHash { bytes: [17; HASH_BYTES] });
    assert_eq!(
        instructions,
        create_message_instructions(sent.instructions).unwrap()
    );
    assert_eq!(
        config,
        TransactionConfig {
            priority_fee: Some(9_001),
            compute_unit_limit: Some(700_000),
            loaded_accounts_data_size_limit: Some(64 * 1024),
            heap_size: Some(128 * 1024),
        }
    );
}

#[test]
fn protobuf_v1_accepts_4096_bytes_and_rejects_4097() {
    let mut at_limit = proto_v1_message(proto::TransactionConfig::default());
    at_limit.instructions[0].data = vec![0; 3_921];
    assert!(matches!(create_message(at_limit), Ok(VersionedMessage::V1(_))));

    let mut over_limit = proto_v1_message(proto::TransactionConfig::default());
    over_limit.instructions[0].data = vec![0; 3_922];
    assert_eq!(
        create_message(over_limit),
        Err(ConversionError::V1TransactionTooLarge)
    );
}

#[test]
fn protobuf_v1_rejects_invalid_config_and_v0_lookups() {
    let invalid_config = proto_v1_message(proto::TransactionConfig {
        heap_size: Some(32 * 1024 + 1),
        ..proto::TransactionConfig::default()
    });
    assert_eq!(
        create_message(invalid_config),
        Err(ConversionError::InvalidV1Message(
            solana_message::v1::MessageError::InvalidHeapSize
        ))
    );

    let mut with_lookup = proto_v1_message(proto::TransactionConfig::default());
    with_lookup
        .address_table_lookups
        .push(proto::MessageAddressTableLookup::default());
    assert_eq!(
        create_message(with_lookup),
        Err(ConversionError::V1AddressTableLookups)
    );
}

#[test]
fn protobuf_v1_rejects_signature_count_mismatch() {
    let transaction = proto::Transaction {
        signatures: vec![],
        message: Some(proto_v1_message(proto::TransactionConfig::default())),
    };

    assert!(create_tx_versioned(transaction).is_err());
}

#[test]
fn signature_count_mismatch_has_its_own_error() {
    let transaction = proto::Transaction {
        signatures: vec![vec![1; 64], vec![2; 64]],
        message: Some(proto_v1_message(proto::TransactionConfig::default())),
    };
    assert_eq!(
        create_tx_versioned(transaction),
        Err(ConversionError::InvalidV1SignatureCount)
    );
}

#[test]
fn config_values_count_toward_the_wire_limit() {
    let mut full = proto_v1_message(proto::TransactionConfig {
        priority_fee: Some(1),
        compute_unit_limit: Some(1),
        loaded_accounts_data_size_limit: Some(1),
        heap_size: Some(32 * 1024),
    });
    full.instructions[0].data = vec![0; 3_901];
    assert!(create_message(full.clone()).is_ok());
    full.instructions[0].data.push(0);
    assert_eq!(create_message(full), Err(ConversionError::V1TransactionTooLarge));
}

#[test]
fn validity_decides_before_the_size() {
    let message = match create_message(proto_v1_message(proto::TransactionConfig::default())) {
        Ok(VersionedMessage::V1(message)) => message,
        _ => panic!("a V1 message"),
    };
    assert_eq!(accept_v1_message(message.clone(), Ok(())), Ok(message.clone()));
    assert_eq!(
        accept_v1_message(message, Err(solana_message::v1::MessageError::DuplicateAddresses)),
        Err(ConversionError::InvalidV1Message(
            solana_message::v1::MessageError::DuplicateAddresses
        ))
    );
}

#[test]
fn the_version_of_a_message_follows_from_its_parts() {
    let mut message = proto_v1_message(proto::TransactionConfig::default());
    message.config = None;
    message.address_table_lookups.push(proto::MessageAddressTableLookup {
        account_key: unique_key(9),
        writable_indexes: vec![1, 2],
        readonly_indexes: vec![3],
    });
    match create_message(message.clone()) {
        Ok(VersionedMessage::V0(out)) => {
            assert_eq!(out.address_table_lookups.len(), 1);
            assert_eq!(out.address_table_lookups[0].account_key.bytes.to_vec(), unique_key(9));
            assert_eq!(out.address_table_lookups[0].writable_indexes, vec![1, 2]);
            assert_eq!(out.address_table_lookups[0].readonly_indexes, vec![3]);
        }
        _ => panic!("a V0 message"),
    }
    message.versioned = false;
    match create_message(message) {
        Ok(VersionedMessage::Legacy(out)) => {
            assert_eq!(out.account_keys.len(), 2);
            assert_eq!(out.recent_blockhash.bytes, [17; 32]);
            assert_eq!(out.instructions[0].data, vec![4, 5, 6]);
        }
        _ => panic!("a message from before versions"),
    }
}

#[test]
fn static_keys_and_header_do_not_depend_on_the_version() {
    let message = create_message(proto_v1_message(proto::TransactionConfig::default())).unwrap();
    assert_eq!(message.static_account_keys().len(), 2);
    assert_eq!(message.header().num_required_signatures, 1);
}

#[test]
fn the_parts_of_a_message_are_checked_in_order() {
    let good = proto_v1_message(proto::TransactionConfig::default());
    let header = good.header.unwrap();

    let mut message = good.clone();
    message.header = None;
    assert_eq!(create_message(message), Err(legacy("failed to get MessageHeader")));

    let mut message = good.clone();
    message.header = Some(proto::MessageHeader { num_required_signatures: 256, ..header });
    assert_eq!(
        create_message(message),
        Err(legacy("failed to parse num_required_signatures"))
    );

    let mut message = good.clone();
    message.header = Some(proto::MessageHeader { num_readonly_signed_accounts: 256, ..header });
    assert_eq!(
        create_message(message),
        Err(legacy("failed to parse num_readonly_signed_accounts"))
    );

    let mut message = good.clone();
    message.header = Some(proto::MessageHeader { num_readonly_unsigned_accounts: 256, ..header });
    assert_eq!(
        create_message(message),
        Err(legacy("failed to parse num_readonly_unsigned_accounts"))
    );

    let mut message = good.clone();
    message.recent_blockhash.pop();
    message.account_keys[0].pop();
    assert_eq!(create_message(message), Err(legacy("failed to parse hash")));

    let mut message = good.clone();
    message.account_keys[1].push(0);
    message.instructions[0].program_id_index = 256;
    assert_eq!(create_message(message), Err(legacy("failed to parse Pubkey")));

    let mut message = good.clone();
    message.instructions[0].program_id_index = 256;
    assert_eq!(
        create_message(message),
        Err(legacy("failed to decode CompiledInstruction.program_id_index)"))
    );

    let mut message = good;
    message.config = None;
    message
        .address_table_lookups
        .push(proto::MessageAddressTableLookup::default());
    assert_eq!(create_message(message), Err(legacy("failed to parse Pubkey")));
}

#[test]
fn a_transaction_keeps_its_signatures_in_order() {
    let mut message = proto_v1_message(proto::TransactionConfig::default());
    message.config = None;
    let transaction = proto::Transaction {
        signatures: vec![vec![5; 64], vec![6; 64]],
        message: Some(message),
    };
    let out = create_tx_versioned(transaction.clone()).unwrap();
    assert_eq!(out.signatures, vec![Signature { bytes: [5; 64] }, Signature { bytes: [6; 64] }]);

    let mut short = transaction.clone();
    short.signatures[1].pop();
    assert_eq!(create_tx_versioned(short), Err(legacy("failed to parse Signature")));

    let mut empty = transaction;
    empty.message = None;
    assert_eq!(create_tx_versioned(empty), Err(legacy("failed to get message")));
}

#[test]
fn an_instruction_keeps_its_parts() {
    let instruction = create_message_instruction(proto::CompiledInstruction {
        program_id_index: 255,
        accounts: vec![1, 2],
        data: vec![3],
    })
    .unwrap();
    assert_eq!(instruction.program_id_index, 255);
    assert_eq!(instruction.accounts, vec![1, 2]);
    assert_eq!(instruction.data, vec![3]);
}

#[test]
fn transaction_errors_are_decoded() {
    let encoded = proto::EncodedTransactionError {
        err: bincode::serialize(&TransactionError::InsufficientFundsForRent { account_index: 7 }).unwrap(),
    };
    assert_eq!(
        create_tx_error(Some(&encoded)),
        Ok(Some(TransactionError::InsufficientFundsForRent { account_index: 7 }))
    );
    assert_eq!(create_tx_error(None), Ok(None));
    let broken = proto::EncodedTransactionError { err: vec![255; 4] };
    assert_eq!(
        create_tx_error(Some(&broken)),
        Err(legacy("failed to decode TransactionError"))
    );
    assert_eq!(
        read_tx_error(Some(TransactionError::AccountInUse)),
        Ok(Some(TransactionError::AccountInUse))
    );
    assert_eq!(read_tx_error(None), Err(legacy("failed to decode TransactionError")));
}

#[test]
fn a_reward_reads_its_commissions() {
    let reward = proto::Reward {
        pubkey: "somebody".to_string(),
        lamports: -5,
        post_balance: 10,
        reward_type: 4,
        commission: "+8".to_string(),
        commission_bps: "800".to_string(),
    };
    let out = create_reward(reward.clone()).unwrap();
    assert_eq!(out.pubkey, "somebody");
    assert_eq!(out.lamports, -5);
    assert_eq!(out.post_balance, 10);
    assert_eq!(out.reward_type, Some(RewardType::Voting));
    assert_eq!(out.commission, Some(8));
    assert_eq!(out.commission_bps, Some(800));

    let kinds = [
        None,
        Some(RewardType::Fee),
        Some(RewardType::Rent),
        Some(RewardType::Staking),
        Some(RewardType::Voting),
        Some(RewardType::DeactivatedStake),
    ];
    for (code, kind) in kinds.into_iter().enumerate() {
        let reward = proto::Reward { reward_type: code as i32, ..proto::Reward::default() };
        let out = create_reward(reward).unwrap();
        assert_eq!(out.reward_type, kind);
        assert_eq!(out.commission, None);
        assert_eq!(out.commission_bps, None);
    }

    let mut bad = reward.clone();
    bad.commission_bps = "65536".to_string();
    bad.reward_type = 99;
    assert_eq!(create_reward(bad), Err(legacy("failed to parse reward commission bps")));
    let mut bad = reward.clone();
    bad.reward_type = 6;
    bad.commission = "x".to_string();
    assert_eq!(create_reward(bad), Err(legacy("failed to parse reward_type")));
    let mut bad = reward.clone();
    bad.commission = "256".to_string();
    assert_eq!(create_reward(bad), Err(legacy("failed to parse reward commission")));
    let mut bad = reward;
    bad.commission = " 8".to_string();
    assert_eq!(create_reward(bad), Err(legacy("failed to parse reward commission")));
}

#[test]
fn rewards_keep_their_order_and_partitions() {
    let rewards = proto::Rewards {
        rewards: vec![
            proto::Reward { lamports: 1, ..proto::Reward::default() },
            proto::Reward { lamports: 2, ..proto::Reward::default() },
        ],
        num_partitions: Some(proto::NumPartitions { num_partitions: 3 }),
    };
    let out = create_rewards_obj(rewards).unwrap();
    assert_eq!(out.rewards.len(), 2);
    assert_eq!(out.rewards[1].lamports, 2);
    assert_eq!(out.num_partitions, Some(3));
}

#[test]
fn token_balances_keep_their_amounts() {
    let balance = proto::TokenBalance {
        account_index: 3,
        mint: "mint".to_string(),
        ui_token_amount: Some(proto::UiTokenAmount {
            ui_amount_bits: 1.5f64.to_bits(),
            decimals: 6,
            amount: "1500000".to_string(),
            ui_amount_string: "1.5".to_string(),
        }),
        owner: "owner".to_string(),
        program_id: "program".to_string(),
    };
    let out = create_token_balances(vec![balance.clone()]).unwrap();
    assert_eq!(out[0].account_index, 3);
    assert_eq!(out[0].ui_token_amount.ui_amount_bits.map(f64::from_bits), Some(1.5));
    assert_eq!(out[0].ui_token_amount.decimals, 6);
    assert_eq!(out[0].ui_token_amount.amount, "1500000");
    assert_eq!(out[0].ui_token_amount.ui_amount_string, "1.5");
    assert_eq!(out[0].mint, "mint");
    assert_eq!(out[0].owner, "owner");
    assert_eq!(out[0].program_id, "program");

    let mut bad = balance.clone();
    bad.ui_token_amount = None;
    assert_eq!(
        create_token_balances(vec![balance.clone(), bad]),
        Err(legacy("failed to get ui_token_amount"))
    );
    let mut bad = balance.clone();
    bad.account_index = 256;
    assert_eq!(create_token_balances(vec![bad]), Err(legacy("failed to parse account_index")));
    let mut bad = balance;
    if let Some(amount) = bad.ui_token_amount.as_mut() {
        amount.decimals = 256;
    }
    assert_eq!(create_token_balances(vec![bad]), Err(legacy("failed to parse decimals")));
}

#[test]
fn inner_instructions_keep_their_stack_height() {
    let inner = proto::InnerInstructions {
        index: 2,
        instructions: vec![proto::InnerInstruction {
            program_id_index: 4,
            accounts: vec![1],
            data: vec![2],
            stack_height: Some(3),
        }],
    };
    let out = create_meta_inner_instruction(inner.clone()).unwrap();
    assert_eq!(out.index, 2);
    assert_eq!(out.instructions[0].instruction.program_id_index, 4);
    assert_eq!(out.instructions[0].stack_height, Some(3));

    let mut bad = inner.clone();
    bad.index = 256;
    assert_eq!(
        create_meta_inner_instructions(vec![inner.clone(), bad.clone()]),
        Err(legacy("failed to decode InnerInstructions.index"))
    );
    bad.instructions[0].program_id_index = 256;
    assert_eq!(
        create_meta_inner_instruction(bad),
        Err(legacy("failed to decode CompiledInstruction.program_id_index)"))
    );
}

#[test]
fn loaded_addresses_keep_their_lists_apart() {
    let out = create_loaded_addresses(vec![unique_key(1)], vec![unique_key(2), unique_key(3)]).unwrap();
    assert_eq!(out.writable.len(), 1);
    assert_eq!(out.readonly.len(), 2);
    assert_eq!(out.readonly[0].bytes.to_vec(), unique_key(2));
    assert_eq!(
        create_loaded_addresses(vec![], vec![vec![1]]),
        Err(legacy("failed to parse Pubkey"))
    );
}

#[test]
fn a_pubkey_has_exactly_its_length() {
    assert_eq!(create_pubkey(&unique_key(1)).map(|key| key.bytes.to_vec()), Ok(unique_key(1)));
    assert_eq!(create_pubkey(&[0; 31]), Err(legacy("failed to parse Pubkey")));
    assert_eq!(create_pubkey(&[0; 33]), Err(legacy("failed to parse Pubkey")));
}

#[test]
fn the_status_of_a_transaction_is_converted_part_by_part() {
    let mut meta = proto_meta();
    meta.fee = 5_000;
    meta.pre_balances = vec![1, 2];
    meta.post_balances = vec![3, 4];
    meta.log_messages = vec!["log".to_string()];
    meta.compute_units_consumed = Some(7);
    meta.cost_units = Some(8);
    let out = create_tx_meta(meta.clone()).unwrap();
    assert_eq!(out.status, Ok(()));
    assert_eq!(out.fee, 5_000);
    assert_eq!(out.pre_balances, vec![1, 2]);
    assert_eq!(out.post_balances, vec![3, 4]);
    assert_eq!(out.log_messages, Some(vec!["log".to_string()]));
    assert_eq!(out.return_data, None);
    assert_eq!(out.compute_units_consumed, Some(7));
    assert_eq!(out.cost_units, Some(8));

    let mut failed = meta.clone();
    failed.err = Some(proto::EncodedTransactionError {
        err: bincode::serialize(&TransactionError::AccountInUse).unwrap(),
    });
    assert_eq!(create_tx_meta(failed).unwrap().status, Err(TransactionError::AccountInUse));

    let mut returned = meta.clone();
    returned.return_data_none = false;
    assert_eq!(create_tx_meta(returned.clone()), Err(legacy("failed to get return_data")));
    returned.return_data = Some(proto::ReturnData { program_id: vec![1], data: vec![2] });
    assert_eq!(create_tx_meta(returned.clone()), Err(legacy("failed to parse program_id")));
    returned.return_data = Some(proto::ReturnData { program_id: unique_key(4), data: vec![2] });
    let data = create_tx_meta(returned).unwrap().return_data.unwrap();
    assert_eq!(data.program_id.bytes.to_vec(), unique_key(4));
    assert_eq!(data.data, vec![2]);
}

#[test]
fn an_account_is_taken_with_its_data() {
    let mut info = proto::SubscribeUpdateAccountInfo {
        pubkey: unique_key(1),
        lamports: 4,
        owner: unique_key(2),
        executable: true,
        rent_epoch: 6,
        data: vec![9, 8],
        write_version: 1,
        txn_signature: None,
    };
    let (pubkey, account) = create_account(info.clone()).unwrap();
    assert_eq!(pubkey.bytes.to_vec(), unique_key(1));
    assert_eq!(account.lamports, 4);
    assert_eq!(account.data, vec![9, 8]);
    assert_eq!(account.owner.bytes.to_vec(), unique_key(2));
    assert!(account.executable);
    assert_eq!(account.rent_epoch, 6);

    assert_eq!(take_account_data(&mut info), vec![9, 8]);
    assert!(info.data.is_empty());
    info.owner.pop();
    assert_eq!(create_account(info), Err(legacy("failed to parse Pubkey")));
}

#[test]
fn a_block_is_converted_or_refused_as_a_whole() {
    let mut message = proto_v1_message(proto::TransactionConfig::default());
    message.config = None;
    let info = proto::SubscribeUpdateTransactionInfo {
        signature: vec![1; 64],
        is_vote: false,
        transaction: Some(proto::Transaction { signatures: vec![vec![1; 64]], message: Some(message) }),
        meta: Some(proto_meta()),
        index: 0,
    };
    let block = proto::SubscribeUpdateBlock {
        slot: 9,
        blockhash: "hash".to_string(),
        rewards: Some(proto::Rewards::default()),
        block_time: Some(proto::UnixTimestamp { timestamp: -3 }),
        block_height: Some(proto::BlockHeight { block_height: 12 }),
        parent_slot: 8,
        parent_blockhash: "parent".to_string(),
        transactions: vec![info.clone()],
        accounts: vec![],
    };
    let out = create_block(block.clone()).unwrap();
    assert_eq!(out.previous_blockhash, "parent");
    assert_eq!(out.blockhash, "hash");
    assert_eq!(out.parent_slot, 8);
    assert_eq!(out.block_time, Some(-3));
    assert_eq!(out.block_height, Some(12));
    assert_eq!(out.num_partitions, None);
    let TransactionWithStatusMeta::Complete(transaction) = &out.transactions[0];
    assert_eq!(transaction.transaction.signatures.len(), 1);

    let mut bad = block.clone();
    bad.transactions[0].meta = None;
    bad.transactions[0].transaction = None;
    bad.rewards = None;
    assert_eq!(create_block(bad), Err(legacy("failed to get transaction meta")));
    let mut bad = block.clone();
    bad.rewards = None;
    bad.block_time = None;
    assert_eq!(create_block(bad), Err(legacy("failed to get rewards")));
    let mut bad = block.clone();
    bad.block_time = None;
    bad.block_height = None;
    assert_eq!(create_block(bad), Err(legacy("failed to get block_time")));
    let mut bad = block;
    bad.block_height = None;
    assert_eq!(create_block(bad), Err(legacy("failed to get block_height")));

    let mut bad = info;
    bad.transaction = None;
    assert_eq!(
        create_tx_with_meta(bad),
        Err(legacy("failed to get transaction transaction"))
    );
}

#[test]
fn errors_have_their_texts() {
    assert_eq!(legacy("failed to parse hash").describe(), "failed to parse hash");
    assert_eq!(
        ConversionError::InvalidV1Message(solana_message::v1::MessageError::InvalidHeapSize).describe(),
        format!("invalid V1 message: {}", solana_message::v1::MessageError::InvalidHeapSize)
    );
    assert_eq!(
        ConversionError::V1AddressTableLookups.describe(),
        "V1 messages cannot contain address table lookups"
    );
    assert_eq!(
        ConversionError::V1TransactionTooLarge.describe(),
        "V1 transaction exceeds the 4096-byte wire limit"
    );
    assert_eq!(
        ConversionError::InvalidV1SignatureCount.describe(),
        "V1 signature count does not match the message header"
    );
}

#[test]
fn errors_are_made_of_their_causes() {
    assert_eq!(ConversionError::from("text"), legacy("text"));
    assert_eq!(
        ConversionError::from(solana_message::v1::MessageError::DuplicateAddresses),
        ConversionError::InvalidV1Message(solana_message::v1::MessageError::DuplicateAddresses)
    );
    let error = ConversionError::InvalidV1Message(solana_message::v1::MessageError::InvalidHeapSize);
    assert_eq!(error.clone(), error);
}

#[test]
fn keys_know_the_system_program_and_their_text() {
    let system = Pubkey { bytes: [0; 32] };
    assert!(system.is_system_program());
    assert_eq!(system.to_base58(), "11111111111111111111111111111111");
    let mut other = system;
    other.bytes[31] = 1;
    assert!(!other.is_system_program());
    assert!(!other.same(&system));
    assert_eq!(other.to_base58(), "11111111111111111111111111111112");
}

#[test]
fn the_wire_limits_are_those_of_the_message_format() {
    assert_eq!(
        carbon_datasources::v1::MAX_TRANSACTION_SIZE,
        solana_message::v1::MAX_TRANSACTION_SIZE
    );
    assert_eq!(carbon_datasources::v1::SIGNATURE_SIZE, solana_message::v1::SIGNATURE_SIZE);
    assert_eq!(HASH_BYTES, solana_hash::HASH_BYTES);
}

fn v1_verdict(change: fn(&mut proto::Message)) -> Result<(), ConversionError> {
    let mut message = proto_v1_message(proto::TransactionConfig::default());
    change(&mut message);
    create_message(message).map(|_| ())
}

fn header(signatures: u32, readonly_signed: u32, readonly_unsigned: u32) -> Option<proto::MessageHeader> {
    Some(proto::MessageHeader {
        num_required_signatures: signatures,
        num_readonly_signed_accounts: readonly_signed,
        num_readonly_unsigned_accounts: readonly_unsigned,
    })
}

fn keys(count: u8) -> Vec<Vec<u8>> {
    (0..count).map(|seed| vec![seed; 32]).collect()
}

#[test]
fn a_v1_message_is_accepted_at_the_edge_of_each_rule() {
    assert_eq!(v1_verdict(|_| ()), Ok(()));
    assert_eq!(
        v1_verdict(|m| {
            m.account_keys = keys(64);
            m.header = header(12, 11, 52);
        }),
        Ok(())
    );
    assert_eq!(v1_verdict(|m| m.instructions = vec![m.instructions[0].clone(); 64]), Ok(()));
    assert_eq!(v1_verdict(|m| m.instructions = vec![]), Ok(()));
    assert_eq!(v1_verdict(|m| m.instructions[0].accounts = vec![1; 255]), Ok(()));
    assert_eq!(v1_verdict(|m| m.config.as_mut().unwrap().heap_size = Some(32 * 1024)), Ok(()));
    assert_eq!(v1_verdict(|m| m.config.as_mut().unwrap().heap_size = Some(256 * 1024)), Ok(()));
}

#[test]
fn a_v1_message_is_refused_past_the_edge_of_each_rule() {
    let refused = |change, error| {
        assert_eq!(v1_verdict(change), Err(ConversionError::InvalidV1Message(error)));
    };
    refused(
        |m| {
            m.account_keys = keys(64);
            m.header = header(13, 0, 0);
        },
        MessageError::TooManySignatures,
    );
    refused(
        |m| m.instructions = vec![m.instructions[0].clone(); 65],
        MessageError::TooManyInstructions,
    );
    refused(|m| m.account_keys = keys(65), MessageError::TooManyAddresses);
    refused(|m| m.header = header(1, 0, 2), MessageError::NotEnoughAddressesForSignatures);
    refused(|m| m.header = header(1, 1, 0), MessageError::ZeroSigners);
    refused(|m| m.header = header(0, 0, 0), MessageError::ZeroSigners);
    refused(
        |m| m.account_keys[1] = m.account_keys[0].clone(),
        MessageError::DuplicateAddresses,
    );
    refused(
        |m| m.config.as_mut().unwrap().heap_size = Some(31 * 1024),
        MessageError::InvalidHeapSize,
    );
    refused(
        |m| m.config.as_mut().unwrap().heap_size = Some(257 * 1024),
        MessageError::InvalidHeapSize,
    );
    refused(
        |m| m.instructions[0].program_id_index = 0,
        MessageError::InvalidInstructionAccountIndex,
    );
    refused(
        |m| m.instructions[0].program_id_index = 2,
        MessageError::InvalidInstructionAccountIndex,
    );
    refused(
        |m| m.instructions[0].accounts = vec![2],
        MessageError::InvalidInstructionAccountIndex,
    );
    refused(
        |m| m.instructions[0].accounts = vec![0; 256],
        MessageError::InstructionAccountsTooLarge,
    );
    refused(
        |m| m.instructions[0].data = vec![0; 65_536],
        MessageError::InstructionDataTooLarge,
    );
    assert_eq!(
        v1_verdict(|m| m.instructions[0].data = vec![0; 65_535]),
        Err(ConversionError::V1TransactionTooLarge)
    );
}

#[test]
fn the_rules_use_the_limits_of_the_message_format() {
    assert_eq!(carbon_datasources::v1::MAX_SIGNATURES, solana_message::v1::MAX_SIGNATURES);
    assert_eq!(carbon_datasources::v1::MAX_ADDRESSES, solana_message::v1::MAX_ADDRESSES as usize);
    assert_eq!(
        carbon_datasources::v1::MAX_INSTRUCTIONS,
        solana_message::v1::MAX_INSTRUCTIONS as usize
    );
    assert_eq!(carbon_datasources::v1::MIN_HEAP_SIZE, solana_message::v1::MIN_HEAP_SIZE);
    assert_eq!(carbon_datasources::v1::MAX_HEAP_SIZE, solana_message::v1::MAX_HEAP_SIZE);
}

#[test]
fn a_broken_rule_is_told_by_its_kind() {
    let kind = |change| v1_verdict(change).unwrap_err().v1_kind();
    assert_eq!(
        kind(|m| m.config.as_mut().unwrap().heap_size = Some(1)),
        Some(MessageErrorKind::InvalidHeapSize)
    );
    assert_eq!(
        kind(|m| {
            m.header = header(13, 0, 0);
            m.config.as_mut().unwrap().heap_size = Some(1);
        }),
        Some(MessageErrorKind::TooManySignatures)
    );
    assert_eq!(
        kind(|m| {
            m.account_keys[1] = m.account_keys[0].clone();
            m.config.as_mut().unwrap().heap_size = Some(1);
        }),
        Some(MessageErrorKind::DuplicateAddresses)
    );
    assert_eq!(
        kind(|m| {
            m.instructions.push(m.instructions[0].clone());
            m.instructions[0].accounts = vec![9; 256];
            m.instructions[1].program_id_index = 0;
        }),
        Some(MessageErrorKind::InstructionAccountsTooLarge)
    );
    assert_eq!(ConversionError::V1TransactionTooLarge.v1_kind(), None);
}

#[test]
fn every_message_error_has_its_kind() {
    let pairs = [
        (MessageError::BufferTooSmall, MessageErrorKind::BufferTooSmall),
        (MessageError::InvalidHeapSize, MessageErrorKind::InvalidHeapSize),
        (MessageError::InstructionAccountsTooLarge, MessageErrorKind::InstructionAccountsTooLarge),
        (MessageError::InstructionDataTooLarge, MessageErrorKind::InstructionDataTooLarge),
        (MessageError::InvalidConfigMask, MessageErrorKind::InvalidConfigMask),
        (MessageError::InvalidInstructionAccountIndex, MessageErrorKind::InvalidInstructionAccountIndex),
        (MessageError::InvalidProgramIdIndex, MessageErrorKind::InvalidProgramIdIndex),
        (MessageError::InvalidVersion, MessageErrorKind::InvalidVersion),
        (MessageError::MissingLifetimeSpecifier, MessageErrorKind::MissingLifetimeSpecifier),
        (MessageError::NotEnoughAddressesForSignatures, MessageErrorKind::NotEnoughAddressesForSignatures),
        (MessageError::TooManyAddresses, MessageErrorKind::TooManyAddresses),
        (MessageError::TooManyInstructions, MessageErrorKind::TooManyInstructions),
        (MessageError::TooManySignatures, MessageErrorKind::TooManySignatures),
        (MessageError::TrailingData, MessageErrorKind::TrailingData),
        (MessageError::TransactionTooLarge, MessageErrorKind::TransactionTooLarge),
        (MessageError::ZeroSigners, MessageErrorKind::ZeroSigners),
        (MessageError::DuplicateAddresses, MessageErrorKind::DuplicateAddresses),
        (MessageError::InvalidConfigValue, MessageErrorKind::InvalidConfigValue),
        (MessageError::NotEnoughAccountKeys, MessageErrorKind::NotEnoughAccountKeys),
    ];
    for (error, kind) in pairs {
        assert_eq!(ConversionError::InvalidV1Message(error).v1_kind(), Some(kind));
    }
}
