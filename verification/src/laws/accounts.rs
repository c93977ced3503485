//! Addresses and accounts.
use crate::chain::{Account, LoadedAddresses};
use crate::error::ConversionError;
use crate::keys::{BlockHash, Pubkey, Signature};
use crate::proto;
use vstd::prelude::*;

verus! {

/// An address, a signature and a hash are their bytes.
pub proof fn law_keys_are_their_bytes(pubkey: Pubkey, signature: Signature, hash: BlockHash)
    ensures
        pubkey@ == pubkey.bytes@,
        pubkey@.len() == 32,
        signature@ == signature.bytes@,
        signature@.len() == 64,
        hash@ == hash.bytes@,
        hash@.len() == 32,
{
}

/// The address of the system program is 32 zeros, and no other bytes are.
pub proof fn law_system_program_is_all_zeros(address: Seq<u8>)
    ensures
        address == crate::keys::system_program() <==> address.len() == 32 && forall|j: int|
            0 <= j < 32 ==> #[trigger] address[j] == 0,
{
    let system = crate::keys::system_program();
    if address == system {
        assert forall|j: int| 0 <= j < 32 implies #[trigger] address[j] == 0 by {
            assert(system[j] == 0);
        }
    }
    if address.len() == 32 && forall|j: int| 0 <= j < 32 ==> #[trigger] address[j] == 0 {
        assert(address =~= system);
    }
}

/// 32 bytes are an address, and nothing else is.
pub proof fn law_an_address_has_32_bytes(bytes: Seq<u8>)
    ensures
        bytes.len() == 32 ==> crate::convert_from::pubkey_fault(bytes) is None,
        bytes.len() != 32 ==> crate::convert_from::pubkey_fault(bytes) == Some(
            ConversionError::Legacy("failed to parse Pubkey"),
        ),
{
}

/// A list of addresses is accepted exactly if each has 32 bytes.
pub proof fn law_addresses_have_32_bytes_each(bytes: Seq<Vec<u8>>)
    ensures
        (forall|i: int| 0 <= i < bytes.len() ==> (#[trigger] bytes[i])@.len() == 32)
            ==> crate::convert_from::pubkeys_fault(bytes) is None,
        forall|i: int|
            0 <= i < bytes.len() && (#[trigger] bytes[i])@.len() != 32 ==> crate::convert_from::pubkeys_fault(bytes)
                == Some(ConversionError::Legacy("failed to parse Pubkey")),
{
}

/// An accepted list of addresses keeps their number, their order and their bytes.
pub proof fn law_addresses_are_kept(bytes: Seq<Vec<u8>>, out: Seq<Pubkey>)
    requires
        crate::convert_from::pubkeys_fault(bytes) is None,
        crate::convert_from::pubkeys_match(bytes, out),
    ensures
        out.len() == bytes.len(),
        forall|i: int| 0 <= i < bytes.len() ==> (#[trigger] out[i]).bytes@ == bytes[i]@,
        forall|i: int| 0 <= i < bytes.len() ==> (#[trigger] bytes[i])@.len() == 32,
{
    assert forall|i: int| 0 <= i < bytes.len() implies (#[trigger] out[i]).bytes@ == bytes[i]@ by {
        assert(out[i]@ == bytes[i]@);
    }
}

/// The addresses that a transaction loads to write stay apart from those it loads to read.
pub proof fn law_loaded_addresses_are_kept(writable: Seq<Vec<u8>>, readonly: Seq<Vec<u8>>, out: LoadedAddresses)
    requires
        crate::convert_from::loaded_addresses_fault(writable, readonly) is None,
        crate::convert_from::loaded_addresses_match(writable, readonly, out),
    ensures
        out.writable@.len() == writable.len(),
        forall|i: int| 0 <= i < writable.len() ==> (#[trigger] out.writable@[i]).bytes@ == writable[i]@,
        out.readonly@.len() == readonly.len(),
        forall|i: int| 0 <= i < readonly.len() ==> (#[trigger] out.readonly@[i]).bytes@ == readonly[i]@,
{
    law_addresses_are_kept(writable, out.writable@);
    law_addresses_are_kept(readonly, out.readonly@);
}

/// Loaded addresses are refused exactly if one of them, in either list, has not 32 bytes.
pub proof fn law_loaded_addresses_are_checked(writable: Seq<Vec<u8>>, readonly: Seq<Vec<u8>>)
    ensures
        crate::convert_from::loaded_addresses_fault(writable, readonly) is None <==> {
            &&& forall|i: int| 0 <= i < writable.len() ==> (#[trigger] writable[i])@.len() == 32
            &&& forall|i: int| 0 <= i < readonly.len() ==> (#[trigger] readonly[i])@.len() == 32
        },
        crate::convert_from::loaded_addresses_fault(writable, readonly) is Some
            ==> crate::convert_from::loaded_addresses_fault(writable, readonly) == Some(
            ConversionError::Legacy("failed to parse Pubkey"),
        ),
{
    law_addresses_have_32_bytes_each(writable);
    law_addresses_have_32_bytes_each(readonly);
}

/// An accepted account keeps its address, its balance, its data, its owner, its flag and its
/// rent epoch.
pub proof fn law_account_is_kept(account: proto::SubscribeUpdateAccountInfo, pubkey: Pubkey, out: Account)
    requires
        crate::convert_from::account_fault(account) is None,
        crate::convert_from::account_matches(account, pubkey, out),
    ensures
        pubkey.bytes@ == account.pubkey@,
        out.lamports == account.lamports,
        out.data@ == account.data@,
        out.owner.bytes@ == account.owner@,
        out.executable == account.executable,
        out.rent_epoch == account.rent_epoch,
{
    assert(pubkey@ == account.pubkey@);
    assert(out.owner@ == account.owner@);
}

/// An account is refused exactly if its address or its owner has not 32 bytes.
pub proof fn law_account_is_checked(account: proto::SubscribeUpdateAccountInfo)
    ensures
        crate::convert_from::account_fault(account) is None <==> account.pubkey@.len() == 32 && account.owner@.len()
            == 32,
        account.pubkey@.len() != 32 || account.owner@.len() != 32 ==> crate::convert_from::account_fault(account)
            == Some(ConversionError::Legacy("failed to parse Pubkey")),
{
}

} // verus!
