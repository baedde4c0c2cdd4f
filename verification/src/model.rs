//! The mathematical model of the store: a finite map from addresses to
//! records, and the two operations that a call performs on it.

use vstd::prelude::*;
use crate::account::{AccountInfoView, AccountMetaView, AccountView};

verus! {

/// The contents of a store.
pub type Accounts = Map<Seq<u8>, AccountView>;

/// The descriptor handed out for `meta` when the store holds `accounts`:
/// the address and access flags of the request, and every field of the
/// stored record.
pub open spec fn project_one(accounts: Accounts, meta: AccountMetaView) -> AccountInfoView {
    let stored = accounts[meta.pubkey];
    AccountInfoView {
        key: meta.pubkey,
        is_signer: meta.is_signer,
        is_writable: meta.is_writable,
        lamports: stored.lamports,
        data: stored.data,
        owner: stored.owner,
        executable: stored.executable,
        rent_epoch: stored.rent_epoch,
    }
}

/// The descriptors handed out for `metas`, one for each request and in the
/// order of the requests.
pub open spec fn project(accounts: Accounts, metas: Seq<AccountMetaView>) -> Seq<AccountInfoView> {
    Seq::new(metas.len(), |i: int| project_one(accounts, metas[i]))
}

/// Whether every request in `metas` names a stored account.
pub open spec fn all_present(accounts: Accounts, metas: Seq<AccountMetaView>) -> bool {
    forall|i: int| 0 <= i < metas.len() ==> accounts.contains_key(#[trigger] metas[i].pubkey)
}

/// Whether every descriptor in `infos` names a stored account.
pub open spec fn all_known(accounts: Accounts, infos: Seq<AccountInfoView>) -> bool {
    forall|i: int| 0 <= i < infos.len() ==> accounts.contains_key(#[trigger] infos[i].key)
}

/// The store after the balance and data of `info` have replaced those of the
/// record stored under its address. Owner, executable flag and rent epoch of
/// the record stay as they are.
pub open spec fn write_back_one(accounts: Accounts, info: AccountInfoView) -> Accounts {
    let stored = accounts[info.key];
    accounts.insert(
        info.key,
        AccountView { lamports: info.lamports, data: info.data, ..stored },
    )
}

/// The store after the descriptors in `infos` have been written back one
/// after the other, first to last.
pub open spec fn write_back(accounts: Accounts, infos: Seq<AccountInfoView>) -> Accounts
    decreases infos.len(),
{
    if infos.len() == 0 {
        accounts
    } else {
        write_back_one(write_back(accounts, infos.drop_last()), infos.last())
    }
}

} // verus!
