//! Account records, access requests and per-call descriptors.

use vstd::prelude::*;
use crate::pubkey::Pubkey;

verus! {

/// A stored account record.
#[derive(Clone, Debug, PartialEq, Eq)]
pub struct Account {
    /// Balance, in lamports.
    pub lamports: u64,
    /// Raw contents.
    pub data: Vec<u8>,
    /// Address of the program that owns the account.
    pub owner: Pubkey,
    /// Whether the account holds a loaded program.
    pub executable: bool,
    /// Epoch at which the account next owes rent.
    pub rent_epoch: u64,
}

/// What an [`Account`] holds, as mathematical values.
pub ghost struct AccountView {
    pub lamports: u64,
    pub data: Seq<u8>,
    pub owner: Seq<u8>,
    pub executable: bool,
    pub rent_epoch: u64,
}

impl View for Account {
    type V = AccountView;

    open spec fn view(&self) -> AccountView {
        AccountView {
            lamports: self.lamports,
            data: self.data@,
            owner: self.owner@,
            executable: self.executable,
            rent_epoch: self.rent_epoch,
        }
    }
}

impl Account {
    /// Builds a record from its five fields.
    pub fn create(
        lamports: u64,
        data: Vec<u8>,
        owner: Pubkey,
        executable: bool,
        rent_epoch: u64,
    ) -> (account: Account)
        ensures
            account@ == (AccountView {
                lamports,
                data: data@,
                owner: owner@,
                executable,
                rent_epoch,
            }),
    {
        Account { lamports, data, owner, executable, rent_epoch }
    }
}

/// A request to see one account during a call, with the access the caller
/// grants to it.
#[derive(Clone, Debug, PartialEq, Eq)]
pub struct AccountMeta {
    /// Address of the requested account.
    pub pubkey: Pubkey,
    /// Whether the account signed the call.
    pub is_signer: bool,
    /// Whether the call may change the account.
    pub is_writable: bool,
}

/// What an [`AccountMeta`] holds, as mathematical values.
pub ghost struct AccountMetaView {
    pub pubkey: Seq<u8>,
    pub is_signer: bool,
    pub is_writable: bool,
}

impl View for AccountMeta {
    type V = AccountMetaView;

    open spec fn view(&self) -> AccountMetaView {
        AccountMetaView {
            pubkey: self.pubkey@,
            is_signer: self.is_signer,
            is_writable: self.is_writable,
        }
    }
}

/// The descriptor of one account for the length of one call: a copy of the
/// stored balance and data that the call may change, with the fields that it
/// may only read.
#[derive(Clone, Debug, PartialEq, Eq)]
pub struct AccountInfo {
    /// Address of the account.
    pub key: Pubkey,
    /// Whether the account signed the call.
    pub is_signer: bool,
    /// Whether the call may change the account.
    pub is_writable: bool,
    /// Balance, in lamports.
    pub lamports: u64,
    /// Raw contents.
    pub data: Vec<u8>,
    /// Address of the program that owns the account.
    pub owner: Pubkey,
    /// Whether the account holds a loaded program.
    pub executable: bool,
    /// Epoch at which the account next owes rent.
    pub rent_epoch: u64,
}

/// What an [`AccountInfo`] holds, as mathematical values.
pub ghost struct AccountInfoView {
    pub key: Seq<u8>,
    pub is_signer: bool,
    pub is_writable: bool,
    pub lamports: u64,
    pub data: Seq<u8>,
    pub owner: Seq<u8>,
    pub executable: bool,
    pub rent_epoch: u64,
}

impl View for AccountInfo {
    type V = AccountInfoView;

    open spec fn view(&self) -> AccountInfoView {
        AccountInfoView {
            key: self.key@,
            is_signer: self.is_signer,
            is_writable: self.is_writable,
            lamports: self.lamports,
            data: self.data@,
            owner: self.owner@,
            executable: self.executable,
            rent_epoch: self.rent_epoch,
        }
    }
}

/// The views of a sequence of access requests, in the same order.
pub open spec fn meta_views(metas: Seq<AccountMeta>) -> Seq<AccountMetaView> {
    Seq::new(metas.len(), |i: int| metas[i]@)
}

/// The views of a sequence of descriptors, in the same order.
pub open spec fn info_views(infos: Seq<AccountInfo>) -> Seq<AccountInfoView> {
    Seq::new(infos.len(), |i: int| infos[i]@)
}

} // verus!
