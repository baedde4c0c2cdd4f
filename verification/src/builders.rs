//! Seeding the store with accounts of well-known kinds.

use vstd::prelude::*;
use vstd::layout::{layout_for_type_is_valid, size_of};
use vstd::pervasive::unreached;
use crate::account::{Account, AccountView};
use crate::programs::{
    bpf_loader_address, bpf_loader_id, openbook_address, openbook_id, system_program_address,
    system_program_id, token_program_address, token_program_id,
};
use crate::pubkey::Pubkey;
use crate::rent::{minimum_balance, rent_exempt_minimum, yearly_rent};
use crate::store::AccountsState;
use crate::token::{
    mint_len, pack_mint, pack_token_account, token_account_len, zeros, AccountState, MINT_LEN,
    TOKEN_ACCOUNT_LEN,
};

verus! {

/// The record of a program: owned by the BPF loader, executable, with no
/// balance and no data.
pub open spec fn program_account() -> AccountView {
    AccountView {
        lamports: 0,
        data: Seq::empty(),
        owner: bpf_loader_address(),
        executable: true,
        rent_epoch: 0,
    }
}

/// The record of a plain account that holds `lamports`: owned by the system
/// program, with no data.
pub open spec fn system_account(lamports: u64) -> AccountView {
    AccountView {
        lamports,
        data: Seq::empty(),
        owner: system_program_address(),
        executable: false,
        rent_epoch: 0,
    }
}

/// The data of an initialized token account of `mint` that belongs to
/// `owner`: mint and owner, the state byte 1 at offset 108, and zero
/// everywhere else.
pub open spec fn token_account_data(mint: Seq<u8>, owner: Seq<u8>) -> Seq<u8> {
    mint + owner + zeros(44) + seq![1u8] + zeros(56)
}

/// The record of an initialized token account of `mint` that belongs to
/// `owner`: owned by the token program and exempt from rent.
pub open spec fn token_account(mint: Seq<u8>, owner: Seq<u8>) -> AccountView {
    AccountView {
        lamports: rent_exempt_minimum(TOKEN_ACCOUNT_LEN as nat),
        data: token_account_data(mint, owner),
        owner: token_program_address(),
        executable: false,
        rent_epoch: 0,
    }
}

/// The data of an initialized mint without supply or authorities: the byte 1
/// at offset 45, and zero everywhere else.
pub open spec fn mint_data() -> Seq<u8> {
    zeros(45) + seq![1u8] + zeros(36)
}

/// The record of an initialized mint: owned by the token program and exempt
/// from rent.
pub open spec fn mint_account() -> AccountView {
    AccountView {
        lamports: rent_exempt_minimum(MINT_LEN as nat),
        data: mint_data(),
        owner: token_program_address(),
        executable: false,
        rent_epoch: 0,
    }
}

/// The record of a blank account of the order-book program with room for
/// `payload` bytes after the eight bytes of its discriminator: zero-filled
/// and exempt from rent.
pub open spec fn openbook_account(payload: nat) -> AccountView {
    AccountView {
        lamports: rent_exempt_minimum(8 + payload),
        data: zeros(8 + payload),
        owner: openbook_address(),
        executable: false,
        rent_epoch: 0,
    }
}

impl AccountsState {
    /// Stores a program record under `pubkey`.
    pub fn add_program(&mut self, pubkey: Pubkey) -> (state: &mut Self)
        ensures
            state@ == old(self)@.insert(pubkey@, program_account()),
            *final(self) == *final(state),
    {
        let account = Account::create(0, Vec::new(), bpf_loader_id(), true, 0);
        self.insert(pubkey, account);
        self
    }

    /// Stores under `pubkey` a plain account that holds `lamports`.
    pub fn add_account_with_lamports(&mut self, pubkey: Pubkey, lamports: u64) -> (state: &mut Self)
        ensures
            state@ == old(self)@.insert(pubkey@, system_account(lamports)),
            *final(self) == *final(state),
    {
        let account = Account::create(lamports, Vec::new(), system_program_id(), false, 0);
        self.insert(pubkey, account);
        self
    }

    /// Stores under `pubkey` an initialized token account of `mint` that
    /// belongs to `owner`, with the balance that exempts it from rent.
    pub fn add_token_account(&mut self, pubkey: Pubkey, owner: Pubkey, mint: Pubkey) -> (state:
        &mut Self)
        ensures
            state@ == old(self)@.insert(pubkey@, token_account(mint@, owner@)),
            state@[pubkey@].lamports == 2_039_280,
            *final(self) == *final(state),
    {
        let mut data: Vec<u8> = vec![0u8; token_account_len()];
        match pack_token_account(&mint, &owner, AccountState::Initialized, &mut data) {
            Ok(_) => {},
            Err(_) => unreached(),
        }
        proof {
            mint.lemma_view(owner);
            owner.lemma_view(mint);
            assert(data@ =~= token_account_data(mint@, owner@));
        }
        let lamports = minimum_balance(data.len());
        let account = Account::create(lamports, data, token_program_id(), false, 0);
        self.insert(pubkey, account);
        self
    }

    /// Stores under `pubkey` an initialized mint, with the balance that
    /// exempts it from rent.
    pub fn add_mint(&mut self, pubkey: Pubkey) -> (state: &mut Self)
        ensures
            state@ == old(self)@.insert(pubkey@, mint_account()),
            state@[pubkey@].lamports == 1_461_600,
            *final(self) == *final(state),
    {
        let mut data: Vec<u8> = vec![0u8; mint_len()];
        match pack_mint(true, &mut data) {
            Ok(_) => {},
            Err(_) => unreached(),
        }
        proof {
            assert(data@ =~= mint_data());
        }
        let lamports = minimum_balance(data.len());
        let account = Account::create(lamports, data, token_program_id(), false, 0);
        self.insert(pubkey, account);
        self
    }

    /// Stores under `pubkey` a blank account of the order-book program for a
    /// record of type `T`: eight bytes of discriminator and the size of `T`,
    /// all zero, with the balance that exempts it from rent.
    ///
    /// The yearly rent of such an account must fit in 64 bits.
    pub fn add_openbook_account<T>(&mut self, pubkey: Pubkey) -> (state: &mut Self)
        requires
            yearly_rent(8 + size_of::<T>()) <= u64::MAX,
        ensures
            state@ == old(self)@.insert(pubkey@, openbook_account(size_of::<T>())),
            yearly_rent(8 + size_of::<T>()) < 0x20_0000_0000_0000 ==> state@[pubkey@].lamports
                == 2 * yearly_rent(8 + size_of::<T>()),
            *final(self) == *final(state),
    {
        layout_for_type_is_valid::<T>();
        let len: usize = 8 + core::mem::size_of::<T>();
        let data: Vec<u8> = vec![0u8; len];
        proof {
            assert(data@ =~= zeros(8 + size_of::<T>()));
        }
        let lamports = minimum_balance(len);
        let account = Account::create(lamports, data, openbook_id(), false, 0);
        self.insert(pubkey, account);
        self
    }
}

} // verus!
