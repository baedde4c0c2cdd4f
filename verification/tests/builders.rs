use account_store::programs::openbook_id;
use account_store::{AccountInfo, AccountMeta, AccountsState, Pubkey};
use solana_program::program_pack::Pack;
use solana_program::rent::Rent;
use std::str::FromStr;

fn key(tag: u8) -> Pubkey {
    let mut bytes = [tag; 32];
    bytes[0] = 1;
    Pubkey::new_from_array(bytes)
}

fn read(state: &AccountsState, pubkey: Pubkey) -> AccountInfo {
    let meta = AccountMeta { pubkey, is_signer: false, is_writable: false };
    let mut infos = state.account_infos(vec![meta]);
    assert_eq!(infos.len(), 1);
    infos.remove(0)
}

fn outside(pubkey: &Pubkey) -> solana_program::pubkey::Pubkey {
    solana_program::pubkey::Pubkey::new_from_array(pubkey.to_bytes())
}

#[test]
fn add_program_stores_an_executable_of_the_loader() {
    let mut state = AccountsState::new();
    state.add_program(key(1));
    let info = read(&state, key(1));
    assert_eq!(info.lamports, 0);
    assert!(info.data.is_empty());
    assert_eq!(info.owner.to_bytes(), solana_program::bpf_loader::ID.to_bytes());
    assert_ne!(info.owner.to_bytes(), [0u8; 32]);
    assert!(info.executable);
    assert_eq!(info.rent_epoch, 0);
}

#[test]
fn add_account_with_lamports_stores_a_system_account() {
    let mut state = AccountsState::new();
    state.add_account_with_lamports(key(2), 1_000_000);
    let info = read(&state, key(2));
    assert_eq!(info.lamports, 1_000_000);
    assert!(info.data.is_empty());
    assert_eq!(info.owner.to_bytes(), solana_program::system_program::ID.to_bytes());
    assert_eq!(info.owner.to_bytes(), [0u8; 32]);
    assert!(!info.executable);
    assert_eq!(info.rent_epoch, 0);
}

#[test]
fn add_token_account_reads_back_through_the_decoder() {
    let mut state = AccountsState::new();
    let (address, owner, mint) = (key(3), key(4), key(5));
    state.add_token_account(address, owner, mint);
    let info = read(&state, address);
    let decoded = spl_token::state::Account::unpack(&info.data).unwrap();
    assert_eq!(decoded.state, spl_token::state::AccountState::Initialized);
    assert_eq!(decoded.owner, outside(&owner));
    assert_eq!(decoded.mint, outside(&mint));
    assert_eq!(decoded.amount, 0);
    assert!(decoded.delegate.is_none());
    assert!(decoded.is_native.is_none());
    assert_eq!(decoded.delegated_amount, 0);
    assert!(decoded.close_authority.is_none());
    assert_eq!(info.data.len(), spl_token::state::Account::LEN);
    assert_eq!(info.lamports, Rent::default().minimum_balance(spl_token::state::Account::LEN));
    assert_eq!(info.lamports, 2_039_280);
    assert_eq!(info.owner.to_bytes(), spl_token::ID.to_bytes());
    assert!(!info.executable);
    assert_eq!(info.rent_epoch, 0);
}

#[test]
fn token_account_data_is_mint_owner_and_state_byte() {
    let mut state = AccountsState::new();
    let (address, owner, mint) = (key(6), key(7), key(8));
    state.add_token_account(address, owner, mint);
    let data = read(&state, address).data;
    let mut expected = Vec::new();
    expected.extend_from_slice(&mint.to_bytes());
    expected.extend_from_slice(&owner.to_bytes());
    expected.extend_from_slice(&[0u8; 44]);
    expected.push(1);
    expected.extend_from_slice(&[0u8; 56]);
    assert_eq!(data, expected);
}

#[test]
fn add_mint_reads_back_through_the_decoder() {
    let mut state = AccountsState::new();
    state.add_mint(key(9));
    let info = read(&state, key(9));
    let decoded = spl_token::state::Mint::unpack(&info.data).unwrap();
    assert!(decoded.is_initialized);
    assert_eq!(decoded.supply, 0);
    assert_eq!(decoded.decimals, 0);
    assert!(decoded.mint_authority.is_none());
    assert!(decoded.freeze_authority.is_none());
    assert_eq!(info.data.len(), spl_token::state::Mint::LEN);
    let mut expected = vec![0u8; 82];
    expected[45] = 1;
    assert_eq!(info.data, expected);
    assert_eq!(info.lamports, Rent::default().minimum_balance(spl_token::state::Mint::LEN));
    assert_eq!(info.lamports, 1_461_600);
    assert_eq!(info.owner.to_bytes(), spl_token::ID.to_bytes());
    assert!(!info.executable);
    assert_eq!(info.rent_epoch, 0);
}

#[test]
fn add_openbook_account_is_zero_filled() {
    let mut state = AccountsState::new();
    state.add_openbook_account::<[u64; 5]>(key(10));
    let info = read(&state, key(10));
    assert_eq!(info.data, vec![0u8; 48]);
    assert_eq!(info.lamports, Rent::default().minimum_balance(48));
    assert_eq!(info.lamports, (128 + 48) * 3480 * 2);
    assert_eq!(info.owner, openbook_id());
    assert!(!info.executable);
    assert_eq!(info.rent_epoch, 0);
}

#[test]
fn add_openbook_account_for_an_empty_record() {
    let mut state = AccountsState::new();
    state.add_openbook_account::<()>(key(11));
    let info = read(&state, key(11));
    assert_eq!(info.data, vec![0u8; 8]);
    assert_eq!(info.lamports, 946_560);
}

#[test]
fn openbook_id_is_the_decoded_address() {
    let id = solana_program::pubkey::Pubkey::from_str(
        "opnb2LAfJYbRMAHHvqjCwQxanZn7ReEHp1k81EohpZb",
    )
    .unwrap();
    assert_eq!(openbook_id().to_bytes(), id.to_bytes());
}

#[test]
fn builders_chain() {
    let mut state = AccountsState::new();
    state
        .add_program(key(20))
        .add_account_with_lamports(key(21), 5)
        .add_mint(key(22))
        .add_token_account(key(23), key(21), key(22))
        .add_openbook_account::<u8>(key(24));
    for tag in 20u8..25 {
        assert!(state.contains(&key(tag)));
    }
    assert!(!state.contains(&key(25)));
    assert_eq!(read(&state, key(21)).lamports, 5);
    assert_eq!(read(&state, key(24)).data.len(), 9);
}

#[test]
fn a_builder_replaces_what_was_stored() {
    let mut state = AccountsState::new();
    state.add_account_with_lamports(key(30), 5);
    state.add_program(key(30));
    let info = read(&state, key(30));
    assert_eq!(info.lamports, 0);
    assert!(info.executable);
}

#[test]
fn seeded_token_account_survives_a_round_trip() {
    let mut state = AccountsState::new();
    state.add_token_account(key(40), key(41), key(42));
    let metas = vec![AccountMeta { pubkey: key(40), is_signer: false, is_writable: true }];
    let mut infos = state.account_infos(metas);
    let mut token = spl_token::state::Account::unpack(&infos[0].data).unwrap();
    token.amount = 500;
    spl_token::state::Account::pack(token, &mut infos[0].data).unwrap();
    state.update(infos);
    let info = read(&state, key(40));
    let decoded = spl_token::state::Account::unpack(&info.data).unwrap();
    assert_eq!(decoded.amount, 500);
    assert_eq!(decoded.owner, outside(&key(41)));
    assert_eq!(info.lamports, 2_039_280);
}
