use account_store::{Account, AccountInfo, AccountMeta, AccountsState, Pubkey};

fn key(tag: u8) -> Pubkey {
    let mut bytes = [0u8; 32];
    bytes[0] = tag;
    bytes[31] = tag.wrapping_mul(7);
    Pubkey::new_from_array(bytes)
}

fn meta(tag: u8, is_signer: bool, is_writable: bool) -> AccountMeta {
    AccountMeta { pubkey: key(tag), is_signer, is_writable }
}

fn read(state: &AccountsState, tag: u8) -> AccountInfo {
    let mut infos = state.account_infos(vec![meta(tag, false, false)]);
    assert_eq!(infos.len(), 1);
    infos.remove(0)
}

fn sample() -> AccountsState {
    let mut state = AccountsState::new();
    state.insert(key(3), Account::create(30, vec![3, 3, 3], key(93), false, 13));
    state.insert(key(1), Account::create(10, vec![1], key(91), true, 11));
    state.insert(key(2), Account::create(20, vec![], key(92), false, 12));
    state
}

#[test]
fn pubkey_keeps_its_bytes() {
    let mut bytes = [0u8; 32];
    for (i, b) in bytes.iter_mut().enumerate() {
        *b = (i as u8) * 3 + 1;
    }
    let k = Pubkey::new_from_array(bytes);
    assert_eq!(k.to_bytes(), bytes);
}

#[test]
fn pubkey_same_compares_every_byte() {
    let a = Pubkey::new_from_array([7u8; 32]);
    let b = Pubkey::new_from_array([7u8; 32]);
    assert!(a.same(&b));
    for i in 0..32 {
        let mut bytes = [7u8; 32];
        bytes[i] = 8;
        assert!(!a.same(&Pubkey::new_from_array(bytes)));
    }
}

#[test]
fn new_store_is_empty() {
    let state = AccountsState::new();
    assert!(!state.contains(&key(1)));
    assert!(state.account_infos(vec![]).is_empty());
    let other = AccountsState::default();
    assert!(!other.contains(&key(1)));
}

#[test]
fn insert_then_contains() {
    let state = sample();
    assert!(state.contains(&key(1)));
    assert!(state.contains(&key(2)));
    assert!(state.contains(&key(3)));
    assert!(!state.contains(&key(4)));
}

#[test]
fn insert_replaces_the_record_under_the_same_address() {
    let mut state = sample();
    state.insert(key(1), Account::create(77, vec![9, 9], key(50), false, 5));
    let info = read(&state, 1);
    assert_eq!(info.lamports, 77);
    assert_eq!(info.data, vec![9, 9]);
    assert_eq!(info.owner, key(50));
    assert!(!info.executable);
    assert_eq!(info.rent_epoch, 5);
    assert_eq!(read(&state, 2).lamports, 20);
    assert_eq!(read(&state, 3).lamports, 30);
}

#[test]
fn account_infos_copies_every_field() {
    let state = sample();
    let infos = state.account_infos(vec![meta(1, true, false)]);
    assert_eq!(
        infos,
        vec![AccountInfo {
            key: key(1),
            is_signer: true,
            is_writable: false,
            lamports: 10,
            data: vec![1],
            owner: key(91),
            executable: true,
            rent_epoch: 11,
        }]
    );
}

#[test]
fn account_infos_keeps_the_order_of_the_requests() {
    let state = sample();
    let infos = state.account_infos(vec![
        meta(1, false, true),
        meta(2, true, false),
        meta(3, true, true),
    ]);
    let keys: Vec<Pubkey> = infos.iter().map(|i| i.key).collect();
    assert_eq!(keys, vec![key(1), key(2), key(3)]);
    let lamports: Vec<u64> = infos.iter().map(|i| i.lamports).collect();
    assert_eq!(lamports, vec![10, 20, 30]);
    let flags: Vec<(bool, bool)> = infos.iter().map(|i| (i.is_signer, i.is_writable)).collect();
    assert_eq!(flags, vec![(false, true), (true, false), (true, true)]);

    let infos = state.account_infos(vec![
        meta(2, false, false),
        meta(3, false, false),
        meta(2, false, false),
        meta(1, false, false),
    ]);
    let keys: Vec<Pubkey> = infos.iter().map(|i| i.key).collect();
    assert_eq!(keys, vec![key(2), key(3), key(2), key(1)]);
}

#[test]
fn order_does_not_depend_on_insertion_order() {
    let mut forward = AccountsState::new();
    let mut backward = AccountsState::new();
    for tag in [1u8, 2, 3] {
        forward.insert(key(tag), Account::create(tag as u64, vec![tag], key(90), false, 0));
    }
    for tag in [3u8, 2, 1] {
        backward.insert(key(tag), Account::create(tag as u64, vec![tag], key(90), false, 0));
    }
    let metas = vec![meta(1, false, false), meta(2, false, false), meta(3, false, false)];
    assert_eq!(forward.account_infos(metas.clone()), backward.account_infos(metas));
}

#[test]
fn unchanged_descriptors_leave_the_store_as_it_was() {
    let mut state = sample();
    let metas = vec![meta(1, true, true), meta(2, false, true), meta(3, false, false)];
    let before = state.account_infos(metas.clone());
    state.update(before.clone());
    assert_eq!(state.account_infos(metas), before);
}

#[test]
fn update_writes_balance_and_data_only() {
    let mut state = sample();
    let mut infos = state.account_infos(vec![meta(1, true, true), meta(2, false, true)]);
    infos[0].lamports = 1000;
    infos[0].data = vec![4, 5, 6, 7];
    infos[0].owner = key(200);
    infos[0].executable = false;
    infos[0].rent_epoch = 999;
    infos[1].data = vec![8];
    state.update(infos);

    let first = read(&state, 1);
    assert_eq!(first.lamports, 1000);
    assert_eq!(first.data, vec![4, 5, 6, 7]);
    assert_eq!(first.owner, key(91));
    assert!(first.executable);
    assert_eq!(first.rent_epoch, 11);

    let second = read(&state, 2);
    assert_eq!(second.lamports, 20);
    assert_eq!(second.data, vec![8]);
    assert_eq!(second.owner, key(92));

    let third = read(&state, 3);
    assert_eq!(third.lamports, 30);
    assert_eq!(third.data, vec![3, 3, 3]);
}

#[test]
fn update_with_only_the_balance_changed() {
    let mut state = sample();
    let mut infos = state.account_infos(vec![meta(3, false, true)]);
    infos[0].lamports = 31;
    state.update(infos);
    let info = read(&state, 3);
    assert_eq!(info.lamports, 31);
    assert_eq!(info.data, vec![3, 3, 3]);
}

#[test]
fn update_with_only_the_data_changed() {
    let mut state = sample();
    let mut infos = state.account_infos(vec![meta(3, false, true)]);
    infos[0].data = vec![3, 3, 4];
    state.update(infos);
    let info = read(&state, 3);
    assert_eq!(info.lamports, 30);
    assert_eq!(info.data, vec![3, 3, 4]);
}

#[test]
fn the_last_descriptor_of_an_address_wins() {
    let mut state = sample();
    let mut infos = state.account_infos(vec![
        meta(1, false, true),
        meta(2, false, true),
        meta(1, false, true),
    ]);
    infos[0].lamports = 111;
    infos[0].data = vec![1, 1];
    infos[2].lamports = 222;
    state.update(infos);
    let info = read(&state, 1);
    assert_eq!(info.lamports, 222);
    assert_eq!(info.data, vec![1]);
    assert_eq!(read(&state, 2).lamports, 20);
}

#[test]
fn update_with_no_descriptors_changes_nothing() {
    let mut state = sample();
    let metas = vec![meta(1, false, false), meta(2, false, false), meta(3, false, false)];
    let before = state.account_infos(metas.clone());
    state.update(vec![]);
    assert_eq!(state.account_infos(metas), before);
}
