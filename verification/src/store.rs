//! The account store.

use vstd::prelude::*;
use vstd::pervasive::unreached;
use crate::account::{info_views, meta_views, Account, AccountInfo, AccountMeta, AccountView};
use crate::model::{all_known, all_present, project, project_one, write_back, write_back_one, Accounts};
use crate::pubkey::Pubkey;

verus! {

/// One stored record with the address it is stored under.
struct Entry {
    key: Pubkey,
    account: Account,
}

/// Whether no address occurs twice in `entries`.
spec fn distinct_keys(entries: Seq<Entry>) -> bool {
    forall|i: int, j: int|
        0 <= i < entries.len() && 0 <= j < entries.len() && i != j
            ==> (#[trigger] entries[i]).key@ != (#[trigger] entries[j]).key@
}

/// Whether some entry in `entries` is stored under `key`.
spec fn has_key(entries: Seq<Entry>, key: Seq<u8>) -> bool {
    exists|i: int| 0 <= i < entries.len() && (#[trigger] entries[i]).key@ == key
}

/// The place of an entry stored under `key`.
spec fn index_of(entries: Seq<Entry>, key: Seq<u8>) -> int {
    choose|i: int| 0 <= i < entries.len() && (#[trigger] entries[i]).key@ == key
}

/// The map that `entries` stands for.
spec fn entries_map(entries: Seq<Entry>) -> Accounts {
    Map::new(
        |key: Seq<u8>| has_key(entries, key),
        |key: Seq<u8>| entries[index_of(entries, key)].account@,
    )
}

/// With distinct addresses, each entry is the one its address maps to.
proof fn lemma_entry_is_mapped(entries: Seq<Entry>, i: int)
    requires
        distinct_keys(entries),
        0 <= i < entries.len(),
    ensures
        has_key(entries, entries[i].key@),
        index_of(entries, entries[i].key@) == i,
        entries_map(entries)[entries[i].key@] == entries[i].account@,
{
    let key = entries[i].key@;
    let j = index_of(entries, key);
    assert(0 <= j < entries.len() && entries[j].key@ == key);
}

/// Appending an entry under a fresh address inserts it into the map.
proof fn lemma_push_inserts(entries: Seq<Entry>, entry: Entry)
    requires
        distinct_keys(entries),
        !has_key(entries, entry.key@),
    ensures
        distinct_keys(entries.push(entry)),
        entries_map(entries.push(entry)) == entries_map(entries).insert(
            entry.key@,
            entry.account@,
        ),
{
    let grown = entries.push(entry);
    let n = entries.len() as int;
    assert(grown[n] == entry);
    assert forall|i: int, j: int|
        0 <= i < grown.len() && 0 <= j < grown.len() && i != j implies (#[trigger] grown[i]).key@
        != (#[trigger] grown[j]).key@ by {
        if i < n && j < n {
            assert(grown[i] == entries[i] && grown[j] == entries[j]);
        } else if i < n {
            assert(grown[i] == entries[i]);
        } else {
            assert(grown[j] == entries[j]);
        }
    }
    let before = entries_map(entries);
    let after = entries_map(grown);
    assert forall|key: Seq<u8>| after.contains_key(key) <==> (key == entry.key@
        || before.contains_key(key)) by {
        if has_key(entries, key) {
            let i = index_of(entries, key);
            assert(grown[i] == entries[i]);
        }
        if has_key(grown, key) {
            let i = index_of(grown, key);
            if i < n {
                assert(grown[i] == entries[i]);
            }
        }
    }
    assert forall|key: Seq<u8>| after.contains_key(key) implies after[key] == before.insert(
        entry.key@,
        entry.account@,
    )[key] by {
        if key == entry.key@ {
            lemma_entry_is_mapped(grown, n);
        } else {
            let i = index_of(entries, key);
            assert(grown[i] == entries[i]);
            lemma_entry_is_mapped(grown, i);
        }
    }
    assert(after =~= before.insert(entry.key@, entry.account@));
}

/// Replacing the entry at `i` by one under the same address inserts the new
/// record into the map.
proof fn lemma_update_inserts(entries: Seq<Entry>, i: int, entry: Entry)
    requires
        distinct_keys(entries),
        0 <= i < entries.len(),
        entries[i].key@ == entry.key@,
    ensures
        distinct_keys(entries.update(i, entry)),
        entries_map(entries.update(i, entry)) == entries_map(entries).insert(
            entry.key@,
            entry.account@,
        ),
{
    let changed = entries.update(i, entry);
    assert forall|a: int, b: int|
        0 <= a < changed.len() && 0 <= b < changed.len() && a != b implies (
    #[trigger] changed[a]).key@ != (#[trigger] changed[b]).key@ by {
        assert(changed[a].key@ == entries[a].key@);
        assert(changed[b].key@ == entries[b].key@);
    }
    let before = entries_map(entries);
    let after = entries_map(changed);
    assert forall|key: Seq<u8>| after.contains_key(key) <==> (key == entry.key@
        || before.contains_key(key)) by {
        if has_key(entries, key) {
            let a = index_of(entries, key);
            assert(changed[a].key@ == entries[a].key@);
        }
        if has_key(changed, key) {
            let a = index_of(changed, key);
            assert(changed[a].key@ == entries[a].key@);
        }
        if key == entry.key@ {
            assert(changed[i].key@ == key);
        }
    }
    assert forall|key: Seq<u8>| after.contains_key(key) implies after[key] == before.insert(
        entry.key@,
        entry.account@,
    )[key] by {
        if key == entry.key@ {
            lemma_entry_is_mapped(changed, i);
        } else {
            let a = index_of(entries, key);
            assert(a != i);
            assert(changed[a] == entries[a]);
            lemma_entry_is_mapped(changed, a);
        }
    }
    assert(after =~= before.insert(entry.key@, entry.account@));
}

/// The place of the entry stored under `pubkey`, if there is one.
fn find_entry(entries: &Vec<Entry>, pubkey: &Pubkey) -> (found: Option<usize>)
    ensures
        found matches Some(i) ==> i < entries@.len() && entries@[i as int].key@ == pubkey@,
        found is None ==> !has_key(entries@, pubkey@),
{
    let mut i: usize = 0;
    while i < entries.len()
        invariant
            i <= entries@.len(),
            forall|j: int| 0 <= j < i ==> (#[trigger] entries@[j]).key@ != pubkey@,
        decreases entries@.len() - i,
    {
        if entries[i].key.same(pubkey) {
            return Some(i);
        }
        i += 1;
    }
    None
}

/// A store of account records, each under its own address.
///
/// Its view is the map from the addresses it holds to the records stored
/// under them.
pub struct AccountsState {
    entries: Vec<Entry>,
}

impl View for AccountsState {
    type V = Accounts;

    closed spec fn view(&self) -> Accounts {
        entries_map(self.entries@)
    }
}

impl AccountsState {
    #[verifier::type_invariant]
    spec fn no_address_twice(self) -> bool {
        distinct_keys(self.entries@)
    }

    /// An empty store.
    pub fn new() -> (state: AccountsState)
        ensures
            state@ == Map::<Seq<u8>, AccountView>::empty(),
    {
        let state = AccountsState { entries: Vec::new() };
        assert(state@ =~= Map::<Seq<u8>, AccountView>::empty());
        state
    }

    /// An empty store.
    pub fn default() -> (state: AccountsState)
        ensures
            state@ == Map::<Seq<u8>, AccountView>::empty(),
    {
        AccountsState::new()
    }

    /// Whether a record is stored under `pubkey`.
    pub fn contains(&self, pubkey: &Pubkey) -> (present: bool)
        ensures
            present == self@.contains_key(pubkey@),
    {
        let found = find_entry(&self.entries, pubkey);
        found.is_some()
    }

    /// Stores `account` under `pubkey`, in place of the record stored there
    /// before, if there was one.
    pub fn insert(&mut self, pubkey: Pubkey, account: Account)
        ensures
            final(self)@ == old(self)@.insert(pubkey@, account@),
    {
        proof {
            use_type_invariant(&*self);
        }
        let found = find_entry(&self.entries, &pubkey);
        let entry = Entry { key: pubkey, account };
        let mut entries: Vec<Entry> = Vec::new();
        core::mem::swap(&mut self.entries, &mut entries);
        match found {
            Some(i) => {
                proof {
                    lemma_update_inserts(entries@, i as int, entry);
                }
                entries.set(i, entry);
            },
            None => {
                proof {
                    lemma_push_inserts(entries@, entry);
                }
                entries.push(entry);
            },
        }
        self.entries = entries;
    }

    /// The descriptors of the accounts that `metas` asks for, one for each
    /// request and in the order of the requests. Each carries the address and
    /// the access flags of its request and a copy of every field of the
    /// stored record.
    ///
    /// Every requested address must be in the store.
    pub fn account_infos(&self, metas: Vec<AccountMeta>) -> (infos: Vec<AccountInfo>)
        requires
            all_present(self@, meta_views(metas@)),
        ensures
            info_views(infos@) == project(self@, meta_views(metas@)),
    {
        proof {
            use_type_invariant(self);
        }
        let mut infos: Vec<AccountInfo> = Vec::new();
        let mut i: usize = 0;
        while i < metas.len()
            invariant
                distinct_keys(self.entries@),
                all_present(self@, meta_views(metas@)),
                i <= metas@.len(),
                infos@.len() == i,
                forall|j: int|
                    0 <= j < i ==> (#[trigger] infos@[j])@ == project_one(self@, metas@[j]@),
            decreases metas@.len() - i,
        {
            let meta = &metas[i];
            assert(meta_views(metas@)[i as int].pubkey == meta.pubkey@);
            let at = match find_entry(&self.entries, &meta.pubkey) {
                Some(at) => at,
                None => unreached(),
            };
            proof {
                lemma_entry_is_mapped(self.entries@, at as int);
            }
            let account = &self.entries[at].account;
            infos.push(
                AccountInfo {
                    key: meta.pubkey,
                    is_signer: meta.is_signer,
                    is_writable: meta.is_writable,
                    lamports: account.lamports,
                    data: account.data.clone(),
                    owner: account.owner,
                    executable: account.executable,
                    rent_epoch: account.rent_epoch,
                },
            );
            i += 1;
        }
        assert(info_views(infos@) =~= project(self@, meta_views(metas@)));
        infos
    }

    /// Writes the descriptors back, first to last: the balance and the data
    /// of each replace those of the record stored under its address, and the
    /// rest of that record stays as it is.
    ///
    /// Every descriptor's address must be in the store.
    pub fn update(&mut self, infos: Vec<AccountInfo>)
        requires
            all_known(old(self)@, info_views(infos@)),
        ensures
            final(self)@ == write_back(old(self)@, info_views(infos@)),
    {
        proof {
            use_type_invariant(&*self);
        }
        let ghost start = self@;
        let ghost views = info_views(infos@);
        let mut entries: Vec<Entry> = Vec::new();
        core::mem::swap(&mut self.entries, &mut entries);
        let mut i: usize = 0;
        while i < infos.len()
            invariant
                distinct_keys(entries@),
                views == info_views(infos@),
                all_known(start, views),
                i <= infos@.len(),
                entries_map(entries@) == write_back(start, views.take(i as int)),
                entries_map(entries@).dom() == start.dom(),
            decreases infos@.len() - i,
        {
            let info = &infos[i];
            let ghost before = entries_map(entries@);
            proof {
                assert(views[i as int] == info@);
                assert(start.contains_key(views[i as int].key));
                assert(views.take(i + 1).drop_last() == views.take(i as int));
                assert(views.take(i + 1).last() == info@);
            }
            let at = match find_entry(&entries, &info.key) {
                Some(at) => at,
                None => unreached(),
            };
            proof {
                lemma_entry_is_mapped(entries@, at as int);
            }
            let account = &entries[at].account;
            if info.lamports != account.lamports || !(info.data == account.data) {
                let entry = Entry {
                    key: entries[at].key,
                    account: Account {
                        lamports: info.lamports,
                        data: info.data.clone(),
                        owner: account.owner,
                        executable: account.executable,
                        rent_epoch: account.rent_epoch,
                    },
                };
                proof {
                    lemma_update_inserts(entries@, at as int, entry);
                }
                entries.set(at, entry);
            } else {
                assert(info.data@ =~= account.data@);
                assert(write_back_one(before, info@) =~= before);
            }
            assert(entries_map(entries@) == write_back_one(before, info@));
            assert(entries_map(entries@).dom() =~= start.dom());
            i += 1;
        }
        assert(views.take(i as int) == views);
        self.entries = entries;
    }
}

} // verus!
