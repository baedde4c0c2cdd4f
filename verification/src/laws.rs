//! What holds of projecting accounts and writing them back, whatever the
//! store holds and whatever is asked of it.

use vstd::prelude::*;
use crate::account::{AccountInfoView, AccountMetaView};
use crate::builders::{mint_data, openbook_account, token_account_data};
use crate::model::{
    all_known, all_present, project, project_one, write_back, write_back_one, Accounts,
};
use crate::token::{MINT_LEN, TOKEN_ACCOUNT_LEN};

verus! {

/// Whether a descriptor in `infos` after place `i` has the address `key`.
pub open spec fn named_after(infos: Seq<AccountInfoView>, i: int, key: Seq<u8>) -> bool {
    exists|j: int| i < j < infos.len() && (#[trigger] infos[j]).key == key
}

/// Writing back keeps the set of stored addresses, and under each address the
/// owner, the executable flag and the rent epoch.
pub proof fn law_write_back_keeps_fixed_fields(accounts: Accounts, infos: Seq<AccountInfoView>)
    requires
        all_known(accounts, infos),
    ensures
        write_back(accounts, infos).dom() == accounts.dom(),
        forall|key: Seq<u8>| #[trigger]
            accounts.contains_key(key) ==> {
                let before = accounts[key];
                let after = write_back(accounts, infos)[key];
                &&& after.owner == before.owner
                &&& after.executable == before.executable
                &&& after.rent_epoch == before.rent_epoch
            },
    decreases infos.len(),
{
    if infos.len() > 0 {
        let rest = infos.drop_last();
        assert forall|i: int| 0 <= i < rest.len() implies accounts.contains_key(
            #[trigger] rest[i].key,
        ) by {
            assert(rest[i] == infos[i]);
        }
        law_write_back_keeps_fixed_fields(accounts, rest);
        let middle = write_back(accounts, rest);
        let last = infos.last();
        assert(accounts.contains_key(infos[infos.len() - 1].key));
        assert(middle.contains_key(last.key));
        assert(write_back_one(middle, last).dom() =~= middle.dom());
    }
}

/// After writing back, the record under the address of a descriptor holds
/// the balance and the data of the last descriptor with that address.
pub proof fn law_write_back_reflects_last(accounts: Accounts, infos: Seq<AccountInfoView>, i: int)
    requires
        all_known(accounts, infos),
        0 <= i < infos.len(),
        !named_after(infos, i, infos[i].key),
    ensures
        write_back(accounts, infos)[infos[i].key].lamports == infos[i].lamports,
        write_back(accounts, infos)[infos[i].key].data == infos[i].data,
    decreases infos.len(),
{
    let rest = infos.drop_last();
    let last = infos.last();
    if i < infos.len() - 1 {
        assert forall|j: int| 0 <= j < rest.len() implies accounts.contains_key(
            #[trigger] rest[j].key,
        ) by {
            assert(rest[j] == infos[j]);
        }
        assert(rest[i] == infos[i]);
        if named_after(rest, i, rest[i].key) {
            let j = choose|j: int| i < j < rest.len() && (#[trigger] rest[j]).key == rest[i].key;
            assert(infos[j] == rest[j]);
        }
        law_write_back_reflects_last(accounts, rest, i);
        assert(infos[infos.len() - 1].key != infos[i].key);
    }
}

/// Writing back leaves alone every record whose address no descriptor has.
pub proof fn law_write_back_leaves_others(
    accounts: Accounts,
    infos: Seq<AccountInfoView>,
    key: Seq<u8>,
)
    requires
        all_known(accounts, infos),
        accounts.contains_key(key),
        !named_after(infos, -1, key),
    ensures
        write_back(accounts, infos)[key] == accounts[key],
    decreases infos.len(),
{
    if infos.len() > 0 {
        let rest = infos.drop_last();
        assert forall|j: int| 0 <= j < rest.len() implies accounts.contains_key(
            #[trigger] rest[j].key,
        ) by {
            assert(rest[j] == infos[j]);
        }
        if named_after(rest, -1, key) {
            let j = choose|j: int| -1 < j < rest.len() && (#[trigger] rest[j]).key == key;
            assert(infos[j] == rest[j]);
        }
        law_write_back_leaves_others(accounts, rest, key);
        assert(infos[infos.len() - 1].key != key);
    }
}

/// Descriptors that are written back as they were handed out leave the store
/// as it was.
pub proof fn law_unchanged_round_trip(accounts: Accounts, metas: Seq<AccountMetaView>)
    requires
        all_present(accounts, metas),
    ensures
        write_back(accounts, project(accounts, metas)) == accounts,
    decreases metas.len(),
{
    let infos = project(accounts, metas);
    if metas.len() > 0 {
        let fewer = metas.drop_last();
        assert forall|i: int| 0 <= i < fewer.len() implies accounts.contains_key(
            #[trigger] fewer[i].pubkey,
        ) by {
            assert(fewer[i] == metas[i]);
        }
        assert(infos.drop_last() =~= project(accounts, fewer));
        law_unchanged_round_trip(accounts, fewer);
        let last = infos.last();
        assert(last == project_one(accounts, metas[metas.len() - 1]));
        assert(accounts.contains_key(metas[metas.len() - 1].pubkey));
        assert(write_back_one(accounts, last) =~= accounts);
    }
}

/// The descriptors come in the order of the requests: the one at each place
/// has the address and the access flags of the request at that place, and
/// the fields of the record stored under that address.
pub proof fn law_projection_keeps_order(accounts: Accounts, metas: Seq<AccountMetaView>, i: int)
    requires
        0 <= i < metas.len(),
    ensures
        project(accounts, metas).len() == metas.len(),
        project(accounts, metas)[i].key == metas[i].pubkey,
        project(accounts, metas)[i].is_signer == metas[i].is_signer,
        project(accounts, metas)[i].is_writable == metas[i].is_writable,
        project(accounts, metas)[i] == project_one(accounts, metas[i]),
{
}

/// A blank order-book account has eight bytes more than its payload, all of
/// them zero.
pub proof fn law_openbook_account_is_blank(payload: nat)
    ensures
        openbook_account(payload).data.len() == 8 + payload,
        forall|i: int| 0 <= i < 8 + payload ==> openbook_account(payload).data[i] == 0,
{
}

/// The data of a seeded token account has the length of a packed token
/// account, begins with the mint and the owner, and marks the account as
/// initialized.
pub proof fn law_token_account_fields(mint: Seq<u8>, owner: Seq<u8>)
    requires
        mint.len() == 32,
        owner.len() == 32,
    ensures
        token_account_data(mint, owner).len() == TOKEN_ACCOUNT_LEN,
        token_account_data(mint, owner).subrange(0, 32) == mint,
        token_account_data(mint, owner).subrange(32, 64) == owner,
        token_account_data(mint, owner)[108] == 1,
{
    let data = token_account_data(mint, owner);
    assert(data.subrange(0, 32) =~= mint);
    assert(data.subrange(32, 64) =~= owner);
}

/// The data of a seeded mint has the length of a packed mint and marks the
/// mint as initialized.
pub proof fn law_mint_fields()
    ensures
        mint_data().len() == MINT_LEN,
        mint_data()[45] == 1,
{
}

} // verus!
