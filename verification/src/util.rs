use vstd::prelude::*;

use crate::error::ContractError;
use crate::msg::{Coin, Denom, TransferMsg};
use crate::state::{
    count_eligible, find_account, find_nft, lemma_count_eligible_bounds, lemma_find_account_absent,
    lemma_find_account_at, lemma_find_nft_absent, lemma_find_nft_at, lemma_sum_staked_take_le,
    lemma_total_eligible_bounds, total_eligible, Config, NftInfo, State, UserInfo,
};

verus! {

/// Everything but the account ledger is the same in `pre` and `post`.
pub open spec fn same_globals(pre: State, post: State) -> bool {
    &&& post.config == pre.config
    &&& post.current_airdrop_time == pre.current_airdrop_time
    &&& post.start_airdrop == pre.start_airdrop
    &&& post.total_airdrop == pre.total_airdrop
    &&& post.total_staked == pre.total_staked
    &&& post.locktime_fee == pre.locktime_fee
}

/// Fails while the kill switch is engaged.
pub fn check_enabled(state: &State) -> (r: Result<(), ContractError>)
    ensures
        r == if state.config.enabled {
            Ok::<(), ContractError>(())
        } else {
            Err::<(), ContractError>(ContractError::Disabled {})
        },
{
    if !state.config.enabled {
        return Err(ContractError::Disabled {});
    }
    Ok(())
}

/// Fails while no airdrop epoch is active.
pub fn check_airdrop_start(state: &State) -> (r: Result<(), ContractError>)
    ensures
        r == if state.start_airdrop {
            Ok::<(), ContractError>(())
        } else {
            Err::<(), ContractError>(ContractError::NotStarted {})
        },
{
    if !state.start_airdrop {
        return Err(ContractError::NotStarted {});
    }
    Ok(())
}

/// Fails unless `address` is the configured owner.
pub fn check_owner(state: &State, address: &String) -> (r: Result<(), ContractError>)
    ensures
        r == if address@ == state.config.owner@ {
            Ok::<(), ContractError>(())
        } else {
            Err::<(), ContractError>(ContractError::Unauthorized {})
        },
{
    if !(*address == state.config.owner) {
        return Err(ContractError::Unauthorized {});
    }
    Ok(())
}

/// What `execute_update_owner` does: the owner hands the ledger to a new
/// owner; anyone else is turned away unchanged.
pub open spec fn update_owner_spec(
    pre: State,
    post: State,
    r: Result<Vec<TransferMsg>, ContractError>,
    address: String,
    owner: String,
) -> bool {
    if address@ == pre.config.owner@ {
        &&& r matches Ok(v) && v@.len() == 0
        &&& post == State { config: Config { owner: owner, ..pre.config }, ..pre }
    } else {
        &&& r == Err::<Vec<TransferMsg>, ContractError>(ContractError::Unauthorized {})
        &&& post == pre
    }
}

/// Hands the ledger to a new owner; only the current owner may do so.
pub fn execute_update_owner(state: &mut State, address: String, owner: String) -> (r: Result<
    Vec<TransferMsg>,
    ContractError,
>)
    ensures
        update_owner_spec(*old(state), *final(state), r, address, owner),
{
    check_owner(state, &address)?;
    state.config.owner = owner;
    Ok(Vec::new())
}

/// What `execute_update_fee_address` does: the owner points the early-exit
/// fee at a new recipient.
pub open spec fn update_fee_address_spec(
    pre: State,
    post: State,
    r: Result<Vec<TransferMsg>, ContractError>,
    address: String,
    fee_address: String,
) -> bool {
    if address@ == pre.config.owner@ {
        &&& r matches Ok(v) && v@.len() == 0
        &&& post == State { config: Config { fee_address: fee_address, ..pre.config }, ..pre }
    } else {
        &&& r == Err::<Vec<TransferMsg>, ContractError>(ContractError::Unauthorized {})
        &&& post == pre
    }
}

/// Points the early-exit fee at a new recipient; owner-gated.
pub fn execute_update_fee_address(state: &mut State, address: String, fee_address: String) -> (r:
    Result<Vec<TransferMsg>, ContractError>)
    ensures
        update_fee_address_spec(*old(state), *final(state), r, address, fee_address),
{
    check_owner(state, &address)?;
    state.config.fee_address = fee_address;
    Ok(Vec::new())
}

/// What `execute_update_enabled` does: the owner engages or releases the
/// kill switch.
pub open spec fn update_enabled_spec(
    pre: State,
    post: State,
    r: Result<Vec<TransferMsg>, ContractError>,
    address: String,
    enabled: bool,
) -> bool {
    if address@ == pre.config.owner@ {
        &&& r matches Ok(v) && v@.len() == 0
        &&& post == State { config: Config { enabled: enabled, ..pre.config }, ..pre }
    } else {
        &&& r == Err::<Vec<TransferMsg>, ContractError>(ContractError::Unauthorized {})
        &&& post == pre
    }
}

/// Engages or releases the kill switch; owner-gated.
pub fn execute_update_enabled(state: &mut State, address: String, enabled: bool) -> (r: Result<
    Vec<TransferMsg>,
    ContractError,
>)
    ensures
        update_enabled_spec(*old(state), *final(state), r, address, enabled),
{
    check_owner(state, &address)?;
    state.config.enabled = enabled;
    Ok(Vec::new())
}

/// What `execute_update_duration` does: the owner sets a new lock duration
/// for future deposits and renewals.
pub open spec fn update_duration_spec(
    pre: State,
    post: State,
    r: Result<Vec<TransferMsg>, ContractError>,
    address: String,
    duration: u64,
) -> bool {
    if address@ == pre.config.owner@ {
        &&& r matches Ok(v) && v@.len() == 0
        &&& post == State { config: Config { duration: duration, ..pre.config }, ..pre }
    } else {
        &&& r == Err::<Vec<TransferMsg>, ContractError>(ContractError::Unauthorized {})
        &&& post == pre
    }
}

/// Sets a new lock duration for future deposits and renewals; owner-gated.
pub fn execute_update_duration(state: &mut State, address: String, duration: u64) -> (r: Result<
    Vec<TransferMsg>,
    ContractError,
>)
    ensures
        update_duration_spec(*old(state), *final(state), r, address, duration),
{
    check_owner(state, &address)?;
    state.config.duration = duration;
    Ok(Vec::new())
}

/// What `execute_update_config` does: the owner replaces owner, fee
/// recipient, collection, duration and the early-exit fee in one step.
pub open spec fn update_config_spec(
    pre: State,
    post: State,
    r: Result<Vec<TransferMsg>, ContractError>,
    address: String,
    new_owner: String,
    new_fee_address: String,
    new_collection_address: String,
    new_duration: u64,
    new_locktime_fee: u128,
) -> bool {
    if address@ == pre.config.owner@ {
        &&& r matches Ok(v) && v@.len() == 0
        &&& post == State {
            config: Config {
                owner: new_owner,
                fee_address: new_fee_address,
                collection_address: new_collection_address,
                duration: new_duration,
                ..pre.config
            },
            locktime_fee: new_locktime_fee,
            ..pre
        }
    } else {
        &&& r == Err::<Vec<TransferMsg>, ContractError>(ContractError::Unauthorized {})
        &&& post == pre
    }
}

/// Replaces owner, fee recipient, collection, duration and the early-exit
/// fee in one step; owner-gated.
pub fn execute_update_config(
    state: &mut State,
    address: String,
    new_owner: String,
    new_fee_address: String,
    new_collection_address: String,
    new_duration: u64,
    new_locktime_fee: u128,
) -> (r: Result<Vec<TransferMsg>, ContractError>)
    ensures
        update_config_spec(
            *old(state),
            *final(state),
            r,
            address,
            new_owner,
            new_fee_address,
            new_collection_address,
            new_duration,
            new_locktime_fee,
        ),
{
    check_owner(state, &address)?;
    state.config.owner = new_owner;
    state.config.fee_address = new_fee_address;
    state.config.collection_address = new_collection_address;
    state.config.duration = new_duration;
    state.locktime_fee = new_locktime_fee;
    Ok(Vec::new())
}

/// Builds the outbound transfer of `amount` in `denom` to `receiver`: a
/// bank send for a native coin, a fungible-token transfer otherwise.
pub fn transfer_token_message(denom: Denom, amount: u128, receiver: String) -> (r: TransferMsg)
    ensures
        r == match denom {
            Denom::Native(native_str) => TransferMsg::Bank {
                denom: native_str,
                amount: amount,
                to_address: receiver,
            },
            Denom::Cw20(token_addr) => TransferMsg::Cw20Transfer {
                contract_addr: token_addr,
                amount: amount,
                recipient: receiver,
            },
        },
{
    match denom {
        Denom::Native(native_str) => TransferMsg::Bank {
            denom: native_str,
            amount,
            to_address: receiver,
        },
        Denom::Cw20(token_addr) => TransferMsg::Cw20Transfer {
            contract_addr: token_addr,
            amount,
            recipient: receiver,
        },
    }
}

/// The single attached payment of `denom`: the attached funds must be
/// exactly one coin, of that denomination, with a nonzero amount.
pub open spec fn spec_paid_amount(funds: Seq<Coin>, denom: Seq<char>) -> Option<u128> {
    if funds.len() == 1 && funds[0].amount > 0 && funds[0].denom@ == denom {
        Some(funds[0].amount)
    } else {
        None
    }
}

/// Reads the single attached payment of `denom` out of `funds`, if the
/// attachment is well-formed.
pub fn single_payment(funds: &Vec<Coin>, denom: &String) -> (r: Option<u128>)
    ensures
        r == spec_paid_amount(funds@, denom@),
{
    if funds.len() == 1 && funds[0].amount > 0 && funds[0].denom == *denom {
        Some(funds[0].amount)
    } else {
        None
    }
}

/// The position of the first record in `nfts` whose identifier is `id`.
pub fn find_nft_idx(nfts: &Vec<NftInfo>, id: &String) -> (r: Option<usize>)
    ensures
        match r {
            Some(i) => i < nfts@.len() && nfts@[i as int].nft_id@ == id@ && find_nft(nfts@, id@)
                == i && forall|j: int| 0 <= j < i ==> nfts@[j].nft_id@ != id@,
            None => find_nft(nfts@, id@) == -1 && forall|j: int|
                0 <= j < nfts@.len() ==> nfts@[j].nft_id@ != id@,
        },
{
    let mut k: usize = 0;
    while k < nfts.len()
        invariant
            k <= nfts@.len(),
            forall|j: int| 0 <= j < k ==> nfts@[j].nft_id@ != id@,
        decreases nfts@.len() - k,
    {
        if nfts[k].nft_id == *id {
            proof {
                lemma_find_nft_at(nfts@, id@, k as int);
            }
            return Some(k);
        }
        k = k + 1;
    }
    proof {
        lemma_find_nft_absent(nfts@, id@);
    }
    None
}

/// The position of the first ledger entry whose address is `addr`.
pub fn find_account_idx(accounts: &Vec<UserInfo>, addr: &String) -> (r: Option<usize>)
    ensures
        match r {
            Some(i) => i < accounts@.len() && accounts@[i as int].address@ == addr@
                && find_account(accounts@, addr@) == i && forall|j: int|
                0 <= j < i ==> accounts@[j].address@ != addr@,
            None => find_account(accounts@, addr@) == -1 && forall|j: int|
                0 <= j < accounts@.len() ==> accounts@[j].address@ != addr@,
        },
{
    let mut k: usize = 0;
    while k < accounts.len()
        invariant
            k <= accounts@.len(),
            forall|j: int| 0 <= j < k ==> accounts@[j].address@ != addr@,
        decreases accounts@.len() - k,
    {
        if accounts[k].address == *addr {
            proof {
                lemma_find_account_at(accounts@, addr@, k as int);
            }
            return Some(k);
        }
        k = k + 1;
    }
    proof {
        lemma_find_account_absent(accounts@, addr@);
    }
    None
}

/// Counts the records, over the whole ledger, whose lock has not yet
/// expired and whose collection is `collection_address`.
pub fn get_in_locktime_nft_count(state: &State, now: u64, collection_address: &String) -> (r: u128)
    requires
        state.wf(),
    ensures
        r as int == total_eligible(state.accounts@, now, collection_address@),
{
    let s = state.accounts.len();
    let mut count: u128 = 0;
    let mut a: usize = 0;
    while a < s
        invariant
            state.wf(),
            s == state.accounts@.len(),
            a <= s,
            count as int == total_eligible(state.accounts@.take(a as int), now, collection_address@),
        decreases s - a,
    {
        let nfts = &state.accounts[a].staked_nfts;
        let n = nfts.len();
        let mut i: usize = 0;
        while i < n
            invariant
                state.wf(),
                s == state.accounts@.len(),
                a < s,
                n == state.accounts@[a as int].staked_nfts@.len(),
                nfts == &state.accounts[a as int].staked_nfts,
                i <= n,
                count as int == total_eligible(state.accounts@.take(a as int), now, collection_address@)
                    + count_eligible(
                    state.accounts@[a as int].staked_nfts@.take(i as int),
                    now,
                    collection_address@,
                ),
            decreases n - i,
        {
            let eligible = nfts[i].lock_time > now && nfts[i].collection_address
                == *collection_address;
            proof {
                let nv = state.accounts@[a as int].staked_nfts@;
                assert(nv.take(i + 1).drop_last() =~= nv.take(i as int));
                assert(nv.take(i + 1).last() == nv[i as int]);
                lemma_total_eligible_bounds(
                    state.accounts@.take(a as int),
                    now,
                    collection_address@,
                );
                lemma_count_eligible_bounds(nv.take(i as int), now, collection_address@);
                lemma_sum_staked_take_le(state.accounts@, a as int);
                crate::state::lemma_sum_staked_nonneg(state.accounts@.take(a as int));
            }
            if eligible {
                proof {
                    // count stays below the total record count, which fits in u64
                    assert(state.accounts@.take(a + 1).drop_last() =~= state.accounts@.take(
                        a as int,
                    ));
                    assert(state.accounts@.take(a + 1).last() == state.accounts@[a as int]);
                    lemma_sum_staked_take_le(state.accounts@, a + 1);
                    lemma_count_eligible_bounds(
                        state.accounts@[a as int].staked_nfts@,
                        now,
                        collection_address@,
                    );
                }
                count = count + 1;
            }
            i = i + 1;
        }
        proof {
            let nv = state.accounts@[a as int].staked_nfts@;
            assert(nv.take(n as int) =~= nv);
            assert(state.accounts@.take(a + 1).drop_last() =~= state.accounts@.take(a as int));
            assert(state.accounts@.take(a + 1).last() == state.accounts@[a as int]);
        }
        a = a + 1;
    }
    proof {
        assert(state.accounts@.take(s as int) =~= state.accounts@);
    }
    count
}

/// The increment in `set_airdrop` must not overflow the record's accrued
/// reward.
pub open spec fn set_airdrop_fits(s: State, address: Seq<char>, nft_id: Seq<char>, amount: u128) -> bool {
    {
        let a = find_account(s.accounts@, address);
        a >= 0 ==> {
            let i = find_nft(s.accounts@[a].staked_nfts@, nft_id);
            i >= 0 ==> s.accounts@[a].staked_nfts@[i].airdrop + amount <= u128::MAX
        }
    }
}

/// What `set_airdrop` does: the first record of `address` matching
/// `nft_id` has `amount` added to its accrued reward; a missing account or
/// record is an error and leaves the state untouched.
pub open spec fn set_airdrop_spec(
    pre: State,
    post: State,
    r: Result<(), ContractError>,
    address: Seq<char>,
    nft_id: Seq<char>,
    amount: u128,
) -> bool {
    let a = find_account(pre.accounts@, address);
    if a < 0 {
        post == pre && r == Err::<(), ContractError>(ContractError::NoStakedNft {})
    } else {
        let i = find_nft(pre.accounts@[a].staked_nfts@, nft_id);
        if i < 0 {
            post == pre && r == Err::<(), ContractError>(ContractError::NoStakedNft {})
        } else {
            let n0 = pre.accounts@[a].staked_nfts@[i];
            &&& r == Ok::<(), ContractError>(())
            &&& same_globals(pre, post)
            &&& post.accounts@.len() == pre.accounts@.len()
            &&& forall|x: int|
                0 <= x < pre.accounts@.len() && x != a ==> post.accounts@[x]
                    == pre.accounts@[x]
            &&& post.accounts@[a].address == pre.accounts@[a].address
            &&& post.accounts@[a].total_earnd == pre.accounts@[a].total_earnd
            &&& post.accounts@[a].staked_nfts@ == pre.accounts@[a].staked_nfts@.update(
                i,
                NftInfo { airdrop: (n0.airdrop + amount) as u128, ..n0 },
            )
        }
    }
}

/// Adds `airdrop` to the accrued reward of the first record of `address`
/// matching `nft_id`.
pub fn set_airdrop(state: &mut State, address: String, nft_id: String, airdrop: u128) -> (r: Result<
    (),
    ContractError,
>)
    requires
        old(state).wf(),
        set_airdrop_fits(*old(state), address@, nft_id@, airdrop),
    ensures
        set_airdrop_spec(*old(state), *final(state), r, address@, nft_id@, airdrop),
        final(state).wf(),
{
    let a = match find_account_idx(&state.accounts, &address) {
        Some(a) => a,
        None => {
            return Err(ContractError::NoStakedNft {});
        },
    };
    let i = match find_nft_idx(&state.accounts[a].staked_nfts, &nft_id) {
        Some(i) => i,
        None => {
            return Err(ContractError::NoStakedNft {});
        },
    };
    let ghost pre = *state;
    let cur = state.accounts[a].staked_nfts[i].airdrop;
    state.accounts[a].staked_nfts[i].airdrop = cur + airdrop;
    proof {
        let av = pre.accounts@;
        let nv = pre.accounts@[a as int].staked_nfts@;
        let n0 = nv[i as int];
        assert(state.accounts@[a as int].staked_nfts@ =~= nv.update(
            i as int,
            NftInfo { airdrop: (n0.airdrop + airdrop) as u128, ..n0 },
        ));
        assert(state.accounts@ =~= av.update(a as int, state.accounts@[a as int]));
        crate::state::lemma_sum_staked_update(av, a as int, state.accounts@[a as int]);
        assert forall|x: int|
            0 <= x < state.accounts@.len() implies crate::state::nfts_unique(
            #[trigger] state.accounts@[x].staked_nfts@,
        ) by {
            if x == a as int {
                let upd = state.accounts@[x].staked_nfts@;
                assert(forall|j: int|
                    0 <= j < upd.len() ==> upd[j].nft_id@ == nv[j].nft_id@
                        && upd[j].collection_address@ == nv[j].collection_address@);
            }
        }
    }
    Ok(())
}

} // verus!
