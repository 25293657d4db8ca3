use vstd::prelude::*;

use crate::error::ContractError;
use crate::msg::{
    Coin, ConfigResponse, Denom, ExecuteMsg, InstantiateMsg, NftReceiveMsg, QueryAnswer, QueryMsg,
    StakedNftResponse, StakedNftsResponse, TotalEarnedResponse, TotalLockedResponse, TransferMsg,
};
use crate::state::{
    find_account, find_nft, is_eligible, total_eligible, Config, NftInfo, State, UserInfo,
};
use crate::util::{
    check_airdrop_start, check_enabled, check_owner, find_account_idx, find_nft_idx,
    get_in_locktime_nft_count, same_globals, single_payment, spec_paid_amount,
    transfer_token_message, update_config_spec, update_duration_spec, update_enabled_spec,
    update_fee_address_spec, update_owner_spec,
};

verus! {

/// The early-exit fee a fresh ledger starts with.
pub const DEFAULT_LOCKTIME_FEE: u128 = 1000000000000000000;

/// `m` sends `amount` of the native coin `denom` to `to`.
pub open spec fn is_bank_transfer(m: TransferMsg, denom: Seq<char>, amount: u128, to: Seq<char>) -> bool {
    m matches TransferMsg::Bank { denom: d, amount: a, to_address: t } && d@ == denom && a
        == amount && t@ == to
}

/// `m` asks collection `contract` to hand item `token_id` to `recipient`.
pub open spec fn is_nft_transfer(
    m: TransferMsg,
    contract: Seq<char>,
    token_id: Seq<char>,
    recipient: Seq<char>,
) -> bool {
    m matches TransferMsg::NftTransfer { contract_addr: c, token_id: t, recipient: rc } && c@
        == contract && t@ == token_id && rc@ == recipient
}

/// Sets up a fresh ledger: the caller becomes the owner, the system starts
/// enabled, no airdrop epoch is active, and all counters are zero.
pub fn instantiate(msg: InstantiateMsg, sender: String, now: u64) -> (s: State)
    ensures
        s.config.owner == sender,
        s.config.fee_address == msg.fee_address,
        s.config.collection_address == msg.collection_address,
        s.config.native_token == msg.native_token,
        s.config.duration == msg.duration,
        s.config.enabled,
        s.current_airdrop_time == now,
        !s.start_airdrop,
        s.total_airdrop == 0,
        s.total_staked == 0,
        s.locktime_fee == DEFAULT_LOCKTIME_FEE,
        s.accounts@.len() == 0,
        s.wf(),
{
    let InstantiateMsg { owner: _, fee_address, collection_address, native_token, duration } = msg;
    State {
        config: Config {
            owner: sender,
            fee_address,
            native_token,
            enabled: true,
            collection_address,
            duration,
        },
        current_airdrop_time: now,
        start_airdrop: false,
        total_airdrop: 0,
        total_staked: 0,
        locktime_fee: DEFAULT_LOCKTIME_FEE,
        accounts: Vec::new(),
    }
}

/// What `execute_airdrop_restart` does: the owner opens a new airdrop
/// epoch, stamped with the current time; no record is touched.
pub open spec fn airdrop_restart_spec(
    pre: State,
    post: State,
    r: Result<Vec<TransferMsg>, ContractError>,
    now: u64,
    sender: Seq<char>,
) -> bool {
    if sender == pre.config.owner@ {
        &&& r matches Ok(v) && v@.len() == 0
        &&& post == State { current_airdrop_time: now, start_airdrop: true, ..pre }
    } else {
        &&& r == Err::<Vec<TransferMsg>, ContractError>(ContractError::Unauthorized {})
        &&& post == pre
    }
}

/// Opens a new airdrop epoch at the current time; owner-gated.
pub fn execute_airdrop_restart(state: &mut State, now: u64, sender: String) -> (r: Result<
    Vec<TransferMsg>,
    ContractError,
>)
    ensures
        airdrop_restart_spec(*old(state), *final(state), r, now, sender@),
        old(state).wf() ==> final(state).wf(),
{
    check_owner(state, &sender)?;
    state.current_airdrop_time = now;
    state.start_airdrop = true;
    Ok(Vec::new())
}

/// What `execute_withdraw` does: the owner pulls `amount` of the reward
/// token out of the contract, if the contract's balance covers it.  The
/// ledger itself is untouched.
pub open spec fn withdraw_spec(
    pre: State,
    r: Result<Vec<TransferMsg>, ContractError>,
    sender: Seq<char>,
    contract_balance: u128,
    amount: u128,
) -> bool {
    if sender != pre.config.owner@ {
        r == Err::<Vec<TransferMsg>, ContractError>(ContractError::Unauthorized {})
    } else if contract_balance < amount {
        r == Err::<Vec<TransferMsg>, ContractError>(ContractError::InsufficientCw20 {})
    } else {
        r matches Ok(v) && v@.len() == 1 && is_bank_transfer(
            v@[0],
            pre.config.native_token@,
            amount,
            sender,
        )
    }
}

/// Sends `amount` of the reward token to the owner; owner-gated, and the
/// contract's queried balance must cover the amount.
pub fn execute_withdraw(state: &State, sender: String, contract_balance: u128, amount: u128) -> (r:
    Result<Vec<TransferMsg>, ContractError>)
    ensures
        withdraw_spec(*state, r, sender@, contract_balance, amount),
{
    check_owner(state, &sender)?;
    if contract_balance < amount {
        return Err(ContractError::InsufficientCw20 {});
    }
    let msg = transfer_token_message(
        Denom::Native(state.config.native_token.clone()),
        amount,
        sender,
    );
    let mut msgs: Vec<TransferMsg> = Vec::new();
    msgs.push(msg);
    Ok(msgs)
}

/// The lock-renewal in `execute_restake` must not overflow the expiry
/// timestamp.
pub open spec fn restake_fits(pre: State, now: u64, sender: Seq<char>, nft_id: Seq<char>) -> bool {
    let a = find_account(pre.accounts@, sender);
    (pre.config.enabled && pre.start_airdrop && a >= 0) ==> {
        let i = find_nft(pre.accounts@[a].staked_nfts@, nft_id);
        (i >= 0 && pre.accounts@[a].staked_nfts@[i].collection_address@
            == pre.config.collection_address@ && pre.accounts@[a].staked_nfts@[i].lock_time <= now)
            ==> now + pre.config.duration <= u64::MAX
    }
}

/// What `execute_restake` does: an expired record of the configured
/// collection is locked again until `now` plus the configured duration;
/// every gate failure leaves the state untouched and names its error.
pub open spec fn restake_spec(
    pre: State,
    post: State,
    r: Result<Vec<TransferMsg>, ContractError>,
    now: u64,
    sender: Seq<char>,
    nft_id: Seq<char>,
) -> bool {
    if !pre.config.enabled {
        post == pre && r == Err::<Vec<TransferMsg>, ContractError>(ContractError::Disabled {})
    } else if !pre.start_airdrop {
        post == pre && r == Err::<Vec<TransferMsg>, ContractError>(ContractError::NotStarted {})
    } else {
        let a = find_account(pre.accounts@, sender);
        if a < 0 {
            post == pre && r == Err::<Vec<TransferMsg>, ContractError>(
                ContractError::NoStakedNft {},
            )
        } else {
            let i = find_nft(pre.accounts@[a].staked_nfts@, nft_id);
            if i < 0 {
                post == pre && r == Err::<Vec<TransferMsg>, ContractError>(
                    ContractError::NoStakedNft {},
                )
            } else {
                let n0 = pre.accounts@[a].staked_nfts@[i];
                if n0.collection_address@ != pre.config.collection_address@ {
                    post == pre && r == Err::<Vec<TransferMsg>, ContractError>(
                        ContractError::InvalidCw721Msg {},
                    )
                } else if n0.lock_time > now {
                    post == pre && r == Err::<Vec<TransferMsg>, ContractError>(
                        ContractError::Locktime {},
                    )
                } else {
                    &&& r matches Ok(v) && v@.len() == 0
                    &&& same_globals(pre, post)
                    &&& post.accounts@.len() == pre.accounts@.len()
                    &&& forall|x: int|
                        0 <= x < pre.accounts@.len() && x != a ==> post.accounts@[x]
                            == pre.accounts@[x]
                    &&& post.accounts@[a].address == pre.accounts@[a].address
                    &&& post.accounts@[a].total_earnd == pre.accounts@[a].total_earnd
                    &&& post.accounts@[a].staked_nfts@ == pre.accounts@[a].staked_nfts@.update(
                        i,
                        NftInfo { lock_time: (now + pre.config.duration) as u64, ..n0 },
                    )
                }
            }
        }
    }
}

/// Locks an expired record of the configured collection again, for the
/// configured duration from now.  Renewing a record whose lock is still
/// running is refused.
pub fn execute_restake(state: &mut State, now: u64, sender: String, restake_nft_id: String) -> (r:
    Result<Vec<TransferMsg>, ContractError>)
    requires
        old(state).wf(),
        restake_fits(*old(state), now, sender@, restake_nft_id@),
    ensures
        restake_spec(*old(state), *final(state), r, now, sender@, restake_nft_id@),
        final(state).wf(),
{
    check_enabled(state)?;
    check_airdrop_start(state)?;
    let a = match find_account_idx(&state.accounts, &sender) {
        Some(a) => a,
        None => {
            return Err(ContractError::NoStakedNft {});
        },
    };
    let i = match find_nft_idx(&state.accounts[a].staked_nfts, &restake_nft_id) {
        Some(i) => i,
        None => {
            return Err(ContractError::NoStakedNft {});
        },
    };
    if !(state.accounts[a].staked_nfts[i].collection_address == state.config.collection_address) {
        return Err(ContractError::InvalidCw721Msg {});
    }
    if state.accounts[a].staked_nfts[i].lock_time > now {
        return Err(ContractError::Locktime {});
    }
    let ghost pre = *state;
    state.accounts[a].staked_nfts[i].lock_time = now + state.config.duration;
    proof {
        let av = pre.accounts@;
        let nv = pre.accounts@[a as int].staked_nfts@;
        let n0 = nv[i as int];
        assert(state.accounts@[a as int].staked_nfts@ =~= nv.update(
            i as int,
            NftInfo { lock_time: (now + pre.config.duration) as u64, ..n0 },
        ));
        assert(state.accounts@ =~= av.update(a as int, state.accounts@[a as int]));
        crate::state::lemma_sum_staked_update(av, a as int, state.accounts@[a as int]);
        assert forall|x: int|
            0 <= x < state.accounts@.len() implies crate::state::nfts_unique(
            #[trigger] state.accounts@[x].staked_nfts@,
        ) by {
            if x == a as int {
                let upd = state.accounts@[x].staked_nfts@;
                assert(forall|j: int|
                    0 <= j < upd.len() ==> upd[j].nft_id@ == nv[j].nft_id@
                        && upd[j].collection_address@ == nv[j].collection_address@);
            }
        }
    }
    Ok(Vec::new())
}

/// Whether `nfts` already holds a record for item `id` of `collection`.
pub fn has_record(nfts: &Vec<NftInfo>, id: &String, collection: &String) -> (r: bool)
    ensures
        r == exists|j: int|
            0 <= j < nfts@.len() && nfts@[j].nft_id@ == id@ && nfts@[j].collection_address@
                == collection@,
{
    let mut k: usize = 0;
    while k < nfts.len()
        invariant
            k <= nfts@.len(),
            forall|j: int|
                0 <= j < k ==> !(nfts@[j].nft_id@ == id@ && nfts@[j].collection_address@
                    == collection@),
        decreases nfts@.len() - k,
    {
        if nfts[k].nft_id == *id && nfts[k].collection_address == *collection {
            assert(nfts@[k as int].nft_id@ == id@ && nfts@[k as int].collection_address@
                == collection@);
            return true;
        }
        k = k + 1;
    }
    false
}

/// The account `addr` already holds a record for `token_id` of the
/// configured collection.
pub open spec fn stake_duplicate(pre: State, addr: Seq<char>, token_id: Seq<char>) -> bool {
    let a = find_account(pre.accounts@, addr);
    a >= 0 && exists|j: int|
        0 <= j < pre.accounts@[a].staked_nfts@.len() && pre.accounts@[a].staked_nfts@[j].nft_id@
            == token_id && pre.accounts@[a].staked_nfts@[j].collection_address@
            == pre.config.collection_address@
}

/// All of `execute_receive_nft`'s gates pass: the system is enabled, an
/// airdrop epoch is active, the notification came from the configured
/// collection, the attached message agrees with the transfer it announces,
/// and the item is not already staked by that account.
pub open spec fn stake_allowed(
    pre: State,
    info_sender: Seq<char>,
    wrapper_sender: Seq<char>,
    wrapper_token_id: Seq<char>,
    msg_sender: Seq<char>,
    msg_token_id: Seq<char>,
) -> bool {
    &&& pre.config.enabled
    &&& pre.start_airdrop
    &&& info_sender == pre.config.collection_address@
    &&& msg_sender == wrapper_sender
    &&& msg_token_id == wrapper_token_id
    &&& !stake_duplicate(pre, wrapper_sender, msg_token_id)
}

/// A deposit must not overflow the new expiry timestamp nor the staked
/// counter.
pub open spec fn stake_fits(
    pre: State,
    now: u64,
    info_sender: Seq<char>,
    wrapper_sender: Seq<char>,
    wrapper_token_id: Seq<char>,
    msg_sender: Seq<char>,
    msg_token_id: Seq<char>,
) -> bool {
    stake_allowed(pre, info_sender, wrapper_sender, wrapper_token_id, msg_sender, msg_token_id)
        ==> (pre.config.duration + now <= u64::MAX && pre.total_staked < u64::MAX)
}

/// A freshly deposited record: the item itself, a lock until `now` plus
/// the configured duration, no accrued reward, the configured collection.
pub open spec fn new_record_ok(n: NftInfo, token_id: Seq<char>, now: u64, cfg: Config) -> bool {
    &&& n.nft_id@ == token_id
    &&& n.lock_time == cfg.duration + now
    &&& n.airdrop == 0
    &&& n.collection_address@ == cfg.collection_address@
}

/// What `execute_receive_nft` does: a valid deposit notification appends a
/// fresh record to the sender's entry (creating the entry on a first
/// deposit) and counts one more staked item; every gate failure leaves the
/// state untouched and names its error.
pub open spec fn stake_spec(
    pre: State,
    post: State,
    r: Result<Vec<TransferMsg>, ContractError>,
    now: u64,
    info_sender: Seq<char>,
    wrapper_sender: Seq<char>,
    wrapper_token_id: Seq<char>,
    msg_sender: Seq<char>,
    msg_token_id: Seq<char>,
) -> bool {
    if !pre.config.enabled {
        post == pre && r == Err::<Vec<TransferMsg>, ContractError>(ContractError::Disabled {})
    } else if !pre.start_airdrop {
        post == pre && r == Err::<Vec<TransferMsg>, ContractError>(ContractError::NotStarted {})
    } else if info_sender != pre.config.collection_address@ {
        post == pre && r == Err::<Vec<TransferMsg>, ContractError>(
            ContractError::InvalidCw721Token {},
        )
    } else if msg_sender != wrapper_sender || msg_token_id != wrapper_token_id {
        post == pre && r == Err::<Vec<TransferMsg>, ContractError>(
            ContractError::InvalidCw721Msg {},
        )
    } else if stake_duplicate(pre, wrapper_sender, msg_token_id) {
        post == pre && r == Err::<Vec<TransferMsg>, ContractError>(
            ContractError::InvalidCw721Msg {},
        )
    } else {
        let a = find_account(pre.accounts@, wrapper_sender);
        &&& r matches Ok(v) && v@.len() == 0
        &&& post.config == pre.config
        &&& post.current_airdrop_time == pre.current_airdrop_time
        &&& post.start_airdrop == pre.start_airdrop
        &&& post.total_airdrop == pre.total_airdrop
        &&& post.locktime_fee == pre.locktime_fee
        &&& post.total_staked == pre.total_staked + 1
        &&& if a >= 0 {
            &&& post.accounts@.len() == pre.accounts@.len()
            &&& forall|x: int|
                0 <= x < pre.accounts@.len() && x != a ==> post.accounts@[x]
                    == pre.accounts@[x]
            &&& post.accounts@[a].address == pre.accounts@[a].address
            &&& post.accounts@[a].total_earnd == pre.accounts@[a].total_earnd
            &&& post.accounts@[a].staked_nfts@.len() == pre.accounts@[a].staked_nfts@.len() + 1
            &&& post.accounts@[a].staked_nfts@.drop_last() == pre.accounts@[a].staked_nfts@
            &&& new_record_ok(post.accounts@[a].staked_nfts@.last(), msg_token_id, now, pre.config)
        } else {
            &&& post.accounts@.len() == pre.accounts@.len() + 1
            &&& post.accounts@.drop_last() == pre.accounts@
            &&& post.accounts@.last().address@ == wrapper_sender
            &&& post.accounts@.last().total_earnd == 0
            &&& post.accounts@.last().staked_nfts@.len() == 1
            &&& new_record_ok(post.accounts@.last().staked_nfts@[0], msg_token_id, now, pre.config)
        }
    }
}

/// Accepts the notification that an item of the configured collection was
/// transferred into custody, and stakes it for the announced sender.
///
/// The notification's own claim of sender and item must agree with the
/// transfer it rides on, and an item an account already has staked is
/// refused, which keeps each account's records unique.
pub fn execute_receive_nft(
    state: &mut State,
    now: u64,
    info_sender: String,
    wrapper_sender: String,
    wrapper_token_id: String,
    msg: NftReceiveMsg,
) -> (r: Result<Vec<TransferMsg>, ContractError>)
    requires
        old(state).wf(),
        msg matches NftReceiveMsg::Stake { sender: ms, token_id: mt } ==> stake_fits(
            *old(state),
            now,
            info_sender@,
            wrapper_sender@,
            wrapper_token_id@,
            ms@,
            mt@,
        ),
    ensures
        final(state).wf(),
        msg matches NftReceiveMsg::Stake { sender: ms, token_id: mt } ==> stake_spec(
            *old(state),
            *final(state),
            r,
            now,
            info_sender@,
            wrapper_sender@,
            wrapper_token_id@,
            ms@,
            mt@,
        ),
{
    check_enabled(state)?;
    check_airdrop_start(state)?;
    if !(info_sender == state.config.collection_address) {
        return Err(ContractError::InvalidCw721Token {});
    }
    let (msg_sender, msg_token_id) = match msg {
        NftReceiveMsg::Stake { sender, token_id } => (sender, token_id),
    };
    if !(msg_sender == wrapper_sender) || !(msg_token_id == wrapper_token_id) {
        return Err(ContractError::InvalidCw721Msg {});
    }
    let ghost pre = *state;
    match find_account_idx(&state.accounts, &wrapper_sender) {
        Some(a) => {
            if has_record(
                &state.accounts[a].staked_nfts,
                &msg_token_id,
                &state.config.collection_address,
            ) {
                return Err(ContractError::InvalidCw721Msg {});
            }
            let record = NftInfo {
                nft_id: msg_token_id,
                lock_time: state.config.duration + now,
                airdrop: 0,
                collection_address: state.config.collection_address.clone(),
            };
            state.accounts[a].staked_nfts.push(record);
            state.total_staked = state.total_staked + 1;
            proof {
                let av = pre.accounts@;
                let nv = pre.accounts@[a as int].staked_nfts@;
                assert(state.accounts@[a as int].staked_nfts@.drop_last() =~= nv);
                assert(state.accounts@ =~= av.update(a as int, state.accounts@[a as int]));
                crate::state::lemma_sum_staked_update(av, a as int, state.accounts@[a as int]);
                assert forall|x: int|
                    0 <= x < state.accounts@.len() implies crate::state::nfts_unique(
                    #[trigger] state.accounts@[x].staked_nfts@,
                ) by {
                    if x == a as int {
                        let upd = state.accounts@[x].staked_nfts@;
                        assert(forall|j: int| 0 <= j < nv.len() ==> upd[j] == nv[j]);
                        assert(forall|j: int|
                            0 <= j < nv.len() ==> !(nv[j].nft_id@ == msg_token_id@
                                && nv[j].collection_address@
                                == pre.config.collection_address@));
                    }
                }
            }
            Ok(Vec::new())
        },
        None => {
            let record = NftInfo {
                nft_id: msg_token_id,
                lock_time: state.config.duration + now,
                airdrop: 0,
                collection_address: state.config.collection_address.clone(),
            };
            let mut fresh_nfts: Vec<NftInfo> = Vec::new();
            fresh_nfts.push(record);
            let entry = UserInfo {
                address: wrapper_sender,
                total_earnd: 0,
                staked_nfts: fresh_nfts,
            };
            state.accounts.push(entry);
            state.total_staked = state.total_staked + 1;
            proof {
                let av = pre.accounts@;
                assert(state.accounts@.drop_last() =~= av);
                crate::state::lemma_sum_staked_push(av, state.accounts@.last());
            }
            Ok(Vec::new())
        },
    }
}

/// The payout in `execute_claim` must not overflow the account's
/// lifetime-earned total.
pub open spec fn claim_fits(pre: State, sender: Seq<char>, nft_id: Seq<char>) -> bool {
    let a = find_account(pre.accounts@, sender);
    (pre.config.enabled && a >= 0) ==> {
        let i = find_nft(pre.accounts@[a].staked_nfts@, nft_id);
        i >= 0 ==> pre.accounts@[a].total_earnd + pre.accounts@[a].staked_nfts@[i].airdrop
            <= u128::MAX
    }
}

/// What `execute_claim` does: the record's whole accrued reward moves into
/// the account's lifetime-earned total, the record is reset to zero, and
/// the same amount is sent to the account; a zero-reward record and an
/// insufficient contract balance are distinct errors, and every gate
/// failure leaves the state untouched.
pub open spec fn claim_spec(
    pre: State,
    post: State,
    r: Result<Vec<TransferMsg>, ContractError>,
    sender: Seq<char>,
    contract_balance: u128,
    nft_id: Seq<char>,
) -> bool {
    if !pre.config.enabled {
        post == pre && r == Err::<Vec<TransferMsg>, ContractError>(ContractError::Disabled {})
    } else {
        let a = find_account(pre.accounts@, sender);
        if a < 0 {
            post == pre && r == Err::<Vec<TransferMsg>, ContractError>(
                ContractError::NoStakedNft {},
            )
        } else {
            let i = find_nft(pre.accounts@[a].staked_nfts@, nft_id);
            if i < 0 {
                post == pre && r == Err::<Vec<TransferMsg>, ContractError>(
                    ContractError::NoStakedNft {},
                )
            } else {
                let n0 = pre.accounts@[a].staked_nfts@[i];
                if n0.airdrop == 0 {
                    post == pre && r == Err::<Vec<TransferMsg>, ContractError>(
                        ContractError::NoReward {},
                    )
                } else if contract_balance < n0.airdrop {
                    post == pre && r == Err::<Vec<TransferMsg>, ContractError>(
                        ContractError::InsufficientCw20 {},
                    )
                } else {
                    &&& r matches Ok(v) && v@.len() == 1 && is_bank_transfer(
                        v@[0],
                        pre.config.native_token@,
                        n0.airdrop,
                        sender,
                    )
                    &&& same_globals(pre, post)
                    &&& post.accounts@.len() == pre.accounts@.len()
                    &&& forall|x: int|
                        0 <= x < pre.accounts@.len() && x != a ==> post.accounts@[x]
                            == pre.accounts@[x]
                    &&& post.accounts@[a].address == pre.accounts@[a].address
                    &&& post.accounts@[a].total_earnd == pre.accounts@[a].total_earnd + n0.airdrop
                    &&& post.accounts@[a].staked_nfts@ == pre.accounts@[a].staked_nfts@.update(
                        i,
                        NftInfo { airdrop: 0, ..n0 },
                    )
                }
            }
        }
    }
}

/// Pays out the accrued reward of the first record of `sender` matching
/// `claim_nft_id`: the amount moves into the account's lifetime-earned
/// total, the record is zeroed, and the host is asked to transfer the
/// amount.  The lock state is untouched.
pub fn execute_claim(
    state: &mut State,
    sender: String,
    contract_balance: u128,
    claim_nft_id: String,
) -> (r: Result<Vec<TransferMsg>, ContractError>)
    requires
        old(state).wf(),
        claim_fits(*old(state), sender@, claim_nft_id@),
    ensures
        final(state).wf(),
        claim_spec(*old(state), *final(state), r, sender@, contract_balance, claim_nft_id@),
{
    check_enabled(state)?;
    let a = match find_account_idx(&state.accounts, &sender) {
        Some(a) => a,
        None => {
            return Err(ContractError::NoStakedNft {});
        },
    };
    let i = match find_nft_idx(&state.accounts[a].staked_nfts, &claim_nft_id) {
        Some(i) => i,
        None => {
            return Err(ContractError::NoStakedNft {});
        },
    };
    let amount = state.accounts[a].staked_nfts[i].airdrop;
    if amount == 0 {
        return Err(ContractError::NoReward {});
    }
    if contract_balance < amount {
        return Err(ContractError::InsufficientCw20 {});
    }
    let reward_msg = transfer_token_message(
        Denom::Native(state.config.native_token.clone()),
        amount,
        sender.clone(),
    );
    let ghost pre = *state;
    state.accounts[a].staked_nfts[i].airdrop = 0;
    let earned = state.accounts[a].total_earnd;
    state.accounts[a].total_earnd = earned + amount;
    proof {
        let av = pre.accounts@;
        let nv = pre.accounts@[a as int].staked_nfts@;
        let n0 = nv[i as int];
        assert(state.accounts@[a as int].staked_nfts@ =~= nv.update(
            i as int,
            NftInfo { airdrop: 0, ..n0 },
        ));
        assert(state.accounts@ =~= av.update(a as int, state.accounts@[a as int]));
        crate::state::lemma_sum_staked_update(av, a as int, state.accounts@[a as int]);
        assert forall|x: int|
            0 <= x < state.accounts@.len() implies crate::state::nfts_unique(
            #[trigger] state.accounts@[x].staked_nfts@,
        ) by {
            if x == a as int {
                let upd = state.accounts@[x].staked_nfts@;
                assert(forall|j: int|
                    0 <= j < upd.len() ==> upd[j].nft_id@ == nv[j].nft_id@
                        && upd[j].collection_address@ == nv[j].collection_address@);
            }
        }
    }
    let mut msgs: Vec<TransferMsg> = Vec::new();
    msgs.push(reward_msg);
    Ok(msgs)
}

/// The attached funds carry the early-exit fee: exactly one coin of the
/// configured token, covering the current fee.
pub open spec fn unstake_fee_paid(pre: State, funds: Seq<Coin>) -> bool {
    spec_paid_amount(funds, pre.config.native_token@) matches Some(p) && p >= pre.locktime_fee
}

/// What `execute_unstake` does: the first record of `sender` matching
/// `nft_id` leaves the ledger and the item is sent back.  A still-locked
/// record additionally demands the early-exit fee attached, of which
/// exactly the configured fee is forwarded to the fee recipient.  Any
/// accrued reward still on the record is forfeited: the lifetime-earned
/// total does not move.
pub open spec fn unstake_spec(
    pre: State,
    post: State,
    r: Result<Vec<TransferMsg>, ContractError>,
    now: u64,
    sender: Seq<char>,
    funds: Seq<Coin>,
    nft_id: Seq<char>,
) -> bool {
    if !pre.config.enabled {
        post == pre && r == Err::<Vec<TransferMsg>, ContractError>(ContractError::Disabled {})
    } else {
        let a = find_account(pre.accounts@, sender);
        if a < 0 {
            post == pre && r == Err::<Vec<TransferMsg>, ContractError>(
                ContractError::NoStakedNft {},
            )
        } else {
            let i = find_nft(pre.accounts@[a].staked_nfts@, nft_id);
            if i < 0 {
                post == pre && r == Err::<Vec<TransferMsg>, ContractError>(
                    ContractError::NoStakedNft {},
                )
            } else {
                let locked = pre.accounts@[a].staked_nfts@[i].lock_time > now;
                if locked && !unstake_fee_paid(pre, funds) {
                    post == pre && r == Err::<Vec<TransferMsg>, ContractError>(
                        ContractError::Locktime {},
                    )
                } else {
                    &&& r matches Ok(v) && (if locked {
                        v@.len() == 2 && is_bank_transfer(
                            v@[0],
                            pre.config.native_token@,
                            pre.locktime_fee,
                            pre.config.fee_address@,
                        ) && is_nft_transfer(
                            v@[1],
                            pre.config.collection_address@,
                            nft_id,
                            sender,
                        )
                    } else {
                        v@.len() == 1 && is_nft_transfer(
                            v@[0],
                            pre.config.collection_address@,
                            nft_id,
                            sender,
                        )
                    })
                    &&& post.config == pre.config
                    &&& post.current_airdrop_time == pre.current_airdrop_time
                    &&& post.start_airdrop == pre.start_airdrop
                    &&& post.total_airdrop == pre.total_airdrop
                    &&& post.locktime_fee == pre.locktime_fee
                    &&& post.total_staked == pre.total_staked - 1
                    &&& post.accounts@.len() == pre.accounts@.len()
                    &&& forall|x: int|
                        0 <= x < pre.accounts@.len() && x != a ==> post.accounts@[x]
                            == pre.accounts@[x]
                    &&& post.accounts@[a].address == pre.accounts@[a].address
                    &&& post.accounts@[a].total_earnd == pre.accounts@[a].total_earnd
                    &&& post.accounts@[a].staked_nfts@ == pre.accounts@[a].staked_nfts@.remove(i)
                }
            }
        }
    }
}

/// Removes the first record of `sender` matching `unstake_nft_id` and asks
/// the collection to hand the item back.  While the lock is still running
/// this is an early exit: the attached funds must carry the fee, which is
/// forwarded to the fee recipient; any accrued reward on the record is
/// forfeited.  The staked counter falls by one, so it always equals the
/// number of records held.
pub fn execute_unstake(
    state: &mut State,
    now: u64,
    sender: String,
    funds: Vec<Coin>,
    unstake_nft_id: String,
) -> (r: Result<Vec<TransferMsg>, ContractError>)
    requires
        old(state).wf(),
    ensures
        final(state).wf(),
        unstake_spec(*old(state), *final(state), r, now, sender@, funds@, unstake_nft_id@),
{
    check_enabled(state)?;
    let a = match find_account_idx(&state.accounts, &sender) {
        Some(a) => a,
        None => {
            return Err(ContractError::NoStakedNft {});
        },
    };
    let i = match find_nft_idx(&state.accounts[a].staked_nfts, &unstake_nft_id) {
        Some(i) => i,
        None => {
            return Err(ContractError::NoStakedNft {});
        },
    };
    let locked = state.accounts[a].staked_nfts[i].lock_time > now;
    let mut msgs: Vec<TransferMsg> = Vec::new();
    if locked {
        let receive_fee = match single_payment(&funds, &state.config.native_token) {
            Some(paid) => paid,
            None => {
                return Err(ContractError::Locktime {});
            },
        };
        if receive_fee >= state.locktime_fee {
            let fee_msg = transfer_token_message(
                Denom::Native(state.config.native_token.clone()),
                state.locktime_fee,
                state.config.fee_address.clone(),
            );
            msgs.push(fee_msg);
        } else {
            return Err(ContractError::Locktime {});
        }
    }
    let nft_msg = TransferMsg::NftTransfer {
        contract_addr: state.config.collection_address.clone(),
        token_id: unstake_nft_id,
        recipient: sender,
    };
    msgs.push(nft_msg);
    let ghost pre = *state;
    proof {
        crate::state::lemma_sum_staked_element_le(pre.accounts@, a as int);
    }
    let _removed = state.accounts[a].staked_nfts.remove(i);
    state.total_staked = state.total_staked - 1;
    proof {
        let av = pre.accounts@;
        let nv = pre.accounts@[a as int].staked_nfts@;
        assert(state.accounts@ =~= av.update(a as int, state.accounts@[a as int]));
        crate::state::lemma_sum_staked_update(av, a as int, state.accounts@[a as int]);
        crate::state::lemma_nfts_unique_remove(nv, i as int);
        assert forall|x: int|
            0 <= x < state.accounts@.len() implies crate::state::nfts_unique(
            #[trigger] state.accounts@[x].staked_nfts@,
        ) by {}
    }
    Ok(msgs)
}

/// Every accrued reward has room for one more full announcement on top,
/// and so has the cumulative counter; demanded only where the announcement
/// would actually be applied.
pub open spec fn airdrop_fits(
    pre: State,
    now: u64,
    sender: Seq<char>,
    contract_balance: u128,
    amount: u128,
) -> bool {
    airdrop_allowed(pre, now, sender, contract_balance, amount) ==> {
        &&& pre.total_airdrop + amount <= u128::MAX
        &&& forall|x: int, j: int|
            0 <= x < pre.accounts@.len() && 0 <= j < pre.accounts@[x].staked_nfts@.len()
                ==> (#[trigger] pre.accounts@[x].staked_nfts@[j]).airdrop + amount <= u128::MAX
    }
}

/// All of `execute_airdrop`'s gates pass: the owner announces a positive
/// amount the contract can cover, and the eligible population is neither
/// empty nor larger than the amount.
pub open spec fn airdrop_allowed(
    pre: State,
    now: u64,
    sender: Seq<char>,
    contract_balance: u128,
    amount: u128,
) -> bool {
    let count = total_eligible(pre.accounts@, now, pre.config.collection_address@);
    &&& pre.config.enabled
    &&& sender == pre.config.owner@
    &&& amount > 0
    &&& contract_balance >= amount
    &&& count > 0
    &&& amount >= count
}

/// One record after an announcement: an eligible record gained exactly
/// `share`, any other is untouched.
pub open spec fn nft_airdropped(
    pre: NftInfo,
    post: NftInfo,
    now: u64,
    collection: Seq<char>,
    share: int,
) -> bool {
    if is_eligible(pre, now, collection) {
        post == NftInfo { airdrop: (pre.airdrop + share) as u128, ..pre }
    } else {
        post == pre
    }
}

/// One ledger entry after an announcement: same account, same earnings,
/// same records, each moved by [`nft_airdropped`].
pub open spec fn account_airdropped(
    pre: UserInfo,
    post: UserInfo,
    now: u64,
    collection: Seq<char>,
    share: int,
) -> bool {
    &&& post.address == pre.address
    &&& post.total_earnd == pre.total_earnd
    &&& post.staked_nfts@.len() == pre.staked_nfts@.len()
    &&& forall|j: int|
        0 <= j < pre.staked_nfts@.len() ==> nft_airdropped(
            pre.staked_nfts@[j],
            #[trigger] post.staked_nfts@[j],
            now,
            collection,
            share,
        )
}

/// What `execute_airdrop` does: with N eligible records and announced
/// amount A, every eligible record's accrued reward grows by exactly
/// `A / N` (floor division; the remainder stays undistributed), every
/// other record is untouched, the cumulative counter grows by the nominal
/// A, and the epoch closes.  Every gate failure leaves the state untouched
/// and names its error, among them an amount below the eligible population,
/// whose share would truncate to zero.
pub open spec fn airdrop_spec(
    pre: State,
    post: State,
    r: Result<Vec<TransferMsg>, ContractError>,
    now: u64,
    sender: Seq<char>,
    contract_balance: u128,
    amount: u128,
) -> bool {
    if !pre.config.enabled {
        post == pre && r == Err::<Vec<TransferMsg>, ContractError>(ContractError::Disabled {})
    } else if sender != pre.config.owner@ {
        post == pre && r == Err::<Vec<TransferMsg>, ContractError>(ContractError::Unauthorized {})
    } else if amount == 0 {
        post == pre && r == Err::<Vec<TransferMsg>, ContractError>(
            ContractError::InvalidAirdrop {},
        )
    } else if contract_balance < amount {
        post == pre && r == Err::<Vec<TransferMsg>, ContractError>(
            ContractError::InsufficientCw20 {},
        )
    } else {
        let count = total_eligible(pre.accounts@, now, pre.config.collection_address@);
        if count == 0 {
            post == pre && r == Err::<Vec<TransferMsg>, ContractError>(
                ContractError::NoUnexpiredNft {},
            )
        } else if amount < count {
            post == pre && r == Err::<Vec<TransferMsg>, ContractError>(
                ContractError::OverNftCount { nft_count: count as u128 },
            )
        } else {
            let share = amount as int / count;
            &&& r matches Ok(v) && v@.len() == 0
            &&& post.config == pre.config
            &&& post.current_airdrop_time == pre.current_airdrop_time
            &&& post.start_airdrop == false
            &&& post.total_airdrop == pre.total_airdrop + amount
            &&& post.total_staked == pre.total_staked
            &&& post.locktime_fee == pre.locktime_fee
            &&& post.accounts@.len() == pre.accounts@.len()
            &&& forall|x: int|
                0 <= x < pre.accounts@.len() ==> account_airdropped(
                    pre.accounts@[x],
                    #[trigger] post.accounts@[x],
                    now,
                    pre.config.collection_address@,
                    share,
                )
        }
    }
}

/// Announces an airdrop of `airdrop_amount`: counts the eligible records
/// over the whole ledger, splits the amount evenly by floor division, and
/// adds the share to every eligible record in place.  The cumulative
/// distributed counter grows by the nominal amount and the epoch closes.
pub fn execute_airdrop(
    state: &mut State,
    now: u64,
    sender: String,
    contract_balance: u128,
    airdrop_amount: u128,
) -> (r: Result<Vec<TransferMsg>, ContractError>)
    requires
        old(state).wf(),
        airdrop_fits(*old(state), now, sender@, contract_balance, airdrop_amount),
    ensures
        final(state).wf(),
        airdrop_spec(
            *old(state),
            *final(state),
            r,
            now,
            sender@,
            contract_balance,
            airdrop_amount,
        ),
{
    check_enabled(state)?;
    check_owner(state, &sender)?;
    if airdrop_amount == 0 {
        return Err(ContractError::InvalidAirdrop {});
    }
    if contract_balance < airdrop_amount {
        return Err(ContractError::InsufficientCw20 {});
    }
    let nft_count = get_in_locktime_nft_count(state, now, &state.config.collection_address);
    if nft_count == 0 {
        return Err(ContractError::NoUnexpiredNft {});
    }
    if airdrop_amount < nft_count {
        return Err(ContractError::OverNftCount { nft_count });
    }
    let share = airdrop_amount / nft_count;
    let ghost pre = *state;
    let ghost coll = pre.config.collection_address@;
    proof {
        vstd::arithmetic::div_mod::lemma_div_nonincreasing(
            airdrop_amount as int,
            nft_count as int,
        );
    }
    let s = state.accounts.len();
    let mut a: usize = 0;
    while a < s
        invariant
            s == state.accounts@.len(),
            state.accounts@.len() == pre.accounts@.len(),
            a <= s,
            share <= airdrop_amount,
            share as int == airdrop_amount as int / total_eligible(pre.accounts@, now, coll),
            state.config == pre.config,
            coll == pre.config.collection_address@,
            state.current_airdrop_time == pre.current_airdrop_time,
            state.start_airdrop == pre.start_airdrop,
            state.total_airdrop == pre.total_airdrop,
            state.total_staked == pre.total_staked,
            state.locktime_fee == pre.locktime_fee,
            forall|x: int, j: int|
                0 <= x < pre.accounts@.len() && 0 <= j < pre.accounts@[x].staked_nfts@.len()
                    ==> (#[trigger] pre.accounts@[x].staked_nfts@[j]).airdrop + airdrop_amount
                    <= u128::MAX,
            forall|x: int|
                0 <= x < a ==> account_airdropped(
                    pre.accounts@[x],
                    #[trigger] state.accounts@[x],
                    now,
                    coll,
                    share as int,
                ),
            forall|x: int| a <= x < s ==> state.accounts@[x] == pre.accounts@[x],
        decreases s - a,
    {
        let n = state.accounts[a].staked_nfts.len();
        let mut j: usize = 0;
        while j < n
            invariant
                s == state.accounts@.len(),
                state.accounts@.len() == pre.accounts@.len(),
                a < s,
                n == state.accounts@[a as int].staked_nfts@.len(),
                n == pre.accounts@[a as int].staked_nfts@.len(),
                j <= n,
                share <= airdrop_amount,
                state.config == pre.config,
                coll == pre.config.collection_address@,
                state.current_airdrop_time == pre.current_airdrop_time,
                state.start_airdrop == pre.start_airdrop,
                state.total_airdrop == pre.total_airdrop,
                state.total_staked == pre.total_staked,
                state.locktime_fee == pre.locktime_fee,
                forall|x: int, y: int|
                    0 <= x < pre.accounts@.len() && 0 <= y < pre.accounts@[x].staked_nfts@.len()
                        ==> (#[trigger] pre.accounts@[x].staked_nfts@[y]).airdrop
                        + airdrop_amount <= u128::MAX,
                forall|x: int|
                    0 <= x < a ==> account_airdropped(
                        pre.accounts@[x],
                        #[trigger] state.accounts@[x],
                        now,
                        coll,
                        share as int,
                    ),
                forall|x: int| a < x < s ==> state.accounts@[x] == pre.accounts@[x],
                state.accounts@[a as int].address == pre.accounts@[a as int].address,
                state.accounts@[a as int].total_earnd == pre.accounts@[a as int].total_earnd,
                forall|y: int|
                    0 <= y < j ==> nft_airdropped(
                        pre.accounts@[a as int].staked_nfts@[y],
                        #[trigger] state.accounts@[a as int].staked_nfts@[y],
                        now,
                        coll,
                        share as int,
                    ),
                forall|y: int|
                    j <= y < n ==> state.accounts@[a as int].staked_nfts@[y]
                        == pre.accounts@[a as int].staked_nfts@[y],
            decreases n - j,
        {
            let eligible = state.accounts[a].staked_nfts[j].lock_time > now
                && state.accounts[a].staked_nfts[j].collection_address
                == state.config.collection_address;
            if eligible {
                let cur = state.accounts[a].staked_nfts[j].airdrop;
                proof {
                    assert(state.accounts@[a as int].staked_nfts@[j as int]
                        == pre.accounts@[a as int].staked_nfts@[j as int]);
                    assert((pre.accounts@[a as int].staked_nfts@[j as int]).airdrop
                        + airdrop_amount <= u128::MAX);
                }
                state.accounts[a].staked_nfts[j].airdrop = cur + share;
            }
            j = j + 1;
        }
        a = a + 1;
    }
    state.total_airdrop = state.total_airdrop + airdrop_amount;
    state.start_airdrop = false;
    proof {
        crate::state::lemma_sum_staked_congruence(pre.accounts@, state.accounts@);
        assert forall|x: int|
            0 <= x < state.accounts@.len() implies crate::state::nfts_unique(
            #[trigger] state.accounts@[x].staked_nfts@,
        ) by {
            let upd = state.accounts@[x].staked_nfts@;
            let nv = pre.accounts@[x].staked_nfts@;
            assert(account_airdropped(pre.accounts@[x], state.accounts@[x], now, coll, share as int));
            assert forall|y: int| 0 <= y < upd.len() implies upd[y].nft_id@ == nv[y].nft_id@
                && upd[y].collection_address@ == nv[y].collection_address@ by {
                assert(nft_airdropped(nv[y], upd[y], now, coll, share as int));
            }
        }
    }
    Ok(Vec::new())
}

/// `c` reads out the configuration and counters of `s`, stamped `now`.
pub open spec fn config_response_ok(c: ConfigResponse, s: State, now: u64) -> bool {
    &&& c.owner == s.config.owner
    &&& c.collection_address == s.config.collection_address
    &&& c.fee_address == s.config.fee_address
    &&& c.duration == s.config.duration
    &&& c.enabled == s.config.enabled
    &&& c.last_airdrop_time == s.current_airdrop_time
    &&& c.current_time == now
    &&& c.total_staked == s.total_staked
    &&& c.total_airdrop == s.total_airdrop
    &&& c.locktime_fee == s.locktime_fee
}

/// Reads the configuration and the global counters.
pub fn query_config(state: &State, now: u64) -> (r: ConfigResponse)
    ensures
        config_response_ok(r, *state, now),
{
    ConfigResponse {
        owner: state.config.owner.clone(),
        collection_address: state.config.collection_address.clone(),
        fee_address: state.config.fee_address.clone(),
        duration: state.config.duration,
        enabled: state.config.enabled,
        last_airdrop_time: state.current_airdrop_time,
        current_time: now,
        total_staked: state.total_staked,
        total_airdrop: state.total_airdrop,
        locktime_fee: state.locktime_fee,
    }
}

/// The lifetime-earned total of `address`, zero for an account that has
/// never deposited.
pub open spec fn spec_total_earned(s: State, address: Seq<char>) -> u128 {
    let a = find_account(s.accounts@, address);
    if a >= 0 {
        s.accounts@[a].total_earnd
    } else {
        0
    }
}

/// Reads an account's lifetime-earned reward total; an account that has
/// never deposited reads as zero rather than failing.
pub fn query_total_earned(state: &State, address: &String) -> (r: TotalEarnedResponse)
    ensures
        r.total_earned == spec_total_earned(*state, address@),
{
    match find_account_idx(&state.accounts, address) {
        Some(a) => TotalEarnedResponse { total_earned: state.accounts[a].total_earnd },
        None => TotalEarnedResponse { total_earned: 0 },
    }
}

/// Reads how many records are currently locked and of the configured
/// collection.
pub fn query_total_locked(state: &State, now: u64) -> (r: TotalLockedResponse)
    requires
        state.wf(),
    ensures
        r.count as int == total_eligible(state.accounts@, now, state.config.collection_address@),
{
    let count = get_in_locktime_nft_count(state, now, &state.config.collection_address);
    TotalLockedResponse { count }
}

/// `resp` lists exactly the records of `entry`, in order, each stamped
/// with the account's address.
pub open spec fn staked_list_ok(resp: StakedNftsResponse, entry: UserInfo, address: Seq<char>) -> bool {
    &&& resp.nft_maps@.len() == entry.staked_nfts@.len()
    &&& forall|i: int|
        0 <= i < entry.staked_nfts@.len() ==> {
            let m = #[trigger] resp.nft_maps@[i];
            &&& m.account_address@ == address
            &&& m.nft_id@ == entry.staked_nfts@[i].nft_id@
            &&& m.airdrop == entry.staked_nfts@[i].airdrop
            &&& m.lock_time == entry.staked_nfts@[i].lock_time
        }
}

/// Lists all records of `address`, in deposit order.  An account that has
/// never deposited is an error here, in contrast to the lifetime-earned
/// query's zero default.
pub fn query_staked_nfts(state: &State, address: &String) -> (r: Result<
    StakedNftsResponse,
    ContractError,
>)
    ensures
        match r {
            Ok(resp) => find_account(state.accounts@, address@) >= 0 && staked_list_ok(
                resp,
                state.accounts@[find_account(state.accounts@, address@)],
                address@,
            ),
            Err(e) => find_account(state.accounts@, address@) < 0 && e
                == ContractError::NoStakedNft {},
        },
{
    let a = match find_account_idx(&state.accounts, address) {
        Some(a) => a,
        None => {
            return Err(ContractError::NoStakedNft {});
        },
    };
    let nfts = &state.accounts[a].staked_nfts;
    let n = nfts.len();
    let mut nft_maps: Vec<StakedNftResponse> = Vec::new();
    let mut i: usize = 0;
    while i < n
        invariant
            a < state.accounts@.len(),
            nfts == &state.accounts[a as int].staked_nfts,
            n == nfts@.len(),
            i <= n,
            nft_maps@.len() == i,
            forall|k: int|
                0 <= k < i ==> {
                    let m = #[trigger] nft_maps@[k];
                    &&& m.account_address@ == address@
                    &&& m.nft_id@ == nfts@[k].nft_id@
                    &&& m.airdrop == nfts@[k].airdrop
                    &&& m.lock_time == nfts@[k].lock_time
                },
        decreases n - i,
    {
        nft_maps.push(
            StakedNftResponse {
                account_address: address.clone(),
                nft_id: nfts[i].nft_id.clone(),
                airdrop: nfts[i].airdrop,
                lock_time: nfts[i].lock_time,
            },
        );
        i = i + 1;
    }
    Ok(StakedNftsResponse { nft_maps })
}

/// Answers a read-only question about the ledger.
pub fn query(state: &State, now: u64, msg: QueryMsg) -> (r: Result<QueryAnswer, ContractError>)
    requires
        state.wf(),
    ensures
        match msg {
            QueryMsg::GetConfig {} => r matches Ok(QueryAnswer::Config(c))
                && config_response_ok(c, *state, now),
            QueryMsg::GetTotalEarned { address } => r matches Ok(QueryAnswer::TotalEarned(t))
                && t.total_earned == spec_total_earned(*state, address@),
            QueryMsg::GetTotalLocked {} => r matches Ok(QueryAnswer::TotalLocked(t))
                && t.count as int == total_eligible(
                state.accounts@,
                now,
                state.config.collection_address@,
            ),
            QueryMsg::StakedNfts { address } => match r {
                Ok(ans) => ans matches QueryAnswer::StakedNfts(resp) && find_account(
                    state.accounts@,
                    address@,
                ) >= 0 && staked_list_ok(
                    resp,
                    state.accounts@[find_account(state.accounts@, address@)],
                    address@,
                ),
                Err(e) => find_account(state.accounts@, address@) < 0 && e
                    == ContractError::NoStakedNft {},
            },
        },
{
    match msg {
        QueryMsg::GetConfig {} => Ok(QueryAnswer::Config(query_config(state, now))),
        QueryMsg::GetTotalEarned { address } => Ok(
            QueryAnswer::TotalEarned(query_total_earned(state, &address)),
        ),
        QueryMsg::GetTotalLocked {} => Ok(QueryAnswer::TotalLocked(query_total_locked(state, now))),
        QueryMsg::StakedNfts { address } => match query_staked_nfts(state, &address) {
            Ok(resp) => Ok(QueryAnswer::StakedNfts(resp)),
            Err(e) => Err(e),
        },
    }
}

/// The overflow room each request needs before it can be admitted; requests
/// that never add anything need none.
pub open spec fn execute_fits(
    pre: State,
    now: u64,
    sender: Seq<char>,
    contract_balance: u128,
    msg: ExecuteMsg,
) -> bool {
    match msg {
        ExecuteMsg::ReceiveNft {
            sender: ws,
            token_id: wt,
            msg: NftReceiveMsg::Stake { sender: ms, token_id: mt },
        } => stake_fits(pre, now, sender, ws@, wt@, ms@, mt@),
        ExecuteMsg::Restake { restake_nft_id } => restake_fits(pre, now, sender, restake_nft_id@),
        ExecuteMsg::Claim { claim_nft_id } => claim_fits(pre, sender, claim_nft_id@),
        ExecuteMsg::Airdrop { airdrop_amount } => airdrop_fits(
            pre,
            now,
            sender,
            contract_balance,
            airdrop_amount,
        ),
        _ => true,
    }
}

/// Routes one request to its operation.
///
/// `sender` is the account the request came from, `funds` the coins it
/// attached, and `contract_balance` the contract's current holding of the
/// reward token, as the host queried it.
pub fn execute(
    state: &mut State,
    now: u64,
    sender: String,
    funds: Vec<Coin>,
    contract_balance: u128,
    msg: ExecuteMsg,
) -> (r: Result<Vec<TransferMsg>, ContractError>)
    requires
        old(state).wf(),
        execute_fits(*old(state), now, sender@, contract_balance, msg),
    ensures
        final(state).wf(),
        match msg {
            ExecuteMsg::UpdateOwner { owner } => update_owner_spec(
                *old(state),
                *final(state),
                r,
                sender,
                owner,
            ),
            ExecuteMsg::UpdateFeeAddress { fee_address } => update_fee_address_spec(
                *old(state),
                *final(state),
                r,
                sender,
                fee_address,
            ),
            ExecuteMsg::UpdateEnabled { enabled } => update_enabled_spec(
                *old(state),
                *final(state),
                r,
                sender,
                enabled,
            ),
            ExecuteMsg::UpdateConfig {
                new_owner,
                new_fee_address,
                new_collection_address,
                new_duration,
                new_locktime_fee,
            } => update_config_spec(
                *old(state),
                *final(state),
                r,
                sender,
                new_owner,
                new_fee_address,
                new_collection_address,
                new_duration,
                new_locktime_fee,
            ),
            ExecuteMsg::UpdateDuration { duration } => update_duration_spec(
                *old(state),
                *final(state),
                r,
                sender,
                duration,
            ),
            ExecuteMsg::Withdraw { amount } => *final(state) == *old(state) && withdraw_spec(
                *old(state),
                r,
                sender@,
                contract_balance,
                amount,
            ),
            ExecuteMsg::Airdrop { airdrop_amount } => airdrop_spec(
                *old(state),
                *final(state),
                r,
                now,
                sender@,
                contract_balance,
                airdrop_amount,
            ),
            ExecuteMsg::AirdropRestart {} => airdrop_restart_spec(
                *old(state),
                *final(state),
                r,
                now,
                sender@,
            ),
            ExecuteMsg::ReceiveNft { sender: ws, token_id: wt, msg: inner } => (inner matches
                NftReceiveMsg::Stake { sender: ms, token_id: mt } ==> stake_spec(
                *old(state),
                *final(state),
                r,
                now,
                sender@,
                ws@,
                wt@,
                ms@,
                mt@,
            )),
            ExecuteMsg::Restake { restake_nft_id } => restake_spec(
                *old(state),
                *final(state),
                r,
                now,
                sender@,
                restake_nft_id@,
            ),
            ExecuteMsg::Unstake { unstake_nft_id } => unstake_spec(
                *old(state),
                *final(state),
                r,
                now,
                sender@,
                funds@,
                unstake_nft_id@,
            ),
            ExecuteMsg::Claim { claim_nft_id } => claim_spec(
                *old(state),
                *final(state),
                r,
                sender@,
                contract_balance,
                claim_nft_id@,
            ),
        },
{
    match msg {
        ExecuteMsg::UpdateOwner { owner } => crate::util::execute_update_owner(
            state,
            sender,
            owner,
        ),
        ExecuteMsg::UpdateFeeAddress { fee_address } => crate::util::execute_update_fee_address(
            state,
            sender,
            fee_address,
        ),
        ExecuteMsg::UpdateEnabled { enabled } => crate::util::execute_update_enabled(
            state,
            sender,
            enabled,
        ),
        ExecuteMsg::UpdateConfig {
            new_owner,
            new_fee_address,
            new_collection_address,
            new_duration,
            new_locktime_fee,
        } => crate::util::execute_update_config(
            state,
            sender,
            new_owner,
            new_fee_address,
            new_collection_address,
            new_duration,
            new_locktime_fee,
        ),
        ExecuteMsg::UpdateDuration { duration } => crate::util::execute_update_duration(
            state,
            sender,
            duration,
        ),
        ExecuteMsg::Withdraw { amount } => execute_withdraw(state, sender, contract_balance, amount),
        ExecuteMsg::Airdrop { airdrop_amount } => execute_airdrop(
            state,
            now,
            sender,
            contract_balance,
            airdrop_amount,
        ),
        ExecuteMsg::AirdropRestart {} => execute_airdrop_restart(state, now, sender),
        ExecuteMsg::ReceiveNft { sender: wrapper_sender, token_id, msg: inner } => {
            execute_receive_nft(state, now, sender, wrapper_sender, token_id, inner)
        },
        ExecuteMsg::Restake { restake_nft_id } => execute_restake(state, now, sender, restake_nft_id),
        ExecuteMsg::Unstake { unstake_nft_id } => execute_unstake(
            state,
            now,
            sender,
            funds,
            unstake_nft_id,
        ),
        ExecuteMsg::Claim { claim_nft_id } => execute_claim(
            state,
            sender,
            contract_balance,
            claim_nft_id,
        ),
    }
}

} // verus!
