use aliens_staking::contract::{
    execute, execute_airdrop, execute_airdrop_restart, execute_claim, execute_receive_nft,
    execute_restake, execute_unstake, execute_withdraw, instantiate, query, query_config,
    query_staked_nfts, query_total_earned, query_total_locked, DEFAULT_LOCKTIME_FEE,
};
use aliens_staking::error::ContractError;
use aliens_staking::msg::{
    Coin, Denom, ExecuteMsg, InstantiateMsg, NftReceiveMsg, QueryAnswer, QueryMsg, TransferMsg,
};
use aliens_staking::state::State;
use aliens_staking::util::{
    execute_update_config, execute_update_duration, execute_update_enabled,
    execute_update_fee_address, execute_update_owner, get_in_locktime_nft_count, set_airdrop,
    single_payment, transfer_token_message,
};

const OWNER: &str = "owner";
const FEE: &str = "fee_recipient";
const COLL: &str = "collection";
const TOKEN: &str = "utoken";
const DURATION: u64 = 100;

fn fresh() -> State {
    instantiate(
        InstantiateMsg {
            owner: OWNER.to_string(),
            fee_address: FEE.to_string(),
            collection_address: COLL.to_string(),
            native_token: TOKEN.to_string(),
            duration: DURATION,
        },
        OWNER.to_string(),
        0,
    )
}

fn start_epoch(state: &mut State, now: u64) {
    execute_airdrop_restart(state, now, OWNER.to_string()).expect("owner restarts the epoch");
}

fn stake(state: &mut State, now: u64, account: &str, token_id: &str) {
    execute_receive_nft(
        state,
        now,
        COLL.to_string(),
        account.to_string(),
        token_id.to_string(),
        NftReceiveMsg::Stake { sender: account.to_string(), token_id: token_id.to_string() },
    )
    .expect("stake accepted");
}

fn manual_record_count(state: &State) -> u64 {
    state.accounts.iter().map(|u| u.staked_nfts.len() as u64).sum()
}

#[test]
fn instantiate_defaults() {
    let s = fresh();
    assert_eq!(s.config.owner, OWNER);
    assert_eq!(s.config.fee_address, FEE);
    assert_eq!(s.config.collection_address, COLL);
    assert_eq!(s.config.native_token, TOKEN);
    assert_eq!(s.config.duration, DURATION);
    assert!(s.config.enabled);
    assert!(!s.start_airdrop);
    assert_eq!(s.current_airdrop_time, 0);
    assert_eq!(s.total_airdrop, 0);
    assert_eq!(s.total_staked, 0);
    assert_eq!(s.locktime_fee, DEFAULT_LOCKTIME_FEE);
    assert_eq!(s.locktime_fee, 1_000_000_000_000_000_000u128);
    assert!(s.accounts.is_empty());
    assert!(s.well_formed());
}

#[test]
fn stake_creates_record() {
    let mut s = fresh();
    start_epoch(&mut s, 0);
    stake(&mut s, 0, "alice", "X");
    assert_eq!(s.total_staked, 1);
    assert_eq!(s.accounts.len(), 1);
    assert_eq!(s.accounts[0].address, "alice");
    assert_eq!(s.accounts[0].total_earnd, 0);
    assert_eq!(s.accounts[0].staked_nfts.len(), 1);
    let rec = &s.accounts[0].staked_nfts[0];
    assert_eq!(rec.nft_id, "X");
    assert_eq!(rec.lock_time, 100);
    assert_eq!(rec.airdrop, 0);
    assert_eq!(rec.collection_address, COLL);
    assert!(s.well_formed());
}

#[test]
fn stake_requires_epoch_started() {
    let mut s = fresh();
    let r = execute_receive_nft(
        &mut s,
        0,
        COLL.to_string(),
        "alice".to_string(),
        "X".to_string(),
        NftReceiveMsg::Stake { sender: "alice".to_string(), token_id: "X".to_string() },
    );
    assert_eq!(r.unwrap_err(), ContractError::NotStarted {});
    assert_eq!(s.total_staked, 0);
}

#[test]
fn stake_rejects_wrong_collection_caller() {
    let mut s = fresh();
    start_epoch(&mut s, 0);
    let r = execute_receive_nft(
        &mut s,
        0,
        "someone_else".to_string(),
        "alice".to_string(),
        "X".to_string(),
        NftReceiveMsg::Stake { sender: "alice".to_string(), token_id: "X".to_string() },
    );
    assert_eq!(r.unwrap_err(), ContractError::InvalidCw721Token {});
}

#[test]
fn stake_rejects_mismatched_notification() {
    let mut s = fresh();
    start_epoch(&mut s, 0);
    let r = execute_receive_nft(
        &mut s,
        0,
        COLL.to_string(),
        "alice".to_string(),
        "X".to_string(),
        NftReceiveMsg::Stake { sender: "bob".to_string(), token_id: "X".to_string() },
    );
    assert_eq!(r.unwrap_err(), ContractError::InvalidCw721Msg {});
    let r = execute_receive_nft(
        &mut s,
        0,
        COLL.to_string(),
        "alice".to_string(),
        "X".to_string(),
        NftReceiveMsg::Stake { sender: "alice".to_string(), token_id: "Y".to_string() },
    );
    assert_eq!(r.unwrap_err(), ContractError::InvalidCw721Msg {});
}

#[test]
fn stake_rejects_item_already_staked() {
    let mut s = fresh();
    start_epoch(&mut s, 0);
    stake(&mut s, 0, "alice", "X");
    let r = execute_receive_nft(
        &mut s,
        1,
        COLL.to_string(),
        "alice".to_string(),
        "X".to_string(),
        NftReceiveMsg::Stake { sender: "alice".to_string(), token_id: "X".to_string() },
    );
    assert_eq!(r.unwrap_err(), ContractError::InvalidCw721Msg {});
    assert_eq!(s.total_staked, 1);
}

#[test]
fn conservation_across_operations() {
    let mut s = fresh();
    start_epoch(&mut s, 0);
    assert_eq!(s.total_staked, manual_record_count(&s));
    stake(&mut s, 0, "alice", "X");
    stake(&mut s, 0, "alice", "Y");
    stake(&mut s, 0, "bob", "Z");
    assert_eq!(s.total_staked, 3);
    assert_eq!(s.total_staked, manual_record_count(&s));
    execute_airdrop(&mut s, 10, OWNER.to_string(), 1000, 30).expect("airdrop applies");
    assert_eq!(s.total_staked, manual_record_count(&s));
    execute_unstake(&mut s, 101, "alice".to_string(), vec![], "Y".to_string())
        .expect("unstake after expiry");
    assert_eq!(s.total_staked, 2);
    assert_eq!(s.total_staked, manual_record_count(&s));
    assert!(s.well_formed());
}

#[test]
fn airdrop_pro_rata_exact_shares() {
    let mut s = fresh();
    start_epoch(&mut s, 0);
    stake(&mut s, 0, "alice", "X");
    stake(&mut s, 0, "alice", "Y");
    stake(&mut s, 0, "bob", "Z");
    // 3 eligible records, amount 10: each gains floor(10 / 3) = 3
    execute_airdrop(&mut s, 50, OWNER.to_string(), 100, 10).expect("airdrop applies");
    assert_eq!(s.accounts[0].staked_nfts[0].airdrop, 3);
    assert_eq!(s.accounts[0].staked_nfts[1].airdrop, 3);
    assert_eq!(s.accounts[1].staked_nfts[0].airdrop, 3);
    // the cumulative counter grows by the nominal amount, remainder stays undistributed
    assert_eq!(s.total_airdrop, 10);
    assert!(!s.start_airdrop);
}

#[test]
fn airdrop_skips_expired_and_foreign_records() {
    let mut s = fresh();
    start_epoch(&mut s, 0);
    stake(&mut s, 0, "alice", "X"); // lock expires at 100
    stake(&mut s, 150, "bob", "Z"); // lock expires at 250
    // carol stakes while another collection is configured: her record
    // carries that collection
    execute_update_config(
        &mut s,
        OWNER.to_string(),
        OWNER.to_string(),
        FEE.to_string(),
        "other_collection".to_string(),
        DURATION,
        DEFAULT_LOCKTIME_FEE,
    )
    .expect("owner reconfigures");
    execute_receive_nft(
        &mut s,
        150,
        "other_collection".to_string(),
        "carol".to_string(),
        "W".to_string(),
        NftReceiveMsg::Stake { sender: "carol".to_string(), token_id: "W".to_string() },
    )
    .expect("carol stakes under the other collection");
    execute_update_config(
        &mut s,
        OWNER.to_string(),
        OWNER.to_string(),
        FEE.to_string(),
        COLL.to_string(),
        DURATION,
        DEFAULT_LOCKTIME_FEE,
    )
    .expect("owner restores the collection");
    // at t=200 alice is expired and carol is of a foreign collection:
    // bob's record is the only eligible one and takes the whole amount
    execute_airdrop(&mut s, 200, OWNER.to_string(), 1000, 10).expect("airdrop applies");
    assert_eq!(s.accounts[0].staked_nfts[0].airdrop, 0);
    assert_eq!(s.accounts[1].staked_nfts[0].airdrop, 10);
    assert_eq!(s.accounts[2].staked_nfts[0].airdrop, 0);
    assert_eq!(s.total_airdrop, 10);
}

#[test]
fn airdrop_rejects_amount_below_population() {
    let mut s = fresh();
    start_epoch(&mut s, 0);
    stake(&mut s, 0, "alice", "X");
    stake(&mut s, 0, "bob", "Y");
    stake(&mut s, 0, "carol", "Z");
    let r = execute_airdrop(&mut s, 10, OWNER.to_string(), 1000, 2);
    assert_eq!(r.unwrap_err(), ContractError::OverNftCount { nft_count: 3 });
    assert_eq!(s.accounts[0].staked_nfts[0].airdrop, 0);
    assert_eq!(s.accounts[1].staked_nfts[0].airdrop, 0);
    assert_eq!(s.accounts[2].staked_nfts[0].airdrop, 0);
    assert_eq!(s.total_airdrop, 0);
}

#[test]
fn airdrop_error_cases() {
    let mut s = fresh();
    start_epoch(&mut s, 0);
    stake(&mut s, 0, "alice", "X");
    let r = execute_airdrop(&mut s, 10, "mallory".to_string(), 1000, 10);
    assert_eq!(r.unwrap_err(), ContractError::Unauthorized {});
    let r = execute_airdrop(&mut s, 10, OWNER.to_string(), 1000, 0);
    assert_eq!(r.unwrap_err(), ContractError::InvalidAirdrop {});
    let r = execute_airdrop(&mut s, 10, OWNER.to_string(), 5, 10);
    assert_eq!(r.unwrap_err(), ContractError::InsufficientCw20 {});
    // all locks expired: nobody is eligible
    let r = execute_airdrop(&mut s, 200, OWNER.to_string(), 1000, 10);
    assert_eq!(r.unwrap_err(), ContractError::NoUnexpiredNft {});
    execute_update_enabled(&mut s, OWNER.to_string(), false).expect("owner disables");
    let r = execute_airdrop(&mut s, 10, OWNER.to_string(), 1000, 10);
    assert_eq!(r.unwrap_err(), ContractError::Disabled {});
}

#[test]
fn claim_moves_reward_and_second_claim_fails() {
    let mut s = fresh();
    start_epoch(&mut s, 0);
    stake(&mut s, 0, "alice", "X");
    execute_airdrop(&mut s, 50, OWNER.to_string(), 100, 10).expect("airdrop applies");
    assert_eq!(s.accounts[0].staked_nfts[0].airdrop, 10);
    let msgs = execute_claim(&mut s, "alice".to_string(), 100, "X".to_string())
        .expect("claim pays out");
    assert_eq!(msgs.len(), 1);
    assert_eq!(
        msgs[0],
        TransferMsg::Bank {
            denom: TOKEN.to_string(),
            amount: 10,
            to_address: "alice".to_string(),
        }
    );
    assert_eq!(s.accounts[0].staked_nfts[0].airdrop, 0);
    assert_eq!(s.accounts[0].total_earnd, 10);
    let r = execute_claim(&mut s, "alice".to_string(), 100, "X".to_string());
    assert_eq!(r.unwrap_err(), ContractError::NoReward {});
    assert_eq!(s.accounts[0].total_earnd, 10);
}

#[test]
fn claim_error_cases() {
    let mut s = fresh();
    start_epoch(&mut s, 0);
    stake(&mut s, 0, "alice", "X");
    let r = execute_claim(&mut s, "bob".to_string(), 100, "X".to_string());
    assert_eq!(r.unwrap_err(), ContractError::NoStakedNft {});
    let r = execute_claim(&mut s, "alice".to_string(), 100, "Y".to_string());
    assert_eq!(r.unwrap_err(), ContractError::NoStakedNft {});
    execute_airdrop(&mut s, 50, OWNER.to_string(), 100, 10).expect("airdrop applies");
    let r = execute_claim(&mut s, "alice".to_string(), 9, "X".to_string());
    assert_eq!(r.unwrap_err(), ContractError::InsufficientCw20 {});
    assert_eq!(s.accounts[0].staked_nfts[0].airdrop, 10);
}

#[test]
fn unstake_locked_without_fee_fails() {
    let mut s = fresh();
    start_epoch(&mut s, 0);
    stake(&mut s, 0, "alice", "X");
    let r = execute_unstake(&mut s, 70, "alice".to_string(), vec![], "X".to_string());
    assert_eq!(r.unwrap_err(), ContractError::Locktime {});
    let r = execute_unstake(
        &mut s,
        70,
        "alice".to_string(),
        vec![Coin { denom: TOKEN.to_string(), amount: DEFAULT_LOCKTIME_FEE - 1 }],
        "X".to_string(),
    );
    assert_eq!(r.unwrap_err(), ContractError::Locktime {});
    let r = execute_unstake(
        &mut s,
        70,
        "alice".to_string(),
        vec![Coin { denom: "wrong".to_string(), amount: DEFAULT_LOCKTIME_FEE }],
        "X".to_string(),
    );
    assert_eq!(r.unwrap_err(), ContractError::Locktime {});
    assert_eq!(s.total_staked, 1);
}

#[test]
fn unstake_locked_with_fee_forwards_exact_fee_and_forfeits_reward() {
    let mut s = fresh();
    start_epoch(&mut s, 0);
    stake(&mut s, 0, "alice", "X");
    execute_airdrop(&mut s, 50, OWNER.to_string(), 100, 10).expect("airdrop applies");
    // pay more than the fee: exactly the configured fee is forwarded
    let msgs = execute_unstake(
        &mut s,
        70,
        "alice".to_string(),
        vec![Coin { denom: TOKEN.to_string(), amount: DEFAULT_LOCKTIME_FEE + 5 }],
        "X".to_string(),
    )
    .expect("early exit with fee");
    assert_eq!(msgs.len(), 2);
    assert_eq!(
        msgs[0],
        TransferMsg::Bank {
            denom: TOKEN.to_string(),
            amount: DEFAULT_LOCKTIME_FEE,
            to_address: FEE.to_string(),
        }
    );
    assert_eq!(
        msgs[1],
        TransferMsg::NftTransfer {
            contract_addr: COLL.to_string(),
            token_id: "X".to_string(),
            recipient: "alice".to_string(),
        }
    );
    // the accrued reward is forfeited, not folded into earnings
    assert_eq!(s.accounts[0].total_earnd, 0);
    assert_eq!(s.accounts[0].staked_nfts.len(), 0);
    assert_eq!(s.total_staked, 0);
}

#[test]
fn unstake_after_expiry_needs_no_fee() {
    let mut s = fresh();
    start_epoch(&mut s, 0);
    stake(&mut s, 0, "alice", "X");
    let msgs = execute_unstake(&mut s, 101, "alice".to_string(), vec![], "X".to_string())
        .expect("unstake after expiry");
    assert_eq!(msgs.len(), 1);
    assert_eq!(
        msgs[0],
        TransferMsg::NftTransfer {
            contract_addr: COLL.to_string(),
            token_id: "X".to_string(),
            recipient: "alice".to_string(),
        }
    );
    assert_eq!(s.total_staked, 0);
}

#[test]
fn unstake_unknown_record_fails() {
    let mut s = fresh();
    start_epoch(&mut s, 0);
    stake(&mut s, 0, "alice", "X");
    let r = execute_unstake(&mut s, 101, "alice".to_string(), vec![], "Y".to_string());
    assert_eq!(r.unwrap_err(), ContractError::NoStakedNft {});
    let r = execute_unstake(&mut s, 101, "bob".to_string(), vec![], "X".to_string());
    assert_eq!(r.unwrap_err(), ContractError::NoStakedNft {});
}

#[test]
fn restake_locked_fails_expired_relocks() {
    let mut s = fresh();
    start_epoch(&mut s, 0);
    stake(&mut s, 0, "alice", "X");
    let r = execute_restake(&mut s, 50, "alice".to_string(), "X".to_string());
    assert_eq!(r.unwrap_err(), ContractError::Locktime {});
    assert_eq!(s.accounts[0].staked_nfts[0].lock_time, 100);
    execute_restake(&mut s, 150, "alice".to_string(), "X".to_string())
        .expect("renewal after expiry");
    assert_eq!(s.accounts[0].staked_nfts[0].lock_time, 250);
}

#[test]
fn restake_rejects_foreign_collection() {
    let mut s = fresh();
    start_epoch(&mut s, 0);
    stake(&mut s, 0, "alice", "X");
    execute_update_config(
        &mut s,
        OWNER.to_string(),
        OWNER.to_string(),
        FEE.to_string(),
        "other_collection".to_string(),
        DURATION,
        42,
    )
    .expect("owner reconfigures");
    let r = execute_restake(&mut s, 150, "alice".to_string(), "X".to_string());
    assert_eq!(r.unwrap_err(), ContractError::InvalidCw721Msg {});
}

#[test]
fn scenario_full_lifecycle() {
    // duration 100, deposit "X" at t=0, airdrop 10 at t=50 (the only
    // eligible record), claim at 60, failed second claim at 61, failed
    // feeless withdrawal at 70, free withdrawal at 101.
    let mut s = fresh();
    start_epoch(&mut s, 0);
    stake(&mut s, 0, "alice", "X");
    assert_eq!(s.accounts[0].staked_nfts[0].lock_time, 100);
    execute_airdrop(&mut s, 50, OWNER.to_string(), 10, 10).expect("airdrop applies");
    assert_eq!(s.accounts[0].staked_nfts[0].airdrop, 10);
    execute_claim(&mut s, "alice".to_string(), 10, "X".to_string()).expect("claim pays out");
    assert_eq!(s.accounts[0].total_earnd, 10);
    assert_eq!(s.accounts[0].staked_nfts[0].airdrop, 0);
    let r = execute_claim(&mut s, "alice".to_string(), 10, "X".to_string());
    assert_eq!(r.unwrap_err(), ContractError::NoReward {});
    let r = execute_unstake(&mut s, 70, "alice".to_string(), vec![], "X".to_string());
    assert_eq!(r.unwrap_err(), ContractError::Locktime {});
    let msgs = execute_unstake(&mut s, 101, "alice".to_string(), vec![], "X".to_string())
        .expect("unstake after expiry");
    assert_eq!(msgs.len(), 1);
    assert_eq!(s.total_staked, 0);
}

#[test]
fn disabled_gates_operations() {
    let mut s = fresh();
    start_epoch(&mut s, 0);
    stake(&mut s, 0, "alice", "X");
    execute_update_enabled(&mut s, OWNER.to_string(), false).expect("owner disables");
    let r = execute_receive_nft(
        &mut s,
        0,
        COLL.to_string(),
        "bob".to_string(),
        "Y".to_string(),
        NftReceiveMsg::Stake { sender: "bob".to_string(), token_id: "Y".to_string() },
    );
    assert_eq!(r.unwrap_err(), ContractError::Disabled {});
    let r = execute_unstake(&mut s, 101, "alice".to_string(), vec![], "X".to_string());
    assert_eq!(r.unwrap_err(), ContractError::Disabled {});
    let r = execute_claim(&mut s, "alice".to_string(), 100, "X".to_string());
    assert_eq!(r.unwrap_err(), ContractError::Disabled {});
    let r = execute_restake(&mut s, 150, "alice".to_string(), "X".to_string());
    assert_eq!(r.unwrap_err(), ContractError::Disabled {});
}

#[test]
fn update_functions_owner_gated() {
    let mut s = fresh();
    let r = execute_update_owner(&mut s, "mallory".to_string(), "mallory".to_string());
    assert_eq!(r.unwrap_err(), ContractError::Unauthorized {});
    execute_update_owner(&mut s, OWNER.to_string(), "new_owner".to_string())
        .expect("owner hands over");
    assert_eq!(s.config.owner, "new_owner");
    let r = execute_update_fee_address(&mut s, OWNER.to_string(), "x".to_string());
    assert_eq!(r.unwrap_err(), ContractError::Unauthorized {});
    execute_update_fee_address(&mut s, "new_owner".to_string(), "new_fee".to_string())
        .expect("new owner updates");
    assert_eq!(s.config.fee_address, "new_fee");
    execute_update_duration(&mut s, "new_owner".to_string(), 7).expect("new owner updates");
    assert_eq!(s.config.duration, 7);
    execute_update_config(
        &mut s,
        "new_owner".to_string(),
        OWNER.to_string(),
        FEE.to_string(),
        COLL.to_string(),
        DURATION,
        123,
    )
    .expect("new owner reconfigures");
    assert_eq!(s.config.owner, OWNER);
    assert_eq!(s.config.fee_address, FEE);
    assert_eq!(s.config.collection_address, COLL);
    assert_eq!(s.config.duration, DURATION);
    assert_eq!(s.locktime_fee, 123);
    // native token and enablement stay as they were
    assert_eq!(s.config.native_token, TOKEN);
    assert!(s.config.enabled);
}

#[test]
fn airdrop_restart_opens_epoch() {
    let mut s = fresh();
    let r = execute_airdrop_restart(&mut s, 5, "mallory".to_string());
    assert_eq!(r.unwrap_err(), ContractError::Unauthorized {});
    execute_airdrop_restart(&mut s, 5, OWNER.to_string()).expect("owner restarts");
    assert!(s.start_airdrop);
    assert_eq!(s.current_airdrop_time, 5);
}

#[test]
fn withdraw_owner_gated_and_balance_checked() {
    let s = fresh();
    let r = execute_withdraw(&s, "mallory".to_string(), 100, 50);
    assert_eq!(r.unwrap_err(), ContractError::Unauthorized {});
    let r = execute_withdraw(&s, OWNER.to_string(), 40, 50);
    assert_eq!(r.unwrap_err(), ContractError::InsufficientCw20 {});
    let msgs = execute_withdraw(&s, OWNER.to_string(), 100, 50).expect("owner withdraws");
    assert_eq!(msgs.len(), 1);
    assert_eq!(
        msgs[0],
        TransferMsg::Bank {
            denom: TOKEN.to_string(),
            amount: 50,
            to_address: OWNER.to_string(),
        }
    );
}

#[test]
fn queries_read_the_state() {
    let mut s = fresh();
    start_epoch(&mut s, 3);
    stake(&mut s, 3, "alice", "X");
    stake(&mut s, 3, "alice", "Y");
    execute_airdrop(&mut s, 10, OWNER.to_string(), 100, 8).expect("airdrop applies");
    let c = query_config(&s, 42);
    assert_eq!(c.owner, OWNER);
    assert_eq!(c.collection_address, COLL);
    assert_eq!(c.fee_address, FEE);
    assert_eq!(c.duration, DURATION);
    assert!(c.enabled);
    assert_eq!(c.last_airdrop_time, 3);
    assert_eq!(c.current_time, 42);
    assert_eq!(c.total_staked, 2);
    assert_eq!(c.total_airdrop, 8);
    assert_eq!(c.locktime_fee, DEFAULT_LOCKTIME_FEE);
    let earned = query_total_earned(&s, &"alice".to_string());
    assert_eq!(earned.total_earned, 0);
    execute_claim(&mut s, "alice".to_string(), 100, "X".to_string()).expect("claim pays out");
    let earned = query_total_earned(&s, &"alice".to_string());
    assert_eq!(earned.total_earned, 4);
    // unknown accounts read as zero instead of failing
    let earned = query_total_earned(&s, &"nobody".to_string());
    assert_eq!(earned.total_earned, 0);
    let locked = query_total_locked(&s, 50);
    assert_eq!(locked.count, 2);
    let locked = query_total_locked(&s, 150);
    assert_eq!(locked.count, 0);
    let listed = query_staked_nfts(&s, &"alice".to_string()).expect("alice has records");
    assert_eq!(listed.nft_maps.len(), 2);
    assert_eq!(listed.nft_maps[0].account_address, "alice");
    assert_eq!(listed.nft_maps[0].nft_id, "X");
    assert_eq!(listed.nft_maps[0].airdrop, 0);
    assert_eq!(listed.nft_maps[0].lock_time, 103);
    assert_eq!(listed.nft_maps[1].nft_id, "Y");
    assert_eq!(listed.nft_maps[1].airdrop, 4);
    // listing an unknown account fails, unlike the earned query
    let r = query_staked_nfts(&s, &"nobody".to_string());
    assert_eq!(r.unwrap_err(), ContractError::NoStakedNft {});
}

#[test]
fn query_dispatcher_routes() {
    let mut s = fresh();
    start_epoch(&mut s, 0);
    stake(&mut s, 0, "alice", "X");
    match query(&s, 9, QueryMsg::GetConfig {}).expect("config answers") {
        QueryAnswer::Config(c) => {
            assert_eq!(c.current_time, 9);
            assert_eq!(c.total_staked, 1);
        },
        _ => panic!("wrong answer variant"),
    }
    match query(&s, 9, QueryMsg::GetTotalLocked {}).expect("count answers") {
        QueryAnswer::TotalLocked(t) => assert_eq!(t.count, 1),
        _ => panic!("wrong answer variant"),
    }
    match query(&s, 9, QueryMsg::GetTotalEarned { address: "alice".to_string() })
        .expect("earned answers")
    {
        QueryAnswer::TotalEarned(t) => assert_eq!(t.total_earned, 0),
        _ => panic!("wrong answer variant"),
    }
    match query(&s, 9, QueryMsg::StakedNfts { address: "alice".to_string() })
        .expect("listing answers")
    {
        QueryAnswer::StakedNfts(l) => assert_eq!(l.nft_maps.len(), 1),
        _ => panic!("wrong answer variant"),
    }
}

#[test]
fn execute_dispatcher_routes() {
    let mut s = fresh();
    let msgs = execute(&mut s, 0, OWNER.to_string(), vec![], 0, ExecuteMsg::AirdropRestart {})
        .expect("restart via dispatcher");
    assert!(msgs.is_empty());
    assert!(s.start_airdrop);
    execute(
        &mut s,
        0,
        COLL.to_string(),
        vec![],
        0,
        ExecuteMsg::ReceiveNft {
            sender: "alice".to_string(),
            token_id: "X".to_string(),
            msg: NftReceiveMsg::Stake { sender: "alice".to_string(), token_id: "X".to_string() },
        },
    )
    .expect("stake via dispatcher");
    assert_eq!(s.total_staked, 1);
    execute(&mut s, 10, OWNER.to_string(), vec![], 50, ExecuteMsg::Airdrop { airdrop_amount: 7 })
        .expect("airdrop via dispatcher");
    assert_eq!(s.accounts[0].staked_nfts[0].airdrop, 7);
    let msgs = execute(
        &mut s,
        20,
        "alice".to_string(),
        vec![],
        50,
        ExecuteMsg::Claim { claim_nft_id: "X".to_string() },
    )
    .expect("claim via dispatcher");
    assert_eq!(msgs.len(), 1);
    let r = execute(
        &mut s,
        20,
        "alice".to_string(),
        vec![],
        50,
        ExecuteMsg::Unstake { unstake_nft_id: "X".to_string() },
    );
    assert_eq!(r.unwrap_err(), ContractError::Locktime {});
    execute(
        &mut s,
        20,
        OWNER.to_string(),
        vec![],
        0,
        ExecuteMsg::UpdateEnabled { enabled: false },
    )
    .expect("disable via dispatcher");
    assert!(!s.config.enabled);
}

#[test]
fn transfer_token_message_builds_both_kinds() {
    let m = transfer_token_message(Denom::Native("ustake".to_string()), 9, "dest".to_string());
    assert_eq!(
        m,
        TransferMsg::Bank {
            denom: "ustake".to_string(),
            amount: 9,
            to_address: "dest".to_string(),
        }
    );
    let m = transfer_token_message(Denom::Cw20("cw20addr".to_string()), 9, "dest".to_string());
    assert_eq!(
        m,
        TransferMsg::Cw20Transfer {
            contract_addr: "cw20addr".to_string(),
            amount: 9,
            recipient: "dest".to_string(),
        }
    );
}

#[test]
fn single_payment_edge_cases() {
    let denom = TOKEN.to_string();
    assert_eq!(single_payment(&vec![], &denom), None);
    assert_eq!(
        single_payment(&vec![Coin { denom: TOKEN.to_string(), amount: 0 }], &denom),
        None
    );
    assert_eq!(
        single_payment(&vec![Coin { denom: "wrong".to_string(), amount: 5 }], &denom),
        None
    );
    assert_eq!(
        single_payment(
            &vec![
                Coin { denom: TOKEN.to_string(), amount: 5 },
                Coin { denom: TOKEN.to_string(), amount: 5 },
            ],
            &denom,
        ),
        None
    );
    assert_eq!(
        single_payment(&vec![Coin { denom: TOKEN.to_string(), amount: 5 }], &denom),
        Some(5)
    );
}

#[test]
fn set_airdrop_adds_to_one_record() {
    let mut s = fresh();
    start_epoch(&mut s, 0);
    stake(&mut s, 0, "alice", "X");
    stake(&mut s, 0, "alice", "Y");
    set_airdrop(&mut s, "alice".to_string(), "Y".to_string(), 11).expect("reward added");
    assert_eq!(s.accounts[0].staked_nfts[0].airdrop, 0);
    assert_eq!(s.accounts[0].staked_nfts[1].airdrop, 11);
    let r = set_airdrop(&mut s, "alice".to_string(), "Z".to_string(), 11);
    assert_eq!(r.unwrap_err(), ContractError::NoStakedNft {});
    let r = set_airdrop(&mut s, "bob".to_string(), "X".to_string(), 11);
    assert_eq!(r.unwrap_err(), ContractError::NoStakedNft {});
}

#[test]
fn count_helper_matches_eligibility() {
    let mut s = fresh();
    start_epoch(&mut s, 0);
    stake(&mut s, 0, "alice", "X");
    stake(&mut s, 10, "bob", "Y");
    assert_eq!(get_in_locktime_nft_count(&s, 50, &COLL.to_string()), 2);
    assert_eq!(get_in_locktime_nft_count(&s, 105, &COLL.to_string()), 1);
    assert_eq!(get_in_locktime_nft_count(&s, 200, &COLL.to_string()), 0);
    assert_eq!(get_in_locktime_nft_count(&s, 50, &"other".to_string()), 0);
}

#[test]
fn well_formed_detects_broken_counters() {
    let mut s = fresh();
    start_epoch(&mut s, 0);
    stake(&mut s, 0, "alice", "X");
    assert!(s.well_formed());
    s.total_staked = 2;
    assert!(!s.well_formed());
}
