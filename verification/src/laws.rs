use vstd::prelude::*;

use crate::contract::claim_spec;
use crate::error::ContractError;
use crate::msg::TransferMsg;
use crate::state::{
    find_account, find_nft, lemma_find_account_same_addrs, lemma_find_nft_same_ids, sum_staked,
    State,
};

verus! {

/// Conservation: in every well-formed state the staked counter equals the
/// number of records actually held, over all accounts.  Setup builds a
/// well-formed state and every operation keeps well-formedness, so this
/// equality holds at every observation point of any run.
pub proof fn lemma_conservation(s: State)
    requires
        s.wf(),
    ensures
        s.total_staked as int == sum_staked(s.accounts@),
{
}

/// No double claim: a claim that paid out has zeroed the record, and a
/// second claim of the same item right after fails with `NoReward` and
/// changes nothing — whatever the contract's balance by then, and however
/// much time has passed.
pub proof fn lemma_no_double_claim(
    s0: State,
    s1: State,
    s2: State,
    r1: Result<Vec<TransferMsg>, ContractError>,
    r2: Result<Vec<TransferMsg>, ContractError>,
    sender: Seq<char>,
    nft_id: Seq<char>,
    balance1: u128,
    balance2: u128,
)
    requires
        claim_spec(s0, s1, r1, sender, balance1, nft_id),
        r1 is Ok,
        claim_spec(s1, s2, r2, sender, balance2, nft_id),
    ensures
        r2 == Err::<Vec<TransferMsg>, ContractError>(ContractError::NoReward {}),
        s2 == s1,
{
    let a = find_account(s0.accounts@, sender);
    let i = find_nft(s0.accounts@[a].staked_nfts@, nft_id);
    crate::state::lemma_find_account_props(s0.accounts@, sender);
    crate::state::lemma_find_nft_props(s0.accounts@[a].staked_nfts@, nft_id);
    assert(forall|j: int|
        0 <= j < s1.accounts@.len() ==> s1.accounts@[j].address@ == s0.accounts@[j].address@);
    lemma_find_account_same_addrs(s1.accounts@, s0.accounts@, sender);
    assert(forall|j: int|
        0 <= j < s1.accounts@[a].staked_nfts@.len() ==> s1.accounts@[a].staked_nfts@[j].nft_id@
            == s0.accounts@[a].staked_nfts@[j].nft_id@);
    lemma_find_nft_same_ids(s1.accounts@[a].staked_nfts@, s0.accounts@[a].staked_nfts@, nft_id);
    assert(s1.accounts@[a].staked_nfts@[i].airdrop == 0);
}

} // verus!
