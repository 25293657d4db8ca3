use vstd::prelude::*;

verus! {

/// The contract's configuration: owner, fee recipient, the one accepted
/// collection, the reward/fee token, the lock duration and the kill switch.
pub struct Config {
    pub owner: String,
    pub fee_address: String,
    pub native_token: String,
    pub enabled: bool,
    pub collection_address: String,
    pub duration: u64,
}

/// One staked item's record: its identifier, the absolute time at which its
/// lock expires, the reward accrued for it and not yet claimed, and the
/// collection it came from at deposit time.
pub struct NftInfo {
    pub nft_id: String,
    pub lock_time: u64,
    pub airdrop: u128,
    pub collection_address: String,
}

/// One account's ledger entry: its address, its lifetime-earned reward
/// total, and its staked-item records in deposit order.
pub struct UserInfo {
    pub address: String,
    pub total_earnd: u128,
    pub staked_nfts: Vec<NftInfo>,
}

/// The whole persistent state: configuration, the global counters and the
/// account ledger.
pub struct State {
    pub config: Config,
    /// The time at which the current airdrop epoch began.
    pub current_airdrop_time: u64,
    /// Whether an airdrop epoch is currently active; deposits and renewals
    /// are accepted only while it is.
    pub start_airdrop: bool,
    /// The cumulative reward amount ever announced.
    pub total_airdrop: u128,
    /// The number of records currently held, over all accounts.
    pub total_staked: u64,
    /// The fee for withdrawing a still-locked item.
    pub locktime_fee: u128,
    /// One entry per account that has ever deposited.
    pub accounts: Vec<UserInfo>,
}

/// The number of staked-item records held over all of `accounts`.
pub open spec fn sum_staked(accounts: Seq<UserInfo>) -> int
    decreases accounts.len(),
{
    if accounts.len() == 0 {
        0
    } else {
        sum_staked(accounts.drop_last()) + accounts.last().staked_nfts@.len()
    }
}

/// The index of the first record in `nfts` whose identifier is `id`, or -1
/// if there is none.
pub open spec fn find_nft(nfts: Seq<NftInfo>, id: Seq<char>) -> int
    decreases nfts.len(),
{
    if nfts.len() == 0 {
        -1
    } else if nfts.first().nft_id@ == id {
        0
    } else {
        let rest = find_nft(nfts.drop_first(), id);
        if rest < 0 {
            -1
        } else {
            rest + 1
        }
    }
}

/// The index of the first entry in `accounts` whose address is `addr`, or
/// -1 if there is none.
pub open spec fn find_account(accounts: Seq<UserInfo>, addr: Seq<char>) -> int
    decreases accounts.len(),
{
    if accounts.len() == 0 {
        -1
    } else if accounts.first().address@ == addr {
        0
    } else {
        let rest = find_account(accounts.drop_first(), addr);
        if rest < 0 {
            -1
        } else {
            rest + 1
        }
    }
}

/// A record is eligible for an airdrop while its lock has not yet expired
/// and it came from the configured collection.
pub open spec fn is_eligible(n: NftInfo, now: u64, collection: Seq<char>) -> bool {
    n.lock_time > now && n.collection_address@ == collection
}

/// How many records of `nfts` are eligible.
pub open spec fn count_eligible(nfts: Seq<NftInfo>, now: u64, collection: Seq<char>) -> int
    decreases nfts.len(),
{
    if nfts.len() == 0 {
        0
    } else {
        count_eligible(nfts.drop_last(), now, collection) + if is_eligible(
            nfts.last(),
            now,
            collection,
        ) {
            1int
        } else {
            0int
        }
    }
}

/// How many records are eligible over all of `accounts`.
pub open spec fn total_eligible(accounts: Seq<UserInfo>, now: u64, collection: Seq<char>) -> int
    decreases accounts.len(),
{
    if accounts.len() == 0 {
        0
    } else {
        total_eligible(accounts.drop_last(), now, collection) + count_eligible(
            accounts.last().staked_nfts@,
            now,
            collection,
        )
    }
}

/// No two records of one account share both identifier and collection.
pub open spec fn nfts_unique(nfts: Seq<NftInfo>) -> bool {
    forall|i: int, j: int|
        0 <= i < j < nfts.len() ==> !(nfts[i].nft_id@ == nfts[j].nft_id@
            && nfts[i].collection_address@ == nfts[j].collection_address@)
}

impl State {
    /// Well-formedness of the ledger: the staked counter equals the number
    /// of records actually held, account addresses are distinct, and within
    /// each account no item is recorded twice for the same collection.
    pub open spec fn wf(self) -> bool {
        &&& self.total_staked as int == sum_staked(self.accounts@)
        &&& forall|i: int, j: int|
            0 <= i < j < self.accounts@.len() ==> self.accounts@[i].address@
                != self.accounts@[j].address@
        &&& forall|i: int|
            0 <= i < self.accounts@.len() ==> nfts_unique(
                #[trigger] self.accounts@[i].staked_nfts@,
            )
    }
}

/// Checks that no two records of `nfts` share both identifier and
/// collection.
pub fn records_unique(nfts: &Vec<NftInfo>) -> (b: bool)
    ensures
        b == nfts_unique(nfts@),
{
    let n = nfts.len();
    let mut i: usize = 0;
    while i < n
        invariant
            n == nfts@.len(),
            i <= n,
            forall|p: int, q: int|
                0 <= p < q < n && p < i ==> !(nfts@[p].nft_id@ == nfts@[q].nft_id@
                    && nfts@[p].collection_address@ == nfts@[q].collection_address@),
        decreases n - i,
    {
        let mut j: usize = i + 1;
        while j < n
            invariant
                n == nfts@.len(),
                i < n,
                i + 1 <= j <= n,
                forall|p: int, q: int|
                    0 <= p < q < n && p < i ==> !(nfts@[p].nft_id@ == nfts@[q].nft_id@
                        && nfts@[p].collection_address@ == nfts@[q].collection_address@),
                forall|q: int|
                    i < q < j ==> !(nfts@[i as int].nft_id@ == nfts@[q].nft_id@
                        && nfts@[i as int].collection_address@
                        == nfts@[q].collection_address@),
            decreases n - j,
        {
            if nfts[i].nft_id == nfts[j].nft_id && nfts[i].collection_address
                == nfts[j].collection_address {
                assert(nfts@[i as int].nft_id@ == nfts@[j as int].nft_id@
                    && nfts@[i as int].collection_address@
                    == nfts@[j as int].collection_address@);
                return false;
            }
            j = j + 1;
        }
        i = i + 1;
    }
    true
}

impl State {
    /// Checks well-formedness of a state value in full: the staked counter
    /// against the records actually held, distinct account addresses, and
    /// unique records within each account.
    pub fn well_formed(&self) -> (b: bool)
        ensures
            b == self.wf(),
    {
        let s = self.accounts.len();
        let mut total: u128 = 0;
        let mut a: usize = 0;
        while a < s
            invariant
                s == self.accounts@.len(),
                a <= s,
                total as int == sum_staked(self.accounts@.take(a as int)),
                total <= u64::MAX,
            decreases s - a,
        {
            let n = self.accounts[a].staked_nfts.len();
            proof {
                assert(self.accounts@.take(a + 1).drop_last() =~= self.accounts@.take(a as int));
                assert(self.accounts@.take(a + 1).last() == self.accounts@[a as int]);
            }
            let new_total = total + n as u128;
            if new_total > u64::MAX as u128 {
                proof {
                    lemma_sum_staked_take_le(self.accounts@, a + 1);
                }
                return false;
            }
            total = new_total;
            a = a + 1;
        }
        proof {
            assert(self.accounts@.take(s as int) =~= self.accounts@);
        }
        if total != self.total_staked as u128 {
            return false;
        }
        let mut i: usize = 0;
        while i < s
            invariant
                s == self.accounts@.len(),
                i <= s,
                forall|p: int, q: int|
                    0 <= p < q < s && p < i ==> self.accounts@[p].address@
                        != self.accounts@[q].address@,
            decreases s - i,
        {
            let mut j: usize = i + 1;
            while j < s
                invariant
                    s == self.accounts@.len(),
                    i < s,
                    i + 1 <= j <= s,
                    forall|p: int, q: int|
                        0 <= p < q < s && p < i ==> self.accounts@[p].address@
                            != self.accounts@[q].address@,
                    forall|q: int|
                        i < q < j ==> self.accounts@[i as int].address@
                            != self.accounts@[q].address@,
                decreases s - j,
            {
                if self.accounts[i].address == self.accounts[j].address {
                    assert(self.accounts@[i as int].address@ == self.accounts@[j as int].address@);
                    return false;
                }
                j = j + 1;
            }
            i = i + 1;
        }
        let mut k: usize = 0;
        while k < s
            invariant
                s == self.accounts@.len(),
                k <= s,
                total as int == sum_staked(self.accounts@),
                total == self.total_staked as u128,
                forall|p: int, q: int|
                    0 <= p < q < s ==> self.accounts@[p].address@ != self.accounts@[q].address@,
                forall|x: int|
                    0 <= x < k ==> nfts_unique(#[trigger] self.accounts@[x].staked_nfts@),
            decreases s - k,
        {
            if !records_unique(&self.accounts[k].staked_nfts) {
                return false;
            }
            k = k + 1;
        }
        true
    }
}

/// The record count is never negative.
pub proof fn lemma_sum_staked_nonneg(accounts: Seq<UserInfo>)
    ensures
        sum_staked(accounts) >= 0,
    decreases accounts.len(),
{
    if accounts.len() > 0 {
        lemma_sum_staked_nonneg(accounts.drop_last());
    }
}

/// Replacing one entry changes the record count by the difference of the
/// two entries' record counts.
pub proof fn lemma_sum_staked_update(accounts: Seq<UserInfo>, i: int, u: UserInfo)
    requires
        0 <= i < accounts.len(),
    ensures
        sum_staked(accounts.update(i, u)) == sum_staked(accounts)
            - accounts[i].staked_nfts@.len() + u.staked_nfts@.len(),
    decreases accounts.len(),
{
    let n = accounts.len() as int;
    if i == n - 1 {
        assert(accounts.update(i, u).drop_last() =~= accounts.drop_last());
        assert(accounts.update(i, u).last() == u);
    } else {
        lemma_sum_staked_update(accounts.drop_last(), i, u);
        assert(accounts.update(i, u).drop_last() =~= accounts.drop_last().update(i, u));
        assert(accounts.update(i, u).last() == accounts.last());
    }
}

/// Appending an entry adds that entry's record count.
pub proof fn lemma_sum_staked_push(accounts: Seq<UserInfo>, u: UserInfo)
    ensures
        sum_staked(accounts.push(u)) == sum_staked(accounts) + u.staked_nfts@.len(),
{
    assert(accounts.push(u).drop_last() =~= accounts);
    assert(accounts.push(u).last() == u);
}

/// A prefix never holds more records than the whole.
pub proof fn lemma_sum_staked_take_le(accounts: Seq<UserInfo>, k: int)
    requires
        0 <= k <= accounts.len(),
    ensures
        sum_staked(accounts.take(k)) <= sum_staked(accounts),
    decreases accounts.len() - k,
{
    if k == accounts.len() {
        assert(accounts.take(k) =~= accounts);
    } else {
        lemma_sum_staked_take_le(accounts, k + 1);
        assert(accounts.take(k + 1).drop_last() =~= accounts.take(k));
        assert(accounts.take(k + 1).last() == accounts[k]);
    }
}

/// The eligible count of a record list lies between zero and its length.
pub proof fn lemma_count_eligible_bounds(nfts: Seq<NftInfo>, now: u64, collection: Seq<char>)
    ensures
        0 <= count_eligible(nfts, now, collection) <= nfts.len(),
    decreases nfts.len(),
{
    if nfts.len() > 0 {
        lemma_count_eligible_bounds(nfts.drop_last(), now, collection);
    }
}

/// The eligible count over the ledger lies between zero and the total
/// record count.
pub proof fn lemma_total_eligible_bounds(accounts: Seq<UserInfo>, now: u64, collection: Seq<char>)
    ensures
        0 <= total_eligible(accounts, now, collection) <= sum_staked(accounts),
    decreases accounts.len(),
{
    if accounts.len() > 0 {
        lemma_total_eligible_bounds(accounts.drop_last(), now, collection);
        lemma_count_eligible_bounds(accounts.last().staked_nfts@, now, collection);
    }
}

/// Two ledgers whose entries hold equally many records hold equally many
/// records overall.
pub proof fn lemma_sum_staked_congruence(a1: Seq<UserInfo>, a2: Seq<UserInfo>)
    requires
        a1.len() == a2.len(),
        forall|i: int|
            0 <= i < a1.len() ==> #[trigger] a1[i].staked_nfts@.len()
                == a2[i].staked_nfts@.len(),
    ensures
        sum_staked(a1) == sum_staked(a2),
    decreases a1.len(),
{
    if a1.len() > 0 {
        lemma_sum_staked_congruence(a1.drop_last(), a2.drop_last());
    }
}

/// No single entry holds more records than the whole ledger.
pub proof fn lemma_sum_staked_element_le(accounts: Seq<UserInfo>, a: int)
    requires
        0 <= a < accounts.len(),
    ensures
        accounts[a].staked_nfts@.len() <= sum_staked(accounts),
    decreases accounts.len(),
{
    if a == accounts.len() - 1 {
        lemma_sum_staked_nonneg(accounts.drop_last());
    } else {
        lemma_sum_staked_element_le(accounts.drop_last(), a);
    }
}

/// Removing a record keeps the remaining records unique.
pub proof fn lemma_nfts_unique_remove(nfts: Seq<NftInfo>, i: int)
    requires
        0 <= i < nfts.len(),
        nfts_unique(nfts),
    ensures
        nfts_unique(nfts.remove(i)),
{
    let m = nfts.remove(i);
    nfts.remove_ensures(i);
    assert forall|p: int, q: int| 0 <= p < q < m.len() implies !(m[p].nft_id@ == m[q].nft_id@
        && m[p].collection_address@ == m[q].collection_address@) by {
        let p0 = if p < i {
            p
        } else {
            p + 1
        };
        let q0 = if q < i {
            q
        } else {
            q + 1
        };
        assert(m[p] == nfts[p0]);
        assert(m[q] == nfts[q0]);
    }
}

/// Two ledgers with the same addresses have their first match at the same
/// place.
pub proof fn lemma_find_account_same_addrs(a: Seq<UserInfo>, b: Seq<UserInfo>, addr: Seq<char>)
    requires
        a.len() == b.len(),
        forall|j: int| 0 <= j < a.len() ==> a[j].address@ == b[j].address@,
    ensures
        find_account(a, addr) == find_account(b, addr),
    decreases a.len(),
{
    if a.len() > 0 {
        assert(a.first().address@ == b.first().address@);
        assert(forall|j: int| 0 <= j < a.len() - 1 ==> a.drop_first()[j] == a[j + 1]);
        assert(forall|j: int| 0 <= j < b.len() - 1 ==> b.drop_first()[j] == b[j + 1]);
        lemma_find_account_same_addrs(a.drop_first(), b.drop_first(), addr);
    }
}

/// If position `i` matches `id` and no earlier position does, the first
/// match is at `i`.
pub proof fn lemma_find_nft_at(nfts: Seq<NftInfo>, id: Seq<char>, i: int)
    requires
        0 <= i < nfts.len(),
        nfts[i].nft_id@ == id,
        forall|j: int| 0 <= j < i ==> nfts[j].nft_id@ != id,
    ensures
        find_nft(nfts, id) == i,
    decreases i,
{
    if i > 0 {
        assert(nfts.first().nft_id@ != id);
        assert(nfts.drop_first()[i - 1] == nfts[i]);
        assert(forall|j: int| 0 <= j < i - 1 ==> nfts.drop_first()[j] == nfts[j + 1]);
        lemma_find_nft_at(nfts.drop_first(), id, i - 1);
    }
}

/// If no position matches `id`, there is no first match.
pub proof fn lemma_find_nft_absent(nfts: Seq<NftInfo>, id: Seq<char>)
    requires
        forall|j: int| 0 <= j < nfts.len() ==> nfts[j].nft_id@ != id,
    ensures
        find_nft(nfts, id) == -1,
    decreases nfts.len(),
{
    if nfts.len() > 0 {
        assert(forall|j: int|
            0 <= j < nfts.len() - 1 ==> nfts.drop_first()[j] == nfts[j + 1]);
        lemma_find_nft_absent(nfts.drop_first(), id);
    }
}

/// The first match exists and matches, and nothing before it matches.
pub proof fn lemma_find_nft_props(nfts: Seq<NftInfo>, id: Seq<char>)
    ensures
        find_nft(nfts, id) >= 0 ==> find_nft(nfts, id) < nfts.len() && nfts[find_nft(
            nfts,
            id,
        )].nft_id@ == id,
        find_nft(nfts, id) < 0 ==> find_nft(nfts, id) == -1,
    decreases nfts.len(),
{
    if nfts.len() > 0 && nfts.first().nft_id@ != id {
        lemma_find_nft_props(nfts.drop_first(), id);
        assert(forall|j: int|
            0 <= j < nfts.len() - 1 ==> nfts.drop_first()[j] == nfts[j + 1]);
    }
}

/// Two record lists with the same identifiers have their first match at the
/// same place.
pub proof fn lemma_find_nft_same_ids(a: Seq<NftInfo>, b: Seq<NftInfo>, id: Seq<char>)
    requires
        a.len() == b.len(),
        forall|j: int| 0 <= j < a.len() ==> a[j].nft_id@ == b[j].nft_id@,
    ensures
        find_nft(a, id) == find_nft(b, id),
    decreases a.len(),
{
    if a.len() > 0 {
        assert(a.first().nft_id@ == b.first().nft_id@);
        assert(forall|j: int| 0 <= j < a.len() - 1 ==> a.drop_first()[j] == a[j + 1]);
        assert(forall|j: int| 0 <= j < b.len() - 1 ==> b.drop_first()[j] == b[j + 1]);
        lemma_find_nft_same_ids(a.drop_first(), b.drop_first(), id);
    }
}

/// If position `i` holds `addr` and no earlier position does, the first
/// match is at `i`.
pub proof fn lemma_find_account_at(accounts: Seq<UserInfo>, addr: Seq<char>, i: int)
    requires
        0 <= i < accounts.len(),
        accounts[i].address@ == addr,
        forall|j: int| 0 <= j < i ==> accounts[j].address@ != addr,
    ensures
        find_account(accounts, addr) == i,
    decreases i,
{
    if i > 0 {
        assert(accounts.first().address@ != addr);
        assert(accounts.drop_first()[i - 1] == accounts[i]);
        assert(forall|j: int|
            0 <= j < i - 1 ==> accounts.drop_first()[j] == accounts[j + 1]);
        lemma_find_account_at(accounts.drop_first(), addr, i - 1);
    }
}

/// If no entry holds `addr`, there is no first match.
pub proof fn lemma_find_account_absent(accounts: Seq<UserInfo>, addr: Seq<char>)
    requires
        forall|j: int| 0 <= j < accounts.len() ==> accounts[j].address@ != addr,
    ensures
        find_account(accounts, addr) == -1,
    decreases accounts.len(),
{
    if accounts.len() > 0 {
        assert(forall|j: int|
            0 <= j < accounts.len() - 1 ==> accounts.drop_first()[j] == accounts[j + 1]);
        lemma_find_account_absent(accounts.drop_first(), addr);
    }
}

/// The first matching entry exists and holds `addr`, and nothing before it
/// does.
pub proof fn lemma_find_account_props(accounts: Seq<UserInfo>, addr: Seq<char>)
    ensures
        find_account(accounts, addr) >= 0 ==> find_account(accounts, addr) < accounts.len()
            && accounts[find_account(accounts, addr)].address@ == addr,
        find_account(accounts, addr) < 0 ==> find_account(accounts, addr) == -1,
    decreases accounts.len(),
{
    if accounts.len() > 0 && accounts.first().address@ != addr {
        lemma_find_account_props(accounts.drop_first(), addr);
        assert(forall|j: int|
            0 <= j < accounts.len() - 1 ==> accounts.drop_first()[j] == accounts[j + 1]);
    }
}

} // verus!
