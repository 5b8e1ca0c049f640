use vstd::prelude::*;
use crate::error::MintError;
use crate::fee::FeeFraction;
use crate::table::NameMap;
use crate::signature::{
    decode_public_key, decode_signature, ed25519_valid, hex_bytes, is_hex_text, verification,
    PUBLIC_KEY_LEN, SIGNATURE_LEN,
};

verus! {

/// How long a signed mint request stays usable: five minutes, in nanoseconds.
pub const TIMESTAMP_MAX_INTERVAL: u64 = 300_000_000_000;

/// Token slots that every account has before buying any storage package.
pub const FREE_STORAGE_SIZE: u32 = 3;

/// Resale state of one token: how often it changed hands and its current price.
#[derive(Clone, Copy, Debug, PartialEq, Eq, Structural)]
pub struct TokenData {
    pub generation: u32,
    pub price: u128,
}

/// A storage package on sale: `storage_size` more slots for `price`.
#[derive(Clone, Copy, Debug, PartialEq, Eq, Structural)]
pub struct StoragePackage {
    pub price: u128,
    pub storage_size: u32,
}

/// A superseded generation of a token kept in a former owner's collection.
#[derive(Clone, Debug)]
pub struct CollectionItem {
    pub token_id: String,
    pub generation: u32,
}

/// A decoded, signed mint request.
#[derive(Clone, Debug)]
pub struct MintRequest {
    pub token_id: String,
    pub account_id: String,
    pub referral_id_1: Option<String>,
    pub referral_id_2: Option<String>,
    pub timestamp: u64,
}

/// How a price increase is shared out. `system_fee` is `None` when the other
/// shares already exceed the increase; the platform then receives nothing.
#[derive(Clone, Copy, Debug, PartialEq, Eq, Structural)]
pub struct FeeShares {
    pub seller_fee: u128,
    pub referral_1_fee: u128,
    pub referral_2_fee: u128,
    pub system_fee: Option<u128>,
}

/// What a successful mint leaves to be done outside the market state.
#[derive(Clone, Debug)]
pub enum MintOutcome {
    /// A new token was created for the buyer.
    Minted,
    /// An existing token changed hands; the seller is owed `seller_payout`.
    Resold { seller_id: String, seller_payout: u128 },
}

struct UsedRequest {
    token_id: String,
    timestamp: u64,
}

struct ArchivedToken {
    owner: String,
    item: CollectionItem,
}

/// The whole market state: configuration, per-token prices, token owners,
/// balances, referral links, storage quotas and archived collections.
pub struct Contract {
    owner_id: String,
    public_key: String,
    min_mint_price: u128,
    max_storage_size: u32,
    mint_price_increase_fee: FeeFraction,
    seller_fee: FeeFraction,
    referral_1_fee: FeeFraction,
    referral_2_fee: FeeFraction,
    storage_packages: Vec<StoragePackage>,
    token_data: NameMap<TokenData>,
    token_owners: NameMap<String>,
    held: NameMap<u32>,
    balances: NameMap<u128>,
    referrals: NameMap<String>,
    last_user_action: NameMap<u64>,
    storage: NameMap<u32>,
    store_user_tokens: NameMap<bool>,
    archive: Vec<ArchivedToken>,
    used_requests: Vec<UsedRequest>,
}

/// No entry occurs twice.
pub open spec fn entries_distinct<T>(s: Seq<T>) -> bool {
    forall|i: int, j: int| 0 <= i < j < s.len() ==> s[i] != s[j]
}

/// The value stored under `k`, or `d` when there is none.
pub open spec fn value_or<V>(m: Map<Seq<char>, V>, k: Seq<char>, d: V) -> V {
    if m.contains_key(k) {
        m[k]
    } else {
        d
    }
}

pub open spec fn saturating_sum(a: u128, b: u128) -> u128 {
    if a + b > u128::MAX {
        u128::MAX
    } else {
        (a + b) as u128
    }
}

/// `m` with `amount` added to the balance of `account`, capped at the largest `u128`.
pub open spec fn credit(m: Map<Seq<char>, u128>, account: Seq<char>, amount: u128) -> Map<
    Seq<char>,
    u128,
> {
    m.insert(account, saturating_sum(value_or(m, account, 0), amount))
}

/// Balances after the referral and system shares of `shares` are credited.
pub open spec fn fees_credited(
    m: Map<Seq<char>, u128>,
    shares: FeeShares,
    referral_1: Option<String>,
    referral_2: Option<String>,
    owner: Seq<char>,
) -> Map<Seq<char>, u128> {
    let m1 = match referral_1 {
        Some(a) => credit(m, a@, shares.referral_1_fee),
        None => m,
    };
    let m2 = match referral_2 {
        Some(a) => credit(m1, a@, shares.referral_2_fee),
        None => m1,
    };
    match shares.system_fee {
        Some(f) => credit(m2, owner, f),
        None => m2,
    }
}

/// The sum of all shares, counting a skipped system fee as zero.
pub open spec fn shares_total(s: FeeShares) -> int {
    s.seller_fee + s.referral_1_fee + s.referral_2_fee + match s.system_fee {
        Some(f) => f as int,
        None => 0,
    }
}

/// The referral map after `referrer` is offered as the first referrer of `account`.
pub open spec fn referral_registered(
    m: Map<Seq<char>, String>,
    account: Seq<char>,
    referrer: String,
) -> Map<Seq<char>, String> {
    if m.contains_key(account) {
        m
    } else {
        m.insert(account, referrer)
    }
}

impl Contract {
    pub closed spec fn spec_owner_id(&self) -> Seq<char> {
        self.owner_id@
    }

    pub closed spec fn spec_public_key(&self) -> Seq<char> {
        self.public_key@
    }

    pub closed spec fn spec_min_mint_price(&self) -> u128 {
        self.min_mint_price
    }

    pub closed spec fn spec_max_storage_size(&self) -> u32 {
        self.max_storage_size
    }

    pub closed spec fn spec_increase_fee(&self) -> FeeFraction {
        self.mint_price_increase_fee
    }

    pub closed spec fn spec_seller_fee(&self) -> FeeFraction {
        self.seller_fee
    }

    pub closed spec fn spec_referral_1_fee(&self) -> FeeFraction {
        self.referral_1_fee
    }

    pub closed spec fn spec_referral_2_fee(&self) -> FeeFraction {
        self.referral_2_fee
    }

    pub closed spec fn spec_packages(&self) -> Seq<StoragePackage> {
        self.storage_packages@
    }

    /// Stored resale state per token id.
    pub closed spec fn token_map(&self) -> Map<Seq<char>, TokenData> {
        self.token_data@
    }

    /// Current owner per token id.
    pub closed spec fn owner_map(&self) -> Map<Seq<char>, String> {
        self.token_owners@
    }

    /// Slots in use per account: tokens held and archived generations.
    pub closed spec fn held_map(&self) -> Map<Seq<char>, u32> {
        self.held@
    }

    pub closed spec fn balance_map(&self) -> Map<Seq<char>, u128> {
        self.balances@
    }

    /// First referrer per account.
    pub closed spec fn referral_map(&self) -> Map<Seq<char>, String> {
        self.referrals@
    }

    /// Block time of each account's last accepted mint.
    pub closed spec fn last_action_map(&self) -> Map<Seq<char>, u64> {
        self.last_user_action@
    }

    /// Purchased storage per account.
    pub closed spec fn storage_map(&self) -> Map<Seq<char>, u32> {
        self.storage@
    }

    /// Whether an account keeps superseded generations of tokens it sold.
    pub closed spec fn opt_in_map(&self) -> Map<Seq<char>, bool> {
        self.store_user_tokens@
    }

    /// Archived generations as (owner, token id, generation).
    pub closed spec fn archive_seq(&self) -> Seq<(Seq<char>, Seq<char>, u32)> {
        self.archive@.map_values(|e: ArchivedToken| (e.owner@, e.item.token_id@, e.item.generation))
    }

    /// The (token id, timestamp) pairs of every accepted mint request.
    pub closed spec fn used_seq(&self) -> Seq<(Seq<char>, u64)> {
        self.used_requests@.map_values(|u: UsedRequest| (u.token_id@, u.timestamp))
    }

    pub closed spec fn wf(&self) -> bool {
        &&& self.mint_price_increase_fee.valid()
        &&& self.seller_fee.valid()
        &&& self.referral_1_fee.valid()
        &&& self.referral_2_fee.valid()
        &&& self.token_data.wf()
        &&& self.token_owners.wf()
        &&& self.held.wf()
        &&& self.balances.wf()
        &&& self.referrals.wf()
        &&& self.last_user_action.wf()
        &&& self.storage.wf()
        &&& self.store_user_tokens.wf()
        &&& entries_distinct(self.archive_seq())
    }

    /// The configuration fixed at set-up is the same in both states.
    pub open spec fn same_config(&self, other: Contract) -> bool {
        &&& self.spec_owner_id() == other.spec_owner_id()
        &&& self.spec_public_key() == other.spec_public_key()
        &&& self.spec_min_mint_price() == other.spec_min_mint_price()
        &&& self.spec_max_storage_size() == other.spec_max_storage_size()
        &&& self.spec_increase_fee() == other.spec_increase_fee()
        &&& self.spec_seller_fee() == other.spec_seller_fee()
        &&& self.spec_referral_1_fee() == other.spec_referral_1_fee()
        &&& self.spec_referral_2_fee() == other.spec_referral_2_fee()
        &&& self.spec_packages() == other.spec_packages()
    }

    pub open spec fn spec_token_data(&self, token_id: Seq<char>) -> TokenData {
        value_or(
            self.token_map(),
            token_id,
            TokenData { generation: 0, price: self.spec_min_mint_price() },
        )
    }

    pub open spec fn spec_storage(&self, account: Seq<char>) -> u32 {
        value_or(self.storage_map(), account, FREE_STORAGE_SIZE)
    }

    pub open spec fn spec_held(&self, account: Seq<char>) -> u32 {
        value_or(self.held_map(), account, 0)
    }

    pub open spec fn spec_balance(&self, account: Seq<char>) -> u128 {
        value_or(self.balance_map(), account, 0)
    }

    pub open spec fn spec_stores_tokens(&self, account: Seq<char>) -> bool {
        value_or(self.opt_in_map(), account, false)
    }

    pub open spec fn spec_archived(&self, account: Seq<char>, token_id: Seq<char>, generation: u32) -> bool {
        self.archive_seq().contains((account, token_id, generation))
    }

    /// Sets up a market. Every fee fraction must be at most one with a positive denominator.
    pub fn new(
        owner_id: String,
        public_key: String,
        min_mint_price: u128,
        mint_price_increase_fee: FeeFraction,
        seller_fee: FeeFraction,
        referral_1_fee: FeeFraction,
        referral_2_fee: FeeFraction,
        max_storage_size: u32,
        storage_packages: Vec<StoragePackage>,
    ) -> (r: Result<Contract, MintError>)
        ensures
            r.is_ok() == (mint_price_increase_fee.valid() && seller_fee.valid()
                && referral_1_fee.valid() && referral_2_fee.valid()),
            r.is_err() ==> r == Err::<Contract, MintError>(MintError::InvalidFeeFraction),
            r.is_ok() ==> {
                let c = r.unwrap();
                &&& c.wf()
                &&& c.spec_owner_id() == owner_id@
                &&& c.spec_public_key() == public_key@
                &&& c.spec_min_mint_price() == min_mint_price
                &&& c.spec_max_storage_size() == max_storage_size
                &&& c.spec_increase_fee() == mint_price_increase_fee
                &&& c.spec_seller_fee() == seller_fee
                &&& c.spec_referral_1_fee() == referral_1_fee
                &&& c.spec_referral_2_fee() == referral_2_fee
                &&& c.spec_packages() == storage_packages@
                &&& c.token_map() == Map::<Seq<char>, TokenData>::empty()
                &&& c.owner_map() == Map::<Seq<char>, String>::empty()
                &&& c.held_map() == Map::<Seq<char>, u32>::empty()
                &&& c.balance_map() == Map::<Seq<char>, u128>::empty()
                &&& c.referral_map() == Map::<Seq<char>, String>::empty()
                &&& c.last_action_map() == Map::<Seq<char>, u64>::empty()
                &&& c.storage_map() == Map::<Seq<char>, u32>::empty()
                &&& c.opt_in_map() == Map::<Seq<char>, bool>::empty()
                &&& c.archive_seq().len() == 0
                &&& c.used_seq().len() == 0
            },
    {
        if !(mint_price_increase_fee.is_valid() && seller_fee.is_valid() && referral_1_fee.is_valid()
            && referral_2_fee.is_valid()) {
            return Err(MintError::InvalidFeeFraction);
        }
        let c = Contract {
            owner_id,
            public_key,
            min_mint_price,
            max_storage_size,
            mint_price_increase_fee,
            seller_fee,
            referral_1_fee,
            referral_2_fee,
            storage_packages,
            token_data: NameMap::new(),
            token_owners: NameMap::new(),
            held: NameMap::new(),
            balances: NameMap::new(),
            referrals: NameMap::new(),
            last_user_action: NameMap::new(),
            storage: NameMap::new(),
            store_user_tokens: NameMap::new(),
            archive: Vec::new(),
            used_requests: Vec::new(),
        };
        assert(c.archive_seq().len() == 0);
        assert(c.used_seq().len() == 0);
        Ok(c)
    }

    pub fn get_public_key(&self) -> (r: &String)
        ensures
            r@ == self.spec_public_key(),
    {
        &self.public_key
    }

    /// The state a token id has before its first mint.
    pub fn get_new_token_data(&self) -> (r: TokenData)
        ensures
            r == (TokenData { generation: 0, price: self.spec_min_mint_price() }),
    {
        TokenData { generation: 0u32, price: self.min_mint_price }
    }

    pub fn get_token_data(&self, token_id: &String) -> (r: TokenData)
        requires
            self.wf(),
        ensures
            r == self.spec_token_data(token_id@),
    {
        match self.token_data.get(token_id) {
            Some(d) => *d,
            None => self.get_new_token_data(),
        }
    }

    pub fn get_token_price(&self, token_id: &String) -> (r: u128)
        requires
            self.wf(),
        ensures
            r == self.spec_token_data(token_id@).price,
    {
        self.get_token_data(token_id).price
    }

    pub fn get_token_generation(&self, token_id: &String) -> (r: u32)
        requires
            self.wf(),
        ensures
            r == self.spec_token_data(token_id@).generation,
    {
        self.get_token_data(token_id).generation
    }

    pub fn get_token_owner(&self, token_id: &String) -> (r: Option<String>)
        requires
            self.wf(),
        ensures
            r.is_some() == self.owner_map().contains_key(token_id@),
            r.is_some() ==> r.unwrap() == self.owner_map()[token_id@],
    {
        match self.token_owners.get(token_id) {
            Some(o) => Some(o.clone()),
            None => None,
        }
    }

    pub fn get_balance(&self, account_id: &String) -> (r: u128)
        requires
            self.wf(),
        ensures
            r == self.spec_balance(account_id@),
    {
        match self.balances.get(account_id) {
            Some(b) => *b,
            None => 0,
        }
    }

    /// Slots the account uses: tokens it holds and generations it archived.
    pub fn internal_total_supply_by_user(&self, account_id: &String) -> (r: u32)
        requires
            self.wf(),
        ensures
            r == self.spec_held(account_id@),
    {
        match self.held.get(account_id) {
            Some(n) => *n,
            None => 0,
        }
    }

    /// Slots the account may use: the free tier unless it bought more.
    pub fn internal_get_user_storage(&self, account_id: &String) -> (r: u32)
        requires
            self.wf(),
        ensures
            r == self.spec_storage(account_id@),
    {
        match self.storage.get(account_id) {
            Some(n) => *n,
            None => FREE_STORAGE_SIZE,
        }
    }

    pub fn get_store_user_tokens(&self, account_id: &String) -> (r: bool)
        requires
            self.wf(),
        ensures
            r == self.spec_stores_tokens(account_id@),
    {
        match self.store_user_tokens.get(account_id) {
            Some(b) => *b,
            None => false,
        }
    }

    /// Chooses whether superseded generations of the account's sold tokens are kept.
    pub fn set_store_user_tokens(&mut self, account_id: String, store: bool)
        requires
            old(self).wf(),
        ensures
            final(self).wf(),
            final(self).same_config(*old(self)),
            final(self).used_seq() == old(self).used_seq(),
            final(self).opt_in_map() == old(self).opt_in_map().insert(account_id@, store),
            final(self).referral_map() == old(self).referral_map(),
            final(self).last_action_map() == old(self).last_action_map(),
            final(self).token_map() == old(self).token_map(),
            final(self).owner_map() == old(self).owner_map(),
            final(self).held_map() == old(self).held_map(),
            final(self).balance_map() == old(self).balance_map(),
            final(self).storage_map() == old(self).storage_map(),
            final(self).archive_seq() == old(self).archive_seq(),
    {
        self.store_user_tokens.insert(account_id, store);
    }

    /// Buys the storage package at `index` for `receiver_id`, paying `deposit`.
    pub fn buy_storage(&mut self, receiver_id: String, deposit: u128, index: usize) -> (r: Result<
        (),
        MintError,
    >)
        requires
            old(self).wf(),
        ensures
            final(self).wf(),
            final(self).same_config(*old(self)),
            final(self).used_seq() == old(self).used_seq(),
            index >= old(self).spec_packages().len() ==> r == Err::<(), MintError>(
                MintError::MissingStoragePackage,
            ),
            index < old(self).spec_packages().len() && deposit < old(self).spec_packages()[index as int].price
                ==> r == Err::<(), MintError>(MintError::IllegalDeposit),
            index < old(self).spec_packages().len() && deposit >= old(self).spec_packages()[index as int].price
                && old(self).spec_storage(receiver_id@) + old(self).spec_packages()[index as int].storage_size
                > old(self).spec_max_storage_size() ==> r == Err::<(), MintError>(
                MintError::IllegalStorageToBuy,
            ),
            index < old(self).spec_packages().len() && deposit >= old(self).spec_packages()[index as int].price
                && old(self).spec_storage(receiver_id@) + old(self).spec_packages()[index as int].storage_size
                <= old(self).spec_max_storage_size() ==> r.is_ok(),
            r.is_err() ==> *final(self) == *old(self),
            r.is_ok() ==> final(self).storage_map() == old(self).storage_map().insert(
                receiver_id@,
                (old(self).spec_storage(receiver_id@) + old(self).spec_packages()[index as int].storage_size) as u32,
            ),
            r.is_ok() ==> final(self).balance_map() == old(self).balance_map()
                && final(self).held_map() == old(self).held_map()
                && final(self).token_map() == old(self).token_map()
                && final(self).owner_map() == old(self).owner_map()
                && final(self).referral_map() == old(self).referral_map()
                && final(self).last_action_map() == old(self).last_action_map()
                && final(self).opt_in_map() == old(self).opt_in_map()
                && final(self).archive_seq() == old(self).archive_seq(),
    {
        if index >= self.storage_packages.len() {
            return Err(MintError::MissingStoragePackage);
        }
        let package = self.storage_packages[index];
        if deposit < package.price {
            return Err(MintError::IllegalDeposit);
        }
        let old_storage = self.internal_get_user_storage(&receiver_id);
        let new_storage = old_storage as u64 + package.storage_size as u64;
        if new_storage > self.max_storage_size as u64 {
            return Err(MintError::IllegalStorageToBuy);
        }
        self.storage.insert(receiver_id, new_storage as u32);
        Ok(())
    }
}


impl Contract {
    /// Records `referrer_id` as the first referrer of `account_id`; a link once
    /// set is never replaced.
    pub fn register_first_referrer(&mut self, account_id: &String, referrer_id: &String)
        requires
            old(self).wf(),
        ensures
            final(self).wf(),
            final(self).same_config(*old(self)),
            final(self).used_seq() == old(self).used_seq(),
            final(self).referral_map() == referral_registered(
                old(self).referral_map(),
                account_id@,
                *referrer_id,
            ),
            final(self).token_map() == old(self).token_map(),
            final(self).owner_map() == old(self).owner_map(),
            final(self).held_map() == old(self).held_map(),
            final(self).balance_map() == old(self).balance_map(),
            final(self).storage_map() == old(self).storage_map(),
            final(self).opt_in_map() == old(self).opt_in_map(),
            final(self).last_action_map() == old(self).last_action_map(),
            final(self).archive_seq() == old(self).archive_seq(),
    {
        if !self.referrals.contains(account_id) {
            self.referrals.insert(account_id.clone(), referrer_id.clone());
        }
    }

    pub fn get_referrer(&self, account_id: &String) -> (r: Option<String>)
        requires
            self.wf(),
        ensures
            r.is_some() == self.referral_map().contains_key(account_id@),
            r.is_some() ==> r.unwrap() == self.referral_map()[account_id@],
    {
        match self.referrals.get(account_id) {
            Some(a) => Some(a.clone()),
            None => None,
        }
    }

    /// The referral chain of an account: its referrer, and that referrer's referrer.
    pub fn resolve_chain(&self, account_id: &String) -> (r: (Option<String>, Option<String>))
        requires
            self.wf(),
        ensures
            r.0.is_some() == self.referral_map().contains_key(account_id@),
            r.0.is_some() ==> r.0.unwrap() == self.referral_map()[account_id@],
            r.1.is_some() == (r.0.is_some() && self.referral_map().contains_key(r.0.unwrap()@)),
            r.1.is_some() ==> r.1.unwrap() == self.referral_map()[r.0.unwrap()@],
    {
        let first = self.get_referrer(account_id);
        let second = match &first {
            Some(a) => self.get_referrer(a),
            None => None,
        };
        (first, second)
    }

    /// Adds `amount` to the internal balance of `account_id`, capped at the largest `u128`.
    pub fn internal_add_balance(&mut self, account_id: &String, amount: u128)
        requires
            old(self).wf(),
        ensures
            final(self).wf(),
            final(self).same_config(*old(self)),
            final(self).used_seq() == old(self).used_seq(),
            final(self).balance_map() == credit(old(self).balance_map(), account_id@, amount),
            final(self).token_map() == old(self).token_map(),
            final(self).owner_map() == old(self).owner_map(),
            final(self).held_map() == old(self).held_map(),
            final(self).referral_map() == old(self).referral_map(),
            final(self).storage_map() == old(self).storage_map(),
            final(self).opt_in_map() == old(self).opt_in_map(),
            final(self).last_action_map() == old(self).last_action_map(),
            final(self).archive_seq() == old(self).archive_seq(),
            final(self).spec_owner_id() == old(self).spec_owner_id(),
    {
        let current = self.get_balance(account_id);
        self.balances.insert(account_id.clone(), current.saturating_add(amount));
    }

    pub open spec fn spec_split_fees(
        &self,
        initial_sale: bool,
        price_increase: u128,
        has_referral_1: bool,
        has_referral_2: bool,
    ) -> FeeShares {
        let seller = if initial_sale {
            0
        } else {
            self.spec_seller_fee().spec_multiply(price_increase)
        };
        let r1 = if has_referral_1 {
            self.spec_referral_1_fee().spec_multiply(price_increase)
        } else {
            0
        };
        let r2 = if has_referral_2 {
            self.spec_referral_2_fee().spec_multiply(price_increase)
        } else {
            0
        };
        let system = if seller + r1 + r2 <= price_increase {
            Some((price_increase - seller - r1 - r2) as u128)
        } else {
            None
        };
        FeeShares { seller_fee: seller, referral_1_fee: r1, referral_2_fee: r2, system_fee: system }
    }

    /// Splits a price increase into seller, referral and system shares. The
    /// system share is what is left after the others, and is skipped whole
    /// when they exceed the increase.
    pub fn split_fees(
        &self,
        initial_sale: bool,
        price_increase: u128,
        has_referral_1: bool,
        has_referral_2: bool,
    ) -> (r: FeeShares)
        requires
            self.wf(),
        ensures
            r == self.spec_split_fees(initial_sale, price_increase, has_referral_1, has_referral_2),
            r.system_fee.is_some() ==> shares_total(r) == price_increase,
            r.seller_fee <= price_increase,
            r.referral_1_fee <= price_increase,
            r.referral_2_fee <= price_increase,
    {
        let seller: u128 = if !initial_sale {
            self.seller_fee.multiply(price_increase)
        } else {
            0
        };
        let r1: u128 = if has_referral_1 {
            self.referral_1_fee.multiply(price_increase)
        } else {
            0
        };
        let r2: u128 = if has_referral_2 {
            self.referral_2_fee.multiply(price_increase)
        } else {
            0
        };
        let system: Option<u128> = match price_increase.checked_sub(seller) {
            Some(after_seller) => match after_seller.checked_sub(r1) {
                Some(after_referral_1) => after_referral_1.checked_sub(r2),
                None => None,
            },
            None => None,
        };
        FeeShares { seller_fee: seller, referral_1_fee: r1, referral_2_fee: r2, system_fee: system }
    }

    /// Shares out `price_increase`: referrers and the platform owner are credited
    /// on their internal balances; the seller's share is returned to the caller.
    pub fn manage_fees(
        &mut self,
        initial_sale: bool,
        price_increase: u128,
        referral_id_1: &Option<String>,
        referral_id_2: &Option<String>,
    ) -> (r: u128)
        requires
            old(self).wf(),
        ensures
            final(self).wf(),
            final(self).same_config(*old(self)),
            final(self).used_seq() == old(self).used_seq(),
            r == old(self).spec_split_fees(
                initial_sale,
                price_increase,
                referral_id_1.is_some(),
                referral_id_2.is_some(),
            ).seller_fee,
            r <= price_increase,
            final(self).balance_map() == fees_credited(
                old(self).balance_map(),
                old(self).spec_split_fees(
                    initial_sale,
                    price_increase,
                    referral_id_1.is_some(),
                    referral_id_2.is_some(),
                ),
                *referral_id_1,
                *referral_id_2,
                old(self).spec_owner_id(),
            ),
            final(self).token_map() == old(self).token_map(),
            final(self).owner_map() == old(self).owner_map(),
            final(self).held_map() == old(self).held_map(),
            final(self).referral_map() == old(self).referral_map(),
            final(self).storage_map() == old(self).storage_map(),
            final(self).opt_in_map() == old(self).opt_in_map(),
            final(self).last_action_map() == old(self).last_action_map(),
            final(self).archive_seq() == old(self).archive_seq(),
    {
        let shares = self.split_fees(
            initial_sale,
            price_increase,
            referral_id_1.is_some(),
            referral_id_2.is_some(),
        );
        if let Some(referral_1) = referral_id_1 {
            self.internal_add_balance(referral_1, shares.referral_1_fee);
        }
        if let Some(referral_2) = referral_id_2 {
            self.internal_add_balance(referral_2, shares.referral_2_fee);
        }
        if let Some(system_fee) = shares.system_fee {
            let owner = self.owner_id.clone();
            self.internal_add_balance(&owner, system_fee);
        }
        shares.seller_fee
    }
}


/// How many archived entries belong to `account`.
pub open spec fn count_owned(s: Seq<(Seq<char>, Seq<char>, u32)>, account: Seq<char>) -> nat
    decreases s.len(),
{
    if s.len() == 0 {
        0
    } else {
        count_owned(s.drop_last(), account) + if s.last().0 == account {
            1nat
        } else {
            0nat
        }
    }
}

/// The archived (token id, generation) pairs of `account`, in archive order.
pub open spec fn collection_of(s: Seq<(Seq<char>, Seq<char>, u32)>, account: Seq<char>) -> Seq<
    (Seq<char>, u32),
>
    decreases s.len(),
{
    if s.len() == 0 {
        Seq::empty()
    } else if s.last().0 == account {
        collection_of(s.drop_last(), account).push((s.last().1, s.last().2))
    } else {
        collection_of(s.drop_last(), account)
    }
}

pub open spec fn decremented(n: u32) -> u32 {
    if n > 0 {
        (n - 1) as u32
    } else {
        0
    }
}

impl Contract {
    fn archive_index(&self, account_id: &String, token_id: &String, generation: u32) -> (r: Option<usize>)
        requires
            self.wf(),
        ensures
            match r {
                Some(i) => i < self.archive_seq().len() && self.archive_seq()[i as int] == (
                    account_id@,
                    token_id@,
                    generation,
                ),
                None => !self.spec_archived(account_id@, token_id@, generation),
            },
    {
        let mut i: usize = 0;
        while i < self.archive.len()
            invariant
                i <= self.archive.len(),
                self.archive_seq().len() == self.archive.len(),
                forall|j: int| 0 <= j < i ==> self.archive_seq()[j] != (account_id@, token_id@, generation),
            decreases self.archive.len() - i,
        {
            let e = &self.archive[i];
            if e.owner == *account_id && e.item.token_id == *token_id && e.item.generation == generation {
                return Some(i);
            }
            i = i + 1;
        }
        None
    }

    fn set_held(&mut self, account_id: &String, n: u32)
        requires
            old(self).wf(),
        ensures
            final(self).wf(),
            final(self).same_config(*old(self)),
            final(self).used_seq() == old(self).used_seq(),
            final(self).held_map() == old(self).held_map().insert(account_id@, n),
            final(self).token_map() == old(self).token_map(),
            final(self).owner_map() == old(self).owner_map(),
            final(self).balance_map() == old(self).balance_map(),
            final(self).referral_map() == old(self).referral_map(),
            final(self).storage_map() == old(self).storage_map(),
            final(self).opt_in_map() == old(self).opt_in_map(),
            final(self).last_action_map() == old(self).last_action_map(),
            final(self).archive_seq() == old(self).archive_seq(),
            final(self).spec_owner_id() == old(self).spec_owner_id(),
            final(self).spec_min_mint_price() == old(self).spec_min_mint_price(),
    {
        self.held.insert(account_id.clone(), n);
    }

    /// Keeps generation `generation` of `token_id` in the collection of
    /// `account_id`; a generation already kept stays there once.
    pub fn store_nft(&mut self, token_id: &String, generation: u32, account_id: &String)
        requires
            old(self).wf(),
            old(self).spec_held(account_id@) < u32::MAX,
        ensures
            final(self).wf(),
            final(self).same_config(*old(self)),
            final(self).used_seq() == old(self).used_seq(),
            final(self).spec_archived(account_id@, token_id@, generation),
            old(self).spec_archived(account_id@, token_id@, generation) ==> *final(self) == *old(self),
            !old(self).spec_archived(account_id@, token_id@, generation) ==> {
                &&& final(self).archive_seq() == old(self).archive_seq().push(
                    (account_id@, token_id@, generation),
                )
                &&& final(self).held_map() == old(self).held_map().insert(
                    account_id@,
                    (old(self).spec_held(account_id@) + 1) as u32,
                )
            },
            final(self).token_map() == old(self).token_map(),
            final(self).owner_map() == old(self).owner_map(),
            final(self).balance_map() == old(self).balance_map(),
            final(self).referral_map() == old(self).referral_map(),
            final(self).storage_map() == old(self).storage_map(),
            final(self).opt_in_map() == old(self).opt_in_map(),
            final(self).last_action_map() == old(self).last_action_map(),
            final(self).spec_owner_id() == old(self).spec_owner_id(),
            final(self).spec_min_mint_price() == old(self).spec_min_mint_price(),
    {
        match self.archive_index(account_id, token_id, generation) {
            Some(i) => {
                proof {
                    assert(self.archive_seq()[i as int] == (account_id@, token_id@, generation));
                }
            },
            None => {
                let held = self.internal_total_supply_by_user(account_id);
                let ghost before = self.archive_seq();
                self.archive.push(
                    ArchivedToken {
                        owner: account_id.clone(),
                        item: CollectionItem { token_id: token_id.clone(), generation },
                    },
                );
                assert(self.archive_seq() =~= before.push((account_id@, token_id@, generation)));
                assert(self.archive_seq()[before.len() as int] == (account_id@, token_id@, generation));
                self.set_held(account_id, held + 1);
            },
        }
    }

    /// Deletes an archived generation. With `verify_data` a missing entry is an
    /// error; without it a missing entry is left alone.
    pub fn internal_remove_user_collection_item(
        &mut self,
        account_id: String,
        generation: u32,
        token_id: String,
        verify_data: bool,
    ) -> (r: Result<(), MintError>)
        requires
            old(self).wf(),
        ensures
            final(self).wf(),
            final(self).same_config(*old(self)),
            final(self).used_seq() == old(self).used_seq(),
            !old(self).spec_archived(account_id@, token_id@, generation) ==> *final(self) == *old(self)
                && r == (if verify_data {
                Err::<(), MintError>(MintError::CollectionItemNotFound)
            } else {
                Ok::<(), MintError>(())
            }),
            old(self).spec_archived(account_id@, token_id@, generation) ==> {
                &&& r.is_ok()
                &&& !final(self).spec_archived(account_id@, token_id@, generation)
                &&& forall|e: (Seq<char>, Seq<char>, u32)|
                    e != (account_id@, token_id@, generation) ==> (final(self).archive_seq().contains(e)
                        == old(self).archive_seq().contains(e))
                &&& final(self).held_map() == old(self).held_map().insert(
                    account_id@,
                    decremented(old(self).spec_held(account_id@)),
                )
                &&& final(self).token_map() == old(self).token_map()
                &&& final(self).owner_map() == old(self).owner_map()
                &&& final(self).balance_map() == old(self).balance_map()
                &&& final(self).referral_map() == old(self).referral_map()
                &&& final(self).storage_map() == old(self).storage_map()
                &&& final(self).opt_in_map() == old(self).opt_in_map()
                &&& final(self).last_action_map() == old(self).last_action_map()
            },
    {
        match self.archive_index(&account_id, &token_id, generation) {
            Some(i) => {
                let ghost before = self.archive_seq();
                let ghost target = (account_id@, token_id@, generation);
                self.archive.remove(i);
                assert(self.archive_seq() =~= before.remove(i as int));
                assert forall|a: int, b: int|
                    0 <= a < b < self.archive_seq().len() implies self.archive_seq()[a]
                    != self.archive_seq()[b] by {
                    let a0 = if a < i { a } else { a + 1 };
                    let b0 = if b < i { b } else { b + 1 };
                    assert(before[a0] != before[b0]);
                }
                assert forall|e: (Seq<char>, Seq<char>, u32)| e != target implies (
                    self.archive_seq().contains(e) == before.contains(e)) by {
                    if before.contains(e) {
                        let k = choose|k: int| 0 <= k < before.len() && before[k] == e;
                        if k < i {
                            assert(self.archive_seq()[k] == e);
                        } else {
                            assert(k != i);
                            assert(self.archive_seq()[k - 1] == e);
                        }
                    }
                    if self.archive_seq().contains(e) {
                        let k = choose|k: int| 0 <= k < self.archive_seq().len() && self.archive_seq()[k] == e;
                        if k < i {
                            assert(before[k] == e);
                        } else {
                            assert(before[k + 1] == e);
                        }
                    }
                }
                assert(!self.archive_seq().contains(target)) by {
                    if self.archive_seq().contains(target) {
                        let k = choose|k: int| 0 <= k < self.archive_seq().len() && self.archive_seq()[k] == target;
                        if k < i {
                            assert(before[k] == before[i as int]);
                        } else {
                            assert(before[k + 1] == before[i as int]);
                        }
                    }
                }
                let held = self.internal_total_supply_by_user(&account_id);
                let left: u32 = if held > 0 { held - 1 } else { 0 };
                self.set_held(&account_id, left);
                Ok(())
            },
            None => {
                if verify_data {
                    Err(MintError::CollectionItemNotFound)
                } else {
                    Ok(())
                }
            },
        }
    }

    /// The archived generations the account keeps.
    pub fn get_user_collection(&self, account_id: &String) -> (r: Vec<CollectionItem>)
        requires
            self.wf(),
        ensures
            r@.map_values(|c: CollectionItem| (c.token_id@, c.generation)) == collection_of(
                self.archive_seq(),
                account_id@,
            ),
    {
        let mut items: Vec<CollectionItem> = Vec::new();
        let mut i: usize = 0;
        while i < self.archive.len()
            invariant
                i <= self.archive.len(),
                self.archive_seq().len() == self.archive.len(),
                items@.map_values(|c: CollectionItem| (c.token_id@, c.generation)) == collection_of(
                    self.archive_seq().take(i as int),
                    account_id@,
                ),
            decreases self.archive.len() - i,
        {
            assert(self.archive_seq().take(i + 1).drop_last() =~= self.archive_seq().take(i as int));
            let e = &self.archive[i];
            if e.owner == *account_id {
                let ghost before = items@;
                items.push(CollectionItem { token_id: e.item.token_id.clone(), generation: e.item.generation });
                assert(items@.map_values(|c: CollectionItem| (c.token_id@, c.generation)) =~= before.map_values(
                    |c: CollectionItem| (c.token_id@, c.generation),
                ).push((e.item.token_id@, e.item.generation)));
            }
            i = i + 1;
        }
        assert(self.archive_seq().take(i as int) =~= self.archive_seq());
        items
    }

    /// How many archived generations the account keeps.
    pub fn get_user_collection_items(&self, account_id: &String) -> (r: usize)
        requires
            self.wf(),
        ensures
            r == count_owned(self.archive_seq(), account_id@),
    {
        let mut count: usize = 0;
        let mut i: usize = 0;
        while i < self.archive.len()
            invariant
                i <= self.archive.len(),
                count <= i,
                self.archive_seq().len() == self.archive.len(),
                count == count_owned(self.archive_seq().take(i as int), account_id@),
            decreases self.archive.len() - i,
        {
            assert(self.archive_seq().take(i + 1).drop_last() =~= self.archive_seq().take(i as int));
            if self.archive[i].owner == *account_id {
                count = count + 1;
            }
            i = i + 1;
        }
        assert(self.archive_seq().take(i as int) =~= self.archive_seq());
        count
    }
}


pub open spec fn refers_to(referral: Option<String>, account: Seq<char>) -> bool {
    match referral {
        Some(r) => r@ == account,
        None => false,
    }
}

/// The referral map after a mint request that names `referral` as first referrer.
pub open spec fn referral_after(
    m: Map<Seq<char>, String>,
    account: Seq<char>,
    referral: Option<String>,
) -> Map<Seq<char>, String> {
    match referral {
        Some(r) => referral_registered(m, account, r),
        None => m,
    }
}

impl Contract {
    fn request_used(&self, token_id: &String, timestamp: u64) -> (r: bool)
        ensures
            r == self.used_seq().contains((token_id@, timestamp)),
    {
        let mut i: usize = 0;
        while i < self.used_requests.len()
            invariant
                i <= self.used_requests.len(),
                self.used_seq().len() == self.used_requests.len(),
                forall|j: int| 0 <= j < i ==> self.used_seq()[j] != (token_id@, timestamp),
            decreases self.used_requests.len() - i,
        {
            let u = &self.used_requests[i];
            if u.token_id == *token_id && u.timestamp == timestamp {
                assert(self.used_seq()[i as int] == (token_id@, timestamp));
                return true;
            }
            i = i + 1;
        }
        false
    }

    fn record_request(&mut self, token_id: &String, timestamp: u64)
        requires
            old(self).wf(),
        ensures
            final(self).wf(),
            final(self).same_config(*old(self)),
            final(self).used_seq() == old(self).used_seq().push((token_id@, timestamp)),
            final(self).token_map() == old(self).token_map(),
            final(self).owner_map() == old(self).owner_map(),
            final(self).held_map() == old(self).held_map(),
            final(self).balance_map() == old(self).balance_map(),
            final(self).referral_map() == old(self).referral_map(),
            final(self).storage_map() == old(self).storage_map(),
            final(self).opt_in_map() == old(self).opt_in_map(),
            final(self).last_action_map() == old(self).last_action_map(),
            final(self).archive_seq() == old(self).archive_seq(),
    {
        let ghost before = self.used_seq();
        self.used_requests.push(UsedRequest { token_id: token_id.clone(), timestamp });
        assert(self.used_seq() =~= before.push((token_id@, timestamp)));
    }
}

/// Refuses a deposit below `price`.
pub fn assert_deposit(deposit: u128, price: u128) -> (r: Result<(), MintError>)
    ensures
        r.is_ok() == (deposit >= price),
        r.is_err() ==> r == Err::<(), MintError>(MintError::IllegalDeposit),
{
    if deposit >= price {
        Ok(())
    } else {
        Err(MintError::IllegalDeposit)
    }
}

impl Contract {
    /// Whether an existing token is resold by the mint of `token_id`.
    pub open spec fn is_resale(&self, token_id: Seq<char>) -> bool {
        self.owner_map().contains_key(token_id)
    }

    /// The price increase and new price of a resale of `token_id`.
    pub open spec fn resale_increase(&self, token_id: Seq<char>) -> u128 {
        self.spec_increase_fee().spec_multiply(self.spec_token_data(token_id).price)
    }

    pub open spec fn resale_price(&self, token_id: Seq<char>) -> int {
        self.spec_token_data(token_id).price + self.resale_increase(token_id)
    }

    /// The error a mint request meets, checked in order, or `None` when it is accepted.
    pub open spec fn mint_error(
        &self,
        request: MintRequest,
        signature_ok: bool,
        receiver_id: Seq<char>,
        deposit: u128,
        block_timestamp: u64,
    ) -> Option<MintError> {
        let account = request.account_id@;
        let token = request.token_id@;
        if !signature_ok {
            Some(MintError::SignatureCheckFailed)
        } else if account != receiver_id {
            Some(MintError::MintForYourselfOnly)
        } else if request.timestamp + TIMESTAMP_MAX_INTERVAL < block_timestamp {
            Some(MintError::TimestampTooOld)
        } else if self.last_action_map().contains_key(account) && request.timestamp
            <= self.last_action_map()[account] {
            Some(MintError::TimestampNotAfterLastAction)
        } else if self.used_seq().contains((token, request.timestamp)) {
            Some(MintError::RequestAlreadyUsed)
        } else if refers_to(request.referral_id_1, account) || refers_to(request.referral_id_2, account) {
            Some(MintError::SelfReferral)
        } else if self.spec_held(account) >= self.spec_storage(account) {
            Some(MintError::InsufficientStorage)
        } else if self.is_resale(token) {
            if self.resale_price(token) > u128::MAX {
                Some(MintError::PriceOverflow)
            } else if self.spec_token_data(token).generation == u32::MAX {
                Some(MintError::GenerationOverflow)
            } else if deposit < self.resale_price(token) {
                Some(MintError::IllegalDeposit)
            } else if self.owner_map()[token]@ == account {
                Some(MintError::SameOwner)
            } else {
                None
            }
        } else if deposit < self.spec_min_mint_price() {
            Some(MintError::IllegalDeposit)
        } else {
            None
        }
    }

    /// What a mint call did: `r` and the state `post` it left, from the state `pre`.
    pub open spec fn mint_effect(
        pre: Contract,
        post: Contract,
        request: MintRequest,
        signature_ok: bool,
        receiver_id: Seq<char>,
        deposit: u128,
        block_timestamp: u64,
        r: Result<MintOutcome, MintError>,
    ) -> bool {
        let account = request.account_id@;
        let token = request.token_id@;
        let err = pre.mint_error(request, signature_ok, receiver_id, deposit, block_timestamp);
        &&& r.is_err() == err.is_some()
        &&& r.is_err() ==> r == Err::<MintOutcome, MintError>(err.unwrap()) && post == pre
        &&& r.is_ok() ==> {
            &&& post.last_action_map() == pre.last_action_map().insert(account, block_timestamp)
            &&& post.used_seq() == pre.used_seq().push((token, request.timestamp))
            &&& post.referral_map() == referral_after(pre.referral_map(), account, request.referral_id_1)
            &&& post.storage_map() == pre.storage_map()
            &&& post.opt_in_map() == pre.opt_in_map()
            &&& post.owner_map() == pre.owner_map().insert(token, request.account_id)
            &&& post.spec_held(account) == pre.spec_held(account) + 1
        }
        &&& r.is_ok() && !pre.is_resale(token) ==> {
            let shares = pre.spec_split_fees(
                true,
                pre.spec_min_mint_price(),
                request.referral_id_1.is_some(),
                request.referral_id_2.is_some(),
            );
            &&& r == Ok::<MintOutcome, MintError>(MintOutcome::Minted)
            &&& post.token_map() == pre.token_map().insert(
                token,
                TokenData { generation: 0, price: pre.spec_min_mint_price() },
            )
            &&& post.balance_map() == fees_credited(
                pre.balance_map(),
                shares,
                request.referral_id_1,
                request.referral_id_2,
                pre.spec_owner_id(),
            )
            &&& post.archive_seq() == pre.archive_seq()
            &&& post.held_map() == pre.held_map().insert(account, (pre.spec_held(account) + 1) as u32)
        }
        &&& r.is_ok() && pre.is_resale(token) ==> {
            let old_data = pre.spec_token_data(token);
            let increase = pre.resale_increase(token);
            let seller = pre.owner_map()[token];
            let shares = pre.spec_split_fees(
                false,
                increase,
                request.referral_id_1.is_some(),
                request.referral_id_2.is_some(),
            );
            let keeps = pre.spec_stores_tokens(seller@) && pre.spec_held(seller@) < pre.spec_storage(
                seller@,
            );
            &&& r == Ok::<MintOutcome, MintError>(
                MintOutcome::Resold {
                    seller_id: seller,
                    seller_payout: (old_data.price + shares.seller_fee) as u128,
                },
            )
            &&& post.token_map() == pre.token_map().insert(
                token,
                TokenData {
                    generation: (old_data.generation + 1) as u32,
                    price: pre.resale_price(token) as u128,
                },
            )
            &&& post.balance_map() == fees_credited(
                pre.balance_map(),
                shares,
                request.referral_id_1,
                request.referral_id_2,
                pre.spec_owner_id(),
            )
            &&& keeps ==> post.spec_archived(seller@, token, old_data.generation)
            &&& keeps && !pre.spec_archived(seller@, token, old_data.generation) ==> post.archive_seq()
                == pre.archive_seq().push((seller@, token, old_data.generation))
            &&& !keeps || pre.spec_archived(seller@, token, old_data.generation) ==> post.archive_seq()
                == pre.archive_seq()
            &&& forall|a: Seq<char>|
                a != account && a != seller@ ==> #[trigger] post.spec_held(a) == pre.spec_held(a)
            &&& post.spec_held(seller@) == decremented(
                if keeps && !pre.spec_archived(seller@, token, old_data.generation) {
                    (pre.spec_held(seller@) + 1) as u32
                } else {
                    pre.spec_held(seller@)
                },
            )
        }
    }

    /// Decodes the market's public key and a request signature from hex, for
    /// the signature check.
    pub fn verification_inputs(&self, signature: &String) -> (r: Result<(Vec<u8>, Vec<u8>), MintError>)
        ensures
            r.is_ok() == (is_hex_text(self.spec_public_key()) && hex_bytes(self.spec_public_key()).len()
                == PUBLIC_KEY_LEN && is_hex_text(signature@) && hex_bytes(signature@).len()
                == SIGNATURE_LEN),
            r.is_ok() ==> r.unwrap().0@ == hex_bytes(self.spec_public_key()) && r.unwrap().1@
                == hex_bytes(signature@),
            !is_hex_text(self.spec_public_key()) ==> r == Err::<(Vec<u8>, Vec<u8>), MintError>(
                MintError::PublicKeyNotHex,
            ),
            is_hex_text(self.spec_public_key()) && hex_bytes(self.spec_public_key()).len()
                != PUBLIC_KEY_LEN ==> r == Err::<(Vec<u8>, Vec<u8>), MintError>(
                MintError::PublicKeyLength,
            ),
            is_hex_text(self.spec_public_key()) && hex_bytes(self.spec_public_key()).len()
                == PUBLIC_KEY_LEN && !is_hex_text(signature@) ==> r == Err::<
                (Vec<u8>, Vec<u8>),
                MintError,
            >(MintError::SignatureNotHex),
            is_hex_text(self.spec_public_key()) && hex_bytes(self.spec_public_key()).len()
                == PUBLIC_KEY_LEN && is_hex_text(signature@) && hex_bytes(signature@).len()
                != SIGNATURE_LEN ==> r == Err::<(Vec<u8>, Vec<u8>), MintError>(
                MintError::SignatureLength,
            ),
    {
        let pk = match decode_public_key(&self.public_key) {
            Ok(b) => b,
            Err(e) => {
                return Err(e);
            },
        };
        let sig = match decode_signature(signature) {
            Ok(b) => b,
            Err(e) => {
                return Err(e);
            },
        };
        Ok((pk, sig))
    }

    /// Mints `request.token_id` for the buyer `receiver_id`, who attached
    /// `deposit`, at block time `block_timestamp`; `signature_ok` is the outcome
    /// of the signature check on the request. A first mint creates the token at
    /// the minimum price. A resale raises the price by the increase fraction,
    /// shares the increase out, keeps the old generation for a seller who opted
    /// in and has room, and moves the token to the buyer. A refused request
    /// changes nothing.
    pub fn nft_mint(
        &mut self,
        request: &MintRequest,
        signature_ok: bool,
        receiver_id: &String,
        deposit: u128,
        block_timestamp: u64,
    ) -> (r: Result<MintOutcome, MintError>)
        requires
            old(self).wf(),
        ensures
            final(self).wf(),
            final(self).same_config(*old(self)),
            Contract::mint_effect(
                *old(self),
                *final(self),
                *request,
                signature_ok,
                receiver_id@,
                deposit,
                block_timestamp,
                r,
            ),
    {
        let account = &request.account_id;
        let token_id = &request.token_id;
        if !signature_ok {
            return Err(MintError::SignatureCheckFailed);
        }
        if *account != *receiver_id {
            return Err(MintError::MintForYourselfOnly);
        }
        if (request.timestamp as u128) + (TIMESTAMP_MAX_INTERVAL as u128) < block_timestamp as u128 {
            return Err(MintError::TimestampTooOld);
        }
        if let Some(last) = self.last_user_action.get(account) {
            if request.timestamp <= *last {
                return Err(MintError::TimestampNotAfterLastAction);
            }
        }
        if self.request_used(token_id, request.timestamp) {
            return Err(MintError::RequestAlreadyUsed);
        }
        let self_referral_1 = match &request.referral_id_1 {
            Some(r) => *r == *account,
            None => false,
        };
        let self_referral_2 = match &request.referral_id_2 {
            Some(r) => *r == *account,
            None => false,
        };
        if self_referral_1 || self_referral_2 {
            return Err(MintError::SelfReferral);
        }
        let buyer_storage_size = self.internal_get_user_storage(account);
        let buyer_storage_used = self.internal_total_supply_by_user(account);
        if buyer_storage_used >= buyer_storage_size {
            return Err(MintError::InsufficientStorage);
        }
        match self.get_token_owner(token_id) {
            Some(seller_id) => {
                let token_data = self.get_token_data(token_id);
                let old_price = token_data.price;
                let old_generation = token_data.generation;
                let price_increase = self.mint_price_increase_fee.multiply(old_price);
                let new_price = match old_price.checked_add(price_increase) {
                    Some(p) => p,
                    None => {
                        return Err(MintError::PriceOverflow);
                    },
                };
                if old_generation == u32::MAX {
                    return Err(MintError::GenerationOverflow);
                }
                if let Err(e) = assert_deposit(deposit, new_price) {
                    return Err(e);
                }
                if seller_id == *account {
                    return Err(MintError::SameOwner);
                }
                self.last_user_action.insert(account.clone(), block_timestamp);
        self.record_request(token_id, request.timestamp);
                if let Some(referral_1) = &request.referral_id_1 {
                    self.register_first_referrer(account, referral_1);
                }
                let seller_storage_size = self.internal_get_user_storage(&seller_id);
                let seller_storage_used = self.internal_total_supply_by_user(&seller_id);
                if self.get_store_user_tokens(&seller_id) && seller_storage_used < seller_storage_size {
                    self.store_nft(token_id, old_generation, &seller_id);
                }
                self.token_data.insert(
                    token_id.clone(),
                    TokenData { generation: old_generation + 1, price: new_price },
                );
                let seller_fee = self.manage_fees(
                    false,
                    price_increase,
                    &request.referral_id_1,
                    &request.referral_id_2,
                );
                self.token_owners.insert(token_id.clone(), account.clone());
                let seller_held = self.internal_total_supply_by_user(&seller_id);
                let seller_left: u32 = if seller_held > 0 { seller_held - 1 } else { 0 };
                self.set_held(&seller_id, seller_left);
                self.set_held(account, buyer_storage_used + 1);
                Ok(MintOutcome::Resold { seller_id, seller_payout: old_price + seller_fee })
            },
            None => {
                let min_price = self.min_mint_price;
                if let Err(e) = assert_deposit(deposit, min_price) {
                    return Err(e);
                }
                self.last_user_action.insert(account.clone(), block_timestamp);
        self.record_request(token_id, request.timestamp);
                if let Some(referral_1) = &request.referral_id_1 {
                    self.register_first_referrer(account, referral_1);
                }
                self.manage_fees(true, min_price, &request.referral_id_1, &request.referral_id_2);
                self.token_data.insert(token_id.clone(), TokenData { generation: 0, price: min_price });
                self.token_owners.insert(token_id.clone(), account.clone());
                self.set_held(account, buyer_storage_used + 1);
                Ok(MintOutcome::Minted)
            },
        }
    }
}


impl Contract {
    /// Settles a seller payout that was sent outside the market: a failed
    /// transfer is credited back to the seller's internal balance, so the
    /// amount is neither lost nor paid twice.
    pub fn resolve_payout(&mut self, seller_id: &String, amount: u128, succeeded: bool)
        requires
            old(self).wf(),
        ensures
            final(self).wf(),
            final(self).same_config(*old(self)),
            final(self).used_seq() == old(self).used_seq(),
            succeeded ==> *final(self) == *old(self),
            !succeeded ==> final(self).balance_map() == credit(old(self).balance_map(), seller_id@, amount),
            final(self).token_map() == old(self).token_map(),
            final(self).owner_map() == old(self).owner_map(),
            final(self).held_map() == old(self).held_map(),
            final(self).archive_seq() == old(self).archive_seq(),
            final(self).referral_map() == old(self).referral_map(),
            final(self).storage_map() == old(self).storage_map(),
            final(self).opt_in_map() == old(self).opt_in_map(),
            final(self).last_action_map() == old(self).last_action_map(),
    {
        if !succeeded {
            self.internal_add_balance(seller_id, amount);
        }
    }
}


impl Contract {
    pub proof fn lemma_fees_valid(&self)
        requires
            self.wf(),
        ensures
            self.spec_increase_fee().valid(),
            self.spec_seller_fee().valid(),
            self.spec_referral_1_fee().valid(),
            self.spec_referral_2_fee().valid(),
    {
    }

    pub proof fn lemma_archive_distinct(&self)
        requires
            self.wf(),
        ensures
            entries_distinct(self.archive_seq()),
    {
    }
}


impl Contract {
    /// Why a signature over `message` is refused, or `None` when it is accepted.
    pub open spec fn signature_error(&self, message: Seq<char>, signature: Seq<char>) -> Option<MintError> {
        let key = self.spec_public_key();
        if !is_hex_text(key) {
            Some(MintError::PublicKeyNotHex)
        } else if hex_bytes(key).len() != PUBLIC_KEY_LEN {
            Some(MintError::PublicKeyLength)
        } else if !is_hex_text(signature) {
            Some(MintError::SignatureNotHex)
        } else if hex_bytes(signature).len() != SIGNATURE_LEN {
            Some(MintError::SignatureLength)
        } else if !ed25519_valid(hex_bytes(signature), message, hex_bytes(key)) {
            Some(MintError::SignatureCheckFailed)
        } else {
            None
        }
    }

    /// Checks that `signature` (hex) signs `message` under the market's public key.
    pub fn check_signature(&self, message: &String, signature: &String) -> (r: Result<(), MintError>)
        ensures
            r.is_ok() == self.signature_error(message@, signature@).is_none(),
            r.is_err() ==> r == Err::<(), MintError>(self.signature_error(message@, signature@).unwrap()),
    {
        let (pk, sig) = match self.verification_inputs(signature) {
            Ok(p) => p,
            Err(e) => {
                return Err(e);
            },
        };
        if verification(&pk, message, &sig) {
            Ok(())
        } else {
            Err(MintError::SignatureCheckFailed)
        }
    }

    /// Mints on a signed request: `message` is the signed text and `request`
    /// its decoded fields. A refused signature changes nothing; otherwise the
    /// mint runs as `nft_mint` with an accepted signature.
    pub fn nft_mint_signed(
        &mut self,
        message: &String,
        signature: &String,
        request: &MintRequest,
        receiver_id: &String,
        deposit: u128,
        block_timestamp: u64,
    ) -> (r: Result<MintOutcome, MintError>)
        requires
            old(self).wf(),
        ensures
            final(self).wf(),
            final(self).same_config(*old(self)),
            old(self).signature_error(message@, signature@).is_some() ==> r == Err::<
                MintOutcome,
                MintError,
            >(old(self).signature_error(message@, signature@).unwrap()) && *final(self) == *old(self),
            old(self).signature_error(message@, signature@).is_none() ==> Contract::mint_effect(
                *old(self),
                *final(self),
                *request,
                true,
                receiver_id@,
                deposit,
                block_timestamp,
                r,
            ),
    {
        if let Err(e) = self.check_signature(message, signature) {
            return Err(e);
        }
        self.nft_mint(request, true, receiver_id, deposit, block_timestamp)
    }
}

} // verus!
