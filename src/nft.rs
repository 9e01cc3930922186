//! The NFT contract: owner NFTs gated on a fungible-token balance, a quota
//! of invite NFTs per owner, and hand-off of the owner NFT into custody when
//! the owner creates a pool.
use vstd::prelude::*;

use crate::account::{
    account_id_is_valid, pool_name, pool_name_of, subaccount, subaccount_of, valid_account_id,
};
use crate::decimal::{dec, decimal_string};
use crate::table::{entries_map, lemma_entries_map_key, lookup, AccountTable};

verus! {

/// Version tag of the NFT metadata standard.
pub const NFT_METADATA_SPEC: &'static str = "nft-1.0.0";

/// Icon advertised in the contract metadata.
pub const NFT_ICON: &'static str = "data:image/svg+xml,%3Csvg xmlns='http://www.w3.org/2000/svg' viewBox='0 0 288 288'%3E%3Cg id='l' data-name='l'%3E%3Cpath d='M187.58,79.81l-30.1,44.69a3.2,3.2,0,0,0,4.75,4.2L191.86,103a1.2,1.2,0,0,1,2,.91v80.46a1.2,1.2,0,0,1-2.12.77L102.18,77.93A15.35,15.35,0,0,0,90.47,72.5H87.34A15.34,15.34,0,0,0,72,87.84V201.16A15.34,15.34,0,0,0,87.34,216.5h0a15.35,15.35,0,0,0,13.08-7.31l30.1-44.69a3.2,3.2,0,0,0-4.75-4.2L96.14,186a1.2,1.2,0,0,1-2-.91V104.61a1.2,1.2,0,0,1,2.12-.77l89.55,107.23a15.35,15.35,0,0,0,11.71,5.43h3.13A15.34,15.34,0,0,0,216,201.16V87.84A15.34,15.34,0,0,0,200.66,72.5h0A15.35,15.35,0,0,0,187.58,79.81Z'/%3E%3C/g%3E%3C/svg%3E";

/// The fungible-token contract whose balances gate minting.
pub const FT_CONTRACT: &'static str = "nfterc20contract.somenewname.testnet";

/// Invites granted with each owner NFT.
pub const INITIAL_INVITES: u64 = 2;

/// Least fungible-token balance that allows an owner NFT to be minted.
pub const MIN_BALANCE: u128 = 0;

/// Gas attached to the balance query and to the invite transfer.
pub const FT_CALL_GAS: u64 = 5_000_000_000_000;

/// Gas attached to the mint and invite callbacks.
pub const CALLBACK_GAS: u64 = 9_000_000_000_000;

/// Deposit attached to the mint callback, for the storage of the new token.
pub const MINT_CALLBACK_DEPOSIT: u128 = 7_620_000_000_000_000_000_000;

/// Deposit attached to the invite callback, for the storage of the new token.
pub const INVITE_CALLBACK_DEPOSIT: u128 = 7_630_000_000_000_000_000_000;

/// Fungible tokens moved to an invitee.
pub const INVITE_AMOUNT: u128 = 1;

#[derive(PartialEq, Eq, Structural, Debug, Clone, Copy)]
pub enum NftError {
    /// An account id that is not well formed.
    InvalidAccountId,
    /// The callback's promise did not succeed or its result does not decode.
    MalformedCallbackResult,
    /// The fungible-token balance is below the minimum.
    InsufficientBalance,
    /// The account already holds an owner NFT.
    AlreadyMinted,
    /// The account holds no owner NFT.
    NoOwnerNft,
    /// The account has no invites left, or never held an owner NFT.
    NoInvitesRemaining,
    /// The token is not owned by the account that would transfer it.
    TransferFailed,
    /// The token id counter cannot advance any further.
    TokenIdsExhausted,
}

/// What the host reports of the promise a callback was chained to.
pub enum PromiseResult {
    NotReady,
    Failed,
    Successful(Vec<u8>),
}

/// Descriptor of the whole token collection.
pub struct NftContractMetadata {
    pub spec: String,
    pub name: String,
    pub symbol: String,
    pub icon: Option<String>,
    pub base_uri: Option<String>,
    pub reference: Option<String>,
}

/// Metadata of one token.
pub struct TokenMetadata {
    pub title: Option<String>,
    pub description: Option<String>,
    pub copies: Option<u64>,
    pub starts_at: Option<String>,
    pub updated_at: Option<String>,
    pub media: Option<String>,
    pub media_hash: Option<Vec<u8>>,
}

/// A freshly minted token.
pub struct Token {
    pub token_id: String,
    pub owner_id: String,
    pub metadata: TokenMetadata,
}

/// Plan of `mint`: ask the fungible-token contract for the caller's balance,
/// then run `nft_mint_callback` on this contract.
pub struct BalanceQuery {
    pub ft_contract: String,
    pub account_id: String,
    pub query_gas: u64,
    pub ipfs_hash: String,
    pub callback_deposit: u128,
    pub callback_gas: u64,
}

/// Plan of `invite`: move fungible tokens to the invitee, then run
/// `invite_other_callback` on this contract.
pub struct InviteTransfer {
    pub ft_contract: String,
    pub invitee: String,
    pub amount: u128,
    pub transfer_gas: u64,
    pub caller: String,
    pub callback_deposit: u128,
    pub callback_gas: u64,
}

/// Plan of `create_pool`: call `new_pool` on the pool contract.
pub struct PoolCall {
    /// The owner NFT that moved into custody, in base 10.
    pub token_id: String,
    pub pool_id: String,
    pub pool_name: String,
    pub owner_id: String,
    pub roomsize: u128,
    pub gas: u64,
    /// The sub-account that the pool contract derives and returns.
    pub subaccount: String,
}

/// `o` holds a string whose text is `s`.
pub open spec fn holds_text(o: Option<String>, s: Seq<char>) -> bool {
    match o {
        Some(x) => x@ == s,
        None => false,
    }
}

fn clone_opt(o: &Option<String>) -> (r: Option<String>)
    ensures
        r == *o,
{
    match o {
        Some(s) => Some(s.clone()),
        None => None,
    }
}

/// The balance that a JSON-encoded `U128` (a quoted base-10 integer) holds,
/// or `None` where the bytes are no such value.
pub uninterp spec fn balance_from_json(b: Seq<u8>) -> Option<u128>;

/// Relies on `near_sdk::serde_json::from_slice::<near_sdk::json_types::U128>`,
/// which decodes the balance returned by the fungible-token contract; its
/// outcome depends on the bytes alone.
#[verifier::external_body]
fn decode_balance(b: &Vec<u8>) -> (r: Option<u128>)
    ensures
        r == balance_from_json(b@),
{
    near_sdk::serde_json::from_slice::<near_sdk::json_types::U128>(b).ok().map(|v| v.0)
}

/// The metadata of the owner NFT minted to `receiver`.
pub open spec fn is_owner_metadata(
    m: TokenMetadata,
    receiver: Seq<char>,
    ipfs_hash: Seq<char>,
    block_timestamp: u64,
    media_hash: Vec<u8>,
) -> bool {
    &&& holds_text(m.title, "ownerNft"@)
    &&& holds_text(m.description, "owner nft for "@ + receiver)
    &&& m.copies == Some(1u64)
    &&& holds_text(m.starts_at, dec(block_timestamp as nat))
    &&& holds_text(m.updated_at, dec(block_timestamp as nat))
    &&& holds_text(m.media, ipfs_hash)
    &&& m.media_hash == Some(media_hash)
}

/// The metadata of an invite NFT handed out by `caller`.
pub open spec fn is_invite_metadata(m: TokenMetadata, caller: Seq<char>, block_timestamp: u64) -> bool {
    &&& holds_text(m.title, "inviteNft"@)
    &&& holds_text(m.description, "invited by "@ + caller)
    &&& m.copies == Some(1u64)
    &&& holds_text(m.starts_at, dec(block_timestamp as nat))
    &&& holds_text(m.updated_at, dec(block_timestamp as nat))
    &&& m.media is None
    &&& m.media_hash is None
}

fn owner_metadata(
    receiver: &String,
    ipfs_hash: &String,
    block_timestamp: u64,
    media_hash: Vec<u8>,
) -> (m: TokenMetadata)
    ensures
        is_owner_metadata(m, receiver@, ipfs_hash@, block_timestamp, media_hash),
{
    let mut description = String::from_str("owner nft for ");
    description.append(receiver.as_str());
    TokenMetadata {
        title: Some(String::from_str("ownerNft")),
        description: Some(description),
        copies: Some(1),
        starts_at: Some(decimal_string(block_timestamp)),
        updated_at: Some(decimal_string(block_timestamp)),
        media: Some(ipfs_hash.clone()),
        media_hash: Some(media_hash),
    }
}

fn invite_metadata(caller: &String, block_timestamp: u64) -> (m: TokenMetadata)
    ensures
        is_invite_metadata(m, caller@, block_timestamp),
{
    let mut description = String::from_str("invited by ");
    description.append(caller.as_str());
    TokenMetadata {
        title: Some(String::from_str("inviteNft")),
        description: Some(description),
        copies: Some(1),
        starts_at: Some(decimal_string(block_timestamp)),
        updated_at: Some(decimal_string(block_timestamp)),
        media: None,
        media_hash: None,
    }
}

/// The contract's state as plain values, for the host to store between calls.
pub struct ContractParts {
    pub contract_account: String,
    pub contract_owner: String,
    pub metadata: NftContractMetadata,
    pub token_id_counter: u64,
    /// Owner NFT ids by account; a later entry overrides an earlier one.
    pub owner_nfts: Vec<(String, u64)>,
    /// Invites left by account; a later entry overrides an earlier one.
    pub invite_counts: Vec<(String, u64)>,
    /// The owner of token `i + 1` at index `i`.
    pub token_owners: Vec<String>,
}

/// The owner NFT that `parts` records for `account`, if any, is a minted
/// token held by `account` or by the contract.
pub open spec fn parts_owner_entry_ok(parts: &ContractParts, account: Seq<char>) -> bool {
    let m = entries_map(parts.owner_nfts@);
    m.contains_key(account) ==> {
        let t = m[account] as int;
        &&& 1 <= t <= parts.token_owners@.len()
        &&& (parts.token_owners@[t - 1]@ == account
            || parts.token_owners@[t - 1]@ == parts.contract_account@)
    }
}

/// The invites that `parts` records for `account`, if any, are within the grant.
pub open spec fn parts_invite_entry_ok(parts: &ContractParts, account: Seq<char>) -> bool {
    let m = entries_map(parts.invite_counts@);
    m.contains_key(account) ==> m[account] <= INITIAL_INVITES
}

/// `parts` describes a state that meets the contract's invariant.
pub open spec fn parts_valid(parts: &ContractParts) -> bool {
    &&& parts.token_owners@.len() == parts.token_id_counter
    &&& forall|a: Seq<char>| #[trigger] parts_owner_entry_ok(parts, a)
    &&& forall|a: Seq<char>| #[trigger] parts_invite_entry_ok(parts, a)
}

/// The NFT contract's state.
pub struct Contract {
    contract_account: String,
    contract_owner: String,
    metadata: NftContractMetadata,
    token_id_counter: u64,
    owner_nft_store: AccountTable,
    invite_counts: AccountTable,
    token_owners: Vec<String>,
}

impl Contract {
    /// The account this contract runs on; it holds owner NFTs in custody.
    pub closed spec fn account(&self) -> Seq<char> {
        self.contract_account@
    }

    /// The account that deployed the contract.
    pub closed spec fn owner(&self) -> Seq<char> {
        self.contract_owner@
    }

    pub closed spec fn metadata_of(&self) -> NftContractMetadata {
        self.metadata
    }

    /// The id of the last token minted (0 before the first).
    pub closed spec fn counter(&self) -> nat {
        self.token_id_counter as nat
    }

    /// Each account that holds an owner NFT, with that NFT's id.
    pub closed spec fn owner_nfts(&self) -> Map<Seq<char>, u64> {
        self.owner_nft_store@
    }

    /// The invites each owner has left.
    pub closed spec fn invites(&self) -> Map<Seq<char>, u64> {
        self.invite_counts@
    }

    /// The owners of the tokens by id: token `i + 1` belongs to entry `i`.
    pub closed spec fn token_owner_seq(&self) -> Seq<Seq<char>> {
        self.token_owners@.map_values(|s: String| s@)
    }

    /// The owner of token `id`, if it was minted.
    pub open spec fn owner_of(&self, id: nat) -> Option<Seq<char>> {
        if 1 <= id <= self.token_owner_seq().len() {
            Some(self.token_owner_seq()[id - 1])
        } else {
            None
        }
    }

    /// The state's invariant: the tokens are numbered 1 to the counter, each
    /// owner NFT is held by its account or in the contract's custody, and no
    /// account has more invites than an owner NFT grants.
    pub open spec fn wf(&self) -> bool {
        &&& self.token_owner_seq().len() == self.counter()
        &&& forall|a: Seq<char>| #[trigger] self.owner_nfts().contains_key(a) ==> {
            let t = self.owner_nfts()[a] as nat;
            self.owner_of(t) == Some(a) || self.owner_of(t) == Some(self.account())
        }
        &&& forall|a: Seq<char>| #[trigger] self.invites().contains_key(a)
            ==> self.invites()[a] <= INITIAL_INVITES
    }

    /// The parts of the state that only initialisation sets.
    pub open spec fn same_setup(&self, other: &Contract) -> bool {
        &&& self.account() == other.account()
        &&& self.owner() == other.owner()
        &&& self.metadata_of() == other.metadata_of()
    }

    /// Initialises the contract running on `contract_account` and owned by
    /// `owner_id`, with no tokens.
    pub fn new(
        contract_account: String,
        owner_id: String,
        name: String,
        symbol: String,
        base_uri: String,
    ) -> (r: Result<Contract, NftError>)
        ensures
            r is Ok <==> valid_account_id(owner_id@),
            r is Err ==> r == Err::<Contract, NftError>(NftError::InvalidAccountId),
            r matches Ok(c) ==> {
                &&& c.wf()
                &&& c.account() == contract_account@
                &&& c.owner() == owner_id@
                &&& c.counter() == 0
                &&& c.owner_nfts() == Map::<Seq<char>, u64>::empty()
                &&& c.invites() == Map::<Seq<char>, u64>::empty()
                &&& c.metadata_of().spec@ == NFT_METADATA_SPEC@
                &&& c.metadata_of().name == name
                &&& c.metadata_of().symbol == symbol
                &&& holds_text(c.metadata_of().icon, NFT_ICON@)
                &&& c.metadata_of().base_uri == Some(base_uri)
                &&& c.metadata_of().reference is None
            },
    {
        if !account_id_is_valid(&owner_id) {
            return Err(NftError::InvalidAccountId);
        }
        let metadata = NftContractMetadata {
            spec: String::from_str(NFT_METADATA_SPEC),
            name,
            symbol,
            icon: Some(String::from_str(NFT_ICON)),
            base_uri: Some(base_uri),
            reference: None,
        };
        let c = Contract {
            contract_account,
            contract_owner: owner_id,
            metadata,
            token_id_counter: 0,
            owner_nft_store: AccountTable::new(),
            invite_counts: AccountTable::new(),
            token_owners: Vec::new(),
        };
        proof {
            assert(c.token_owner_seq() =~= Seq::<Seq<char>>::empty());
        }
        Ok(c)
    }

    /// The collection's metadata.
    pub fn nft_metadata(&self) -> (r: NftContractMetadata)
        ensures
            r == self.metadata_of(),
    {
        NftContractMetadata {
            spec: self.metadata.spec.clone(),
            name: self.metadata.name.clone(),
            symbol: self.metadata.symbol.clone(),
            icon: clone_opt(&self.metadata.icon),
            base_uri: clone_opt(&self.metadata.base_uri),
            reference: clone_opt(&self.metadata.reference),
        }
    }


    /// `after` is this state with one more token, owned by `owner`, and
    /// with the counter advanced to its id.
    pub open spec fn minted(&self, after: &Contract, owner: Seq<char>) -> bool {
        &&& after.same_setup(self)
        &&& after.counter() == self.counter() + 1
        &&& after.token_owner_seq() == self.token_owner_seq().push(owner)
    }

    /// Appends a token owned by `owner`, numbered one past the counter.
    fn push_token(&mut self, owner: &String) -> (id: u64)
        requires
            old(self).wf(),
            old(self).counter() < u64::MAX,
        ensures
            id == final(self).counter(),
            old(self).minted(final(self), owner@),
            final(self).owner_nfts() == old(self).owner_nfts(),
            final(self).invites() == old(self).invites(),
    {
        let ghost before = self.token_owners@;
        self.token_id_counter = self.token_id_counter + 1;
        self.token_owners.push(owner.clone());
        proof {
            assert(self.token_owners@.map_values(|s: String| s@)
                =~= before.map_values(|s: String| s@).push(owner@));
        }
        self.token_id_counter
    }

    /// The error, if any, of minting an owner NFT to `receiver` once the
    /// balance query has returned `balance`.
    pub open spec fn mint_error(&self, receiver: Seq<char>, balance: Option<u128>) -> Option<NftError> {
        match balance {
            None => Some(NftError::MalformedCallbackResult),
            Some(b) => if b < MIN_BALANCE {
                Some(NftError::InsufficientBalance)
            } else if self.owner_nfts().contains_key(receiver) {
                Some(NftError::AlreadyMinted)
            } else if self.counter() >= u64::MAX {
                Some(NftError::TokenIdsExhausted)
            } else {
                None
            },
        }
    }

    /// Starts minting an owner NFT to `predecessor`: the plan queries the
    /// caller's fungible-token balance and chains `nft_mint_callback`.
    pub fn nft_mint(&self, predecessor: &String, ipfs_hash: String) -> (r: Result<
        BalanceQuery,
        NftError,
    >)
        ensures
            r is Ok <==> valid_account_id(predecessor@),
            r is Err ==> r == Err::<BalanceQuery, NftError>(NftError::InvalidAccountId),
            r matches Ok(q) ==> {
                &&& q.ft_contract@ == FT_CONTRACT@
                &&& q.account_id@ == predecessor@
                &&& q.query_gas == FT_CALL_GAS
                &&& q.ipfs_hash == ipfs_hash
                &&& q.callback_deposit == MINT_CALLBACK_DEPOSIT
                &&& q.callback_gas == CALLBACK_GAS
            },
    {
        if !account_id_is_valid(predecessor) {
            return Err(NftError::InvalidAccountId);
        }
        Ok(BalanceQuery {
            ft_contract: String::from_str(FT_CONTRACT),
            account_id: predecessor.clone(),
            query_gas: FT_CALL_GAS,
            ipfs_hash,
            callback_deposit: MINT_CALLBACK_DEPOSIT,
            callback_gas: CALLBACK_GAS,
        })
    }

    /// Completes a mint once the balance is known: gives `receiver` an owner
    /// NFT numbered one past the counter, and two invites.
    pub fn mint_owner_nft(
        &mut self,
        receiver_id: String,
        ipfs_hash: String,
        balance: Option<u128>,
        block_timestamp: u64,
        media_hash: Vec<u8>,
    ) -> (r: Result<Token, NftError>)
        requires
            old(self).wf(),
        ensures
            final(self).wf(),
            final(self).counter() >= old(self).counter(),
            match old(self).mint_error(receiver_id@, balance) {
                Some(e) => r == Err::<Token, NftError>(e) && *final(self) == *old(self),
                None => {
                    &&& r is Ok
                    &&& old(self).minted(final(self), receiver_id@)
                    &&& final(self).owner_nfts() == old(self).owner_nfts().insert(
                        receiver_id@,
                        final(self).counter() as u64,
                    )
                    &&& final(self).invites() == old(self).invites().insert(
                        receiver_id@,
                        INITIAL_INVITES,
                    )
                },
            },
            r matches Ok(t) ==> {
                &&& t.token_id@ == dec(final(self).counter())
                &&& t.owner_id@ == receiver_id@
                &&& is_owner_metadata(
                    t.metadata,
                    receiver_id@,
                    ipfs_hash@,
                    block_timestamp,
                    media_hash,
                )
            },
    {
        let b = match balance {
            Some(b) => b,
            None => {
                return Err(NftError::MalformedCallbackResult);
            },
        };
        if b < MIN_BALANCE {
            return Err(NftError::InsufficientBalance);
        }
        if self.owner_nft_store.get(&receiver_id).is_some() {
            return Err(NftError::AlreadyMinted);
        }
        if self.token_id_counter == u64::MAX {
            return Err(NftError::TokenIdsExhausted);
        }
        let metadata = owner_metadata(&receiver_id, &ipfs_hash, block_timestamp, media_hash);
        let id = self.push_token(&receiver_id);
        self.invite_counts.insert(&receiver_id, INITIAL_INVITES);
        self.owner_nft_store.insert(&receiver_id, id);
        Ok(Token { token_id: decimal_string(id), owner_id: receiver_id, metadata })
    }

    /// The callback of `nft_mint`: decodes the balance that the
    /// fungible-token contract returned and completes the mint as
    /// `mint_owner_nft` does.
    pub fn nft_mint_callback(
        &mut self,
        receiver_id: String,
        ipfs_hash: String,
        result: PromiseResult,
        block_timestamp: u64,
        media_hash: Vec<u8>,
    ) -> (r: Result<Token, NftError>)
        requires
            old(self).wf(),
        ensures
            final(self).wf(),
            final(self).counter() >= old(self).counter(),
            !(result is Successful) ==> r == Err::<Token, NftError>(
                NftError::MalformedCallbackResult,
            ) && *final(self) == *old(self),
            result matches PromiseResult::Successful(bytes) ==> match old(self).mint_error(
                receiver_id@,
                balance_from_json(bytes@),
            ) {
                Some(e) => r == Err::<Token, NftError>(e) && *final(self) == *old(self),
                None => {
                    &&& r is Ok
                    &&& old(self).minted(final(self), receiver_id@)
                    &&& final(self).owner_nfts() == old(self).owner_nfts().insert(
                        receiver_id@,
                        final(self).counter() as u64,
                    )
                    &&& final(self).invites() == old(self).invites().insert(
                        receiver_id@,
                        INITIAL_INVITES,
                    )
                },
            },
            r matches Ok(t) ==> {
                &&& t.token_id@ == dec(final(self).counter())
                &&& t.owner_id@ == receiver_id@
                &&& is_owner_metadata(
                    t.metadata,
                    receiver_id@,
                    ipfs_hash@,
                    block_timestamp,
                    media_hash,
                )
            },
    {
        let balance = match &result {
            PromiseResult::Successful(bytes) => decode_balance(bytes),
            _ => {
                return Err(NftError::MalformedCallbackResult);
            },
        };
        self.mint_owner_nft(receiver_id, ipfs_hash, balance, block_timestamp, media_hash)
    }


    /// `account` has at least one invite left.
    pub open spec fn has_invites(&self, account: Seq<char>) -> bool {
        self.invites().contains_key(account) && self.invites()[account] > 0
    }

    fn invites_left(&self, account: &String) -> (r: bool)
        ensures
            r == self.has_invites(account@),
    {
        match self.invite_counts.get(account) {
            Some(n) => n > 0,
            None => false,
        }
    }

    /// Starts an invite by `predecessor`: the plan moves fungible tokens to
    /// `invitee` and chains `invite_other_callback`.
    pub fn invite_other(&self, predecessor: &String, invitee: String) -> (r: Result<
        InviteTransfer,
        NftError,
    >)
        ensures
            !valid_account_id(invitee@) ==> r == Err::<InviteTransfer, NftError>(
                NftError::InvalidAccountId,
            ),
            valid_account_id(invitee@) && !self.has_invites(predecessor@) ==> r == Err::<
                InviteTransfer,
                NftError,
            >(NftError::NoInvitesRemaining),
            valid_account_id(invitee@) && self.has_invites(predecessor@) ==> r is Ok,
            r matches Ok(q) ==> {
                &&& q.ft_contract@ == FT_CONTRACT@
                &&& q.invitee == invitee
                &&& q.amount == INVITE_AMOUNT
                &&& q.transfer_gas == FT_CALL_GAS
                &&& q.caller@ == predecessor@
                &&& q.callback_deposit == INVITE_CALLBACK_DEPOSIT
                &&& q.callback_gas == CALLBACK_GAS
            },
    {
        if !account_id_is_valid(&invitee) {
            return Err(NftError::InvalidAccountId);
        }
        if !self.invites_left(predecessor) {
            return Err(NftError::NoInvitesRemaining);
        }
        Ok(InviteTransfer {
            ft_contract: String::from_str(FT_CONTRACT),
            invitee,
            amount: INVITE_AMOUNT,
            transfer_gas: FT_CALL_GAS,
            caller: predecessor.clone(),
            callback_deposit: INVITE_CALLBACK_DEPOSIT,
            callback_gas: CALLBACK_GAS,
        })
    }

    /// The error, if any, of the invite callback for `caller`.
    pub open spec fn invite_error(&self, caller: Seq<char>) -> Option<NftError> {
        if !self.has_invites(caller) {
            Some(NftError::NoInvitesRemaining)
        } else if self.counter() >= u64::MAX {
            Some(NftError::TokenIdsExhausted)
        } else {
            None
        }
    }

    /// The callback of `invite_other`: spends one of `caller`'s invites and
    /// mints an invite NFT to `invitee`, numbered one past the counter.
    pub fn invite_other_callback(
        &mut self,
        caller: String,
        invitee: String,
        block_timestamp: u64,
    ) -> (r: Result<Token, NftError>)
        requires
            old(self).wf(),
        ensures
            final(self).wf(),
            final(self).counter() >= old(self).counter(),
            match old(self).invite_error(caller@) {
                Some(e) => r == Err::<Token, NftError>(e) && *final(self) == *old(self),
                None => {
                    &&& r is Ok
                    &&& old(self).minted(final(self), invitee@)
                    &&& final(self).owner_nfts() == old(self).owner_nfts()
                    &&& final(self).invites() == old(self).invites().insert(
                        caller@,
                        (old(self).invites()[caller@] - 1) as u64,
                    )
                },
            },
            r matches Ok(t) ==> {
                &&& t.token_id@ == dec(final(self).counter())
                &&& t.owner_id@ == invitee@
                &&& is_invite_metadata(t.metadata, caller@, block_timestamp)
            },
    {
        let left = match self.invite_counts.get(&caller) {
            Some(n) => n,
            None => {
                return Err(NftError::NoInvitesRemaining);
            },
        };
        if left == 0 {
            return Err(NftError::NoInvitesRemaining);
        }
        if self.token_id_counter == u64::MAX {
            return Err(NftError::TokenIdsExhausted);
        }
        self.invite_counts.insert(&caller, left - 1);
        let id = self.push_token(&invitee);
        let metadata = invite_metadata(&caller, block_timestamp);
        Ok(Token { token_id: decimal_string(id), owner_id: invitee, metadata })
    }

    /// The error, if any, of `create_pool` called by `caller`.
    pub open spec fn create_pool_error(&self, caller: Seq<char>) -> Option<NftError> {
        if !self.owner_nfts().contains_key(caller) {
            Some(NftError::NoOwnerNft)
        } else if self.owner_of(self.owner_nfts()[caller] as nat) != Some(caller) {
            Some(NftError::TransferFailed)
        } else {
            None
        }
    }

    /// `after` is this state once `caller`'s owner NFT has moved into the
    /// contract's custody and its entry has been cleared.
    pub open spec fn pool_created(&self, after: &Contract, caller: Seq<char>) -> bool {
        let t = self.owner_nfts()[caller] as int;
        &&& after.same_setup(self)
        &&& after.counter() == self.counter()
        &&& after.invites() == self.invites()
        &&& after.owner_nfts() == self.owner_nfts().remove(caller)
        &&& after.token_owner_seq() == self.token_owner_seq().update(t - 1, self.account())
    }

    /// Moves `predecessor`'s owner NFT into the contract's custody and
    /// plans the call of `new_pool` on `pool_id`, with half of
    /// `prepaid_gas` attached.
    pub fn create_pool(
        &mut self,
        predecessor: &String,
        pool_id: String,
        roomsize: u128,
        prepaid_gas: u64,
    ) -> (r: Result<PoolCall, NftError>)
        requires
            old(self).wf(),
        ensures
            final(self).wf(),
            final(self).counter() >= old(self).counter(),
            match old(self).create_pool_error(predecessor@) {
                Some(e) => r == Err::<PoolCall, NftError>(e) && *final(self) == *old(self),
                None => r is Ok && old(self).pool_created(final(self), predecessor@),
            },
            r matches Ok(p) ==> {
                &&& p.token_id@ == dec(old(self).owner_nfts()[predecessor@] as nat)
                &&& p.pool_id == pool_id
                &&& p.pool_name@ == pool_name_of(predecessor@)
                &&& p.owner_id@ == predecessor@
                &&& p.roomsize == roomsize
                &&& p.gas == prepaid_gas / 2
                &&& p.subaccount@ == subaccount_of(pool_name_of(predecessor@), pool_id@)
            },
    {
        let id = match self.owner_nft_store.get(predecessor) {
            Some(id) => id,
            None => {
                return Err(NftError::NoOwnerNft);
            },
        };
        proof {
            assert(self.token_owners@.len() == self.token_owner_seq().len());
        }
        if id == 0 || id > self.token_owners.len() as u64 {
            return Err(NftError::TransferFailed);
        }
        let i = (id - 1) as usize;
        proof {
            assert(self.token_owner_seq()[i as int] == self.token_owners@[i as int]@);
        }
        if self.token_owners[i] != *predecessor {
            return Err(NftError::TransferFailed);
        }
        let ghost pre = *self;
        self.token_owners.set(i, self.contract_account.clone());
        self.owner_nft_store.remove(predecessor);
        proof {
            assert(self.token_owners@.map_values(|s: String| s@) =~= pre.token_owners@.map_values(
                |s: String| s@,
            ).update(i as int, self.contract_account@));
            assert forall|a: Seq<char>| #[trigger] self.owner_nfts().contains_key(a) implies {
                let t = self.owner_nfts()[a] as nat;
                self.owner_of(t) == Some(a) || self.owner_of(t) == Some(self.account())
            } by {
                assert(pre.owner_nfts().contains_key(a));
            }
            assert(self.token_owner_seq().len() == self.counter());
            assert(self.invites() == pre.invites());
        }
        let name = pool_name(predecessor);
        let sub = subaccount(&name, &pool_id);
        Ok(PoolCall {
            token_id: decimal_string(id),
            pool_id,
            pool_name: name,
            owner_id: predecessor.clone(),
            roomsize,
            gas: prepaid_gas / 2,
            subaccount: sub,
        })
    }

    /// The id, in base 10, of the owner NFT that `account` holds.
    pub fn owner_nft(&self, account: &String) -> (r: Option<String>)
        ensures
            match r {
                Some(s) => self.owner_nfts().contains_key(account@) && s@ == dec(
                    self.owner_nfts()[account@] as nat,
                ),
                None => !self.owner_nfts().contains_key(account@),
            },
    {
        match self.owner_nft_store.get(account) {
            Some(id) => Some(decimal_string(id)),
            None => None,
        }
    }

    /// The invites that `account` has left, if it ever held an owner NFT.
    pub fn invite_count(&self, account: &String) -> (r: Option<u64>)
        ensures
            r == (if self.invites().contains_key(account@) {
                Some(self.invites()[account@])
            } else {
                None::<u64>
            }),
    {
        self.invite_counts.get(account)
    }

    /// The owner of token `id`, if it was minted.
    pub fn token_owner(&self, id: u64) -> (r: Option<String>)
        requires
            self.wf(),
        ensures
            match r {
                Some(s) => self.owner_of(id as nat) == Some(s@),
                None => self.owner_of(id as nat) is None,
            },
    {
        proof {
            assert(self.token_owners@.len() == self.token_owner_seq().len());
        }
        if id == 0 || id > self.token_owners.len() as u64 {
            None
        } else {
            proof {
                assert(self.token_owner_seq()[id - 1] == self.token_owners@[id - 1]@);
            }
            Some(self.token_owners[(id - 1) as usize].clone())
        }
    }

    /// The id of the last token minted.
    pub fn token_id_counter(&self) -> (r: u64)
        ensures
            r == self.counter(),
    {
        self.token_id_counter
    }

    /// The account that deployed the contract.
    pub fn contract_owner(&self) -> (r: String)
        ensures
            r@ == self.owner(),
    {
        self.contract_owner.clone()
    }

    /// The state as plain values.
    pub fn into_parts(self) -> (r: ContractParts)
        ensures
            r.contract_account@ == self.account(),
            r.contract_owner@ == self.owner(),
            r.metadata == self.metadata_of(),
            r.token_id_counter == self.counter(),
            entries_map(r.owner_nfts@) == self.owner_nfts(),
            entries_map(r.invite_counts@) == self.invites(),
            r.token_owners@.map_values(|s: String| s@) == self.token_owner_seq(),
    {
        let owner_nfts = self.owner_nft_store.to_entries();
        let invite_counts = self.invite_counts.to_entries();
        ContractParts {
            contract_account: self.contract_account,
            contract_owner: self.contract_owner,
            metadata: self.metadata,
            token_id_counter: self.token_id_counter,
            owner_nfts,
            invite_counts,
            token_owners: self.token_owners,
        }
    }

    /// Rebuilds a state from plain values; `None` where they break the
    /// contract's invariant.
    pub fn from_parts(parts: ContractParts) -> (r: Option<Contract>)
        ensures
            r is Some <==> parts_valid(&parts),
            r matches Some(c) ==> {
                &&& c.wf()
                &&& c.account() == parts.contract_account@
                &&& c.owner() == parts.contract_owner@
                &&& c.metadata_of() == parts.metadata
                &&& c.counter() == parts.token_id_counter
                &&& c.owner_nfts() == entries_map(parts.owner_nfts@)
                &&& c.invites() == entries_map(parts.invite_counts@)
                &&& c.token_owner_seq() == parts.token_owners@.map_values(|s: String| s@)
            },
    {
        if parts.token_owners.len() as u64 != parts.token_id_counter {
            return None;
        }
        let mut j: usize = 0;
        while j < parts.owner_nfts.len()
            invariant
                j <= parts.owner_nfts@.len(),
                forall|i: int| 0 <= i < j ==> parts_owner_entry_ok(&parts, #[trigger] parts.owner_nfts@[i].0@),
            decreases parts.owner_nfts@.len() - j,
        {
            let key = &parts.owner_nfts[j].0;
            match lookup(&parts.owner_nfts, key) {
                Some(t) => {
                    if t == 0 || t > parts.token_owners.len() as u64 {
                        proof {
                            assert(!parts_owner_entry_ok(&parts, key@));
                        }
                        return None;
                    }
                    let holder = &parts.token_owners[(t - 1) as usize];
                    if !(*holder == *key) && !(*holder == parts.contract_account) {
                        proof {
                            assert(!parts_owner_entry_ok(&parts, key@));
                        }
                        return None;
                    }
                },
                None => {},
            }
            j = j + 1;
        }
        let mut j: usize = 0;
        while j < parts.invite_counts.len()
            invariant
                j <= parts.invite_counts@.len(),
                forall|i: int| 0 <= i < j ==> parts_invite_entry_ok(&parts, #[trigger] parts.invite_counts@[i].0@),
            decreases parts.invite_counts@.len() - j,
        {
            let key = &parts.invite_counts[j].0;
            match lookup(&parts.invite_counts, key) {
                Some(n) => {
                    if n > INITIAL_INVITES {
                        proof {
                            assert(!parts_invite_entry_ok(&parts, key@));
                        }
                        return None;
                    }
                },
                None => {},
            }
            j = j + 1;
        }
        proof {
            assert forall|a: Seq<char>| #[trigger] parts_owner_entry_ok(&parts, a) by {
                if entries_map(parts.owner_nfts@).contains_key(a) {
                    lemma_entries_map_key(parts.owner_nfts@, a);
                    let i = choose|i: int| 0 <= i < parts.owner_nfts@.len() && (#[trigger] parts.owner_nfts@[i]).0@ == a;
                    assert(parts_owner_entry_ok(&parts, parts.owner_nfts@[i].0@));
                }
            }
            assert forall|a: Seq<char>| #[trigger] parts_invite_entry_ok(&parts, a) by {
                if entries_map(parts.invite_counts@).contains_key(a) {
                    lemma_entries_map_key(parts.invite_counts@, a);
                    let i = choose|i: int| 0 <= i < parts.invite_counts@.len() && (#[trigger] parts.invite_counts@[i]).0@ == a;
                    assert(parts_invite_entry_ok(&parts, parts.invite_counts@[i].0@));
                }
            }
        }
        let c = Contract {
            contract_account: parts.contract_account,
            contract_owner: parts.contract_owner,
            metadata: parts.metadata,
            token_id_counter: parts.token_id_counter,
            owner_nft_store: AccountTable::from_entries(parts.owner_nfts),
            invite_counts: AccountTable::from_entries(parts.invite_counts),
            token_owners: parts.token_owners,
        };
        proof {
            assert forall|a: Seq<char>| #[trigger] c.owner_nfts().contains_key(a) implies {
                let t = c.owner_nfts()[a] as nat;
                c.owner_of(t) == Some(a) || c.owner_of(t) == Some(c.account())
            } by {
                assert(parts_owner_entry_ok(&parts, a));
            }
            assert forall|a: Seq<char>| #[trigger] c.invites().contains_key(a)
                implies c.invites()[a] <= INITIAL_INVITES by {
                assert(parts_invite_entry_ok(&parts, a));
            }
        }
        Some(c)
    }
}

/// Every owner NFT on record is held by the account it was minted to, or by
/// the contract itself in custody.
pub proof fn owner_nft_held_by_owner_or_contract(c: &Contract, account: Seq<char>)
    requires
        c.wf(),
        c.owner_nfts().contains_key(account),
    ensures
        c.owner_of(c.owner_nfts()[account] as nat) == Some(account)
            || c.owner_of(c.owner_nfts()[account] as nat) == Some(c.account()),
{
}

/// No account ever has more invites than an owner NFT grants.
pub proof fn invites_within_grant(c: &Contract, account: Seq<char>)
    requires
        c.wf(),
        c.invites().contains_key(account),
    ensures
        c.invites()[account] <= INITIAL_INVITES,
{
}

/// A minted token takes the id that the counter advances to; that id named
/// no token before, and every earlier token keeps its owner.
pub proof fn minted_id_is_fresh(before: &Contract, after: &Contract, owner: Seq<char>)
    requires
        before.wf(),
        before.minted(after, owner),
    ensures
        after.counter() == before.counter() + 1,
        before.owner_of(after.counter()) is None,
        after.owner_of(after.counter()) == Some(owner),
        forall|id: nat| id != after.counter() ==> after.owner_of(id) == before.owner_of(id),
{
}

/// Creating a pool is not idempotent: once it has succeeded for `caller`,
/// the same call fails with `NoOwnerNft`.
pub proof fn create_pool_twice_fails(before: &Contract, after: &Contract, caller: Seq<char>)
    requires
        before.wf(),
        before.create_pool_error(caller) is None,
        before.pool_created(after, caller),
    ensures
        after.create_pool_error(caller) == Some(NftError::NoOwnerNft),
{
}

} // verus!
