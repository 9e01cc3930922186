//! The pool contract: deploys a fungible-token contract on a sub-account
//! named after the requesting owner.
use vstd::prelude::*;

use crate::account::{subaccount, subaccount_of};

verus! {

/// Balance moved to each new sub-account to pay for its storage.
pub const BOOTSTRAP_BALANCE: u128 = 5_226_110_000_000_000_000_000_000;

/// Gas attached to the initialisation call of a deployed token contract.
pub const INIT_GAS: u64 = 5_000_000_000_000;

/// The method that initialises a deployed token contract.
pub const INIT_METHOD: &'static str = "new_default_meta";

/// The NFT contract that a deployed token contract answers to.
pub const NFT_CALLER: &'static str = "nftcontract.someothernewname.testnet";

#[derive(PartialEq, Eq, Structural, Debug, Clone, Copy)]
pub enum PoolError {
    /// The caller is not the pool contract's owner.
    UnauthorizedOwner,
}

/// Plan of `new_pool`: create `subaccount`, add the signer's key to it, move
/// `bootstrap_balance` to it and deploy the token binary there; then call
/// `init_method` on it with the owner, the total supply and the NFT caller.
pub struct PoolDeployment {
    pub subaccount: String,
    pub bootstrap_balance: u128,
    pub init_method: String,
    pub init_owner: String,
    pub total_supply: u128,
    pub nft_caller: String,
    pub init_deposit: u128,
    pub init_gas: u64,
}

/// The pool contract's state.
pub struct Pool {
    owner: String,
    sub_owner: String,
}

impl Pool {
    /// The account that initialised the contract.
    pub closed spec fn owner(&self) -> Seq<char> {
        self.owner@
    }

    /// The delegated controller.
    pub closed spec fn sub_owner(&self) -> Seq<char> {
        self.sub_owner@
    }

    /// Initialises the contract; its owner is the account that calls this.
    pub fn new(predecessor: String, sub_owner: String) -> (r: Pool)
        ensures
            r.owner() == predecessor@,
            r.sub_owner() == sub_owner@,
    {
        Pool { owner: predecessor, sub_owner }
    }

    /// The account that initialised the contract.
    pub fn owner_id(&self) -> (r: String)
        ensures
            r@ == self.owner(),
    {
        self.owner.clone()
    }

    /// The delegated controller.
    pub fn sub_owner_id(&self) -> (r: String)
        ensures
            r@ == self.sub_owner(),
    {
        self.sub_owner.clone()
    }

    /// Replaces the delegated controller; only the owner may do so.
    pub fn change_owner(&mut self, predecessor: &String, sub_owner: String) -> (r: Result<
        bool,
        PoolError,
    >)
        ensures
            final(self).owner() == old(self).owner(),
            predecessor@ == old(self).owner() ==> r == Ok::<bool, PoolError>(true)
                && final(self).sub_owner() == sub_owner@,
            predecessor@ != old(self).owner() ==> r == Err::<bool, PoolError>(
                PoolError::UnauthorizedOwner,
            ) && final(self).sub_owner() == old(self).sub_owner(),
    {
        if *predecessor != self.owner {
            return Err(PoolError::UnauthorizedOwner);
        }
        self.sub_owner = sub_owner;
        Ok(true)
    }

    /// Plans the deployment of a token contract for `owner_id` on the
    /// sub-account `poolname.current_account`, with `roomsize` as its total
    /// supply; the sub-account's name is the call's result.
    pub fn new_pool(
        &self,
        current_account: &String,
        poolname: String,
        owner_id: String,
        roomsize: u128,
    ) -> (r: PoolDeployment)
        ensures
            r.subaccount@ == subaccount_of(poolname@, current_account@),
            r.bootstrap_balance == BOOTSTRAP_BALANCE,
            r.init_method@ == INIT_METHOD@,
            r.init_owner == owner_id,
            r.total_supply == roomsize,
            r.nft_caller@ == NFT_CALLER@,
            r.init_deposit == 0,
            r.init_gas == INIT_GAS,
    {
        PoolDeployment {
            subaccount: subaccount(&poolname, current_account),
            bootstrap_balance: BOOTSTRAP_BALANCE,
            init_method: String::from_str(INIT_METHOD),
            init_owner: owner_id,
            total_supply: roomsize,
            nft_caller: String::from_str(NFT_CALLER),
            init_deposit: 0,
            init_gas: INIT_GAS,
        }
    }
}

} // verus!
