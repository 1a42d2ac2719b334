use vstd::prelude::*;

verus! {

/// The stored configuration: the two collaborator contracts.
#[derive(Clone, Debug, PartialEq, Eq)]
pub struct Config {
    pub astroport_incentive_contract: String,
    pub concentrated_pool_address: String,
}

/// The message that creates the contract.
#[derive(Clone, Debug, PartialEq, Eq)]
pub struct InstantiateMsg {
    pub astroport_incentive_contract: String,
    pub concentrated_pool_address: String,
}

/// The mutating messages. There are none: the type has no public way to be
/// built, and the library never builds it, so no mutating operation can be
/// named.
#[derive(Clone, Copy, Debug, PartialEq, Eq)]
pub struct ExecuteMsg {
    no_operation: (),
}

/// The queries that the contract answers.
#[derive(Clone, Debug, PartialEq, Eq)]
pub enum QueryMsg {
    /// The underlying tokens that `address` would get by withdrawing all of
    /// its liquidity shares, held and staked.
    CurrentHoldings { address: String },
    /// The pool's current reserves.
    CurrentTotalLiquidity {},
}

/// A token identifier with an amount.
#[derive(Clone, Debug, PartialEq, Eq)]
pub struct Coin {
    pub denom: String,
    pub amount: u128,
}

/// How a pool describes one of its assets.
#[derive(Clone, Debug, PartialEq, Eq)]
pub enum AssetInfo {
    /// A token contract, identified by its address.
    Token { contract_addr: String },
    /// A native token, identified by its denomination.
    NativeToken { denom: String },
}

/// An asset of a pool with an amount.
#[derive(Clone, Debug, PartialEq, Eq)]
pub struct Asset {
    pub info: AssetInfo,
    pub amount: u128,
}

/// The answer to `QueryMsg::CurrentHoldings`.
#[derive(Clone, Debug, PartialEq, Eq)]
pub struct CurrentHoldingsResponse {
    pub coins: Vec<Coin>,
}

/// The answer to `QueryMsg::CurrentTotalLiquidity`.
#[derive(Clone, Debug, PartialEq, Eq)]
pub struct CurrentTotalLiquidity {
    pub coins: Vec<Coin>,
}

impl AssetInfo {
    /// The canonical string form of an asset: its contract address or its
    /// denomination.
    pub open spec fn canonical(&self) -> Seq<char> {
        match self {
            AssetInfo::Token { contract_addr } => contract_addr@,
            AssetInfo::NativeToken { denom } => denom@,
        }
    }

    /// Returns the canonical string form of the asset.
    pub fn to_denom(&self) -> (r: String)
        ensures
            r@ == self.canonical(),
    {
        match self {
            AssetInfo::Token { contract_addr } => contract_addr.clone(),
            AssetInfo::NativeToken { denom } => denom.clone(),
        }
    }
}

/// `c` is `a` with its asset description put in canonical string form.
pub open spec fn coin_of(c: Coin, a: Asset) -> bool {
    &&& c.denom@ == a.info.canonical()
    &&& c.amount == a.amount
}

/// `coins` is `assets`, element by element, in canonical form: same count,
/// same order, same amounts.
pub open spec fn coins_of(coins: Seq<Coin>, assets: Seq<Asset>) -> bool {
    &&& coins.len() == assets.len()
    &&& forall|i: int| 0 <= i < coins.len() ==> #[trigger] coin_of(coins[i], assets[i])
}

/// Puts each asset in canonical form, keeping order and count.
pub fn coins_from_assets(assets: Vec<Asset>) -> (r: Vec<Coin>)
    ensures
        coins_of(r@, assets@),
{
    let mut coins: Vec<Coin> = Vec::with_capacity(assets.len());
    let mut i: usize = 0;
    while i < assets.len()
        invariant
            i <= assets@.len(),
            coins@.len() == i,
            forall|j: int| 0 <= j < i ==> #[trigger] coin_of(coins@[j], assets@[j]),
        decreases assets@.len() - i,
    {
        let a = &assets[i];
        coins.push(Coin { denom: a.info.to_denom(), amount: a.amount });
        i = i + 1;
    }
    coins
}

/// Builds the configuration from the creating message, storing both
/// addresses verbatim.
pub fn instantiate(msg: InstantiateMsg) -> (cfg: Config)
    ensures
        cfg.astroport_incentive_contract == msg.astroport_incentive_contract,
        cfg.concentrated_pool_address == msg.concentrated_pool_address,
{
    Config {
        astroport_incentive_contract: msg.astroport_incentive_contract,
        concentrated_pool_address: msg.concentrated_pool_address,
    }
}

} // verus!
