//! A read-only position adapter for a concentrated-liquidity pool.
//!
//! Given an account, the library works out the basket of underlying tokens that
//! the account would receive by withdrawing every liquidity share it holds,
//! both in its own balance and staked in an incentive contract. The
//! cross-contract reads are performed by the host; the library decides which
//! read comes next and what the final answer is.
pub mod error;
pub mod msg;
pub mod resolver;

pub use error::{ContractError, QueryKind};
pub use msg::{
    coins_from_assets, instantiate, Asset, AssetInfo, Coin, Config, CurrentHoldingsResponse,
    CurrentTotalLiquidity, ExecuteMsg, InstantiateMsg, QueryMsg,
};
pub use resolver::{Reply, Request, Resolver, Stage, Step};
