use vstd::prelude::*;

verus! {

/// The cross-contract read during which a query went wrong.
#[derive(Clone, Copy, Debug, PartialEq, Eq, Structural)]
pub enum QueryKind {
    /// The pool's metadata, which names its liquidity-share token.
    Pair,
    /// The ledger balance of the liquidity-share token.
    Balance,
    /// The amount staked in the incentive contract.
    Deposit,
    /// The pool's simulation of a withdrawal.
    SimulateWithdraw,
    /// The pool's current reserves.
    Pool,
}

/// Why a query produced no answer.
#[derive(Clone, Debug, PartialEq, Eq)]
pub enum ContractError {
    /// No configuration was stored at instantiation.
    NotInitialized,
    /// A collaborator contract failed to answer; `msg` is its own message.
    QueryFailed { query: QueryKind, msg: String },
    /// A collaborator answered with a value of the wrong shape.
    UnexpectedReply { query: QueryKind },
    /// Held plus staked shares exceed the largest representable amount.
    Overflow,
}

} // verus!
