//! The query protocol as a state machine.
//!
//! A query starts with `Resolver::start`, which either answers at once or
//! names the first cross-contract read to perform. The host performs each
//! requested read and hands its outcome to `Resolver::resume`, which names the
//! next read or gives the final answer. Every read depends on the one before,
//! so exactly one is outstanding at any time.
use vstd::prelude::*;
use crate::error::{ContractError, QueryKind};
use crate::msg::{
    coins_from_assets, coins_of, Asset, Config, CurrentHoldingsResponse, CurrentTotalLiquidity,
    QueryMsg,
};

verus! {

/// A cross-contract read that the resolver needs performed.
#[derive(Clone, Debug, PartialEq, Eq)]
pub enum Request {
    /// Ask the pool at `contract_addr` for its metadata.
    Pair { contract_addr: String },
    /// Ask the ledger for the balance of `denom` held by `address`.
    Balance { address: String, denom: String },
    /// Ask the incentive contract at `contract_addr` how much of `lp_token`
    /// `user` has staked.
    Deposit { contract_addr: String, lp_token: String, user: String },
    /// Ask the pool at `contract_addr` what a withdrawal of `lp_amount` shares
    /// pays out.
    SimulateWithdraw { contract_addr: String, lp_amount: u128 },
    /// Ask the pool at `contract_addr` for its reserves.
    Pool { contract_addr: String },
}

/// The outcome of a cross-contract read.
#[derive(Clone, Debug, PartialEq, Eq)]
pub enum Reply {
    /// Pool metadata, naming the liquidity-share token.
    Pair { liquidity_token: String },
    /// A single amount: a balance or a staked amount.
    Amount { amount: u128 },
    /// A list of assets: a simulated withdrawal or the reserves.
    Assets { assets: Vec<Asset> },
    /// The read failed, with the collaborator's message.
    Failed { msg: String },
}

/// What the resolver asks of the host after a transition.
#[derive(Clone, Debug, PartialEq, Eq)]
pub enum Step {
    /// Perform this read and hand its outcome to `Resolver::resume`.
    Ask { request: Request },
    /// The answer to `QueryMsg::CurrentHoldings`.
    Holdings { response: CurrentHoldingsResponse },
    /// The answer to `QueryMsg::CurrentTotalLiquidity`.
    TotalLiquidity { response: CurrentTotalLiquidity },
    /// The query failed.
    Failed { error: ContractError },
}

/// Which read the resolver waits for, with what it has learnt so far.
#[derive(Clone, Debug, PartialEq, Eq)]
pub enum Stage {
    AwaitPair,
    AwaitBalance { lp_token: String },
    AwaitDeposit { balance: u128 },
    AwaitWithdraw,
    AwaitReserves,
    Finished,
}

/// One query in progress.
#[derive(Clone, Debug, PartialEq, Eq)]
pub struct Resolver {
    pub config: Config,
    pub address: String,
    pub stage: Stage,
}

impl Step {
    /// The step is a request for a read.
    pub open spec fn is_request(self) -> bool {
        self is Ask
    }
}

/// The query ends with `error` and the resolver asks for nothing more.
pub open spec fn ends_with(next: Resolver, step: Step, error: ContractError) -> bool {
    &&& next.stage is Finished
    &&& step == (Step::Failed { error })
}

/// The outcome of the read `query` is not of the expected shape: a failure is
/// passed on with its message, anything else is reported as unexpected.
pub open spec fn refused(query: QueryKind, reply: Reply, next: Resolver, step: Step) -> bool {
    match reply {
        Reply::Failed { msg } => ends_with(next, step, ContractError::QueryFailed { query, msg }),
        _ => ends_with(next, step, ContractError::UnexpectedReply { query }),
    }
}

impl Resolver {
    /// What `start` does: without configuration it fails at once; otherwise
    /// it asks the pool for its metadata (holdings) or its reserves (total
    /// liquidity).
    pub open spec fn started(config: Option<Config>, msg: QueryMsg, r: Resolver, step: Step) -> bool {
        match config {
            None => ends_with(r, step, ContractError::NotInitialized),
            Some(c) => {
                &&& r.config == c
                &&& match msg {
                    QueryMsg::CurrentHoldings { address } => {
                        &&& r.address == address
                        &&& r.stage is AwaitPair
                        &&& step == (Step::Ask {
                            request: Request::Pair { contract_addr: c.concentrated_pool_address },
                        })
                    },
                    QueryMsg::CurrentTotalLiquidity {  } => {
                        &&& r.stage is AwaitReserves
                        &&& step == (Step::Ask {
                            request: Request::Pool { contract_addr: c.concentrated_pool_address },
                        })
                    },
                }
            },
        }
    }

    /// What `resume` does with the outcome `reply` of the outstanding read,
    /// going from `self` to `next` and asking for `step`.
    pub open spec fn resumes(self, reply: Reply, next: Resolver, step: Step) -> bool {
        &&& next.config == self.config
        &&& next.address == self.address
        &&& match self.stage {
            Stage::AwaitPair => match reply {
                Reply::Pair { liquidity_token } => {
                    &&& next.stage == (Stage::AwaitBalance { lp_token: liquidity_token })
                    &&& step == (Step::Ask {
                        request: Request::Balance { address: self.address, denom: liquidity_token },
                    })
                },
                _ => refused(QueryKind::Pair, reply, next, step),
            },
            Stage::AwaitBalance { lp_token } => match reply {
                Reply::Amount { amount } => {
                    &&& next.stage == (Stage::AwaitDeposit { balance: amount })
                    &&& step == (Step::Ask {
                        request: Request::Deposit {
                            contract_addr: self.config.astroport_incentive_contract,
                            lp_token,
                            user: self.address,
                        },
                    })
                },
                _ => refused(QueryKind::Balance, reply, next, step),
            },
            Stage::AwaitDeposit { balance } => match reply {
                Reply::Amount { amount } => if balance + amount <= u128::MAX {
                    &&& next.stage is AwaitWithdraw
                    &&& step == (Step::Ask {
                        request: Request::SimulateWithdraw {
                            contract_addr: self.config.concentrated_pool_address,
                            lp_amount: (balance + amount) as u128,
                        },
                    })
                } else {
                    ends_with(next, step, ContractError::Overflow)
                },
                _ => refused(QueryKind::Deposit, reply, next, step),
            },
            Stage::AwaitWithdraw => match reply {
                Reply::Assets { assets } => {
                    &&& next.stage is Finished
                    &&& step matches Step::Holdings { response }
                    &&& coins_of(response.coins@, assets@)
                },
                _ => refused(QueryKind::SimulateWithdraw, reply, next, step),
            },
            Stage::AwaitReserves => match reply {
                Reply::Assets { assets } => {
                    &&& next.stage is Finished
                    &&& step matches Step::TotalLiquidity { response }
                    &&& coins_of(response.coins@, assets@)
                },
                _ => refused(QueryKind::Pool, reply, next, step),
            },
            Stage::Finished => false,
        }
    }

    /// Begins answering `msg` under the stored configuration, if any.
    pub fn start(config: Option<Config>, msg: QueryMsg) -> (r: (Resolver, Step))
        ensures
            Resolver::started(config, msg, r.0, r.1),
    {
        match config {
            None => {
                let r = Resolver {
                    config: Config {
                        astroport_incentive_contract: String::new(),
                        concentrated_pool_address: String::new(),
                    },
                    address: String::new(),
                    stage: Stage::Finished,
                };
                (r, Step::Failed { error: ContractError::NotInitialized })
            },
            Some(c) => match msg {
                QueryMsg::CurrentHoldings { address } => {
                    let pool = c.concentrated_pool_address.clone();
                    let r = Resolver { config: c, address, stage: Stage::AwaitPair };
                    (r, Step::Ask { request: Request::Pair { contract_addr: pool } })
                },
                QueryMsg::CurrentTotalLiquidity {  } => {
                    let pool = c.concentrated_pool_address.clone();
                    let r = Resolver { config: c, address: String::new(), stage: Stage::AwaitReserves };
                    (r, Step::Ask { request: Request::Pool { contract_addr: pool } })
                },
            },
        }
    }

    /// Takes the outcome of the outstanding read and moves on.
    pub fn resume(&mut self, reply: Reply) -> (step: Step)
        requires
            old(self).stage !is Finished,
        ensures
            old(self).resumes(reply, *final(self), step),
    {
        match &self.stage {
            Stage::AwaitPair => match reply {
                Reply::Pair { liquidity_token } => {
                    let request = Request::Balance {
                        address: self.address.clone(),
                        denom: liquidity_token.clone(),
                    };
                    self.stage = Stage::AwaitBalance { lp_token: liquidity_token };
                    Step::Ask { request }
                },
                _ => self.refuse(QueryKind::Pair, reply),
            },
            Stage::AwaitBalance { lp_token } => match reply {
                Reply::Amount { amount } => {
                    let request = Request::Deposit {
                        contract_addr: self.config.astroport_incentive_contract.clone(),
                        lp_token: lp_token.clone(),
                        user: self.address.clone(),
                    };
                    self.stage = Stage::AwaitDeposit { balance: amount };
                    Step::Ask { request }
                },
                _ => self.refuse(QueryKind::Balance, reply),
            },
            Stage::AwaitDeposit { balance } => match reply {
                Reply::Amount { amount } => match balance.checked_add(amount) {
                    Some(lp_amount) => {
                        self.stage = Stage::AwaitWithdraw;
                        Step::Ask {
                            request: Request::SimulateWithdraw {
                                contract_addr: self.config.concentrated_pool_address.clone(),
                                lp_amount,
                            },
                        }
                    },
                    None => {
                        self.stage = Stage::Finished;
                        Step::Failed { error: ContractError::Overflow }
                    },
                },
                _ => self.refuse(QueryKind::Deposit, reply),
            },
            Stage::AwaitWithdraw => match reply {
                Reply::Assets { assets } => {
                    self.stage = Stage::Finished;
                    Step::Holdings {
                        response: CurrentHoldingsResponse { coins: coins_from_assets(assets) },
                    }
                },
                _ => self.refuse(QueryKind::SimulateWithdraw, reply),
            },
            Stage::AwaitReserves => match reply {
                Reply::Assets { assets } => {
                    self.stage = Stage::Finished;
                    Step::TotalLiquidity {
                        response: CurrentTotalLiquidity { coins: coins_from_assets(assets) },
                    }
                },
                _ => self.refuse(QueryKind::Pool, reply),
            },
            Stage::Finished => {
                // ruled out by the precondition
                proof {
                    assert(false);
                }
                Step::Failed { error: ContractError::NotInitialized }
            },
        }
    }

    /// Ends the query on an outcome of the wrong shape.
    fn refuse(&mut self, query: QueryKind, reply: Reply) -> (step: Step)
        ensures
            final(self).config == old(self).config,
            final(self).address == old(self).address,
            refused(query, reply, *final(self), step),
    {
        self.stage = Stage::Finished;
        match reply {
            Reply::Failed { msg } => Step::Failed { error: ContractError::QueryFailed { query, msg } },
            _ => Step::Failed { error: ContractError::UnexpectedReply { query } },
        }
    }
}

/// A holdings query that learns the share token `lp_token`, a held balance
/// `b` and a staked amount `s` asks the pool to simulate the withdrawal of
/// exactly `b + s` shares, after the ledger and then the incentive contract
/// were asked about that token; when `b + s` does not fit an amount, the query
/// fails with an overflow and asks for nothing more. The basket it then
/// answers with is the simulation's, in the same order and count, each asset
/// in canonical form.
pub proof fn lemma_holdings_run(
    c: Config,
    address: String,
    lp_token: String,
    b: u128,
    s: u128,
    assets: Vec<Asset>,
    r0: Resolver,
    r1: Resolver,
    r2: Resolver,
    r3: Resolver,
    r4: Resolver,
    step0: Step,
    step1: Step,
    step2: Step,
    step3: Step,
    step4: Step,
)
    requires
        Resolver::started(Some(c), QueryMsg::CurrentHoldings { address }, r0, step0),
        r0.resumes(Reply::Pair { liquidity_token: lp_token }, r1, step1),
        r1.resumes(Reply::Amount { amount: b }, r2, step2),
        r2.resumes(Reply::Amount { amount: s }, r3, step3),
        b + s <= u128::MAX ==> r3.resumes(Reply::Assets { assets }, r4, step4),
    ensures
        step0 == (Step::Ask { request: Request::Pair { contract_addr: c.concentrated_pool_address } }),
        step1 == (Step::Ask { request: Request::Balance { address, denom: lp_token } }),
        step2 == (Step::Ask {
            request: Request::Deposit {
                contract_addr: c.astroport_incentive_contract,
                lp_token,
                user: address,
            },
        }),
        b + s <= u128::MAX ==> step3 == (Step::Ask {
            request: Request::SimulateWithdraw {
                contract_addr: c.concentrated_pool_address,
                lp_amount: (b + s) as u128,
            },
        }),
        b + s > u128::MAX ==> ends_with(r3, step3, ContractError::Overflow),
        b + s <= u128::MAX ==> {
            &&& r4.stage is Finished
            &&& step4 matches Step::Holdings { response }
            &&& coins_of(response.coins@, assets@)
        },
{
}

/// An account that holds no shares and has staked none still has a
/// withdrawal of zero shares simulated, and the answer is the simulation's
/// basket as it stands.
pub proof fn lemma_empty_position_still_simulates(
    c: Config,
    address: String,
    lp_token: String,
    assets: Vec<Asset>,
    r0: Resolver,
    r1: Resolver,
    r2: Resolver,
    r3: Resolver,
    r4: Resolver,
    step0: Step,
    step1: Step,
    step2: Step,
    step3: Step,
    step4: Step,
)
    requires
        Resolver::started(Some(c), QueryMsg::CurrentHoldings { address }, r0, step0),
        r0.resumes(Reply::Pair { liquidity_token: lp_token }, r1, step1),
        r1.resumes(Reply::Amount { amount: 0 }, r2, step2),
        r2.resumes(Reply::Amount { amount: 0 }, r3, step3),
        r3.resumes(Reply::Assets { assets }, r4, step4),
    ensures
        step3 == (Step::Ask {
            request: Request::SimulateWithdraw {
                contract_addr: c.concentrated_pool_address,
                lp_amount: 0,
            },
        }),
        step4 matches Step::Holdings { response } && coins_of(response.coins@, assets@),
{
    lemma_holdings_run(
        c, address, lp_token, 0, 0, assets, r0, r1, r2, r3, r4, step0, step1, step2, step3, step4,
    );
}

/// The answer to a total-liquidity query is the pool's reserves as reported,
/// in the same order and count, each asset in canonical form; the pool is the
/// only contract asked.
pub proof fn lemma_total_liquidity_mirrors_reserves(
    c: Config,
    assets: Vec<Asset>,
    r0: Resolver,
    r1: Resolver,
    step0: Step,
    step1: Step,
)
    requires
        Resolver::started(Some(c), QueryMsg::CurrentTotalLiquidity {  }, r0, step0),
        r0.resumes(Reply::Assets { assets }, r1, step1),
    ensures
        step0 == (Step::Ask { request: Request::Pool { contract_addr: c.concentrated_pool_address } }),
        r1.stage is Finished,
        step1 matches Step::TotalLiquidity { response } && coins_of(response.coins@, assets@),
{
}

/// When the pool's metadata cannot be had, a holdings query fails at once,
/// passing on the pool's message, and never asks the ledger or the incentive
/// contract: the resolver is finished and accepts no further outcome.
pub proof fn lemma_pair_failure_stops_early(
    c: Config,
    address: String,
    msg: String,
    r0: Resolver,
    r1: Resolver,
    step0: Step,
    step1: Step,
)
    requires
        Resolver::started(Some(c), QueryMsg::CurrentHoldings { address }, r0, step0),
        r0.resumes(Reply::Failed { msg }, r1, step1),
    ensures
        !step1.is_request(),
        r1.stage is Finished,
        step1 == (Step::Failed {
            error: ContractError::QueryFailed { query: QueryKind::Pair, msg },
        }),
{
}

/// Without a stored configuration every query fails as not initialized and
/// asks for no read at all.
pub proof fn lemma_uninitialized_asks_nothing(msg: QueryMsg, r: Resolver, step: Step)
    requires
        Resolver::started(None, msg, r, step),
    ensures
        !step.is_request(),
        r.stage is Finished,
        step == (Step::Failed { error: ContractError::NotInitialized }),
{
}

} // verus!
