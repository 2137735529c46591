use std::collections::HashMap;

use dex::actor::ActorId;
use dex::dispatch::{handle, resume, Command, Reply, Step};
use dex::io::{Action, CachedAction, Error, Event, InnerAction, SwapKind, TransactionKind};
use dex::pair::Pair;
use dex::tx_manager::TransactionManager;
use dex::u256::U256;

const FACTORY: u64 = 1;
const TOKEN_B: u64 = 2;
const TOKEN_A: u64 = 3;
const USER: u64 = 5;
const OTHER_USER: u64 = 8;
const FEE_RECEIVER: u64 = 20;
const PAIR: u64 = 100;

fn actor(value: u64) -> ActorId {
    ActorId::new(value)
}

/// The simulated outside world: the factory's fee receiver and the two token
/// contracts' balance books.
struct World {
    fee_to: Option<ActorId>,
    balances: HashMap<(u64, u64), u128>,
    /// Transfers on these token contracts always fail.
    failing_tokens: Vec<u64>,
    balance_query_fails: bool,
}

impl World {
    fn new() -> Self {
        World {
            fee_to: Some(ActorId::new(0)),
            balances: HashMap::new(),
            failing_tokens: Vec::new(),
            balance_query_fails: false,
        }
    }

    fn mint(&mut self, token: u64, account: u64, amount: u128) {
        *self.balances.entry((token, account)).or_insert(0) += amount;
    }

    fn balance(&self, token: u64, account: u64) -> u128 {
        *self.balances.get(&(token, account)).unwrap_or(&0)
    }

    fn perform(&mut self, command: &Command) -> Reply {
        match command {
            Command::GetFeeTo { .. } => Reply::FeeTo(self.fee_to),
            Command::Transfer(request) => {
                if self.failing_tokens.contains(&request.token.value) {
                    return Reply::Transferred(false);
                }
                let from = self.balance(request.token.value, request.sender.value);
                if from < request.amount {
                    return Reply::Transferred(false);
                }
                self.balances
                    .insert((request.token.value, request.sender.value), from - request.amount);
                let to = self.balance(request.token.value, request.recipient.value);
                self.balances
                    .insert((request.token.value, request.recipient.value), to + request.amount);
                Reply::Transferred(true)
            }
            Command::GetBalances { token_a, token_b, account } => {
                if self.balance_query_fails {
                    Reply::Balances(Err(String::from("balance query failed")))
                } else {
                    Reply::Balances(Ok((
                        self.balance(token_a.value, account.value),
                        self.balance(token_b.value, account.value),
                    )))
                }
            }
        }
    }
}

/// Drives one action through the handler until it finishes, performing every
/// commanded call against the world.
fn run(
    pair: &mut Pair,
    manager: &mut TransactionManager,
    world: &mut World,
    action: Action,
    source: u64,
    block_ts: u64,
) -> Result<Event, Error> {
    let mut step = handle(pair, manager, action, actor(source), actor(PAIR), block_ts);
    loop {
        match step {
            Step::Done(result) => return result,
            Step::Next(session, command) => {
                let reply = world.perform(&command);
                step = resume(pair, manager, session, reply, actor(PAIR), block_ts);
            }
        }
    }
}

fn fresh_pair() -> (Pair, TransactionManager, World) {
    let pair = Pair::new((actor(TOKEN_A), actor(TOKEN_B)), actor(FACTORY)).unwrap();
    let mut world = World::new();
    world.mint(TOKEN_A, USER, 10_000_000);
    world.mint(TOKEN_B, USER, 10_000_000);
    (pair, TransactionManager::new(), world)
}

fn add_liquidity_action(desired: (u128, u128), min: (u128, u128), to: u64) -> Action {
    Action::new(InnerAction::AddLiquidity {
        amount_a_desired: desired.0,
        amount_b_desired: desired.1,
        amount_a_min: min.0,
        amount_b_min: min.1,
        to: actor(to),
        deadline: u64::MAX,
    })
}

fn swap_exact_action(amount_in: u128, min_out: u128, to: u64, kind: SwapKind) -> Action {
    Action::new(InnerAction::SwapExactTokensForTokens {
        amount_in,
        amount_out_min: min_out,
        to: actor(to),
        deadline: u64::MAX,
        swap_kind: kind,
    })
}

#[test]
fn swaps() {
    const INIT_AMOUNT: u128 = 10000;
    const INIT_LIQ: u128 = INIT_AMOUNT / 2;
    const CLEAN_INIT_LIQ: u128 = INIT_AMOUNT / 2 - 1000;
    const SWAP_AMOUNT: u128 = 1000;

    // The factory indexes the new pair.
    let mut factory = dex::factory::Factory::new(dex::factory::Initialize {
        fee_to: actor(0),
        fee_to_setter: actor(0),
        pair: dex::factory::CodeId { value: 3 },
    });
    let actor_pair = (actor(TOKEN_A), actor(TOKEN_B));
    let token_pair = factory.create_pair_start(actor_pair.0, actor_pair.1).unwrap();
    factory.create_pair_commit(token_pair, actor(PAIR), Ok(())).unwrap();
    assert_eq!(dex::factory::pair(factory.state(), actor_pair), actor(PAIR));

    let mut pair = Pair::new(actor_pair, actor(FACTORY)).unwrap();
    let mut manager = TransactionManager::new();
    assert_eq!(pair.factory, actor(FACTORY));
    assert_eq!(pair.token, actor_pair);

    let mut world = World::new();
    world.mint(TOKEN_A, USER, INIT_AMOUNT);
    world.mint(TOKEN_B, USER, INIT_AMOUNT);

    // Adding liquidity.
    let event = run(
        &mut pair,
        &mut manager,
        &mut world,
        add_liquidity_action((INIT_LIQ, INIT_LIQ), (0, 0), USER),
        USER,
        1000,
    )
    .unwrap();
    assert_eq!(
        event,
        Event::AddedLiquidity {
            sender: actor(USER),
            amount_a: INIT_LIQ,
            amount_b: INIT_LIQ,
            liquidity: U256::from_u128(CLEAN_INIT_LIQ),
        }
    );
    assert_eq!(
        pair.ft_state.balance_of(actor(USER)),
        U256::from_u128(CLEAN_INIT_LIQ)
    );
    assert_eq!(pair.reserve, (INIT_LIQ, INIT_LIQ));

    let out_amount = dex::math::calculate_out_amount(SWAP_AMOUNT, pair.reserve).unwrap();
    assert_eq!(out_amount, 831);

    // One block later, swapping an exact input.
    let event = run(
        &mut pair,
        &mut manager,
        &mut world,
        swap_exact_action(SWAP_AMOUNT, 0, USER, SwapKind::AForB),
        USER,
        2000,
    )
    .unwrap();
    assert_eq!(
        event,
        Event::Swap {
            sender: actor(USER),
            in_amount: SWAP_AMOUNT,
            out_amount,
            to: actor(USER),
            kind: SwapKind::AForB,
        }
    );
    assert_eq!(pair.reserve, (INIT_LIQ + SWAP_AMOUNT, INIT_LIQ - out_amount));
    assert_eq!(world.balance(TOKEN_A, USER), INIT_AMOUNT - INIT_LIQ - SWAP_AMOUNT);
    assert_eq!(world.balance(TOKEN_B, USER), INIT_AMOUNT - INIT_LIQ + out_amount);
}

#[test]
fn first_mint_locks_minimum_liquidity() {
    let (mut pair, mut manager, mut world) = fresh_pair();
    let event = run(
        &mut pair,
        &mut manager,
        &mut world,
        add_liquidity_action((10000, 10000), (0, 0), USER),
        USER,
        1000,
    )
    .unwrap();
    // liquidity = sqrt(10000 * 10000) - MINIMUM_LIQUIDITY
    assert_eq!(
        event,
        Event::AddedLiquidity {
            sender: actor(USER),
            amount_a: 10000,
            amount_b: 10000,
            liquidity: U256::from_u128(9000),
        }
    );
    assert_eq!(pair.ft_state.balance_of(actor(USER)), U256::from_u128(9000));
    assert_eq!(pair.ft_state.balance_of(actor(0)), U256::from_u128(1000));
    assert_eq!(pair.ft_state.total_supply(), U256::from_u128(10000));
}

#[test]
fn add_liquidity_compensates_failed_second_leg() {
    let (mut pair, mut manager, mut world) = fresh_pair();
    // The B token contract refuses every transfer: the A deposit must be
    // returned and the caller ends where it started.
    world.failing_tokens.push(TOKEN_B);
    let before = world.balance(TOKEN_A, USER);
    let result = run(
        &mut pair,
        &mut manager,
        &mut world,
        add_liquidity_action((10000, 10000), (0, 0), USER),
        USER,
        1000,
    );
    assert_eq!(result, Err(Error::TransferFailed));
    assert_eq!(world.balance(TOKEN_A, USER), before);
    assert_eq!(world.balance(TOKEN_A, PAIR), 0);
    assert_eq!(pair.reserve, (0, 0));
    assert_eq!(pair.ft_state.total_supply(), U256::zero());
    // The failed action no longer occupies the cache.
    assert!(manager.cached_actions().is_empty());
}

#[test]
fn swap_compensates_failed_output_leg() {
    let (mut pair, mut manager, mut world) = fresh_pair();
    run(
        &mut pair,
        &mut manager,
        &mut world,
        add_liquidity_action((10000, 10000), (0, 0), USER),
        USER,
        1000,
    )
    .unwrap();
    world.failing_tokens.push(TOKEN_B);
    let before = world.balance(TOKEN_A, USER);
    let result = run(
        &mut pair,
        &mut manager,
        &mut world,
        swap_exact_action(1000, 0, USER, SwapKind::AForB),
        USER,
        2000,
    );
    assert_eq!(result, Err(Error::TransferFailed));
    assert_eq!(world.balance(TOKEN_A, USER), before);
    assert_eq!(pair.reserve, (10000, 10000));
}

#[test]
fn swap_grows_reserve_product() {
    let (mut pair, mut manager, mut world) = fresh_pair();
    run(
        &mut pair,
        &mut manager,
        &mut world,
        add_liquidity_action((10000, 10000), (0, 0), USER),
        USER,
        1000,
    )
    .unwrap();
    let product_before = pair.reserve.0 * pair.reserve.1;
    run(
        &mut pair,
        &mut manager,
        &mut world,
        swap_exact_action(1000, 0, USER, SwapKind::AForB),
        USER,
        2000,
    )
    .unwrap();
    assert_eq!(pair.reserve, (11000, 9094));
    assert!(pair.reserve.0 * pair.reserve.1 >= product_before);

    // And for the exact-output direction, in the other orientation.
    let product_before = pair.reserve.0 * pair.reserve.1;
    let event = run(
        &mut pair,
        &mut manager,
        &mut world,
        Action::new(InnerAction::SwapTokensForExactTokens {
            amount_out: 500,
            amount_in_max: u128::MAX,
            to: actor(USER),
            deadline: u64::MAX,
            swap_kind: SwapKind::BForA,
        }),
        USER,
        3000,
    )
    .unwrap();
    match event {
        Event::Swap { out_amount, kind, .. } => {
            assert_eq!(out_amount, 500);
            assert_eq!(kind, SwapKind::BForA);
        }
        _ => panic!("expected a swap event"),
    }
    assert!(pair.reserve.0 * pair.reserve.1 >= product_before);
}

#[test]
fn remove_liquidity_pays_out_and_settles_fee() {
    let (mut pair, mut manager, mut world) = fresh_pair();
    world.fee_to = Some(actor(FEE_RECEIVER));
    run(
        &mut pair,
        &mut manager,
        &mut world,
        add_liquidity_action((1_000_000, 1_000_000), (0, 0), USER),
        USER,
        1000,
    )
    .unwrap();
    // The fee is on, so the first mint records k_last.
    assert_eq!(pair.k_last, dex::u256::mul_u128(1_000_000, 1_000_000));
    run(
        &mut pair,
        &mut manager,
        &mut world,
        swap_exact_action(500_000, 0, USER, SwapKind::AForB),
        USER,
        2000,
    )
    .unwrap();
    assert_eq!(pair.reserve, (1_500_000, 667_335));

    let event = run(
        &mut pair,
        &mut manager,
        &mut world,
        Action::new(InnerAction::RemoveLiquidity {
            liquidity: U256::from_u128(999_000),
            amount_a_min: 0,
            amount_b_min: 0,
            to: actor(USER),
            deadline: u64::MAX,
        }),
        USER,
        3000,
    )
    .unwrap();
    // The fee receiver got its 1/6 share of the pool's growth.
    assert_eq!(
        event,
        Event::RemovedLiquidity {
            sender: actor(USER),
            amount_a: 1_498_375,
            amount_b: 666_612,
            to: actor(USER),
        }
    );
    assert_eq!(
        pair.ft_state.balance_of(actor(FEE_RECEIVER)),
        U256::from_u128(83)
    );
    assert_eq!(pair.ft_state.total_supply(), U256::from_u128(1083));
    assert_eq!(pair.reserve, (1625, 723));
    assert_eq!(pair.k_last, dex::u256::mul_u128(1625, 723));
    assert_eq!(world.balance(TOKEN_A, USER), 10_000_000 - 1_500_000 + 1_498_375);
}

#[test]
fn remove_liquidity_remints_after_first_leg_failure() {
    let (mut pair, mut manager, mut world) = fresh_pair();
    run(
        &mut pair,
        &mut manager,
        &mut world,
        add_liquidity_action((10000, 10000), (0, 0), USER),
        USER,
        1000,
    )
    .unwrap();
    world.failing_tokens.push(TOKEN_A);
    let result = run(
        &mut pair,
        &mut manager,
        &mut world,
        Action::new(InnerAction::RemoveLiquidity {
            liquidity: U256::from_u128(9000),
            amount_a_min: 0,
            amount_b_min: 0,
            to: actor(USER),
            deadline: u64::MAX,
        }),
        USER,
        2000,
    );
    assert_eq!(result, Err(Error::TransferFailed));
    // The burn was compensated: the caller holds its shares again.
    assert_eq!(pair.ft_state.balance_of(actor(USER)), U256::from_u128(9000));
    assert_eq!(pair.ft_state.total_supply(), U256::from_u128(10000));
    assert_eq!(pair.reserve, (10000, 10000));
}

#[test]
fn remove_liquidity_second_leg_failure_is_not_compensated() {
    let (mut pair, mut manager, mut world) = fresh_pair();
    run(
        &mut pair,
        &mut manager,
        &mut world,
        add_liquidity_action((10000, 10000), (0, 0), USER),
        USER,
        1000,
    )
    .unwrap();
    world.failing_tokens.push(TOKEN_B);
    let result = run(
        &mut pair,
        &mut manager,
        &mut world,
        Action::new(InnerAction::RemoveLiquidity {
            liquidity: U256::from_u128(9000),
            amount_a_min: 0,
            amount_b_min: 0,
            to: actor(USER),
            deadline: u64::MAX,
        }),
        USER,
        2000,
    );
    // The deliberate asymmetric-risk point: the first payout cannot be
    // cancelled, so the burned shares stay burned and the reserves untouched.
    assert_eq!(result, Err(Error::TransferFailed));
    assert_eq!(pair.ft_state.balance_of(actor(USER)), U256::zero());
    assert_eq!(pair.ft_state.total_supply(), U256::from_u128(1000));
    assert_eq!(pair.reserve, (10000, 10000));
    // The token A payout did leave the pool.
    assert_eq!(world.balance(TOKEN_A, USER), 10_000_000 - 10000 + 9000);
}

#[test]
fn retry_reuses_the_cached_transaction() {
    let (mut pair, mut manager, mut world) = fresh_pair();
    // The first attempt aborts mid-flight (after admission): the session is
    // abandoned without a release, as when the runtime runs out of gas.
    let step = handle(
        &mut pair,
        &mut manager,
        add_liquidity_action((10000, 10000), (0, 0), USER),
        actor(USER),
        actor(PAIR),
        1000,
    );
    match step {
        Step::Next(_, _) => {}
        Step::Done(result) => panic!("expected a suspension, got {result:?}"),
    }
    assert_eq!(manager.cached_actions().len(), 1);

    // A mismatched retry is rejected.
    let result = run(
        &mut pair,
        &mut manager,
        &mut world,
        add_liquidity_action((6000, 6000), (0, 0), USER).to_retry(),
        USER,
        1000,
    );
    assert_eq!(
        result,
        Err(Error::TxCacheError(
            dex::io::TransactionCacheError::MismatchedAction
        ))
    );

    // The matching retry resumes under the cached id and completes.
    let retried = add_liquidity_action((10000, 10000), (0, 0), USER).to_retry();
    assert_eq!(retried.kind, TransactionKind::Retry);
    let event = run(&mut pair, &mut manager, &mut world, retried, USER, 1000).unwrap();
    match event {
        Event::AddedLiquidity { liquidity, .. } => {
            assert_eq!(liquidity, U256::from_u128(9000))
        }
        _ => panic!("expected an added-liquidity event"),
    }
    // Completion released the guard: nothing is cached any more.
    assert!(manager.cached_actions().is_empty());
    let result = run(
        &mut pair,
        &mut manager,
        &mut world,
        add_liquidity_action((10000, 10000), (0, 0), USER).to_retry(),
        USER,
        1000,
    );
    assert_eq!(
        result,
        Err(Error::TxCacheError(
            dex::io::TransactionCacheError::TransactionNotFound
        ))
    );
}

#[test]
fn sync_sets_reserves_to_balances() {
    let (mut pair, mut manager, mut world) = fresh_pair();
    world.mint(TOKEN_A, PAIR, 123);
    world.mint(TOKEN_B, PAIR, 456);
    let event = run(
        &mut pair,
        &mut manager,
        &mut world,
        Action::new(InnerAction::Sync),
        USER,
        1000,
    )
    .unwrap();
    assert_eq!(event, Event::Sync { reserve_a: 123, reserve_b: 456 });
    assert_eq!(pair.reserve, (123, 456));

    world.balance_query_fails = true;
    let result = run(
        &mut pair,
        &mut manager,
        &mut world,
        Action::new(InnerAction::Sync),
        USER,
        2000,
    );
    assert_eq!(
        result,
        Err(Error::ContractError(String::from("balance query failed")))
    );
}

#[test]
fn skim_transfers_the_excess() {
    let (mut pair, mut manager, mut world) = fresh_pair();
    run(
        &mut pair,
        &mut manager,
        &mut world,
        add_liquidity_action((10000, 10000), (0, 0), USER),
        USER,
        1000,
    )
    .unwrap();
    // A donation makes the actual balances exceed the reserves.
    world.mint(TOKEN_A, PAIR, 77);
    world.mint(TOKEN_B, PAIR, 5);
    let event = run(
        &mut pair,
        &mut manager,
        &mut world,
        Action::new(InnerAction::Skim(actor(OTHER_USER))),
        USER,
        2000,
    )
    .unwrap();
    assert_eq!(
        event,
        Event::Skim { amount_a: 77, amount_b: 5, to: actor(OTHER_USER) }
    );
    assert_eq!(world.balance(TOKEN_A, OTHER_USER), 77);
    assert_eq!(world.balance(TOKEN_B, OTHER_USER), 5);
    assert_eq!(pair.reserve, (10000, 10000));

    // A balance below the recorded reserve cannot be skimmed.
    world.balances.insert((TOKEN_A, PAIR), 9999);
    let result = run(
        &mut pair,
        &mut manager,
        &mut world,
        Action::new(InnerAction::Skim(actor(OTHER_USER))),
        USER,
        3000,
    );
    assert_eq!(result, Err(Error::Overflow));
}

#[test]
fn share_transfer_moves_liquidity_tokens() {
    let (mut pair, mut manager, mut world) = fresh_pair();
    run(
        &mut pair,
        &mut manager,
        &mut world,
        add_liquidity_action((10000, 10000), (0, 0), USER),
        USER,
        1000,
    )
    .unwrap();
    let event = run(
        &mut pair,
        &mut manager,
        &mut world,
        Action::new(InnerAction::Transfer { to: actor(OTHER_USER), amount: U256::from_u128(500) }),
        USER,
        2000,
    )
    .unwrap();
    assert_eq!(
        event,
        Event::Transfer {
            from: actor(USER),
            to: actor(OTHER_USER),
            amount: U256::from_u128(500)
        }
    );
    assert_eq!(pair.ft_state.balance_of(actor(USER)), U256::from_u128(8500));
    assert_eq!(
        pair.ft_state.balance_of(actor(OTHER_USER)),
        U256::from_u128(500)
    );

    let result = run(
        &mut pair,
        &mut manager,
        &mut world,
        Action::new(InnerAction::Transfer {
            to: actor(OTHER_USER),
            amount: U256::from_u128(1_000_000),
        }),
        USER,
        3000,
    );
    assert_eq!(result, Err(Error::InsufficientAmount));
}

#[test]
fn rejection_errors_are_reported() {
    let (mut pair, mut manager, mut world) = fresh_pair();
    run(
        &mut pair,
        &mut manager,
        &mut world,
        add_liquidity_action((10000, 10000), (0, 0), USER),
        USER,
        1000,
    )
    .unwrap();

    // A deadline in the past.
    let mut action = add_liquidity_action((100, 100), (0, 0), USER);
    action.action = InnerAction::AddLiquidity {
        amount_a_desired: 100,
        amount_b_desired: 100,
        amount_a_min: 0,
        amount_b_min: 0,
        to: actor(USER),
        deadline: 10,
    };
    let result = run(&mut pair, &mut manager, &mut world, action, USER, 2000);
    assert_eq!(result, Err(Error::DeadlineExceeded));

    // A swap may not pay out to one of the pair's own tokens.
    let result = run(
        &mut pair,
        &mut manager,
        &mut world,
        swap_exact_action(1000, 0, TOKEN_B, SwapKind::AForB),
        USER,
        2000,
    );
    assert_eq!(result, Err(Error::InvalidRecipient));

    // A slippage bound that cannot be met.
    let result = run(
        &mut pair,
        &mut manager,
        &mut world,
        swap_exact_action(1000, 10000, USER, SwapKind::AForB),
        USER,
        2000,
    );
    assert_eq!(result, Err(Error::InsufficientLatterAmount));
    let result = run(
        &mut pair,
        &mut manager,
        &mut world,
        Action::new(InnerAction::SwapTokensForExactTokens {
            amount_out: 5000,
            amount_in_max: 1,
            to: actor(USER),
            deadline: u64::MAX,
            swap_kind: SwapKind::AForB,
        }),
        USER,
        2000,
    );
    assert_eq!(result, Err(Error::InsufficientFormerAmount));

    // A proportional deposit under the caller's own minimum.
    let result = run(
        &mut pair,
        &mut manager,
        &mut world,
        add_liquidity_action((1000, 2000), (0, 1001), USER),
        USER,
        2000,
    );
    assert_eq!(result, Err(Error::InsufficientLatterAmount));

    // The factory query failing poisons the whole deposit.
    world.fee_to = None;
    let result = run(
        &mut pair,
        &mut manager,
        &mut world,
        add_liquidity_action((1000, 1000), (0, 0), USER),
        USER,
        2000,
    );
    assert_eq!(result, Err(Error::FeeToGettingFailed));
}

#[test]
fn price_accumulators_advance_once_per_timestamp() {
    let mut pair = Pair::new((actor(TOKEN_A), actor(TOKEN_B)), actor(FACTORY)).unwrap();
    // Establish reserves (2, 1) at time 0, then sync three milliseconds
    // later: each accumulator gains its Q128 price ratio times the elapsed
    // time.
    pair.sync((2, 1), 0);
    assert_eq!(pair.cumulative_price, (U256::zero(), U256::zero()));
    pair.sync((2, 1), 3);
    assert_eq!(
        pair.cumulative_price.0,
        U256 { lo: 0x80000000000000000000000000000000, hi: 1 }
    );
    assert_eq!(pair.cumulative_price.1, U256 { lo: 0, hi: 6 });
    // The same timestamp never advances the accumulators again.
    let before = pair.cumulative_price;
    pair.sync((2, 1), 3);
    assert_eq!(pair.cumulative_price, before);
}

#[test]
fn degenerate_pools_are_rejected() {
    // Nothing can be removed from an empty pool, not even zero liquidity.
    let (mut pair, mut manager, mut world) = fresh_pair();
    let result = run(
        &mut pair,
        &mut manager,
        &mut world,
        Action::new(InnerAction::RemoveLiquidity {
            liquidity: U256::zero(),
            amount_a_min: 0,
            amount_b_min: 0,
            to: actor(USER),
            deadline: u64::MAX,
        }),
        USER,
        1000,
    );
    assert_eq!(result, Err(Error::InsufficientLiquidity));

    // A pool whose reserves were synced away while shares are outstanding
    // grants no share for a deposit.
    run(
        &mut pair,
        &mut manager,
        &mut world,
        add_liquidity_action((10000, 10000), (0, 0), USER),
        USER,
        1000,
    )
    .unwrap();
    world.balances.insert((TOKEN_A, PAIR), 0);
    world.balances.insert((TOKEN_B, PAIR), 0);
    run(
        &mut pair,
        &mut manager,
        &mut world,
        Action::new(InnerAction::Sync),
        USER,
        2000,
    )
    .unwrap();
    assert_eq!(pair.reserve, (0, 0));
    let result = run(
        &mut pair,
        &mut manager,
        &mut world,
        add_liquidity_action((100, 100), (0, 0), USER),
        USER,
        3000,
    );
    assert_eq!(result, Err(Error::InsufficientLiquidity));
}

#[test]
fn zero_actor_checks_at_initialization() {
    assert!(Pair::new((actor(0), actor(TOKEN_B)), actor(FACTORY)).is_err());
    assert!(Pair::new((actor(TOKEN_A), actor(0)), actor(FACTORY)).is_err());
    assert!(Pair::new((actor(0), actor(0)), actor(FACTORY)).is_ok());
    assert!(Pair::new((actor(TOKEN_A), actor(TOKEN_B)), actor(FACTORY)).is_ok());
}

#[test]
fn state_snapshot_reflects_the_contract() {
    let (mut pair, mut manager, mut world) = fresh_pair();
    run(
        &mut pair,
        &mut manager,
        &mut world,
        add_liquidity_action((10000, 10000), (0, 0), USER),
        USER,
        1000,
    )
    .unwrap();
    manager
        .asquire_transaction(TransactionKind::New, actor(USER), CachedAction::Swap(7))
        .unwrap();
    let state = pair.state(&manager);
    assert_eq!(state.factory, actor(FACTORY));
    assert_eq!(state.token, (actor(TOKEN_A), actor(TOKEN_B)));
    assert_eq!(state.reserve, (10000, 10000));
    assert_eq!(state.last_block_ts, 1000);
    assert_eq!(state.ft_state.total_supply(), U256::from_u128(10000));
    assert_eq!(state.cached_actions, vec![(actor(USER), CachedAction::Swap(7))]);
}
