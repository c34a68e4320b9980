use stabilitypool::config::{EpochConfig, PoolConfig, PoolConfigConsensus, PoolConfigLocal, PoolConfigPrivate};
use stabilitypool::keys::XOnlyPublicKey;
use stabilitypool::ledger::{
    AccountBalance, Amount, LockedBalance, OutPoint, PoolInput, PoolOutput, PoolOutputOutcome,
    TransactionItemAmount,
};
use stabilitypool::module::{IntoModuleError, ModuleError};
use stabilitypool::oracle::OracleConfig;
use stabilitypool::server::{
    AwaitStep, ConsensusItemTask, PoolConsensusItem, PoolVerificationCache, StabilityPool,
    StabilityPoolError, WithdrawalError,
};

type Pool = StabilityPool<u8, u8, u8>;

fn pool() -> Pool {
    StabilityPool::new(PoolConfig {
        local: PoolConfigLocal,
        private: PoolConfigPrivate,
        consensus: PoolConfigConsensus {
            epoch: EpochConfig {
                start_epoch_at: 0,
                epoch_length: 40,
                price_threshold: 3,
                max_feerate_ppm: 100_000,
                collateral_ratio: 1,
            },
            oracle: OracleConfig::BitMex,
        },
    })
}

fn msats(msats: u64) -> Amount {
    Amount { msats }
}

/// What the tests lock: a name and a number, which nothing but the tests looks into.
type Holding = (String, u8);

fn held(unlocked: u64, locked: u64, holding: Holding) -> AccountBalance<Holding> {
    AccountBalance { unlocked: msats(unlocked), locked: LockedBalance { amount: msats(locked), holding } }
}

fn balance(unlocked: u64, locked: u64) -> AccountBalance<Holding> {
    held(unlocked, locked, Holding::default())
}

const ALICE: XOnlyPublicKey = XOnlyPublicKey { bytes: [7; 32] };
const OUT: OutPoint = OutPoint { txid: [1; 32], out_idx: 5 };

#[test]
fn withdrawal_within_the_unlocked_balance() {
    let input = PoolInput { account: ALICE, amount: msats(30) };
    let granted = pool().process_input(Some(balance(100, 50)), &input, &PoolVerificationCache).unwrap();
    assert_eq!(granted.meta.amount, TransactionItemAmount { amount: msats(30), fee: msats(0) });
    assert_eq!(granted.meta.pub_keys, vec![ALICE]);
    assert_eq!(granted.balance, balance(70, 50));
}

#[test]
fn withdrawal_of_everything() {
    let input = PoolInput { account: ALICE, amount: msats(100) };
    let granted = pool().process_input(Some(balance(100, 50)), &input, &PoolVerificationCache).unwrap();
    assert_eq!(granted.balance, balance(0, 50));
}

#[test]
fn withdrawal_beyond_the_unlocked_balance() {
    let input = PoolInput { account: ALICE, amount: msats(101) };
    let refused = pool().process_input(Some(balance(100, 50)), &input, &PoolVerificationCache);
    assert_eq!(
        refused.unwrap_err(),
        ModuleError::Other(WithdrawalError::UnavailableFunds { amount: msats(101), available: msats(100) })
    );
}

#[test]
fn withdrawal_from_an_unused_account() {
    let input = PoolInput { account: ALICE, amount: msats(1) };
    let refused = pool().process_input(None::<AccountBalance<Holding>>, &input, &PoolVerificationCache);
    assert_eq!(
        refused.unwrap_err(),
        ModuleError::Other(WithdrawalError::UnavailableFunds { amount: msats(1), available: msats(0) })
    );
    let nothing = PoolInput { account: ALICE, amount: msats(0) };
    let granted = pool().process_input(None, &nothing, &PoolVerificationCache).unwrap();
    assert_eq!(granted.balance, balance(0, 0));
}

#[test]
fn deposit_to_an_account() {
    let output = PoolOutput { account: ALICE, amount: msats(30) };
    let taken = pool().process_output(Some(balance(100, 50)), &output, OUT).unwrap();
    assert_eq!(taken.item, TransactionItemAmount { amount: msats(30), fee: msats(0) });
    assert_eq!(taken.balance, balance(130, 50));
    assert_eq!(taken.out_point, OUT);
    assert_eq!(pool().output_status(Some(taken.outcome)), Some(PoolOutputOutcome(ALICE)));
}

#[test]
fn deposit_to_an_unused_account() {
    let output = PoolOutput { account: ALICE, amount: msats(u64::MAX) };
    let taken = pool().process_output(None, &output, OUT).unwrap();
    assert_eq!(taken.balance, balance(u64::MAX, 0));
}

#[test]
fn deposit_that_is_too_large() {
    let output = PoolOutput { account: ALICE, amount: msats(6) };
    let fits = balance(u64::MAX - 10, 4);
    assert!(fits.can_add_amount(msats(6)));
    assert_eq!(pool().process_output(Some(fits), &output, OUT).unwrap().balance, balance(u64::MAX - 4, 4));
    let full = balance(u64::MAX - 10, 5);
    assert!(!full.can_add_amount(msats(6)));
    assert_eq!(
        pool().process_output(Some(full), &output, OUT).unwrap_err(),
        ModuleError::Other(StabilityPoolError::DepositTooLarge)
    );
    assert!(!balance(u64::MAX, 1).can_add_amount(msats(0)));
}

#[test]
fn deposit_and_withdrawal_cancel_out() {
    let before = balance(100, 50);
    let deposited = pool()
        .process_output(Some(before.clone()), &PoolOutput { account: ALICE, amount: msats(9) }, OUT)
        .unwrap()
        .balance;
    let after = pool()
        .process_input(Some(deposited), &PoolInput { account: ALICE, amount: msats(9) }, &PoolVerificationCache)
        .unwrap()
        .balance;
    assert_eq!(after, before);
}

#[test]
fn what_is_locked_is_written_back_unchanged() {
    let seeker = || -> Holding { ("seeker".to_string(), 9) };
    let output = PoolOutput { account: ALICE, amount: msats(5) };
    let deposited = pool().process_output(Some(held(10, 3, seeker())), &output, OUT).unwrap().balance;
    assert_eq!(deposited, held(15, 3, seeker()));
    let input = PoolInput { account: ALICE, amount: msats(15) };
    let withdrawn = pool().process_input(Some(deposited), &input, &PoolVerificationCache).unwrap().balance;
    assert_eq!(withdrawn, held(0, 3, seeker()));
    assert_eq!(withdrawn.locked.amount(), msats(3));
}

#[test]
fn status_of_an_unknown_output() {
    assert_eq!(pool().output_status(None), None);
}

#[test]
fn audit_of_accounts() {
    let accounts = [balance(1, 2), balance(0, 0), balance(i64::MAX as u64, 0), balance(i64::MAX as u64, 1)];
    assert_eq!(pool().audit(&accounts), vec![3, 0, i64::MAX, i64::MIN]);
    assert_eq!(balance(3, 4).liability(), 7);
}

#[test]
fn audit_follows_deposits_and_withdrawals() {
    let pool = pool();
    let sum = |accounts: &[AccountBalance<Holding>]| -> i64 { pool.audit(accounts).iter().sum() };
    let other = balance(40, 2);
    let before = balance(100, 7);
    assert_eq!(sum(&[before.clone(), other.clone()]), 149);
    let deposit = PoolOutput { account: ALICE, amount: msats(25) };
    let deposited = pool.process_output(Some(before), &deposit, OUT).unwrap().balance;
    assert_eq!(sum(&[deposited.clone(), other.clone()]), 174);
    let withdrawal = PoolInput { account: ALICE, amount: msats(125) };
    let withdrawn =
        pool.process_input(Some(deposited), &withdrawal, &PoolVerificationCache).unwrap().balance;
    assert_eq!(withdrawn, balance(0, 7));
    assert_eq!(sum(&[withdrawn, other]), 49);
}

#[test]
fn amounts_of_nothing() {
    assert_eq!(Amount::zero(), msats(0));
    assert_eq!(TransactionItemAmount::zero(), TransactionItemAmount { amount: msats(0), fee: msats(0) });
    assert_eq!(AccountBalance::default(), balance(0, 0));
}

#[test]
fn errors_shown() {
    assert_eq!(StabilityPoolError::SomethingDummyWentWrong.to_text(), "placeholder error");
    assert_eq!(StabilityPoolError::DepositTooLarge.to_text(), "that deposit pukking big");
    let error = WithdrawalError::UnavailableFunds { amount: msats(101), available: msats(100) };
    assert_eq!(
        error.to_text(|amount: Amount| format!("{} msat", amount.msats)),
        "attempted to withdraw 101 msat when only 100 msat was available"
    );
}

#[test]
fn errors_become_module_errors() {
    let fine: Result<u8, u8> = Ok(1);
    assert_eq!(fine.into_module_error_other(), Ok(1));
    let bad: Result<u8, u8> = Err(2);
    assert_eq!(bad.into_module_error_other(), Err(ModuleError::Other(2)));
}

#[test]
fn proposal_of_the_pool() {
    let proposal = pool().consensus_proposal(vec!["epoch"], vec!["action", "another"]);
    assert!(!proposal.forces_new_epoch());
    assert_eq!(proposal.items(), &["epoch", "action", "another"]);
}

#[test]
fn consensus_items_reach_their_module() {
    let pool = pool();
    let action: PoolConsensusItem<&str, &str> = PoolConsensusItem::ActionProposed("bid");
    match pool.process_consensus_item(action, 4) {
        ConsensusItemTask::CountAction { peer_id, action_proposed, price_threshold } => {
            assert_eq!((peer_id, action_proposed, price_threshold), (4, "bid", 3));
        }
        ConsensusItemTask::CountEpochEnd { .. } => panic!("wrong module"),
    }
    let end: PoolConsensusItem<&str, &str> = PoolConsensusItem::EpochEnd("end");
    match pool.process_consensus_item(end, 2) {
        ConsensusItemTask::CountEpochEnd { peer_id, epoch_end, epoch_config } => {
            assert_eq!((peer_id, epoch_end, epoch_config.epoch_length), (2, "end", 40));
        }
        ConsensusItemTask::CountAction { .. } => panic!("wrong module"),
    }
    assert_eq!(pool.build_verification_cache(&[]), PoolVerificationCache);
}

#[test]
fn waiting_for_something_to_propose() {
    let pool = pool();
    let answers = [false, false, true, false, true];
    let mut step = AwaitStep::AskActions;
    let mut steps = vec![step];
    for answer in answers {
        step = pool.await_consensus_proposal(step, answer);
        steps.push(step);
    }
    assert_eq!(
        steps,
        vec![
            AwaitStep::AskActions,
            AwaitStep::AskEpoch,
            AwaitStep::Sleep { seconds: 5 },
            AwaitStep::AskActions,
            AwaitStep::AskEpoch,
            AwaitStep::Ready,
        ]
    );
    assert_eq!(pool.await_consensus_proposal(AwaitStep::AskActions, true), AwaitStep::Ready);
}
