//! The pool as a guardian runs it.
//!
//! The guardian's database and the modules that handle actions and epochs are asked for
//! what is needed and told what to write; what is decided in between is here.

use crate::config::{EpochConfig, PoolConfig};
use crate::keys::XOnlyPublicKey;
use crate::ledger::{
    available, can_deposit, can_withdraw, is_after_deposit, is_after_withdrawal, wrapped,
    AccountBalance, Amount, InputMeta, OutPoint, PoolInput, PoolOutput, PoolOutputOutcome,
    TransactionItemAmount,
};
use crate::module::{IntoModuleError, ModuleCommon, ModuleError, PeerId};
use crate::oracle::OracleClient;
use crate::proposal::ConsensusProposal;
use std::marker::PhantomData;
use vstd::prelude::*;

verus! {

/// Why a deposit is refused.
#[derive(Debug, Clone, Copy, PartialEq, Eq, Structural, Hash)]
pub enum StabilityPoolError {
    SomethingDummyWentWrong,
    DepositTooLarge,
}

impl StabilityPoolError {
    /// The text that shows the error.
    pub fn to_text(&self) -> (text: &'static str)
        ensures
            match self {
                StabilityPoolError::SomethingDummyWentWrong => text@ == "placeholder error"@,
                StabilityPoolError::DepositTooLarge => text@ == "that deposit pukking big"@,
            },
    {
        match self {
            StabilityPoolError::SomethingDummyWentWrong => "placeholder error",
            StabilityPoolError::DepositTooLarge => "that deposit pukking big",
        }
    }
}

/// Why a withdrawal is refused.
#[derive(Debug, Clone, Copy, PartialEq, Eq, Structural, Hash)]
pub enum WithdrawalError {
    UnavailableFunds { amount: Amount, available: Amount },
}

impl WithdrawalError {
    /// The text that shows the error, where `show` gives the text that shows an amount.
    pub fn to_text<F: Fn(Amount) -> String>(&self, show: F) -> (text: String)
        requires
            forall|amount: Amount| call_requires(show, (amount,)),
        ensures
            ({
                let WithdrawalError::UnavailableFunds { amount, available } = *self;
                exists|shown: String, shown_available: String|
                    {
                        &&& #[trigger] call_ensures(show, (amount,), shown)
                        &&& #[trigger] call_ensures(show, (available,), shown_available)
                        &&& text@ == "attempted to withdraw "@ + shown@ + " when only "@
                            + shown_available@ + " was available"@
                    }
            }),
    {
        match self {
            WithdrawalError::UnavailableFunds { amount, available } => {
                let shown = show(*amount);
                let shown_available = show(*available);
                "attempted to withdraw ".to_string().concat(shown.as_str()).concat(
                    " when only ",
                ).concat(shown_available.as_str()).concat(" was available")
            },
        }
    }
}

/// A guardian has nothing to prepare before it checks withdrawals.
#[derive(Debug, Clone, Copy, PartialEq, Eq, Structural, Hash)]
pub struct PoolVerificationCache;

/// What the guardians agree on: `Proposed` is an action that was proposed, and `Ended` is
/// what a guardian says at the end of an epoch.
#[derive(Debug)]
pub enum PoolConsensusItem<Proposed, Ended> {
    ActionProposed(Proposed),
    EpochEnd(Ended),
}

/// The types of the pool that travel in encoded form.
#[derive(Debug)]
pub struct PoolModuleTypes<Proposed, Ended> {
    items: PhantomData<PoolConsensusItem<Proposed, Ended>>,
}

impl<Proposed, Ended> ModuleCommon for PoolModuleTypes<Proposed, Ended> {
    type Input = PoolInput;

    type Output = PoolOutput;

    type OutputOutcome = PoolOutputOutcome;

    type ConsensusItem = PoolConsensusItem<Proposed, Ended>;
}

/// What is to be done with an item that the guardians agreed on.
#[derive(Debug)]
pub enum ConsensusItemTask<'a, Proposed, Ended, Ratio> {
    /// Let the action module count the proposal that `peer_id` passed on. It takes
    /// `price_threshold` guardians.
    CountAction { peer_id: PeerId, action_proposed: Proposed, price_threshold: u32 },
    /// Let the epoch module count what `peer_id` said at the end of an epoch.
    CountEpochEnd { peer_id: PeerId, epoch_end: Ended, epoch_config: &'a EpochConfig<Ratio> },
}

/// Seconds between two looks at whether there is something to propose.
pub const PROPOSAL_POLL_SECONDS: u64 = 5;

/// What a guardian does while it waits for something to propose.
#[derive(Debug, Clone, Copy, PartialEq, Eq, Structural, Hash)]
pub enum AwaitStep {
    /// Ask the action module whether it has something to propose.
    AskActions,
    /// Ask the epoch module whether it has something to propose.
    AskEpoch,
    /// Sleep for this many seconds.
    Sleep { seconds: u64 },
    /// There is something to propose.
    Ready,
}

impl AwaitStep {
    /// The step after this one. `can_propose` is the answer, where this step asks for one.
    pub open spec fn following(self, can_propose: bool) -> AwaitStep {
        match self {
            AwaitStep::AskActions => if can_propose {
                AwaitStep::Ready
            } else {
                AwaitStep::AskEpoch
            },
            AwaitStep::AskEpoch => if can_propose {
                AwaitStep::Ready
            } else {
                AwaitStep::Sleep { seconds: PROPOSAL_POLL_SECONDS }
            },
            AwaitStep::Sleep { .. } => AwaitStep::AskActions,
            AwaitStep::Ready => AwaitStep::Ready,
        }
    }
}

/// A withdrawal that is granted: what it brings into the transaction, and the balance that
/// is to be written for the account.
#[derive(Debug)]
pub struct Withdrawal<Holding> {
    pub meta: InputMeta,
    pub balance: AccountBalance<Holding>,
}

/// A deposit that is taken: what it takes out of the transaction, the balance that is to be
/// written for the account, and the outcome that is to be written for the output.
#[derive(Debug)]
pub struct Deposit<Holding> {
    pub item: TransactionItemAmount,
    pub balance: AccountBalance<Holding>,
    pub out_point: OutPoint,
    pub outcome: XOnlyPublicKey,
}

/// The pool of one guardian. `BackOff` tells when to speak up at the end of an epoch, and
/// `ProposedDb` holds the actions that are still to be proposed.
#[derive(Debug)]
pub struct StabilityPool<Ratio, BackOff, ProposedDb> {
    pub cfg: PoolConfig<Ratio>,
    pub oracle: OracleClient,
    pub backoff: BackOff,
    pub proposed_db: ProposedDb,
}

impl<Ratio, BackOff: Default, ProposedDb: Default> StabilityPool<Ratio, BackOff, ProposedDb> {
    /// Create new module instance
    pub fn new(cfg: PoolConfig<Ratio>) -> (pool: Self)
        requires
            cfg.consensus.oracle.has_client(),
        ensures
            pool.cfg == cfg,
            pool.oracle.serves(cfg.consensus.oracle),
            call_ensures(BackOff::default, (), pool.backoff),
            call_ensures(ProposedDb::default, (), pool.proposed_db),
    {
        let oracle = cfg.consensus.oracle.oracle_client();
        Self { cfg, oracle, backoff: BackOff::default(), proposed_db: ProposedDb::default() }
    }

    /// Create new module instance, or give the configuration back if its price source has
    /// a URL that cannot be read.
    pub fn try_new(cfg: PoolConfig<Ratio>) -> (pool: Result<Self, PoolConfig<Ratio>>)
        ensures
            match pool {
                Ok(pool) => {
                    &&& cfg.consensus.oracle.has_client()
                    &&& pool.cfg == cfg
                    &&& pool.oracle.serves(cfg.consensus.oracle)
                    &&& call_ensures(BackOff::default, (), pool.backoff)
                    &&& call_ensures(ProposedDb::default, (), pool.proposed_db)
                },
                Err(refused) => !cfg.consensus.oracle.has_client() && refused == cfg,
            },
    {
        if cfg.consensus.oracle.can_make_client() {
            Ok(Self::new(cfg))
        } else {
            Err(cfg)
        }
    }
}

impl<Ratio, BackOff, ProposedDb> StabilityPool<Ratio, BackOff, ProposedDb> {
    pub fn epoch_config(&self) -> (epoch: &EpochConfig<Ratio>)
        ensures
            *epoch == self.cfg.consensus.epoch,
    {
        &self.cfg.consensus.epoch
    }

    pub fn oracle(&self) -> (oracle: &OracleClient)
        ensures
            *oracle == self.oracle,
    {
        &self.oracle
    }

    /// Waiting for something to propose starts with `AwaitStep::AskActions`, and ends with
    /// `AwaitStep::Ready`. This is the step after `step`, whose answer is `can_propose`
    /// where it asks for one.
    pub fn await_consensus_proposal(&self, step: AwaitStep, can_propose: bool) -> (next: AwaitStep)
        ensures
            next == step.following(can_propose),
    {
        match step {
            AwaitStep::AskActions => if can_propose {
                AwaitStep::Ready
            } else {
                AwaitStep::AskEpoch
            },
            AwaitStep::AskEpoch => if can_propose {
                AwaitStep::Ready
            } else {
                AwaitStep::Sleep { seconds: PROPOSAL_POLL_SECONDS }
            },
            AwaitStep::Sleep { .. } => AwaitStep::AskActions,
            AwaitStep::Ready => AwaitStep::Ready,
        }
    }

    /// What the pool contributes to the next consensus round: first what the epoch module
    /// has to propose, then what the action module has.
    pub fn consensus_proposal<CI>(
        &self,
        epoch_items: Vec<CI>,
        action_items: Vec<CI>,
    ) -> (proposal: ConsensusProposal<CI>)
        ensures
            proposal is Contribute,
            proposal.contents() == epoch_items@ + action_items@,
            proposal matches ConsensusProposal::Contribute(items) && items@ == epoch_items@
                + action_items@,
    {
        let mut items: Vec<CI> = Vec::new();
        let mut epoch_items = epoch_items;
        let mut action_items = action_items;
        items.append(&mut epoch_items);
        items.append(&mut action_items);
        ConsensusProposal::Contribute(items)
    }

    /// Passes an item that the guardians agreed on to the module that counts it.
    pub fn process_consensus_item<Proposed, Ended>(
        &self,
        consensus_item: PoolConsensusItem<Proposed, Ended>,
        peer_id: PeerId,
    ) -> (task: ConsensusItemTask<'_, Proposed, Ended, Ratio>)
        ensures
            match consensus_item {
                PoolConsensusItem::ActionProposed(proposed) => {
                    &&& task matches ConsensusItemTask::CountAction {
                        peer_id: peer,
                        action_proposed,
                        price_threshold,
                    }
                    &&& peer == peer_id
                    &&& action_proposed == proposed
                    &&& price_threshold == self.cfg.consensus.epoch.price_threshold
                },
                PoolConsensusItem::EpochEnd(ended) => {
                    &&& task matches ConsensusItemTask::CountEpochEnd {
                        peer_id: peer,
                        epoch_end,
                        epoch_config,
                    }
                    &&& peer == peer_id
                    &&& epoch_end == ended
                    &&& *epoch_config == self.cfg.consensus.epoch
                },
            },
    {
        match consensus_item {
            PoolConsensusItem::ActionProposed(action_proposed) => ConsensusItemTask::CountAction {
                peer_id,
                action_proposed,
                price_threshold: self.epoch_config().price_threshold,
            },
            PoolConsensusItem::EpochEnd(epoch_end) => ConsensusItemTask::CountEpochEnd {
                peer_id,
                epoch_end,
                epoch_config: self.epoch_config(),
            },
        }
    }

    /// There is nothing to prepare.
    pub fn build_verification_cache(&self, _inputs: &[PoolInput]) -> (cache: PoolVerificationCache)
        ensures
            cache == PoolVerificationCache,
    {
        PoolVerificationCache
    }

    /// Checks a withdrawal from an account for which `record` is on record, and tells what
    /// it brings and what is to be written. The caller writes it.
    pub fn process_input<Holding: Default>(
        &self,
        record: Option<AccountBalance<Holding>>,
        withdrawal: &PoolInput,
        _verification_cache: &PoolVerificationCache,
    ) -> (granted: Result<Withdrawal<Holding>, ModuleError<WithdrawalError>>)
        ensures
            granted is Ok <==> can_withdraw(record, withdrawal.amount),
            granted is Ok <==> match record {
                Some(balance) => withdrawal.amount.msats <= balance.unlocked.msats,
                None => withdrawal.amount.msats == 0,
            },
            match granted {
                Ok(granted) => {
                    &&& granted.meta.amount.amount == withdrawal.amount
                    &&& granted.meta.amount.fee == Amount::zero()
                    &&& granted.meta.amount.fee.msats == 0
                    &&& granted.meta.pub_keys@ == seq![withdrawal.account]
                    &&& is_after_withdrawal(record, withdrawal.amount, granted.balance)
                    &&& record matches Some(before) ==> {
                        &&& granted.balance.unlocked.msats == before.unlocked.msats
                            - withdrawal.amount.msats
                        &&& granted.balance.locked == before.locked
                    }
                },
                Err(error) => error == ModuleError::Other(
                    (WithdrawalError::UnavailableFunds {
                        amount: withdrawal.amount,
                        available: available(record),
                    }),
                ),
            },
    {
        let available = match &record {
            Some(account) => account.unlocked,
            None => Amount::zero(),
        };
        if available.msats < withdrawal.amount.msats {
            return Err(
                WithdrawalError::UnavailableFunds { amount: withdrawal.amount, available },
            ).into_module_error_other();
        }
        let meta = InputMeta {
            amount: TransactionItemAmount { amount: withdrawal.amount, fee: Amount::zero() },
            pub_keys: vec![withdrawal.account],
        };
        let mut account = match record {
            Some(account) => account,
            None => AccountBalance::default(),
        };
        account.unlocked = Amount { msats: account.unlocked.msats - withdrawal.amount.msats };
        Ok(Withdrawal { meta, balance: account })
    }

    /// Checks a deposit to an account for which `record` is on record, and tells what it
    /// takes and what is to be written. The caller writes it.
    pub fn process_output<Holding: Default>(
        &self,
        record: Option<AccountBalance<Holding>>,
        deposit: &PoolOutput,
        out_point: OutPoint,
    ) -> (taken: Result<Deposit<Holding>, ModuleError<StabilityPoolError>>)
        ensures
            taken is Ok <==> can_deposit(record, deposit.amount),
            taken is Ok <==> match record {
                Some(balance) => balance.unlocked.msats + balance.locked.amount.msats
                    + deposit.amount.msats <= u64::MAX,
                None => true,
            },
            match taken {
                Ok(taken) => {
                    &&& taken.item.amount == deposit.amount
                    &&& taken.item.fee == Amount::zero()
                    &&& taken.item.fee.msats == 0
                    &&& is_after_deposit(record, deposit.amount, taken.balance)
                    &&& match record {
                        Some(before) => {
                            &&& taken.balance.unlocked.msats == before.unlocked.msats
                                + deposit.amount.msats
                            &&& taken.balance.locked == before.locked
                        },
                        None => {
                            &&& taken.balance.unlocked.msats == deposit.amount.msats
                            &&& taken.balance.locked.amount.msats == 0
                        },
                    }
                    &&& taken.out_point == out_point
                    &&& taken.outcome == deposit.account
                },
                Err(error) => error == ModuleError::Other(StabilityPoolError::DepositTooLarge),
            },
    {
        if let Some(account) = &record {
            if !account.can_add_amount(deposit.amount) {
                return Err(StabilityPoolError::DepositTooLarge).into_module_error_other();
            }
        }
        let item = TransactionItemAmount { amount: deposit.amount, fee: Amount::zero() };
        let mut account = match record {
            Some(account) => account,
            None => AccountBalance::default(),
        };
        account.unlocked = Amount { msats: account.unlocked.msats + deposit.amount.msats };
        Ok(Deposit { item, balance: account, out_point, outcome: deposit.account })
    }

    /// What became of a deposit, where `outcome` is on record for its output.
    pub fn output_status(&self, outcome: Option<XOnlyPublicKey>) -> (status: Option<
        PoolOutputOutcome,
    >)
        ensures
            match outcome {
                Some(account) => status == Some(PoolOutputOutcome(account)),
                None => status is None,
            },
    {
        match outcome {
            Some(account) => Some(PoolOutputOutcome(account)),
            None => None,
        }
    }

    /// What each of the accounts adds to the liabilities of the pool, in thousandths of a
    /// satoshi.
    pub fn audit<Holding>(&self, accounts: &[AccountBalance<Holding>]) -> (items: Vec<i64>)
        requires
            forall|i: int| 0 <= i < accounts@.len() ==> (#[trigger] accounts@[i]).wf(),
        ensures
            items@.len() == accounts@.len(),
            forall|i: int|
                0 <= i < accounts@.len() ==> #[trigger] items@[i] == wrapped(accounts@[i].total()),
            forall|i: int|
                0 <= i < accounts@.len() && accounts@[i].unlocked.msats
                    + accounts@[i].locked.amount.msats <= i64::MAX ==> #[trigger] items@[i]
                    == accounts@[i].unlocked.msats + accounts@[i].locked.amount.msats,
    {
        let mut items: Vec<i64> = Vec::new();
        let mut i: usize = 0;
        while i < accounts.len()
            invariant
                i <= accounts@.len(),
                items@.len() == i,
                forall|j: int| 0 <= j < accounts@.len() ==> (#[trigger] accounts@[j]).wf(),
                forall|j: int| 0 <= j < i ==> #[trigger] items@[j] == wrapped(accounts@[j].total()),
            decreases accounts@.len() - i,
        {
            items.push(accounts[i].liability());
            i = i + 1;
        }
        items
    }
}

/// Where a guardian is that waits for something to propose, after the given answers.
pub open spec fn waiting_after(answers: Seq<bool>) -> AwaitStep
    decreases answers.len(),
{
    if answers.len() == 0 {
        AwaitStep::AskActions
    } else {
        waiting_after(answers.drop_last()).following(answers.last())
    }
}

/// The `i`-th answer is that of a module which has something to propose.
pub open spec fn is_told_to_propose(answers: Seq<bool>, i: int) -> bool {
    &&& answers[i]
    &&& waiting_after(answers.take(i)) is AskActions || waiting_after(answers.take(i)) is AskEpoch
}

/// While neither module has something to propose, a guardian asks both, sleeps for a while
/// and starts over; it does not ask the epoch module once the action module has something.
pub proof fn law_waiting_polls_both_modules(actions: bool, epoch: bool, any: bool)
    ensures
        ({
            let start = AwaitStep::AskActions;
            let second = start.following(actions);
            let third = second.following(epoch);
            &&& actions ==> second == AwaitStep::Ready
            &&& !actions ==> second == AwaitStep::AskEpoch
            &&& third == AwaitStep::Ready <==> actions || epoch
            &&& !actions && !epoch ==> third == (AwaitStep::Sleep {
                seconds: PROPOSAL_POLL_SECONDS,
            }) && third.following(any) == start
        }),
{
}

/// A guardian stops waiting exactly when a module that it asked has something to propose.
pub proof fn law_waiting_ends_when_told(answers: Seq<bool>)
    ensures
        waiting_after(answers) is Ready <==> exists|i: int|
            0 <= i < answers.len() && is_told_to_propose(answers, i),
    decreases answers.len(),
{
    if answers.len() > 0 {
        let before = answers.drop_last();
        let last = answers.len() - 1;
        law_waiting_ends_when_told(before);
        assert(answers.take(last) =~= before);
        assert forall|i: int| 0 <= i < before.len() implies is_told_to_propose(before, i)
            == is_told_to_propose(answers, i) by {
            assert(before.take(i) =~= answers.take(i));
        }
        if waiting_after(before) is Ready {
            let i = choose|i: int| 0 <= i < before.len() && is_told_to_propose(before, i);
            assert(is_told_to_propose(answers, i));
        } else if waiting_after(answers) is Ready {
            assert(is_told_to_propose(answers, last));
        }
        if exists|i: int| 0 <= i < answers.len() && is_told_to_propose(answers, i) {
            let i = choose|i: int| 0 <= i < answers.len() && is_told_to_propose(answers, i);
            if i < last {
                assert(is_told_to_propose(before, i));
            }
        }
    }
}

/// The steps of waiting: actions are asked for first and epochs second, an answer of yes to
/// either ends the waiting at once, and after two answers of no comes a sleep of five seconds
/// and then the first question again.
pub proof fn law_steps_of_waiting(can_propose: bool, seconds: u64)
    ensures
        AwaitStep::AskActions.following(true) is Ready,
        AwaitStep::AskActions.following(false) is AskEpoch,
        AwaitStep::AskEpoch.following(true) is Ready,
        AwaitStep::AskEpoch.following(false) == (AwaitStep::Sleep { seconds: 5 }),
        (AwaitStep::Sleep { seconds }).following(can_propose) is AskActions,
        AwaitStep::Ready.following(can_propose) is Ready,
        waiting_after(Seq::<bool>::empty()) is AskActions,
{
}

/// A guardian that waits and keeps hearing no asks for actions at every third step, for the
/// epoch at the step after it, and sleeps at the one after that.
pub proof fn law_waiting_goes_round(answers: Seq<bool>)
    requires
        forall|i: int| 0 <= i < answers.len() ==> !#[trigger] answers[i],
    ensures
        answers.len() % 3 == 0 <==> waiting_after(answers) is AskActions,
        answers.len() % 3 == 1 <==> waiting_after(answers) is AskEpoch,
        answers.len() % 3 == 2 <==> waiting_after(answers) == (AwaitStep::Sleep { seconds: 5 }),
    decreases answers.len(),
{
    if answers.len() > 0 {
        assert forall|i: int| 0 <= i < answers.drop_last().len() implies !#[trigger] answers.drop_last()[i] by {
            assert(!answers[i]);
        }
        assert(!answers[answers.len() - 1]);
        law_waiting_goes_round(answers.drop_last());
    }
}

} // verus!
