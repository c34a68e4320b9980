//! Accounts and what deposits and withdrawals do to them.

use crate::keys::XOnlyPublicKey;
use vstd::prelude::*;

verus! {

/// An amount of money, in thousandths of a satoshi.
#[derive(Debug, Clone, Copy, PartialEq, Eq, Structural, Hash)]
pub struct Amount {
    pub msats: u64,
}

impl Amount {
    pub open spec fn spec_zero() -> Amount {
        Amount { msats: 0 }
    }

    /// No money.
    #[verifier::when_used_as_spec(spec_zero)]
    pub fn zero() -> (amount: Amount)
        ensures
            amount == Amount::spec_zero(),
    {
        Amount { msats: 0 }
    }
}

/// Information about the amount represented by an input or output.
///
/// * For **inputs** the amount is funding the transaction while the fee is
///   consuming funding
/// * For **outputs** the amount and the fee consume funding
#[derive(Debug, Clone, Copy, PartialEq, Eq, Structural, Hash)]
pub struct TransactionItemAmount {
    pub amount: Amount,
    pub fee: Amount,
}

impl TransactionItemAmount {
    /// Nothing, for free.
    pub fn zero() -> (item: TransactionItemAmount)
        ensures
            item.amount == Amount::zero(),
            item.fee == Amount::zero(),
    {
        TransactionItemAmount { amount: Amount::zero(), fee: Amount::zero() }
    }
}

/// What an input brings into a transaction, and the keys that have to sign for it.
#[derive(Debug)]
pub struct InputMeta {
    pub amount: TransactionItemAmount,
    pub pub_keys: Vec<XOnlyPublicKey>,
}

/// A withdrawal: money that leaves an account of the pool.
#[derive(Debug, Clone, Copy)]
pub struct PoolInput {
    pub account: XOnlyPublicKey,
    pub amount: Amount,
}

/// A deposit: money that goes to an account of the pool.
#[derive(Debug, Clone, Copy)]
pub struct PoolOutput {
    pub account: XOnlyPublicKey,
    pub amount: Amount,
}

/// What became of a deposit: the account that it went to.
#[derive(Debug, Clone, Copy, PartialEq, Eq)]
pub struct PoolOutputOutcome(pub XOnlyPublicKey);

/// Names an output of a transaction.
#[derive(Debug, Clone, Copy, PartialEq, Eq, Hash)]
pub struct OutPoint {
    pub txid: [u8; 32],
    pub out_idx: u64,
}

/// What is locked in an account: what it is worth, and whatever else belongs to it. The
/// pool carries `holding` along, and never looks into it.
#[derive(Debug, Clone, Copy, PartialEq, Eq, Hash)]
pub struct LockedBalance<Holding> {
    pub amount: Amount,
    pub holding: Holding,
}

impl<Holding> LockedBalance<Holding> {
    /// Nothing was ever locked.
    pub open spec fn is_unused(self) -> bool where Holding: Default {
        &&& self.amount == Amount::zero()
        &&& call_ensures(Holding::default, (), self.holding)
    }

    /// What the locked part is worth.
    pub fn amount(&self) -> (amount: Amount)
        ensures
            amount == self.amount,
    {
        self.amount
    }
}

impl<Holding: Default> Default for LockedBalance<Holding> {
    fn default() -> (locked: Self)
        ensures
            locked.is_unused(),
    {
        LockedBalance { amount: Amount::zero(), holding: Holding::default() }
    }
}

/// What an account holds.
#[derive(Debug, Clone, Copy, PartialEq, Eq, Hash)]
pub struct AccountBalance<Holding> {
    /// What its owner can withdraw.
    pub unlocked: Amount,
    /// What its owner cannot withdraw for now.
    pub locked: LockedBalance<Holding>,
}

impl<Holding: Default> Default for AccountBalance<Holding> {
    fn default() -> (balance: Self)
        ensures
            balance.unlocked == Amount::zero(),
            balance.locked.is_unused(),
    {
        AccountBalance { unlocked: Amount::zero(), locked: LockedBalance::default() }
    }
}

impl<Holding> AccountBalance<Holding> {
    /// All that the account holds, in thousandths of a satoshi.
    pub open spec fn total(self) -> int {
        self.unlocked.msats + self.locked.amount.msats
    }

    /// All that the account holds is an amount.
    pub open spec fn wf(self) -> bool {
        self.total() <= u64::MAX
    }

    /// Tells whether the account can take another `amount` without its balance growing
    /// beyond what an amount can be.
    pub fn can_add_amount(&self, amount: Amount) -> (can: bool)
        ensures
            can == (self.unlocked.msats + self.locked.amount.msats + amount.msats <= u64::MAX),
            can == (self.total() + amount.msats <= u64::MAX),
    {
        match self.unlocked.msats.checked_add(self.locked.amount().msats) {
            Some(total) => total.checked_add(amount.msats).is_some(),
            None => false,
        }
    }

    /// What the account adds to the liabilities of the pool, in thousandths of a satoshi.
    /// Beyond the largest `i64` it wraps around.
    pub fn liability(&self) -> (msats: i64)
        requires
            self.wf(),
        ensures
            msats == wrapped(self.total()),
            self.unlocked.msats + self.locked.amount.msats <= i64::MAX ==> msats
                == self.unlocked.msats + self.locked.amount.msats,
    {
        let total: u64 = self.unlocked.msats + self.locked.amount().msats;
        let msats: i64 = total as i64;
        assert(total <= 0x7fff_ffff_ffff_ffff ==> msats == total) by (bit_vector)
            requires
                msats == total as i64,
        ;
        assert(total > 0x7fff_ffff_ffff_ffff ==> msats == total - 0x1_0000_0000_0000_0000)
            by (bit_vector)
            requires
                msats == total as i64,
        ;
        msats
    }
}

/// A count of up to 64 bits, as its bits read with a sign.
pub open spec fn wrapped(n: int) -> int {
    if n <= i64::MAX {
        n
    } else {
        n - 0x1_0000_0000_0000_0000
    }
}

/// What the owner of an account with this record can withdraw.
pub open spec fn available<Holding>(record: Option<AccountBalance<Holding>>) -> Amount {
    match record {
        Some(balance) => balance.unlocked,
        None => Amount::zero(),
    }
}

/// All that an account with this record holds, in thousandths of a satoshi.
pub open spec fn held<Holding>(record: Option<AccountBalance<Holding>>) -> int {
    match record {
        Some(balance) => balance.total(),
        None => 0,
    }
}

/// `locked` is what was locked in an account with this record, unchanged; an account that
/// was never used has nothing locked.
pub open spec fn keeps_locked<Holding: Default>(
    record: Option<AccountBalance<Holding>>,
    locked: LockedBalance<Holding>,
) -> bool {
    match record {
        Some(balance) => locked == balance.locked,
        None => locked.is_unused(),
    }
}

/// An account with this record can pay out `amount`.
pub open spec fn can_withdraw<Holding>(
    record: Option<AccountBalance<Holding>>,
    amount: Amount,
) -> bool {
    amount.msats <= available(record).msats
}

/// `after` is the balance once `amount` was paid out.
pub open spec fn is_after_withdrawal<Holding: Default>(
    record: Option<AccountBalance<Holding>>,
    amount: Amount,
    after: AccountBalance<Holding>,
) -> bool {
    &&& after.unlocked.msats == available(record).msats - amount.msats
    &&& keeps_locked(record, after.locked)
}

/// An account with this record can take `amount`.
pub open spec fn can_deposit<Holding>(
    record: Option<AccountBalance<Holding>>,
    amount: Amount,
) -> bool {
    held(record) + amount.msats <= u64::MAX
}

/// `after` is the balance once `amount` was paid in.
pub open spec fn is_after_deposit<Holding: Default>(
    record: Option<AccountBalance<Holding>>,
    amount: Amount,
    after: AccountBalance<Holding>,
) -> bool {
    &&& after.unlocked.msats == available(record).msats + amount.msats
    &&& keeps_locked(record, after.locked)
}

/// What the pool has on record.
#[verifier::ext_equal]
#[verifier::reject_recursive_types(Holding)]
pub struct PoolRecords<Holding> {
    pub balances: Map<XOnlyPublicKey, AccountBalance<Holding>>,
    /// The accounts that deposits went to.
    pub outcomes: Map<OutPoint, XOnlyPublicKey>,
}

impl<Holding: Default> PoolRecords<Holding> {
    /// The record of an account, if there is one.
    pub open spec fn balance(self, account: XOnlyPublicKey) -> Option<AccountBalance<Holding>> {
        if self.balances.contains_key(account) {
            Some(self.balances[account])
        } else {
            None
        }
    }

    /// What became of the deposit at `out_point`, if there was one.
    pub open spec fn outcome(self, out_point: OutPoint) -> Option<XOnlyPublicKey> {
        if self.outcomes.contains_key(out_point) {
            Some(self.outcomes[out_point])
        } else {
            None
        }
    }

    /// There are finitely many accounts, and all that any of them holds is an amount.
    pub open spec fn wf(self) -> bool {
        &&& self.balances.dom().finite()
        &&& forall|account: XOnlyPublicKey|
            self.balances.contains_key(account) ==> (#[trigger] self.balances[account]).wf()
    }

    /// A withdrawal takes the pool from these records to `after`. If it is refused, they
    /// stay the same.
    pub open spec fn withdraws(self, input: PoolInput, after: PoolRecords<Holding>) -> bool {
        if can_withdraw(self.balance(input.account), input.amount) {
            &&& is_after_withdrawal(
                self.balance(input.account),
                input.amount,
                after.balances[input.account],
            )
            &&& after.balances == self.balances.insert(
                input.account,
                after.balances[input.account],
            )
            &&& after.outcomes == self.outcomes
        } else {
            after == self
        }
    }

    /// A deposit takes the pool from these records to `after`. If it is refused, they stay
    /// the same.
    pub open spec fn deposits(
        self,
        output: PoolOutput,
        out_point: OutPoint,
        after: PoolRecords<Holding>,
    ) -> bool {
        if can_deposit(self.balance(output.account), output.amount) {
            &&& is_after_deposit(
                self.balance(output.account),
                output.amount,
                after.balances[output.account],
            )
            &&& after.balances == self.balances.insert(
                output.account,
                after.balances[output.account],
            )
            &&& after.outcomes == self.outcomes.insert(out_point, output.account)
        } else {
            after == self
        }
    }

    /// All that the pool owes to its accounts, in thousandths of a satoshi.
    pub open spec fn liabilities(self) -> int {
        liabilities(self.balances)
    }
}

/// The sum of what the accounts hold.
pub open spec fn liabilities<Holding>(
    balances: Map<XOnlyPublicKey, AccountBalance<Holding>>,
) -> int
    decreases balances.dom().len(),
    when balances.dom().finite()
{
    if balances.dom().len() == 0 {
        0
    } else {
        let account = balances.dom().choose();
        balances[account].total() + liabilities(balances.remove(account))
    }
}

/// It does not matter which account a sum starts with.
proof fn lemma_liabilities_split<Holding>(
    balances: Map<XOnlyPublicKey, AccountBalance<Holding>>,
    account: XOnlyPublicKey,
)
    requires
        balances.dom().finite(),
        balances.contains_key(account),
    ensures
        liabilities(balances) == balances[account].total() + liabilities(balances.remove(account)),
    decreases balances.dom().len(),
{
    let first = balances.dom().choose();
    if first != account {
        let rest = balances.remove(first);
        lemma_liabilities_split(rest, account);
        lemma_liabilities_split(balances.remove(account), first);
        assert(rest.remove(account) =~= balances.remove(account).remove(first));
    }
}

/// Writing one account changes the sum by what that account gains or loses.
proof fn lemma_liabilities_insert<Holding>(
    balances: Map<XOnlyPublicKey, AccountBalance<Holding>>,
    account: XOnlyPublicKey,
    balance: AccountBalance<Holding>,
)
    requires
        balances.dom().finite(),
    ensures
        liabilities(balances.insert(account, balance)) == liabilities(balances) + balance.total()
            - (if balances.contains_key(account) {
            balances[account].total()
        } else {
            0
        }),
{
    let written = balances.insert(account, balance);
    lemma_liabilities_split(written, account);
    if balances.contains_key(account) {
        lemma_liabilities_split(balances, account);
        assert(written.remove(account) =~= balances.remove(account));
    } else {
        assert(written.remove(account) =~= balances);
    }
}

/// To write the balance that a granted withdrawal hands back, and to write nothing for a
/// refused one, takes the pool through that withdrawal.
pub proof fn law_writing_a_withdrawal<Holding: Default>(
    records: PoolRecords<Holding>,
    input: PoolInput,
    balance: AccountBalance<Holding>,
)
    ensures
        can_withdraw(records.balance(input.account), input.amount) && is_after_withdrawal(
            records.balance(input.account),
            input.amount,
            balance,
        ) ==> records.withdraws(
            input,
            (PoolRecords { balances: records.balances.insert(input.account, balance), ..records }),
        ),
        !can_withdraw(records.balance(input.account), input.amount) ==> records.withdraws(
            input,
            records,
        ),
{
}

/// To write the balance and the outcome that a taken deposit hands back, and to write nothing
/// for a refused one, takes the pool through that deposit.
pub proof fn law_writing_a_deposit<Holding: Default>(
    records: PoolRecords<Holding>,
    output: PoolOutput,
    out_point: OutPoint,
    balance: AccountBalance<Holding>,
)
    ensures
        can_deposit(records.balance(output.account), output.amount) && is_after_deposit(
            records.balance(output.account),
            output.amount,
            balance,
        ) ==> records.deposits(
            output,
            out_point,
            (PoolRecords {
                balances: records.balances.insert(output.account, balance),
                outcomes: records.outcomes.insert(out_point, output.account),
            }),
        ),
        !can_deposit(records.balance(output.account), output.amount) ==> records.deposits(
            output,
            out_point,
            records,
        ),
{
}

/// A withdrawal that is granted lowers what the pool owes by exactly its amount, and one
/// that is refused changes nothing.
pub proof fn law_withdrawal_lowers_liabilities<Holding: Default>(
    records: PoolRecords<Holding>,
    input: PoolInput,
    after: PoolRecords<Holding>,
)
    requires
        records.wf(),
        records.withdraws(input, after),
    ensures
        can_withdraw(records.balance(input.account), input.amount) ==> after.liabilities()
            == records.liabilities() - input.amount.msats,
        !can_withdraw(records.balance(input.account), input.amount) ==> after == records,
{
    lemma_liabilities_insert(records.balances, input.account, after.balances[input.account]);
}

/// A deposit that is taken raises what the pool owes by exactly its amount, and one that is
/// refused changes nothing.
pub proof fn law_deposit_raises_liabilities<Holding: Default>(
    records: PoolRecords<Holding>,
    output: PoolOutput,
    out_point: OutPoint,
    after: PoolRecords<Holding>,
)
    requires
        records.wf(),
        records.deposits(output, out_point, after),
    ensures
        can_deposit(records.balance(output.account), output.amount) ==> after.liabilities()
            == records.liabilities() + output.amount.msats,
        !can_deposit(records.balance(output.account), output.amount) ==> after == records,
{
    lemma_liabilities_insert(records.balances, output.account, after.balances[output.account]);
}

/// Whatever is withdrawn, no account comes to hold more than an amount can be, so that the
/// audit can always add up what an account holds.
pub proof fn law_withdrawal_keeps_balances_amounts<Holding: Default>(
    records: PoolRecords<Holding>,
    input: PoolInput,
    after: PoolRecords<Holding>,
)
    requires
        records.wf(),
        records.withdraws(input, after),
    ensures
        after.wf(),
{
    assert(records.balance(input.account) is Some ==> records.balances[input.account].wf());
}

/// Whatever is deposited, no account comes to hold more than an amount can be, so that the
/// audit can always add up what an account holds.
pub proof fn law_deposit_keeps_balances_amounts<Holding: Default>(
    records: PoolRecords<Holding>,
    output: PoolOutput,
    out_point: OutPoint,
    after: PoolRecords<Holding>,
)
    requires
        records.wf(),
        records.deposits(output, out_point, after),
    ensures
        after.wf(),
{
    assert(records.balance(output.account) is Some ==> records.balances[output.account].wf());
}

/// A withdrawal leaves every other account alone, and never touches what is locked.
pub proof fn law_withdrawal_changes_only_its_account<Holding: Default>(
    records: PoolRecords<Holding>,
    input: PoolInput,
    after: PoolRecords<Holding>,
    account: XOnlyPublicKey,
)
    requires
        records.withdraws(input, after),
    ensures
        account != input.account ==> after.balance(account) == records.balance(account),
        records.balance(account) matches Some(before) ==> {
            &&& after.balance(account) matches Some(balance)
            &&& balance.locked == before.locked
        },
        after.outcomes == records.outcomes,
{
}

/// A deposit leaves every other account alone, and never touches what is locked.
pub proof fn law_deposit_changes_only_its_account<Holding: Default>(
    records: PoolRecords<Holding>,
    output: PoolOutput,
    out_point: OutPoint,
    after: PoolRecords<Holding>,
    account: XOnlyPublicKey,
)
    requires
        records.deposits(output, out_point, after),
    ensures
        account != output.account ==> after.balance(account) == records.balance(account),
        records.balance(account) matches Some(before) ==> {
            &&& after.balance(account) matches Some(balance)
            &&& balance.locked == before.locked
        },
{
}

/// What was deposited can be withdrawn again, which leaves the account with what it had.
pub proof fn law_deposit_can_be_withdrawn<Holding: Default>(
    records: PoolRecords<Holding>,
    output: PoolOutput,
    out_point: OutPoint,
    deposited: PoolRecords<Holding>,
    withdrawn: PoolRecords<Holding>,
)
    requires
        can_deposit(records.balance(output.account), output.amount),
        records.deposits(output, out_point, deposited),
        deposited.withdraws(
            (PoolInput { account: output.account, amount: output.amount }),
            withdrawn,
        ),
    ensures
        can_withdraw(deposited.balance(output.account), output.amount),
        match records.balance(output.account) {
            Some(before) => withdrawn.balance(output.account) == Some(before),
            None => {
                &&& withdrawn.balance(output.account) matches Some(balance)
                &&& balance.unlocked == Amount::zero()
                &&& balance.locked.is_unused()
            },
        },
{
}

/// Nobody can withdraw more than is unlocked for them.
pub proof fn law_no_overdraft<Holding: Default>(
    records: PoolRecords<Holding>,
    input: PoolInput,
    after: PoolRecords<Holding>,
)
    requires
        records.withdraws(input, after),
        input.amount.msats > available(records.balance(input.account)).msats,
    ensures
        after == records,
{
}

/// Something that a transaction does to the pool.
pub enum PoolEntry {
    Withdrawal(PoolInput),
    Deposit(PoolOutput, OutPoint),
}

impl PoolEntry {
    /// The entry takes the pool from the records `before` to `after`.
    pub open spec fn leads<Holding: Default>(
        self,
        before: PoolRecords<Holding>,
        after: PoolRecords<Holding>,
    ) -> bool {
        match self {
            PoolEntry::Withdrawal(input) => before.withdraws(input, after),
            PoolEntry::Deposit(output, out_point) => before.deposits(output, out_point, after),
        }
    }

    /// What the entry brings in, or takes out if it is negative, where the pool has the
    /// records `before`. An entry that is refused brings nothing.
    pub open spec fn brings<Holding: Default>(self, before: PoolRecords<Holding>) -> int {
        match self {
            PoolEntry::Withdrawal(input) => if can_withdraw(
                before.balance(input.account),
                input.amount,
            ) {
                -(input.amount.msats as int)
            } else {
                0
            },
            PoolEntry::Deposit(output, _) => if can_deposit(
                before.balance(output.account),
                output.amount,
            ) {
                output.amount.msats as int
            } else {
                0
            },
        }
    }
}

/// `history` holds the records at the start and then after each of `entries`, in order.
pub open spec fn is_history<Holding: Default>(
    history: Seq<PoolRecords<Holding>>,
    entries: Seq<PoolEntry>,
) -> bool {
    &&& history.len() == entries.len() + 1
    &&& forall|i: int|
        0 <= i < entries.len() ==> (#[trigger] entries[i]).leads(history[i], history[i + 1])
}

/// What `entries` bring in, less what they take out.
pub open spec fn paid_in<Holding: Default>(
    history: Seq<PoolRecords<Holding>>,
    entries: Seq<PoolEntry>,
) -> int
    decreases entries.len(),
{
    if entries.len() == 0 {
        0
    } else {
        paid_in(history, entries.drop_last()) + entries.last().brings(history[entries.len() - 1])
    }
}

/// Whatever is deposited and withdrawn, and in whatever order, the pool owes what it owed at
/// the start and what was paid in since, and no account holds more than an amount can be.
pub proof fn law_books_balance<Holding: Default>(
    history: Seq<PoolRecords<Holding>>,
    entries: Seq<PoolEntry>,
)
    requires
        is_history(history, entries),
        history[0].wf(),
    ensures
        history.last().wf(),
        history.last().liabilities() == history[0].liabilities() + paid_in(history, entries),
    decreases entries.len(),
{
    if entries.len() > 0 {
        let count = entries.len() as int;
        let earlier = entries.drop_last();
        let before = history[count - 1];
        let after = history[count];
        assert(is_history(history.drop_last(), earlier)) by {
            assert forall|i: int| 0 <= i < earlier.len() implies (#[trigger] earlier[i]).leads(
                history.drop_last()[i],
                history.drop_last()[i + 1],
            ) by {
                assert(entries[i].leads(history[i], history[i + 1]));
            }
        }
        law_books_balance(history.drop_last(), earlier);
        lemma_paid_in_looks_back(history, earlier);
        assert(entries[count - 1].leads(before, after));
        match entries.last() {
            PoolEntry::Withdrawal(input) => {
                law_withdrawal_lowers_liabilities(before, input, after);
                law_withdrawal_keeps_balances_amounts(before, input, after);
            },
            PoolEntry::Deposit(output, out_point) => {
                law_deposit_raises_liabilities(before, output, out_point, after);
                law_deposit_keeps_balances_amounts(before, output, out_point, after);
            },
        }
    }
}

/// What entries bring in does not depend on the records after the last of them.
proof fn lemma_paid_in_looks_back<Holding: Default>(
    history: Seq<PoolRecords<Holding>>,
    entries: Seq<PoolEntry>,
)
    requires
        entries.len() < history.len(),
    ensures
        paid_in(history.drop_last(), entries) == paid_in(history, entries),
    decreases entries.len(),
{
    if entries.len() > 0 {
        lemma_paid_in_looks_back(history, entries.drop_last());
    }
}

/// The sum of what an audit of `accounts` lists.
pub open spec fn audited<Holding>(
    balances: Map<XOnlyPublicKey, AccountBalance<Holding>>,
    accounts: Seq<XOnlyPublicKey>,
) -> int
    decreases accounts.len(),
{
    if accounts.len() == 0 {
        0
    } else {
        audited(balances, accounts.drop_last()) + wrapped(balances[accounts.last()].total())
    }
}

/// An audit does not depend on accounts that it does not list.
proof fn lemma_audited_without<Holding>(
    balances: Map<XOnlyPublicKey, AccountBalance<Holding>>,
    accounts: Seq<XOnlyPublicKey>,
    account: XOnlyPublicKey,
)
    requires
        !accounts.contains(account),
    ensures
        audited(balances.remove(account), accounts) == audited(balances, accounts),
    decreases accounts.len(),
{
    if accounts.len() > 0 {
        let rest = accounts.drop_last();
        assert(accounts.contains(accounts.last()));
        assert forall|i: int| 0 <= i < rest.len() implies rest[i] != account by {
            assert(accounts[i] == rest[i]);
        }
        lemma_audited_without(balances, rest, account);
    }
}

/// An audit that lists every account once adds up to what the pool owes, if no account
/// holds more than the largest `i64`.
pub proof fn law_audit_adds_up_to_liabilities<Holding>(
    balances: Map<XOnlyPublicKey, AccountBalance<Holding>>,
    accounts: Seq<XOnlyPublicKey>,
)
    requires
        accounts.no_duplicates(),
        accounts.to_set() == balances.dom(),
        forall|account: XOnlyPublicKey|
            balances.contains_key(account) ==> (#[trigger] balances[account]).total() <= i64::MAX,
    ensures
        audited(balances, accounts) == liabilities(balances),
    decreases accounts.len(),
{
    vstd::seq_lib::seq_to_set_is_finite(accounts);
    if accounts.len() == 0 {
        assert(balances.dom() =~= Set::empty());
    } else {
        let last = accounts.last();
        let rest = accounts.drop_last();
        let others = balances.remove(last);
        assert(accounts.contains(last));
        assert(balances.contains_key(last));
        assert(!rest.contains(last));
        assert forall|account: XOnlyPublicKey| rest.to_set().contains(account)
            == others.dom().contains(account) by {
            assert(accounts.to_set().contains(account) == accounts.contains(account));
            if accounts.contains(account) && account != last {
                let i = choose|i: int| 0 <= i < accounts.len() && accounts[i] == account;
                assert(rest[i] == account);
            }
            if rest.contains(account) {
                let i = choose|i: int| 0 <= i < rest.len() && rest[i] == account;
                assert(accounts[i] == account);
            }
        }
        assert(rest.to_set() =~= others.dom());
        law_audit_adds_up_to_liabilities(others, rest);
        lemma_audited_without(balances, rest, last);
        lemma_liabilities_split(balances, last);
    }
}

/// Where a deposit was taken, its outcome names the account that it went to, and the
/// outcomes of other deposits stay as they are.
pub proof fn law_outcome_of_a_deposit<Holding: Default>(
    records: PoolRecords<Holding>,
    output: PoolOutput,
    out_point: OutPoint,
    after: PoolRecords<Holding>,
    other: OutPoint,
)
    requires
        can_deposit(records.balance(output.account), output.amount),
        records.deposits(output, out_point, after),
    ensures
        after.outcome(out_point) == Some(output.account),
        other != out_point ==> after.outcome(other) == records.outcome(other),
{
}

/// No money is an amount of zero.
pub proof fn law_no_money()
    ensures
        Amount::zero().msats == 0,
{
}

/// All that an account holds is what is unlocked and what is locked, taken together.
pub proof fn law_locked_money_counts<Holding>(balance: AccountBalance<Holding>)
    ensures
        balance.total() == balance.unlocked.msats + balance.locked.amount.msats,
        balance.wf() <==> balance.unlocked.msats + balance.locked.amount.msats <= u64::MAX,
        held(Some(balance)) == balance.unlocked.msats + balance.locked.amount.msats,
        held(None::<AccountBalance<Holding>>) == 0,
        available(Some(balance)).msats == balance.unlocked.msats,
        available(None::<AccountBalance<Holding>>).msats == 0,
{
}

/// What an audit lists for an account is what is unlocked and what is locked, taken together.
/// Beyond the largest `i64` it is less by the 64th power of two.
pub proof fn law_audit_lists_unlocked_and_locked<Holding>(balance: AccountBalance<Holding>)
    requires
        balance.wf(),
    ensures
        ({
            let sum = balance.unlocked.msats + balance.locked.amount.msats;
            let item = wrapped(balance.total());
            &&& sum <= i64::MAX ==> item == sum
            &&& sum > i64::MAX ==> item == sum - 0x1_0000_0000_0000_0000
            &&& i64::MIN <= item <= i64::MAX
        }),
{
}

/// What an audit lists for two accounts differs by what their unlocked and their locked
/// money differ by.
pub proof fn law_audit_tells_accounts_apart<Holding>(
    one: AccountBalance<Holding>,
    other: AccountBalance<Holding>,
)
    requires
        one.unlocked.msats + one.locked.amount.msats <= i64::MAX,
        other.unlocked.msats + other.locked.amount.msats <= i64::MAX,
    ensures
        wrapped(one.total()) - wrapped(other.total()) == (one.unlocked.msats
            - other.unlocked.msats) + (one.locked.amount.msats - other.locked.amount.msats),
        one.unlocked == other.unlocked ==> wrapped(one.total()) - wrapped(other.total())
            == one.locked.amount.msats - other.locked.amount.msats,
{
}

/// A deposit is refused only if the account would come to hold more than an amount can be;
/// an account that was never used can take any deposit.
pub proof fn law_deposit_refused_only_on_overflow<Holding>(
    record: Option<AccountBalance<Holding>>,
    amount: Amount,
)
    ensures
        can_deposit(record, amount) <==> match record {
            Some(balance) => balance.unlocked.msats + balance.locked.amount.msats + amount.msats
                <= u64::MAX,
            None => true,
        },
{
}

/// An account that can take a deposit can take any smaller one, and can take it also if it
/// holds less.
pub proof fn law_smaller_deposits_fit<Holding>(
    record: AccountBalance<Holding>,
    amount: Amount,
    lighter: AccountBalance<Holding>,
    smaller: Amount,
)
    requires
        can_deposit(Some(record), amount),
        smaller.msats <= amount.msats,
        lighter.unlocked.msats <= record.unlocked.msats,
        lighter.locked.amount.msats <= record.locked.amount.msats,
    ensures
        can_deposit(Some(lighter), smaller),
{
}

/// A withdrawal is granted exactly if so much is unlocked, whatever is locked; an account that
/// was never used can pay out nothing but nothing.
pub proof fn law_withdrawal_granted_up_to_the_unlocked<Holding>(
    record: Option<AccountBalance<Holding>>,
    amount: Amount,
)
    ensures
        can_withdraw(record, amount) <==> match record {
            Some(balance) => amount.msats <= balance.unlocked.msats,
            None => amount.msats == 0,
        },
{
}

/// A deposit adds its amount to what is unlocked, and leaves what is locked as it is.
pub proof fn law_deposit_is_credited<Holding: Default>(
    record: Option<AccountBalance<Holding>>,
    amount: Amount,
    after: AccountBalance<Holding>,
)
    ensures
        is_after_deposit(record, amount, after) <==> match record {
            Some(balance) => {
                &&& after.unlocked.msats == balance.unlocked.msats + amount.msats
                &&& after.locked.amount.msats == balance.locked.amount.msats
                &&& after.locked.holding == balance.locked.holding
            },
            None => {
                &&& after.unlocked.msats == amount.msats
                &&& after.locked.amount.msats == 0
                &&& call_ensures(Holding::default, (), after.locked.holding)
            },
        },
{
}

/// A withdrawal takes its amount from what is unlocked, and leaves what is locked as it is.
pub proof fn law_withdrawal_is_debited<Holding: Default>(
    record: Option<AccountBalance<Holding>>,
    amount: Amount,
    after: AccountBalance<Holding>,
)
    ensures
        is_after_withdrawal(record, amount, after) <==> match record {
            Some(balance) => {
                &&& after.unlocked.msats == balance.unlocked.msats - amount.msats
                &&& after.locked.amount.msats == balance.locked.amount.msats
                &&& after.locked.holding == balance.locked.holding
            },
            None => {
                &&& amount.msats == 0
                &&& after.unlocked.msats == 0
                &&& after.locked.amount.msats == 0
                &&& call_ensures(Holding::default, (), after.locked.holding)
            },
        },
{
}

/// A step that takes a deposit, which it does unless the account would come to hold too
/// much, credits the named account on the records and notes where the deposit went.
pub proof fn law_deposit_step_credits_the_account<Holding: Default>(
    records: PoolRecords<Holding>,
    output: PoolOutput,
    out_point: OutPoint,
    after: PoolRecords<Holding>,
)
    requires
        records.deposits(output, out_point, after),
        records.balance(output.account) matches Some(before) ==> before.unlocked.msats
            + before.locked.amount.msats + output.amount.msats <= u64::MAX,
    ensures
        after.balances.contains_key(output.account),
        after.balances[output.account].unlocked.msats == output.amount.msats + (
        if records.balances.contains_key(output.account) {
            records.balances[output.account].unlocked.msats as int
        } else {
            0
        }),
        after.outcomes.contains_key(out_point),
        after.outcomes[out_point] == output.account,
{
}

/// A step that grants a withdrawal, which it does if so much is unlocked, debits the named
/// account on the records.
pub proof fn law_withdrawal_step_debits_the_account<Holding: Default>(
    records: PoolRecords<Holding>,
    input: PoolInput,
    after: PoolRecords<Holding>,
)
    requires
        records.withdraws(input, after),
        records.balances.contains_key(input.account),
        input.amount.msats <= records.balances[input.account].unlocked.msats,
    ensures
        after.balances.contains_key(input.account),
        after.balances[input.account].unlocked.msats
            == records.balances[input.account].unlocked.msats - input.amount.msats,
{
}

/// A pool without accounts owes nothing, and each account adds what is unlocked and what is
/// locked in it.
pub proof fn law_liabilities_count_every_account<Holding>(
    balances: Map<XOnlyPublicKey, AccountBalance<Holding>>,
    account: XOnlyPublicKey,
    balance: AccountBalance<Holding>,
)
    requires
        balances.dom().finite(),
        !balances.contains_key(account),
    ensures
        liabilities(Map::<XOnlyPublicKey, AccountBalance<Holding>>::empty()) == 0,
        liabilities(balances.insert(account, balance)) == liabilities(balances)
            + balance.unlocked.msats + balance.locked.amount.msats,
{
    lemma_liabilities_insert(balances, account, balance);
}

/// An audit of no account lists nothing, and of one more account lists in addition what is
/// unlocked and what is locked in it, up to the largest `i64`.
pub proof fn law_audit_counts_every_account<Holding>(
    balances: Map<XOnlyPublicKey, AccountBalance<Holding>>,
    accounts: Seq<XOnlyPublicKey>,
    account: XOnlyPublicKey,
)
    requires
        balances[account].unlocked.msats + balances[account].locked.amount.msats <= i64::MAX,
    ensures
        audited(balances, Seq::<XOnlyPublicKey>::empty()) == 0,
        audited(balances, accounts.push(account)) == audited(balances, accounts)
            + balances[account].unlocked.msats + balances[account].locked.amount.msats,
{
    assert(accounts.push(account).drop_last() =~= accounts);
}

/// An entry that is not refused brings in or takes out its whole amount.
pub proof fn law_entries_bring_their_amount<Holding: Default>(
    records: PoolRecords<Holding>,
    input: PoolInput,
    output: PoolOutput,
    out_point: OutPoint,
)
    ensures
        PoolEntry::Withdrawal(input).brings(records) == (if records.balances.contains_key(
            input.account,
        ) && input.amount.msats <= records.balances[input.account].unlocked.msats {
            -input.amount.msats
        } else {
            0
        }),
        PoolEntry::Deposit(output, out_point).brings(records)
            == (if records.balances.contains_key(output.account)
            && records.balances[output.account].unlocked.msats
            + records.balances[output.account].locked.amount.msats + output.amount.msats
            > u64::MAX {
            0
        } else {
            output.amount.msats as int
        }),
{
}

} // verus!
