//! The books of one vault: its configuration, what its custody account
//! holds, and one position for each holder that has ever deposited. The
//! books are a keyed store, from holder to position, filled on first use and
//! updated in place; a position that is emptied stays, with its history.

use crate::keys::{Pubkey, TokenAccount};
use crate::vault::events::{VaultCreatedEvent, VaultDeactivatedEvent};
use crate::vault::instructions::{
    claim_applied, claim_receipt, claim_rejection, claim_rewards, claimable_reward, create_vault,
    create_vault_rejection, created_vault, deactivate_vault, deactivate_vault_rejection,
    deposit_applied, deposit_receipt, deposit_rejection, deposit_tokens, withdraw_applied,
    withdraw_receipt, withdraw_rejection, withdraw_tokens, ClaimReceipt, ClaimRewards,
    CreateVault, DeactivateVault, DepositReceipt, DepositTokens, WithdrawReceipt, WithdrawTokens,
};
use crate::vault::state::{ErrorCode, StakeRecord, Vault};
use vstd::prelude::*;

verus! {

/// Why the books refused an operation.
#[derive(Clone, Copy, Debug, PartialEq, Eq, Structural)]
pub enum LedgerError {
    /// The operation's own checks refused it.
    Rejected(ErrorCode),
    /// The holder has no position in this vault.
    NoPosition,
    /// Custody cannot carry out the transfer: it would hold less than
    /// nothing, or more than it can count.
    CustodyRefused,
}

/// Sum of the amounts of `records`.
pub open spec fn staked_sum(records: Seq<StakeRecord>) -> nat
    decreases records.len(),
{
    if records.len() == 0 {
        0
    } else {
        staked_sum(records.drop_last()) + records.last().amount as nat
    }
}

/// Adding a position adds its amount to the sum.
pub proof fn lemma_staked_sum_push(records: Seq<StakeRecord>, record: StakeRecord)
    ensures
        staked_sum(records.push(record)) == staked_sum(records) + record.amount,
{
    assert(records.push(record).drop_last() =~= records);
}

/// Replacing a position replaces its amount in the sum.
pub proof fn lemma_staked_sum_update(records: Seq<StakeRecord>, i: int, record: StakeRecord)
    requires
        0 <= i < records.len(),
    ensures
        staked_sum(records.update(i, record)) == staked_sum(records) - records[i].amount
            + record.amount,
        records[i].amount <= staked_sum(records),
    decreases records.len(),
{
    if i == records.len() - 1 {
        assert(records.update(i, record).drop_last() =~= records.drop_last());
    } else {
        assert(records.update(i, record).drop_last() =~= records.drop_last().update(i, record));
        lemma_staked_sum_update(records.drop_last(), i, record);
    }
}

/// The sum of the first `n` positions is no more than the sum of all.
pub proof fn lemma_staked_sum_prefix(records: Seq<StakeRecord>, n: int)
    requires
        0 <= n <= records.len(),
    ensures
        staked_sum(records.take(n)) <= staked_sum(records),
    decreases records.len() - n,
{
    if n == records.len() {
        assert(records.take(n) =~= records);
    } else {
        assert(records.take(n + 1).drop_last() =~= records.take(n));
        lemma_staked_sum_prefix(records, n + 1);
    }
}

/// The books of one vault as a mathematical value: what the operations are
/// defined on.
pub ghost struct Books {
    /// Address of the vault record.
    pub vault_key: Pubkey,
    pub vault: Vault,
    /// The custody account, with the balance that the books expect of it.
    pub custody: TokenAccount,
    /// One position for each holder that has deposited.
    pub records: Seq<StakeRecord>,
    /// What custody held when the books were opened, and what was added to
    /// fund rewards since.
    pub reserve: nat,
    /// All that deposits have moved into custody.
    pub inflow: nat,
    /// All that withdrawals and claims have moved out of custody.
    pub outflow: nat,
}

/// One operation on the books of a vault.
pub ghost enum Operation {
    Deposit { funding: TokenAccount, authority: Pubkey, amount: u64, now: i64 },
    Withdraw { receiving: TokenAccount, authority: Pubkey, amount: u64, now: i64 },
    Claim { receiving: TokenAccount, authority: Pubkey, now: i64 },
    Deactivate { authority: Pubkey },
    Fund { amount: u64 },
}

impl Books {
    /// No holder has two positions, and every position is bound to this
    /// vault.
    pub open spec fn one_position_per_holder(self) -> bool {
        &&& forall|i: int, j: int|
            0 <= i < j < self.records.len() ==> self.records[i].authority
                != self.records[j].authority
        &&& forall|i: int|
            0 <= i < self.records.len() ==> (#[trigger] self.records[i]).vault == self.vault_key
    }

    /// No position matures before it starts.
    pub open spec fn positions_well_formed(self) -> bool {
        forall|i: int| 0 <= i < self.records.len() ==> (#[trigger] self.records[i]).well_formed()
    }

    /// The vault's total is the sum of its positions.
    pub open spec fn conserves_stake(self) -> bool {
        self.vault.total_staked == staked_sum(self.records)
    }

    /// Custody holds what came in, as reserve or as deposits, less what went
    /// out.
    pub open spec fn books_balance(self) -> bool {
        self.custody.amount + self.outflow == self.reserve + self.inflow
    }

    /// The invariant of the books.
    pub open spec fn wf(self) -> bool {
        &&& self.vault.well_formed()
        &&& self.custody.key == self.vault.vault_token_account
        &&& self.one_position_per_holder()
        &&& self.positions_well_formed()
        &&& self.conserves_stake()
        &&& self.books_balance()
    }

    /// Where the position of `holder` stands among the records, if it has
    /// one.
    pub open spec fn position_of(self, holder: Pubkey) -> Option<int> {
        if exists|i: int| 0 <= i < self.records.len() && self.records[i].authority == holder {
            Some(choose|i: int| 0 <= i < self.records.len() && self.records[i].authority == holder)
        } else {
            None
        }
    }

    /// The position of `holder` as an operation finds it: the one on the
    /// books, or a blank one for a holder that has none.
    pub open spec fn stake_of(self, holder: Pubkey) -> StakeRecord {
        match self.position_of(holder) {
            Some(i) => self.records[i],
            None => StakeRecord::blank(),
        }
    }

    /// The records with the position of `holder` replaced by `record`, or
    /// with `record` added where the holder had none.
    pub open spec fn records_with(self, holder: Pubkey, record: StakeRecord) -> Seq<StakeRecord> {
        match self.position_of(holder) {
            Some(i) => self.records.update(i, record),
            None => self.records.push(record),
        }
    }

    /// The accounts that a deposit by `authority` from `funding` works on.
    pub open spec fn deposit_accounts(self, funding: TokenAccount, authority: Pubkey) -> DepositTokens {
        DepositTokens {
            vault_key: self.vault_key,
            vault: self.vault,
            stake_record: self.stake_of(authority),
            user_token_account: funding,
            vault_token_account: self.custody,
            authority,
        }
    }

    /// The accounts that a withdrawal by `authority` to `receiving` works on.
    pub open spec fn withdraw_accounts(
        self,
        receiving: TokenAccount,
        authority: Pubkey,
    ) -> WithdrawTokens {
        WithdrawTokens {
            vault_key: self.vault_key,
            vault: self.vault,
            stake_record: self.stake_of(authority),
            user_token_account: receiving,
            vault_token_account: self.custody,
            authority,
        }
    }

    /// The accounts that a claim by `authority` to `receiving` works on.
    pub open spec fn claim_accounts(self, receiving: TokenAccount, authority: Pubkey) -> ClaimRewards {
        ClaimRewards {
            vault_key: self.vault_key,
            vault: self.vault,
            stake_record: self.stake_of(authority),
            user_token_account: receiving,
            vault_token_account: self.custody,
            authority,
        }
    }

    /// The books with custody holding `balance`.
    pub open spec fn with_custody(self, balance: int) -> Books {
        Books { custody: TokenAccount { amount: balance as u64, ..self.custody }, ..self }
    }

    /// The books after a deposit of `amount` by `authority`, or why it is
    /// refused. A holder without a position gets one. The vault's total, the
    /// holder's position and custody all rise by `amount`.
    pub open spec fn deposit(
        self,
        funding: TokenAccount,
        authority: Pubkey,
        amount: u64,
        now: i64,
    ) -> Result<Books, LedgerError> {
        let accounts = self.deposit_accounts(funding, authority);
        let after = deposit_applied(accounts, amount, now);
        match deposit_rejection(accounts, amount, now) {
            Some(code) => Err(LedgerError::Rejected(code)),
            None => if self.custody.amount + amount > u64::MAX {
                Err(LedgerError::CustodyRefused)
            } else {
                Ok(
                    Books {
                        vault: after.vault,
                        records: self.records_with(authority, after.stake_record),
                        inflow: self.inflow + amount as nat,
                        ..self.with_custody(self.custody.amount + amount)
                    },
                )
            },
        }
    }

    /// The books after a withdrawal of `amount` by `authority`, or why it is
    /// refused. The vault's total, the holder's position and custody all fall
    /// by `amount`.
    pub open spec fn withdraw(
        self,
        receiving: TokenAccount,
        authority: Pubkey,
        amount: u64,
        now: i64,
    ) -> Result<Books, LedgerError> {
        let accounts = self.withdraw_accounts(receiving, authority);
        let after = withdraw_applied(accounts, amount, now);
        if self.position_of(authority) is None {
            Err(LedgerError::NoPosition)
        } else {
            match withdraw_rejection(accounts, amount, now) {
                Some(code) => Err(LedgerError::Rejected(code)),
                None => if amount > self.custody.amount {
                    Err(LedgerError::CustodyRefused)
                } else {
                    Ok(
                        Books {
                            vault: after.vault,
                            records: self.records_with(authority, after.stake_record),
                            outflow: self.outflow + amount as nat,
                            ..self.with_custody(self.custody.amount - amount)
                        },
                    )
                },
            }
        }
    }

    /// The books after a claim by `authority`, or why it is refused. Custody
    /// falls by the reward; the vault's total and the amounts of all
    /// positions stay.
    pub open spec fn claim(self, receiving: TokenAccount, authority: Pubkey, now: i64) -> Result<
        Books,
        LedgerError,
    > {
        let accounts = self.claim_accounts(receiving, authority);
        let reward = claimable_reward(accounts, now);
        if self.position_of(authority) is None {
            Err(LedgerError::NoPosition)
        } else {
            match claim_rejection(accounts, now) {
                Some(code) => Err(LedgerError::Rejected(code)),
                None => Ok(
                    Books {
                        records: self.records_with(
                            authority,
                            claim_applied(accounts, now).stake_record,
                        ),
                        outflow: self.outflow + reward as nat,
                        ..self.with_custody(self.custody.amount - reward)
                    },
                ),
            }
        }
    }

    /// The books after the vault is closed by `authority`, or why that is
    /// refused.
    pub open spec fn deactivate(self, authority: Pubkey) -> Result<Books, LedgerError> {
        match deactivate_vault_rejection(
            DeactivateVault { vault_key: self.vault_key, vault: self.vault, authority },
        ) {
            Some(code) => Err(LedgerError::Rejected(code)),
            None => Ok(Books { vault: Vault { is_active: false, ..self.vault }, ..self }),
        }
    }

    /// The books after `amount` is added to the reserve, or why that is
    /// refused.
    pub open spec fn fund(self, amount: u64) -> Result<Books, LedgerError> {
        if self.custody.amount + amount > u64::MAX {
            Err(LedgerError::CustodyRefused)
        } else {
            Ok(
                Books {
                    reserve: self.reserve + amount as nat,
                    ..self.with_custody(self.custody.amount + amount)
                },
            )
        }
    }

    /// What an operation makes of the books, or why it is refused.
    pub open spec fn attempt(self, operation: Operation) -> Result<Books, LedgerError> {
        match operation {
            Operation::Deposit { funding, authority, amount, now } => self.deposit(
                funding,
                authority,
                amount,
                now,
            ),
            Operation::Withdraw { receiving, authority, amount, now } => self.withdraw(
                receiving,
                authority,
                amount,
                now,
            ),
            Operation::Claim { receiving, authority, now } => self.claim(receiving, authority, now),
            Operation::Deactivate { authority } => self.deactivate(authority),
            Operation::Fund { amount } => self.fund(amount),
        }
    }

    /// The books after an operation: changed as the operation says, or left
    /// as they were where it is refused.
    pub open spec fn after(self, operation: Operation) -> Books {
        match self.attempt(operation) {
            Ok(books) => books,
            Err(_) => self,
        }
    }

    /// The books after a sequence of operations, each applied to what the
    /// one before it left.
    pub open spec fn after_all(self, operations: Seq<Operation>) -> Books
        decreases operations.len(),
    {
        if operations.len() == 0 {
            self
        } else {
            self.after_all(operations.drop_last()).after(operations.last())
        }
    }

    /// On books in order, the position found for a holder is the holder's,
    /// and is the only one.
    pub proof fn lemma_position(self, holder: Pubkey)
        requires
            self.one_position_per_holder(),
        ensures
            match self.position_of(holder) {
                Some(i) => {
                    &&& 0 <= i < self.records.len()
                    &&& self.records[i].authority == holder
                    &&& self.records[i].vault == self.vault_key
                    &&& forall|j: int|
                        0 <= j < self.records.len() && self.records[j].authority == holder ==> j
                            == i
                },
                None => forall|j: int|
                    0 <= j < self.records.len() ==> self.records[j].authority != holder,
            },
    {
    }

    /// Replacing the position of a holder by one of the same holder and
    /// vault keeps one position per holder, and moves the sum of the
    /// positions by the difference of the two amounts.
    pub proof fn lemma_records_with(self, holder: Pubkey, record: StakeRecord)
        requires
            self.one_position_per_holder(),
            record.authority == holder,
            record.vault == self.vault_key,
        ensures
            (Books { records: self.records_with(holder, record), ..self }).one_position_per_holder(),
            staked_sum(self.records_with(holder, record)) == staked_sum(self.records)
                - self.stake_of(holder).amount + record.amount,
            self.position_of(holder) is Some ==> self.stake_of(holder).amount <= staked_sum(
                self.records,
            ),
            self.position_of(holder) is None ==> self.stake_of(holder).amount == 0,
    {
        self.lemma_position(holder);
        match self.position_of(holder) {
            Some(i) => {
                lemma_staked_sum_update(self.records, i, record);
            },
            None => {
                lemma_staked_sum_push(self.records, record);
            },
        }
    }

    /// Every operation leaves books that are in order in order, whether it
    /// is carried out or refused.
    pub proof fn law_operation_keeps_books_in_order(self, operation: Operation)
        requires
            self.wf(),
        ensures
            self.after(operation).wf(),
    {
        match operation {
            Operation::Deposit { funding, authority, amount, now } => {
                let accounts = self.deposit_accounts(funding, authority);
                if self.deposit(funding, authority, amount, now) is Ok {
                    self.lemma_position(authority);
                    self.lemma_records_with(
                        authority,
                        deposit_applied(accounts, amount, now).stake_record,
                    );
                }
            },
            Operation::Withdraw { receiving, authority, amount, now } => {
                let accounts = self.withdraw_accounts(receiving, authority);
                if self.withdraw(receiving, authority, amount, now) is Ok {
                    self.lemma_position(authority);
                    self.lemma_records_with(
                        authority,
                        withdraw_applied(accounts, amount, now).stake_record,
                    );
                }
            },
            Operation::Claim { receiving, authority, now } => {
                let accounts = self.claim_accounts(receiving, authority);
                if self.claim(receiving, authority, now) is Ok {
                    self.lemma_position(authority);
                    self.lemma_records_with(authority, claim_applied(accounts, now).stake_record);
                }
            },
            Operation::Deactivate { authority } => {},
            Operation::Fund { amount } => {},
        }
    }

    /// Books that are in order stay in order through any sequence of
    /// operations.
    pub proof fn law_books_stay_in_order(self, operations: Seq<Operation>)
        requires
            self.wf(),
        ensures
            self.after_all(operations).wf(),
        decreases operations.len(),
    {
        if operations.len() > 0 {
            self.law_books_stay_in_order(operations.drop_last());
            self.after_all(operations.drop_last()).law_operation_keeps_books_in_order(
                operations.last(),
            );
        }
    }

    /// Conservation: after any sequence of deposits, withdrawals and other
    /// operations on books in order, the vault's total is the sum of the
    /// amounts of its positions, and no position holds more than the total.
    pub proof fn law_conservation(self, operations: Seq<Operation>)
        requires
            self.wf(),
        ensures
            ({
                let books = self.after_all(operations);
                &&& books.vault.total_staked == staked_sum(books.records)
                &&& forall|i: int|
                    0 <= i < books.records.len() ==> (#[trigger] books.records[i]).amount
                        <= books.vault.total_staked
            }),
    {
        self.law_books_stay_in_order(operations);
        let books = self.after_all(operations);
        assert forall|i: int| 0 <= i < books.records.len() implies (#[trigger] books.records[i]).amount
            <= books.vault.total_staked by {
            lemma_staked_sum_update(books.records, i, books.records[i]);
        }
    }

    /// No fabrication: after any sequence of operations on books in order,
    /// what has left custody is no more than what deposits brought in plus
    /// the reserve, and custody holds the difference.
    pub proof fn law_no_fabrication(self, operations: Seq<Operation>)
        requires
            self.wf(),
        ensures
            ({
                let books = self.after_all(operations);
                &&& books.outflow <= books.inflow + books.reserve
                &&& books.custody.amount == books.reserve + books.inflow - books.outflow
            }),
    {
        self.law_books_stay_in_order(operations);
    }

    /// The position of a holder is read from the records alone.
    pub proof fn lemma_stake_read_from_records(self, other: Books, holder: Pubkey)
        requires
            self.one_position_per_holder(),
            other.vault_key == self.vault_key,
            other.records == self.records,
        ensures
            other.position_of(holder) == self.position_of(holder),
            other.stake_of(holder) == self.stake_of(holder),
    {
        self.lemma_position(holder);
        other.lemma_position(holder);
    }

    /// Where the position of a holder is replaced, every other holder finds
    /// its position as before, and the holder finds the new one.
    pub proof fn lemma_stake_after_replacement(
        self,
        next: Books,
        holder: Pubkey,
        record: StakeRecord,
        other: Pubkey,
    )
        requires
            self.one_position_per_holder(),
            record.authority == holder,
            record.vault == self.vault_key,
            next.vault_key == self.vault_key,
            next.records == self.records_with(holder, record),
        ensures
            next.stake_of(other) == if other == holder {
                record
            } else {
                self.stake_of(other)
            },
    {
        self.lemma_records_with(holder, record);
        self.lemma_position(holder);
        self.lemma_position(other);
        match self.position_of(holder) {
            Some(i) => {
                assert(next.records[i].authority == holder);
                if let Some(j) = self.position_of(other) {
                    assert(next.records[j].authority == other);
                }
            },
            None => {
                assert(next.records[self.records.len() as int].authority == holder);
                if let Some(j) = self.position_of(other) {
                    assert(next.records[j].authority == other);
                }
            },
        }
        next.lemma_position(holder);
        next.lemma_position(other);
    }

    /// The time at which an operation on positions is made.
    pub open spec fn time_of(operation: Operation) -> Option<i64> {
        match operation {
            Operation::Deposit { now, .. } => Some(now),
            Operation::Withdraw { now, .. } => Some(now),
            Operation::Claim { now, .. } => Some(now),
            Operation::Deactivate { .. } => None,
            Operation::Fund { .. } => None,
        }
    }

    /// Monotonic claim: no operation lowers the rewards paid to a holder so
    /// far, and an operation made no earlier than the holder's accrual began
    /// neither moves that beginning back nor past its own time.
    pub proof fn law_operation_keeps_claims_monotonic(self, operation: Operation, holder: Pubkey)
        requires
            self.wf(),
        ensures
            self.stake_of(holder).total_claimed <= self.after(operation).stake_of(
                holder,
            ).total_claimed,
            Books::time_of(operation) matches Some(now) ==> (self.stake_of(holder).last_claim
                <= now ==> self.stake_of(holder).last_claim <= self.after(operation).stake_of(
                holder,
            ).last_claim <= now),
            Books::time_of(operation) is None ==> self.after(operation).stake_of(holder)
                == self.stake_of(holder),
    {
        match operation {
            Operation::Deposit { funding, authority, amount, now } => {
                let accounts = self.deposit_accounts(funding, authority);
                if self.deposit(funding, authority, amount, now) is Ok {
                    self.lemma_position(authority);
                    self.lemma_stake_after_replacement(
                        self.after(operation),
                        authority,
                        deposit_applied(accounts, amount, now).stake_record,
                        holder,
                    );
                }
            },
            Operation::Withdraw { receiving, authority, amount, now } => {
                let accounts = self.withdraw_accounts(receiving, authority);
                if self.withdraw(receiving, authority, amount, now) is Ok {
                    self.lemma_position(authority);
                    self.lemma_stake_after_replacement(
                        self.after(operation),
                        authority,
                        withdraw_applied(accounts, amount, now).stake_record,
                        holder,
                    );
                }
            },
            Operation::Claim { receiving, authority, now } => {
                let accounts = self.claim_accounts(receiving, authority);
                if self.claim(receiving, authority, now) is Ok {
                    self.lemma_position(authority);
                    self.lemma_stake_after_replacement(
                        self.after(operation),
                        authority,
                        claim_applied(accounts, now).stake_record,
                        holder,
                    );
                }
            },
            Operation::Deactivate { authority } => {
                self.lemma_stake_read_from_records(self.after(operation), holder);
            },
            Operation::Fund { amount } => {
                self.lemma_stake_read_from_records(self.after(operation), holder);
            },
        }
    }

    /// Monotonic claim, over time: through any sequence of operations on
    /// books in order, the rewards paid to a holder so far never fall.
    pub proof fn law_total_claimed_never_falls(self, operations: Seq<Operation>, holder: Pubkey)
        requires
            self.wf(),
        ensures
            self.stake_of(holder).total_claimed <= self.after_all(operations).stake_of(
                holder,
            ).total_claimed,
        decreases operations.len(),
    {
        if operations.len() > 0 {
            let earlier = self.after_all(operations.drop_last());
            self.law_total_claimed_never_falls(operations.drop_last(), holder);
            self.law_books_stay_in_order(operations.drop_last());
            earlier.law_operation_keeps_claims_monotonic(operations.last(), holder);
        }
    }

    /// Cumulative flows only grow: no operation lowers what has come into
    /// custody, what has left it, or the reserve.
    pub proof fn law_flows_only_grow(self, operation: Operation)
        ensures
            self.inflow <= self.after(operation).inflow,
            self.outflow <= self.after(operation).outflow,
            self.reserve <= self.after(operation).reserve,
    {
    }
}

/// The books of one vault: a keyed store, from holder to position. Its
/// fields are its own: the books change through their operations only, so
/// that books opened in order stay in order.
pub struct StakeLedger {
    vault_key: Pubkey,
    vault: Vault,
    custody: TokenAccount,
    records: Vec<StakeRecord>,
    reserve: Ghost<nat>,
    inflow: Ghost<nat>,
    outflow: Ghost<nat>,
}

impl View for StakeLedger {
    type V = Books;

    closed spec fn view(&self) -> Books {
        Books {
            vault_key: self.vault_key,
            vault: self.vault,
            custody: self.custody,
            records: self.records@,
            reserve: self.reserve@,
            inflow: self.inflow@,
            outflow: self.outflow@,
        }
    }
}

impl StakeLedger {
    /// The invariant of the books.
    pub open spec fn wf(&self) -> bool {
        self@.wf()
    }

    /// Opens the books of a new vault. What the custody account holds at
    /// that time is the vault's reserve.
    pub fn open(ctx: &CreateVault, reward_rate: u16, lock_duration: i64, now: i64) -> (r: Result<
        (StakeLedger, VaultCreatedEvent),
        ErrorCode,
    >)
        ensures
            match r {
                Ok((ledger, event)) => {
                    &&& create_vault_rejection(reward_rate, lock_duration) is None
                    &&& ledger.wf()
                    &&& ledger@ == (Books {
                        vault_key: ctx.vault_key,
                        vault: created_vault(*ctx, reward_rate, lock_duration, now),
                        custody: ctx.vault_token_account,
                        records: Seq::<StakeRecord>::empty(),
                        reserve: ctx.vault_token_account.amount as nat,
                        inflow: 0,
                        outflow: 0,
                    })
                    &&& event == (VaultCreatedEvent {
                        nft_mint: ctx.nft_mint.key,
                        vault: ctx.vault_key,
                        authority: ctx.authority,
                        reward_rate,
                        lock_duration,
                        timestamp: now,
                    })
                },
                Err(e) => create_vault_rejection(reward_rate, lock_duration) == Some(e),
            },
    {
        let mut accounts = *ctx;
        match create_vault(&mut accounts, reward_rate, lock_duration, now) {
            Ok(event) => {
                let ledger = StakeLedger {
                    vault_key: accounts.vault_key,
                    vault: accounts.vault,
                    custody: accounts.vault_token_account,
                    records: Vec::new(),
                    reserve: Ghost(accounts.vault_token_account.amount as nat),
                    inflow: Ghost(0nat),
                    outflow: Ghost(0nat),
                };
                Ok((ledger, event))
            },
            Err(e) => Err(e),
        }
    }

    /// Address of the vault record.
    pub fn vault_key(&self) -> (key: Pubkey)
        ensures
            key == self@.vault_key,
    {
        self.vault_key
    }

    /// The vault's configuration and totals.
    pub fn vault(&self) -> (vault: Vault)
        ensures
            vault == self@.vault,
    {
        self.vault
    }

    /// The custody account, with the balance that the books expect of it.
    pub fn custody(&self) -> (custody: TokenAccount)
        ensures
            custody == self@.custody,
    {
        self.custody
    }

    /// How many holders have a position on the books.
    pub fn positions(&self) -> (count: usize)
        ensures
            count == self@.records.len(),
    {
        self.records.len()
    }

    /// Where the position of `holder` stands among the records.
    fn find(&self, holder: &Pubkey) -> (found: Option<usize>)
        ensures
            match found {
                Some(i) => i < self.records@.len() && self.records@[i as int].authority == *holder,
                None => forall|j: int|
                    0 <= j < self.records@.len() ==> self.records@[j].authority != *holder,
            },
            self@.one_position_per_holder() ==> match found {
                Some(i) => self@.position_of(*holder) == Some(i as int),
                None => self@.position_of(*holder) is None,
            },
    {
        let mut i: usize = 0;
        while i < self.records.len()
            invariant
                i <= self.records@.len(),
                forall|j: int| 0 <= j < i ==> self.records@[j].authority != *holder,
            decreases self.records@.len() - i,
        {
            if self.records[i].authority.equals(holder) {
                return Some(i);
            }
            i += 1;
        }
        None
    }

    /// The position of `holder`, if it has one.
    pub fn record_of(&self, holder: &Pubkey) -> (record: Option<StakeRecord>)
        ensures
            match record {
                Some(found) => exists|i: int|
                    0 <= i < self@.records.len() && self@.records[i] == found && found.authority
                        == *holder,
                None => forall|j: int|
                    0 <= j < self@.records.len() ==> self@.records[j].authority != *holder,
            },
            self@.one_position_per_holder() ==> match record {
                Some(found) => self@.position_of(*holder) is Some && found == self@.stake_of(
                    *holder,
                ),
                None => self@.position_of(*holder) is None,
            },
    {
        match self.find(holder) {
            Some(i) => Some(self.records[i]),
            None => None,
        }
    }

    /// Sum of the amounts of all positions, where it fits in 64 bits.
    pub fn staked_total(&self) -> (total: Option<u64>)
        ensures
            staked_sum(self@.records) <= u64::MAX ==> total == Some(
                staked_sum(self@.records) as u64,
            ),
            staked_sum(self@.records) > u64::MAX ==> total is None,
    {
        let mut sum: u64 = 0;
        let mut i: usize = 0;
        proof {
            assert(self.records@.take(0) =~= Seq::<StakeRecord>::empty());
        }
        while i < self.records.len()
            invariant
                i <= self.records@.len(),
                sum == staked_sum(self.records@.take(i as int)),
            decreases self.records@.len() - i,
        {
            proof {
                assert(self.records@.take(i + 1).drop_last() =~= self.records@.take(i as int));
                lemma_staked_sum_prefix(self.records@, i + 1);
            }
            sum = match sum.checked_add(self.records[i].amount) {
                Some(next) => next,
                None => {
                    return None;
                },
            };
            i += 1;
        }
        proof {
            assert(self.records@.take(i as int) =~= self.records@);
        }
        Some(sum)
    }

    /// Adds `amount` to the reserve from which rewards are paid. Refused
    /// with `CustodyRefused` where custody could not count the new balance.
    pub fn fund(&mut self, amount: u64) -> (r: Result<(), LedgerError>)
        requires
            old(self).wf(),
        ensures
            final(self).wf(),
            final(self)@ == old(self)@.after(Operation::Fund { amount }),
            match r {
                Ok(()) => old(self)@.fund(amount) is Ok,
                Err(e) => old(self)@.fund(amount) == Err::<Books, LedgerError>(e),
            },
    {
        match self.custody.amount.checked_add(amount) {
            Some(balance) => {
                self.custody.amount = balance;
                self.reserve = Ghost((self.reserve@ + amount) as nat);
                Ok(())
            },
            None => Err(LedgerError::CustodyRefused),
        }
    }

    /// Stakes `amount` for `authority`, out of `funding`. A holder without a
    /// position gets one. On success the vault's total, the holder's position
    /// and custody all rise by `amount`; on refusal the books are unchanged.
    ///
    /// Refused with `Rejected` and the reason where `deposit_tokens` refuses,
    /// and with `CustodyRefused` where custody could not count the new
    /// balance.
    pub fn deposit(
        &mut self,
        funding: &TokenAccount,
        authority: &Pubkey,
        amount: u64,
        now: i64,
    ) -> (r: Result<DepositReceipt, LedgerError>)
        requires
            old(self).wf(),
        ensures
            final(self).wf(),
            final(self)@ == old(self)@.after(
                Operation::Deposit { funding: *funding, authority: *authority, amount, now },
            ),
            match r {
                Ok(receipt) => {
                    &&& old(self)@.deposit(*funding, *authority, amount, now) is Ok
                    &&& receipt == deposit_receipt(
                        old(self)@.deposit_accounts(*funding, *authority),
                        amount,
                        now,
                    )
                },
                Err(e) => old(self)@.deposit(*funding, *authority, amount, now) == Err::<
                    Books,
                    LedgerError,
                >(e),
            },
    {
        proof {
            self@.law_operation_keeps_books_in_order(
                Operation::Deposit { funding: *funding, authority: *authority, amount, now },
            );
        }
        let found = self.find(authority);
        let stake = match found {
            Some(i) => self.records[i],
            None => StakeRecord::new(),
        };
        let mut accounts = DepositTokens {
            vault_key: self.vault_key,
            vault: self.vault,
            stake_record: stake,
            user_token_account: *funding,
            vault_token_account: self.custody,
            authority: *authority,
        };
        let receipt = match deposit_tokens(&mut accounts, amount, now) {
            Ok(receipt) => receipt,
            Err(e) => {
                return Err(LedgerError::Rejected(e));
            },
        };
        let balance = match self.custody.amount.checked_add(amount) {
            Some(balance) => balance,
            None => {
                return Err(LedgerError::CustodyRefused);
            },
        };
        self.vault = accounts.vault;
        match found {
            Some(i) => {
                self.records[i] = accounts.stake_record;
            },
            None => {
                self.records.push(accounts.stake_record);
            },
        }
        self.custody.amount = balance;
        self.inflow = Ghost((self.inflow@ + amount) as nat);
        Ok(receipt)
    }

    /// Returns `amount` of the principal of `authority` to `receiving`. On
    /// success the vault's total, the holder's position and custody all fall
    /// by `amount`; on refusal the books are unchanged.
    ///
    /// Refused with `NoPosition` where the holder has none, with `Rejected`
    /// and the reason where `withdraw_tokens` refuses, and with
    /// `CustodyRefused` where custody holds less than `amount`.
    pub fn withdraw(
        &mut self,
        receiving: &TokenAccount,
        authority: &Pubkey,
        amount: u64,
        now: i64,
    ) -> (r: Result<WithdrawReceipt, LedgerError>)
        requires
            old(self).wf(),
        ensures
            final(self).wf(),
            final(self)@ == old(self)@.after(
                Operation::Withdraw { receiving: *receiving, authority: *authority, amount, now },
            ),
            match r {
                Ok(receipt) => {
                    &&& old(self)@.withdraw(*receiving, *authority, amount, now) is Ok
                    &&& receipt == withdraw_receipt(
                        old(self)@.withdraw_accounts(*receiving, *authority),
                        amount,
                        now,
                    )
                },
                Err(e) => old(self)@.withdraw(*receiving, *authority, amount, now) == Err::<
                    Books,
                    LedgerError,
                >(e),
            },
    {
        proof {
            self@.law_operation_keeps_books_in_order(
                Operation::Withdraw { receiving: *receiving, authority: *authority, amount, now },
            );
        }
        let i = match self.find(authority) {
            Some(i) => i,
            None => {
                return Err(LedgerError::NoPosition);
            },
        };
        let mut accounts = WithdrawTokens {
            vault_key: self.vault_key,
            vault: self.vault,
            stake_record: self.records[i],
            user_token_account: *receiving,
            vault_token_account: self.custody,
            authority: *authority,
        };
        let receipt = match withdraw_tokens(&mut accounts, amount, now) {
            Ok(receipt) => receipt,
            Err(e) => {
                return Err(LedgerError::Rejected(e));
            },
        };
        let balance = match self.custody.amount.checked_sub(amount) {
            Some(balance) => balance,
            None => {
                return Err(LedgerError::CustodyRefused);
            },
        };
        self.vault = accounts.vault;
        self.records[i] = accounts.stake_record;
        self.custody.amount = balance;
        self.outflow = Ghost((self.outflow@ + amount) as nat);
        Ok(receipt)
    }

    /// Pays `authority` the reward accrued on its position, to `receiving`.
    /// On success custody falls by the reward, and the vault's total and the
    /// amounts of all positions stay; on refusal the books are unchanged.
    ///
    /// Refused with `NoPosition` where the holder has none, and with
    /// `Rejected` and the reason where `claim_rewards` refuses.
    pub fn claim(&mut self, receiving: &TokenAccount, authority: &Pubkey, now: i64) -> (r: Result<
        ClaimReceipt,
        LedgerError,
    >)
        requires
            old(self).wf(),
        ensures
            final(self).wf(),
            final(self)@ == old(self)@.after(
                Operation::Claim { receiving: *receiving, authority: *authority, now },
            ),
            match r {
                Ok(receipt) => {
                    &&& old(self)@.claim(*receiving, *authority, now) is Ok
                    &&& receipt == claim_receipt(
                        old(self)@.claim_accounts(*receiving, *authority),
                        now,
                    )
                },
                Err(e) => old(self)@.claim(*receiving, *authority, now) == Err::<
                    Books,
                    LedgerError,
                >(e),
            },
    {
        proof {
            self@.law_operation_keeps_books_in_order(
                Operation::Claim { receiving: *receiving, authority: *authority, now },
            );
        }
        let i = match self.find(authority) {
            Some(i) => i,
            None => {
                return Err(LedgerError::NoPosition);
            },
        };
        let mut accounts = ClaimRewards {
            vault_key: self.vault_key,
            vault: self.vault,
            stake_record: self.records[i],
            user_token_account: *receiving,
            vault_token_account: self.custody,
            authority: *authority,
        };
        let receipt = match claim_rewards(&mut accounts, now) {
            Ok(receipt) => receipt,
            Err(e) => {
                return Err(LedgerError::Rejected(e));
            },
        };
        self.records[i] = accounts.stake_record;
        self.custody.amount = self.custody.amount - receipt.transfer.amount;
        self.outflow = Ghost((self.outflow@ + receipt.transfer.amount) as nat);
        Ok(receipt)
    }

    /// Closes the vault to deposits and claims. Refused, with the books
    /// unchanged, where `deactivate_vault` refuses.
    pub fn deactivate(&mut self, authority: &Pubkey, now: i64) -> (r: Result<
        VaultDeactivatedEvent,
        ErrorCode,
    >)
        requires
            old(self).wf(),
        ensures
            final(self).wf(),
            final(self)@ == old(self)@.after(Operation::Deactivate { authority: *authority }),
            match r {
                Ok(event) => {
                    &&& old(self)@.deactivate(*authority) is Ok
                    &&& event == (VaultDeactivatedEvent {
                        vault: old(self)@.vault_key,
                        authority: *authority,
                        timestamp: now,
                    })
                },
                Err(e) => old(self)@.deactivate(*authority) == Err::<Books, LedgerError>(
                    LedgerError::Rejected(e),
                ),
            },
    {
        let mut accounts = DeactivateVault {
            vault_key: self.vault_key,
            vault: self.vault,
            authority: *authority,
        };
        match deactivate_vault(&mut accounts, now) {
            Ok(event) => {
                self.vault = accounts.vault;
                Ok(event)
            },
            Err(e) => Err(e),
        }
    }
}

} // verus!
