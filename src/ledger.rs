use vstd::prelude::*;

use crate::db::{first_failure, StatementView};
use crate::errors::{MyErrorView, NOT_FOUND};
use crate::handlers::{account_reply, error_reply, RowsOutcome};
use crate::model::{AccountView, ServiceInfoView, Timestamp, Transaction};

verus! {

/// The two tables as the statements of this crate read and change them. Each
/// table draws its ids from its own sequence (`id` is a serial column, and
/// `last_*_id` is the sequence's last value); `created_at` comes from the
/// store's clock, `now`.
pub struct Ledger {
    pub accounts: Seq<AccountView>,
    pub transactions: Seq<Transaction>,
    pub last_account_id: i64,
    pub last_transaction_id: i64,
    pub now: Timestamp,
}

/// What a statement returns.
pub enum StoreRows {
    Accounts(Seq<AccountView>),
    Transactions(Seq<Transaction>),
    Clock(Timestamp),
}

impl Ledger {
    /// Rows are kept in the order of their ids, which are positive and never
    /// above the last value of their sequence.
    pub open spec fn well_formed(self) -> bool {
        &&& forall|i: int, j: int|
            0 <= i < j < self.accounts.len() ==> #[trigger] self.accounts[i].id
                < #[trigger] self.accounts[j].id
        &&& forall|i: int|
            0 <= i < self.accounts.len() ==> 0 < #[trigger] self.accounts[i].id
                <= self.last_account_id
        &&& forall|i: int, j: int|
            0 <= i < j < self.transactions.len() ==> #[trigger] self.transactions[i].id
                < #[trigger] self.transactions[j].id
        &&& forall|i: int|
            0 <= i < self.transactions.len() ==> 0 < #[trigger] self.transactions[i].id
                <= self.last_transaction_id
        &&& self.last_account_id >= 0
        &&& self.last_transaction_id >= 0
    }

    pub open spec fn has_account(self, id: i64) -> bool {
        exists|i: int| 0 <= i < self.accounts.len() && #[trigger] self.accounts[i].id == id
    }
}

/// The effect and the result of one statement; `None` when the store refuses
/// it because the table's id sequence is exhausted.
pub open spec fn execute(l: Ledger, s: StatementView) -> Option<(Ledger, StoreRows)> {
    match s {
        StatementView::Ping => Some((l, StoreRows::Clock(l.now))),
        StatementView::ListAccounts => Some((l, StoreRows::Accounts(l.accounts))),
        StatementView::AccountById(id) => Some(
            (l, StoreRows::Accounts(l.accounts.filter(|a: AccountView| a.id == id))),
        ),
        StatementView::InsertAccount { username, balance, email } => if l.last_account_id
            < i64::MAX {
            let a = AccountView {
                id: (l.last_account_id + 1) as i64,
                username,
                email,
                balance,
                created_at: l.now,
            };
            Some(
                (
                    Ledger { accounts: l.accounts.push(a), last_account_id: a.id, ..l },
                    StoreRows::Accounts(seq![a]),
                ),
            )
        } else {
            None
        },
        StatementView::ListTransactions => Some((l, StoreRows::Transactions(l.transactions))),
        StatementView::TransactionById(id) => Some(
            (l, StoreRows::Transactions(l.transactions.filter(|t: Transaction| t.id == id))),
        ),
        StatementView::InsertTransaction { from_account, to_account, amount } => if l.last_transaction_id
            < i64::MAX {
            let t = Transaction {
                id: (l.last_transaction_id + 1) as i64,
                from_account,
                to_account,
                amount,
                created_at: l.now,
            };
            Some(
                (
                    Ledger { transactions: l.transactions.push(t), last_transaction_id: t.id, ..l },
                    StoreRows::Transactions(seq![t]),
                ),
            )
        } else {
            None
        },
    }
}

/// The ledger after a statement the store accepted.
pub open spec fn after(l: Ledger, s: StatementView) -> Ledger {
    match execute(l, s) {
        Some((next, _)) => next,
        None => l,
    }
}

/// The rows a statement the store accepted returned.
pub open spec fn returned(l: Ledger, s: StatementView) -> StoreRows {
    match execute(l, s) {
        Some((_, rows)) => rows,
        None => StoreRows::Accounts(Seq::empty()),
    }
}

/// The accounts a statement returned, as a runner hands them to the response
/// functions.
pub open spec fn account_outcome(rows: Seq<AccountView>) -> RowsOutcome<AccountView> {
    Ok(rows.map_values(|a: AccountView| Ok::<AccountView, Seq<char>>(a)))
}

/// Every statement keeps the ledger well formed.
pub proof fn lemma_execute_well_formed(l: Ledger, s: StatementView)
    requires
        l.well_formed(),
        execute(l, s) is Some,
    ensures
        after(l, s).well_formed(),
{
}

/// Each created account gets an id that no account in the store has, greater
/// than all of them; so two successive creations return increasing, distinct
/// ids.
pub proof fn lemma_account_ids_increase(
    l: Ledger,
    first: StatementView,
    second: StatementView,
)
    requires
        l.well_formed(),
        first is InsertAccount,
        second is InsertAccount,
        execute(l, first) is Some,
        execute(after(l, first), second) is Some,
    ensures
        ({
            let r1 = returned(l, first);
            let r2 = returned(after(l, first), second);
            &&& r1 is Accounts && r1->Accounts_0.len() == 1
            &&& r2 is Accounts && r2->Accounts_0.len() == 1
            &&& forall|i: int|
                0 <= i < l.accounts.len() ==> #[trigger] l.accounts[i].id
                    < r1->Accounts_0[0].id
            &&& r1->Accounts_0[0].id < r2->Accounts_0[0].id
            &&& after(after(l, first), second).well_formed()
        }),
{
}

/// A lookup of an id that no account has returns no row, and is answered
/// with `NotFound` (404), never with an account.
pub proof fn lemma_unknown_account_not_found(info: ServiceInfoView, l: Ledger, id: i64)
    requires
        !l.has_account(id),
    ensures
        execute(l, StatementView::AccountById(id)) == Some(
            (l, StoreRows::Accounts(Seq::<AccountView>::empty())),
        ),
        account_reply(info, account_outcome(Seq::empty())) == error_reply(
            info,
            MyErrorView::NotFound,
        ),
        account_reply(info, account_outcome(Seq::empty())).code == NOT_FOUND,
        !(account_reply(info, account_outcome(Seq::empty())).body is Account),
{
    let matches_id = |a: AccountView| a.id == id;
    assert forall|i: int| 0 <= i < l.accounts.len() implies !matches_id(#[trigger] l.accounts[i]) by {
        if l.accounts[i].id == id {
            assert(l.has_account(id));
        }
    }
    l.accounts.lemma_all_neg_filter_empty(matches_id);
    assert(l.accounts.filter(matches_id) =~= Seq::<AccountView>::empty());
    let out = Seq::<AccountView>::empty().map_values(|a: AccountView| Ok::<AccountView, Seq<char>>(a));
    assert(out =~= Seq::empty());
    assert(first_failure(out) is None);
}

/// Recording a transaction leaves every account, and so every balance, as it
/// was.
pub proof fn lemma_transaction_keeps_balances(l: Ledger, from_account: i64, to_account: i64, amount: i64)
    requires
        execute(l, StatementView::InsertTransaction { from_account, to_account, amount }) is Some,
    ensures
        after(l, StatementView::InsertTransaction { from_account, to_account, amount }).accounts
            == l.accounts,
{
}

} // verus!
