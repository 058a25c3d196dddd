use vstd::prelude::*;

use crate::errors::MyError;

verus! {

/// A statement of the data-access layer together with its parameters. Each one
/// is a single autocommit statement on the store.
#[derive(Clone, Debug, PartialEq, Eq)]
pub enum Statement {
    /// A trivial round trip that checks the store answers.
    Ping,
    /// All accounts, by ascending `id`.
    ListAccounts,
    /// The account with this `id`, if any.
    AccountById(i64),
    /// A new account; the store assigns `id` and `created_at`.
    InsertAccount { username: String, balance: i64, email: String },
    /// All transactions, by ascending `id`.
    ListTransactions,
    /// The transaction with this `id`, if any.
    TransactionById(i64),
    /// A new transaction; the store assigns `id` and `created_at`.
    InsertTransaction { from_account: i64, to_account: i64, amount: i64 },
}

pub enum StatementView {
    Ping,
    ListAccounts,
    AccountById(i64),
    InsertAccount { username: Seq<char>, balance: i64, email: Seq<char> },
    ListTransactions,
    TransactionById(i64),
    InsertTransaction { from_account: i64, to_account: i64, amount: i64 },
}

impl View for Statement {
    type V = StatementView;

    open spec fn view(&self) -> StatementView {
        match self {
            Statement::Ping => StatementView::Ping,
            Statement::ListAccounts => StatementView::ListAccounts,
            Statement::AccountById(id) => StatementView::AccountById(*id),
            Statement::InsertAccount { username, balance, email } => StatementView::InsertAccount {
                username: username@,
                balance: *balance,
                email: email@,
            },
            Statement::ListTransactions => StatementView::ListTransactions,
            Statement::TransactionById(id) => StatementView::TransactionById(*id),
            Statement::InsertTransaction { from_account, to_account, amount } =>
                StatementView::InsertTransaction {
                    from_account: *from_account,
                    to_account: *to_account,
                    amount: *amount,
                },
        }
    }
}

/// The SQL text of each statement; `$1`, `$2`, `$3` stand for its parameters
/// in the order of its fields.
pub open spec fn sql_of(s: StatementView) -> Seq<char> {
    match s {
        StatementView::Ping => "SELECT NOW()"@,
        StatementView::ListAccounts => "SELECT * FROM accounts ORDER BY id"@,
        StatementView::AccountById(_) => "SELECT * FROM accounts WHERE id = $1 LIMIT 1"@,
        StatementView::InsertAccount { .. } =>
            "INSERT INTO accounts (username, balance, email) VALUES ($1, $2, $3) RETURNING *"@,
        StatementView::ListTransactions => "SELECT * FROM transactions ORDER BY id"@,
        StatementView::TransactionById(_) => "SELECT * FROM transactions WHERE id = $1 LIMIT 1"@,
        StatementView::InsertTransaction { .. } =>
            "INSERT INTO transactions (from_account, to_account, amount) VALUES ($1, $2, $3) RETURNING *"@,
    }
}

impl Statement {
    pub fn sql(&self) -> (r: &'static str)
        ensures
            r@ == sql_of(self@),
    {
        match self {
            Statement::Ping => "SELECT NOW()",
            Statement::ListAccounts => "SELECT * FROM accounts ORDER BY id",
            Statement::AccountById(_) => "SELECT * FROM accounts WHERE id = $1 LIMIT 1",
            Statement::InsertAccount { .. } =>
                "INSERT INTO accounts (username, balance, email) VALUES ($1, $2, $3) RETURNING *",
            Statement::ListTransactions => "SELECT * FROM transactions ORDER BY id",
            Statement::TransactionById(_) => "SELECT * FROM transactions WHERE id = $1 LIMIT 1",
            Statement::InsertTransaction { .. } =>
                "INSERT INTO transactions (from_account, to_account, amount) VALUES ($1, $2, $3) RETURNING *",
        }
    }
}

/// The single entity a lookup or an insert answers with: the last row
/// returned, or `NotFound` when no row came back.
pub fn single_row<T>(rows: Vec<T>) -> (r: Result<T, MyError>)
    ensures
        rows@.len() == 0 ==> r == Err::<T, MyError>(MyError::NotFound),
        rows@.len() > 0 ==> r == Ok::<T, MyError>(rows@.last()),
{
    let mut rows = rows;
    match rows.pop() {
        Some(row) => Ok(row),
        None => Err(MyError::NotFound),
    }
}

/// The reason given for the first row that could not be converted, if any.
pub open spec fn first_failure<T, E>(rows: Seq<Result<T, E>>) -> Option<E>
    decreases rows.len(),
{
    if rows.len() == 0 {
        None
    } else {
        match first_failure(rows.drop_last()) {
            Some(m) => Some(m),
            None => match rows.last() {
                Ok(_) => None,
                Err(m) => Some(m),
            },
        }
    }
}

/// The entities of rows that were all converted.
pub open spec fn entities<T, E>(rows: Seq<Result<T, E>>) -> Seq<T> {
    rows.map_values(|x: Result<T, E>| x->Ok_0)
}

/// The rows seen through a conversion of the entities and of the reasons.
pub open spec fn map_rows<T, U>(rows: Seq<Result<T, String>>, f: spec_fn(T) -> U) -> Seq<
    Result<U, Seq<char>>,
> {
    rows.map_values(
        |x: Result<T, String>|
            match x {
                Ok(v) => Ok(f(v)),
                Err(m) => Err(m@),
            },
    )
}

pub proof fn lemma_first_failure_map_rows<T, U>(rows: Seq<Result<T, String>>, f: spec_fn(T) -> U)
    ensures
        first_failure(map_rows(rows, f)) == match first_failure(rows) {
            Some(m) => Some(m@),
            None => None::<Seq<char>>,
        },
        first_failure(rows) is None ==> entities(map_rows(rows, f)) == entities(rows).map_values(
            f,
        ),
    decreases rows.len(),
{
    if rows.len() > 0 {
        lemma_first_failure_map_rows(rows.drop_last(), f);
        assert(map_rows(rows, f).drop_last() == map_rows(rows.drop_last(), f));
    }
    if first_failure(rows) is None {
        lemma_no_failure_all_ok(rows);
        assert(entities(map_rows(rows, f)) =~= entities(rows).map_values(f));
    }
}

pub proof fn lemma_no_failure_all_ok<T, E>(rows: Seq<Result<T, E>>)
    ensures
        first_failure(rows) is None <==> forall|i: int| 0 <= i < rows.len() ==> (#[trigger] rows[i]) is Ok,
    decreases rows.len(),
{
    if rows.len() > 0 {
        lemma_no_failure_all_ok(rows.drop_last());
        if first_failure(rows) is None {
            assert forall|i: int| 0 <= i < rows.len() implies (#[trigger] rows[i]) is Ok by {
                if i < rows.len() - 1 {
                    assert(rows.drop_last()[i] == rows[i]);
                }
            }
        }
        if forall|i: int| 0 <= i < rows.len() ==> (#[trigger] rows[i]) is Ok {
            assert forall|i: int| 0 <= i < rows.drop_last().len() implies (
            #[trigger] rows.drop_last()[i]) is Ok by {
                assert(rows.drop_last()[i] == rows[i]);
            }
        }
    }
}

/// Gathers the rows of a result set, each already converted into its entity
/// or into the reason it could not be: all of the entities in order, or a
/// `MappingError` with the reason of the first row that failed.
pub fn collect_rows<T>(mapped: Vec<Result<T, String>>) -> (r: Result<Vec<T>, MyError>)
    ensures
        first_failure(mapped@) is None ==> r is Ok && r->Ok_0@ == entities(mapped@),
        first_failure(mapped@) is Some ==> r == Err::<Vec<T>, MyError>(
            MyError::MappingError(first_failure(mapped@)->0),
        ),
{
    let ghost input = mapped@;
    let mut rows: Vec<T> = Vec::new();
    let mut failure: Option<String> = None;
    for item in it: mapped.into_iter()
        invariant
            it.seq() == input,
            failure == first_failure(input.take(it.index() as int)),
            failure is None ==> rows@ == entities(input.take(it.index() as int)),
    {
        let ghost k = it.index() as int;
        proof {
            assert(input.take(k + 1).drop_last() == input.take(k));
        }
        match item {
            Ok(v) => {
                if failure.is_none() {
                    rows.push(v);
                    proof {
                        assert(entities(input.take(k + 1)) =~= entities(input.take(k)).push(v));
                    }
                }
            },
            Err(m) => {
                if failure.is_none() {
                    failure = Some(m);
                }
            },
        }
    }
    proof {
        assert(input.take(input.len() as int) == input);
    }
    match failure {
        Some(m) => Err(MyError::MappingError(m)),
        None => Ok(rows),
    }
}

} // verus!
