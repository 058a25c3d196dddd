use vstd::prelude::*;

use crate::db::{
    collect_rows, entities, first_failure, lemma_first_failure_map_rows, map_rows, single_row,
    Statement, StatementView,
};
use crate::errors::{
    message_of, status_code_of, MyError, MyErrorView, BAD_REQUEST, OK, SERVICE_UNAVAILABLE,
};
use crate::model::{
    Account, AccountParams, AccountView, Health, HealthView, ServiceInfo, ServiceInfoView, Status,
    StatusView, Transaction, TransactionParams,
};

verus! {

/// The JSON body of a response.
#[derive(Clone, Debug, PartialEq, Eq)]
pub enum Body {
    Status(Status),
    Health(Health),
    Account(Account),
    Accounts(Vec<Account>),
    Transaction(Transaction),
    Transactions(Vec<Transaction>),
}

pub enum BodyView {
    Status(StatusView),
    Health(HealthView),
    Account(AccountView),
    Accounts(Seq<AccountView>),
    Transaction(Transaction),
    Transactions(Seq<Transaction>),
}

impl View for Body {
    type V = BodyView;

    open spec fn view(&self) -> BodyView {
        match self {
            Body::Status(s) => BodyView::Status(s@),
            Body::Health(h) => BodyView::Health(h@),
            Body::Account(a) => BodyView::Account(a@),
            Body::Accounts(v) => BodyView::Accounts(v@.map_values(|a: Account| a@)),
            Body::Transaction(t) => BodyView::Transaction(*t),
            Body::Transactions(v) => BodyView::Transactions(v@),
        }
    }
}

/// An HTTP status code and the body sent with it.
#[derive(Clone, Debug, PartialEq, Eq)]
pub struct Response {
    pub code: u16,
    pub body: Body,
}

pub struct ResponseView {
    pub code: u16,
    pub body: BodyView,
}

impl View for Response {
    type V = ResponseView;

    open spec fn view(&self) -> ResponseView {
        ResponseView { code: self.code, body: self.body@ }
    }
}

/// What a handler asks of its runner once the request has been checked.
#[derive(Clone, Debug, PartialEq, Eq)]
pub enum Action {
    /// Draw a connection from the pool, run the statement, and hand the
    /// outcome to the matching response function.
    Run(Statement),
    /// Send this response; the store is not needed.
    Reply(Response),
}

pub enum ActionView {
    Run(StatementView),
    Reply(ResponseView),
}

impl View for Action {
    type V = ActionView;

    open spec fn view(&self) -> ActionView {
        match self {
            Action::Run(s) => ActionView::Run(s@),
            Action::Reply(r) => ActionView::Reply(r@),
        }
    }
}

pub open spec fn status_body(info: ServiceInfoView, message: Seq<char>) -> StatusView {
    StatusView { service: info.service, version: info.version, message }
}

/// A `Status` body carrying `message`, sent with `code`.
pub open spec fn status_reply(info: ServiceInfoView, code: u16, message: Seq<char>) -> ResponseView {
    ResponseView { code, body: BodyView::Status(status_body(info, message)) }
}

/// The answer to a failed data-access operation: its kind picks the code.
pub open spec fn error_reply(info: ServiceInfoView, e: MyErrorView) -> ResponseView {
    status_reply(info, status_code_of(e), message_of(e))
}

pub open spec fn health_body(info: ServiceInfoView, message: Seq<char>, failures: Seq<Seq<char>>) -> HealthView {
    HealthView { service: info.service, version: info.version, message, failures }
}

/// The outcome of a statement that returns entities, as the runner reports
/// it: the error that stopped it, or each row converted into its entity or
/// into the reason it could not be.
pub type RowsOutcome<T> = Result<Seq<Result<T, Seq<char>>>, MyErrorView>;

pub open spec fn account_rows(outcome: Result<Vec<Result<Account, String>>, MyError>) -> RowsOutcome<
    AccountView,
> {
    match outcome {
        Ok(rows) => Ok(map_rows(rows@, |a: Account| a@)),
        Err(e) => Err(e@),
    }
}

pub open spec fn transaction_rows(
    outcome: Result<Vec<Result<Transaction, String>>, MyError>,
) -> RowsOutcome<Transaction> {
    match outcome {
        Ok(rows) => Ok(map_rows(rows@, |t: Transaction| t)),
        Err(e) => Err(e@),
    }
}

/// The reply to a listing: every entity, or the error that stopped the query
/// or the conversion of the first bad row.
pub open spec fn list_reply<T>(
    info: ServiceInfoView,
    outcome: RowsOutcome<T>,
    body: spec_fn(Seq<T>) -> BodyView,
) -> ResponseView {
    match outcome {
        Err(e) => error_reply(info, e),
        Ok(rows) => match first_failure(rows) {
            Some(m) => error_reply(info, MyErrorView::MappingError(m)),
            None => ResponseView { code: OK, body: body(entities(rows)) },
        },
    }
}

/// The reply to a lookup or an insert: the single entity the store returned,
/// `NotFound` when it returned none, or the error that stopped the query or
/// the conversion of the first bad row.
pub open spec fn single_reply<T>(
    info: ServiceInfoView,
    outcome: RowsOutcome<T>,
    body: spec_fn(T) -> BodyView,
) -> ResponseView {
    match outcome {
        Err(e) => error_reply(info, e),
        Ok(rows) => match first_failure(rows) {
            Some(m) => error_reply(info, MyErrorView::MappingError(m)),
            None => if rows.len() == 0 {
                error_reply(info, MyErrorView::NotFound)
            } else {
                ResponseView { code: OK, body: body(rows.last()->Ok_0) }
            },
        },
    }
}

pub open spec fn account_list_reply(info: ServiceInfoView, outcome: RowsOutcome<AccountView>) -> ResponseView {
    list_reply(info, outcome, |v: Seq<AccountView>| BodyView::Accounts(v))
}

pub open spec fn account_reply(info: ServiceInfoView, outcome: RowsOutcome<AccountView>) -> ResponseView {
    single_reply(info, outcome, |a: AccountView| BodyView::Account(a))
}

pub open spec fn transaction_list_reply(info: ServiceInfoView, outcome: RowsOutcome<Transaction>) -> ResponseView {
    list_reply(info, outcome, |v: Seq<Transaction>| BodyView::Transactions(v))
}

pub open spec fn transaction_reply(info: ServiceInfoView, outcome: RowsOutcome<Transaction>) -> ResponseView {
    single_reply(info, outcome, |t: Transaction| BodyView::Transaction(t))
}

/// The reply to a status request.
pub open spec fn liveness_reply(info: ServiceInfoView) -> ResponseView {
    status_reply(info, OK, "OK"@)
}

/// The reply to a health request, given whether a connection was drawn and
/// the store answered the ping.
pub open spec fn health_reply(info: ServiceInfoView, ping: Result<(), MyErrorView>) -> ResponseView {
    match ping {
        Ok(()) => ResponseView {
            code: OK,
            body: BodyView::Health(health_body(info, "OK"@, Seq::empty())),
        },
        Err(e) => ResponseView {
            code: SERVICE_UNAVAILABLE,
            body: BodyView::Health(health_body(info, "FAILURES"@, seq![message_of(e)])),
        },
    }
}

pub open spec fn ping_view(ping: Result<(), MyError>) -> Result<(), MyErrorView> {
    match ping {
        Ok(()) => Ok(()),
        Err(e) => Err(e@),
    }
}

fn status_response(info: &ServiceInfo, code: u16, message: String) -> (r: Response)
    ensures
        r@ == status_reply(info@, code, message@),
{
    Response {
        code,
        body: Body::Status(
            Status { service: info.service.clone(), version: info.version.clone(), message },
        ),
    }
}

fn error_response(info: &ServiceInfo, e: &MyError) -> (r: Response)
    ensures
        r@ == error_reply(info@, e@),
{
    status_response(info, e.status_code(), e.message())
}

/// Liveness: always a success while the process answers; the store is not
/// consulted.
pub fn status(info: &ServiceInfo) -> (r: Response)
    ensures
        r@ == liveness_reply(info@),
{
    status_response(info, OK, String::from_str("OK"))
}

/// Readiness: success only when a connection was drawn and the store answered
/// the ping; otherwise unavailable, naming what failed.
pub fn health(info: &ServiceInfo, ping: Result<(), MyError>) -> (r: Response)
    ensures
        r@ == health_reply(info@, ping_view(ping)),
{
    let mut failures: Vec<String> = Vec::new();
    let code: u16;
    let message: String;
    match &ping {
        Ok(()) => {
            code = OK;
            message = String::from_str("OK");
        },
        Err(e) => {
            code = SERVICE_UNAVAILABLE;
            message = String::from_str("FAILURES");
            failures.push(e.message());
        },
    }
    let h = Health {
        service: info.service.clone(),
        version: info.version.clone(),
        message,
        failures,
    };
    assert(h@.failures =~= (if ping is Ok { Seq::<Seq<char>>::empty() } else { seq![message_of(ping->Err_0@)] }));
    Response { code, body: Body::Health(h) }
}

/// Listing accounts needs no input.
pub fn get_accounts() -> (r: Action)
    ensures
        r@ == ActionView::Run(StatementView::ListAccounts),
{
    Action::Run(Statement::ListAccounts)
}

/// Listing transactions needs no input.
pub fn get_transactions() -> (r: Action)
    ensures
        r@ == ActionView::Run(StatementView::ListTransactions),
{
    Action::Run(Statement::ListTransactions)
}

/// An account lookup needs an `id`.
pub fn get_account_by_id(info: &ServiceInfo, params: &AccountParams) -> (r: Action)
    ensures
        params.id is None ==> r@ == ActionView::Reply(
            status_reply(info@, BAD_REQUEST, "No id supplied"@),
        ),
        params.id is Some ==> r@ == ActionView::Run(StatementView::AccountById(params.id->0)),
{
    match params.id {
        Some(id) => Action::Run(Statement::AccountById(id)),
        None => Action::Reply(
            status_response(info, BAD_REQUEST, String::from_str("No id supplied")),
        ),
    }
}

/// A transaction lookup needs an `id`.
pub fn get_transaction_by_id(info: &ServiceInfo, params: &TransactionParams) -> (r: Action)
    ensures
        params.id is None ==> r@ == ActionView::Reply(
            status_reply(info@, BAD_REQUEST, "No id supplied"@),
        ),
        params.id is Some ==> r@ == ActionView::Run(StatementView::TransactionById(params.id->0)),
{
    match params.id {
        Some(id) => Action::Run(Statement::TransactionById(id)),
        None => Action::Reply(
            status_response(info, BAD_REQUEST, String::from_str("No id supplied")),
        ),
    }
}

/// A new account needs an `email` and a `username` (checked in that order);
/// it starts with a zero balance, and any `id` or `balance` supplied is
/// ignored.
pub fn create_account(info: &ServiceInfo, params: AccountParams) -> (r: Action)
    ensures
        params.email is None ==> r@ == ActionView::Reply(
            status_reply(info@, BAD_REQUEST, "No email supplied"@),
        ),
        params.email is Some && params.username is None ==> r@ == ActionView::Reply(
            status_reply(info@, BAD_REQUEST, "No username supplied"@),
        ),
        params.email is Some && params.username is Some ==> r@ == ActionView::Run(
            StatementView::InsertAccount {
                username: params.username->0@,
                balance: 0,
                email: params.email->0@,
            },
        ),
{
    match (params.email, params.username) {
        (None, _) => Action::Reply(
            status_response(info, BAD_REQUEST, String::from_str("No email supplied")),
        ),
        (Some(_), None) => Action::Reply(
            status_response(info, BAD_REQUEST, String::from_str("No username supplied")),
        ),
        (Some(email), Some(username)) => Action::Run(
            Statement::InsertAccount { username, balance: 0, email },
        ),
    }
}

/// A new transaction needs `from_account`, `to_account` and `amount` (checked
/// in that order). Neither account is checked for existence, the amount is
/// not checked for sign, and no balance is changed.
pub fn create_transaction(info: &ServiceInfo, params: &TransactionParams) -> (r: Action)
    ensures
        params.from_account is None ==> r@ == ActionView::Reply(
            status_reply(info@, BAD_REQUEST, "No from account supplied"@),
        ),
        params.from_account is Some && params.to_account is None ==> r@ == ActionView::Reply(
            status_reply(info@, BAD_REQUEST, "No to account supplied"@),
        ),
        params.from_account is Some && params.to_account is Some && params.amount is None ==> r@
            == ActionView::Reply(status_reply(info@, BAD_REQUEST, "No amount supplied"@)),
        params.from_account is Some && params.to_account is Some && params.amount is Some ==> r@
            == ActionView::Run(
            StatementView::InsertTransaction {
                from_account: params.from_account->0,
                to_account: params.to_account->0,
                amount: params.amount->0,
            },
        ),
{
    match (params.from_account, params.to_account, params.amount) {
        (None, _, _) => Action::Reply(
            status_response(info, BAD_REQUEST, String::from_str("No from account supplied")),
        ),
        (Some(_), None, _) => Action::Reply(
            status_response(info, BAD_REQUEST, String::from_str("No to account supplied")),
        ),
        (Some(_), Some(_), None) => Action::Reply(
            status_response(info, BAD_REQUEST, String::from_str("No amount supplied")),
        ),
        (Some(from_account), Some(to_account), Some(amount)) => Action::Run(
            Statement::InsertTransaction { from_account, to_account, amount },
        ),
    }
}

/// Answers a listing of accounts from the outcome of its statement.
pub fn account_list_response(
    info: &ServiceInfo,
    outcome: Result<Vec<Result<Account, String>>, MyError>,
) -> (r: Response)
    ensures
        r@ == account_list_reply(info@, account_rows(outcome)),
{
    match outcome {
        Err(e) => error_response(info, &e),
        Ok(mapped) => {
            let ghost rows = mapped@;
            proof {
                lemma_first_failure_map_rows(rows, |a: Account| a@);
            }
            match collect_rows(mapped) {
                Ok(accounts) => {
                    assert(accounts@.map_values(|a: Account| a@) =~= entities(rows).map_values(
                        |a: Account| a@,
                    ));
                    Response { code: OK, body: Body::Accounts(accounts) }
                },
                Err(e) => error_response(info, &e),
            }
        },
    }
}

/// Answers an account lookup or creation from the outcome of its statement.
pub fn account_response(
    info: &ServiceInfo,
    outcome: Result<Vec<Result<Account, String>>, MyError>,
) -> (r: Response)
    ensures
        r@ == account_reply(info@, account_rows(outcome)),
{
    match outcome {
        Err(e) => error_response(info, &e),
        Ok(mapped) => {
            let ghost rows = mapped@;
            proof {
                lemma_first_failure_map_rows(rows, |a: Account| a@);
            }
            match collect_rows(mapped) {
                Ok(accounts) => {
                    proof {
                        if rows.len() > 0 {
                            let views = map_rows(rows, |a: Account| a@);
                            assert(entities(views)[views.len() - 1] == views.last()->Ok_0);
                        }
                    }
                    match single_row(accounts) {
                        Ok(account) => Response { code: OK, body: Body::Account(account) },
                        Err(e) => error_response(info, &e),
                    }
                },
                Err(e) => error_response(info, &e),
            }
        },
    }
}

/// Answers a listing of transactions from the outcome of its statement.
pub fn transaction_list_response(
    info: &ServiceInfo,
    outcome: Result<Vec<Result<Transaction, String>>, MyError>,
) -> (r: Response)
    ensures
        r@ == transaction_list_reply(info@, transaction_rows(outcome)),
{
    match outcome {
        Err(e) => error_response(info, &e),
        Ok(mapped) => {
            let ghost rows = mapped@;
            proof {
                lemma_first_failure_map_rows(rows, |t: Transaction| t);
            }
            match collect_rows(mapped) {
                Ok(txs) => {
                    assert(txs@ =~= entities(rows).map_values(|t: Transaction| t));
                    Response { code: OK, body: Body::Transactions(txs) }
                },
                Err(e) => error_response(info, &e),
            }
        },
    }
}

/// Answers a transaction lookup or creation from the outcome of its statement.
pub fn transaction_response(
    info: &ServiceInfo,
    outcome: Result<Vec<Result<Transaction, String>>, MyError>,
) -> (r: Response)
    ensures
        r@ == transaction_reply(info@, transaction_rows(outcome)),
{
    match outcome {
        Err(e) => error_response(info, &e),
        Ok(mapped) => {
            let ghost rows = mapped@;
            proof {
                lemma_first_failure_map_rows(rows, |t: Transaction| t);
            }
            match collect_rows(mapped) {
                Ok(txs) => {
                    proof {
                        if rows.len() > 0 {
                            let views = map_rows(rows, |t: Transaction| t);
                            assert(entities(views)[views.len() - 1] == views.last()->Ok_0);
                        }
                    }
                    match single_row(txs) {
                        Ok(tx) => Response { code: OK, body: Body::Transaction(tx) },
                        Err(e) => error_response(info, &e),
                    }
                },
                Err(e) => error_response(info, &e),
            }
        },
    }
}

/// Liveness never consults the store and readiness does: whatever keeps the
/// store out of reach, `status` succeeds while `health` reports the service
/// unavailable and names at least one failure.
pub proof fn lemma_status_without_store(info: ServiceInfoView, e: MyErrorView)
    ensures
        liveness_reply(info).code == OK,
        health_reply(info, Err(e)).code == SERVICE_UNAVAILABLE,
        health_reply(info, Err(e)).body is Health,
        health_reply(info, Err(e)).body->Health_0.failures.len() > 0,
{
}

} // verus!
