use psql_ledger::db::Statement;
use psql_ledger::errors::MyError;
use psql_ledger::handlers::{
    account_list_response, account_response, create_account, create_transaction, get_account_by_id,
    get_accounts, get_transaction_by_id, get_transactions, health, status, transaction_list_response,
    transaction_response, Action, Body, Response,
};
use psql_ledger::model::{
    Account, AccountParams, Health, ServiceInfo, Status, Timestamp, Transaction, TransactionParams,
};

fn info() -> ServiceInfo {
    ServiceInfo { service: "psql_ledger".to_string(), version: "0.1.0-abc".to_string() }
}

fn status_body(code: u16, message: &str) -> Response {
    Response {
        code,
        body: Body::Status(Status {
            service: "psql_ledger".to_string(),
            version: "0.1.0-abc".to_string(),
            message: message.to_string(),
        }),
    }
}

fn ts() -> Timestamp {
    Timestamp { secs: 1_700_000_000, nanos: 0 }
}

fn account(id: i64, name: &str) -> Account {
    Account {
        id,
        username: name.to_string(),
        email: format!("{}@x.com", name),
        balance: 0,
        created_at: ts(),
    }
}

fn tx(id: i64) -> Transaction {
    Transaction { id, from_account: 1, to_account: 2, amount: 50, created_at: ts() }
}

fn account_params(username: Option<&str>, email: Option<&str>) -> AccountParams {
    AccountParams {
        id: Some(99),
        username: username.map(|s| s.to_string()),
        email: email.map(|s| s.to_string()),
        balance: Some(1000),
    }
}

#[test]
fn create_account_alice_is_stored_with_zero_balance() {
    let action = create_account(&info(), account_params(Some("alice"), Some("a@x.com")));
    assert_eq!(
        action,
        Action::Run(Statement::InsertAccount {
            username: "alice".to_string(),
            balance: 0,
            email: "a@x.com".to_string(),
        })
    );
    let stored = Account {
        id: 17,
        username: "alice".to_string(),
        email: "a@x.com".to_string(),
        balance: 0,
        created_at: ts(),
    };
    let r = account_response(&info(), Ok(vec![Ok(stored.clone())]));
    assert_eq!(r, Response { code: 200, body: Body::Account(stored) });
}

#[test]
fn create_account_missing_email_is_bad_request() {
    let action = create_account(&info(), account_params(Some("alice"), None));
    assert_eq!(action, Action::Reply(status_body(400, "No email supplied")));
}

#[test]
fn create_account_missing_both_names_email_first() {
    let action = create_account(&info(), account_params(None, None));
    assert_eq!(action, Action::Reply(status_body(400, "No email supplied")));
}

#[test]
fn create_account_missing_username_is_bad_request() {
    let action = create_account(&info(), account_params(None, Some("a@x.com")));
    assert_eq!(action, Action::Reply(status_body(400, "No username supplied")));
}

#[test]
fn lookup_of_absent_account_is_not_found() {
    let action = get_account_by_id(&info(), &account_params(None, None));
    assert_eq!(action, Action::Run(Statement::AccountById(99)));
    let r = account_response(&info(), Ok(vec![]));
    assert_eq!(r, status_body(404, "NotFound"));
}

#[test]
fn lookup_without_id_is_bad_request() {
    let params = AccountParams { id: None, username: None, email: None, balance: None };
    assert_eq!(
        get_account_by_id(&info(), &params),
        Action::Reply(status_body(400, "No id supplied"))
    );
    let tparams = TransactionParams { id: None, from_account: None, to_account: None, amount: None };
    assert_eq!(
        get_transaction_by_id(&info(), &tparams),
        Action::Reply(status_body(400, "No id supplied"))
    );
}

#[test]
fn lookup_of_transaction_runs_by_id() {
    let tparams = TransactionParams { id: Some(5), from_account: None, to_account: None, amount: None };
    assert_eq!(get_transaction_by_id(&info(), &tparams), Action::Run(Statement::TransactionById(5)));
    assert_eq!(
        transaction_response(&info(), Ok(vec![Ok(tx(5))])),
        Response { code: 200, body: Body::Transaction(tx(5)) }
    );
    assert_eq!(transaction_response(&info(), Ok(vec![])), status_body(404, "NotFound"));
}

#[test]
fn health_with_store_disconnected_is_unavailable() {
    let r = health(&info(), Err(MyError::PoolExhausted("connection refused".to_string())));
    assert_eq!(r.code, 503);
    match r.body {
        Body::Health(h) => {
            assert!(!h.failures.is_empty());
            assert_eq!(h.failures, vec!["connection refused".to_string()]);
            assert_eq!(h.message, "FAILURES");
        }
        other => panic!("unexpected body {:?}", other),
    }
}

#[test]
fn health_when_ping_fails_is_unavailable() {
    let r = health(&info(), Err(MyError::StoreError("timeout".to_string())));
    assert_eq!(r.code, 503);
}

#[test]
fn health_with_store_up_is_ok() {
    let r = health(&info(), Ok(()));
    assert_eq!(
        r,
        Response {
            code: 200,
            body: Body::Health(Health {
                service: "psql_ledger".to_string(),
                version: "0.1.0-abc".to_string(),
                message: "OK".to_string(),
                failures: vec![],
            }),
        }
    );
}

#[test]
fn status_succeeds_while_health_fails() {
    assert_eq!(status(&info()), status_body(200, "OK"));
    let h = health(&info(), Err(MyError::PoolExhausted("no connection".to_string())));
    assert_eq!(h.code, 503);
}

#[test]
fn create_transaction_checks_fields_in_order() {
    let p = |f: Option<i64>, t: Option<i64>, a: Option<i64>| TransactionParams {
        id: Some(3),
        from_account: f,
        to_account: t,
        amount: a,
    };
    assert_eq!(
        create_transaction(&info(), &p(None, None, None)),
        Action::Reply(status_body(400, "No from account supplied"))
    );
    assert_eq!(
        create_transaction(&info(), &p(Some(1), None, None)),
        Action::Reply(status_body(400, "No to account supplied"))
    );
    assert_eq!(
        create_transaction(&info(), &p(Some(1), Some(2), None)),
        Action::Reply(status_body(400, "No amount supplied"))
    );
    assert_eq!(
        create_transaction(&info(), &p(Some(1), Some(2), Some(-40))),
        Action::Run(Statement::InsertTransaction { from_account: 1, to_account: 2, amount: -40 })
    );
}

#[test]
fn create_transaction_only_writes_transactions() {
    let p = TransactionParams { id: None, from_account: Some(1), to_account: Some(2), amount: Some(10) };
    match create_transaction(&info(), &p) {
        Action::Run(stmt) => {
            let sql = stmt.sql();
            assert!(sql.starts_with("INSERT INTO transactions"));
            assert!(!sql.contains("accounts"));
        }
        other => panic!("unexpected action {:?}", other),
    }
}

#[test]
fn listings_run_their_statements() {
    assert_eq!(get_accounts(), Action::Run(Statement::ListAccounts));
    assert_eq!(get_transactions(), Action::Run(Statement::ListTransactions));
}

#[test]
fn account_listing_returns_every_row_in_order() {
    let r = account_list_response(&info(), Ok(vec![Ok(account(1, "a")), Ok(account(2, "b"))]));
    assert_eq!(r, Response { code: 200, body: Body::Accounts(vec![account(1, "a"), account(2, "b")]) });
    let empty = account_list_response(&info(), Ok(vec![]));
    assert_eq!(empty, Response { code: 200, body: Body::Accounts(vec![]) });
}

#[test]
fn account_listing_reports_first_bad_row() {
    let r = account_list_response(
        &info(),
        Ok(vec![Ok(account(1, "a")), Err("bad id".to_string()), Err("bad email".to_string())]),
    );
    assert_eq!(r, status_body(500, "bad id"));
}

#[test]
fn transaction_listing_and_errors() {
    let r = transaction_list_response(&info(), Ok(vec![Ok(tx(1)), Ok(tx(2))]));
    assert_eq!(r, Response { code: 200, body: Body::Transactions(vec![tx(1), tx(2)]) });
    let e = transaction_list_response(&info(), Err(MyError::StoreError("syntax error".to_string())));
    assert_eq!(e, status_body(500, "syntax error"));
    let p = transaction_list_response(&info(), Err(MyError::PoolExhausted("timed out".to_string())));
    assert_eq!(p, status_body(503, "timed out"));
}

#[test]
fn account_error_kinds_pick_the_code() {
    assert_eq!(account_response(&info(), Err(MyError::NotFound)), status_body(404, "NotFound"));
    assert_eq!(
        account_response(&info(), Err(MyError::PoolExhausted("pool".to_string()))),
        status_body(503, "pool")
    );
    assert_eq!(
        account_response(&info(), Err(MyError::StoreError("store".to_string()))),
        status_body(500, "store")
    );
    assert_eq!(
        account_response(&info(), Ok(vec![Err("no column created_at".to_string())])),
        status_body(500, "no column created_at")
    );
}
