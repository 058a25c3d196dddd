use vstd::prelude::*;

use crate::model::{AccountParams, TransactionParams};

verus! {

/// The address of an endpoint of a service listening at `server_addr`
/// (`<ip>:<port>`); `path` starts with `/`.
pub fn request_url(server_addr: &str, path: &str) -> (r: String)
    ensures
        r@ == "http://"@ + server_addr@ + path@,
{
    let mut url = String::from_str("http://");
    url.append(server_addr);
    url.append(path);
    url
}

/// An account-creation request as a client sends it: only the fields a caller
/// may write, `username` and `email`.
pub fn account_request(params: AccountParams) -> (r: AccountParams)
    ensures
        r.id is None,
        r.balance is None,
        r.username == params.username,
        r.email == params.email,
{
    AccountParams { id: None, username: params.username, email: params.email, balance: None }
}

/// A transaction-creation request as a client sends it: everything but `id`.
pub fn transaction_request(params: TransactionParams) -> (r: TransactionParams)
    ensures
        r == (TransactionParams {
            id: None,
            from_account: params.from_account,
            to_account: params.to_account,
            amount: params.amount,
        }),
{
    TransactionParams {
        id: None,
        from_account: params.from_account,
        to_account: params.to_account,
        amount: params.amount,
    }
}

} // verus!
