use vstd::prelude::*;

verus! {

/// A UTC instant: whole seconds since 1970-01-01T00:00:00Z and the
/// nanoseconds past that second.
#[derive(Clone, Copy, Debug, PartialEq, Eq, Structural)]
pub struct Timestamp {
    pub secs: i64,
    pub nanos: u32,
}

/// A stored account, as the store returned it.
#[derive(Clone, Debug, PartialEq, Eq)]
pub struct Account {
    pub id: i64,
    pub username: String,
    pub email: String,
    pub balance: i64,
    pub created_at: Timestamp,
}

pub struct AccountView {
    pub id: i64,
    pub username: Seq<char>,
    pub email: Seq<char>,
    pub balance: i64,
    pub created_at: Timestamp,
}

impl View for Account {
    type V = AccountView;

    open spec fn view(&self) -> AccountView {
        AccountView {
            id: self.id,
            username: self.username@,
            email: self.email@,
            balance: self.balance,
            created_at: self.created_at,
        }
    }
}

/// A stored transaction record. It is never changed once created.
#[derive(Clone, Copy, Debug, PartialEq, Eq, Structural)]
pub struct Transaction {
    pub id: i64,
    pub from_account: i64,
    pub to_account: i64,
    pub amount: i64,
    pub created_at: Timestamp,
}

/// Client-supplied fields of an account request; any of them may be absent.
#[derive(Clone, Debug, PartialEq, Eq)]
pub struct AccountParams {
    pub id: Option<i64>,
    pub username: Option<String>,
    pub email: Option<String>,
    pub balance: Option<i64>,
}

pub struct AccountParamsView {
    pub id: Option<i64>,
    pub username: Option<Seq<char>>,
    pub email: Option<Seq<char>>,
    pub balance: Option<i64>,
}

pub open spec fn opt_view(s: Option<String>) -> Option<Seq<char>> {
    match s {
        Some(v) => Some(v@),
        None => None,
    }
}

impl View for AccountParams {
    type V = AccountParamsView;

    open spec fn view(&self) -> AccountParamsView {
        AccountParamsView {
            id: self.id,
            username: opt_view(self.username),
            email: opt_view(self.email),
            balance: self.balance,
        }
    }
}

/// Client-supplied fields of a transaction request; any of them may be absent.
#[derive(Clone, Copy, Debug, PartialEq, Eq, Structural)]
pub struct TransactionParams {
    pub id: Option<i64>,
    pub from_account: Option<i64>,
    pub to_account: Option<i64>,
    pub amount: Option<i64>,
}

/// The default response body, also used to carry error messages.
#[derive(Clone, Debug, PartialEq, Eq)]
pub struct Status {
    pub service: String,
    pub version: String,
    pub message: String,
}

pub struct StatusView {
    pub service: Seq<char>,
    pub version: Seq<char>,
    pub message: Seq<char>,
}

impl View for Status {
    type V = StatusView;

    open spec fn view(&self) -> StatusView {
        StatusView { service: self.service@, version: self.version@, message: self.message@ }
    }
}

/// The body of a health report: `failures` names what went wrong, if anything.
#[derive(Clone, Debug, PartialEq, Eq)]
pub struct Health {
    pub service: String,
    pub version: String,
    pub message: String,
    pub failures: Vec<String>,
}

pub struct HealthView {
    pub service: Seq<char>,
    pub version: Seq<char>,
    pub message: Seq<char>,
    pub failures: Seq<Seq<char>>,
}

impl View for Health {
    type V = HealthView;

    open spec fn view(&self) -> HealthView {
        HealthView {
            service: self.service@,
            version: self.version@,
            message: self.message@,
            failures: self.failures@.map_values(|f: String| f@),
        }
    }
}

/// The name and version the service reports about itself.
#[derive(Clone, Debug, PartialEq, Eq)]
pub struct ServiceInfo {
    pub service: String,
    pub version: String,
}

pub struct ServiceInfoView {
    pub service: Seq<char>,
    pub version: Seq<char>,
}

impl View for ServiceInfo {
    type V = ServiceInfoView;

    open spec fn view(&self) -> ServiceInfoView {
        ServiceInfoView { service: self.service@, version: self.version@ }
    }
}

} // verus!
