use vstd::prelude::*;

verus! {

pub const OK: u16 = 200;
pub const BAD_REQUEST: u16 = 400;
pub const NOT_FOUND: u16 = 404;
pub const INTERNAL_SERVER_ERROR: u16 = 500;
pub const SERVICE_UNAVAILABLE: u16 = 503;

/// The ways a data-access operation can fail.
#[derive(Clone, Debug, PartialEq, Eq)]
pub enum MyError {
    /// A lookup by identifier matched no row.
    NotFound,
    /// The store rejected or failed the statement.
    StoreError(String),
    /// No connection could be drawn from the pool.
    PoolExhausted(String),
    /// A returned row did not have the shape of the entity.
    MappingError(String),
}

pub enum MyErrorView {
    NotFound,
    StoreError(Seq<char>),
    PoolExhausted(Seq<char>),
    MappingError(Seq<char>),
}

impl View for MyError {
    type V = MyErrorView;

    open spec fn view(&self) -> MyErrorView {
        match self {
            MyError::NotFound => MyErrorView::NotFound,
            MyError::StoreError(m) => MyErrorView::StoreError(m@),
            MyError::PoolExhausted(m) => MyErrorView::PoolExhausted(m@),
            MyError::MappingError(m) => MyErrorView::MappingError(m@),
        }
    }
}

/// The HTTP status that answers an error: it depends on the kind alone.
pub open spec fn status_code_of(e: MyErrorView) -> u16 {
    match e {
        MyErrorView::NotFound => NOT_FOUND,
        MyErrorView::PoolExhausted(_) => SERVICE_UNAVAILABLE,
        MyErrorView::StoreError(_) => INTERNAL_SERVER_ERROR,
        MyErrorView::MappingError(_) => INTERNAL_SERVER_ERROR,
    }
}

/// The text an error shows: the kind's name for a missing row, otherwise the
/// reason given by the store or the pool.
pub open spec fn message_of(e: MyErrorView) -> Seq<char> {
    match e {
        MyErrorView::NotFound => "NotFound"@,
        MyErrorView::StoreError(m) => m,
        MyErrorView::PoolExhausted(m) => m,
        MyErrorView::MappingError(m) => m,
    }
}

impl MyError {
    pub fn status_code(&self) -> (r: u16)
        ensures
            r == status_code_of(self@),
    {
        match self {
            MyError::NotFound => NOT_FOUND,
            MyError::PoolExhausted(_) => SERVICE_UNAVAILABLE,
            MyError::StoreError(_) => INTERNAL_SERVER_ERROR,
            MyError::MappingError(_) => INTERNAL_SERVER_ERROR,
        }
    }

    pub fn message(&self) -> (r: String)
        ensures
            r@ == message_of(self@),
    {
        match self {
            MyError::NotFound => String::from_str("NotFound"),
            MyError::StoreError(m) => m.clone(),
            MyError::PoolExhausted(m) => m.clone(),
            MyError::MappingError(m) => m.clone(),
        }
    }
}

} // verus!
