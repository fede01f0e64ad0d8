//! The errors that a request can end in.

use vstd::prelude::*;

verus! {

/// Why a request was turned down.
#[derive(Debug, PartialEq, Eq)]
pub enum ApiError {
    /// The row that the request names does not exist.
    NotFound,
    /// The repository state forbids the request: message, expected state,
    /// actual state.
    WrongRepoState(String, String, String),
    /// The publication state forbids the request: message, expected state,
    /// actual state.
    WrongPublishedState(String, String, String),
    /// The build is in no condition for the request.
    BadRequest(String),
    /// The store itself failed; the text is the store's own.
    StoreFault(String),
}

/// `ApiError` with its texts as sequences of characters.
pub enum ApiErrorView {
    NotFound,
    WrongRepoState(Seq<char>, Seq<char>, Seq<char>),
    WrongPublishedState(Seq<char>, Seq<char>, Seq<char>),
    BadRequest(Seq<char>),
    StoreFault(Seq<char>),
}

impl View for ApiError {
    type V = ApiErrorView;

    open spec fn view(&self) -> ApiErrorView {
        match self {
            ApiError::NotFound => ApiErrorView::NotFound,
            ApiError::WrongRepoState(m, e, a) => ApiErrorView::WrongRepoState(m@, e@, a@),
            ApiError::WrongPublishedState(m, e, a) => ApiErrorView::WrongPublishedState(
                m@,
                e@,
                a@,
            ),
            ApiError::BadRequest(m) => ApiErrorView::BadRequest(m@),
            ApiError::StoreFault(m) => ApiErrorView::StoreFault(m@),
        }
    }
}

impl Clone for ApiError {
    fn clone(&self) -> (copy: Self)
        ensures
            copy@ == self@,
    {
        match self {
            ApiError::NotFound => ApiError::NotFound,
            ApiError::WrongRepoState(m, e, a) => ApiError::WrongRepoState(
                m.clone(),
                e.clone(),
                a.clone(),
            ),
            ApiError::WrongPublishedState(m, e, a) => ApiError::WrongPublishedState(
                m.clone(),
                e.clone(),
                a.clone(),
            ),
            ApiError::BadRequest(m) => ApiError::BadRequest(m.clone()),
            ApiError::StoreFault(m) => ApiError::StoreFault(m.clone()),
        }
    }
}

/// A result with everything in it as sequences of characters.
pub open spec fn result_view<T: DeepView>(result: Result<T, ApiError>) -> Result<
    T::V,
    ApiErrorView,
> {
    match result {
        Ok(value) => Ok(value.deep_view()),
        Err(e) => Err(e@),
    }
}

/// What a store reports when a statement fails.
#[derive(Debug, PartialEq, Eq)]
pub enum StoreError {
    /// A statement that must yield one row yielded none.
    NotFound,
    /// Anything else, in the store's own words.
    Fault(String),
}

impl From<StoreError> for ApiError {
    /// A missing row is reported as such; every other failure of the store
    /// is handed on with its text untouched.
    fn from(e: StoreError) -> (err: ApiError) {
        match e {
            StoreError::NotFound => ApiError::NotFound,
            StoreError::Fault(text) => ApiError::StoreFault(text),
        }
    }
}

impl vstd::std_specs::convert::FromSpecImpl<StoreError> for ApiError {
    open spec fn obeys_from_spec() -> bool {
        true
    }

    open spec fn from_spec(e: StoreError) -> ApiError {
        match e {
            StoreError::NotFound => ApiError::NotFound,
            StoreError::Fault(text) => ApiError::StoreFault(text),
        }
    }
}

} // verus!
