use vstd::prelude::*;

verus! {

/// The error kinds raised by the expression core.
#[derive(Debug)]
pub enum FuseQueryError {
    /// An invariant violation, an unsupported type/operator combination or an
    /// uninitialised result cache.
    Internal(String),
    /// A node was created with the wrong number of children.
    Arity(String),
    /// A type check failed while planning.
    Type(String),
}

/// What an error says: its kind and its message.
pub enum ErrorModel {
    Internal(Seq<char>),
    Arity(Seq<char>),
    Type(Seq<char>),
}

impl View for FuseQueryError {
    type V = ErrorModel;

    open spec fn view(&self) -> ErrorModel {
        match self {
            FuseQueryError::Internal(m) => ErrorModel::Internal(m@),
            FuseQueryError::Arity(m) => ErrorModel::Arity(m@),
            FuseQueryError::Type(m) => ErrorModel::Type(m@),
        }
    }
}

impl FuseQueryError {
    /// The message carried by the error.
    pub fn message(&self) -> (r: &String)
        ensures
            r@ == match self@ {
                ErrorModel::Internal(m) => m,
                ErrorModel::Arity(m) => m,
                ErrorModel::Type(m) => m,
            },
    {
        match self {
            FuseQueryError::Internal(m) => m,
            FuseQueryError::Arity(m) => m,
            FuseQueryError::Type(m) => m,
        }
    }
}

pub type FuseQueryResult<T> = Result<T, FuseQueryError>;

} // verus!
