use vstd::prelude::*;

verus! {

/// The kind of a failure that the database itself reported.
#[derive(Clone, Copy, Debug, PartialEq, Eq, Structural)]
pub enum DbErrorKind {
    /// A row would have broken a unique constraint.
    UniqueViolation,
    /// A query that asks for one row found none.
    NotFound,
    /// Any other failure of the database.
    Other,
}

/// A failure reported by the database: its kind and its description.
#[derive(Debug)]
pub struct DbError {
    pub kind: DbErrorKind,
    pub detail: String,
}

/// The errors that the blog's operations answer with.
#[derive(Debug)]
pub enum AppError {
    RecordAlreadyExists,
    RecordNotFound,
    DatabaseError(DbError),
    OperationCanceled,
}

/// Why an operation on the blog's tables was refused, in specifications.
pub enum Failure {
    /// The username is taken already.
    AlreadyExists,
    /// No row has the key that was asked for.
    NotFound,
    /// The next row id would not fit in the 32-bit ids of the tables.
    IdOverflow,
}

/// The description carried by the error that refuses an insert whose id would overflow.
pub open spec fn id_overflow_detail() -> Seq<char> {
    "row id out of the range of a 32-bit integer"@
}

/// The HTTP status code that answers each error.
pub open spec fn status_of(e: AppError) -> u16 {
    match e {
        AppError::RecordAlreadyExists => 400,
        AppError::RecordNotFound => 404,
        _ => 500,
    }
}

/// The text that describes each error.
pub open spec fn message_of(e: AppError) -> Seq<char> {
    match e {
        AppError::RecordAlreadyExists => "This record violates a unique constraint"@,
        AppError::RecordNotFound => "This record does not exist"@,
        AppError::DatabaseError(d) => "Database error: "@ + d.detail@,
        AppError::OperationCanceled => "The running operation was canceled"@,
    }
}

impl AppError {
    /// This error is the one that answers the refusal `f`.
    pub open spec fn reports(&self, f: Failure) -> bool {
        match f {
            Failure::AlreadyExists => *self is RecordAlreadyExists,
            Failure::NotFound => *self is RecordNotFound,
            Failure::IdOverflow => match *self {
                AppError::DatabaseError(d) => d.kind == DbErrorKind::Other && d.detail@
                    == id_overflow_detail(),
                _ => false,
            },
        }
    }

    /// The error for a failure of the database: a broken unique constraint is
    /// `RecordAlreadyExists`, a missing row is `RecordNotFound`, anything else is
    /// kept as a `DatabaseError`.
    pub fn from_db_error(e: DbError) -> (r: AppError)
        ensures
            e.kind == DbErrorKind::UniqueViolation ==> r is RecordAlreadyExists,
            e.kind == DbErrorKind::NotFound ==> r is RecordNotFound,
            e.kind == DbErrorKind::Other ==> r == AppError::DatabaseError(e),
    {
        match e.kind {
            DbErrorKind::UniqueViolation => AppError::RecordAlreadyExists,
            DbErrorKind::NotFound => AppError::RecordNotFound,
            DbErrorKind::Other => AppError::DatabaseError(e),
        }
    }

    /// The error for a blocking operation that was canceled.
    pub fn canceled() -> (r: AppError)
        ensures
            r is OperationCanceled,
    {
        AppError::OperationCanceled
    }

    /// The error that refuses an insert whose row id would not fit in 32 bits.
    pub fn id_overflow() -> (r: AppError)
        ensures
            r.reports(Failure::IdOverflow),
    {
        AppError::DatabaseError(
            DbError {
                kind: DbErrorKind::Other,
                detail: String::from_str("row id out of the range of a 32-bit integer"),
            },
        )
    }

    /// The text that describes this error.
    pub fn message(&self) -> (m: String)
        ensures
            m@ == message_of(*self),
    {
        match self {
            AppError::RecordAlreadyExists => String::from_str(
                "This record violates a unique constraint",
            ),
            AppError::RecordNotFound => String::from_str("This record does not exist"),
            AppError::DatabaseError(d) => {
                let mut m = String::from_str("Database error: ");
                m.append(d.detail.as_str());
                m
            },
            AppError::OperationCanceled => String::from_str("The running operation was canceled"),
        }
    }

    /// The HTTP status code of the response that answers this error:
    /// 400 for `RecordAlreadyExists`, 404 for `RecordNotFound`, 500 otherwise.
    pub fn status_code(&self) -> (s: u16)
        ensures
            s == status_of(*self),
    {
        match self {
            AppError::RecordAlreadyExists => 400,
            AppError::RecordNotFound => 404,
            _ => 500,
        }
    }
}

} // verus!
