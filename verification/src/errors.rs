//! The error taxonomy and the single place where a raw storage fault is
//! classified.
//!
//! Two layers exist. A [`ModelError`] is what an entity operation reports; an
//! [`AuthError`] is what an authorization guard reports and may wrap a
//! `ModelError` when the guard's own lookup failed. [`AppError`] is what a
//! dispatched request ends with. A storage fault is classified exactly once,
//! by [`ModelError::from`]; nothing above the store looks at it again.

use axum::http::StatusCode;
use vstd::pervasive::unreached;
use vstd::prelude::*;
use vstd::std_specs::convert::FromSpecImpl;

verus! {

pub type AppResult<T> = Result<T, AppError>;

#[verifier::external_type_specification]
#[verifier::external_body]
pub struct ExStorageError(sqlx::Error);

/// The distinctions among storage faults that the taxonomy depends on.
#[derive(Debug, Clone, Copy, PartialEq, Eq, Structural)]
pub enum FaultKind {
    /// A query that needed a row matched none.
    RowNotFound,
    /// The store rejected the statement: unique or primary key constraint.
    UniqueViolation,
    /// The store rejected the statement: foreign key constraint.
    ForeignKeyViolation,
    /// The store rejected the statement: not-null constraint.
    NotNullViolation,
    /// The store rejected the statement: check constraint.
    CheckViolation,
    /// Any other fault, reported by the store or arising on the way to it.
    Other,
}

impl FaultKind {
    /// Whether the fault is one of the four constraint violations.
    pub open spec fn is_constraint_violation(self) -> bool {
        self is UniqueViolation || self is ForeignKeyViolation || self is NotNullViolation
            || self is CheckViolation
    }
}

/// The kind of a storage fault: which variant the error is and, for an error
/// returned by the database, which kind the driver assigns to it.
pub uninterp spec fn fault_kind(err: sqlx::Error) -> FaultKind;

/// Reads the variant of a `sqlx::Error` and, for `sqlx::Error::Database`, the
/// result of `sqlx::error::DatabaseError::kind`. Trusted: the result is the
/// error's [`fault_kind`]; every variant and kind not listed is `Other`.
#[verifier::external_body]
fn classify(err: &sqlx::Error) -> (kind: FaultKind)
    ensures
        kind == fault_kind(*err),
{
    match err {
        sqlx::Error::RowNotFound => FaultKind::RowNotFound,
        sqlx::Error::Database(e) => match e.kind() {
            sqlx::error::ErrorKind::UniqueViolation => FaultKind::UniqueViolation,
            sqlx::error::ErrorKind::ForeignKeyViolation => FaultKind::ForeignKeyViolation,
            sqlx::error::ErrorKind::NotNullViolation => FaultKind::NotNullViolation,
            sqlx::error::ErrorKind::CheckViolation => FaultKind::CheckViolation,
            _ => FaultKind::Other,
        },
        _ => FaultKind::Other,
    }
}

/// Failure of an operation on an entity.
#[derive(Debug)]
pub enum ModelError {
    /// No row matched.
    NotFound,
    /// A uniqueness, foreign-key, not-null or check constraint was violated.
    Conflict,
    /// Any other storage fault; the fault is kept as the store reported it.
    DB(sqlx::Error),
    /// Misuse that the program itself can detect.
    Internal(String),
}

/// Failure of an authorization guard.
#[derive(Debug)]
pub enum AuthError {
    /// No identity was supplied.
    Unauthenticated,
    /// An identity was supplied and the guard denied it.
    Unauthorized,
    /// The guard could not decide because its own lookup failed.
    Model(ModelError),
}

/// Failure of a dispatched request.
#[derive(Debug)]
pub enum AppError {
    Model(ModelError),
    NotFound,
    Auth(AuthError),
    Login,
    Internal(String),
    BadRequest(String),
}

/// The domain error that a storage fault of the given kind becomes.
pub open spec fn model_error_of(kind: FaultKind, err: sqlx::Error) -> ModelError {
    if kind is RowNotFound {
        ModelError::NotFound
    } else if kind.is_constraint_violation() {
        ModelError::Conflict
    } else {
        ModelError::DB(err)
    }
}

impl ModelError {
    /// Maps a storage fault, already classified as `kind`, to a domain error:
    /// "no matching row" is `NotFound`, a constraint violation is `Conflict`,
    /// and everything else is `DB` carrying the fault itself.
    pub fn from_fault(kind: FaultKind, err: sqlx::Error) -> (r: ModelError)
        ensures
            r == model_error_of(kind, err),
    {
        match kind {
            FaultKind::RowNotFound => ModelError::NotFound,
            FaultKind::UniqueViolation
            | FaultKind::ForeignKeyViolation
            | FaultKind::NotNullViolation
            | FaultKind::CheckViolation => ModelError::Conflict,
            FaultKind::Other => ModelError::DB(err),
        }
    }
}

impl From<sqlx::Error> for ModelError {
    /// Classifies a storage fault. This is the only place where a raw fault
    /// is interpreted.
    fn from(err: sqlx::Error) -> (r: ModelError) {
        let kind = classify(&err);
        ModelError::from_fault(kind, err)
    }
}

impl FromSpecImpl<sqlx::Error> for ModelError {
    open spec fn obeys_from_spec() -> bool {
        true
    }

    open spec fn from_spec(err: sqlx::Error) -> ModelError {
        model_error_of(fault_kind(err), err)
    }
}

impl From<ModelError> for AuthError {
    fn from(err: ModelError) -> (r: AuthError) {
        AuthError::Model(err)
    }
}

impl FromSpecImpl<ModelError> for AuthError {
    open spec fn obeys_from_spec() -> bool {
        true
    }

    open spec fn from_spec(err: ModelError) -> AuthError {
        AuthError::Model(err)
    }
}

impl From<ModelError> for AppError {
    fn from(err: ModelError) -> (r: AppError) {
        AppError::Model(err)
    }
}

impl FromSpecImpl<ModelError> for AppError {
    open spec fn obeys_from_spec() -> bool {
        true
    }

    open spec fn from_spec(err: ModelError) -> AppError {
        AppError::Model(err)
    }
}

impl From<AuthError> for AppError {
    fn from(err: AuthError) -> (r: AppError) {
        AppError::Auth(err)
    }
}

impl FromSpecImpl<AuthError> for AppError {
    open spec fn obeys_from_spec() -> bool {
        true
    }

    open spec fn from_spec(err: AuthError) -> AppError {
        AppError::Auth(err)
    }
}

impl From<sqlx::Error> for AppError {
    fn from(err: sqlx::Error) -> (r: AppError) {
        AppError::Model(ModelError::from(err))
    }
}

impl FromSpecImpl<sqlx::Error> for AppError {
    open spec fn obeys_from_spec() -> bool {
        true
    }

    open spec fn from_spec(err: sqlx::Error) -> AppError {
        AppError::Model(model_error_of(fault_kind(err), err))
    }
}

/// The class of transport status that a failed request is answered with.
#[derive(Debug, Clone, Copy, PartialEq, Eq, Structural)]
pub enum StatusClass {
    /// The resource does not exist.
    NotFound,
    /// The caller has to log in first.
    Unauthenticated,
    /// The caller is known and is not allowed.
    Forbidden,
    /// Something failed on this side; no detail is given to the caller.
    InternalServerError,
    /// The request itself was malformed.
    BadRequest,
    /// No status has been assigned yet; a placeholder is sent.
    Unassigned,
}

impl StatusClass {
    /// The numeric status of the class.
    pub open spec fn spec_code(self) -> u16 {
        match self {
            StatusClass::NotFound => 404,
            StatusClass::Unauthenticated => 401,
            StatusClass::Forbidden => 403,
            StatusClass::InternalServerError => 500,
            StatusClass::BadRequest => 400,
            StatusClass::Unassigned => 418,
        }
    }

    /// The numeric status of the class.
    pub fn code(self) -> (c: u16)
        ensures
            c == self.spec_code(),
    {
        match self {
            StatusClass::NotFound => 404,
            StatusClass::Unauthenticated => 401,
            StatusClass::Forbidden => 403,
            StatusClass::InternalServerError => 500,
            StatusClass::BadRequest => 400,
            StatusClass::Unassigned => 418,
        }
    }
}

#[verifier::external_type_specification]
#[verifier::external_body]
pub struct ExStatusCode(StatusCode);

/// The number of a status code.
pub uninterp spec fn status_number(status: StatusCode) -> u16;

/// Calls `http::StatusCode::from_u16`. Trusted: the call succeeds exactly on
/// the numbers from 100 to 999, and the status code then has that number.
#[verifier::external_body]
fn status_from_number(number: u16) -> (r: Option<StatusCode>)
    ensures
        r is Some <==> 100 <= number <= 999,
        r matches Some(status) ==> status_number(status) == number,
{
    StatusCode::from_u16(number).ok()
}

impl StatusClass {
    /// The status code of the class.
    pub fn status_code(self) -> (r: StatusCode)
        ensures
            status_number(r) == self.spec_code(),
    {
        match status_from_number(self.code()) {
            Some(status) => status,
            None => unreached(),
        }
    }
}

/// What a failed request is answered with.
pub struct ErrorResponse {
    pub status: StatusCode,
    pub body: &'static str,
}

impl AppError {
    /// The status class of each failure. A missing resource is `NotFound`
    /// whether the pipeline or the store noticed it; a storage fault, an
    /// internal error and a guard whose own lookup failed are all
    /// `InternalServerError`; a conflict has no status of its own yet.
    pub open spec fn status_class(self) -> StatusClass {
        match self {
            AppError::NotFound => StatusClass::NotFound,
            AppError::Model(ModelError::NotFound) => StatusClass::NotFound,
            AppError::Model(ModelError::Conflict) => StatusClass::Unassigned,
            AppError::Model(ModelError::DB(_)) => StatusClass::InternalServerError,
            AppError::Model(ModelError::Internal(_)) => StatusClass::InternalServerError,
            AppError::Auth(AuthError::Unauthenticated) => StatusClass::Unauthenticated,
            AppError::Auth(AuthError::Unauthorized) => StatusClass::Forbidden,
            AppError::Auth(AuthError::Model(_)) => StatusClass::InternalServerError,
            AppError::Login => StatusClass::InternalServerError,
            AppError::Internal(_) => StatusClass::InternalServerError,
            AppError::BadRequest(_) => StatusClass::BadRequest,
        }
    }

    /// The text sent to the caller. It never carries the detail of an internal
    /// failure: every `InternalServerError` but a failed login has the same text.
    pub open spec fn body_text(self) -> Seq<char> {
        match self.status_class() {
            StatusClass::NotFound => "Not found"@,
            StatusClass::Unauthenticated => "You need to log in to access this resource"@,
            StatusClass::Forbidden => "You are not authorized to access this resource"@,
            StatusClass::InternalServerError => if self is Login {
                "Login failed"@
            } else {
                "Something went wrong"@
            },
            StatusClass::BadRequest => "Bad request"@,
            StatusClass::Unassigned => "TODO handler not implemented"@,
        }
    }

    /// The status class that this failure is answered with.
    pub fn status(&self) -> (s: StatusClass)
        ensures
            s == self.status_class(),
    {
        match self {
            AppError::NotFound | AppError::Model(ModelError::NotFound) => StatusClass::NotFound,
            AppError::Auth(AuthError::Unauthenticated) => StatusClass::Unauthenticated,
            AppError::Auth(AuthError::Unauthorized) => StatusClass::Forbidden,
            AppError::Internal(_)
            | AppError::Model(ModelError::Internal(_))
            | AppError::Model(ModelError::DB(_))
            | AppError::Auth(AuthError::Model(_)) => StatusClass::InternalServerError,
            AppError::Login => StatusClass::InternalServerError,
            AppError::Model(ModelError::Conflict) => StatusClass::Unassigned,
            AppError::BadRequest(_) => StatusClass::BadRequest,
        }
    }

    /// The answer to a request that failed in this way: the status of the
    /// failure's class and the text for the caller.
    pub fn into_response(self) -> (r: ErrorResponse)
        ensures
            status_number(r.status) == self.status_class().spec_code(),
            r.body@ == self.body_text(),
    {
        let class = self.status();
        let body = match class {
            StatusClass::NotFound => "Not found",
            StatusClass::Unauthenticated => "You need to log in to access this resource",
            StatusClass::Forbidden => "You are not authorized to access this resource",
            StatusClass::InternalServerError => match self {
                AppError::Login => "Login failed",
                _ => "Something went wrong",
            },
            StatusClass::BadRequest => "Bad request",
            StatusClass::Unassigned => "TODO handler not implemented",
        };
        ErrorResponse { status: class.status_code(), body }
    }
}

/// A fault classified as a constraint violation surfaces as `Conflict`, at
/// the entity level and at the request level, and never as a `DB` failure.
pub proof fn lemma_constraint_violation_is_conflict(err: sqlx::Error)
    requires
        fault_kind(err).is_constraint_violation(),
    ensures
        <ModelError as vstd::std_specs::convert::FromSpec<sqlx::Error>>::from_spec(err)
            == ModelError::Conflict,
        <AppError as vstd::std_specs::convert::FromSpec<sqlx::Error>>::from_spec(err)
            == AppError::Model(ModelError::Conflict),
{
}

/// The classification is total and keeps the three outcomes apart: a fault
/// becomes `NotFound` exactly when it is "no matching row", `Conflict`
/// exactly when it is a constraint violation, and `DB` with the fault itself
/// in every other case.
pub proof fn lemma_classification(kind: FaultKind, err: sqlx::Error)
    ensures
        model_error_of(kind, err) is NotFound <==> kind is RowNotFound,
        model_error_of(kind, err) is Conflict <==> kind.is_constraint_violation(),
        model_error_of(kind, err) is DB <==> kind is Other,
        kind is Other ==> model_error_of(kind, err) == ModelError::DB(err),
        !(model_error_of(kind, err) is Internal),
{
}

} // verus!
