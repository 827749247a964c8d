//! Errors that the repository layer reports.
use vstd::prelude::*;
use vstd::string::*;

verus! {

/// An error of the repository layer. Every field is plain text.
#[derive(Debug, Clone)]
pub enum RepositoryError {
    NotFound { entity_type: String, id: String },
    Validation { field: String, message: String },
    ValidationError { field: String, message: String },
    Conflict { message: String },
    Unauthorized { reason: String },
    Forbidden { reason: String },
    AccessDenied { reason: String },
    InvalidOperation { reason: String },
    DatabaseError { message: String, operation: String },
    SerializationError { message: String },
}

/// The text of an error.
pub open spec fn error_text(e: RepositoryError) -> Seq<char> {
    match e {
        RepositoryError::NotFound { entity_type, id } => entity_type@ + " not found: "@ + id@,
        RepositoryError::Validation { field, message } => "Validation error on "@ + field@ + ": "@ + message@,
        RepositoryError::ValidationError { field, message } => "Validation error on "@ + field@ + ": "@ + message@,
        RepositoryError::Conflict { message } => "Conflict: "@ + message@,
        RepositoryError::Unauthorized { reason } => "Unauthorized: "@ + reason@,
        RepositoryError::Forbidden { reason } => "Forbidden: "@ + reason@,
        RepositoryError::AccessDenied { reason } => "Access denied: "@ + reason@,
        RepositoryError::InvalidOperation { reason } => "Invalid operation: "@ + reason@,
        RepositoryError::DatabaseError { message, operation } => "Database error in "@ + operation@ + ": "@ + message@,
        RepositoryError::SerializationError { message } => "Serialization error: "@ + message@,
    }
}

impl RepositoryError {
    /// The text of the error.
    pub fn describe(&self) -> (r: String)
        ensures
            r@ == error_text(*self),
    {
        match self {
            RepositoryError::NotFound { entity_type, id } => concat3(entity_type.as_str(), " not found: ", id.as_str()),
            RepositoryError::Validation { field, message } => concat4("Validation error on ", field.as_str(), ": ", message.as_str()),
            RepositoryError::ValidationError { field, message } => concat4("Validation error on ", field.as_str(), ": ", message.as_str()),
            RepositoryError::Conflict { message } => concat2("Conflict: ", message.as_str()),
            RepositoryError::Unauthorized { reason } => concat2("Unauthorized: ", reason.as_str()),
            RepositoryError::Forbidden { reason } => concat2("Forbidden: ", reason.as_str()),
            RepositoryError::AccessDenied { reason } => concat2("Access denied: ", reason.as_str()),
            RepositoryError::InvalidOperation { reason } => concat2("Invalid operation: ", reason.as_str()),
            RepositoryError::DatabaseError { message, operation } => concat4("Database error in ", operation.as_str(), ": ", message.as_str()),
            RepositoryError::SerializationError { message } => concat2("Serialization error: ", message.as_str()),
        }
    }
}

/// `e` is a `NotFound` error for an entity of kind `entity_type` with id `id`.
pub open spec fn is_not_found(e: RepositoryError, entity_type: Seq<char>, id: Seq<char>) -> bool {
    e matches RepositoryError::NotFound { entity_type: t, id: i } && t@ == entity_type && i@ == id
}

/// `e` is a `Validation` error on `field` with `message`.
pub open spec fn is_validation(e: RepositoryError, field: Seq<char>, message: Seq<char>) -> bool {
    e matches RepositoryError::Validation { field: f, message: m } && f@ == field && m@ == message
}

/// `e` is a `ValidationError` on `field` with `message`.
pub open spec fn is_validation_error(e: RepositoryError, field: Seq<char>, message: Seq<char>) -> bool {
    e matches RepositoryError::ValidationError { field: f, message: m } && f@ == field && m@
        == message
}

/// `e` is a `Conflict` error with `message`.
pub open spec fn is_conflict(e: RepositoryError, message: Seq<char>) -> bool {
    e matches RepositoryError::Conflict { message: m } && m@ == message
}

/// `e` is an `Unauthorized` error with `reason`.
pub open spec fn is_unauthorized(e: RepositoryError, reason: Seq<char>) -> bool {
    e matches RepositoryError::Unauthorized { reason: r } && r@ == reason
}

/// `e` is a `Forbidden` error with `reason`.
pub open spec fn is_forbidden(e: RepositoryError, reason: Seq<char>) -> bool {
    e matches RepositoryError::Forbidden { reason: r } && r@ == reason
}

/// An owned copy of `s`.
pub fn owned(s: &str) -> (r: String)
    ensures
        r@ == s@,
{
    String::from_str(s)
}

/// The concatenation of `a` and `b`.
pub fn concat2(a: &str, b: &str) -> (r: String)
    ensures
        r@ == a@ + b@,
{
    let mut s = String::from_str(a);
    s.append(b);
    s
}

/// The concatenation of `a`, `b` and `c`.
pub fn concat3(a: &str, b: &str, c: &str) -> (r: String)
    ensures
        r@ == a@ + b@ + c@,
{
    let mut s = String::from_str(a);
    s.append(b);
    s.append(c);
    s
}

/// The concatenation of `a`, `b`, `c` and `d`.
pub fn concat4(a: &str, b: &str, c: &str, d: &str) -> (r: String)
    ensures
        r@ == a@ + b@ + c@ + d@,
{
    let mut s = String::from_str(a);
    s.append(b);
    s.append(c);
    s.append(d);
    s
}

pub fn not_found(entity_type: &str, id: &str) -> (e: RepositoryError)
    ensures
        is_not_found(e, entity_type@, id@),
{
    RepositoryError::NotFound { entity_type: owned(entity_type), id: owned(id) }
}

pub fn validation(field: &str, message: &str) -> (e: RepositoryError)
    ensures
        is_validation(e, field@, message@),
{
    RepositoryError::Validation { field: owned(field), message: owned(message) }
}

pub fn validation_error(field: &str, message: &str) -> (e: RepositoryError)
    ensures
        is_validation_error(e, field@, message@),
{
    RepositoryError::ValidationError { field: owned(field), message: owned(message) }
}

pub fn conflict(message: &str) -> (e: RepositoryError)
    ensures
        is_conflict(e, message@),
{
    RepositoryError::Conflict { message: owned(message) }
}

pub fn unauthorized(reason: String) -> (e: RepositoryError)
    ensures
        is_unauthorized(e, reason@),
{
    RepositoryError::Unauthorized { reason }
}

pub fn forbidden(reason: &str) -> (e: RepositoryError)
    ensures
        is_forbidden(e, reason@),
{
    RepositoryError::Forbidden { reason: owned(reason) }
}

} // verus!
