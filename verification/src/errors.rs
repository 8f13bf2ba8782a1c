//! The error taxonomy of the service and its mapping to transport
//! status codes and messages.

use vstd::prelude::*;

verus! {

/// Every way a request can fail, as the handlers classify it. Variants
/// that share a status class are still told apart, because each owes
/// its own body text at the boundary.
#[derive(Clone, Copy, Debug, PartialEq, Eq, Structural)]
pub enum ApiError {
    /// The upload carried no usable document part.
    BadRequest,
    /// The bearer token was missing, malformed or expired.
    Unauthorized,
    /// The presented password did not match, or the stored hash is
    /// malformed.
    InvalidCredentials,
    /// No route or resource matches the request.
    NotFound,
    /// No critique row carries the requested identifier.
    CritiqueNotFound,
    /// No user carries the presented email.
    UserNotFound,
    /// The email is already registered.
    Conflict,
    /// The store refused a read or a write.
    Storage,
    /// The scoring collaborator could not be reached or replied with
    /// a failure status.
    ScoringUnavailable,
    /// The scoring collaborator replied with a body of the wrong shape.
    ScoringMalformed,
    /// An unclassified internal failure.
    Internal,
}

/// Failure of the password codec: the hashing library itself failed,
/// or a stored hash is malformed.
#[derive(Clone, Copy, Debug, PartialEq, Eq, Structural)]
pub struct CodecError;

/// Failure of token verification.
#[derive(Clone, Copy, Debug, PartialEq, Eq, Structural)]
pub enum TokenError {
    /// The signature does not match the secret, or the payload is
    /// malformed.
    Invalid,
    /// The token's expiry has passed.
    Expired,
}

/// Rejection of a request by the identity gate. It carries no reason:
/// a caller must not learn which check failed.
#[derive(Clone, Copy, Debug, PartialEq, Eq, Structural)]
pub struct AuthError;

/// The transport status code owed to each error.
pub open spec fn status_of(e: ApiError) -> u16 {
    match e {
        ApiError::BadRequest => 400,
        ApiError::Unauthorized => 401,
        ApiError::InvalidCredentials => 401,
        ApiError::NotFound => 404,
        ApiError::CritiqueNotFound => 404,
        ApiError::UserNotFound => 404,
        ApiError::Conflict => 409,
        ApiError::Storage => 500,
        ApiError::ScoringUnavailable => 500,
        ApiError::ScoringMalformed => 500,
        ApiError::Internal => 500,
    }
}

/// The short human-readable message owed to each error. No internal
/// detail crosses the boundary for server-side failures.
pub open spec fn message_of(e: ApiError) -> Seq<char> {
    match e {
        ApiError::BadRequest => "No file uploaded"@,
        ApiError::Unauthorized => "Unauthorized"@,
        ApiError::InvalidCredentials => "Invalid credentials"@,
        ApiError::NotFound => "Not Found"@,
        ApiError::CritiqueNotFound => "Critique not found"@,
        ApiError::UserNotFound => "User not found"@,
        ApiError::Conflict => "Email already registered"@,
        ApiError::Storage => "Internal Server Error"@,
        ApiError::ScoringUnavailable => "AI service failed"@,
        ApiError::ScoringMalformed => "AI service failed"@,
        ApiError::Internal => "Internal Server Error"@,
    }
}

/// Translates a domain error to the status code and message that the
/// transport layer sends back.
pub fn handle_rejection(e: &ApiError) -> (r: (u16, String))
    ensures
        r.0 == status_of(*e),
        r.1@ == message_of(*e),
{
    match e {
        ApiError::BadRequest => (400, String::from_str("No file uploaded")),
        ApiError::Unauthorized => (401, String::from_str("Unauthorized")),
        ApiError::InvalidCredentials => (401, String::from_str("Invalid credentials")),
        ApiError::NotFound => (404, String::from_str("Not Found")),
        ApiError::CritiqueNotFound => (404, String::from_str("Critique not found")),
        ApiError::UserNotFound => (404, String::from_str("User not found")),
        ApiError::Conflict => (409, String::from_str("Email already registered")),
        ApiError::Storage => (500, String::from_str("Internal Server Error")),
        ApiError::ScoringUnavailable => (500, String::from_str("AI service failed")),
        ApiError::ScoringMalformed => (500, String::from_str("AI service failed")),
        ApiError::Internal => (500, String::from_str("Internal Server Error")),
    }
}

} // verus!
