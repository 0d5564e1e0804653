use vstd::prelude::*;
use vstd::string::StringExecFns;

verus! {

/// Why a store operation was refused. An absent record is `NotFound`; the
/// store's uniqueness constraint on usernames rejecting a write is
/// `UsernameTaken`; a failure deriving a password hash is `HashingFailure`,
/// and nothing is persisted in its wake.
#[derive(Clone, Copy, Debug, PartialEq, Eq, Structural)]
pub enum RepoError {
    NotFound,
    UsernameTaken,
    HashingFailure,
}

/// A structured error body: a numeric status class, the status line's short
/// name, and a human-readable message naming the path that was accessed.
pub struct ErrorMessage {
    pub status_code: i16,
    pub status: String,
    pub message: String,
}

/// Body for a malformed request (status class 400).
pub fn bad_request(path: &str) -> (r: ErrorMessage)
    ensures
        r.status_code == 400,
        r.status@ == "Bad Request"@,
        r.message@ == "We couldn't get that, try fixing something at your end. Path accessed: "@
            + path@,
{
    ErrorMessage {
        status_code: 400,
        status: String::from_str("Bad Request"),
        message: String::from_str(
            "We couldn't get that, try fixing something at your end. Path accessed: ",
        ).concat(path),
    }
}

/// Body for a request with no valid session behind it (status class 401).
pub fn unauthorized(path: &str) -> (r: ErrorMessage)
    ensures
        r.status_code == 401,
        r.status@ == "Unauthorized"@,
        r.message@ == "You're not logged in and therefore not allowed to view this item: "@
            + path@,
{
    ErrorMessage {
        status_code: 401,
        status: String::from_str("Unauthorized"),
        message: String::from_str(
            "You're not logged in and therefore not allowed to view this item: ",
        ).concat(path),
    }
}

/// Body for a request the caller lacks permission for (status class 403).
pub fn forbidden(path: &str) -> (r: ErrorMessage)
    ensures
        r.status_code == 403,
        r.status@ == "Forbidden"@,
        r.message@ == "You don't have permissions to view this item: "@ + path@,
{
    ErrorMessage {
        status_code: 403,
        status: String::from_str("Forbidden"),
        message: String::from_str("You don't have permissions to view this item: ").concat(path),
    }
}

/// Body for a path that matches no known resource (status class 404).
pub fn not_found(path: &str) -> (r: ErrorMessage)
    ensures
        r.status_code == 404,
        r.status@ == "Not Found"@,
        r.message@ == "The requested URL was not found: "@ + path@,
{
    ErrorMessage {
        status_code: 404,
        status: String::from_str("Not Found"),
        message: String::from_str("The requested URL was not found: ").concat(path),
    }
}

} // verus!
