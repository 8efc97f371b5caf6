//! The decisions of the routes that look users up: `/me`, `DELETE /users/<id>`,
//! `/files`, and `/health`.
use vstd::prelude::*;
use vstd::string::*;
use crate::login::DbError;
use crate::user::StandardUserView;
use crate::status::{STATUS_OK, STATUS_NO_CONTENT, STATUS_UNAUTHORIZED, STATUS_INTERNAL_SERVER_ERROR, STATUS_BAD_REQUEST};

verus! {

/// The answer of the health check.
pub fn health() -> (r: &'static str)
    ensures
        r == "Healthy",
{
    "Healthy"
}

/// The answer of `/me`: the profile of the user of the token, 401 when that user
/// does not exist, 500 when the database could not answer.
pub fn me_response(lookup: Result<Option<StandardUserView>, DbError>) -> (r: Result<(u16, StandardUserView), (u16, &'static str)>)
    ensures
        match lookup {
            Ok(Some(v)) => r matches Ok((code, w)) && code == 200 && w == v,
            Ok(None) => r == Err::<(u16, StandardUserView), (u16, &'static str)>((401u16, "User not found")),
            Err(_) => r == Err::<(u16, StandardUserView), (u16, &'static str)>((500u16, "Internal server error")),
        },
{
    match lookup {
        Ok(Some(v)) => Ok((STATUS_OK, v)),
        Ok(None) => Err((STATUS_UNAUTHORIZED, "User not found")),
        Err(_) => Err((STATUS_INTERNAL_SERVER_ERROR, "Internal server error")),
    }
}

/// What a deletion request needs next.
#[derive(Debug, Clone, Copy, PartialEq, Eq)]
pub enum DeletionCheck {
    /// The requester may delete the target: go ahead.
    Permitted,
    /// Look the requester up to see whether they are an administrator.
    LookUpRequester,
}

/// A user may always delete their own account; for anyone else the requester is looked up.
pub open spec fn deletion_check(requester: i32, target: i32) -> DeletionCheck {
    if requester == target { DeletionCheck::Permitted } else { DeletionCheck::LookUpRequester }
}

/// Decides whether a deletion needs the requester looked up.
pub fn check_deletion(requester: i32, target: i32) -> (r: DeletionCheck)
    ensures
        r == deletion_check(requester, target),
{
    if requester == target {
        DeletionCheck::Permitted
    } else {
        DeletionCheck::LookUpRequester
    }
}

/// Whether the looked-up requester may delete another user: only an administrator may.
/// `lookup` holds whether the requester is an administrator, if the requester exists.
pub open spec fn lookup_decision(lookup: Result<Option<bool>, DbError>) -> Result<(), (u16, &'static str)> {
    match lookup {
        Ok(Some(true)) => Ok(()),
        Ok(Some(false)) => Err((401u16, "Unauthorized: you do not have permission to perform this action.")),
        Ok(None) => Err((401u16, "Unauthorized: user account could not be verified.")),
        Err(_) => Err((500u16, "An internal error occurred. Please try again later.")),
    }
}

/// Decides a deletion by another user from the lookup of the requester.
pub fn deletion_after_lookup(lookup: Result<Option<bool>, DbError>) -> (r: Result<(), (u16, &'static str)>)
    ensures
        r == lookup_decision(lookup),
        match lookup {
            Ok(Some(true)) => r is Ok,
            Ok(Some(false)) => r == Err::<(), (u16, &'static str)>(
                (401u16, "Unauthorized: you do not have permission to perform this action.")),
            Ok(None) => r == Err::<(), (u16, &'static str)>(
                (401u16, "Unauthorized: user account could not be verified.")),
            Err(_) => r == Err::<(), (u16, &'static str)>(
                (500u16, "An internal error occurred. Please try again later.")),
        },
{
    match lookup {
        Ok(Some(true)) => Ok(()),
        Ok(Some(false)) => Err((STATUS_UNAUTHORIZED, "Unauthorized: you do not have permission to perform this action.")),
        Ok(None) => Err((STATUS_UNAUTHORIZED, "Unauthorized: user account could not be verified.")),
        Err(_) => Err((STATUS_INTERNAL_SERVER_ERROR, "An internal error occurred. Please try again later.")),
    }
}

/// A user may delete their own account without any lookup; an administrator may
/// delete any account; a user who is no administrator, or who cannot be found,
/// may not delete another account and is answered 401.
pub proof fn law_deletion_permission(requester: i32, target: i32, lookup: Result<Option<bool>, DbError>)
    ensures
        deletion_check(requester, requester) == DeletionCheck::Permitted,
        lookup_decision(Ok(Some(true))) is Ok,
        requester != target ==> deletion_check(requester, target) == DeletionCheck::LookUpRequester,
        (lookup matches Ok(x) && x != Some(true)) ==> (lookup_decision(lookup) matches Err((code, _)) && code == 401),
{
}

/// The outside steps of deleting a user row, and how they went.
#[derive(Debug, Clone, Copy, PartialEq, Eq)]
pub enum DeletionOutcome {
    /// The transaction could not begin.
    BeginFailed,
    /// The delete statement failed (or found no row); the transaction was rolled back.
    DeleteFailed,
    /// The commit failed.
    CommitFailed,
    /// The row is gone.
    Deleted,
}

/// The answer of a deletion by how its database work went.
pub fn deletion_response(outcome: DeletionOutcome) -> (r: Result<u16, (u16, &'static str)>)
    ensures
        outcome == DeletionOutcome::Deleted ==> r == Ok::<u16, (u16, &'static str)>(204u16),
        outcome == DeletionOutcome::BeginFailed ==> r == Err::<u16, (u16, &'static str)>(
            (500u16, "Failed to process request. Please try again later.")),
        outcome == DeletionOutcome::DeleteFailed ==> r == Err::<u16, (u16, &'static str)>(
            (500u16, "Failed to delete user. Please try again later.")),
        outcome == DeletionOutcome::CommitFailed ==> r == Err::<u16, (u16, &'static str)>(
            (500u16, "Failed to finalize deletion. Please try again later.")),
{
    match outcome {
        DeletionOutcome::BeginFailed => Err((STATUS_INTERNAL_SERVER_ERROR, "Failed to process request. Please try again later.")),
        DeletionOutcome::DeleteFailed => Err((STATUS_INTERNAL_SERVER_ERROR, "Failed to delete user. Please try again later.")),
        DeletionOutcome::CommitFailed => Err((STATUS_INTERNAL_SERVER_ERROR, "Failed to finalize deletion. Please try again later.")),
        DeletionOutcome::Deleted => Ok(STATUS_NO_CONTENT),
    }
}

/// The number of the UUID that `uuid::Uuid::parse_str` reads from the text, if it reads one.
pub uninterp spec fn uuid_of(text: Seq<char>) -> Option<u128>;

/// Reads a UUID with `uuid::Uuid::parse_str` (hyphenated, simple, braced or URN
/// form) and gives its 128-bit number. Claimed: the result is a function of the text (`uuid_of`).
#[verifier::external_body]
fn parse_uuid(text: &str) -> (r: Option<u128>)
    ensures
        r == uuid_of(text@),
{
    uuid::Uuid::parse_str(text).ok().map(|u| u.as_u128())
}

/// The folder to list: none for the top, else the UUID of the `parent_id` parameter,
/// which must read as one (else 400).
pub fn parent_folder(parent_id: Option<&str>) -> (r: Result<Option<u128>, (u16, &'static str)>)
    ensures
        match parent_id {
            None => r == Ok::<Option<u128>, (u16, &'static str)>(None),
            Some(t) => match uuid_of(t@) {
                Some(u) => r == Ok::<Option<u128>, (u16, &'static str)>(Some(u)),
                None => r == Err::<Option<u128>, (u16, &'static str)>((400u16, "Invalid parent_id UUID")),
            },
        },
{
    match parent_id {
        None => Ok(None),
        Some(t) => match parse_uuid(t) {
            Some(u) => Ok(Some(u)),
            None => Err((STATUS_BAD_REQUEST, "Invalid parent_id UUID")),
        },
    }
}

/// A row of the file listing; times in milliseconds since the Unix epoch.
pub struct FileRow {
    pub id: u128,
    pub name: String,
    pub size_bytes: u64,
    pub is_folder: bool,
    pub created_at: i64,
    pub modified_at: i64,
}

/// An entry of the answer of `/files`.
pub struct FileResponse {
    pub id: u128,
    pub name: String,
    pub size_bytes: u64,
    pub is_folder: bool,
    pub created_at: i64,
    pub modified_at: i64,
}

/// The entry answers the row: the same fields.
pub open spec fn row_answered(resp: FileResponse, row: FileRow) -> bool {
    &&& resp.id == row.id
    &&& resp.name@ == row.name@
    &&& resp.size_bytes == row.size_bytes
    &&& resp.is_folder == row.is_folder
    &&& resp.created_at == row.created_at
    &&& resp.modified_at == row.modified_at
}

/// The answer of `/files`: one entry per row, in the order of the rows; 500 when the database failed.
pub fn list_response(rows: Result<Vec<FileRow>, DbError>) -> (r: Result<(u16, Vec<FileResponse>), (u16, &'static str)>)
    ensures
        rows is Err ==> r is Err && r->Err_0 == (500u16, "Internal server error"),
        rows is Ok ==> r is Ok && r->Ok_0.0 == 200 && r->Ok_0.1@.len() == rows->Ok_0@.len(),
        rows is Ok ==> forall|i: int| 0 <= i < rows->Ok_0@.len() ==>
            row_answered(#[trigger] r->Ok_0.1@[i], rows->Ok_0@[i]),
{
    let v: Vec<FileRow> = match rows {
        Err(_) => { return Err((STATUS_INTERNAL_SERVER_ERROR, "Internal server error")); },
        Ok(v) => v,
    };
    let mut out: Vec<FileResponse> = Vec::new();
    let n: usize = v.len();
    let mut i: usize = 0;
    while i < n
        invariant
            rows == Ok::<Vec<FileRow>, DbError>(v),
            n == v@.len(),
            i <= n,
            out@.len() == i,
            forall|k: int| 0 <= k < i ==> row_answered(#[trigger] out@[k], v@[k]),
        decreases n - i,
    {
        let row: &FileRow = &v[i];
        out.push(FileResponse {
            id: row.id,
            name: row.name.clone(),
            size_bytes: row.size_bytes,
            is_folder: row.is_folder,
            created_at: row.created_at,
            modified_at: row.modified_at,
        });
        i = i + 1;
    }
    Ok((STATUS_OK, out))
}

} // verus!
