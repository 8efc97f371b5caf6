//! The decisions of the upload route: reading the request headers, and the order
//! of database and storage work.
use vstd::prelude::*;
use vstd::string::*;
use crate::decimal::{parse_unsigned, parse_unsigned_exec, IntErrorKind, decimal_bytes, lemma_parse_decimal_roundtrip};
use crate::id::{ID, spec_parse_id};
use crate::object_storage::ObjectID;
use crate::file::{EntryDraft, File, Directory, State, Kind, size_ok};
use crate::status::{
    STATUS_BAD_REQUEST, STATUS_LENGTH_REQUIRED, STATUS_UNSUPPORTED_MEDIA_TYPE,
    STATUS_INTERNAL_SERVER_ERROR, STATUS_CREATED,
};
use crate::text::byte_len;

verus! {

/// What the upload headers say of the entry to store.
pub struct FileMetaData<'a> {
    /// The size in bytes; absent for an empty body.
    pub size: Option<u64>,
    pub name: &'a str,
    pub is_folder: bool,
    pub parent_id: Option<ObjectID>,
}

/// The answer to a stored upload.
#[derive(Debug, Clone, Copy, PartialEq, Eq)]
pub struct UploadResponse {
    pub id: ObjectID,
}

/// The answer to a failed upload.
#[derive(Debug, Clone, Copy, PartialEq, Eq)]
pub struct ErrorResponse {
    pub error: &'static str,
}

/// Why the upload headers are refused.
#[derive(Debug, Clone, Copy, PartialEq, Eq, Structural)]
pub enum FileMetaError {
    MissingContentLength,
    InvalidContentLength,
    MissingFilename,
    MissingXFolder,
    InvalidXFolderValue,
    InvalidContentType,
    InvalidCombination,
    InvalidParentUuid,
}

/// The headers of an upload request that the route reads.
pub struct UploadHeaders<'a> {
    pub content_length: Option<&'a str>,
    pub filename: Option<&'a str>,
    pub is_folder: Option<&'a str>,
    pub parent_id: Option<&'a str>,
    /// The content type is `application/octet-stream`.
    pub binary_body: bool,
}

/// What the value of `X-IsFolder` says: `true` or `1` a folder, `false` or `0` a file.
pub open spec fn folder_flag_of(b: Seq<u8>) -> Option<bool> {
    if b == seq![116u8, 114u8, 117u8, 101u8] || b == seq![49u8] {
        Some(true)
    } else if b == seq![102u8, 97u8, 108u8, 115u8, 101u8] || b == seq![48u8] {
        Some(false)
    } else {
        None
    }
}

fn folder_flag(value: &str) -> (r: Option<bool>)
    ensures
        r == folder_flag_of(value.spec_bytes()),
{
    let b: &[u8] = value.as_bytes();
    let n: usize = b.len();
    if (n == 4 && b[0] == 116u8 && b[1] == 114u8 && b[2] == 117u8 && b[3] == 101u8) || (n == 1 && b[0] == 49u8) {
        assert(n == 4 ==> b@ =~= seq![116u8, 114u8, 117u8, 101u8]);
        Some(true)
    } else if (n == 5 && b[0] == 102u8 && b[1] == 97u8 && b[2] == 108u8 && b[3] == 115u8 && b[4] == 101u8)
        || (n == 1 && b[0] == 48u8) {
        assert(n == 5 ==> b@ =~= seq![102u8, 97u8, 108u8, 115u8, 101u8]);
        Some(false)
    } else {
        proof {
            if b@ == seq![116u8, 114u8, 117u8, 101u8] || b@ == seq![49u8]
                || b@ == seq![102u8, 97u8, 108u8, 115u8, 101u8] || b@ == seq![48u8] {
                assert(false);
            }
        }
        None
    }
}

/// The checks of the upload headers, in the order of the route; the first failure decides.
/// On success: the size (absent when zero), whether it is a folder, and the parent id.
pub open spec fn metadata_outcome(h: UploadHeaders) -> Result<(Option<u64>, bool, Option<u32>), (u16, FileMetaError)> {
    match h.content_length {
        None => Err((411u16, FileMetaError::MissingContentLength)),
        Some(cl) => match parse_unsigned(cl.spec_bytes(), u64::MAX as nat) {
            Err(_) => Err((400u16, FileMetaError::InvalidContentLength)),
            Ok(size) => match h.filename {
                None => Err((400u16, FileMetaError::MissingFilename)),
                Some(_) => match h.is_folder {
                    None => Err((400u16, FileMetaError::MissingXFolder)),
                    Some(f) => match folder_flag_of(f.spec_bytes()) {
                        None => Err((400u16, FileMetaError::InvalidXFolderValue)),
                        Some(is_folder) => if is_folder && size > 0 {
                            Err((400u16, FileMetaError::InvalidCombination))
                        } else {
                            match h.parent_id {
                                Some(p) if spec_parse_id(p.spec_bytes()) is Err =>
                                    Err((400u16, FileMetaError::InvalidParentUuid)),
                                _ => if !h.binary_body {
                                    Err((415u16, FileMetaError::InvalidContentType))
                                } else {
                                    Ok((
                                        if size == 0 { None } else { Some(size as u64) },
                                        is_folder,
                                        match h.parent_id {
                                            Some(p) => Some(spec_parse_id(p.spec_bytes())->Ok_0),
                                            None => None,
                                        },
                                    ))
                                },
                            }
                        },
                    },
                },
            },
        },
    }
}

/// `Content-Length` is read as a 64-bit number: for every `n` up to `u64::MAX`, the
/// headers of a file upload whose `Content-Length` is the decimal text of `n` (with a
/// file name, `X-IsFolder: false`, no parent and a binary body) are accepted with
/// the size `n`, absent for zero.
pub proof fn law_file_upload_size(h: UploadHeaders, n: u64)
    requires
        h.content_length is Some,
        h.content_length->Some_0.spec_bytes() == decimal_bytes(n as nat),
        h.filename is Some,
        h.is_folder is Some,
        h.is_folder->Some_0.spec_bytes() == seq![102u8, 97u8, 108u8, 115u8, 101u8],
        h.parent_id is None,
        h.binary_body,
    ensures
        metadata_outcome(h) == Ok::<(Option<u64>, bool, Option<u32>), (u16, FileMetaError)>(
            (if n == 0 { None } else { Some(n) }, false, None)),
{
    lemma_parse_decimal_roundtrip(n as nat, u64::MAX as nat);
    assert(folder_flag_of(seq![102u8, 97u8, 108u8, 115u8, 101u8]) == Some(false));
}

impl<'a> FileMetaData<'a> {
    /// Reads the metadata of an upload from its headers, or the status and error that refuse it.
    pub fn from_headers(h: UploadHeaders<'a>) -> (r: Result<FileMetaData<'a>, (u16, FileMetaError)>)
        ensures
            match metadata_outcome(h) {
                Err(e) => r matches Err(e2) && e2 == e,
                Ok((size, is_folder, parent)) => r matches Ok(m) && {
                    &&& m.size == size
                    &&& m.is_folder == is_folder
                    &&& Some(m.name) == h.filename
                    &&& match parent {
                        Some(p) => m.parent_id matches Some(o) && o.0@ == p,
                        None => m.parent_id is None,
                    }
                },
            },
            r matches Ok(m) ==> size_ok(m.size) && (m.is_folder ==> m.size is None),
    {
        let cl: &str = match h.content_length {
            None => { return Err((STATUS_LENGTH_REQUIRED, FileMetaError::MissingContentLength)); },
            Some(v) => v,
        };
        let size: u64 = match parse_unsigned_exec(cl, u64::MAX) {
            Err(_) => { return Err((STATUS_BAD_REQUEST, FileMetaError::InvalidContentLength)); },
            Ok(v) => v,
        };
        let name: &'a str = match h.filename {
            None => { return Err((STATUS_BAD_REQUEST, FileMetaError::MissingFilename)); },
            Some(v) => v,
        };
        let is_folder: bool = match h.is_folder {
            None => { return Err((STATUS_BAD_REQUEST, FileMetaError::MissingXFolder)); },
            Some(v) => match folder_flag(v) {
                None => { return Err((STATUS_BAD_REQUEST, FileMetaError::InvalidXFolderValue)); },
                Some(f) => f,
            },
        };
        if is_folder && size > 0 {
            return Err((STATUS_BAD_REQUEST, FileMetaError::InvalidCombination));
        }
        let parent_id: Option<ObjectID> = match h.parent_id {
            Some(v) => match ObjectID::parse_str(v) {
                Ok(o) => Some(o),
                Err(_) => { return Err((STATUS_BAD_REQUEST, FileMetaError::InvalidParentUuid)); },
            },
            None => None,
        };
        if !h.binary_body {
            return Err((STATUS_UNSUPPORTED_MEDIA_TYPE, FileMetaError::InvalidContentType));
        }
        Ok(FileMetaData { size: if size == 0 { None } else { Some(size) }, name, is_folder, parent_id })
    }
}

/// The draft of a new folder: no size, state `Created`.
pub fn folder_entry<'a>(user: ID, meta: &FileMetaData<'a>) -> (r: EntryDraft<'a, Directory>)
    requires
        meta.size is None,
    ensures
        r.user() == user,
        r.entry_name() == meta.name,
        r.size() is None,
        r.parent() == meta.parent_id,
        r.entry_state() == State::Created,
{
    EntryDraft::new(user, meta.name, meta.size, meta.parent_id, State::Created)
}

/// The draft of a new file: the size of the upload, state `Pending` until it is stored.
pub fn file_entry<'a>(user: ID, meta: &FileMetaData<'a>) -> (r: EntryDraft<'a, File>)
    ensures
        r.user() == user,
        r.entry_name() == meta.name,
        r.size() == meta.size,
        r.parent() == meta.parent_id,
        r.entry_state() == State::Pending,
{
    EntryDraft::new(user, meta.name, meta.size, meta.parent_id, State::Pending)
}

/// The next piece of outside work of an upload.
#[derive(Debug, Clone, Copy, PartialEq, Eq)]
pub enum UploadAction {
    /// Begin a database transaction.
    BeginTransaction,
    /// Insert the folder draft into the file table.
    InsertFolder,
    /// Insert the file draft into the file table.
    InsertFile,
    /// Stream at most `limit` bytes of the body into the object store under `id`.
    Store { id: ObjectID, limit: u64 },
    /// Commit the transaction.
    Commit,
    /// Answer `201 Created` with the id of the new entry.
    Created { id: ObjectID },
    /// Answer with the status and error message.
    Fail { status: u16, message: &'static str },
}

/// What the last piece of outside work gave.
#[derive(Debug, Clone, Copy, PartialEq, Eq)]
pub enum UploadOutcome {
    TransactionBegun(bool),
    /// The id of the inserted row, or `None` when the insert failed.
    Inserted(Option<ObjectID>),
    Stored(bool),
    Committed(bool),
}

/// Where an upload stands.
#[derive(Debug, Clone, Copy, PartialEq, Eq)]
pub enum UploadStage {
    Begin,
    Insert,
    Store(ObjectID),
    Commit(ObjectID),
    Finished,
}

/// An upload of a folder or a file: begin a transaction, insert the entry, store
/// the body of a file, commit. Any failure answers 500 and ends the upload; the
/// transaction then rolls back when it is dropped.
pub struct UploadFlow {
    pub is_folder: bool,
    pub size: Option<u64>,
    pub stage: UploadStage,
}

impl UploadFlow {
    /// The upload described by the metadata, and its first action.
    pub fn start(meta: &FileMetaData) -> (r: (UploadFlow, UploadAction))
        ensures
            r.0.is_folder == meta.is_folder,
            r.0.size == meta.size,
            r.0.stage == UploadStage::Begin,
            r.1 == UploadAction::BeginTransaction,
    {
        (UploadFlow { is_folder: meta.is_folder, size: meta.size, stage: UploadStage::Begin }, UploadAction::BeginTransaction)
    }

    /// Takes in what the last action gave and says what to do next.
    pub fn step(&mut self, outcome: UploadOutcome) -> (r: UploadAction)
        ensures
            final(self).is_folder == old(self).is_folder,
            final(self).size == old(self).size,
            match (old(self).stage, outcome) {
                (UploadStage::Begin, UploadOutcome::TransactionBegun(false)) =>
                    r == (UploadAction::Fail { status: 500, message: "Database error" }) && final(self).stage == UploadStage::Finished,
                (UploadStage::Begin, UploadOutcome::TransactionBegun(true)) =>
                    final(self).stage == UploadStage::Insert
                    && r == if old(self).is_folder { UploadAction::InsertFolder } else { UploadAction::InsertFile },
                (UploadStage::Insert, UploadOutcome::Inserted(None)) =>
                    final(self).stage == UploadStage::Finished
                    && r == (UploadAction::Fail {
                        status: 500,
                        message: if old(self).is_folder { "Failed to create folder" } else { "Failed to create file record" },
                    }),
                (UploadStage::Insert, UploadOutcome::Inserted(Some(id))) =>
                    if old(self).is_folder {
                        final(self).stage == UploadStage::Commit(id) && r == UploadAction::Commit
                    } else {
                        final(self).stage == UploadStage::Store(id)
                        && r == (UploadAction::Store { id, limit: match old(self).size { Some(v) => v, None => 0 } })
                    },
                (UploadStage::Store(_), UploadOutcome::Stored(false)) =>
                    r == (UploadAction::Fail { status: 500, message: "Failed to store file" }) && final(self).stage == UploadStage::Finished,
                (UploadStage::Store(id), UploadOutcome::Stored(true)) =>
                    final(self).stage == UploadStage::Commit(id) && r == UploadAction::Commit,
                (UploadStage::Commit(_), UploadOutcome::Committed(false)) =>
                    r == (UploadAction::Fail { status: 500, message: "Transaction commit failed" }) && final(self).stage == UploadStage::Finished,
                (UploadStage::Commit(id), UploadOutcome::Committed(true)) =>
                    r == (UploadAction::Created { id }) && final(self).stage == UploadStage::Finished,
                _ => r == (UploadAction::Fail { status: 500, message: "Internal server error" })
                    && final(self).stage == UploadStage::Finished,
            },
    {
        let stage = self.stage;
        match (stage, outcome) {
            (UploadStage::Begin, UploadOutcome::TransactionBegun(ok)) => {
                if !ok {
                    self.stage = UploadStage::Finished;
                    UploadAction::Fail { status: STATUS_INTERNAL_SERVER_ERROR, message: "Database error" }
                } else {
                    self.stage = UploadStage::Insert;
                    if self.is_folder { UploadAction::InsertFolder } else { UploadAction::InsertFile }
                }
            },
            (UploadStage::Insert, UploadOutcome::Inserted(inserted)) => match inserted {
                None => {
                    self.stage = UploadStage::Finished;
                    let message: &'static str = if self.is_folder { "Failed to create folder" } else { "Failed to create file record" };
                    UploadAction::Fail { status: STATUS_INTERNAL_SERVER_ERROR, message }
                },
                Some(id) => {
                    if self.is_folder {
                        self.stage = UploadStage::Commit(id);
                        UploadAction::Commit
                    } else {
                        self.stage = UploadStage::Store(id);
                        let limit: u64 = match self.size { Some(v) => v, None => 0 };
                        UploadAction::Store { id, limit }
                    }
                },
            },
            (UploadStage::Store(id), UploadOutcome::Stored(ok)) => {
                if !ok {
                    self.stage = UploadStage::Finished;
                    UploadAction::Fail { status: STATUS_INTERNAL_SERVER_ERROR, message: "Failed to store file" }
                } else {
                    self.stage = UploadStage::Commit(id);
                    UploadAction::Commit
                }
            },
            (UploadStage::Commit(id), UploadOutcome::Committed(ok)) => {
                self.stage = UploadStage::Finished;
                if !ok {
                    UploadAction::Fail { status: STATUS_INTERNAL_SERVER_ERROR, message: "Transaction commit failed" }
                } else {
                    UploadAction::Created { id }
                }
            },
            _ => {
                self.stage = UploadStage::Finished;
                UploadAction::Fail { status: STATUS_INTERNAL_SERVER_ERROR, message: "Internal server error" }
            },
        }
    }
}

} // verus!
