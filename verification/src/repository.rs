//! The queries of the user repository and of the virtual file system: their SQL,
//! the values bound to their placeholders, and how their results are read.
use vstd::prelude::*;
use vstd::string::*;
use crate::MAX_UTF8_BYTES;
use crate::fixed_len_str::FixedSizedStr;
use crate::user::UserCreationView;
use crate::id::ID;
use crate::object_storage::ObjectID;
use crate::file::{EntryDraft, File, Directory, State, state_code};

verus! {

/// A value bound to a placeholder of a query.
#[derive(Debug, Clone, PartialEq, Eq)]
pub enum SqlValue {
    Int(i64),
    UInt(u64),
    Text(String),
    /// A UUID, as its 128-bit number.
    Uuid(u128),
    Null,
}

/// The bound value is the text with these bytes.
pub open spec fn is_text(v: SqlValue, bytes: Seq<u8>) -> bool {
    v matches SqlValue::Text(s) && vstd::utf8::encode_utf8(s@) == bytes
}

/// The bound value of an optional number: the number, or NULL.
pub open spec fn opt_uint(v: Option<u64>) -> SqlValue {
    match v {
        Some(n) => SqlValue::UInt(n),
        None => SqlValue::Null,
    }
}

fn text_value(s: &str) -> (r: SqlValue)
    ensures
        is_text(r, s.spec_bytes()),
{
    SqlValue::Text(s.to_owned())
}

/// An optional number is bound as the number itself, or as NULL when it is absent.
pub proof fn law_optional_number_binding(n: u64)
    ensures
        opt_uint(Some(n)) == SqlValue::UInt(n),
        opt_uint(None) == SqlValue::Null,
{
}

fn opt_uint_value(v: Option<u64>) -> (r: SqlValue)
    ensures
        r == opt_uint(v),
{
    match v {
        Some(n) => SqlValue::UInt(n),
        None => SqlValue::Null,
    }
}

/// Inserts a user.
pub const CREATE_USER: &'static str = "INSERT INTO users (name, email, password) VALUES (?, ?, ?);";
/// Deletes a user by id.
pub const DELETE_USER: &'static str = "DELETE FROM users WHERE id = ?;";
/// Whether a user has the address.
pub const EMAIL_EXISTS: &'static str = "SELECT EXISTS(SELECT 1 FROM users WHERE email = ?);";
/// Deletes, with low priority, the user with the address: undoes a signup whose
/// confirmation mail could not be sent.
pub const REVERT_SIGNUP: &'static str = "DELETE LOW_PRIORITY FROM users WHERE email = ?;";

/// Undoes the signup of the address.
pub struct RevertSignup<'a>(pub &'a str);

impl<'a> RevertSignup<'a> {
    pub fn new(email: &'a str) -> (r: Self)
        ensures
            r.0 == email,
    {
        RevertSignup(email)
    }

    /// The values for `REVERT_SIGNUP`: the address.
    pub fn params(&self) -> (r: Vec<SqlValue>)
        ensures
            r@.len() == 1,
            is_text(r@[0], self.0.spec_bytes()),
    {
        let mut v: Vec<SqlValue> = Vec::new();
        v.push(text_value(self.0));
        v
    }
}

/// The id and password hash of the user with the address.
pub const LOGIN_VIEW: &'static str = "SELECT password AS password_hash, id FROM users WHERE email = ? LIMIT 1;";
/// The profile of a user by id.
pub const USER_INFO: &'static str = "SELECT id, name, email, is_admin, created_at, modified_at FROM users WHERE id = ? LIMIT 1;";
/// Inserts a file entry.
pub const CREATE_FILE_QUERY: &'static str = "INSERT INTO files (user_id, name, size_bytes, parent_id, status) VALUES (?, ?, ?, ?, ?);";
/// Inserts a folder entry.
pub const CREATE_FOLDER_QUERY: &'static str = "INSERT INTO files (user_id, name, size_bytes, parent_id, status) VALUES (?, ?, ?, ?, ?);";
/// A file of a user by id.
pub const GET_FILE_QUERY: &'static str = "SELECT id, name FROM files WHERE id = ? AND user_id = ? AND is_folder = FALSE;";
/// The entries of a user in a folder (or at the top), folders first, by name.
pub const LIST_FILES_QUERY: &'static str = "SELECT id, name, size_bytes, is_folder, created_at, modified_at FROM files WHERE user_id = ? AND (parent_id <=> ?) ORDER BY is_folder DESC, name ASC;";

/// Inserts a new user: name, e-mail address, password hash.
pub struct CreateUser<'a>(pub &'a UserCreationView<'a>, pub &'a FixedSizedStr<MAX_UTF8_BYTES>);

impl<'a> CreateUser<'a> {
    pub fn new(user: &'a UserCreationView<'a>, hashed_pw: &'a FixedSizedStr<MAX_UTF8_BYTES>) -> (r: Self)
        ensures
            r.0 == user,
            r.1 == hashed_pw,
    {
        CreateUser(user, hashed_pw)
    }

    /// The values for `CREATE_USER`: the name, the address and the hash.
    pub fn params(&self) -> (r: Vec<SqlValue>)
        ensures
            r@.len() == 3,
            is_text(r@[0], self.0.name_bytes()),
            is_text(r@[1], self.0.email_bytes()),
            is_text(r@[2], self.1@),
    {
        let mut v: Vec<SqlValue> = Vec::new();
        v.push(text_value(self.0.get_name()));
        v.push(text_value(self.0.get_email()));
        v.push(text_value(self.1.as_str()));
        v
    }
}

/// Deletes the user with the id.
pub struct DeleteUser(pub i32);

/// The delete touched no row.
#[derive(Debug, Clone, Copy, PartialEq, Eq)]
pub struct RowNotFound;

impl DeleteUser {
    pub fn new(user_id: i32) -> (r: Self)
        ensures
            r.0 == user_id,
    {
        DeleteUser(user_id)
    }

    /// The values for `DELETE_USER`: the id.
    pub fn params(&self) -> (r: Vec<SqlValue>)
        ensures
            r@ == seq![SqlValue::Int(self.0 as i64)],
    {
        let mut v: Vec<SqlValue> = Vec::new();
        v.push(SqlValue::Int(self.0 as i64));
        v
    }

    /// A delete that touched no row did not find the user.
    pub fn check_rows(rows_affected: u64) -> (r: Result<(), RowNotFound>)
        ensures
            r is Err <==> rows_affected == 0,
    {
        if rows_affected == 0 { Err(RowNotFound) } else { Ok(()) }
    }
}

/// Whether some user has the address.
pub struct EmailExists<'a>(pub &'a str);

impl<'a> EmailExists<'a> {
    pub fn new(email: &'a str) -> (r: Self)
        ensures
            r.0 == email,
    {
        EmailExists(email)
    }

    /// The values for `EMAIL_EXISTS`: the address.
    pub fn params(&self) -> (r: Vec<SqlValue>)
        ensures
            r@.len() == 1,
            is_text(r@[0], self.0.spec_bytes()),
    {
        let mut v: Vec<SqlValue> = Vec::new();
        v.push(text_value(self.0));
        v
    }
}

/// The id and password hash of the user with the address.
pub struct GetLoginView<'a>(pub &'a str);

impl<'a> GetLoginView<'a> {
    pub fn new(email: &'a str) -> (r: Self)
        ensures
            r.0 == email,
    {
        GetLoginView(email)
    }

    /// The values for `LOGIN_VIEW`: the address.
    pub fn params(&self) -> (r: Vec<SqlValue>)
        ensures
            r@.len() == 1,
            is_text(r@[0], self.0.spec_bytes()),
    {
        let mut v: Vec<SqlValue> = Vec::new();
        v.push(text_value(self.0));
        v
    }
}

/// The profile of the user with the id.
pub struct GetUserInfo(pub i32);

impl GetUserInfo {
    pub fn new(user_id: i32) -> (r: Self)
        ensures
            r.0 == user_id,
    {
        GetUserInfo(user_id)
    }

    /// The values for `USER_INFO`: the id.
    pub fn params(&self) -> (r: Vec<SqlValue>)
        ensures
            r@ == seq![SqlValue::Int(self.0 as i64)],
    {
        let mut v: Vec<SqlValue> = Vec::new();
        v.push(SqlValue::Int(self.0 as i64));
        v
    }
}

/// The queries on users.
pub struct UserRepository;

impl UserRepository {
    pub fn create<'a>(user: &'a UserCreationView<'a>, hashed_pw: &'a FixedSizedStr<MAX_UTF8_BYTES>) -> (r: CreateUser<'a>)
        ensures
            r.0 == user,
            r.1 == hashed_pw,
    {
        CreateUser::new(user, hashed_pw)
    }

    pub fn delete(user_id: i32) -> (r: DeleteUser)
        ensures
            r.0 == user_id,
    {
        DeleteUser::new(user_id)
    }

    pub fn email_exists(email: &str) -> (r: EmailExists<'_>)
        ensures
            r.0 == email,
    {
        EmailExists::new(email)
    }

    pub fn get_login_view(email: &str) -> (r: GetLoginView<'_>)
        ensures
            r.0 == email,
    {
        GetLoginView::new(email)
    }

    pub fn get_user_info(user_id: i32) -> (r: GetUserInfo)
        ensures
            r.0 == user_id,
    {
        GetUserInfo::new(user_id)
    }
}

/// The value bound for an optional parent folder: its id, or NULL.
pub open spec fn parent_value(p: Option<ObjectID>) -> SqlValue {
    match p {
        Some(o) => SqlValue::UInt(o.0@ as u64),
        None => SqlValue::Null,
    }
}

fn parent_value_exec(p: Option<ObjectID>) -> (r: SqlValue)
    ensures
        r == parent_value(p),
{
    match p {
        Some(o) => SqlValue::UInt(o.0.get() as u64),
        None => SqlValue::Null,
    }
}

/// The id of an inserted row, as the database reports it: a positive number that fits into 32 bits.
pub fn object_id_from_insert(last_insert_id: u64) -> (r: Option<ObjectID>)
    ensures
        r is Some <==> 0 < last_insert_id <= u32::MAX,
        r matches Some(o) ==> o.0@ == last_insert_id,
{
    if last_insert_id == 0 || last_insert_id > u32::MAX as u64 {
        None
    } else {
        match ID::new(last_insert_id as u32) {
            Some(id) => Some(ObjectID(id)),
            None => None,
        }
    }
}

/// Inserts a file entry.
pub struct CreateFile<'a>(pub &'a EntryDraft<'a, File>);

impl<'a> CreateFile<'a> {
    pub fn new(file: &'a EntryDraft<'a, File>) -> (r: Self)
        ensures
            r.0 == file,
    {
        CreateFile(file)
    }

    /// The values for `CREATE_FILE_QUERY`: owner, name, size, parent and state.
    pub fn params(&self) -> (r: Vec<SqlValue>)
        ensures
            r@.len() == 5,
            r@[0] == SqlValue::UInt(self.0.user()@ as u64),
            is_text(r@[1], self.0.entry_name().spec_bytes()),
            r@[2] == opt_uint(self.0.size()),
            r@[3] == parent_value(self.0.parent()),
            r@[4] == SqlValue::UInt(state_code(self.0.entry_state()) as u64),
            self.0.size() is Some ==> r@[2] == SqlValue::UInt(self.0.size()->Some_0),
            self.0.size() is None ==> r@[2] == SqlValue::Null,
    {
        let mut v: Vec<SqlValue> = Vec::new();
        v.push(SqlValue::UInt(self.0.get_user().get() as u64));
        v.push(text_value(self.0.get_name()));
        v.push(opt_uint_value(self.0.get_size_bytes()));
        v.push(parent_value_exec(self.0.get_parent()));
        let code: u16 = u16::from(self.0.get_state());
        v.push(SqlValue::UInt(code as u64));
        v
    }
}

/// Inserts a folder entry.
pub struct CreateFolder<'a>(pub &'a EntryDraft<'a, Directory>);

impl<'a> CreateFolder<'a> {
    pub fn new(folder: &'a EntryDraft<'a, Directory>) -> (r: Self)
        ensures
            r.0 == folder,
    {
        CreateFolder(folder)
    }

    /// The values for `CREATE_FOLDER_QUERY`: owner, name, size, parent and state.
    pub fn params(&self) -> (r: Vec<SqlValue>)
        ensures
            r@.len() == 5,
            r@[0] == SqlValue::UInt(self.0.user()@ as u64),
            is_text(r@[1], self.0.entry_name().spec_bytes()),
            r@[2] == opt_uint(self.0.size()),
            r@[3] == parent_value(self.0.parent()),
            r@[4] == SqlValue::UInt(state_code(self.0.entry_state()) as u64),
            self.0.size() is Some ==> r@[2] == SqlValue::UInt(self.0.size()->Some_0),
            self.0.size() is None ==> r@[2] == SqlValue::Null,
    {
        let mut v: Vec<SqlValue> = Vec::new();
        v.push(SqlValue::UInt(self.0.get_user().get() as u64));
        v.push(text_value(self.0.get_name()));
        v.push(opt_uint_value(self.0.get_size_bytes()));
        v.push(parent_value_exec(self.0.get_parent()));
        let code: u16 = u16::from(self.0.get_state());
        v.push(SqlValue::UInt(code as u64));
        v
    }
}

/// A file of a user, by the UUID of the file.
pub struct GetFile {
    pub file_id: u128,
    pub user_id: i32,
}

impl GetFile {
    pub fn new(file_id: u128, user_id: i32) -> (r: Self)
        ensures
            r.file_id == file_id,
            r.user_id == user_id,
    {
        GetFile { file_id, user_id }
    }

    /// The values for `GET_FILE_QUERY`: the file and the user.
    pub fn params(&self) -> (r: Vec<SqlValue>)
        ensures
            r@ == seq![SqlValue::Uuid(self.file_id), SqlValue::Int(self.user_id as i64)],
    {
        let mut v: Vec<SqlValue> = Vec::new();
        v.push(SqlValue::Uuid(self.file_id));
        v.push(SqlValue::Int(self.user_id as i64));
        v
    }
}

/// The entries of a user in a folder, or at the top when no folder is given.
pub struct ListFiles {
    pub user_id: i32,
    pub parent_id: Option<u128>,
}

impl ListFiles {
    pub fn new(user_id: i32, parent_id: Option<u128>) -> (r: Self)
        ensures
            r.user_id == user_id,
            r.parent_id == parent_id,
    {
        ListFiles { user_id, parent_id }
    }

    /// The values for `LIST_FILES_QUERY`: the user and the folder, or NULL.
    pub fn params(&self) -> (r: Vec<SqlValue>)
        ensures
            r@ == seq![SqlValue::Int(self.user_id as i64), match self.parent_id {
                Some(p) => SqlValue::Uuid(p),
                None => SqlValue::Null,
            }],
    {
        let mut v: Vec<SqlValue> = Vec::new();
        v.push(SqlValue::Int(self.user_id as i64));
        v.push(match self.parent_id {
            Some(p) => SqlValue::Uuid(p),
            None => SqlValue::Null,
        });
        v
    }
}

/// The queries of the virtual file system.
pub struct VirtualFileSystem;

impl VirtualFileSystem {
    pub fn create_file<'a>(file: &'a EntryDraft<'a, File>) -> (r: CreateFile<'a>)
        ensures
            r.0 == file,
    {
        CreateFile::new(file)
    }

    pub fn create_folder<'a>(folder: &'a EntryDraft<'a, Directory>) -> (r: CreateFolder<'a>)
        ensures
            r.0 == folder,
    {
        CreateFolder::new(folder)
    }

    pub fn list_files(user_id: i32, parent_id: Option<u128>) -> (r: ListFiles)
        ensures
            r.user_id == user_id,
            r.parent_id == parent_id,
    {
        ListFiles::new(user_id, parent_id)
    }

    pub fn get_file(file_id: u128, user_id: i32) -> (r: GetFile)
        ensures
            r.file_id == file_id,
            r.user_id == user_id,
    {
        GetFile::new(file_id, user_id)
    }
}

} // verus!
