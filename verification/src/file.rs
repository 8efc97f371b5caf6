//! Entries of the virtual file system: files and folders, before and after they are stored.
use vstd::prelude::*;
use vstd::string::*;
use core::marker::PhantomData;
use crate::id::ID;
use crate::object_storage::ObjectID;

verus! {

/// The life cycle of an entry, stored in the database as a number.
#[derive(Debug, Clone, Copy, PartialEq, Eq, Structural)]
pub enum State {
    Created,
    Deleted,
    Pending,
}

/// The number that stores a state: 1 created, 2 deleted, 3 pending.
pub open spec fn state_code(s: State) -> u16 {
    match s {
        State::Created => 1,
        State::Deleted => 2,
        State::Pending => 3,
    }
}

/// The state that a stored number stands for, if any.
pub open spec fn state_from_code(code: u16) -> Option<State> {
    if code == 1 {
        Some(State::Created)
    } else if code == 2 {
        Some(State::Deleted)
    } else if code == 3 {
        Some(State::Pending)
    } else {
        None
    }
}

/// The database holds a number that is no state.
#[derive(Debug, Clone, Copy, PartialEq, Eq)]
pub struct InvalidStateCode;

impl InvalidStateCode {
    /// The message that reports the error.
    pub fn message(&self) -> (r: &'static str)
        ensures
            r == "Invalid conversion, check database schema",
    {
        "Invalid conversion, check database schema"
    }
}

impl State {
    /// The state a stored number stands for; any number but 1, 2 and 3 is refused.
    pub fn try_from(value: u16) -> (r: Result<State, InvalidStateCode>)
        ensures
            r == match state_from_code(value) {
                Some(s) => Ok::<State, InvalidStateCode>(s),
                None => Err::<State, InvalidStateCode>(InvalidStateCode),
            },
    {
        match value {
            1 => Ok(State::Created),
            2 => Ok(State::Deleted),
            3 => Ok(State::Pending),
            _ => Err(InvalidStateCode),
        }
    }
}

impl From<State> for u16 {
    fn from(value: State) -> (r: u16) {
        match value {
            State::Created => 1,
            State::Deleted => 2,
            State::Pending => 3,
        }
    }
}

impl vstd::std_specs::convert::FromSpecImpl<State> for u16 {
    open spec fn obeys_from_spec() -> bool {
        true
    }

    open spec fn from_spec(v: State) -> u16 {
        state_code(v)
    }
}

/// Storing a state and reading it back gives the same state; a number that reads
/// as a state is the number that stores it.
pub proof fn law_state_code_roundtrip(s: State, code: u16)
    ensures
        state_from_code(state_code(s)) == Some(s),
        state_from_code(code) == Some(s) ==> state_code(s) == code,
{
}

/// A size in bytes as the database stores it: absent, or a positive number.
pub open spec fn size_ok(size: Option<u64>) -> bool {
    size matches Some(v) ==> v != 0
}

/// The kind of an entry: a file or a folder.
pub trait Kind {
    /// Whether entries of this kind are folders.
    spec fn folder() -> bool;

    /// The sizes an entry of this kind may be given.
    spec fn accepts(size: Option<u64>) -> bool;

    /// The size an entry of this kind keeps of the given size.
    spec fn kept_size(size: Option<u64>) -> Option<u64>;

    /// Whether entries of this kind are folders.
    fn is_folder() -> (r: bool)
        ensures
            r == Self::folder();

    /// The size an entry of this kind keeps of the given size.
    fn size_bytes(size: Option<u64>) -> (r: Option<u64>)
        requires
            Self::accepts(size),
        ensures
            r == Self::kept_size(size);
}

/// Files keep the size they are given.
pub struct File;

/// Folders have no size; giving one a size is a programming error.
pub struct Directory;

impl Kind for File {
    open spec fn folder() -> bool {
        false
    }

    open spec fn accepts(size: Option<u64>) -> bool {
        true
    }

    open spec fn kept_size(size: Option<u64>) -> Option<u64> {
        size
    }

    fn is_folder() -> (r: bool) {
        false
    }

    fn size_bytes(size: Option<u64>) -> (r: Option<u64>) {
        size
    }
}

impl Kind for Directory {
    open spec fn folder() -> bool {
        true
    }

    open spec fn accepts(size: Option<u64>) -> bool {
        size is None
    }

    open spec fn kept_size(size: Option<u64>) -> Option<u64> {
        None
    }

    fn is_folder() -> (r: bool) {
        true
    }

    fn size_bytes(size: Option<u64>) -> (r: Option<u64>) {
        None
    }
}

/// An entry about to be written to the file table.
pub struct EntryDraft<'a, K> {
    user_id: ID,
    name: &'a str,
    size_bytes: Option<u64>,
    parent_id: Option<ObjectID>,
    state: State,
    _marker: PhantomData<K>,
}

impl<'a, K> EntryDraft<'a, K> {
    /// The owner.
    pub closed spec fn user(&self) -> ID {
        self.user_id
    }

    /// The name.
    pub closed spec fn entry_name(&self) -> &'a str {
        self.name
    }

    /// The size in bytes, if any.
    pub closed spec fn size(&self) -> Option<u64> {
        self.size_bytes
    }

    /// The folder that holds the entry, if any.
    pub closed spec fn parent(&self) -> Option<ObjectID> {
        self.parent_id
    }

    /// The state.
    pub closed spec fn entry_state(&self) -> State {
        self.state
    }

    /// The owner.
    pub fn get_user(&self) -> (r: ID)
        ensures
            r == self.user(),
    {
        self.user_id
    }

    /// The name.
    pub fn get_name(&self) -> (r: &'a str)
        ensures
            r == self.entry_name(),
    {
        self.name
    }

    /// The size in bytes, if any.
    pub fn get_size_bytes(&self) -> (r: Option<u64>)
        ensures
            r == self.size(),
    {
        self.size_bytes
    }

    /// The folder that holds the entry, if any.
    pub fn get_parent(&self) -> (r: Option<ObjectID>)
        ensures
            r == self.parent(),
    {
        self.parent_id
    }

    /// The state.
    pub fn get_state(&self) -> (r: State)
        ensures
            r == self.entry_state(),
    {
        self.state
    }
}

impl<'a, K: Kind> EntryDraft<'a, K> {
    /// An entry of kind `K`; it keeps the size that its kind keeps (none for a folder).
    pub fn new(user_id: ID, name: &'a str, size_bytes: Option<u64>, parent_id: Option<ObjectID>, state: State) -> (r: Self)
        requires
            K::accepts(size_bytes),
        ensures
            r.user() == user_id,
            r.entry_name() == name,
            r.size() == K::kept_size(size_bytes),
            r.parent() == parent_id,
            r.entry_state() == state,
    {
        EntryDraft {
            user_id,
            name,
            size_bytes: K::size_bytes(size_bytes),
            parent_id,
            state,
            _marker: PhantomData,
        }
    }
}

/// An entry as the file table holds it, with its id and its times
/// (milliseconds since the Unix epoch).
pub struct EntryPersisted<K> {
    id: ObjectID,
    user_id: ID,
    name: String,
    size_bytes: Option<u64>,
    parent_id: Option<ObjectID>,
    state: State,
    created_at: i64,
    modified_at: i64,
    _marker: PhantomData<K>,
}

/// What the API tells about an entry.
#[derive(Debug, Clone, PartialEq, Eq)]
pub struct FileDescriptor {
    pub id: ObjectID,
    pub user_id: ID,
    pub size_bytes: u64,
    pub parent_id: Option<ObjectID>,
    pub state: State,
    pub is_folder: bool,
    pub created_at: i64,
    pub modified_at: i64,
}

impl<K: Kind> EntryPersisted<K> {
    /// The stored entry made of a draft, the id the table gave it and its times.
    pub fn new(base: EntryDraft<'_, K>, object_id: ObjectID, created_at: i64, modified_at: i64) -> (r: Self)
        ensures
            r.stored_id() == object_id,
            r.user() == base.user(),
            r.entry_name()@ == base.entry_name()@,
            r.size() == base.size(),
            r.parent() == base.parent(),
            r.entry_state() == base.entry_state(),
            r.created() == created_at,
            r.modified() == modified_at,
    {
        EntryPersisted {
            id: object_id,
            user_id: base.user_id,
            name: base.name.to_owned(),
            size_bytes: base.size_bytes,
            parent_id: base.parent_id,
            state: base.state,
            created_at,
            modified_at,
            _marker: PhantomData,
        }
    }

    /// The id in the file table.
    pub closed spec fn stored_id(&self) -> ObjectID {
        self.id
    }

    /// The owner.
    pub closed spec fn user(&self) -> ID {
        self.user_id
    }

    /// The name.
    pub closed spec fn entry_name(&self) -> String {
        self.name
    }

    /// The size in bytes, if any.
    pub closed spec fn size(&self) -> Option<u64> {
        self.size_bytes
    }

    /// The folder that holds the entry, if any.
    pub closed spec fn parent(&self) -> Option<ObjectID> {
        self.parent_id
    }

    /// The state.
    pub closed spec fn entry_state(&self) -> State {
        self.state
    }

    /// When the entry was created.
    pub closed spec fn created(&self) -> i64 {
        self.created_at
    }

    /// When the entry was last changed.
    pub closed spec fn modified(&self) -> i64 {
        self.modified_at
    }
}

/// Something that can describe itself to the API.
pub trait Descriptor {
    /// The description.
    fn serialize(&self) -> FileDescriptor;
}

impl<K: Kind> Descriptor for EntryPersisted<K> {
    fn serialize(&self) -> (r: FileDescriptor)
        ensures
            r.id == self.stored_id(),
            r.user_id == self.user(),
            r.size_bytes == match self.size() { Some(v) => v, None => 0u64 },
            r.parent_id == self.parent(),
            r.state == self.entry_state(),
            r.is_folder == K::folder(),
            r.created_at == self.created(),
            r.modified_at == self.modified(),
    {
        FileDescriptor {
            id: self.id,
            user_id: self.user_id,
            size_bytes: match self.size_bytes { Some(v) => v, None => 0 },
            parent_id: self.parent_id,
            state: self.state,
            is_folder: K::is_folder(),
            created_at: self.created_at,
            modified_at: self.modified_at,
        }
    }
}

} // verus!
