use vstd::prelude::*;
use vstd::string::*;
use crate::fixed_len_str::FixedSizedStr;
use crate::MAX_UTF8_BYTES;

verus! {

/// The profile of a user that the API hands out.
pub struct StandardUserView {
    name: FixedSizedStr<MAX_UTF8_BYTES>,
    email: FixedSizedStr<MAX_UTF8_BYTES>,
    is_admin: bool,
}

/// A text column of a user row does not fit into `MAX_UTF8_BYTES`.
#[derive(Debug, Clone, Copy, PartialEq, Eq)]
pub enum UserRowError {
    NameTooLong,
    EmailTooLong,
}

impl StandardUserView {
    /// The bytes of the name.
    pub closed spec fn name_bytes(&self) -> Seq<u8> {
        self.name@
    }

    /// The bytes of the e-mail address.
    pub closed spec fn email_bytes(&self) -> Seq<u8> {
        self.email@
    }

    /// Whether the user is an administrator.
    pub closed spec fn admin(&self) -> bool {
        self.is_admin
    }

    /// The profile of a user row; refused when the name or the e-mail address is
    /// longer than `MAX_UTF8_BYTES` bytes (the name is checked first).
    pub fn from_row(name: &str, email: &str, is_admin: bool) -> (r: Result<StandardUserView, UserRowError>)
        ensures
            name.spec_bytes().len() > MAX_UTF8_BYTES ==> r == Err::<StandardUserView, UserRowError>(UserRowError::NameTooLong),
            name.spec_bytes().len() <= MAX_UTF8_BYTES && email.spec_bytes().len() > MAX_UTF8_BYTES ==>
                r == Err::<StandardUserView, UserRowError>(UserRowError::EmailTooLong),
            r is Ok <==> name.spec_bytes().len() <= MAX_UTF8_BYTES && email.spec_bytes().len() <= MAX_UTF8_BYTES,
            r matches Ok(v) ==> v.name_bytes() == name.spec_bytes() && v.email_bytes() == email.spec_bytes() && v.admin() == is_admin,
    {
        let name: FixedSizedStr<MAX_UTF8_BYTES> = match FixedSizedStr::new_from_str(name) {
            Ok(s) => s,
            Err(_) => { return Err(UserRowError::NameTooLong); },
        };
        let email: FixedSizedStr<MAX_UTF8_BYTES> = match FixedSizedStr::new_from_str(email) {
            Ok(s) => s,
            Err(_) => { return Err(UserRowError::EmailTooLong); },
        };
        Ok(StandardUserView { name, email, is_admin })
    }

    /// The name.
    pub fn get_name(&self) -> (r: &str)
        ensures
            r.spec_bytes() == self.name_bytes(),
    {
        self.name.as_str()
    }

    /// The e-mail address.
    pub fn get_email(&self) -> (r: &str)
        ensures
            r.spec_bytes() == self.email_bytes(),
    {
        self.email.as_str()
    }

    /// Whether the user is an administrator.
    pub fn is_admin(&self) -> (r: bool)
        ensures
            r == self.admin(),
    {
        self.is_admin
    }
}

/// The body of a login request.
pub struct UserLoginRequest<'a> {
    pub email: &'a str,
    pub password: &'a str,
}

/// The body of a signup request.
pub struct UserSignupRequest<'a> {
    pub email: &'a str,
    pub password: &'a str,
    pub name: &'a str,
}

/// What a login needs of a user: the id and the stored password hash.
pub struct UserLoginView {
    pub id: i32,
    pub password_hash: String,
}

/// The columns of a new user row.
pub struct UserCreationView<'a> {
    name: &'a FixedSizedStr<MAX_UTF8_BYTES>,
    email: &'a FixedSizedStr<MAX_UTF8_BYTES>,
}

impl<'a> UserCreationView<'a> {
    /// The row for the given name and e-mail address.
    pub fn new(name: &'a FixedSizedStr<MAX_UTF8_BYTES>, email: &'a FixedSizedStr<MAX_UTF8_BYTES>) -> (r: Self)
        ensures
            r.name_bytes() == name@,
            r.email_bytes() == email@,
    {
        UserCreationView { name, email }
    }

    /// The bytes of the name.
    pub closed spec fn name_bytes(&self) -> Seq<u8> {
        self.name@
    }

    /// The bytes of the e-mail address.
    pub closed spec fn email_bytes(&self) -> Seq<u8> {
        self.email@
    }

    /// The name.
    pub fn get_name(&self) -> (r: &str)
        ensures
            r.spec_bytes() == self.name_bytes(),
    {
        self.name.as_str()
    }

    /// The e-mail address.
    pub fn get_email(&self) -> (r: &str)
        ensures
            r.spec_bytes() == self.email_bytes(),
    {
        self.email.as_str()
    }
}

} // verus!
