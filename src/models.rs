use crate::paths::{PathError, path_check, validate_relative};
use vstd::prelude::*;

verus! {

/// A registered user as the user collaborator stores it.
#[derive(Clone, Debug)]
pub struct User {
    pub id: i32,
    pub email: String,
    pub display_name: String,
    pub password: String,
}

/// Two users are the same identity when every field agrees.
pub open spec fn same_user(a: &User, b: &User) -> bool {
    &&& a.id == b.id
    &&& a.email@ == b.email@
    &&& a.display_name@ == b.display_name@
    &&& a.password@ == b.password@
}

impl PartialEq for User {
    fn eq(&self, other: &User) -> (r: bool) {
        self.id == other.id && self.email == other.email && self.display_name
            == other.display_name && self.password == other.password
    }
}

impl vstd::std_specs::cmp::PartialEqSpecImpl for User {
    open spec fn obeys_eq_spec() -> bool {
        true
    }

    open spec fn eq_spec(&self, other: &User) -> bool {
        same_user(self, other)
    }
}

/// The fields of a user that is being registered.
pub struct UserCreate {
    pub email: String,
    pub display_name: String,
    pub password: String,
}

/// What a client learns of a user: everything but the password hash.
pub struct UserResult {
    pub id: i32,
    pub email: String,
    pub display_name: String,
}

impl UserResult {
    /// The public fields of `user`.
    pub fn from(user: &User) -> (r: UserResult)
        ensures
            r.id == user.id,
            r.email@ == user.email@,
            r.display_name@ == user.display_name@,
    {
        UserResult {
            id: user.id,
            email: user.email.clone(),
            display_name: user.display_name.clone(),
        }
    }
}

/// The credentials of a login attempt.
pub struct UserLogin {
    pub email: String,
    pub password: String,
}

/// The fields of a registration request.
pub struct RegistrationInfo {
    pub email: String,
    pub display_name: String,
    pub password: String,
}

/// The answer to a registration request.
pub struct RegistrationInfoResponse {
    pub email: String,
    pub display_name: String,
}

/// A plain acknowledgement for the client.
pub struct Message {
    pub message: String,
}

/// A path as a client sends it, relative to the client's own root.
pub struct JsonPath {
    pub path: String,
}

impl JsonPath {
    /// The path, once it is known to be relative and free of `..`
    /// segments.
    pub fn to_pathbuf(self) -> (r: Result<String, PathError>)
        ensures
            match path_check(self.path@) {
                Ok(()) => r matches Ok(p) && p@ == self.path@,
                Err(e) => r == Err::<String, PathError>(e),
            },
    {
        match validate_relative(self.path.as_str()) {
            Ok(()) => Ok(self.path),
            Err(e) => Err(e),
        }
    }
}

/// Whether a listed entry is a file or a directory.
#[derive(Debug, Clone, Copy, PartialEq, Eq, Structural)]
pub enum FileSystemElementType {
    File,
    Directory,
}

/// One entry of a directory listing; directories are listed with size 0.
pub struct FileSystemElement {
    pub element_type: FileSystemElementType,
    pub name: String,
    pub bytes: u64,
}

/// A directory listing.
pub struct DirContents {
    pub contents: Vec<FileSystemElement>,
}

/// A share link and the path it points at.
pub struct Share {
    pub link: String,
    pub path: String,
}

} // verus!
