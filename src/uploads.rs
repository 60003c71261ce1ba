use crate::errors::{ApiError, BAD_REQUEST, NOT_FOUND, UNAUTHORIZED, custom};
use crate::models::{User, same_user};
use crate::paths::{
    PathError, lemma_resolved_under_root, resolve, resolve_spec, user_root_path,
    user_root_spec,
};
use crate::store::{ExpiringStore, Stamped, swept};
use crate::tokens::{new_token, parse_token, parsed_token};
use vstd::prelude::*;

verus! {

/// How long a reservation waits for its bytes: one day, in milliseconds.
pub const UPLOAD_RETENTION_MS: u64 = 86_400_000;

/// A reserved upload: where its bytes go and who may send them.
pub struct PendingUpload {
    pub path: String,
    pub user: User,
}

/// Reservations by token.
pub type PendingUploadStore = ExpiringStore<PendingUpload>;

/// The token that a reservation hands back to its owner.
#[derive(Debug, Clone, Copy, PartialEq, Eq, Structural)]
pub struct UploadID {
    pub upload_id: u128,
}

/// Why a reservation or its consumption was refused.
#[derive(Debug, Clone, Copy, PartialEq, Eq, Structural)]
pub enum UploadError {
    /// The requested path left the sandbox.
    InvalidPath(PathError),
    /// The requested path names an existing directory.
    TargetIsDirectory,
    /// The token is not a well-formed UUID.
    InvalidUploadId,
    /// No reservation is held under the token.
    UnknownUpload,
    /// The reservation belongs to another user.
    ForeignUpload,
}

/// Where an upload of `raw` by the user with identifier `user_id` lands.
pub open spec fn user_path_spec(storage_root: Seq<char>, user_id: int, raw: Seq<char>) -> Result<
    Seq<char>,
    PathError,
> {
    resolve_spec(user_root_spec(storage_root, user_id), raw)
}

/// `m` holds, under `token`, a reservation of `path` for `user` made at
/// `now`.
pub open spec fn holds_reservation(
    m: Map<u128, Stamped<PendingUpload>>,
    token: u128,
    path: Seq<char>,
    user: User,
    now: u64,
) -> bool {
    &&& m.contains_key(token)
    &&& m[token].value.path@ == path
    &&& m[token].value.user == user
    &&& m[token].created == now
}

/// The relation between the store before and after a reservation under
/// `token`, and its result.
pub open spec fn reserved(
    before: Map<u128, Stamped<PendingUpload>>,
    after: Map<u128, Stamped<PendingUpload>>,
    storage_root: Seq<char>,
    user: User,
    raw: Seq<char>,
    target_is_dir: bool,
    token: u128,
    now: u64,
    r: Result<UploadID, UploadError>,
) -> bool {
    match user_path_spec(storage_root, user.id as int, raw) {
        Err(e) => r == Err::<UploadID, UploadError>(UploadError::InvalidPath(e)) && after == before,
        Ok(path) => if target_is_dir {
            r == Err::<UploadID, UploadError>(UploadError::TargetIsDirectory) && after == before
        } else {
            &&& r == Ok::<UploadID, UploadError>(UploadID { upload_id: token })
            &&& holds_reservation(after, token, path, user, now)
            &&& after.remove(token) == before.remove(token)
        },
    }
}

/// The outcome of presenting `token` as `user`: the destination when the
/// user holds the reservation.
pub open spec fn check_spec(m: Map<u128, Stamped<PendingUpload>>, token: u128, user: User) -> Result<
    Seq<char>,
    UploadError,
> {
    if !m.contains_key(token) {
        Err(UploadError::UnknownUpload)
    } else if !same_user(&m[token].value.user, &user) {
        Err(UploadError::ForeignUpload)
    } else {
        Ok(m[token].value.path@)
    }
}

/// The destination of an upload of `raw` by `user`, inside the user's
/// sandbox under `storage_root`.
pub fn user_path(storage_root: &str, user: &User, raw: &str) -> (r: Result<String, PathError>)
    ensures
        match (r, user_path_spec(storage_root@, user.id as int, raw@)) {
            (Ok(p), Ok(expected)) => p@ == expected,
            (Err(e), Err(expected)) => e == expected,
            _ => false,
        },
{
    let root = user_root_path(storage_root, user.id);
    resolve(root.as_str(), raw)
}

/// Reserves, under `token`, an upload of `raw` by `user`.
/// `target_is_dir` tells whether the destination exists as a directory.
/// Nothing on disk changes.
pub fn reserve_upload(
    uploads: &mut PendingUploadStore,
    storage_root: &str,
    user: User,
    raw: &str,
    target_is_dir: bool,
    token: u128,
    now: u64,
) -> (r: Result<UploadID, UploadError>)
    ensures
        reserved(old(uploads)@, final(uploads)@, storage_root@, user, raw@, target_is_dir, token, now, r),
{
    let path = match user_path(storage_root, &user, raw) {
        Ok(p) => p,
        Err(e) => return Err(UploadError::InvalidPath(e)),
    };
    if target_is_dir {
        return Err(UploadError::TargetIsDirectory);
    }
    let ghost before = uploads@;
    uploads.insert(token, PendingUpload { path, user }, now);
    assert(uploads@.remove(token) =~= before.remove(token));
    Ok(UploadID { upload_id: token })
}

/// Reserves an upload of `raw` by `user` under a fresh random token.
pub fn new_upload(
    uploads: &mut PendingUploadStore,
    storage_root: &str,
    user: User,
    raw: &str,
    target_is_dir: bool,
    now: u64,
) -> (r: Result<UploadID, UploadError>)
    ensures
        exists|token: u128|
            reserved(
                old(uploads)@,
                final(uploads)@,
                storage_root@,
                user,
                raw@,
                target_is_dir,
                token,
                now,
                r,
            ),
{
    let token = new_token();
    reserve_upload(uploads, storage_root, user, raw, target_is_dir, token, now)
}

/// The destination reserved under `token`, when `user` holds that
/// reservation. The store is left as it is.
pub fn check_upload(uploads: &PendingUploadStore, token: u128, user: &User) -> (r: Result<
    String,
    UploadError,
>)
    ensures
        match (r, check_spec(uploads@, token, *user)) {
            (Ok(p), Ok(expected)) => p@ == expected,
            (Err(e), Err(expected)) => e == expected,
            _ => false,
        },
{
    match uploads.get(token) {
        None => Err(UploadError::UnknownUpload),
        Some(entry) => {
            if entry.value.user != *user {
                Err(UploadError::ForeignUpload)
            } else {
                Ok(entry.value.path.clone())
            }
        },
    }
}

/// Reads the token text `id` and checks it as `check_upload` does: the
/// first step of consuming a reservation, before its bytes are written.
pub fn upload(uploads: &PendingUploadStore, id: &str, user: &User) -> (r: Result<
    (u128, String),
    UploadError,
>)
    ensures
        match parsed_token(id@) {
            None => r == Err::<(u128, String), UploadError>(UploadError::InvalidUploadId),
            Some(token) => match (r, check_spec(uploads@, token, *user)) {
                (Ok((t, p)), Ok(expected)) => t == token && p@ == expected,
                (Err(e), Err(expected)) => e == expected,
                _ => false,
            },
        },
{
    let token = match parse_token(id) {
        Some(t) => t,
        None => return Err(UploadError::InvalidUploadId),
    };
    match check_upload(uploads, token, user) {
        Ok(p) => Ok((token, p)),
        Err(e) => Err(e),
    }
}

/// Retires the reservation under `token` once its bytes are written.
pub fn complete_upload(uploads: &mut PendingUploadStore, token: u128)
    ensures
        final(uploads)@ == old(uploads)@.remove(token),
{
    uploads.remove(token);
}

/// Evicts the reservations that are a day old or older at `now`.
pub fn remove_old_pending_uploads(uploads: &mut PendingUploadStore, now: u64)
    ensures
        final(uploads)@ == swept(old(uploads)@, now as int, UPLOAD_RETENTION_MS as int),
{
    uploads.sweep(now, UPLOAD_RETENTION_MS);
}

/// A reservation, presented by its owner, yields its destination; once it
/// is retired, presenting the token again finds nothing.
pub proof fn lemma_consumed_once(
    m: Map<u128, Stamped<PendingUpload>>,
    token: u128,
    path: Seq<char>,
    user: User,
    now: u64,
)
    requires
        holds_reservation(m, token, path, user, now),
    ensures
        check_spec(m, token, user) == Ok::<Seq<char>, UploadError>(path),
        check_spec(m.remove(token), token, user) == Err::<Seq<char>, UploadError>(
            UploadError::UnknownUpload,
        ),
{
}

/// A reservation presented by another user is refused as foreign, and the
/// owner can still redeem it afterwards.
pub proof fn lemma_foreign_refused(
    m: Map<u128, Stamped<PendingUpload>>,
    token: u128,
    path: Seq<char>,
    user: User,
    other: User,
    now: u64,
)
    requires
        holds_reservation(m, token, path, user, now),
        !same_user(&other, &user),
    ensures
        check_spec(m, token, other) == Err::<Seq<char>, UploadError>(UploadError::ForeignUpload),
        check_spec(m, token, user) == Ok::<Seq<char>, UploadError>(path),
{
}

/// A successful reservation points inside its owner's sandbox: its
/// destination starts with the owner's root under the storage root.
pub proof fn lemma_reservation_in_sandbox(
    before: Map<u128, Stamped<PendingUpload>>,
    after: Map<u128, Stamped<PendingUpload>>,
    storage_root: Seq<char>,
    user: User,
    raw: Seq<char>,
    target_is_dir: bool,
    token: u128,
    now: u64,
    r: Result<UploadID, UploadError>,
)
    requires
        reserved(before, after, storage_root, user, raw, target_is_dir, token, now, r),
        r is Ok,
    ensures
        after.contains_key(token),
        ({
            let root = user_root_spec(storage_root, user.id as int);
            let path = after[token].value.path@;
            path.len() >= root.len() && path.subrange(0, root.len() as int) == root
        }),
{
    lemma_resolved_under_root(user_root_spec(storage_root, user.id as int), raw);
}

impl UploadError {
    /// The error that goes out to the client.
    pub fn to_api_error(self) -> (r: ApiError)
        ensures
            r matches ApiError::Custom(status, body) && status == match self {
                UploadError::InvalidPath(_) => BAD_REQUEST,
                UploadError::TargetIsDirectory => BAD_REQUEST,
                UploadError::InvalidUploadId => BAD_REQUEST,
                UploadError::UnknownUpload => NOT_FOUND,
                UploadError::ForeignUpload => UNAUTHORIZED,
            },
    {
        match self {
            UploadError::InvalidPath(e) => e.to_api_error(),
            UploadError::TargetIsDirectory => custom("Paths must point to a file", BAD_REQUEST),
            UploadError::InvalidUploadId => custom("Invalid upload ID", BAD_REQUEST),
            UploadError::UnknownUpload => custom("Upload ID not in use", NOT_FOUND),
            UploadError::ForeignUpload => custom(
                "A different user created this upload",
                UNAUTHORIZED,
            ),
        }
    }
}

} // verus!
