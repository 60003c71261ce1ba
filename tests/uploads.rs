use filesha::errors::ApiError;
use filesha::models::User;
use filesha::paths::PathError;
use filesha::uploads::{
    check_upload, complete_upload, new_upload, remove_old_pending_uploads, reserve_upload, upload,
    user_path, PendingUploadStore, UploadError, UploadID, UPLOAD_RETENTION_MS,
};

const ROOT: &str = "/srv/storage";

fn user(id: i32, email: &str) -> User {
    User {
        id,
        email: email.to_string(),
        display_name: format!("user {}", id),
        password: "hash".to_string(),
    }
}

#[test]
fn foreign_then_owner_then_gone() {
    let u1 = user(1, "u1@example.org");
    let u2 = user(2, "u2@example.org");
    let mut store = PendingUploadStore::new();
    let t: u128 = 0x1234_5678_9abc_def0_1234_5678_9abc_def0;
    let id = reserve_upload(&mut store, ROOT, u1.clone(), "notes/todo.txt", false, t, 10).unwrap();
    assert_eq!(id, UploadID { upload_id: t });
    let text = uuid_text(t);
    assert_eq!(upload(&store, &text, &u2), Err(UploadError::ForeignUpload));
    let (token, path) = upload(&store, &text, &u1).unwrap();
    assert_eq!(token, t);
    assert_eq!(path, "/srv/storage/1/notes/todo.txt");
    complete_upload(&mut store, token);
    assert_eq!(upload(&store, &text, &u1), Err(UploadError::UnknownUpload));
}

#[test]
fn consume_succeeds_exactly_once() {
    let u1 = user(1, "a@b");
    let mut store = PendingUploadStore::new();
    let id = new_upload(&mut store, ROOT, u1.clone(), "a.bin", false, 0).unwrap();
    assert_eq!(check_upload(&store, id.upload_id, &u1), Ok("/srv/storage/1/a.bin".to_string()));
    complete_upload(&mut store, id.upload_id);
    assert_eq!(check_upload(&store, id.upload_id, &u1), Err(UploadError::UnknownUpload));
}

#[test]
fn foreign_consume_leaves_record() {
    let owner = user(5, "owner@x");
    let intruder = user(6, "intruder@x");
    let mut store = PendingUploadStore::new();
    let id = new_upload(&mut store, ROOT, owner.clone(), "doc.txt", false, 0).unwrap();
    assert_eq!(check_upload(&store, id.upload_id, &intruder), Err(UploadError::ForeignUpload));
    assert_eq!(store.len(), 1);
    assert_eq!(check_upload(&store, id.upload_id, &owner), Ok("/srv/storage/5/doc.txt".to_string()));
}

#[test]
fn same_id_different_fields_is_foreign() {
    let owner = user(5, "owner@x");
    let mut other = owner.clone();
    other.email = "other@x".to_string();
    let mut store = PendingUploadStore::new();
    let id = new_upload(&mut store, ROOT, owner, "doc.txt", false, 0).unwrap();
    assert_eq!(check_upload(&store, id.upload_id, &other), Err(UploadError::ForeignUpload));
}

#[test]
fn reserve_refusals_leave_store_unchanged() {
    let u = user(3, "c@d");
    let mut store = PendingUploadStore::new();
    assert_eq!(
        reserve_upload(&mut store, ROOT, u.clone(), "../x", false, 1, 0),
        Err(UploadError::InvalidPath(PathError::PathTraversalRejected))
    );
    assert_eq!(
        reserve_upload(&mut store, ROOT, u.clone(), "/x", false, 1, 0),
        Err(UploadError::InvalidPath(PathError::AbsolutePathRejected))
    );
    assert_eq!(
        reserve_upload(&mut store, ROOT, u.clone(), "photos", true, 1, 0),
        Err(UploadError::TargetIsDirectory)
    );
    assert_eq!(store.len(), 0);
}

#[test]
fn malformed_and_unknown_ids() {
    let u = user(3, "c@d");
    let store = PendingUploadStore::new();
    assert_eq!(upload(&store, "not-a-uuid", &u), Err(UploadError::InvalidUploadId));
    assert_eq!(upload(&store, "", &u), Err(UploadError::InvalidUploadId));
    assert_eq!(
        upload(&store, "67e55044-10b1-426f-9247-bb680e5fe0c8", &u),
        Err(UploadError::UnknownUpload)
    );
}

#[test]
fn token_accepted_in_simple_and_braced_forms() {
    let u = user(4, "e@f");
    let mut store = PendingUploadStore::new();
    let t: u128 = 0x67e5_5044_10b1_426f_9247_bb68_0e5f_e0c8;
    reserve_upload(&mut store, ROOT, u.clone(), "x", false, t, 0).unwrap();
    for text in [
        "67e55044-10b1-426f-9247-bb680e5fe0c8",
        "67e5504410b1426f9247bb680e5fe0c8",
        "{67e55044-10b1-426f-9247-bb680e5fe0c8}",
        "urn:uuid:67e55044-10b1-426f-9247-bb680e5fe0c8",
    ] {
        assert_eq!(upload(&store, text, &u).map(|(token, _)| token), Ok(t), "{}", text);
    }
    assert_eq!(upload(&store, "67e55044-10b1-426f-9247-bb680e5fe0c9", &u), Err(UploadError::UnknownUpload));
}

#[test]
fn pending_upload_expires_after_a_day() {
    let u = user(1, "a@b");
    let t = 1_000_000;
    for (now, present) in [
        (t + UPLOAD_RETENTION_MS - 1, true),
        (t + UPLOAD_RETENTION_MS, false),
        (t + UPLOAD_RETENTION_MS + 1, false),
    ] {
        let mut store = PendingUploadStore::new();
        let id = new_upload(&mut store, ROOT, u.clone(), "f", false, t).unwrap();
        remove_old_pending_uploads(&mut store, now);
        assert_eq!(store.contains(id.upload_id), present, "now = {}", now);
    }
}

#[test]
fn user_path_is_inside_user_root() {
    let u = user(12, "x@y");
    assert_eq!(user_path(ROOT, &u, "a/b"), Ok("/srv/storage/12/a/b".to_string()));
    assert_eq!(user_path(ROOT, &u, ""), Ok("/srv/storage/12/".to_string()));
}

#[test]
fn upload_errors_map_to_statuses() {
    let cases = [
        (UploadError::TargetIsDirectory, 400, "Paths must point to a file"),
        (UploadError::InvalidUploadId, 400, "Invalid upload ID"),
        (UploadError::UnknownUpload, 404, "Upload ID not in use"),
        (UploadError::ForeignUpload, 401, "A different user created this upload"),
        (
            UploadError::InvalidPath(PathError::AbsolutePathRejected),
            400,
            "Absolute paths are not allowed",
        ),
    ];
    for (e, status, message) in cases {
        match e.to_api_error() {
            ApiError::Custom(s, body) => {
                assert_eq!(s, status);
                assert_eq!(body.message, message);
            }
            _ => panic!("wrong error"),
        }
    }
}

fn uuid_text(t: u128) -> String {
    uuid::Uuid::from_u128(t).to_string()
}
