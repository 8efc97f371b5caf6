use backend::upload::{
    FileMetaData, FileMetaError, UploadHeaders, UploadFlow, UploadAction, UploadOutcome, folder_entry, file_entry,
};
use backend::routes::{
    check_deletion, deletion_after_lookup, deletion_response, me_response, health, parent_folder, list_response,
    DeletionCheck, DeletionOutcome, FileRow,
};
use backend::login::{login_view_or_dummy, login_token, DbError, DUMMY_HASH, UNKNOWN_USER_ID};
use backend::user::{StandardUserView, UserLoginView};
use backend::status::status_text;
use backend::id::ID;
use backend::object_storage::ObjectID;
use backend::file::State;
use backend::jwt::{JwtSecret, JWT};
use backend::signup::prepare_user;

fn headers<'a>(cl: Option<&'a str>, name: Option<&'a str>, folder: Option<&'a str>, parent: Option<&'a str>, binary: bool) -> UploadHeaders<'a> {
    UploadHeaders { content_length: cl, filename: name, is_folder: folder, parent_id: parent, binary_body: binary }
}

fn meta_err(h: UploadHeaders) -> (u16, FileMetaError) {
    match FileMetaData::from_headers(h) {
        Ok(_) => panic!("headers accepted"),
        Err(e) => e,
    }
}

#[test]
fn upload_headers_refusals() {
    assert_eq!(meta_err(headers(None, Some("test.txt"), Some("false"), None, true)), (411, FileMetaError::MissingContentLength));
    assert_eq!(meta_err(headers(Some("x"), Some("test.txt"), Some("false"), None, true)), (400, FileMetaError::InvalidContentLength));
    assert_eq!(meta_err(headers(Some("4"), None, Some("false"), None, true)), (400, FileMetaError::MissingFilename));
    assert_eq!(meta_err(headers(Some("4"), Some("test.txt"), None, None, true)), (400, FileMetaError::MissingXFolder));
    assert_eq!(meta_err(headers(Some("4"), Some("test.txt"), Some("yes"), None, true)), (400, FileMetaError::InvalidXFolderValue));
    assert_eq!(meta_err(headers(Some("4"), Some("test.txt"), Some("false"), None, false)), (415, FileMetaError::InvalidContentType));
    assert_eq!(meta_err(headers(Some("4"), Some("myfolder"), Some("true"), None, true)), (400, FileMetaError::InvalidCombination));
    assert_eq!(meta_err(headers(Some("0"), Some("myfolder"), Some("1"), Some("abc"), true)), (400, FileMetaError::InvalidParentUuid));
}

#[test]
fn upload_headers_accepted() {
    let m = FileMetaData::from_headers(headers(Some("4"), Some("hello.txt"), Some("0"), Some("9"), true)).unwrap();
    assert_eq!(m.size, Some(4));
    assert_eq!(m.name, "hello.txt");
    assert!(!m.is_folder);
    assert_eq!(m.parent_id.unwrap().0.get(), 9);
    let f = FileMetaData::from_headers(headers(Some("0"), Some("mydir"), Some("true"), None, true)).unwrap();
    assert_eq!(f.size, None);
    assert!(f.is_folder);
    assert!(f.parent_id.is_none());
}

#[test]
fn upload_drafts() {
    let user = ID::new(5).unwrap();
    let f = FileMetaData::from_headers(headers(Some("0"), Some("mydir"), Some("true"), None, true)).unwrap();
    let d = folder_entry(user, &f);
    assert_eq!(d.get_state(), State::Created);
    assert_eq!(d.get_size_bytes(), None);
    let m = FileMetaData::from_headers(headers(Some("12"), Some("a.bin"), Some("false"), None, true)).unwrap();
    let e = file_entry(user, &m);
    assert_eq!(e.get_state(), State::Pending);
    assert_eq!(e.get_size_bytes(), Some(12));
    assert_eq!(e.get_name(), "a.bin");
    assert_eq!(e.get_user().get(), 5);
}

#[test]
fn upload_flow_file() {
    let m = FileMetaData::from_headers(headers(Some("12"), Some("a.bin"), Some("false"), None, true)).unwrap();
    let (mut flow, first) = UploadFlow::start(&m);
    assert_eq!(first, UploadAction::BeginTransaction);
    assert_eq!(flow.step(UploadOutcome::TransactionBegun(true)), UploadAction::InsertFile);
    let id = ObjectID(ID::new(77).unwrap());
    assert_eq!(flow.step(UploadOutcome::Inserted(Some(id))), UploadAction::Store { id, limit: 12 });
    assert_eq!(flow.step(UploadOutcome::Stored(true)), UploadAction::Commit);
    assert_eq!(flow.step(UploadOutcome::Committed(true)), UploadAction::Created { id });
}

#[test]
fn upload_flow_failures() {
    let m = FileMetaData::from_headers(headers(Some("12"), Some("a.bin"), Some("false"), None, true)).unwrap();
    let (mut flow, _) = UploadFlow::start(&m);
    assert_eq!(flow.step(UploadOutcome::TransactionBegun(false)), UploadAction::Fail { status: 500, message: "Database error" });
    let (mut flow, _) = UploadFlow::start(&m);
    flow.step(UploadOutcome::TransactionBegun(true));
    assert_eq!(flow.step(UploadOutcome::Inserted(None)), UploadAction::Fail { status: 500, message: "Failed to create file record" });
    let (mut flow, _) = UploadFlow::start(&m);
    flow.step(UploadOutcome::TransactionBegun(true));
    flow.step(UploadOutcome::Inserted(Some(ObjectID(ID::new(1).unwrap()))));
    assert_eq!(flow.step(UploadOutcome::Stored(false)), UploadAction::Fail { status: 500, message: "Failed to store file" });
    let f = FileMetaData::from_headers(headers(Some("0"), Some("mydir"), Some("true"), None, true)).unwrap();
    let (mut flow, _) = UploadFlow::start(&f);
    assert_eq!(flow.step(UploadOutcome::TransactionBegun(true)), UploadAction::InsertFolder);
    assert_eq!(flow.step(UploadOutcome::Inserted(None)), UploadAction::Fail { status: 500, message: "Failed to create folder" });
    let (mut flow, _) = UploadFlow::start(&f);
    flow.step(UploadOutcome::TransactionBegun(true));
    assert_eq!(flow.step(UploadOutcome::Inserted(Some(ObjectID(ID::new(2).unwrap())))), UploadAction::Commit);
    assert_eq!(flow.step(UploadOutcome::Committed(false)), UploadAction::Fail { status: 500, message: "Transaction commit failed" });
}

#[test]
fn deletion_rules() {
    assert_eq!(check_deletion(4, 4), DeletionCheck::Permitted);
    assert_eq!(check_deletion(4, 5), DeletionCheck::LookUpRequester);
    assert_eq!(deletion_after_lookup(Ok(Some(true))), Ok(()));
    assert_eq!(deletion_after_lookup(Ok(Some(false))), Err((401, "Unauthorized: you do not have permission to perform this action.")));
    assert_eq!(deletion_after_lookup(Ok(None)), Err((401, "Unauthorized: user account could not be verified.")));
    assert_eq!(deletion_after_lookup(Err(DbError)), Err((500, "An internal error occurred. Please try again later.")));
    assert_eq!(deletion_response(DeletionOutcome::Deleted), Ok(204));
    assert_eq!(deletion_response(DeletionOutcome::BeginFailed), Err((500, "Failed to process request. Please try again later.")));
    assert_eq!(deletion_response(DeletionOutcome::DeleteFailed), Err((500, "Failed to delete user. Please try again later.")));
    assert_eq!(deletion_response(DeletionOutcome::CommitFailed), Err((500, "Failed to finalize deletion. Please try again later.")));
}

#[test]
fn me_answers() {
    let v = StandardUserView::from_row("Me Test", "metest@example.com", false).unwrap();
    let (code, w) = me_response(Ok(Some(v))).unwrap();
    assert_eq!(code, 200);
    assert_eq!(w.get_name(), "Me Test");
    assert_eq!(w.get_email(), "metest@example.com");
    assert!(!w.is_admin());
    assert_eq!(me_response(Ok(None)).err(), Some((401, "User not found")));
    assert_eq!(me_response(Err(DbError)).err(), Some((500, "Internal server error")));
}

#[test]
fn health_check() {
    assert_eq!(health(), "Healthy");
}

#[test]
fn status_lines() {
    assert_eq!(status_text(200), "200 OK");
    assert_eq!(status_text(418), "418 I'm a teapot");
    assert_eq!(status_text(504), "504 Gateway Timeout");
    assert_eq!(status_text(299), "??? Unknown");
}

#[test]
fn files_parent_and_rows() {
    assert_eq!(parent_folder(None), Ok(None));
    assert_eq!(parent_folder(Some("67e55044-10b1-426f-9247-bb680e5fe0c8")), Ok(Some(0x67e5504410b1426f9247bb680e5fe0c8)));
    assert_eq!(parent_folder(Some("not-a-uuid")), Err((400, "Invalid parent_id UUID")));
    let rows = vec![FileRow { id: 1, name: "a".to_string(), size_bytes: 3, is_folder: false, created_at: 10, modified_at: 11 }];
    let (code, out) = list_response(Ok(rows)).unwrap();
    assert_eq!(code, 200);
    assert_eq!(out.len(), 1);
    assert_eq!(out[0].name, "a");
    assert_eq!(out[0].size_bytes, 3);
    assert!(list_response(Err(DbError)).is_err());
}

#[test]
fn login_with_unknown_address_uses_dummy_hash() {
    let v = login_view_or_dummy(Ok(None));
    assert_eq!(v.id, UNKNOWN_USER_ID);
    assert_eq!(v.password_hash, DUMMY_HASH);
    let w = login_view_or_dummy(Err(DbError));
    assert_eq!(w.id, -1);
    let known = login_view_or_dummy(Ok(Some(UserLoginView { id: 9, password_hash: "h".to_string() })));
    assert_eq!(known.id, 9);
}

#[test]
fn login_after_signup() {
    let secret = JwtSecret::new(vec![9u8; 40]).unwrap();
    let user = prepare_user("Login Test", "logintest@example.com", "password123").unwrap();
    let view = UserLoginView { id: 12, password_hash: user.hashed_pw.as_str().to_string() };
    let token = login_token(&view, "password123", &secret).unwrap();
    assert_eq!(JWT::decode(&token, &secret).unwrap().user_id, 12);
    assert_eq!(login_token(&view, "wrongpassword", &secret), Err((401, "Invalid credentials")));
    let dummy = login_view_or_dummy(Ok(None));
    assert_eq!(login_token(&dummy, "somepassword", &secret), Err((401, "Invalid credentials")));
}
