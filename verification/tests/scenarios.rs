use backend::jwt::{Auth, AuthError, JwtSecret, JWT, TOKEN_LIFETIME_NANOS};
use backend::login::{login_token, login_view_or_dummy, DbError};
use backend::routes::{check_deletion, deletion_after_lookup, deletion_response, me_response, DeletionCheck, DeletionOutcome};
use backend::signup::{prepare_user, validate_signup};
use backend::upload::{file_entry, folder_entry, FileMetaData, FileMetaError, UploadAction, UploadFlow, UploadHeaders, UploadOutcome};
use backend::repository::{CreateFile, CreateFolder, CREATE_FILE_QUERY, CREATE_FOLDER_QUERY};
use backend::user::{StandardUserView, UserLoginView, UserSignupRequest};
use backend::object_storage::ObjectID;
use backend::id::ID;

fn secret() -> JwtSecret {
    JwtSecret::new(b"0123456789abcdef0123456789abcdef".to_vec()).unwrap()
}

fn upload_headers<'a>(
    content_length: Option<&'a str>,
    filename: Option<&'a str>,
    is_folder: Option<&'a str>,
    binary_body: bool,
) -> UploadHeaders<'a> {
    UploadHeaders { content_length, filename, is_folder, parent_id: None, binary_body }
}

fn refusal(h: UploadHeaders) -> (u16, FileMetaError) {
    match FileMetaData::from_headers(h) {
        Ok(_) => panic!("the headers were accepted"),
        Err(e) => e,
    }
}

/// Runs an upload whose outside work succeeds (or whose store fails) and gives the answer;
/// an insert succeeds only when its query gets a value for every placeholder.
fn run_upload(meta: &FileMetaData, store_ok: bool) -> UploadAction {
    let (mut flow, mut action) = UploadFlow::start(meta);
    let id = ObjectID(ID::new(31).unwrap());
    loop {
        let outcome = match action {
            UploadAction::BeginTransaction => UploadOutcome::TransactionBegun(true),
            UploadAction::InsertFolder => {
                let draft = folder_entry(ID::new(1).unwrap(), meta);
                let params = CreateFolder::new(&draft).params();
                let wanted = CREATE_FOLDER_QUERY.chars().filter(|c| *c == '?').count();
                UploadOutcome::Inserted(if params.len() == wanted { Some(id) } else { None })
            }
            UploadAction::InsertFile => {
                let draft = file_entry(ID::new(1).unwrap(), meta);
                let params = CreateFile::new(&draft).params();
                let wanted = CREATE_FILE_QUERY.chars().filter(|c| *c == '?').count();
                UploadOutcome::Inserted(if params.len() == wanted { Some(id) } else { None })
            }
            UploadAction::Store { .. } => UploadOutcome::Stored(store_ok),
            UploadAction::Commit => UploadOutcome::Committed(true),
            done => return done,
        };
        action = flow.step(outcome);
    }
}

#[test]
fn upload_returns_401_without_jwt() {
    assert!(matches!(Auth::from_cookie(None, &secret()), Err((401, AuthError::NoJWT))));
}

#[test]
fn upload_returns_411_without_content_length() {
    let h = upload_headers(None, Some("test.txt"), Some("false"), true);
    assert_eq!(refusal(h).0, 411);
}

#[test]
fn upload_returns_400_without_filename() {
    let h = upload_headers(Some("4"), None, Some("false"), true);
    assert_eq!(refusal(h).0, 400);
}

#[test]
fn upload_returns_400_without_x_is_folder() {
    let h = upload_headers(Some("4"), Some("test.txt"), None, true);
    assert_eq!(refusal(h).0, 400);
}

#[test]
fn upload_returns_400_for_invalid_x_is_folder_value() {
    let h = upload_headers(Some("4"), Some("test.txt"), Some("yes"), true);
    assert_eq!(refusal(h).0, 400);
}

#[test]
fn upload_returns_415_for_wrong_content_type() {
    let h = upload_headers(Some("4"), Some("test.txt"), Some("false"), false);
    assert_eq!(refusal(h).0, 415);
}

#[test]
fn upload_returns_400_for_folder_with_nonzero_size() {
    let h = upload_headers(Some("10"), Some("myfolder"), Some("true"), true);
    assert_eq!(refusal(h), (400, FileMetaError::InvalidCombination));
}

#[test]
fn upload_returns_200_for_valid_file_request() {
    let meta = FileMetaData::from_headers(upload_headers(Some("4"), Some("hello.txt"), Some("false"), true)).unwrap();
    let id = ObjectID(ID::new(31).unwrap());
    assert_eq!(run_upload(&meta, true), UploadAction::Created { id });
}

#[test]
fn upload_returns_200_for_valid_folder_request() {
    let meta = FileMetaData::from_headers(upload_headers(Some("0"), Some("mydir"), Some("true"), true)).unwrap();
    let id = ObjectID(ID::new(31).unwrap());
    assert_eq!(run_upload(&meta, true), UploadAction::Created { id });
}

#[test]
fn upload_returns_500_when_storage_fails() {
    let meta = FileMetaData::from_headers(upload_headers(Some("4"), Some("hello.txt"), Some("false"), true)).unwrap();
    assert_eq!(run_upload(&meta, false), UploadAction::Fail { status: 500, message: "Failed to store file" });
}

#[test]
fn signup_returns_201_for_new_user() {
    let req = UserSignupRequest { name: "Test User", email: "newuser@example.com", password: "password123" };
    assert_eq!(validate_signup(&req), Ok(()));
    assert!(prepare_user(req.name, req.email, req.password).is_ok());
}

#[test]
fn signup_returns_400_for_invalid_email() {
    let req = UserSignupRequest { name: "Test", email: "notanemail", password: "password123" };
    assert_eq!(validate_signup(&req), Err((400, "Invalid email address")));
}

#[test]
fn signup_returns_400_for_short_password() {
    let req = UserSignupRequest { name: "Test", email: "test@example.com", password: "short" };
    assert_eq!(validate_signup(&req), Err((400, "Password length is invalid")));
}

#[test]
fn login_returns_200_after_signup() {
    let s = secret();
    let user = prepare_user("Login Test", "logintest@example.com", "password123").unwrap();
    let view = UserLoginView { id: 3, password_hash: user.hashed_pw.as_str().to_string() };
    let token = login_token(&view, "password123", &s).unwrap();
    assert!(Auth::from_cookie(Some(&token), &s).is_ok());
}

#[test]
fn login_returns_401_for_wrong_password() {
    let user = prepare_user("Wrong Pass", "wrongpass@example.com", "correctpassword").unwrap();
    let view = UserLoginView { id: 4, password_hash: user.hashed_pw.as_str().to_string() };
    assert_eq!(login_token(&view, "wrongpassword", &secret()), Err((401, "Invalid credentials")));
}

#[test]
fn login_returns_401_for_unknown_email() {
    let view = login_view_or_dummy(Ok(None));
    assert_eq!(login_token(&view, "somepassword", &secret()), Err((401, "Invalid credentials")));
}

#[test]
fn logout_returns_401_without_jwt() {
    assert!(matches!(Auth::from_cookie(None, &secret()), Err((401, AuthError::NoJWT))));
}

#[test]
fn logout_returns_400_with_invalid_jwt() {
    assert!(matches!(Auth::from_cookie(Some("not.a.valid.jwt"), &secret()), Err((400, AuthError::JWTError(_)))));
}

#[test]
fn me_returns_200_with_valid_jwt() {
    let s = secret();
    let token = JWT::create(7, TOKEN_LIFETIME_NANOS, &s).unwrap();
    let auth = Auth::from_cookie(Some(&token), &s).unwrap();
    assert_eq!(auth.get_jwt().user_id, 7);
    let view = StandardUserView::from_row("Me Test", "metest@example.com", false).unwrap();
    let (code, user) = me_response(Ok(Some(view))).unwrap();
    assert_eq!(code, 200);
    assert_eq!(user.get_email(), "metest@example.com");
    assert_eq!(user.get_name(), "Me Test");
    assert!(!user.is_admin());
}

#[test]
fn me_returns_401_without_jwt() {
    assert!(matches!(Auth::from_cookie(None, &secret()), Err((401, AuthError::NoJWT))));
}

#[test]
fn me_returns_400_with_invalid_jwt() {
    assert!(matches!(Auth::from_cookie(Some("not.a.valid.jwt"), &secret()), Err((400, AuthError::JWTError(_)))));
}

#[test]
fn me_returns_401_for_nonexistent_user() {
    assert!(matches!(me_response(Ok(None)), Err((401, "User not found"))));
    assert!(matches!(me_response(Err(DbError)), Err((500, _))));
}

#[test]
fn user_can_delete_themselves() {
    assert_eq!(check_deletion(8, 8), DeletionCheck::Permitted);
    assert_eq!(deletion_response(DeletionOutcome::Deleted), Ok(204));
}

#[test]
fn returns_401_without_jwt() {
    assert!(matches!(Auth::from_cookie(None, &secret()), Err((401, AuthError::NoJWT))));
}

#[test]
fn non_admin_cannot_delete_other_user() {
    assert_eq!(check_deletion(8, 9), DeletionCheck::LookUpRequester);
    assert_eq!(deletion_after_lookup(Ok(Some(false))).unwrap_err().0, 401);
}

#[test]
fn admin_can_delete_other_user() {
    assert_eq!(check_deletion(8, 9), DeletionCheck::LookUpRequester);
    assert_eq!(deletion_after_lookup(Ok(Some(true))), Ok(()));
    assert_eq!(deletion_response(DeletionOutcome::Deleted), Ok(204));
}

#[test]
fn returns_401_for_nonexistent_jwt_user() {
    assert_eq!(deletion_after_lookup(Ok(None)).unwrap_err().0, 401);
}
