use backend::fixed_len_str::FixedSizedStr;
use backend::id::{ID, IdDecodeError};
use backend::file::{State, InvalidStateCode, EntryDraft, EntryPersisted, File, Directory, Descriptor};
use backend::user::{StandardUserView, UserRowError, UserCreationView};
use backend::repository::{
    CreateUser, DeleteUser, RowNotFound, SqlValue, CreateFile, CreateFolder, ListFiles, GetFile, object_id_from_insert,
    UserRepository,
};
use backend::object_storage::ObjectID;
use backend::repository::{CREATE_FILE_QUERY, CREATE_FOLDER_QUERY, DELETE_USER, GET_FILE_QUERY, LIST_FILES_QUERY};
use backend::email::{Email, MailPart, attempts_for, after_attempt, SendAttempt, SendDecision, Severity, signup_mail_response, RETRIES};
use backend::MAX_UTF8_BYTES;

#[test]
fn fixed_str_keeps_text() {
    let s: FixedSizedStr<MAX_UTF8_BYTES> = FixedSizedStr::new_from_str("test@gmail.com").unwrap();
    assert_eq!(s.as_str(), "test@gmail.com");
    assert_eq!(s.len(), 14);
    let long_name: String = "\u{10348}".repeat(40);
    assert_eq!(long_name.len(), MAX_UTF8_BYTES);
    let t: FixedSizedStr<MAX_UTF8_BYTES> = FixedSizedStr::new_from_str(&long_name).unwrap();
    assert_eq!(t.as_str(), long_name);
    assert!(FixedSizedStr::<MAX_UTF8_BYTES>::new_from_str(&format!("{long_name}x")).is_err());
    assert!(FixedSizedStr::<4>::new_from_str("abcde").is_err());
    assert_eq!(FixedSizedStr::<0>::new_from_str("").unwrap().as_str(), "");
}

#[test]
fn id_rules() {
    assert!(ID::new(0).is_none());
    assert_eq!(ID::new(3).unwrap().get(), 3);
    assert_eq!(ID::from_param("17").unwrap().get(), 17);
    assert!(ID::from_param("0").is_err());
    assert_eq!(ID::decode(None), Err(IdDecodeError::Null));
    assert_eq!(ID::decode(Some(0)), Err(IdDecodeError::Zero));
    assert_eq!(ID::decode(Some(8)).unwrap().get(), 8);
    assert_eq!(ID::new(1234567).unwrap().to_string(), "1234567");
    let id = ID::new(u32::MAX).unwrap();
    assert_eq!(ID::from_param(&id.to_string()).unwrap(), id);
    assert!(ID::from_user_id(-1).is_none());
    assert_eq!(ID::from_user_id(4).unwrap().get(), 4);
}

#[test]
fn state_codes() {
    assert_eq!(State::try_from(1), Ok(State::Created));
    assert_eq!(State::try_from(2), Ok(State::Deleted));
    assert_eq!(State::try_from(3), Ok(State::Pending));
    assert_eq!(State::try_from(0), Err(InvalidStateCode));
    assert_eq!(State::try_from(4), Err(InvalidStateCode));
    for s in [State::Created, State::Deleted, State::Pending] {
        assert_eq!(State::try_from(u16::from(s)), Ok(s));
    }
    assert_eq!(InvalidStateCode.message(), "Invalid conversion, check database schema");
}

#[test]
fn entries_and_descriptors() {
    let user = ID::new(2).unwrap();
    let parent = ObjectID(ID::new(5).unwrap());
    let draft: EntryDraft<File> = EntryDraft::new(user, "a.txt", Some(30), Some(parent), State::Pending);
    let stored = EntryPersisted::new(draft, ObjectID(ID::new(9).unwrap()), 100, 200);
    let d = stored.serialize();
    assert_eq!(d.size_bytes, 30);
    assert!(!d.is_folder);
    assert_eq!(d.parent_id, Some(parent));
    assert_eq!(d.created_at, 100);
    let folder: EntryDraft<Directory> = EntryDraft::new(user, "dir", None, None, State::Created);
    let fd = EntryPersisted::new(folder, ObjectID(ID::new(10).unwrap()), 1, 2).serialize();
    assert_eq!(fd.size_bytes, 0);
    assert!(fd.is_folder);
    assert_eq!(fd.state, State::Created);
}

#[test]
fn user_rows() {
    let long = "y".repeat(161);
    assert_eq!(StandardUserView::from_row(&long, "a@b.c", false).err(), Some(UserRowError::NameTooLong));
    assert_eq!(StandardUserView::from_row("n", &long, false).err(), Some(UserRowError::EmailTooLong));
    let v = StandardUserView::from_row("test", "test@gmail.com", true).unwrap();
    assert!(v.is_admin());
}

#[test]
fn query_parameters() {
    let name: FixedSizedStr<MAX_UTF8_BYTES> = FixedSizedStr::new_from_str("test").unwrap();
    let email: FixedSizedStr<MAX_UTF8_BYTES> = FixedSizedStr::new_from_str("t@e.st").unwrap();
    let pw: FixedSizedStr<MAX_UTF8_BYTES> = FixedSizedStr::new_from_str("hash").unwrap();
    let view = UserCreationView::new(&name, &email);
    let q = UserRepository::create(&view, &pw);
    assert_eq!(q.params(), vec![SqlValue::Text("test".into()), SqlValue::Text("t@e.st".into()), SqlValue::Text("hash".into())]);
    let c = CreateUser::new(&view, &pw);
    assert_eq!(c.params().len(), 3);
    assert_eq!(DeleteUser::new(7).params(), vec![SqlValue::Int(7)]);
    assert_eq!(DeleteUser::check_rows(0), Err(RowNotFound));
    assert_eq!(DeleteUser::check_rows(1), Ok(()));
    let draft: EntryDraft<File> = EntryDraft::new(ID::new(2).unwrap(), "f", None, Some(ObjectID(ID::new(4).unwrap())), State::Pending);
    assert_eq!(CreateFile::new(&draft).params(),
        vec![SqlValue::UInt(2), SqlValue::Text("f".into()), SqlValue::Null, SqlValue::UInt(4), SqlValue::UInt(3)]);
    let folder: EntryDraft<Directory> = EntryDraft::new(ID::new(2).unwrap(), "d", None, None, State::Created);
    assert_eq!(CreateFolder::new(&folder).params(),
        vec![SqlValue::UInt(2), SqlValue::Text("d".into()), SqlValue::Null, SqlValue::Null, SqlValue::UInt(1)]);
    assert_eq!(ListFiles::new(3, None).params(), vec![SqlValue::Int(3), SqlValue::Null]);
    assert_eq!(GetFile::new(5, 3).params(), vec![SqlValue::Uuid(5), SqlValue::Int(3)]);
    assert_eq!(object_id_from_insert(0), None);
    assert_eq!(object_id_from_insert(1u64 << 32), None);
    assert_eq!(object_id_from_insert(12).unwrap().0.get(), 12);
}

#[test]
fn mail_parts_and_retries() {
    let a: lettre::Address = "a@example.com".parse().unwrap();
    let b: lettre::Address = "b@example.com".parse().unwrap();
    let m = Email::new(a.clone(), b.clone()).set_text_content("hi");
    assert_eq!(m.subject_line(), "");
    assert_eq!(m.parts(), vec![MailPart::Plain("hi")]);
    let m2 = m.cheap_clone().set_subject("S").set_html_content("<p>x</p>");
    assert_eq!(m2.subject_line(), "S");
    assert_eq!(m2.parts(), vec![MailPart::Html("<p>x</p>"), MailPart::Plain("hi")]);
    assert_eq!(Email::new(a, b).parts(), vec![MailPart::Plain("")]);
    let attempts = attempts_for(Some(RETRIES));
    assert_eq!(attempts, 4);
    assert_eq!(attempts_for(None), 1);
    let transient = SendAttempt::Replied(Severity::TransientNegativeCompletion);
    assert_eq!(after_attempt(0, attempts, transient), SendDecision::Retry);
    assert_eq!(after_attempt(3, attempts, transient), SendDecision::Refused);
    assert_eq!(after_attempt(0, attempts, SendAttempt::Replied(Severity::PositiveCompletion)), SendDecision::Accepted);
    assert_eq!(after_attempt(0, attempts, SendAttempt::Replied(Severity::PermanentNegativeCompletion)), SendDecision::Refused);
    assert_eq!(after_attempt(1, attempts, SendAttempt::Error), SendDecision::Failed);
    assert_eq!(signup_mail_response(SendDecision::Accepted), Ok(()));
    assert_eq!(signup_mail_response(SendDecision::Refused), Err((500, "Failed to send confirmation email")));
}

fn placeholders(sql: &str) -> usize {
    sql.chars().filter(|c| *c == '?').count()
}

#[test]
fn every_placeholder_gets_a_value() {
    let user = ID::new(2).unwrap();
    let folder: EntryDraft<Directory> = EntryDraft::new(user, "d", None, None, State::Created);
    assert_eq!(CreateFolder::new(&folder).params().len(), placeholders(CREATE_FOLDER_QUERY));
    let file: EntryDraft<File> = EntryDraft::new(user, "f", Some(9), None, State::Pending);
    assert_eq!(CreateFile::new(&file).params().len(), placeholders(CREATE_FILE_QUERY));
    assert_eq!(DeleteUser::new(3).params().len(), placeholders(DELETE_USER));
    assert_eq!(GetFile::new(5, 3).params().len(), placeholders(GET_FILE_QUERY));
    assert_eq!(ListFiles::new(3, None).params().len(), placeholders(LIST_FILES_QUERY));
}
