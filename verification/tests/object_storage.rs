use backend::object_storage::{ChunkedUpload, ObjectID, UploadEvent, UploadStep, CHUNK_SIZE};
use backend::id::ID;
use backend::decimal::IntErrorKind;

#[test]
fn get_id_from_str() {
    assert!(ObjectID::parse_str("2").is_ok())
}

#[test]
fn get_id_from_str_error() {
    assert!(ObjectID::parse_str("-2").is_err())
}

#[test]
fn object_id_parse_errors_are_named() {
    assert_eq!(ObjectID::parse_str("").unwrap_err().kind, IntErrorKind::Empty);
    assert_eq!(ObjectID::parse_str("0").unwrap_err().kind, IntErrorKind::Zero);
    assert_eq!(ObjectID::parse_str("12a").unwrap_err().kind, IntErrorKind::InvalidDigit);
    assert_eq!(ObjectID::parse_str("4294967296").unwrap_err().kind, IntErrorKind::PosOverflow);
    assert_eq!(ObjectID::parse_str("+").unwrap_err().kind, IntErrorKind::InvalidDigit);
    assert_eq!(ObjectID::parse_str("+17").unwrap().0.get(), 17);
    assert_eq!(ObjectID::parse_str("4294967295").unwrap().0.get(), u32::MAX);
}

#[test]
fn object_id_text() {
    let id = ObjectID(ID::new(42).unwrap());
    assert_eq!(id.to_string(), "ObjectID = 42");
}

#[test]
fn chunked_upload_short_body_is_one_put() {
    let (mut up, step) = ChunkedUpload::start();
    assert_eq!(step, UploadStep::Read { offset: 0 });
    assert_eq!(up.step(UploadEvent::ReadBytes(10)), UploadStep::Read { offset: 10 });
    assert_eq!(up.step(UploadEvent::ReadBytes(5)), UploadStep::Read { offset: 15 });
    assert_eq!(up.step(UploadEvent::ReadBytes(0)), UploadStep::Put { len: 15 });
    assert_eq!(up.step(UploadEvent::Sent), UploadStep::Done);
}

#[test]
fn chunked_upload_full_chunks_then_append() {
    let (mut up, _) = ChunkedUpload::start();
    assert_eq!(up.step(UploadEvent::ReadBytes(CHUNK_SIZE)), UploadStep::Put { len: CHUNK_SIZE });
    assert_eq!(up.step(UploadEvent::Sent), UploadStep::Read { offset: 0 });
    assert_eq!(up.step(UploadEvent::ReadBytes(3)), UploadStep::Read { offset: 3 });
    assert_eq!(up.step(UploadEvent::ReadBytes(0)), UploadStep::Append { len: 3 });
    assert_eq!(up.step(UploadEvent::Sent), UploadStep::Done);
}

#[test]
fn chunked_upload_exact_chunk_ends_on_empty_read() {
    let (mut up, _) = ChunkedUpload::start();
    assert_eq!(up.step(UploadEvent::ReadBytes(CHUNK_SIZE)), UploadStep::Put { len: CHUNK_SIZE });
    assert_eq!(up.step(UploadEvent::Sent), UploadStep::Read { offset: 0 });
    assert_eq!(up.step(UploadEvent::ReadBytes(0)), UploadStep::Done);
}

#[test]
fn chunked_upload_empty_body_sends_nothing() {
    let (mut up, _) = ChunkedUpload::start();
    assert_eq!(up.step(UploadEvent::ReadBytes(0)), UploadStep::Done);
    assert_eq!(up.step(UploadEvent::Sent), UploadStep::Done);
}

#[test]
fn chunked_upload_failures_stop() {
    let (mut up, _) = ChunkedUpload::start();
    assert_eq!(up.step(UploadEvent::ReadError), UploadStep::Failed);
    assert_eq!(up.step(UploadEvent::ReadBytes(1)), UploadStep::Failed);
    let (mut up2, _) = ChunkedUpload::start();
    assert_eq!(up2.step(UploadEvent::ReadBytes(0 + 7)), UploadStep::Read { offset: 7 });
    assert_eq!(up2.step(UploadEvent::ReadBytes(0)), UploadStep::Put { len: 7 });
    assert_eq!(up2.step(UploadEvent::SendError), UploadStep::Failed);
}
