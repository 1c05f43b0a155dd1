use std::path::PathBuf;

use notmuch_message::{Error, Handle, Message, MessageOwner, Status};

struct Database;

impl MessageOwner for Database {}

#[test]
fn id_is_the_decoded_answer() {
    let database = Database;
    let message: Message<Database> = Message::from_ptr(Handle::from_raw(0x1000), &database);
    assert_eq!(message.id(b"87abc@example.org"), "87abc@example.org");
    assert_eq!(message.id(b""), "");
    assert_eq!(message.thread_id(b"0000000000000042"), "0000000000000042");
}

#[test]
fn filename_is_the_path_of_the_answer() {
    let database = Database;
    let message: Message<Database> = Message::from_ptr(Handle::from_raw(0x1000), &database);
    assert_eq!(
        message.filename(b"/home/me/mail/cur/1:2,S"),
        PathBuf::from("/home/me/mail/cur/1:2,S")
    );
    assert_eq!(
        message.filename("/home/me/mail/größe".as_bytes()),
        PathBuf::from("/home/me/mail/größe")
    );
}

#[test]
fn numbers_are_handed_on() {
    let database = Database;
    let message: Message<Database> = Message::from_ptr(Handle::from_raw(0x1000), &database);
    assert_eq!(message.date(1_500_000_000), 1_500_000_000);
    assert_eq!(message.date(0), 0);
    assert_eq!(message.date(-1), -1);
    assert_eq!(message.date(i64::MAX), i64::MAX);
    assert_eq!(message.count_files(3), 3);
    assert_eq!(message.count_files(0), 0);
}

#[test]
fn header_without_an_answer_is_an_error() {
    let database = Database;
    let message: Message<Database> = Message::from_ptr(Handle::from_raw(0x1000), &database);
    assert_eq!(message.header(None), Err(Error::UnspecifiedError));
}

#[test]
fn header_with_an_empty_answer_is_none() {
    let database = Database;
    let message: Message<Database> = Message::from_ptr(Handle::from_raw(0x1000), &database);
    assert_eq!(message.header(Some(b"")), Ok(None));
}

#[test]
fn header_with_text_is_that_text() {
    let database = Database;
    let message: Message<Database> = Message::from_ptr(Handle::from_raw(0x1000), &database);
    assert_eq!(message.header(Some(b"Hello")), Ok(Some("Hello")));
    assert_eq!(message.header(Some(b" ")), Ok(Some(" ")));
    assert_eq!(
        message.header(Some("Grüße".as_bytes())),
        Ok(Some("Grüße"))
    );
}

#[test]
fn the_three_header_outcomes_differ() {
    let database = Database;
    let message: Message<Database> = Message::from_ptr(Handle::from_raw(0x1000), &database);
    let failed = message.header(None);
    let empty = message.header(Some(b""));
    let text = message.header(Some(b"v"));
    assert_ne!(failed, empty);
    assert_ne!(failed, text);
    assert_ne!(empty, text);
}

#[test]
fn success_means_done() {
    let database = Database;
    let message: Message<Database> = Message::from_ptr(Handle::from_raw(0x1000), &database);
    assert_eq!(message.add_tag(Status::Success), Ok(()));
    assert_eq!(message.remove_tag(Status::Success), Ok(()));
    assert_eq!(message.remove_all_tags(Status::Success), Ok(()));
    assert_eq!(message.tags_to_maildir_flags(Status::Success), Ok(()));
    assert_eq!(message.maildir_flags_to_tags(Status::Success), Ok(()));
    assert_eq!(message.reindex(Status::Success), Ok(()));
    assert_eq!(message.freeze(Status::Success), Ok(()));
    assert_eq!(message.thaw(Status::Success), Ok(()));
}

#[test]
fn failure_is_the_status_of_the_engine() {
    let database = Database;
    let message: Message<Database> = Message::from_ptr(Handle::from_raw(0x1000), &database);
    assert_eq!(
        message.add_tag(Status::TagTooLong),
        Err(Error::NotmuchError(Status::TagTooLong))
    );
    assert_eq!(
        message.remove_tag(Status::ReadOnlyDatabase),
        Err(Error::NotmuchError(Status::ReadOnlyDatabase))
    );
    assert_eq!(
        message.remove_all_tags(Status::NullPointer),
        Err(Error::NotmuchError(Status::NullPointer))
    );
    assert_eq!(
        message.tags_to_maildir_flags(Status::FileError),
        Err(Error::NotmuchError(Status::FileError))
    );
    assert_eq!(
        message.maildir_flags_to_tags(Status::XapianException),
        Err(Error::NotmuchError(Status::XapianException))
    );
    assert_eq!(
        message.reindex(Status::OutOfMemory),
        Err(Error::NotmuchError(Status::OutOfMemory))
    );
    assert_eq!(
        message.freeze(Status::ReadOnlyDatabase),
        Err(Error::NotmuchError(Status::ReadOnlyDatabase))
    );
    assert_eq!(
        message.thaw(Status::UnbalancedFreezeThaw),
        Err(Error::NotmuchError(Status::UnbalancedFreezeThaw))
    );
}
