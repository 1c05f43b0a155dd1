use std::sync::Arc;

use notmuch_message::{
    Filenames, Handle, Message, MessageExt, MessageOwner, MessageProperties, Messages, Scoped,
    Tags,
};

#[derive(Debug, PartialEq)]
struct Database {
    name: &'static str,
}

impl MessageOwner for Database {}

#[test]
fn borrowed_reference_leads_to_its_target() {
    let database = Database { name: "mail" };
    let scoped: Scoped<Database> = Scoped::from(&database);
    assert!(!scoped.is_shared());
    assert_eq!(scoped.get(), &database);
    assert!(std::ptr::eq(scoped.get(), &database));
}

#[test]
fn owned_value_is_kept_by_the_reference() {
    let scoped: Scoped<Database> = Scoped::from(Database { name: "mail" });
    assert!(scoped.is_shared());
    assert_eq!(scoped.get(), &Database { name: "mail" });
}

#[test]
fn share_of_a_borrow_is_the_same_borrow() {
    let database = Database { name: "mail" };
    let first: Scoped<Database> = Scoped::from(&database);
    let second = first.share();
    assert!(!second.is_shared());
    assert!(std::ptr::eq(first.get(), second.get()));
}

#[test]
fn share_of_a_share_keeps_the_target_alive() {
    let first: Scoped<Database> = Scoped::from(Database { name: "mail" });
    let second = first.share();
    assert!(second.is_shared());
    assert!(std::ptr::eq(first.get(), second.get()));
    match (&first, &second) {
        (Scoped::Shared(a), Scoped::Shared(b)) => {
            assert!(Arc::ptr_eq(a, b));
            assert_eq!(Arc::strong_count(a), 2);
        }
        _ => panic!("both references share their target"),
    }
    drop(first);
    assert_eq!(second.get().name, "mail");
    match &second {
        Scoped::Shared(b) => assert_eq!(Arc::strong_count(b), 1),
        Scoped::Borrowed(_) => panic!("the reference shares its target"),
    }
}

#[test]
fn message_keeps_its_handle_and_owner() {
    let database = Database { name: "mail" };
    let message: Message<Database> = Message::from_ptr(Handle::from_raw(0x1000), &database);
    assert_eq!(message.handle(), Handle::from_raw(0x1000));
    assert_eq!(message.handle().raw, 0x1000);
}

#[test]
fn replies_depend_on_the_owner_of_the_message() {
    let database = Database { name: "mail" };
    let replies: Messages<Database> = {
        let message: Message<Database> = Message::from_ptr(Handle::from_raw(0x1000), &database);
        message.replies(Handle::from_raw(0x2000))
    };
    assert_eq!(replies.handle, Handle::from_raw(0x2000));
    assert!(std::ptr::eq(replies.owner.get(), &database));
}

#[test]
fn replies_share_an_owner_that_was_given_away() {
    let message: Message<Database> =
        Message::from_ptr(Handle::from_raw(0x1000), Database { name: "mail" });
    let first = message.replies(Handle::from_raw(0x2000));
    let second = message.replies(Handle::from_raw(0x3000));
    drop(message);
    assert_eq!(first.handle, Handle::from_raw(0x2000));
    assert_eq!(second.handle, Handle::from_raw(0x3000));
    assert!(std::ptr::eq(first.owner.get(), second.owner.get()));
    assert_eq!(first.owner.get().name, "mail");
}

#[test]
fn derived_handles_borrow_the_message() {
    let database = Database { name: "mail" };
    let message: Message<Database> = Message::from_ptr(Handle::from_raw(0x1000), &database);
    let tags: Tags<Message<Database>> = message.tags(Handle::from_raw(0x10));
    let filenames: Filenames<Message<Database>> = message.filenames(Handle::from_raw(0x20));
    let properties: MessageProperties<Database> = message.properties(Handle::from_raw(0x30));
    assert_eq!(tags.handle, Handle::from_raw(0x10));
    assert_eq!(filenames.handle, Handle::from_raw(0x20));
    assert_eq!(properties.handle, Handle::from_raw(0x30));
    assert!(!tags.owner.is_shared());
    assert!(std::ptr::eq(tags.owner.get(), &message));
    assert!(std::ptr::eq(filenames.owner.get(), &message));
    assert!(std::ptr::eq(properties.owner.get(), &message));
}

#[test]
fn derived_handles_keep_a_message_that_was_given_away() {
    let message: Message<Database> =
        Message::from_ptr(Handle::from_raw(0x1000), Database { name: "mail" });
    let tags = <Message<Database> as MessageExt<Database>>::tags(message, Handle::from_raw(0x10));
    assert_eq!(tags.handle, Handle::from_raw(0x10));
    assert!(tags.owner.is_shared());
    assert_eq!(tags.owner.get().handle(), Handle::from_raw(0x1000));

    let message: Message<Database> =
        Message::from_ptr(Handle::from_raw(0x1001), Database { name: "mail" });
    let filenames =
        <Message<Database> as MessageExt<Database>>::filenames(message, Handle::from_raw(0x20));
    assert_eq!(filenames.handle, Handle::from_raw(0x20));
    assert_eq!(filenames.owner.get().handle(), Handle::from_raw(0x1001));

    let message: Message<Database> =
        Message::from_ptr(Handle::from_raw(0x1002), Database { name: "mail" });
    let properties =
        <Message<Database> as MessageExt<Database>>::properties(message, Handle::from_raw(0x30));
    assert_eq!(properties.handle, Handle::from_raw(0x30));
    assert_eq!(properties.owner.get().handle(), Handle::from_raw(0x1002));
}

#[test]
fn from_ptr_of_each_handle_keeps_cursor_and_owner() {
    let database = Database { name: "mail" };
    let message: Message<Database> = Message::from_ptr(Handle::from_raw(0x1000), &database);
    let tags: Tags<Message<Database>> = Tags::from_ptr(Handle::from_raw(1), &message);
    let filenames: Filenames<Message<Database>> =
        Filenames::from_ptr(Handle::from_raw(2), &message);
    let messages: Messages<Database> = Messages::from_ptr(Handle::from_raw(3), &database);
    let properties: MessageProperties<Database> =
        MessageProperties::from_ptr(Handle::from_raw(4), &message);
    assert_eq!(tags.handle.raw, 1);
    assert_eq!(filenames.handle.raw, 2);
    assert_eq!(messages.handle.raw, 3);
    assert_eq!(properties.handle.raw, 4);
    assert!(std::ptr::eq(tags.owner.get(), &message));
    assert!(std::ptr::eq(filenames.owner.get(), &message));
    assert!(std::ptr::eq(messages.owner.get(), &database));
    assert!(std::ptr::eq(properties.owner.get(), &message));
}

fn shareable<T: Send + Sync>() {}

#[test]
fn handles_can_be_shared_between_threads() {
    shareable::<Message<Database>>();
    shareable::<Tags<Message<Database>>>();
    shareable::<Filenames<Message<Database>>>();
    shareable::<Messages<Database>>();
    shareable::<MessageProperties<Database>>();
    shareable::<Scoped<Database>>();
}
