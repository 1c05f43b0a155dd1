//! A binding core for the message handles of a native mail-indexing engine.
//!
//! The engine itself is reached by the caller. This crate holds everything
//! around that step: which native call a request on a message amounts to,
//! how text crosses the boundary, what each answer of the engine means, and
//! how the handles that are derived from a message stay tied to it.
//!
//! One operation on a message is one exchange. [`Message::call`] gives the
//! call to make, the caller makes it, and the method of [`Message`] that is
//! named after the operation turns the engine's answer into the result.

pub mod engine;
pub mod error;
pub mod handles;
pub mod message;
pub mod scoped;
pub mod text;

pub use engine::{Call, Function, Handle};
pub use error::{Error, Status};
pub use handles::{
    Filenames, FilenamesOwner, IndexOpts, MessageProperties, Messages, Tags, TagsOwner,
};
pub use message::{FrozenMessage, Message, MessageExt, MessageOwner};
pub use scoped::Scoped;
