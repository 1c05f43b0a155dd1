//! The handles that are derived from a message.
//!
//! Each of them is a cursor inside the engine together with a reference to
//! the handle it was derived from. The reference is what keeps a derived
//! handle from outliving its parent: it is a borrow of the parent, or a share
//! of it.

use core::marker::PhantomData;
use vstd::prelude::*;
use vstd::std_specs::convert::IntoSpec;

use crate::engine::Handle;
use crate::message::{Message, MessageOwner};
use crate::scoped::Scoped;

verus! {

/// A type whose values may have tags derived from them.
pub trait TagsOwner: Send + Sync {

}

/// A type whose values may have file names derived from them.
pub trait FilenamesOwner: Send + Sync {

}

/// The tags of an owner, as a cursor inside the engine.
#[derive(Debug)]
pub struct Tags<'o, O: TagsOwner> {
    pub handle: Handle,
    pub owner: Scoped<'o, O>,
}

/// The file names of an owner, as a cursor inside the engine.
#[derive(Debug)]
pub struct Filenames<'o, O: FilenamesOwner> {
    pub handle: Handle,
    pub owner: Scoped<'o, O>,
}

/// A list of messages, as a cursor inside the engine.
#[derive(Debug)]
pub struct Messages<'o, O: MessageOwner> {
    pub handle: Handle,
    pub owner: Scoped<'o, O>,
}

/// Properties of a message, as a cursor inside the engine.
#[derive(Debug)]
pub struct MessageProperties<'m, 'o, O: MessageOwner> {
    pub handle: Handle,
    pub owner: Scoped<'m, Message<'o, O>>,
}

/// Options for indexing, which live no longer than the database that they
/// were taken from.
#[derive(Debug)]
pub struct IndexOpts<'d> {
    pub handle: Handle,
    /// The scope of the database.
    pub database: PhantomData<&'d ()>,
}

impl<'o, O: TagsOwner> Tags<'o, O> {
    /// The tags at `ptr`, which were derived from `owner`.
    pub fn from_ptr<P: Into<Scoped<'o, O>>>(ptr: Handle, owner: P) -> (tags: Self)
        ensures
            tags.handle == ptr,
            <P as IntoSpec<Scoped<'o, O>>>::obeys_into_spec() ==> tags.owner == owner.into_spec(),
    {
        Tags { handle: ptr, owner: owner.into() }
    }
}

impl<'o, O: FilenamesOwner> Filenames<'o, O> {
    /// The file names at `ptr`, which were derived from `owner`.
    pub fn from_ptr<P: Into<Scoped<'o, O>>>(ptr: Handle, owner: P) -> (filenames: Self)
        ensures
            filenames.handle == ptr,
            <P as IntoSpec<Scoped<'o, O>>>::obeys_into_spec() ==> filenames.owner
                == owner.into_spec(),
    {
        Filenames { handle: ptr, owner: owner.into() }
    }
}

impl<'o, O: MessageOwner> Messages<'o, O> {
    /// The messages at `ptr`, which were derived from `owner`.
    pub fn from_ptr<P: Into<Scoped<'o, O>>>(ptr: Handle, owner: P) -> (messages: Self)
        ensures
            messages.handle == ptr,
            <P as IntoSpec<Scoped<'o, O>>>::obeys_into_spec() ==> messages.owner
                == owner.into_spec(),
    {
        Messages { handle: ptr, owner: owner.into() }
    }
}

impl<'m, 'o, O: MessageOwner> MessageProperties<'m, 'o, O> {
    /// The properties at `ptr`, which were derived from the message `owner`.
    pub fn from_ptr<P: Into<Scoped<'m, Message<'o, O>>>>(ptr: Handle, owner: P) -> (properties:
        Self)
        ensures
            properties.handle == ptr,
            <P as IntoSpec<Scoped<'m, Message<'o, O>>>>::obeys_into_spec() ==> properties.owner
                == owner.into_spec(),
    {
        MessageProperties { handle: ptr, owner: owner.into() }
    }
}

impl<'d> IndexOpts<'d> {
    /// The options at `ptr`.
    pub fn from_ptr(ptr: Handle) -> (options: Self)
        ensures
            options.handle == ptr,
    {
        IndexOpts { handle: ptr, database: PhantomData }
    }
}

} // verus!
