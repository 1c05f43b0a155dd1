//! Messages, and what the answers of the engine mean for them.
//!
//! A [`Message`] stands for one message of the engine. For every operation on
//! it there is a [`Function`] to call on it, and a method here that takes the
//! engine's answer to that call and gives the result of the operation.

use std::path::PathBuf;
use vstd::prelude::*;
use vstd::std_specs::convert::IntoSpec;
use vstd::utf8::{decode_utf8, valid_utf8};

use crate::engine::{Call, CallView, Function, FunctionView, Handle};
use crate::error::{Error, Status};
use crate::handles::{Filenames, FilenamesOwner, MessageProperties, Messages, Tags, TagsOwner};
use crate::scoped::Scoped;
use crate::text::{decode_valid, path_from, path_of};

verus! {

/// A type whose values may have messages derived from them.
pub trait MessageOwner: Send + Sync {

}

/// One message inside the engine, tied to the owner it was derived from.
#[derive(Debug)]
pub struct Message<'o, O: MessageOwner> {
    handle: Handle,
    marker: Scoped<'o, O>,
}

impl<'o, O: MessageOwner> MessageOwner for Message<'o, O> {

}

impl<'o, O: MessageOwner> FilenamesOwner for Message<'o, O> {

}

impl<'o, O: MessageOwner> TagsOwner for Message<'o, O> {

}

impl<'o, O: MessageOwner> Message<'o, O> {
    /// A message always stands for an object of the engine.
    #[verifier::type_invariant]
    spec fn stands_for_an_object(self) -> bool {
        self.handle.raw != 0
    }

    /// The identity of the message inside the engine.
    pub closed spec fn spec_handle(&self) -> Handle {
        self.handle
    }

    /// The reference to the owner that the message was derived from.
    pub closed spec fn spec_marker(&self) -> Scoped<'o, O> {
        self.marker
    }

    /// The message at `ptr`, which was derived from `owner`. The owner is
    /// borrowed or taken over, as it is given.
    pub fn from_ptr<P: Into<Scoped<'o, O>>>(ptr: Handle, owner: P) -> (message: Message<'o, O>)
        requires
            !ptr.is_null(),
        ensures
            message.spec_handle() == ptr,
            <P as IntoSpec<Scoped<'o, O>>>::obeys_into_spec() ==> message.spec_marker()
                == owner.into_spec(),
    {
        Message { handle: ptr, marker: owner.into() }
    }

    /// The identity of the message inside the engine.
    #[verifier::when_used_as_spec(spec_handle)]
    pub fn handle(&self) -> (handle: Handle)
        ensures
            handle == self.spec_handle(),
            !handle.is_null(),
    {
        proof {
            use_type_invariant(self);
        }
        self.handle
    }

    /// The call of `function` on this message.
    pub fn call(&self, function: Function) -> (call: Call)
        ensures
            call@ == (CallView { message: self.spec_handle(), function: function@ }),
            !call.message.is_null(),
    {
        proof {
            use_type_invariant(self);
        }
        Call { message: self.handle, function }
    }

    /// The identifier of the message, out of the engine's answer to
    /// `GetMessageId`.
    pub fn id(&self, reply: &[u8]) -> (id: String)
        requires
            valid_utf8(reply@),
        ensures
            id@ == decode_utf8(reply@),
    {
        decode_valid(reply).to_owned()
    }

    /// The identifier of the thread that the message belongs to, out of the
    /// engine's answer to `GetThreadId`.
    pub fn thread_id(&self, reply: &[u8]) -> (id: String)
        requires
            valid_utf8(reply@),
        ensures
            id@ == decode_utf8(reply@),
    {
        decode_valid(reply).to_owned()
    }

    /// The replies to the message, for the cursor that the engine answered to
    /// `GetReplies`. They depend on the owner of the message, as the message
    /// itself does, and not on the message.
    pub fn replies(&self, reply: Handle) -> (replies: Messages<'o, O>)
        ensures
            replies.handle == reply,
            replies.owner == self.spec_marker(),
    {
        Messages { handle: reply, owner: self.marker.share() }
    }

    /// The number of files of the message, which is the engine's answer to
    /// `CountFiles`.
    pub fn count_files(&self, reply: i32) -> (count: i32)
        ensures
            count == reply,
    {
        reply
    }

    /// The file names of the message, for the cursor that the engine answered
    /// to `GetFilenames`. They borrow the message.
    pub fn filenames<'m>(&'m self, reply: Handle) -> (filenames: Filenames<'m, Self>)
        ensures
            filenames.handle == reply,
            filenames.owner == Scoped::Borrowed(self),
    {
        <Self as MessageExt<'o, O>>::filenames(self, reply)
    }

    /// The path of one file of the message, out of the engine's answer to
    /// `GetFilename`.
    pub fn filename(&self, reply: &[u8]) -> (path: PathBuf)
        requires
            valid_utf8(reply@),
        ensures
            path == path_of(decode_utf8(reply@)),
    {
        path_from(decode_valid(reply))
    }

    /// The date of the message in seconds since the epoch, which is the
    /// engine's answer to `GetDate`.
    pub fn date(&self, reply: i64) -> (date: i64)
        ensures
            date == reply,
    {
        reply
    }

    /// The value of a header, out of the engine's answer to `GetHeader`.
    ///
    /// Without an answer the lookup has failed. An empty answer means that
    /// the message has no value for the header. Any other answer is the value.
    pub fn header<'a>(&self, reply: Option<&'a [u8]>) -> (value: Result<Option<&'a str>, Error>)
        requires
            reply matches Some(bytes) ==> valid_utf8(bytes@),
        ensures
            match reply {
                None => value == Err::<Option<&str>, Error>(Error::UnspecifiedError),
                Some(bytes) => if bytes@.len() == 0 {
                    value == Ok::<Option<&str>, Error>(None)
                } else {
                    value matches Ok(Some(text)) && text@ == decode_utf8(bytes@) && text@.len() > 0
                },
            },
    {
        match reply {
            None => Err(Error::UnspecifiedError),
            Some(bytes) => {
                let text = decode_valid(bytes);
                if text.is_empty() {
                    Ok(None)
                } else {
                    Ok(Some(text))
                }
            },
        }
    }

    /// The tags of the message, for the cursor that the engine answered to
    /// `GetTags`. They borrow the message.
    pub fn tags<'m>(&'m self, reply: Handle) -> (tags: Tags<'m, Self>)
        ensures
            tags.handle == reply,
            tags.owner == Scoped::Borrowed(self),
    {
        <Self as MessageExt<'o, O>>::tags(self, reply)
    }

    /// Whether the tag was added, by the engine's answer to `AddTag`.
    pub fn add_tag(&self, reply: Status) -> (done: Result<(), Error>)
        ensures
            done == reply.result(),
    {
        reply.as_result()
    }

    /// Whether the tag was removed, by the engine's answer to `RemoveTag`.
    pub fn remove_tag(&self, reply: Status) -> (done: Result<(), Error>)
        ensures
            done == reply.result(),
    {
        reply.as_result()
    }

    /// Whether all tags were removed, by the engine's answer to
    /// `RemoveAllTags`.
    pub fn remove_all_tags(&self, reply: Status) -> (done: Result<(), Error>)
        ensures
            done == reply.result(),
    {
        reply.as_result()
    }

    /// Whether the file names were renamed after the tags, by the engine's
    /// answer to `TagsToMaildirFlags`.
    pub fn tags_to_maildir_flags(&self, reply: Status) -> (done: Result<(), Error>)
        ensures
            done == reply.result(),
    {
        reply.as_result()
    }

    /// Whether the tags were set after the file names, by the engine's answer
    /// to `MaildirFlagsToTags`.
    pub fn maildir_flags_to_tags(&self, reply: Status) -> (done: Result<(), Error>)
        ensures
            done == reply.result(),
    {
        reply.as_result()
    }

    /// Whether the message was indexed anew, by the engine's answer to
    /// `Reindex`.
    pub fn reindex(&self, reply: Status) -> (done: Result<(), Error>)
        ensures
            done == reply.result(),
    {
        reply.as_result()
    }

    /// Whether the message is now frozen, by the engine's answer to `Freeze`.
    pub fn freeze(&self, reply: Status) -> (done: Result<(), Error>)
        ensures
            done == reply.result(),
    {
        reply.as_result()
    }

    /// Whether the message was thawed, by the engine's answer to `Thaw`.
    pub fn thaw(&self, reply: Status) -> (done: Result<(), Error>)
        ensures
            done == reply.result(),
    {
        reply.as_result()
    }

    /// The properties that were asked for, for the cursor that the engine
    /// answered to `GetProperties`. They borrow the message.
    pub fn properties<'m>(&'m self, reply: Handle) -> (properties: MessageProperties<'m, 'o, O>)
        ensures
            properties.handle == reply,
            properties.owner == Scoped::Borrowed(self),
    {
        <Self as MessageExt<'o, O>>::properties(self, reply)
    }
}

/// The derivations from a message, for a message that is borrowed as well as
/// for one that is given away: whatever `message` is, the handle that comes
/// out keeps it.
pub trait MessageExt<'o, O: MessageOwner + 'o> {
    fn tags<'m, M: Into<Scoped<'m, Message<'o, O>>>>(message: M, reply: Handle) -> (tags: Tags<
        'm,
        Message<'o, O>,
    >)
        ensures
            tags.handle == reply,
            <M as IntoSpec<Scoped<'m, Message<'o, O>>>>::obeys_into_spec() ==> tags.owner
                == message.into_spec(),
    {
        Tags { handle: reply, owner: message.into() }
    }

    fn filenames<'m, M: Into<Scoped<'m, Message<'o, O>>>>(message: M, reply: Handle) -> (filenames:
        Filenames<'m, Message<'o, O>>)
        ensures
            filenames.handle == reply,
            <M as IntoSpec<Scoped<'m, Message<'o, O>>>>::obeys_into_spec() ==> filenames.owner
                == message.into_spec(),
    {
        Filenames { handle: reply, owner: message.into() }
    }

    fn properties<'m, M: Into<Scoped<'m, Message<'o, O>>>>(message: M, reply: Handle) -> (properties:
        MessageProperties<'m, 'o, O>)
        ensures
            properties.handle == reply,
            <M as IntoSpec<Scoped<'m, Message<'o, O>>>>::obeys_into_spec() ==> properties.owner
                == message.into_spec(),
    {
        MessageProperties { handle: reply, owner: message.into() }
    }
}

impl<'o, O: MessageOwner + 'o> MessageExt<'o, O> for Message<'o, O> {

}

/// A message that is frozen until this guard is released.
///
/// A guard is made from the engine's answer to `Freeze`, and only from an
/// answer of success. Its release, which is due when its scope ends, gives the
/// one call that the guard owes: the `Thaw` of the message that was frozen.
/// A guard that was released owes nothing more. What the engine answers to
/// the `Thaw` changes nothing and is handed to nobody.
#[derive(Debug)]
pub struct FrozenMessage<'m, 'o, O: MessageOwner> {
    message: Scoped<'m, Message<'o, O>>,
    frozen: bool,
}

impl<'m, 'o, O: MessageOwner> FrozenMessage<'m, 'o, O> {
    /// The reference to the message that the guard is for.
    pub closed spec fn spec_message(&self) -> Scoped<'m, Message<'o, O>> {
        self.message
    }

    /// Whether the guard still owes its `Thaw`.
    pub closed spec fn spec_is_frozen(&self) -> bool {
        self.frozen
    }

    /// What `new` returns for a message and the engine's answer to its
    /// `Freeze`.
    pub closed spec fn spec_new(message: Scoped<'m, Message<'o, O>>, reply: Status) -> Result<
        Self,
        Error,
    > {
        if reply == Status::Success {
            Ok(FrozenMessage { message, frozen: true })
        } else {
            Err(Error::NotmuchError(reply))
        }
    }

    /// The `Thaw` of the message that the guard is for.
    pub open spec fn thaw_call(&self) -> CallView {
        CallView { message: self.spec_message()@.spec_handle(), function: FunctionView::Thaw }
    }

    /// The guard as a release leaves it.
    pub closed spec fn spec_released(&self) -> Self {
        FrozenMessage { message: self.message, frozen: false }
    }

    /// The calls that `count` releases in a row give, one after the other.
    pub open spec fn releases(&self, count: nat) -> Seq<CallView>
        decreases count,
    {
        if count == 0 {
            Seq::<CallView>::empty()
        } else if self.spec_is_frozen() {
            seq![self.thaw_call()] + self.spec_released().releases((count - 1) as nat)
        } else {
            self.spec_released().releases((count - 1) as nat)
        }
    }

    /// The guard for `message`, given the engine's answer to the `Freeze` of
    /// that message. There is a guard if and only if the answer is success.
    pub fn new<M: Into<Scoped<'m, Message<'o, O>>>>(message: M, reply: Status) -> (guard: Result<
        Self,
        Error,
    >)
        ensures
            guard is Ok <==> reply == Status::Success,
            guard matches Ok(frozen) ==> frozen.spec_is_frozen(),
            guard matches Err(error) ==> error == Error::NotmuchError(reply),
            <M as IntoSpec<Scoped<'m, Message<'o, O>>>>::obeys_into_spec() ==> {
                &&& guard == Self::spec_new(message.into_spec(), reply)
                &&& guard matches Ok(frozen) ==> frozen.spec_message() == message.into_spec()
            },
    {
        let message = message.into();
        match reply.as_result() {
            Ok(()) => Ok(FrozenMessage { message, frozen: true }),
            Err(error) => Err(error),
        }
    }

    /// The message that the guard is for.
    pub fn message(&self) -> (message: &Message<'o, O>)
        ensures
            *message == self.spec_message()@,
    {
        self.message.get()
    }

    /// Whether the guard still owes its `Thaw`.
    #[verifier::when_used_as_spec(spec_is_frozen)]
    pub fn is_frozen(&self) -> (frozen: bool)
        ensures
            frozen == self.spec_is_frozen(),
    {
        self.frozen
    }

    /// Releases the guard. The first release gives the `Thaw` to make; any
    /// later one gives nothing.
    pub fn release(&mut self) -> (call: Option<Call>)
        ensures
            *final(self) == old(self).spec_released(),
            !final(self).spec_is_frozen(),
            final(self).spec_message() == old(self).spec_message(),
            old(self).spec_is_frozen() ==> (call matches Some(thaw) && thaw@ == old(
                self,
            ).thaw_call() && !thaw.message.is_null()),
            !old(self).spec_is_frozen() ==> call is None,
    {
        if self.frozen {
            self.frozen = false;
            Some(self.message.get().call(Function::Thaw))
        } else {
            None
        }
    }
}

/// From a `Freeze` that succeeded comes a guard of the message that was
/// frozen, which owes the `Thaw` of that same message. From a `Freeze` that
/// failed comes no guard, so that no `Thaw` follows, and the error is the
/// status that the engine gave.
pub proof fn lemma_guard_is_made_by_success<'m, 'o, O: MessageOwner>(
    message: Scoped<'m, Message<'o, O>>,
    reply: Status,
)
    ensures
        match FrozenMessage::spec_new(message, reply) {
            Ok(guard) => {
                &&& reply == Status::Success
                &&& guard.spec_is_frozen()
                &&& guard.spec_message() == message
                &&& guard.thaw_call() == (CallView {
                    message: message@.spec_handle(),
                    function: FunctionView::Thaw,
                })
            },
            Err(error) => reply != Status::Success && error == Error::NotmuchError(reply),
        },
{
}

/// A guard that was released owes nothing: however often it is released
/// again, no call comes of it.
pub proof fn lemma_released_guard_is_silent<'m, 'o, O: MessageOwner>(
    guard: FrozenMessage<'m, 'o, O>,
    count: nat,
)
    requires
        !guard.spec_is_frozen(),
    ensures
        guard.releases(count) == Seq::<CallView>::empty(),
    decreases count,
{
    if count > 0 {
        lemma_released_guard_is_silent(guard.spec_released(), (count - 1) as nat);
    }
}

/// A guard thaws exactly once. Released once or many times, a guard that was
/// made by `new` gives one call in all, and that call is the `Thaw` of its
/// message.
pub proof fn lemma_guard_thaws_exactly_once<'m, 'o, O: MessageOwner>(
    guard: FrozenMessage<'m, 'o, O>,
    count: nat,
)
    requires
        guard.spec_is_frozen(),
        count > 0,
    ensures
        guard.releases(count) == seq![guard.thaw_call()],
{
    lemma_released_guard_is_silent(guard.spec_released(), (count - 1) as nat);
    assert(seq![guard.thaw_call()] + Seq::<CallView>::empty() =~= seq![guard.thaw_call()]);
}

} // verus!
