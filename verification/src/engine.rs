//! The calls that this crate puts to the engine.
//!
//! A call names one function of the engine, the message it is made on, and
//! the rest of its arguments in the form in which the engine takes them. The
//! caller carries it out and hands the engine's answer to the function of
//! [`Message`](crate::message::Message) that the call was made for.

use vstd::prelude::*;
use vstd::utf8::{decode_utf8, encode_utf8};

use crate::handles::IndexOpts;
use crate::text::{lemma_text_round_trip, terminated, terminated_bytes, until_nul, without_nul};

verus! {

/// The identity of one object inside the engine.
#[derive(Clone, Copy, Debug, PartialEq, Eq, Hash, Structural)]
pub struct Handle {
    pub raw: usize,
}

impl Handle {
    /// The handle with the number `raw`.
    pub fn from_raw(raw: usize) -> (handle: Handle)
        ensures
            handle.raw == raw,
    {
        Handle { raw }
    }

    /// Whether the handle stands for no object at all.
    pub open spec fn spec_is_null(self) -> bool {
        self.raw == 0
    }

    /// Whether the handle stands for no object at all.
    #[verifier::when_used_as_spec(spec_is_null)]
    pub fn is_null(self) -> (null: bool)
        ensures
            null == (self.raw == 0),
    {
        self.raw == 0
    }
}

/// A function of the engine that is called on a message, with the arguments
/// that follow the message.
#[derive(Debug, PartialEq, Eq)]
pub enum Function {
    GetMessageId,
    GetThreadId,
    GetReplies,
    CountFiles,
    GetFilenames,
    GetFilename,
    GetDate,
    /// The name of the header, terminated.
    GetHeader(Vec<u8>),
    GetTags,
    /// The tag, terminated.
    AddTag(Vec<u8>),
    /// The tag, terminated.
    RemoveTag(Vec<u8>),
    RemoveAllTags,
    TagsToMaildirFlags,
    MaildirFlagsToTags,
    /// The indexing options to use.
    Reindex(Handle),
    Freeze,
    Thaw,
    /// The key, terminated, and whether only that very key is wanted (1) or
    /// every key that starts with it (0).
    GetProperties(Vec<u8>, i32),
}

/// A [`Function`] as contracts see it: the same, with each text as a sequence
/// of bytes.
pub enum FunctionView {
    GetMessageId,
    GetThreadId,
    GetReplies,
    CountFiles,
    GetFilenames,
    GetFilename,
    GetDate,
    GetHeader(Seq<u8>),
    GetTags,
    AddTag(Seq<u8>),
    RemoveTag(Seq<u8>),
    RemoveAllTags,
    TagsToMaildirFlags,
    MaildirFlagsToTags,
    Reindex(Handle),
    Freeze,
    Thaw,
    GetProperties(Seq<u8>, i32),
}

impl View for Function {
    type V = FunctionView;

    open spec fn view(&self) -> FunctionView {
        match self {
            Function::GetMessageId => FunctionView::GetMessageId,
            Function::GetThreadId => FunctionView::GetThreadId,
            Function::GetReplies => FunctionView::GetReplies,
            Function::CountFiles => FunctionView::CountFiles,
            Function::GetFilenames => FunctionView::GetFilenames,
            Function::GetFilename => FunctionView::GetFilename,
            Function::GetDate => FunctionView::GetDate,
            Function::GetHeader(name) => FunctionView::GetHeader(name@),
            Function::GetTags => FunctionView::GetTags,
            Function::AddTag(tag) => FunctionView::AddTag(tag@),
            Function::RemoveTag(tag) => FunctionView::RemoveTag(tag@),
            Function::RemoveAllTags => FunctionView::RemoveAllTags,
            Function::TagsToMaildirFlags => FunctionView::TagsToMaildirFlags,
            Function::MaildirFlagsToTags => FunctionView::MaildirFlagsToTags,
            Function::Reindex(options) => FunctionView::Reindex(*options),
            Function::Freeze => FunctionView::Freeze,
            Function::Thaw => FunctionView::Thaw,
            Function::GetProperties(key, exact) => FunctionView::GetProperties(key@, *exact),
        }
    }
}

impl FunctionView {
    /// The text argument of the function, as the engine will read it: the
    /// bytes in front of the first NUL.
    pub open spec fn text(self) -> Option<Seq<u8>> {
        match self {
            FunctionView::GetHeader(name) => Some(until_nul(name)),
            FunctionView::AddTag(tag) => Some(until_nul(tag)),
            FunctionView::RemoveTag(tag) => Some(until_nul(tag)),
            FunctionView::GetProperties(key, _) => Some(until_nul(key)),
            _ => None,
        }
    }
}

/// The number that the engine takes for the choice between one key and all
/// keys with a prefix.
pub open spec fn exact_flag(exact: bool) -> i32 {
    if exact {
        1i32
    } else {
        0i32
    }
}

impl Function {
    /// The lookup of the header `name`.
    pub fn header(name: &str) -> (function: Function)
        requires
            without_nul(name@),
        ensures
            function@ == FunctionView::GetHeader(terminated_bytes(name@)),
            function@.text() == Some(encode_utf8(name@)),
    {
        Function::GetHeader(terminated(name))
    }

    /// The addition of `tag` to the tags of the message.
    pub fn add_tag(tag: &str) -> (function: Function)
        requires
            without_nul(tag@),
        ensures
            function@ == FunctionView::AddTag(terminated_bytes(tag@)),
            function@.text() == Some(encode_utf8(tag@)),
    {
        Function::AddTag(terminated(tag))
    }

    /// The removal of `tag` from the tags of the message.
    pub fn remove_tag(tag: &str) -> (function: Function)
        requires
            without_nul(tag@),
        ensures
            function@ == FunctionView::RemoveTag(terminated_bytes(tag@)),
            function@.text() == Some(encode_utf8(tag@)),
    {
        Function::RemoveTag(terminated(tag))
    }

    /// The lookup of the properties under `key`: of that very key where
    /// `exact` is set, of every key that starts with it where it is not.
    pub fn properties(key: &str, exact: bool) -> (function: Function)
        requires
            without_nul(key@),
        ensures
            function@ == FunctionView::GetProperties(terminated_bytes(key@), exact_flag(exact)),
            function@.text() == Some(encode_utf8(key@)),
    {
        let flag: i32 = if exact {
            1
        } else {
            0
        };
        Function::GetProperties(terminated(key), flag)
    }

    /// The indexing of the message anew under `options`.
    pub fn reindex<'d>(options: IndexOpts<'d>) -> (function: Function)
        ensures
            function@ == FunctionView::Reindex(options.handle),
    {
        Function::Reindex(options.handle)
    }
}

/// One call: a function of the engine and the message it is made on.
#[derive(Debug, PartialEq, Eq)]
pub struct Call {
    pub message: Handle,
    pub function: Function,
}

/// A [`Call`] as contracts see it.
pub struct CallView {
    pub message: Handle,
    pub function: FunctionView,
}

impl View for Call {
    type V = CallView;

    open spec fn view(&self) -> CallView {
        CallView { message: self.message, function: self.function@ }
    }
}

/// A tag is added and removed under one name. The calls that add and remove
/// `tag` hand the engine the same text, and what the engine reads of it is
/// the tag and nothing else.
pub proof fn lemma_tag_is_added_and_removed_under_one_name(tag: Seq<char>)
    requires
        without_nul(tag),
    ensures
        FunctionView::AddTag(terminated_bytes(tag)).text() == FunctionView::RemoveTag(
            terminated_bytes(tag),
        ).text(),
        FunctionView::AddTag(terminated_bytes(tag)).text() matches Some(read) && decode_utf8(read)
            == tag,
{
    lemma_text_round_trip(tag);
}

/// Two tags that reach the engine as the same text are the same tag, so that
/// the removal of one tag never names another.
pub proof fn lemma_tags_are_told_apart(added: Seq<char>, removed: Seq<char>)
    requires
        without_nul(added),
        without_nul(removed),
        FunctionView::AddTag(terminated_bytes(added)).text() == FunctionView::RemoveTag(
            terminated_bytes(removed),
        ).text(),
    ensures
        added == removed,
{
    lemma_text_round_trip(added);
    lemma_text_round_trip(removed);
}

} // verus!
