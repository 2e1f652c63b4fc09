//! What a request is answered with.

use vstd::prelude::*;
use std::sync::Arc;
use smallvec::SmallVec;
use crate::error::{Error, ErrorView};
use crate::message::{
    messages_view, option_message_view, BackendMessage, BackendMessageView, TransferFormat,
};

verus! {

/// Messages to send one after the other. Most responses hold one or two
/// messages, so the list keeps up to two of them inline: it is a
/// `smallvec::SmallVec` of capacity two. The verifier does not look inside;
/// what it knows of a list is what [`message_seq`] says.
#[verifier::external_body]
#[derive(Debug, PartialEq)]
pub struct MessageList {
    inner: SmallVec<[BackendMessage; 2]>,
}

/// The messages that a list holds, first to last: the items of its
/// `SmallVec`, in the order of its slice.
pub uninterp spec fn message_seq(list: MessageList) -> Seq<BackendMessage>;

impl View for MessageList {
    type V = Seq<BackendMessageView>;

    open spec fn view(&self) -> Seq<BackendMessageView> {
        messages_view(message_seq(*self))
    }
}

/// `SmallVec::from_vec`: the list holds the items of the vector, in the
/// vector's order.
#[verifier::external_body]
fn small_from_vec(messages: Vec<BackendMessage>) -> (list: MessageList)
    ensures
        message_seq(list) == messages@,
{
    MessageList { inner: SmallVec::from_vec(messages) }
}

/// `SmallVec::into_vec`: the vector holds the items of the list, in the list's
/// order.
#[verifier::external_body]
fn small_into_vec(list: MessageList) -> (messages: Vec<BackendMessage>)
    ensures
        messages@ == message_seq(list),
{
    list.inner.into_vec()
}

impl MessageList {
    /// The list of the given messages, in their order.
    pub fn from_vec(messages: Vec<BackendMessage>) -> (list: MessageList)
        ensures
            message_seq(list) == messages@,
            list@ == messages_view(messages@),
    {
        small_from_vec(messages)
    }

    /// The messages of the list, in their order.
    pub fn into_vec(self) -> (messages: Vec<BackendMessage>)
        ensures
            messages@ == message_seq(self),
            messages_view(messages@) == self@,
    {
        small_into_vec(self)
    }
}

/// What a request is answered with. `S` is the engine's result set, which is
/// handed on for streaming without being looked into.
#[derive(Debug, PartialEq)]
pub enum Response<S> {
    /// Nothing is sent.
    Empty,
    /// One message.
    Message(BackendMessage),
    /// Several messages, sent in order.
    Messages(MessageList),
    /// The rows of a result set, between an optional leading and an optional
    /// trailing message. Where formats are given, each column's values are
    /// sent in its format; where none are, all are sent as text.
    Select {
        header: Option<BackendMessage>,
        resultset: S,
        result_transfer_formats: Option<Arc<Vec<TransferFormat>>>,
        trailer: Option<BackendMessage>,
    },
}

pub enum ResponseView<S> {
    Empty,
    Message(BackendMessageView),
    Messages(Seq<BackendMessageView>),
    Select {
        header: Option<BackendMessageView>,
        resultset: S,
        result_transfer_formats: Option<Seq<TransferFormat>>,
        trailer: Option<BackendMessageView>,
    },
}

pub open spec fn option_formats_view(formats: Option<Arc<Vec<TransferFormat>>>) -> Option<
    Seq<TransferFormat>,
> {
    match formats {
        Some(f) => Some(f@),
        None => None,
    }
}

impl<S> View for Response<S> {
    type V = ResponseView<S>;

    open spec fn view(&self) -> ResponseView<S> {
        match *self {
            Response::Empty => ResponseView::Empty,
            Response::Message(m) => ResponseView::Message(m@),
            Response::Messages(list) => ResponseView::Messages(list@),
            Response::Select {
                header,
                resultset,
                result_transfer_formats,
                trailer,
            } => ResponseView::Select {
                header: option_message_view(header),
                resultset,
                result_transfer_formats: option_formats_view(result_transfer_formats),
                trailer: option_message_view(trailer),
            },
        }
    }
}

/// The view of the outcome of a request.
pub open spec fn result_view<S>(result: Result<Response<S>, Error>) -> Result<
    ResponseView<S>,
    ErrorView,
> {
    match result {
        Ok(response) => Ok(response@),
        Err(error) => Err(error@),
    }
}

} // verus!
