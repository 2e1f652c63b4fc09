//! Results that the engine hands through as text, and the tags of command
//! results.

use vstd::prelude::*;
use crate::backend::{events_view, QueryResponse, SimpleQueryMessage, SimpleQueryMessageView};
use crate::error::{Error, ErrorView};
use crate::message::{
    messages_view, strings_view, BackendMessage, BackendMessageView, CommandCompleteTag,
};
use crate::model;
use crate::model::Folded;
use crate::response::MessageList;

verus! {

pub open spec fn list_result_view(r: Result<MessageList, Error>) -> Result<
    Seq<BackendMessageView>,
    ErrorView,
> {
    match r {
        Ok(list) => Ok(list@),
        Err(e) => Err(e@),
    }
}

/// A copy of a list of names.
pub fn copy_names(names: &Vec<String>) -> (copy: Vec<String>)
    ensures
        strings_view(copy@) == strings_view(names@),
{
    let mut copy: Vec<String> = Vec::new();
    let mut i: usize = 0;
    while i < names.len()
        invariant
            i <= names.len(),
            strings_view(copy@) == strings_view(names@).take(i as int),
        decreases names.len() - i,
    {
        let ghost before = strings_view(copy@);
        let name = names[i].clone();
        copy.push(name);
        assert(strings_view(copy@) =~= before.push(names@[i as int]@));
        assert(strings_view(copy@) =~= strings_view(names@).take(i + 1));
        i = i + 1;
    }
    assert(strings_view(names@).take(names.len() as int) =~= strings_view(names@));
    copy
}

/// The tag that reports a command result; `None` for a result that is no
/// command result.
pub fn command_tag<S>(response: &QueryResponse<S>) -> (tag: Option<CommandCompleteTag>)
    ensures
        tag == model::command_tag(response@),
{
    match response {
        QueryResponse::Insert(n) => Some(CommandCompleteTag::Insert(*n)),
        QueryResponse::Update(n) => Some(CommandCompleteTag::Update(*n)),
        QueryResponse::Delete(n) => Some(CommandCompleteTag::Delete(*n)),
        QueryResponse::Command => Some(CommandCompleteTag::Empty),
        _ => None,
    }
}

/// The messages for a result that is handed through as text. The first row
/// of each run of rows is preceded by a row description made of its column
/// names; every row becomes a data row; a completed command is reported as a
/// selection where it ends a run of rows, else as an insertion. The message
/// that the session is idle closes the list. An announcement of columns is
/// passed over, since every row carries its columns. Any other event is an
/// error.
pub fn simple_query_messages(events: Vec<SimpleQueryMessage>) -> (r: Result<MessageList, Error>)
    ensures
        list_result_view(r) == model::simple_query_messages(events_view(events@)),
{
    let ghost all = events_view(events@);
    let ghost given = events@;
    let mut messages: Vec<BackendMessage> = Vec::new();
    let mut processing_select = false;
    assert(messages_view(messages@) =~= Seq::empty());
    for event in iter: events.into_iter()
        invariant
            iter.seq() == given,
            all == events_view(given),
            model::fold_prefix(all, iter.index() as nat) == (Folded {
                messages: Ok(messages_view(messages@)),
                in_rows: processing_select,
            }),
    {
        let ghost k = iter.index();
        let ghost before = messages_view(messages@);
        assert(all[k] == event@);
        match event {
            SimpleQueryMessage::Row(row) => {
                if !processing_select {
                    messages.push(BackendMessage::PassThroughRowDescription(copy_names(&row.columns)));
                    processing_select = true;
                }
                let ghost described = messages_view(messages@);
                messages.push(BackendMessage::PassThroughDataRow(row));
                proof {
                    assert(messages_view(messages@) =~= described.push(
                        BackendMessageView::PassThroughDataRow(row@),
                    ));
                    assert(described =~= if model::fold_prefix(all, k as nat).in_rows {
                        before
                    } else {
                        before.push(BackendMessageView::PassThroughRowDescription(row@.columns))
                    });
                }
            },
            SimpleQueryMessage::CommandComplete(n) => {
                let tag = if processing_select {
                    CommandCompleteTag::Select(n)
                } else {
                    CommandCompleteTag::Insert(n)
                };
                messages.push(BackendMessage::CommandComplete { tag });
                processing_select = false;
                assert(messages_view(messages@) =~= before.push(
                    BackendMessageView::CommandComplete { tag },
                ));
            },
            SimpleQueryMessage::RowDescription(_) => {},
            SimpleQueryMessage::Other => {
                let e = Error::internal("Unexpected SimpleQuery message variant");
                proof {
                    assert(model::fold_prefix(all, (k + 1) as nat).messages == Err::<
                        Seq<BackendMessageView>,
                        ErrorView,
                    >(e@));
                    lemma_fold_error_stays(all, (k + 1) as nat, all.len());
                }
                return Err(e);
            },
        }
    }
    let ghost folded = messages_view(messages@);
    messages.push(BackendMessage::ready_for_query_idle());
    assert(messages_view(messages@) =~= folded.push(BackendMessageView::ready_for_query_idle()));
    Ok(MessageList::from_vec(messages))
}

/// Once an event was refused, what follows it changes nothing.
proof fn lemma_fold_error_stays(events: Seq<SimpleQueryMessageView>, j: nat, k: nat)
    requires
        j <= k,
        model::fold_prefix(events, j).messages is Err,
    ensures
        model::fold_prefix(events, k) == model::fold_prefix(events, j),
    decreases k,
{
    if j < k {
        lemma_fold_error_stays(events, j, (k - 1) as nat);
    }
}

} // verus!
