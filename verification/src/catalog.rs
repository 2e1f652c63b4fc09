//! Reading the engine's catalog of types into a table of type sizes.

use vstd::prelude::*;
use std::collections::HashMap;
use crate::backend::{events_view, QueryResponse, SimpleQueryMessage};
use crate::error::{Error, ErrorView};
use crate::message::SimpleQueryRow;
use crate::model;
use crate::text::{concat_str, parse_i16, parse_u32};

verus! {

broadcast use vstd::std_specs::hash::group_hash_axioms;

pub open spec fn entry_view(r: Result<(u32, i16), Error>) -> Result<(u32, i16), ErrorView> {
    match r {
        Ok(entry) => Ok(entry),
        Err(e) => Err(e@),
    }
}

pub open spec fn sizes_view(r: Result<HashMap<u32, i16>, Error>) -> Result<
    Map<u32, i16>,
    ErrorView,
> {
    match r {
        Ok(sizes) => Ok(sizes@),
        Err(e) => Err(e@),
    }
}

/// The error that reports why the catalog could not be read.
pub fn catalog_error(detail: &str) -> (e: Error)
    ensures
        e@ == model::catalog_error(detail@),
{
    Error::InternalError(concat_str("failed while loading extended type information: ", detail))
}

/// Reads one row of the catalog as a type identifier and a size.
pub fn catalog_entry(row: &SimpleQueryRow) -> (r: Result<(u32, i16), Error>)
    ensures
        entry_view(r) == model::catalog_entry(row@),
{
    match (row.get(0), row.get(1)) {
        (Some(oid), Some(typlen)) => match parse_u32(oid) {
            None => Err(catalog_error("could not parse oid")),
            Some(oid) => match parse_i16(typlen) {
                None => Err(catalog_error("could not parse typlen")),
                Some(typlen) => Ok((oid, typlen)),
            },
        },
        _ => Err(catalog_error("wrong number of columns returned from upstream")),
    }
}

/// Reads the rows among `events` as a table of type sizes.
pub fn extended_types_from_events(events: &Vec<SimpleQueryMessage>) -> (r: Result<
    HashMap<u32, i16>,
    Error,
>)
    ensures
        sizes_view(r) == model::catalog_prefix(events_view(events@), events@.len()),
{
    let mut sizes: HashMap<u32, i16> = HashMap::new();
    let mut i: usize = 0;
    while i < events.len()
        invariant
            i <= events.len(),
            model::catalog_prefix(events_view(events@), i as nat) == Ok::<
                Map<u32, i16>,
                ErrorView,
            >(sizes@),
        decreases events.len() - i,
    {
        assert(events_view(events@)[i as int] == events@[i as int]@);
        match &events[i] {
            SimpleQueryMessage::Row(row) => match catalog_entry(row) {
                Ok(entry) => {
                    sizes.insert(entry.0, entry.1);
                },
                Err(e) => {
                    proof {
                        assert(model::catalog_prefix(events_view(events@), (i + 1) as nat) == Err::<
                            Map<u32, i16>,
                            ErrorView,
                        >(e@));
                        lemma_catalog_error_stays(
                            events_view(events@),
                            (i + 1) as nat,
                            events@.len(),
                        );
                    }
                    return Err(e);
                },
            },
            _ => {},
        }
        i = i + 1;
    }
    Ok(sizes)
}

/// Reads the engine's answer to the catalog query as a table of type sizes.
/// The answer has to be a result handed through as text, with the type
/// identifier and the size as the first two values of every row.
pub fn extended_types_from_response<S>(response: QueryResponse<S>) -> (r: Result<
    HashMap<u32, i16>,
    Error,
>)
    ensures
        sizes_view(r) == model::catalog_sizes(response@),
{
    match response {
        QueryResponse::SimpleQuery(events) => extended_types_from_events(&events),
        _ => Err(catalog_error("wrong query response type")),
    }
}

/// Once a row has failed, what follows it changes nothing.
proof fn lemma_catalog_error_stays(
    events: Seq<crate::backend::SimpleQueryMessageView>,
    j: nat,
    k: nat,
)
    requires
        j <= k,
        model::catalog_prefix(events, j) is Err,
    ensures
        model::catalog_prefix(events, k) == model::catalog_prefix(events, j),
    decreases k,
{
    if j < k {
        lemma_catalog_error_stays(events, j, (k - 1) as nat);
    }
}

} // verus!
