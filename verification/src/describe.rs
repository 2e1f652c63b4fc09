//! Describing the columns of a result: each column's name, type, size and
//! transfer format.

use vstd::prelude::*;
use std::collections::HashMap;
use crate::backend::{columns_view, query_view, Backend, Column, ColumnView, QueryResponseView};
use crate::catalog::{extended_types_from_response, sizes_view};
use crate::error::{Error, ErrorView};
use crate::message::{
    fields_view, FieldDescription, FieldDescriptionView, TransferFormat, ATTTYPMOD_NONE,
    UNKNOWN_COLUMN, UNKNOWN_TABLE,
};
use crate::model;
use crate::engine::Recorded;
use crate::model::{Described, EngineCall, Sizing, CATALOG_QUERY};
use crate::pgtype::{Kind, Type};
use crate::typlen::{lookup_builtin_type_size, TYPLEN_VARLENA};

verus! {

broadcast use vstd::std_specs::hash::group_hash_axioms;

pub open spec fn size_view(r: Result<i16, Error>) -> Result<i16, ErrorView> {
    match r {
        Ok(size) => Ok(size),
        Err(e) => Err(e@),
    }
}

pub open spec fn field_result_view(r: Result<FieldDescription, Error>) -> Result<
    FieldDescriptionView,
    ErrorView,
> {
    match r {
        Ok(field) => Ok(field@),
        Err(e) => Err(e@),
    }
}

pub open spec fn fields_result_view(r: Result<Vec<FieldDescription>, Error>) -> Result<
    Seq<FieldDescriptionView>,
    ErrorView,
> {
    match r {
        Ok(fields) => Ok(fields_view(fields@)),
        Err(e) => Err(e@),
    }
}

pub open spec fn given_formats_view(formats: Option<&Vec<TransferFormat>>) -> Option<
    Seq<TransferFormat>,
> {
    match formats {
        Some(f) => Some(f@),
        None => None,
    }
}

/// The size of a type that is known without the catalog, if it is.
pub fn static_type_size(ty: &Type) -> (size: Option<i16>)
    ensures
        size == model::static_type_size(*ty),
{
    match ty.kind {
        Kind::Array => Some(TYPLEN_VARLENA),
        Kind::Enum => Some(TYPLEN_VARLENA),
        _ => lookup_builtin_type_size(ty.oid),
    }
}

/// The size that the sizes learnt from the catalog give for a type.
pub fn cached_type_size(ty: &Type, cache: &HashMap<u32, i16>) -> (size: Result<i16, Error>)
    ensures
        size_view(size) == model::cached_type_size(*ty, cache@),
{
    match cache.get(&ty.oid) {
        Some(size) => Ok(*size),
        None => Err(Error::UnsupportedType(*ty)),
    }
}

/// The description of a column sent in the given format, with the given size
/// for its type.
pub fn field_description(column: &Column, format: TransferFormat, size: i16) -> (field:
    FieldDescription)
    ensures
        field@ == model::field_description(column@, format, size),
{
    FieldDescription {
        field_name: column.name.clone(),
        table_id: UNKNOWN_TABLE,
        col_id: UNKNOWN_COLUMN,
        data_type: column.col_type,
        data_type_size: size,
        type_modifier: ATTTYPMOD_NONE,
        transfer_format: format,
    }
}

/// Whether the engine has to be asked for its catalog to find the size of a
/// type: the size is not known statically, and nothing has been learnt from
/// the catalog yet.
pub fn needs_catalog(ty: &Type, cache: &HashMap<u32, i16>) -> (ask: bool)
    ensures
        ask == (model::static_type_size(*ty) is None && cache@.is_empty()),
        ask == model::needs_catalog(*ty, cache@),
{
    static_type_size(ty).is_none() && cache.is_empty()
}

/// Asks the engine for the sizes of all types in its catalog: one call, the
/// query [`CATALOG_QUERY`], and no other. The second component is what the
/// engine answered; the sizes are what that answer reads as.
pub fn load_extended_types<B: Backend>(backend: &mut Recorded<B>) -> (r: (
    Result<HashMap<u32, i16>, Error>,
    Ghost<Result<QueryResponseView<B::Resultset>, ErrorView>>,
))
    ensures
        final(backend).log() == old(backend).log().push(
            EngineCall::Query { query: CATALOG_QUERY@ },
        ),
        sizes_view(r.0) == match r.1@ {
            Err(e) => Err(e),
            Ok(response) => model::catalog_sizes(response),
        },
{
    let answer = backend.on_query(CATALOG_QUERY);
    let ghost answered = query_view(answer);
    match answer {
        Err(e) => (Err(e), Ghost(answered)),
        Ok(response) => (extended_types_from_response(response), Ghost(answered)),
    }
}

/// Finds the size of a type, asking the engine for its catalog exactly where
/// [`needs_catalog`] says so. The second component is what the engine
/// answered if it was asked.
pub(crate) fn size_type<B: Backend>(
    ty: &Type,
    backend: &mut Recorded<B>,
    cache: &mut HashMap<u32, i16>,
) -> (r: (Result<i16, Error>, Ghost<Result<QueryResponseView<B::Resultset>, ErrorView>>))
    ensures
        model::size_type(*ty, old(cache)@, r.1@) == (Sizing {
            cache: final(cache)@,
            asked: model::needs_catalog(*ty, old(cache)@),
            size: size_view(r.0),
        }),
        final(backend).log() == model::log_after_asking(
            old(backend).log(),
            model::needs_catalog(*ty, old(cache)@),
        ),
{
    if needs_catalog(ty, cache) {
        let (loaded, answer) = load_extended_types(backend);
        match loaded {
            Err(e) => (Err(e), answer),
            Ok(loaded) => {
                *cache = loaded;
                (cached_type_size(ty, cache), answer)
            },
        }
    } else {
        match static_type_size(ty) {
            Some(size) => (Ok(size), Ghost(arbitrary())),
            None => (cached_type_size(ty, cache), Ghost(arbitrary())),
        }
    }
}

/// Describes one column of a result. The size of its type comes from the
/// built-in table or, failing that, from the sizes learnt from the engine's
/// catalog. The engine is asked for its catalog exactly where
/// [`needs_catalog`] says so, by one call, and is asked nothing else; for
/// what it answers, the sizes learnt and the description are those of
/// [`model::size_type`].
pub fn make_field_description<B: Backend>(
    col: &Column,
    transfer_format: TransferFormat,
    backend: &mut Recorded<B>,
    extended_types: &mut HashMap<u32, i16>,
) -> (r: Result<FieldDescription, Error>)
    ensures
        final(backend).log() == model::log_after_asking(
            old(backend).log(),
            model::needs_catalog(col.col_type, old(extended_types)@),
        ),
        !model::needs_catalog(col.col_type, old(extended_types)@) ==> {
            &&& final(extended_types)@ == old(extended_types)@
            &&& field_result_view(r) == match model::static_type_size(col.col_type) {
                Some(size) => Ok(model::field_description(col@, transfer_format, size)),
                None => match model::cached_type_size(col.col_type, old(extended_types)@) {
                    Ok(size) => Ok(model::field_description(col@, transfer_format, size)),
                    Err(e) => Err(e),
                },
            }
        },
        exists|catalog: Result<QueryResponseView<B::Resultset>, ErrorView>|
            {
                let sizing = #[trigger] model::size_type(
                    col.col_type,
                    old(extended_types)@,
                    catalog,
                );
                &&& final(extended_types)@ == sizing.cache
                &&& field_result_view(r) == match sizing.size {
                    Ok(size) => Ok(model::field_description(col@, transfer_format, size)),
                    Err(e) => Err(e),
                }
            },
{
    let (size, answer) = size_type(&col.col_type, backend, extended_types);
    match size {
        Ok(size) => Ok(field_description(col, transfer_format, size)),
        Err(e) => Err(e),
    }
}

/// Describes the columns of a result, in order, up to the first that cannot
/// be described. Where formats are given, the columns that have one are
/// described, each in its format; else all are, as text. The second
/// component says whether the engine was asked for its catalog, which is the
/// one call that may be made, the third what it answered if it was.
pub(crate) fn describe_columns<B: Backend>(
    columns: &Vec<Column>,
    formats: Option<&Vec<TransferFormat>>,
    backend: &mut Recorded<B>,
    cache: &mut HashMap<u32, i16>,
) -> (r: (
    Result<Vec<FieldDescription>, Error>,
    Ghost<bool>,
    Ghost<Result<QueryResponseView<B::Resultset>, ErrorView>>,
))
    ensures
        model::describe(
            columns_view(columns@),
            given_formats_view(formats),
            old(cache)@,
            r.2@,
        ) == (Described { cache: final(cache)@, asked: r.1@, fields: fields_result_view(r.0) }),
        final(backend).log() == model::log_after_asking(old(backend).log(), r.1@),
{
    let ghost cols = columns_view(columns@);
    let ghost fmts = given_formats_view(formats);
    let ghost cache0 = cache@;
    let ghost log0 = backend.log();
    let n = match formats {
        Some(f) => if f.len() < columns.len() {
            f.len()
        } else {
            columns.len()
        },
        None => columns.len(),
    };
    let mut fields: Vec<FieldDescription> = Vec::new();
    let ghost mut asked = false;
    let ghost mut catalog: Result<QueryResponseView<B::Resultset>, ErrorView> = arbitrary();
    let mut i: usize = 0;
    assert(fields_view(fields@) =~= Seq::empty());
    while i < n
        invariant
            i <= n,
            cache0 == old(cache)@,
            log0 == old(backend).log(),
            n == model::described_count(cols, fmts),
            n <= columns.len(),
            formats matches Some(f) ==> n <= f.len(),
            cols == columns_view(columns@),
            fmts == given_formats_view(formats),
            asked ==> !cache@.is_empty(),
            backend.log() == model::log_after_asking(log0, asked),
            model::describe_prefix(cols, fmts, cache0, catalog, i as nat) == (Described {
                cache: cache@,
                asked,
                fields: Ok(fields_view(fields@)),
            }),
        decreases n - i,
    {
        let column = &columns[i];
        let format = match formats {
            Some(f) => f[i],
            None => TransferFormat::Text,
        };
        let ghost before = cache@;
        let ghost fields_before = fields_view(fields@);
        let ghost asked_now = model::needs_catalog(column.col_type, before);
        let (size, answer) = size_type(&column.col_type, backend, cache);
        proof {
            assert(cols[i as int] == column@);
            assert(format == model::format_at(fmts, i as int));
            if asked_now {
                lemma_describe_ignores_unasked_catalog(cols, fmts, cache0, catalog, answer@, i as nat);
                catalog = answer@;
            }
            assert(model::size_type(column.col_type, before, catalog) == (Sizing {
                cache: cache@,
                asked: asked_now,
                size: size_view(size),
            }));
            asked = asked || asked_now;
        }
        match size {
            Ok(size) => {
                fields.push(field_description(column, format, size));
                assert(fields_view(fields@) =~= fields_before.push(
                    model::field_description(column@, format, size),
                ));
            },
            Err(e) => {
                proof {
                    assert(model::describe_prefix(cols, fmts, cache0, catalog, (i + 1) as nat)
                        == (Described { cache: cache@, asked, fields: Err(e@) }));
                    lemma_describe_error_stays(cols, fmts, cache0, catalog, (i + 1) as nat, n as nat);
                }
                return (Err(e), Ghost(asked), Ghost(catalog));
            },
        }
        i = i + 1;
    }
    (Ok(fields), Ghost(asked), Ghost(catalog))
}

/// As long as the engine has not been asked, its answer plays no part.
proof fn lemma_describe_ignores_unasked_catalog<S>(
    columns: Seq<ColumnView>,
    formats: Option<Seq<TransferFormat>>,
    cache: Map<u32, i16>,
    first: Result<QueryResponseView<S>, ErrorView>,
    second: Result<QueryResponseView<S>, ErrorView>,
    k: nat,
)
    requires
        !model::describe_prefix(columns, formats, cache, first, k).asked,
    ensures
        model::describe_prefix(columns, formats, cache, second, k) == model::describe_prefix(
            columns,
            formats,
            cache,
            first,
            k,
        ),
    decreases k,
{
    if k > 0 {
        lemma_describe_ignores_unasked_catalog(
            columns,
            formats,
            cache,
            first,
            second,
            (k - 1) as nat,
        );
    }
}

/// Once a column could not be described, what follows it changes nothing.
proof fn lemma_describe_error_stays<S>(
    columns: Seq<ColumnView>,
    formats: Option<Seq<TransferFormat>>,
    cache: Map<u32, i16>,
    catalog: Result<QueryResponseView<S>, ErrorView>,
    j: nat,
    k: nat,
)
    requires
        j <= k,
        model::describe_prefix(columns, formats, cache, catalog, j).fields is Err,
    ensures
        model::describe_prefix(columns, formats, cache, catalog, k) == model::describe_prefix(
            columns,
            formats,
            cache,
            catalog,
            j,
        ),
    decreases k,
{
    if j < k {
        lemma_describe_error_stays(columns, formats, cache, catalog, j, (k - 1) as nat);
    }
}

} // verus!
