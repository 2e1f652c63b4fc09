//! Rows of which only some fields are taken.

use vstd::prelude::*;
use std::sync::Arc;
use crate::pgtype::Type;

verus! {

/// One row of data as the engine's lookup returns it, with the fields to take
/// from it. `T` is the type of a field's value.
pub struct Row<T> {
    /// The values of the row. Only those at the indices listed in
    /// `project_fields` are taken.
    pub values: Vec<T>,
    /// The indices within `values` of the fields to take, in the order in
    /// which they are taken. A lookup may return fields that the query did not
    /// ask for, such as lookup keys; these are left out here.
    pub project_fields: Arc<Vec<usize>>,
    /// The type of each field that is taken.
    pub project_field_types: Arc<Vec<Type>>,
}

/// A value of a row together with its type.
#[derive(Clone, Debug, PartialEq)]
pub struct Value<T> {
    pub col_type: Type,
    pub value: T,
}

impl<T> Row<T> {
    /// Whether the row has a field to take at position `pos`: a type and an
    /// index are listed at `pos`, and the index lies within the values.
    pub open spec fn has_field(&self, pos: int) -> bool {
        &&& 0 <= pos < self.project_field_types@.len()
        &&& pos < self.project_fields@.len()
        &&& self.project_fields@[pos] < self.values@.len()
    }

    /// Goes through the fields that are taken from the row, in order.
    pub fn into_iter(self) -> (iter: RowIterator<T>)
        ensures
            iter.row() == self,
            iter.position() == 0,
    {
        RowIterator { row: self, pos: 0 }
    }
}

/// Goes through the fields that are taken from a row, in the order in which
/// the row lists them.
pub struct RowIterator<T> {
    row: Row<T>,
    pos: usize,
}

impl<T> RowIterator<T> {
    /// The row that is gone through.
    pub closed spec fn row(&self) -> Row<T> {
        self.row
    }

    /// How many fields have been taken so far.
    pub closed spec fn position(&self) -> nat {
        self.pos as nat
    }
}

impl<T: Clone> RowIterator<T> {
    /// Takes the next field: a copy of the value at the next listed index,
    /// with the type listed for it. There is none once a position is reached
    /// for which no type or no index is listed, or whose index lies outside
    /// the values; from then on there never is one.
    pub fn next(&mut self) -> (item: Option<Value<T>>)
        ensures
            final(self).row() == old(self).row(),
            match item {
                Some(field) => {
                    let pos = old(self).position() as int;
                    let row = old(self).row();
                    &&& row.has_field(pos)
                    &&& field.col_type == row.project_field_types@[pos]
                    &&& cloned(row.values@[row.project_fields@[pos] as int], field.value)
                    &&& final(self).position() == pos + 1
                },
                None => {
                    &&& !old(self).row().has_field(old(self).position() as int)
                    &&& final(self).position() == old(self).position()
                },
            },
    {
        if self.pos >= self.row.project_field_types.len() {
            return None;
        }
        let col_type = self.row.project_field_types[self.pos];
        if self.pos >= self.row.project_fields.len() {
            return None;
        }
        let i = self.row.project_fields[self.pos];
        if i >= self.row.values.len() {
            return None;
        }
        let value = self.row.values[i].clone();
        self.pos = self.pos + 1;
        Some(Value { col_type, value })
    }

    /// Takes all the fields that are left, in order.
    pub fn collect(self) -> (items: Vec<Value<T>>)
        ensures
            !self.row().has_field((self.position() + items@.len()) as int),
            forall|k: int|
                0 <= k < items@.len() ==> {
                    let pos = self.position() + k;
                    let row = self.row();
                    &&& row.has_field(pos)
                    &&& (#[trigger] items@[k]).col_type == row.project_field_types@[pos]
                    &&& cloned(row.values@[row.project_fields@[pos] as int], items@[k].value)
                },
    {
        let mut iter = self;
        let mut items: Vec<Value<T>> = Vec::new();
        loop
            invariant
                iter.row() == self.row(),
                iter.position() == self.position() + items@.len(),
                forall|k: int|
                    0 <= k < items@.len() ==> {
                        let pos = self.position() + k;
                        let row = self.row();
                        &&& row.has_field(pos)
                        &&& (#[trigger] items@[k]).col_type == row.project_field_types@[pos]
                        &&& cloned(row.values@[row.project_fields@[pos] as int], items@[k].value)
                    },
            decreases self.row().project_field_types@.len() - iter.position(),
        {
            match iter.next() {
                Some(item) => {
                    items.push(item);
                },
                None => {
                    return items;
                },
            }
        }
    }
}

} // verus!
