//! The types of columns and parameters.

use vstd::prelude::*;

verus! {

/// The broad class a PostgreSQL type belongs to, as far as this layer needs to
/// tell classes apart.
#[derive(Clone, Copy, Debug, PartialEq, Eq, Hash, Structural)]
pub enum Kind {
    /// A plain type such as `varchar` or `integer`.
    Simple,
    /// An enumerated type.
    Enum,
    /// A pseudo-type.
    Pseudo,
    /// An array type.
    Array,
    /// A range type.
    Range,
    /// A multirange type.
    Multirange,
    /// A domain over another type.
    Domain,
    /// A composite (row) type.
    Composite,
}

/// A column or parameter type: its catalog identifier and its class.
///
/// Within one database an identifier names one type, so two values with the
/// same identifier and class denote the same type.
#[derive(Clone, Copy, Debug, PartialEq, Eq, Hash, Structural)]
pub struct Type {
    pub oid: u32,
    pub kind: Kind,
}

impl Type {
    pub fn new(oid: u32, kind: Kind) -> (ty: Type)
        ensures
            ty.oid == oid,
            ty.kind == kind,
    {
        Type { oid, kind }
    }

    /// A type of class [`Kind::Simple`] with the given identifier.
    pub fn simple(oid: u32) -> (ty: Type)
        ensures
            ty.oid == oid,
            ty.kind == Kind::Simple,
    {
        Type { oid, kind: Kind::Simple }
    }

    pub fn oid(&self) -> (oid: u32)
        ensures
            oid == self.oid,
    {
        self.oid
    }

    pub fn kind(&self) -> (kind: Kind)
        ensures
            kind == self.kind,
    {
        self.kind
    }
}

} // verus!
