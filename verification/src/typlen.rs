//! The sizes of the built-in types.

use vstd::prelude::*;
use crate::oid;

verus! {

pub const TYPLEN_1: i16 = 1;

pub const TYPLEN_2: i16 = 2;

pub const TYPLEN_4: i16 = 4;

pub const TYPLEN_6: i16 = 6;

pub const TYPLEN_8: i16 = 8;

pub const TYPLEN_12: i16 = 12;

pub const TYPLEN_16: i16 = 16;

pub const TYPLEN_24: i16 = 24;

pub const TYPLEN_32: i16 = 32;

/// Marks a type of varying length.
pub const TYPLEN_VARLENA: i16 = -1;

/// Marks a null-terminated C string.
pub const TYPLEN_CSTRING: i16 = -2;

/// Built-in types that are 1 byte wide.
pub open spec fn is_fixed_1_builtin(oid: u32) -> bool {
    oid == oid::BOOL || oid == oid::CHAR
}

/// Built-in types that are 2 bytes wide.
pub open spec fn is_fixed_2_builtin(oid: u32) -> bool {
    oid == oid::INT2
}

/// Built-in types that are 4 bytes wide.
pub open spec fn is_fixed_4_builtin(oid: u32) -> bool {
    oid == oid::INT4 || oid == oid::REGPROC || oid == oid::OID || oid == oid::XID ||
    oid == oid::CID || oid == oid::TABLE_AM_HANDLER || oid == oid::INDEX_AM_HANDLER ||
    oid == oid::FLOAT4 || oid == oid::DATE || oid == oid::REGPROCEDURE ||
    oid == oid::REGOPER || oid == oid::REGOPERATOR || oid == oid::REGCLASS ||
    oid == oid::REGTYPE || oid == oid::ANY || oid == oid::VOID || oid == oid::TRIGGER ||
    oid == oid::LANGUAGE_HANDLER || oid == oid::ANYELEMENT || oid == oid::FDW_HANDLER ||
    oid == oid::TSM_HANDLER || oid == oid::ANYENUM || oid == oid::REGCONFIG ||
    oid == oid::REGDICTIONARY || oid == oid::EVENT_TRIGGER || oid == oid::REGNAMESPACE ||
    oid == oid::REGROLE || oid == oid::REGCOLLATION || oid == oid::ANYCOMPATIBLE
}

/// Built-in types that are 6 bytes wide.
pub open spec fn is_fixed_6_builtin(oid: u32) -> bool {
    oid == oid::TID || oid == oid::MACADDR
}

/// Built-in types that are 8 bytes wide.
pub open spec fn is_fixed_8_builtin(oid: u32) -> bool {
    oid == oid::INT8 || oid == oid::PG_DDL_COMMAND || oid == oid::FLOAT8 ||
    oid == oid::MACADDR8 || oid == oid::MONEY || oid == oid::TIME || oid == oid::TIMESTAMP ||
    oid == oid::TIMESTAMPTZ || oid == oid::INTERNAL || oid == oid::PG_LSN || oid == oid::XID8
}

/// Built-in types that are 12 bytes wide.
pub open spec fn is_fixed_12_builtin(oid: u32) -> bool {
    oid == oid::ACLITEM || oid == oid::TIMETZ
}

/// Built-in types that are 16 bytes wide.
pub open spec fn is_fixed_16_builtin(oid: u32) -> bool {
    oid == oid::POINT || oid == oid::INTERVAL || oid == oid::UUID
}

/// Built-in types that are 24 bytes wide.
pub open spec fn is_fixed_24_builtin(oid: u32) -> bool {
    oid == oid::LINE || oid == oid::CIRCLE
}

/// Built-in types that are 32 bytes wide.
pub open spec fn is_fixed_32_builtin(oid: u32) -> bool {
    oid == oid::LSEG || oid == oid::BOX
}

/// Built-in types of varying length.
pub open spec fn is_varlena_builtin(oid: u32) -> bool {
    oid == oid::BYTEA || oid == oid::NAME || oid == oid::INT2_VECTOR || oid == oid::TEXT ||
    oid == oid::OID_VECTOR || oid == oid::JSON || oid == oid::XML ||
    oid == oid::PG_NODE_TREE || oid == oid::PATH || oid == oid::POLYGON || oid == oid::CIDR ||
    oid == oid::INET || oid == oid::BPCHAR || oid == oid::VARCHAR || oid == oid::BIT ||
    oid == oid::VARBIT || oid == oid::NUMERIC || oid == oid::REFCURSOR || oid == oid::RECORD ||
    oid == oid::TXID_SNAPSHOT || oid == oid::PG_NDISTINCT || oid == oid::PG_DEPENDENCIES ||
    oid == oid::TS_VECTOR || oid == oid::TSQUERY || oid == oid::GTS_VECTOR ||
    oid == oid::JSONB || oid == oid::ANY_RANGE || oid == oid::INT4_RANGE ||
    oid == oid::NUM_RANGE || oid == oid::TS_RANGE || oid == oid::TSTZ_RANGE ||
    oid == oid::DATE_RANGE || oid == oid::INT8_RANGE || oid == oid::JSONPATH ||
    oid == oid::PG_MCV_LIST || oid == oid::PG_SNAPSHOT || oid == oid::ANYCOMPATIBLE_RANGE
}

/// Built-in types stored as a null-terminated string.
pub open spec fn is_cstring_builtin(oid: u32) -> bool {
    oid == oid::UNKNOWN || oid == oid::CSTRING
}
/// The size code of a built-in type, by its identifier; `None` for every
/// identifier outside the built-in table.
pub open spec fn builtin_type_size(oid: u32) -> Option<i16> {
    if is_fixed_1_builtin(oid) {
        Some(1i16)
    } else if is_fixed_2_builtin(oid) {
        Some(2i16)
    } else if is_fixed_4_builtin(oid) {
        Some(4i16)
    } else if is_fixed_6_builtin(oid) {
        Some(6i16)
    } else if is_fixed_8_builtin(oid) {
        Some(8i16)
    } else if is_fixed_12_builtin(oid) {
        Some(12i16)
    } else if is_fixed_16_builtin(oid) {
        Some(16i16)
    } else if is_fixed_24_builtin(oid) {
        Some(24i16)
    } else if is_fixed_32_builtin(oid) {
        Some(32i16)
    } else if is_varlena_builtin(oid) {
        Some(-1i16)
    } else if is_cstring_builtin(oid) {
        Some(-2i16)
    } else {
        None
    }
}

/// Looks the identifier up in the built-in table, which is ordered by
/// identifier.
pub fn lookup_builtin_type_size(oid: u32) -> (size: Option<i16>)
    ensures
        size == builtin_type_size(oid),
{
    if oid == oid::BOOL {
        Some(TYPLEN_1)
    } else if oid == oid::BYTEA {
        Some(TYPLEN_VARLENA)
    } else if oid == oid::CHAR {
        Some(TYPLEN_1)
    } else if oid == oid::NAME {
        Some(TYPLEN_VARLENA)
    } else if oid == oid::INT8 {
        Some(TYPLEN_8)
    } else if oid == oid::INT2 {
        Some(TYPLEN_2)
    } else if oid == oid::INT2_VECTOR {
        Some(TYPLEN_VARLENA)
    } else if oid == oid::INT4 {
        Some(TYPLEN_4)
    } else if oid == oid::REGPROC {
        Some(TYPLEN_4)
    } else if oid == oid::TEXT {
        Some(TYPLEN_VARLENA)
    } else if oid == oid::OID {
        Some(TYPLEN_4)
    } else if oid == oid::TID {
        Some(TYPLEN_6)
    } else if oid == oid::XID {
        Some(TYPLEN_4)
    } else if oid == oid::CID {
        Some(TYPLEN_4)
    } else if oid == oid::OID_VECTOR {
        Some(TYPLEN_VARLENA)
    } else if oid == oid::PG_DDL_COMMAND {
        Some(TYPLEN_8)
    } else if oid == oid::JSON {
        Some(TYPLEN_VARLENA)
    } else if oid == oid::XML {
        Some(TYPLEN_VARLENA)
    } else if oid == oid::PG_NODE_TREE {
        Some(TYPLEN_VARLENA)
    } else if oid == oid::TABLE_AM_HANDLER {
        Some(TYPLEN_4)
    } else if oid == oid::INDEX_AM_HANDLER {
        Some(TYPLEN_4)
    } else if oid == oid::POINT {
        Some(TYPLEN_16)
    } else if oid == oid::LSEG {
        Some(TYPLEN_32)
    } else if oid == oid::PATH {
        Some(TYPLEN_VARLENA)
    } else if oid == oid::BOX {
        Some(TYPLEN_32)
    } else if oid == oid::POLYGON {
        Some(TYPLEN_VARLENA)
    } else if oid == oid::LINE {
        Some(TYPLEN_24)
    } else if oid == oid::CIDR {
        Some(TYPLEN_VARLENA)
    } else if oid == oid::FLOAT4 {
        Some(TYPLEN_4)
    } else if oid == oid::FLOAT8 {
        Some(TYPLEN_8)
    } else if oid == oid::UNKNOWN {
        Some(TYPLEN_CSTRING)
    } else if oid == oid::CIRCLE {
        Some(TYPLEN_24)
    } else if oid == oid::MACADDR8 {
        Some(TYPLEN_8)
    } else if oid == oid::MONEY {
        Some(TYPLEN_8)
    } else if oid == oid::MACADDR {
        Some(TYPLEN_6)
    } else if oid == oid::INET {
        Some(TYPLEN_VARLENA)
    } else if oid == oid::ACLITEM {
        Some(TYPLEN_12)
    } else if oid == oid::BPCHAR {
        Some(TYPLEN_VARLENA)
    } else if oid == oid::VARCHAR {
        Some(TYPLEN_VARLENA)
    } else if oid == oid::DATE {
        Some(TYPLEN_4)
    } else if oid == oid::TIME {
        Some(TYPLEN_8)
    } else if oid == oid::TIMESTAMP {
        Some(TYPLEN_8)
    } else if oid == oid::TIMESTAMPTZ {
        Some(TYPLEN_8)
    } else if oid == oid::INTERVAL {
        Some(TYPLEN_16)
    } else if oid == oid::TIMETZ {
        Some(TYPLEN_12)
    } else if oid == oid::BIT {
        Some(TYPLEN_VARLENA)
    } else if oid == oid::VARBIT {
        Some(TYPLEN_VARLENA)
    } else if oid == oid::NUMERIC {
        Some(TYPLEN_VARLENA)
    } else if oid == oid::REFCURSOR {
        Some(TYPLEN_VARLENA)
    } else if oid == oid::REGPROCEDURE {
        Some(TYPLEN_4)
    } else if oid == oid::REGOPER {
        Some(TYPLEN_4)
    } else if oid == oid::REGOPERATOR {
        Some(TYPLEN_4)
    } else if oid == oid::REGCLASS {
        Some(TYPLEN_4)
    } else if oid == oid::REGTYPE {
        Some(TYPLEN_4)
    } else if oid == oid::RECORD {
        Some(TYPLEN_VARLENA)
    } else if oid == oid::CSTRING {
        Some(TYPLEN_CSTRING)
    } else if oid == oid::ANY {
        Some(TYPLEN_4)
    } else if oid == oid::VOID {
        Some(TYPLEN_4)
    } else if oid == oid::TRIGGER {
        Some(TYPLEN_4)
    } else if oid == oid::LANGUAGE_HANDLER {
        Some(TYPLEN_4)
    } else if oid == oid::INTERNAL {
        Some(TYPLEN_8)
    } else if oid == oid::ANYELEMENT {
        Some(TYPLEN_4)
    } else if oid == oid::UUID {
        Some(TYPLEN_16)
    } else if oid == oid::TXID_SNAPSHOT {
        Some(TYPLEN_VARLENA)
    } else if oid == oid::FDW_HANDLER {
        Some(TYPLEN_4)
    } else if oid == oid::PG_LSN {
        Some(TYPLEN_8)
    } else if oid == oid::TSM_HANDLER {
        Some(TYPLEN_4)
    } else if oid == oid::PG_NDISTINCT {
        Some(TYPLEN_VARLENA)
    } else if oid == oid::PG_DEPENDENCIES {
        Some(TYPLEN_VARLENA)
    } else if oid == oid::ANYENUM {
        Some(TYPLEN_4)
    } else if oid == oid::TS_VECTOR {
        Some(TYPLEN_VARLENA)
    } else if oid == oid::TSQUERY {
        Some(TYPLEN_VARLENA)
    } else if oid == oid::GTS_VECTOR {
        Some(TYPLEN_VARLENA)
    } else if oid == oid::REGCONFIG {
        Some(TYPLEN_4)
    } else if oid == oid::REGDICTIONARY {
        Some(TYPLEN_4)
    } else if oid == oid::JSONB {
        Some(TYPLEN_VARLENA)
    } else if oid == oid::ANY_RANGE {
        Some(TYPLEN_VARLENA)
    } else if oid == oid::EVENT_TRIGGER {
        Some(TYPLEN_4)
    } else if oid == oid::INT4_RANGE {
        Some(TYPLEN_VARLENA)
    } else if oid == oid::NUM_RANGE {
        Some(TYPLEN_VARLENA)
    } else if oid == oid::TS_RANGE {
        Some(TYPLEN_VARLENA)
    } else if oid == oid::TSTZ_RANGE {
        Some(TYPLEN_VARLENA)
    } else if oid == oid::DATE_RANGE {
        Some(TYPLEN_VARLENA)
    } else if oid == oid::INT8_RANGE {
        Some(TYPLEN_VARLENA)
    } else if oid == oid::JSONPATH {
        Some(TYPLEN_VARLENA)
    } else if oid == oid::REGNAMESPACE {
        Some(TYPLEN_4)
    } else if oid == oid::REGROLE {
        Some(TYPLEN_4)
    } else if oid == oid::REGCOLLATION {
        Some(TYPLEN_4)
    } else if oid == oid::PG_MCV_LIST {
        Some(TYPLEN_VARLENA)
    } else if oid == oid::PG_SNAPSHOT {
        Some(TYPLEN_VARLENA)
    } else if oid == oid::XID8 {
        Some(TYPLEN_8)
    } else if oid == oid::ANYCOMPATIBLE {
        Some(TYPLEN_4)
    } else if oid == oid::ANYCOMPATIBLE_RANGE {
        Some(TYPLEN_VARLENA)
    } else {
        None
    }
}

} // verus!
