//! The identifiers of the built-in types whose size is known without asking
//! the catalog, as PostgreSQL assigns them in `pg_type`.

use vstd::prelude::*;

verus! {

pub const BOOL: u32 = 16;

pub const BYTEA: u32 = 17;

pub const CHAR: u32 = 18;

pub const NAME: u32 = 19;

pub const INT8: u32 = 20;

pub const INT2: u32 = 21;

pub const INT2_VECTOR: u32 = 22;

pub const INT4: u32 = 23;

pub const REGPROC: u32 = 24;

pub const TEXT: u32 = 25;

pub const OID: u32 = 26;

pub const TID: u32 = 27;

pub const XID: u32 = 28;

pub const CID: u32 = 29;

pub const OID_VECTOR: u32 = 30;

pub const PG_DDL_COMMAND: u32 = 32;

pub const JSON: u32 = 114;

pub const XML: u32 = 142;

pub const PG_NODE_TREE: u32 = 194;

pub const TABLE_AM_HANDLER: u32 = 269;

pub const INDEX_AM_HANDLER: u32 = 325;

pub const POINT: u32 = 600;

pub const LSEG: u32 = 601;

pub const PATH: u32 = 602;

pub const BOX: u32 = 603;

pub const POLYGON: u32 = 604;

pub const LINE: u32 = 628;

pub const CIDR: u32 = 650;

pub const FLOAT4: u32 = 700;

pub const FLOAT8: u32 = 701;

pub const UNKNOWN: u32 = 705;

pub const CIRCLE: u32 = 718;

pub const MACADDR8: u32 = 774;

pub const MONEY: u32 = 790;

pub const MACADDR: u32 = 829;

pub const INET: u32 = 869;

pub const ACLITEM: u32 = 1033;

pub const BPCHAR: u32 = 1042;

pub const VARCHAR: u32 = 1043;

pub const DATE: u32 = 1082;

pub const TIME: u32 = 1083;

pub const TIMESTAMP: u32 = 1114;

pub const TIMESTAMPTZ: u32 = 1184;

pub const INTERVAL: u32 = 1186;

pub const TIMETZ: u32 = 1266;

pub const BIT: u32 = 1560;

pub const VARBIT: u32 = 1562;

pub const NUMERIC: u32 = 1700;

pub const REFCURSOR: u32 = 1790;

pub const REGPROCEDURE: u32 = 2202;

pub const REGOPER: u32 = 2203;

pub const REGOPERATOR: u32 = 2204;

pub const REGCLASS: u32 = 2205;

pub const REGTYPE: u32 = 2206;

pub const RECORD: u32 = 2249;

pub const CSTRING: u32 = 2275;

pub const ANY: u32 = 2276;

pub const VOID: u32 = 2278;

pub const TRIGGER: u32 = 2279;

pub const LANGUAGE_HANDLER: u32 = 2280;

pub const INTERNAL: u32 = 2281;

pub const ANYELEMENT: u32 = 2283;

pub const UUID: u32 = 2950;

pub const TXID_SNAPSHOT: u32 = 2970;

pub const FDW_HANDLER: u32 = 3115;

pub const PG_LSN: u32 = 3220;

pub const TSM_HANDLER: u32 = 3310;

pub const PG_NDISTINCT: u32 = 3361;

pub const PG_DEPENDENCIES: u32 = 3402;

pub const ANYENUM: u32 = 3500;

pub const TS_VECTOR: u32 = 3614;

pub const TSQUERY: u32 = 3615;

pub const GTS_VECTOR: u32 = 3642;

pub const REGCONFIG: u32 = 3734;

pub const REGDICTIONARY: u32 = 3769;

pub const JSONB: u32 = 3802;

pub const ANY_RANGE: u32 = 3831;

pub const EVENT_TRIGGER: u32 = 3838;

pub const INT4_RANGE: u32 = 3904;

pub const NUM_RANGE: u32 = 3906;

pub const TS_RANGE: u32 = 3908;

pub const TSTZ_RANGE: u32 = 3910;

pub const DATE_RANGE: u32 = 3912;

pub const INT8_RANGE: u32 = 3926;

pub const JSONPATH: u32 = 4072;

pub const REGNAMESPACE: u32 = 4089;

pub const REGROLE: u32 = 4096;

pub const REGCOLLATION: u32 = 4191;

pub const PG_MCV_LIST: u32 = 5017;

pub const PG_SNAPSHOT: u32 = 5038;

pub const XID8: u32 = 5069;

pub const ANYCOMPATIBLE: u32 = 5077;

pub const ANYCOMPATIBLE_RANGE: u32 = 5080;

} // verus!
