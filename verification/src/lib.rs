//! One stable set of operations over the internals of several releases of a
//! database host: the host's header macros as functions, and adapters that
//! hide how its functions differ between releases.

#![allow(non_snake_case)]
#![allow(non_upper_case_globals)]
#![allow(non_camel_case_types)]

pub mod all_versions;
pub mod bufmgr;
pub mod cstring;
pub mod facade;
pub mod htup;
pub mod internal;
pub mod rangetable;
pub mod types;
pub mod version;

pub use crate::all_versions::{
    type_is_array, BootstrapTransactionId, FirstCommandId, FirstNormalTransactionId,
    FirstOffsetNumber, FrozenTransactionId, InvalidBlockNumber, InvalidCommandId,
    InvalidOffsetNumber, InvalidOid, InvalidTransactionId, MaxOffsetNumber, MaxTransactionId,
    TransactionIdIsNormal, BLCKSZ, VARHDRSZ, VARHDRSZ_EXTERNAL, VARHDRSZ_SHORT,
};
pub use crate::bufmgr::{Block, BufferGetBlock, BufferGetPage, BufferIsLocal, InvalidBuffer, Page};
pub use crate::cstring::{
    get_pg_major_minor_version_string, get_pg_major_version_num, get_pg_major_version_string,
    get_pg_version_string, node_to_string_for_display, AsPgCStr,
};
pub use crate::facade::{
    add_bool_reloption, add_int_reloption, add_string_reloption, IndexBuildHeapScan,
};
pub use crate::version::{select_version, PgVersion, VersionFlags, PG_MAJORVERSION};
pub use crate::htup::{
    heap_tuple_get_struct, HeapTupleData, HeapTupleHeaderData, HeapTupleHeaderGetRawCommandId,
    HeapTupleHeaderGetXmin, HeapTupleHeaderIsHeapOnly, HeapTupleHeaderIsHotUpdated,
    HeapTupleHeaderXminInvalid,
};
pub use crate::rangetable::{pgx_list_nth, planner_rt_fetch, rt_fetch, List, PlannerInfo};
pub use crate::types::{
    bits32, BlockNumber, Buffer, CommandId, Handle, Index, OffsetNumber, Oid, TransactionId,
};
