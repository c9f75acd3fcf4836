//! Adapters for the first host release that scans a table through the
//! access-method table attached to the relation.

use vstd::prelude::*;
use crate::all_versions::InvalidBlockNumber;
use crate::types::Handle;
use crate::internal::{scan_args, table_am_scan, HostScan, Relation, ScanArgs, TableAmRoutine};

verus! {

/// In this release the walker flag that examines range table entries is the
/// one that examines them before the rest of the query.
pub const QTW_EXAMINE_RTES_BEFORE: u32 = 16;

pub const QTW_EXAMINE_RTES: u32 = QTW_EXAMINE_RTES_BEFORE;

/// Builds an index by scanning its table: one call of the range scan entry of
/// the heap relation's access-method table, over the whole table, with the
/// caller's arguments as given. A relation that is absent, has no table, or
/// whose table lacks the entry cannot be scanned at all; callers do not pass
/// one.
pub fn IndexBuildHeapScan(
    heap_relation: &Relation,
    index_relation: Handle,
    index_info: Handle,
    build_callback: Option<Handle>,
    build_callback_state: Handle,
) -> (scan: HostScan)
    requires
        heap_relation.supports_range_scan(),
    ensures
        scan == table_am_scan(
            *heap_relation,
            scan_args(
                *heap_relation,
                index_relation,
                index_info,
                build_callback,
                build_callback_state,
            ),
        ),
{
    let table_am: TableAmRoutine = heap_relation.rd_tableam.unwrap();
    let entry: Handle = table_am.index_build_range_scan.unwrap();
    HostScan::TableAmRangeScan {
        entry,
        args: ScanArgs {
            heap_relation: heap_relation.handle,
            index_relation,
            index_info,
            build_callback,
            build_callback_state,
        },
        allow_sync: true,
        anyvisible: false,
        progress: true,
        start_blockno: 0,
        numblocks: InvalidBlockNumber,
        scan: Handle::null(),
    }
}

} // verus!
