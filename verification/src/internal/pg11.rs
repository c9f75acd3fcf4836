//! Adapters for the host release whose index build scan is still a free
//! function, now with a trailing scan descriptor.

use vstd::prelude::*;
use crate::types::Handle;
use crate::internal::{scan_args, HostScan, Relation, ScanArgs};

verus! {

/// Builds an index by scanning its table: one call of the host's free
/// function, synchronised scans allowed, with the caller's arguments as
/// given and no scan descriptor.
pub fn IndexBuildHeapScan(
    heap_relation: &Relation,
    index_relation: Handle,
    index_info: Handle,
    build_callback: Option<Handle>,
    build_callback_state: Handle,
) -> (scan: HostScan)
    ensures
        scan == (HostScan::HeapScanWithDescriptor {
            args: scan_args(
                *heap_relation,
                index_relation,
                index_info,
                build_callback,
                build_callback_state,
            ),
            allow_sync: true,
            scan: Handle { addr: 0 },
        }),
{
    HostScan::HeapScanWithDescriptor {
        args: ScanArgs {
            heap_relation: heap_relation.handle,
            index_relation,
            index_info,
            build_callback,
            build_callback_state,
        },
        allow_sync: true,
        scan: Handle::null(),
    }
}

} // verus!
