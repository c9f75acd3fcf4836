//! Adapters, one set per supported host release, that hide how the host's own
//! functions differ from release to release. An adapter decides which host
//! operation is to be made and with which arguments; it hands that decision
//! back as a value, and the caller makes the call.

use vstd::prelude::*;
use crate::types::{bits32, BlockNumber, Handle};

pub mod pg10;
pub mod pg11;
pub mod pg12;
pub mod pg13;

verus! {

/// The qualifier that a string parameter carries in a host prototype.
#[derive(Clone, Copy, Debug, PartialEq, Eq, Structural)]
pub enum CharQualifier {
    ReadOnly,
    Mutable,
}

/// A string argument of a host call: where the string lies, and the qualifier
/// of the parameter that receives it.
#[derive(Clone, Copy, Debug, PartialEq, Eq, Structural)]
pub struct CStrArg {
    pub ptr: Handle,
    pub qualifier: CharQualifier,
}

/// A validator callback as handed to the host: its entry point, and the
/// qualifier of its one string parameter in the host's prototype.
#[derive(Clone, Copy, Debug, PartialEq, Eq, Structural)]
pub struct Validator {
    pub entry: Handle,
    pub param: CharQualifier,
}

/// The host call that registers a string-valued relation option.
#[derive(Clone, Copy, Debug, PartialEq, Eq, Structural)]
pub struct StringRelOption {
    pub kinds: bits32,
    pub name: CStrArg,
    pub desc: CStrArg,
    pub default_val: CStrArg,
    pub validator: Option<Validator>,
}

/// The host call that registers an integer-valued relation option.
#[derive(Clone, Copy, Debug, PartialEq, Eq, Structural)]
pub struct IntRelOption {
    pub kinds: bits32,
    pub name: CStrArg,
    pub desc: CStrArg,
    pub default_val: i32,
    pub min_val: i32,
    pub max_val: i32,
}

/// The host call that registers a boolean relation option.
#[derive(Clone, Copy, Debug, PartialEq, Eq, Structural)]
pub struct BoolRelOption {
    pub kinds: bits32,
    pub name: CStrArg,
    pub desc: CStrArg,
    pub default_val: bool,
}

/// The string argument at `ptr` for a parameter qualified by `qualifier`.
pub open spec fn cstr_arg(ptr: Handle, qualifier: CharQualifier) -> CStrArg {
    CStrArg { ptr, qualifier }
}

/// The validator argument for a host whose validators take a string
/// qualified by `qualifier`: absent when none was given, else the same entry
/// point under the host's own parameter qualifier.
pub open spec fn validator_arg(validator: Option<Handle>, qualifier: CharQualifier) -> Option<
    Validator,
> {
    match validator {
        Some(entry) => Some(Validator { entry, param: qualifier }),
        None => None,
    }
}

/// The registration of a string option on a host whose prototype qualifies
/// its strings by `qualifier`.
pub open spec fn string_reloption_call(
    qualifier: CharQualifier,
    kinds: bits32,
    name: Handle,
    desc: Handle,
    default_val: Handle,
    validator: Option<Handle>,
) -> StringRelOption {
    StringRelOption {
        kinds,
        name: cstr_arg(name, qualifier),
        desc: cstr_arg(desc, qualifier),
        default_val: cstr_arg(default_val, qualifier),
        validator: validator_arg(validator, qualifier),
    }
}

/// The registration of an integer option on a host whose prototype qualifies
/// its strings by `qualifier`.
pub open spec fn int_reloption_call(
    qualifier: CharQualifier,
    kinds: bits32,
    name: Handle,
    desc: Handle,
    default_val: i32,
    min_val: i32,
    max_val: i32,
) -> IntRelOption {
    IntRelOption {
        kinds,
        name: cstr_arg(name, qualifier),
        desc: cstr_arg(desc, qualifier),
        default_val,
        min_val,
        max_val,
    }
}

/// The registration of a boolean option on a host whose prototype qualifies
/// its strings by `qualifier`.
pub open spec fn bool_reloption_call(
    qualifier: CharQualifier,
    kinds: bits32,
    name: Handle,
    desc: Handle,
    default_val: bool,
) -> BoolRelOption {
    BoolRelOption {
        kinds,
        name: cstr_arg(name, qualifier),
        desc: cstr_arg(desc, qualifier),
        default_val,
    }
}

/// The table of storage operations that later host releases attach to a
/// relation. Only the entry that the layer dispatches through is held.
#[derive(Clone, Copy, Debug, PartialEq, Eq, Structural)]
pub struct TableAmRoutine {
    pub index_build_range_scan: Option<Handle>,
}

/// What the layer reads of a relation: its handle and, where the host
/// release has one, the access-method table attached to it.
#[derive(Clone, Copy, Debug, PartialEq, Eq, Structural)]
pub struct Relation {
    pub handle: Handle,
    pub rd_tableam: Option<TableAmRoutine>,
}

impl Relation {
    /// Whether the relation can be scanned through its access-method table:
    /// the relation is there, it has a table, and the table has the range
    /// scan entry.
    pub open spec fn supports_range_scan(self) -> bool {
        &&& !self.handle.is_null()
        &&& self.rd_tableam is Some
        &&& self.rd_tableam->0.index_build_range_scan is Some
    }

    /// The range scan entry of the relation's access-method table.
    pub open spec fn range_scan_entry(self) -> Handle
        recommends
            self.supports_range_scan(),
    {
        self.rd_tableam->0.index_build_range_scan->0
    }
}

/// The arguments that every release's index build scan takes from the caller.
#[derive(Clone, Copy, Debug, PartialEq, Eq, Structural)]
pub struct ScanArgs {
    pub heap_relation: Handle,
    pub index_relation: Handle,
    pub index_info: Handle,
    pub build_callback: Option<Handle>,
    pub build_callback_state: Handle,
}

/// The one host operation that an index build scan comes down to.
#[derive(Clone, Copy, Debug, PartialEq, Eq, Structural)]
pub enum HostScan {
    /// The host's free function, in its oldest shape.
    HeapScan { args: ScanArgs, allow_sync: bool },
    /// The host's free function, with a trailing scan descriptor.
    HeapScanWithDescriptor { args: ScanArgs, allow_sync: bool, scan: Handle },
    /// The range scan entry of the heap relation's access-method table.
    TableAmRangeScan {
        entry: Handle,
        args: ScanArgs,
        allow_sync: bool,
        anyvisible: bool,
        progress: bool,
        start_blockno: BlockNumber,
        numblocks: BlockNumber,
        scan: Handle,
    },
}

impl HostScan {
    /// The caller's arguments as the host operation carries them.
    pub open spec fn args(self) -> ScanArgs {
        match self {
            HostScan::HeapScan { args, .. } => args,
            HostScan::HeapScanWithDescriptor { args, .. } => args,
            HostScan::TableAmRangeScan { args, .. } => args,
        }
    }

    /// Whether the host may synchronise this scan with others.
    pub open spec fn allow_sync(self) -> bool {
        match self {
            HostScan::HeapScan { allow_sync, .. } => allow_sync,
            HostScan::HeapScanWithDescriptor { allow_sync, .. } => allow_sync,
            HostScan::TableAmRangeScan { allow_sync, .. } => allow_sync,
        }
    }
}

/// The caller's arguments of an index build scan, gathered.
pub open spec fn scan_args(
    heap_relation: Relation,
    index_relation: Handle,
    index_info: Handle,
    build_callback: Option<Handle>,
    build_callback_state: Handle,
) -> ScanArgs {
    ScanArgs {
        heap_relation: heap_relation.handle,
        index_relation,
        index_info,
        build_callback,
        build_callback_state,
    }
}

/// The scan of the whole table through the heap relation's access-method
/// table: synchronised, seeing only visible rows, reporting progress, from
/// block zero over all blocks, with no scan descriptor.
pub open spec fn table_am_scan(heap_relation: Relation, args: ScanArgs) -> HostScan {
    HostScan::TableAmRangeScan {
        entry: heap_relation.range_scan_entry(),
        args,
        allow_sync: true,
        anyvisible: false,
        progress: true,
        start_blockno: 0,
        numblocks: crate::all_versions::InvalidBlockNumber,
        scan: Handle { addr: 0 },
    }
}

} // verus!
