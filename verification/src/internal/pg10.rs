//! Adapters for the oldest supported host release, whose option registration
//! functions take mutable strings and whose index build scan is a free
//! function without a scan descriptor.

use vstd::prelude::*;
use crate::types::{bits32, Handle};
use crate::internal::{
    bool_reloption_call, int_reloption_call, scan_args, string_reloption_call, BoolRelOption,
    CStrArg, CharQualifier, HostScan, IntRelOption, Relation, ScanArgs, StringRelOption, Validator,
};

verus! {

/// Presents a string to a parameter that the host declares mutable. The host
/// does not write through it; the address is unchanged.
fn as_mutable(ptr: Handle) -> (arg: CStrArg)
    ensures
        arg == (CStrArg { ptr, qualifier: CharQualifier::Mutable }),
{
    CStrArg { ptr, qualifier: CharQualifier::Mutable }
}

/// Presents a validator that takes a read-only string as one that takes a
/// mutable string, which is what this host release registers. Nothing stands
/// between the host and the validator: the entry point is the same, and the
/// host's call reaches it with the very string the host passes. This rests on
/// the two callback shapes being called alike on the target platform.
pub fn bridge_validator(validator: Option<Handle>) -> (bridged: Option<Validator>)
    ensures
        validator is None <==> bridged is None,
        validator is Some ==> bridged == Some(
            Validator { entry: validator->0, param: CharQualifier::Mutable },
        ),
{
    match validator {
        Some(entry) => Some(Validator { entry, param: CharQualifier::Mutable }),
        None => None,
    }
}

/// Registers a string-valued relation option. The caller's read-only strings
/// and validator are presented under the mutable qualifier that this host
/// release declares; every address and the option kinds are passed on as
/// given.
pub fn add_string_reloption(
    kinds: bits32,
    name: Handle,
    desc: Handle,
    default_val: Handle,
    validator: Option<Handle>,
) -> (call: StringRelOption)
    ensures
        call == string_reloption_call(
            CharQualifier::Mutable,
            kinds,
            name,
            desc,
            default_val,
            validator,
        ),
{
    let func_as_mut_arg = bridge_validator(validator);
    StringRelOption {
        kinds,
        name: as_mutable(name),
        desc: as_mutable(desc),
        default_val: as_mutable(default_val),
        validator: func_as_mut_arg,
    }
}

/// Registers an integer-valued relation option with its default and bounds,
/// the strings presented under this host release's mutable qualifier.
pub fn add_int_reloption(
    kinds: bits32,
    name: Handle,
    desc: Handle,
    default_val: i32,
    min_val: i32,
    max_val: i32,
) -> (call: IntRelOption)
    ensures
        call == int_reloption_call(
            CharQualifier::Mutable,
            kinds,
            name,
            desc,
            default_val,
            min_val,
            max_val,
        ),
{
    IntRelOption {
        kinds,
        name: as_mutable(name),
        desc: as_mutable(desc),
        default_val,
        min_val,
        max_val,
    }
}

/// Registers a boolean relation option, the strings presented under this
/// host release's mutable qualifier.
pub fn add_bool_reloption(kinds: bits32, name: Handle, desc: Handle, default_val: bool) -> (call:
    BoolRelOption)
    ensures
        call == bool_reloption_call(CharQualifier::Mutable, kinds, name, desc, default_val),
{
    BoolRelOption { kinds, name: as_mutable(name), desc: as_mutable(desc), default_val }
}

/// Builds an index by scanning its table: one call of the host's free
/// function, synchronised scans allowed, with the caller's relations, index
/// description, callback and callback state as given.
pub fn IndexBuildHeapScan(
    heap_relation: &Relation,
    index_relation: Handle,
    index_info: Handle,
    build_callback: Option<Handle>,
    build_callback_state: Handle,
) -> (scan: HostScan)
    ensures
        scan == (HostScan::HeapScan {
            args: scan_args(
                *heap_relation,
                index_relation,
                index_info,
                build_callback,
                build_callback_state,
            ),
            allow_sync: true,
        }),
{
    HostScan::HeapScan {
        args: ScanArgs {
            heap_relation: heap_relation.handle,
            index_relation,
            index_info,
            build_callback,
            build_callback_state,
        },
        allow_sync: true,
    }
}

} // verus!
