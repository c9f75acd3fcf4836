//! The one set of names that callers see. Every name resolves to the
//! realization made for the release that the build targets, and to no other.

use vstd::prelude::*;
use crate::internal::{
    bool_reloption_call, int_reloption_call, scan_args, string_reloption_call, table_am_scan,
    BoolRelOption, CStrArg, CharQualifier, HostScan, IntRelOption, Relation, ScanArgs,
    StringRelOption, Validator,
};
use crate::internal::pg10;
use crate::internal::pg11;
use crate::internal::pg12;
use crate::internal::pg13;
use crate::types::{bits32, Handle};
use crate::version::{PgVersion, VersionFlags};

verus! {

/// The names whose realization differs from release to release.
#[derive(Clone, Copy, Debug, PartialEq, Eq, Structural)]
pub enum CanonicalName {
    add_string_reloption,
    add_int_reloption,
    add_bool_reloption,
    IndexBuildHeapScan,
    TupleDescData,
    AllocSetContextCreateExtended,
    QueryCompletion,
    QTW_EXAMINE_RTES,
}

/// How a name is realized for one release.
#[derive(Clone, Copy, Debug, PartialEq, Eq, Structural)]
pub enum RealizationKind {
    /// The host's own declaration under that name.
    Declaration,
    /// A host declaration of another name, exported under this one.
    Alias,
    /// A function of this layer that makes the host's call.
    Adapter,
}

/// A realization of a name, tagged with the release it was made for.
#[derive(Clone, Copy, Debug, PartialEq, Eq, Structural)]
pub struct Realization {
    pub tag: PgVersion,
    pub kind: RealizationKind,
}

/// How `name` is realized for `version`.
pub open spec fn realization_kind(name: CanonicalName, version: PgVersion) -> RealizationKind {
    match name {
        CanonicalName::add_string_reloption
        | CanonicalName::add_int_reloption
        | CanonicalName::add_bool_reloption => match version {
            PgVersion::Pg10 => RealizationKind::Adapter,
            _ => RealizationKind::Declaration,
        },
        CanonicalName::IndexBuildHeapScan => RealizationKind::Adapter,
        CanonicalName::TupleDescData => match version {
            PgVersion::Pg10 | PgVersion::Pg11 => RealizationKind::Alias,
            _ => RealizationKind::Declaration,
        },
        CanonicalName::AllocSetContextCreateExtended => match version {
            PgVersion::Pg11 => RealizationKind::Declaration,
            _ => RealizationKind::Alias,
        },
        CanonicalName::QueryCompletion => match version {
            PgVersion::Pg13 => RealizationKind::Declaration,
            _ => RealizationKind::Alias,
        },
        CanonicalName::QTW_EXAMINE_RTES => match version {
            PgVersion::Pg10 | PgVersion::Pg11 => RealizationKind::Declaration,
            _ => RealizationKind::Alias,
        },
    }
}

/// The realization that `name` resolves to in a build for `version`.
pub open spec fn resolution(name: CanonicalName, version: PgVersion) -> Realization {
    Realization { tag: version, kind: realization_kind(name, version) }
}

/// Whether a build with `flags` exports `realization` under `name`: it does
/// when the flag of the realization's release is active and the realization
/// is the one made for that release.
pub open spec fn exported(flags: VersionFlags, name: CanonicalName, realization: Realization)
    -> bool {
    flags.has(realization.tag) && realization.kind == realization_kind(name, realization.tag)
}

/// The realization that `name` resolves to in a build for `version`.
pub fn resolve(name: CanonicalName, version: PgVersion) -> (realization: Realization)
    ensures
        realization == resolution(name, version),
        realization.tag == version,
{
    let kind = match name {
        CanonicalName::add_string_reloption
        | CanonicalName::add_int_reloption
        | CanonicalName::add_bool_reloption => match version {
            PgVersion::Pg10 => RealizationKind::Adapter,
            _ => RealizationKind::Declaration,
        },
        CanonicalName::IndexBuildHeapScan => RealizationKind::Adapter,
        CanonicalName::TupleDescData => match version {
            PgVersion::Pg10 | PgVersion::Pg11 => RealizationKind::Alias,
            _ => RealizationKind::Declaration,
        },
        CanonicalName::AllocSetContextCreateExtended => match version {
            PgVersion::Pg11 => RealizationKind::Declaration,
            _ => RealizationKind::Alias,
        },
        CanonicalName::QueryCompletion => match version {
            PgVersion::Pg13 => RealizationKind::Declaration,
            _ => RealizationKind::Alias,
        },
        CanonicalName::QTW_EXAMINE_RTES => match version {
            PgVersion::Pg10 | PgVersion::Pg11 => RealizationKind::Declaration,
            _ => RealizationKind::Alias,
        },
    };
    Realization { tag: version, kind }
}

/// In a build with exactly one active flag every name has exactly one
/// exported realization, the one made for the selected release; none tagged
/// for another release is exported.
pub proof fn one_realization_per_name(flags: VersionFlags, version: PgVersion, name: CanonicalName)
    requires
        flags.count() == 1,
        flags.has(version),
    ensures
        exported(flags, name, resolution(name, version)),
        forall|r: Realization| exported(flags, name, r) ==> r == resolution(name, version),
        forall|r: Realization| r.tag != version ==> !exported(flags, name, r),
{
}

/// A build with no active flag exports nothing, and one with several active
/// flags would export a name more than once: neither selects a release.
pub proof fn other_flag_sets_export_no_single_realization(
    flags: VersionFlags,
    name: CanonicalName,
)
    requires
        flags.count() != 1,
    ensures
        flags.count() == 0 ==> forall|r: Realization| !exported(flags, name, r),
        flags.count() >= 2 ==> exists|a: Realization, b: Realization|
            a != b && exported(flags, name, a) && exported(flags, name, b),
{
    if flags.count() >= 2 {
        let first = if flags.pg10 {
            PgVersion::Pg10
        } else if flags.pg11 {
            PgVersion::Pg11
        } else {
            PgVersion::Pg12
        };
        let last = if flags.pg13 {
            PgVersion::Pg13
        } else if flags.pg12 {
            PgVersion::Pg12
        } else {
            PgVersion::Pg11
        };
        let a = resolution(name, first);
        let b = resolution(name, last);
        assert(a != b && exported(flags, name, a) && exported(flags, name, b));
    }
}

/// The qualifier that the option registration functions of `version` put on
/// their string parameters.
pub open spec fn string_qualifier(version: PgVersion) -> CharQualifier {
    match version {
        PgVersion::Pg10 => CharQualifier::Mutable,
        _ => CharQualifier::ReadOnly,
    }
}

/// The host operation that an index build scan comes down to for `version`.
pub open spec fn host_scan(
    version: PgVersion,
    heap_relation: Relation,
    index_relation: Handle,
    index_info: Handle,
    build_callback: Option<Handle>,
    build_callback_state: Handle,
) -> HostScan {
    let args = scan_args(
        heap_relation,
        index_relation,
        index_info,
        build_callback,
        build_callback_state,
    );
    match version {
        PgVersion::Pg10 => HostScan::HeapScan { args, allow_sync: true },
        PgVersion::Pg11 => HostScan::HeapScanWithDescriptor {
            args,
            allow_sync: true,
            scan: Handle { addr: 0 },
        },
        PgVersion::Pg12 | PgVersion::Pg13 => table_am_scan(heap_relation, args),
    }
}

/// Whether the index build scan of `version` can run on `heap_relation`: the
/// releases that dispatch through the access-method table need the range
/// scan entry.
pub open spec fn can_scan(version: PgVersion, heap_relation: Relation) -> bool {
    (version == PgVersion::Pg12 || version == PgVersion::Pg13)
        ==> heap_relation.supports_range_scan()
}

/// Registers a string-valued relation option on the host of `version`.
pub fn add_string_reloption(
    version: PgVersion,
    kinds: bits32,
    name: Handle,
    desc: Handle,
    default_val: Handle,
    validator: Option<Handle>,
) -> (call: StringRelOption)
    ensures
        call == string_reloption_call(
            string_qualifier(version),
            kinds,
            name,
            desc,
            default_val,
            validator,
        ),
{
    match version {
        PgVersion::Pg10 => pg10::add_string_reloption(kinds, name, desc, default_val, validator),
        _ => StringRelOption {
            kinds,
            name: CStrArg { ptr: name, qualifier: CharQualifier::ReadOnly },
            desc: CStrArg { ptr: desc, qualifier: CharQualifier::ReadOnly },
            default_val: CStrArg { ptr: default_val, qualifier: CharQualifier::ReadOnly },
            validator: match validator {
                Some(entry) => Some(Validator { entry, param: CharQualifier::ReadOnly }),
                None => None,
            },
        },
    }
}

/// Registers an integer-valued relation option on the host of `version`.
pub fn add_int_reloption(
    version: PgVersion,
    kinds: bits32,
    name: Handle,
    desc: Handle,
    default_val: i32,
    min_val: i32,
    max_val: i32,
) -> (call: IntRelOption)
    ensures
        call == int_reloption_call(
            string_qualifier(version),
            kinds,
            name,
            desc,
            default_val,
            min_val,
            max_val,
        ),
{
    match version {
        PgVersion::Pg10 => pg10::add_int_reloption(
            kinds,
            name,
            desc,
            default_val,
            min_val,
            max_val,
        ),
        _ => IntRelOption {
            kinds,
            name: CStrArg { ptr: name, qualifier: CharQualifier::ReadOnly },
            desc: CStrArg { ptr: desc, qualifier: CharQualifier::ReadOnly },
            default_val,
            min_val,
            max_val,
        },
    }
}

/// Registers a boolean relation option on the host of `version`.
pub fn add_bool_reloption(
    version: PgVersion,
    kinds: bits32,
    name: Handle,
    desc: Handle,
    default_val: bool,
) -> (call: BoolRelOption)
    ensures
        call == bool_reloption_call(string_qualifier(version), kinds, name, desc, default_val),
{
    match version {
        PgVersion::Pg10 => pg10::add_bool_reloption(kinds, name, desc, default_val),
        _ => BoolRelOption {
            kinds,
            name: CStrArg { ptr: name, qualifier: CharQualifier::ReadOnly },
            desc: CStrArg { ptr: desc, qualifier: CharQualifier::ReadOnly },
            default_val,
        },
    }
}

/// Builds an index by scanning its table on the host of `version`: the one
/// host operation that the release's adapter decides on.
pub fn IndexBuildHeapScan(
    version: PgVersion,
    heap_relation: &Relation,
    index_relation: Handle,
    index_info: Handle,
    build_callback: Option<Handle>,
    build_callback_state: Handle,
) -> (scan: HostScan)
    requires
        can_scan(version, *heap_relation),
    ensures
        scan == host_scan(
            version,
            *heap_relation,
            index_relation,
            index_info,
            build_callback,
            build_callback_state,
        ),
{
    match version {
        PgVersion::Pg10 => pg10::IndexBuildHeapScan(
            heap_relation,
            index_relation,
            index_info,
            build_callback,
            build_callback_state,
        ),
        PgVersion::Pg11 => pg11::IndexBuildHeapScan(
            heap_relation,
            index_relation,
            index_info,
            build_callback,
            build_callback_state,
        ),
        PgVersion::Pg12 => pg12::IndexBuildHeapScan(
            heap_relation,
            index_relation,
            index_info,
            build_callback,
            build_callback_state,
        ),
        PgVersion::Pg13 => pg13::IndexBuildHeapScan(
            heap_relation,
            index_relation,
            index_info,
            build_callback,
            build_callback_state,
        ),
    }
}

/// The host operation of an index build scan on the host of `version`, where
/// there is one: none where the release dispatches through the access-method
/// table and the relation lacks the range scan entry. Callers that get none
/// raise the host's fault for an unsupported relation.
pub fn plan_index_build_scan(
    version: PgVersion,
    heap_relation: &Relation,
    index_relation: Handle,
    index_info: Handle,
    build_callback: Option<Handle>,
    build_callback_state: Handle,
) -> (scan: Option<HostScan>)
    ensures
        scan is Some <==> can_scan(version, *heap_relation),
        scan is Some ==> scan->0 == host_scan(
            version,
            *heap_relation,
            index_relation,
            index_info,
            build_callback,
            build_callback_state,
        ),
{
    let dispatches = match version {
        PgVersion::Pg12 | PgVersion::Pg13 => true,
        _ => false,
    };
    let capable = !heap_relation.handle.is_null() && match heap_relation.rd_tableam {
        Some(table_am) => table_am.index_build_range_scan.is_some(),
        None => false,
    };
    if dispatches && !capable {
        None
    } else {
        Some(
            IndexBuildHeapScan(
                version,
                heap_relation,
                index_relation,
                index_info,
                build_callback,
                build_callback_state,
            ),
        )
    }
}

/// The walker flag that examines range table entries, for `version`.
pub fn QTW_EXAMINE_RTES(version: PgVersion) -> (flag: u32)
    ensures
        flag == 16,
{
    match version {
        PgVersion::Pg12 => pg12::QTW_EXAMINE_RTES,
        PgVersion::Pg13 => pg13::QTW_EXAMINE_RTES,
        _ => 16,
    }
}

/// Whatever the release, an index build scan is one host operation that
/// carries the caller's heap relation, index relation, index description,
/// callback and callback state unchanged, and allows synchronised scans.
pub proof fn scan_carries_the_callers_arguments(
    first: PgVersion,
    second: PgVersion,
    heap_relation: Relation,
    index_relation: Handle,
    index_info: Handle,
    build_callback: Option<Handle>,
    build_callback_state: Handle,
)
    ensures
        host_scan(
            first,
            heap_relation,
            index_relation,
            index_info,
            build_callback,
            build_callback_state,
        ).args() == host_scan(
            second,
            heap_relation,
            index_relation,
            index_info,
            build_callback,
            build_callback_state,
        ).args(),
        host_scan(
            first,
            heap_relation,
            index_relation,
            index_info,
            build_callback,
            build_callback_state,
        ).args() == (ScanArgs {
            heap_relation: heap_relation.handle,
            index_relation,
            index_info,
            build_callback,
            build_callback_state,
        }),
        host_scan(
            first,
            heap_relation,
            index_relation,
            index_info,
            build_callback,
            build_callback_state,
        ).allow_sync(),
{
}

/// Whatever the release, the registration of a string option hands the host
/// the option kinds, the addresses of the three strings and the validator's
/// entry point exactly as the caller gave them: only the qualifier under
/// which they are presented differs.
pub proof fn string_option_reaches_the_host_unchanged(
    first: PgVersion,
    second: PgVersion,
    kinds: bits32,
    name: Handle,
    desc: Handle,
    default_val: Handle,
    validator: Option<Handle>,
)
    ensures
        ({
            let a = string_reloption_call(
                string_qualifier(first),
                kinds,
                name,
                desc,
                default_val,
                validator,
            );
            let b = string_reloption_call(
                string_qualifier(second),
                kinds,
                name,
                desc,
                default_val,
                validator,
            );
            &&& a.kinds == kinds && b.kinds == kinds
            &&& a.name.ptr == name && b.name.ptr == name
            &&& a.desc.ptr == desc && b.desc.ptr == desc
            &&& a.default_val.ptr == default_val && b.default_val.ptr == default_val
            &&& (validator is None <==> a.validator is None)
            &&& (validator is None <==> b.validator is None)
            &&& validator is Some ==> a.validator->0.entry == validator->0 && b.validator->0.entry
                == validator->0
        }),
{
}

} // verus!
