//! Accessors for heap tuple headers: the host's header macros as functions
//! over the header fields.

use vstd::prelude::*;
use crate::all_versions::FrozenTransactionId;
use crate::types::{CommandId, Handle, Oid, TransactionId};

verus! {

/// Set in `t_infomask` when the inserting transaction is known to have committed.
pub const HEAP_XMIN_COMMITTED: u16 = 0x0100;

/// Set in `t_infomask` when the inserting transaction is known to have aborted.
pub const HEAP_XMIN_INVALID: u16 = 0x0200;

/// Both inserting-transaction bits together mark a frozen tuple.
pub const HEAP_XMIN_FROZEN: u16 = 0x0300;

/// Set in `t_infomask` when the deleting transaction is invalid or aborted.
pub const HEAP_XMAX_INVALID: u16 = 0x0800;

/// Set in `t_infomask2` when the tuple was updated in place on its page.
pub const HEAP_HOT_UPDATED: u16 = 0x4000;

/// Set in `t_infomask2` when the tuple is reachable only through such an update.
pub const HEAP_ONLY_TUPLE: u16 = 0x8000;

/// The fields of a heap tuple header that the accessors read.
#[derive(Clone, Copy, Debug, PartialEq, Eq, Structural)]
pub struct HeapTupleHeaderData {
    /// Id of the inserting transaction, as stored.
    pub t_xmin: TransactionId,
    /// Id of the deleting transaction, as stored.
    pub t_xmax: TransactionId,
    /// The command id slot, as stored.
    pub t_cid: CommandId,
    pub t_infomask2: u16,
    pub t_infomask: u16,
    /// Size of the header in bytes, padding included.
    pub t_hoff: u8,
}

/// What the accessors read of a heap tuple: where its header lies, and the
/// header.
#[derive(Clone, Copy, Debug, PartialEq, Eq, Structural)]
pub struct HeapTupleData {
    pub t_len: u32,
    pub t_tableOid: Oid,
    pub t_data: Handle,
    pub header: HeapTupleHeaderData,
}

impl HeapTupleData {
    /// The tuple has a header, and the header ends inside the address space.
    pub open spec fn wf(self) -> bool {
        &&& !self.t_data.is_null()
        &&& self.t_data.addr + self.header.t_hoff <= u64::MAX
    }

    /// Where the tuple's user data begins: right behind the header.
    pub open spec fn struct_addr(self) -> int {
        self.t_data.addr + self.header.t_hoff
    }
}

impl HeapTupleHeaderData {
    /// The tuple is reachable only through an in-place update.
    pub open spec fn heap_only(self) -> bool {
        self.t_infomask2 & HEAP_ONLY_TUPLE != 0
    }

    /// The inserting transaction is marked aborted and not committed.
    pub open spec fn xmin_invalid(self) -> bool {
        self.t_infomask & (HEAP_XMIN_COMMITTED | HEAP_XMIN_INVALID) == HEAP_XMIN_INVALID
    }

    /// Both inserting-transaction bits are set.
    pub open spec fn xmin_frozen(self) -> bool {
        self.t_infomask & HEAP_XMIN_FROZEN == HEAP_XMIN_FROZEN
    }

    /// The tuple was updated in place, its deleting transaction is not marked
    /// invalid, and its inserting transaction is not marked aborted.
    pub open spec fn hot_updated(self) -> bool {
        &&& self.t_infomask2 & HEAP_HOT_UPDATED != 0
        &&& self.t_infomask & HEAP_XMAX_INVALID == 0
        &&& !self.xmin_invalid()
    }

    /// The inserting transaction as readers see it: the frozen id for a
    /// frozen tuple, else the stored one.
    pub open spec fn xmin(self) -> TransactionId {
        if self.xmin_frozen() {
            FrozenTransactionId
        } else {
            self.t_xmin
        }
    }
}

/// The inserting transaction of the tuple behind `htup_header`: absent for
/// the null handle, else the frozen id for a frozen tuple and the stored id
/// otherwise.
pub fn HeapTupleHeaderGetXmin(htup_header: Option<&HeapTupleHeaderData>) -> (xmin: Option<
    TransactionId,
>)
    ensures
        htup_header is None <==> xmin is None,
        htup_header is Some ==> xmin == Some(htup_header->0.xmin()),
{
    match htup_header {
        None => None,
        Some(header) => {
            if header.t_infomask & HEAP_XMIN_FROZEN == HEAP_XMIN_FROZEN {
                Some(FrozenTransactionId)
            } else {
                Some(header.t_xmin)
            }
        },
    }
}

/// The command id slot of the tuple behind `htup_header`, as stored: absent
/// for the null handle.
pub fn HeapTupleHeaderGetRawCommandId(htup_header: Option<&HeapTupleHeaderData>) -> (cid: Option<
    CommandId,
>)
    ensures
        htup_header is None <==> cid is None,
        htup_header is Some ==> cid == Some(htup_header->0.t_cid),
{
    match htup_header {
        None => None,
        Some(header) => Some(header.t_cid),
    }
}

/// Whether the tuple is reachable only through an in-place update.
pub fn HeapTupleHeaderIsHeapOnly(htup_header: &HeapTupleHeaderData) -> (heap_only: bool)
    ensures
        heap_only == htup_header.heap_only(),
        heap_only == (htup_header.t_infomask2 >= 0x8000),
{
    let flags: u16 = htup_header.t_infomask2;
    assert((flags & 0x8000u16 != 0) == (flags >= 0x8000)) by (bit_vector);
    (htup_header.t_infomask2 & HEAP_ONLY_TUPLE) != 0
}

/// Whether the tuple was updated in place and that update still stands.
pub fn HeapTupleHeaderIsHotUpdated(htup_header: &HeapTupleHeaderData) -> (hot_updated: bool)
    ensures
        hot_updated == htup_header.hot_updated(),
{
    htup_header.t_infomask2 & HEAP_HOT_UPDATED != 0 && htup_header.t_infomask & HEAP_XMAX_INVALID
        == 0 && !HeapTupleHeaderXminInvalid(htup_header)
}

/// Whether the inserting transaction is marked aborted and not committed.
pub fn HeapTupleHeaderXminInvalid(htup_header: &HeapTupleHeaderData) -> (invalid: bool)
    ensures
        invalid == htup_header.xmin_invalid(),
{
    htup_header.t_infomask & (HEAP_XMIN_COMMITTED | HEAP_XMIN_INVALID) == HEAP_XMIN_INVALID
}

/// Where the user data of the tuple behind `htup` begins: the null handle for
/// the null handle, else the address of the header plus the header's size.
pub fn heap_tuple_get_struct(htup: Option<&HeapTupleData>) -> (data: Handle)
    requires
        htup is Some ==> htup->0.wf(),
    ensures
        htup is None ==> data.is_null(),
        htup is Some ==> data.addr == htup->0.struct_addr(),
        htup is Some ==> !data.is_null(),
{
    match htup {
        None => Handle::null(),
        Some(tuple) => {
            let hoff: u64 = tuple.header.t_hoff as u64;
            Handle::at(tuple.t_data.addr + hoff)
        },
    }
}

/// The flag tests read the two flag words and nothing else: headers that
/// agree on both give the same answers, whatever else they hold.
pub proof fn flag_tests_read_only_the_flag_words(a: HeapTupleHeaderData, b: HeapTupleHeaderData)
    requires
        a.t_infomask == b.t_infomask,
        a.t_infomask2 == b.t_infomask2,
    ensures
        a.heap_only() == b.heap_only(),
        a.hot_updated() == b.hot_updated(),
        a.xmin_invalid() == b.xmin_invalid(),
        a.xmin_frozen() == b.xmin_frozen(),
{
}

/// A tuple's inserting transaction is at most one of aborted and frozen, and
/// a tuple whose in-place update stands was not inserted by an aborted one.
pub proof fn xmin_states_exclude_each_other(h: HeapTupleHeaderData)
    ensures
        !(h.xmin_invalid() && h.xmin_frozen()),
        h.hot_updated() ==> !h.xmin_invalid(),
        h.xmin_frozen() ==> h.xmin() == FrozenTransactionId,
        !h.xmin_frozen() ==> h.xmin() == h.t_xmin,
{
    let m = h.t_infomask;
    assert(!((m & (0x0100u16 | 0x0200u16) == 0x0200u16) && (m & 0x0300u16 == 0x0300u16)))
        by (bit_vector);
}

} // verus!
