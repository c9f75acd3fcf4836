//! Sentinel values and small predicates that are the same for every supported
//! host release.

use vstd::prelude::*;
use crate::types::{BlockNumber, CommandId, OffsetNumber, Oid, TransactionId};

verus! {

pub const InvalidOid: Oid = 0;

pub const InvalidOffsetNumber: OffsetNumber = 0;

pub const FirstOffsetNumber: OffsetNumber = 1;

/// Size of a disk block in bytes.
pub const BLCKSZ: u32 = 8192;

/// Size in bytes of one line pointer of a page.
pub const SIZEOF_ITEM_ID_DATA: u32 = 4;

/// The largest number of line pointers that fit in one block.
pub const MaxOffsetNumber: OffsetNumber = 2048;

pub const InvalidBlockNumber: BlockNumber = 0xFFFF_FFFF;

/// Size in bytes of the length word of a variable-length datum.
pub const VARHDRSZ: usize = 4;

pub const InvalidTransactionId: TransactionId = 0;

pub const InvalidCommandId: CommandId = 0xFFFF_FFFF;

pub const FirstCommandId: CommandId = 0;

pub const BootstrapTransactionId: TransactionId = 1;

pub const FrozenTransactionId: TransactionId = 2;

pub const FirstNormalTransactionId: TransactionId = 3;

pub const MaxTransactionId: TransactionId = 0xFFFF_FFFF;

/// Size in bytes of the header of an external (out-of-line) datum: the
/// one-byte header and the one-byte tag that precede its data.
pub fn VARHDRSZ_EXTERNAL() -> (size: usize)
    ensures
        size == 2,
{
    2
}

/// Size in bytes of the header of a short datum: the one-byte header that
/// precedes its data.
pub fn VARHDRSZ_SHORT() -> (size: usize)
    ensures
        size == 1,
{
    1
}

/// Whether `xid` is an ordinary transaction id, that is, none of the invalid,
/// bootstrap and frozen ids, which all lie below the first normal one.
pub fn TransactionIdIsNormal(xid: TransactionId) -> (normal: bool)
    ensures
        normal == (xid >= FirstNormalTransactionId),
        normal == (xid != InvalidTransactionId && xid != BootstrapTransactionId && xid
            != FrozenTransactionId),
{
    xid >= FirstNormalTransactionId
}

/// Whether a type is an array type, given the element type that the host's
/// catalog reports for it: a type is an array exactly when it has one.
pub fn type_is_array(element_type: Oid) -> (is_array: bool)
    ensures
        is_array == (element_type != InvalidOid),
{
    element_type != InvalidOid
}

/// The sentinel values stand in the order the host fixes: the invalid ids are
/// the all-zero or all-one patterns of their width, and the special
/// transaction ids are consecutive below the first normal one.
pub proof fn sentinels_are_ordered()
    ensures
        InvalidCommandId == u32::MAX,
        InvalidBlockNumber == u32::MAX,
        MaxTransactionId == u32::MAX,
        InvalidTransactionId == 0,
        InvalidOid == 0,
        FirstCommandId == 0,
        BootstrapTransactionId == InvalidTransactionId + 1,
        FrozenTransactionId == BootstrapTransactionId + 1,
        FirstNormalTransactionId == BootstrapTransactionId + 2,
        FirstNormalTransactionId == FrozenTransactionId + 1,
        FirstOffsetNumber == InvalidOffsetNumber + 1,
        MaxOffsetNumber * SIZEOF_ITEM_ID_DATA == BLCKSZ,
        !InvalidCommandId == 0u32,
{
    assert(!0xFFFF_FFFFu32 == 0u32) by (bit_vector);
}

} // verus!
