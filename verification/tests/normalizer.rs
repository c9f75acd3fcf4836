use pgx_pg_sys::bufmgr::{Block, BufferGetBlock, BufferGetPage, BufferIsLocal, InvalidBuffer};
use pgx_pg_sys::htup::{
    heap_tuple_get_struct, HeapTupleData, HeapTupleHeaderData, HeapTupleHeaderGetRawCommandId,
    HeapTupleHeaderGetXmin, HeapTupleHeaderIsHeapOnly, HeapTupleHeaderIsHotUpdated,
    HeapTupleHeaderXminInvalid, HEAP_HOT_UPDATED, HEAP_ONLY_TUPLE, HEAP_XMAX_INVALID,
    HEAP_XMIN_COMMITTED, HEAP_XMIN_FROZEN, HEAP_XMIN_INVALID,
};
use pgx_pg_sys::rangetable::{
    pgx_list_nth, planner_rt_fetch, planner_rt_source, rt_fetch, rt_position, List, PlannerInfo,
    RteSource,
};
use pgx_pg_sys::types::Handle;
use pgx_pg_sys::{
    type_is_array, BootstrapTransactionId, FirstCommandId, FirstNormalTransactionId,
    FirstOffsetNumber, FrozenTransactionId, InvalidBlockNumber, InvalidCommandId,
    InvalidOffsetNumber, InvalidOid, InvalidTransactionId, MaxOffsetNumber, MaxTransactionId,
    TransactionIdIsNormal, BLCKSZ, VARHDRSZ, VARHDRSZ_EXTERNAL, VARHDRSZ_SHORT,
};

fn header(t_infomask: u16, t_infomask2: u16) -> HeapTupleHeaderData {
    HeapTupleHeaderData { t_xmin: 700, t_xmax: 0, t_cid: 9, t_infomask2, t_infomask, t_hoff: 24 }
}

#[test]
fn sentinels_have_the_host_values() {
    assert_eq!(InvalidOid, 0);
    assert_eq!(InvalidOffsetNumber, 0);
    assert_eq!(FirstOffsetNumber, 1);
    assert_eq!(MaxOffsetNumber, 2048);
    assert_eq!(InvalidBlockNumber, 0xFFFF_FFFF);
    assert_eq!(VARHDRSZ, 4);
    assert_eq!(InvalidTransactionId, 0);
    assert_eq!(InvalidCommandId, u32::MAX);
    assert_eq!(InvalidCommandId, !0u32);
    assert_eq!(FirstCommandId, 0);
    assert_eq!(BootstrapTransactionId, 1);
    assert_eq!(FrozenTransactionId, 2);
    assert_eq!(FirstNormalTransactionId, 3);
    assert_eq!(MaxTransactionId, 0xFFFF_FFFF);
    assert_eq!(BLCKSZ, 8192);
    assert_eq!(InvalidBuffer, 0);
}

#[test]
fn sentinels_are_consecutive() {
    assert_eq!(BootstrapTransactionId, InvalidTransactionId + 1);
    assert_eq!(FrozenTransactionId, BootstrapTransactionId + 1);
    assert_eq!(FirstNormalTransactionId, FrozenTransactionId + 1);
    assert_eq!(FirstNormalTransactionId, BootstrapTransactionId + 2);
    assert_eq!(u32::from(MaxOffsetNumber) * 4, BLCKSZ);
}

#[test]
fn flag_constants_have_the_host_values() {
    assert_eq!(HEAP_XMIN_COMMITTED, 0x0100);
    assert_eq!(HEAP_XMIN_INVALID, 0x0200);
    assert_eq!(HEAP_XMIN_FROZEN, HEAP_XMIN_COMMITTED | HEAP_XMIN_INVALID);
    assert_eq!(HEAP_XMAX_INVALID, 0x0800);
    assert_eq!(HEAP_HOT_UPDATED, 0x4000);
    assert_eq!(HEAP_ONLY_TUPLE, 0x8000);
}

#[test]
fn varlena_header_sizes() {
    assert_eq!(VARHDRSZ_EXTERNAL(), 2);
    assert_eq!(VARHDRSZ_SHORT(), 1);
}

#[test]
fn transaction_id_is_normal_from_three_up() {
    assert!(!TransactionIdIsNormal(InvalidTransactionId));
    assert!(!TransactionIdIsNormal(BootstrapTransactionId));
    assert!(!TransactionIdIsNormal(FrozenTransactionId));
    assert!(TransactionIdIsNormal(FirstNormalTransactionId));
    assert!(TransactionIdIsNormal(4));
    assert!(TransactionIdIsNormal(MaxTransactionId));
}

#[test]
fn type_is_array_when_it_has_an_element_type() {
    assert!(!type_is_array(InvalidOid));
    assert!(type_is_array(23));
    assert!(type_is_array(u32::MAX));
}

#[test]
fn xmin_of_null_header_is_absent() {
    assert_eq!(HeapTupleHeaderGetXmin(None), None);
    assert_eq!(HeapTupleHeaderGetRawCommandId(None), None);
}

#[test]
fn xmin_of_plain_header_is_the_stored_one() {
    let h = header(HEAP_XMIN_COMMITTED, 0);
    assert_eq!(HeapTupleHeaderGetXmin(Some(&h)), Some(700));
    let h = header(HEAP_XMIN_INVALID, 0);
    assert_eq!(HeapTupleHeaderGetXmin(Some(&h)), Some(700));
    let h = header(0, 0xFFFF);
    assert_eq!(HeapTupleHeaderGetXmin(Some(&h)), Some(700));
}

#[test]
fn xmin_of_frozen_header_is_the_frozen_id() {
    let h = header(HEAP_XMIN_FROZEN, 0);
    assert_eq!(HeapTupleHeaderGetXmin(Some(&h)), Some(FrozenTransactionId));
    let h = header(0xFFFF, 0);
    assert_eq!(HeapTupleHeaderGetXmin(Some(&h)), Some(2));
}

#[test]
fn raw_command_id_is_the_stored_one() {
    let h = header(HEAP_XMIN_FROZEN, 0);
    assert_eq!(HeapTupleHeaderGetRawCommandId(Some(&h)), Some(9));
    let mut h = header(0, 0);
    h.t_cid = InvalidCommandId;
    assert_eq!(HeapTupleHeaderGetRawCommandId(Some(&h)), Some(u32::MAX));
}

#[test]
fn heap_only_reads_the_top_bit() {
    assert!(HeapTupleHeaderIsHeapOnly(&header(0, HEAP_ONLY_TUPLE)));
    assert!(HeapTupleHeaderIsHeapOnly(&header(0, 0xFFFF)));
    assert!(!HeapTupleHeaderIsHeapOnly(&header(0xFFFF, 0x7FFF)));
    assert!(!HeapTupleHeaderIsHeapOnly(&header(0, 0)));
}

#[test]
fn xmin_invalid_needs_aborted_without_committed() {
    assert!(HeapTupleHeaderXminInvalid(&header(HEAP_XMIN_INVALID, 0)));
    assert!(HeapTupleHeaderXminInvalid(&header(HEAP_XMIN_INVALID | HEAP_XMAX_INVALID, 0)));
    assert!(!HeapTupleHeaderXminInvalid(&header(HEAP_XMIN_FROZEN, 0)));
    assert!(!HeapTupleHeaderXminInvalid(&header(HEAP_XMIN_COMMITTED, 0)));
    assert!(!HeapTupleHeaderXminInvalid(&header(0, 0xFFFF)));
}

#[test]
fn hot_updated_needs_all_three_conditions() {
    assert!(HeapTupleHeaderIsHotUpdated(&header(0, HEAP_HOT_UPDATED)));
    assert!(HeapTupleHeaderIsHotUpdated(&header(HEAP_XMIN_COMMITTED, HEAP_HOT_UPDATED)));
    assert!(HeapTupleHeaderIsHotUpdated(&header(HEAP_XMIN_FROZEN, HEAP_HOT_UPDATED)));
    assert!(!HeapTupleHeaderIsHotUpdated(&header(0, 0)));
    assert!(!HeapTupleHeaderIsHotUpdated(&header(0, HEAP_ONLY_TUPLE)));
    assert!(!HeapTupleHeaderIsHotUpdated(&header(HEAP_XMAX_INVALID, HEAP_HOT_UPDATED)));
    assert!(!HeapTupleHeaderIsHotUpdated(&header(HEAP_XMIN_INVALID, HEAP_HOT_UPDATED)));
}

#[test]
fn flag_tests_give_the_same_answer_twice() {
    let h = header(HEAP_XMIN_INVALID, HEAP_HOT_UPDATED | HEAP_ONLY_TUPLE);
    assert_eq!(HeapTupleHeaderIsHeapOnly(&h), HeapTupleHeaderIsHeapOnly(&h));
    assert_eq!(HeapTupleHeaderIsHotUpdated(&h), HeapTupleHeaderIsHotUpdated(&h));
    assert_eq!(HeapTupleHeaderXminInvalid(&h), HeapTupleHeaderXminInvalid(&h));
    let mut other = h;
    other.t_xmin = 1;
    other.t_xmax = 99;
    other.t_cid = 4;
    other.t_hoff = 32;
    assert_eq!(HeapTupleHeaderIsHeapOnly(&h), HeapTupleHeaderIsHeapOnly(&other));
    assert_eq!(HeapTupleHeaderIsHotUpdated(&h), HeapTupleHeaderIsHotUpdated(&other));
    assert_eq!(HeapTupleHeaderXminInvalid(&h), HeapTupleHeaderXminInvalid(&other));
}

#[test]
fn struct_of_null_tuple_is_null() {
    assert!(heap_tuple_get_struct(None).is_null());
    assert_eq!(heap_tuple_get_struct(None), Handle::null());
}

#[test]
fn struct_of_tuple_lies_behind_the_header() {
    let t = HeapTupleData {
        t_len: 100,
        t_tableOid: 16384,
        t_data: Handle::at(0x1000),
        header: header(0, 0),
    };
    assert_eq!(heap_tuple_get_struct(Some(&t)), Handle::at(0x1000 + 24));
    let end = HeapTupleData {
        t_len: 1,
        t_tableOid: 1,
        t_data: Handle::at(u64::MAX - 24),
        header: header(0, 0),
    };
    assert_eq!(heap_tuple_get_struct(Some(&end)).addr, u64::MAX);
}

#[test]
fn buffer_is_local_when_negative() {
    assert!(BufferIsLocal(-1));
    assert!(BufferIsLocal(i32::MIN));
    assert!(!BufferIsLocal(0));
    assert!(!BufferIsLocal(1));
    assert!(!BufferIsLocal(i32::MAX));
}

#[test]
fn block_of_local_buffer_is_an_index() {
    assert_eq!(BufferGetBlock(-1), Block::Local { index: 0 });
    assert_eq!(BufferGetBlock(-2), Block::Local { index: 1 });
    assert_eq!(BufferGetBlock(-1000), Block::Local { index: 999 });
    assert_eq!(BufferGetBlock(i32::MIN), Block::Local { index: 2147483647 });
}

#[test]
fn block_of_shared_buffer_is_an_offset() {
    assert_eq!(BufferGetBlock(1), Block::Shared { offset: 0 });
    assert_eq!(BufferGetBlock(2), Block::Shared { offset: 8192 });
    assert_eq!(BufferGetBlock(129), Block::Shared { offset: 128 * 8192 });
    assert_eq!(BufferGetBlock(i32::MAX), Block::Shared { offset: 2147483646 * 8192 });
}

#[test]
fn page_is_the_block() {
    assert_eq!(BufferGetPage(3), BufferGetBlock(3));
    assert_eq!(BufferGetPage(3), Block::Shared { offset: 16384 });
    assert_eq!(BufferGetPage(-3), Block::Local { index: 2 });
}

#[test]
fn rt_fetch_counts_from_one() {
    let list = List { elements: vec![Handle::at(10), Handle::at(20), Handle::at(30)] };
    assert_eq!(rt_fetch(1, &list), Handle::at(10));
    assert_eq!(rt_fetch(2, &list), Handle::at(20));
    assert_eq!(rt_fetch(3, &list), Handle::at(30));
    assert_eq!(pgx_list_nth(&list, 0), Handle::at(10));
    assert_eq!(pgx_list_nth(&list, 2), Handle::at(30));
}

#[test]
fn rt_position_is_one_less() {
    assert_eq!(rt_position(1), 0);
    assert_eq!(rt_position(2), 1);
    assert_eq!(rt_position(2147483647), 2147483646);
}

#[test]
fn planner_rt_fetch_indexes_the_array() {
    let root = PlannerInfo {
        simple_rte_array: Some(vec![Handle::null(), Handle::at(11), Handle::at(22)]),
        rtable: List { elements: vec![Handle::at(77), Handle::at(88)] },
    };
    assert_eq!(planner_rt_fetch(0, &root), Handle::null());
    assert_eq!(planner_rt_fetch(1, &root), Handle::at(11));
    assert_eq!(planner_rt_fetch(2, &root), Handle::at(22));
}

#[test]
fn planner_rt_fetch_without_the_array_reads_the_range_table() {
    let root = PlannerInfo {
        simple_rte_array: None,
        rtable: List { elements: vec![Handle::at(77), Handle::at(88)] },
    };
    assert_eq!(planner_rt_fetch(1, &root), Handle::at(77));
    assert_eq!(planner_rt_fetch(2, &root), Handle::at(88));
    assert_eq!(planner_rt_fetch(2, &root), rt_fetch(2, &root.rtable));
}

#[test]
fn planner_rt_fetch_on_a_single_entry_table() {
    let root = PlannerInfo {
        simple_rte_array: None,
        rtable: List { elements: vec![Handle::at(5)] },
    };
    assert_eq!(planner_rt_fetch(1, &root), Handle::at(5));
}

#[test]
fn planner_source_follows_the_array() {
    assert_eq!(planner_rt_source(0, true), RteSource::PlannerArray { slot: 0 });
    assert_eq!(planner_rt_source(7, true), RteSource::PlannerArray { slot: 7 });
    assert_eq!(planner_rt_source(1, false), RteSource::RangeTable { nth: 0 });
    assert_eq!(planner_rt_source(7, false), RteSource::RangeTable { nth: 6 });
}

#[test]
fn handles_know_null() {
    assert!(Handle::null().is_null());
    assert!(Handle::at(0).is_null());
    assert!(!Handle::at(1).is_null());
    assert_eq!(Handle::at(5).addr, 5);
}
