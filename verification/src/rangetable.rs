//! Range table lookups: by one-based index in a list, and through the
//! planner, which keeps the range table as an array once it has built one.

use vstd::prelude::*;
use crate::types::{Handle, Index};

verus! {

/// A host list of pointers: its cells' values in order.
pub struct List {
    pub elements: Vec<Handle>,
}

/// What the lookups read of the planner's state: its array of range table
/// entries, where it has built one, indexed by range table index with entry
/// zero unused; and the range table of the query being planned.
pub struct PlannerInfo {
    pub simple_rte_array: Option<Vec<Handle>>,
    pub rtable: List,
}

/// Where the planner's entry for a range table index is read from.
#[derive(Clone, Copy, Debug, PartialEq, Eq, Structural)]
pub enum RteSource {
    /// The planner's array, at this slot.
    PlannerArray { slot: usize },
    /// The query's range table, at this cell, counted from zero.
    RangeTable { nth: i32 },
}

/// The planner's array serves an index directly; without the array the
/// entry is the cell before the one-based index in the query's range table.
pub open spec fn rte_source(index: Index, holds_array: bool) -> RteSource {
    if holds_array {
        RteSource::PlannerArray { slot: index as usize }
    } else {
        RteSource::RangeTable { nth: (index - 1) as i32 }
    }
}

/// The `nth` cell's value, counted from zero.
pub fn pgx_list_nth(list: &List, nth: i32) -> (cell: Handle)
    requires
        0 <= nth < list.elements@.len(),
    ensures
        cell == list.elements@[nth as int],
{
    list.elements[nth as usize]
}

/// The cell of a range table, counted from zero, that holds the entry with
/// the one-based `index`.
pub fn rt_position(index: Index) -> (nth: i32)
    requires
        1 <= index <= i32::MAX,
    ensures
        nth == index - 1,
{
    (index - 1) as i32
}

/// The range table entry with the one-based `index` in `range_table`.
pub fn rt_fetch(index: Index, range_table: &List) -> (entry: Handle)
    requires
        1 <= index <= range_table.elements@.len(),
        index <= i32::MAX,
    ensures
        entry == range_table.elements@[index - 1],
{
    pgx_list_nth(range_table, rt_position(index))
}

/// Where the planner's entry for range table `index` is read from, given
/// whether the planner holds its array.
pub fn planner_rt_source(index: Index, holds_array: bool) -> (source: RteSource)
    requires
        !holds_array ==> 1 <= index <= i32::MAX,
    ensures
        source == rte_source(index, holds_array),
{
    if holds_array {
        RteSource::PlannerArray { slot: index as usize }
    } else {
        RteSource::RangeTable { nth: rt_position(index) }
    }
}

/// The range table entry that the planner has for range table `index`: the
/// entry of its array at `index` where it holds the array, else the entry
/// with that one-based index in the range table of the query being planned.
pub fn planner_rt_fetch(index: Index, root: &PlannerInfo) -> (entry: Handle)
    requires
        root.simple_rte_array is Some ==> index < root.simple_rte_array->0@.len(),
        root.simple_rte_array is None ==> 1 <= index <= root.rtable.elements@.len() && index
            <= i32::MAX,
    ensures
        root.simple_rte_array is Some ==> entry == root.simple_rte_array->0@[index as int],
        root.simple_rte_array is None ==> entry == root.rtable.elements@[index - 1],
{
    match &root.simple_rte_array {
        Some(array) => match planner_rt_source(index, true) {
            RteSource::PlannerArray { slot } => array[slot],
            RteSource::RangeTable { .. } => vstd::pervasive::unreached(),
        },
        None => match planner_rt_source(index, false) {
            RteSource::PlannerArray { .. } => vstd::pervasive::unreached(),
            RteSource::RangeTable { nth } => pgx_list_nth(&root.rtable, nth),
        },
    }
}

} // verus!
