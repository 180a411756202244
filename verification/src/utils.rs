//! Emptiness queries over rows of optional cells.

use vstd::prelude::*;

verus! {

/// Whether every entry of `options` is `None`.
pub open spec fn all_none<T>(options: Seq<Option<T>>) -> bool {
    forall|i: int| 0 <= i < options.len() ==> options[i] is None
}

/// Whether column `col` holds `None` in every row of `rows`.
pub open spec fn all_none_col<T>(rows: Seq<Vec<Option<T>>>, col: int) -> bool {
    forall|r: int| 0 <= r < rows.len() ==> (#[trigger] rows[r])@[col] is None
}

/// Returns `true` exactly when no entry of `options` is occupied.
pub fn is_all_none<T>(options: &Vec<Option<T>>) -> (empty: bool)
    ensures
        empty == all_none(options@),
{
    let mut i: usize = 0;
    while i < options.len()
        invariant
            i <= options.len(),
            forall|k: int| 0 <= k < i ==> options@[k] is None,
        decreases options.len() - i,
    {
        if options[i].is_some() {
            return false;
        }
        i += 1;
    }
    true
}

/// Returns `true` exactly when column `col_id` is unoccupied in every row.
///
/// Every row has to be long enough to have a column `col_id`, and there has
/// to be at least one row.
pub fn is_all_none_col<T>(rows: &Vec<Vec<Option<T>>>, col_id: usize) -> (empty: bool)
    requires
        rows@.len() > 0,
        forall|r: int| 0 <= r < rows@.len() ==> col_id < (#[trigger] rows@[r])@.len(),
    ensures
        empty == all_none_col(rows@, col_id as int),
{
    let mut row_id: usize = 0;
    while row_id < rows.len()
        invariant
            row_id <= rows.len(),
            forall|r: int| 0 <= r < rows@.len() ==> col_id < (#[trigger] rows@[r])@.len(),
            forall|r: int| 0 <= r < row_id ==> (#[trigger] rows@[r])@[col_id as int] is None,
        decreases rows.len() - row_id,
    {
        if rows[row_id][col_id].is_some() {
            return false;
        }
        row_id += 1;
    }
    true
}

/// Index of the first row that holds an occupied entry, if there is one.
pub fn get_first_non_empty_row_id<T>(rows: &Vec<Vec<Option<T>>>) -> (found: Option<usize>)
    ensures
        match found {
            Some(row_id) => {
                &&& row_id < rows@.len()
                &&& !all_none(rows@[row_id as int]@)
                &&& forall|r: int| 0 <= r < row_id ==> all_none((#[trigger] rows@[r])@)
            },
            None => forall|r: int| 0 <= r < rows@.len() ==> all_none((#[trigger] rows@[r])@),
        },
{
    let mut row_id: usize = 0;
    while row_id < rows.len()
        invariant
            row_id <= rows.len(),
            forall|r: int| 0 <= r < row_id ==> all_none((#[trigger] rows@[r])@),
        decreases rows.len() - row_id,
    {
        if !is_all_none(&rows[row_id]) {
            return Some(row_id);
        }
        row_id += 1;
    }
    None
}

} // verus!
