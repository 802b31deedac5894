use vstd::prelude::*;

verus! {

/// Rows rendered above and below the visible part of a short list.
pub const DEFAULT_BUFFER_SIZE: usize = 5;

/// From this many items on, a list is rendered virtualized.
pub const VIRTUALIZATION_THRESHOLD: usize = 50;

/// Whether a list of `item_count` items is worth virtualizing.
pub fn should_virtualize(item_count: usize) -> (r: bool)
    ensures
        r == (item_count >= VIRTUALIZATION_THRESHOLD),
{
    item_count >= VIRTUALIZATION_THRESHOLD
}

/// The buffer of extra rows for a list of `item_count` items: larger lists
/// get larger buffers.
pub fn calculate_buffer_size(item_count: usize) -> (r: usize)
    ensures
        item_count < 100 ==> r == DEFAULT_BUFFER_SIZE,
        100 <= item_count < 500 ==> r == 10,
        500 <= item_count ==> r == 15,
{
    if item_count < 100 {
        DEFAULT_BUFFER_SIZE
    } else if item_count < 500 {
        10
    } else {
        15
    }
}

/// The bytes saved by rendering only `visible_items` of `total_items`, at
/// `bytes_per_item` each; zero where nothing is saved.
pub fn estimate_memory_savings(total_items: usize, visible_items: usize, bytes_per_item: usize) -> (r: usize)
    requires
        total_items * bytes_per_item <= usize::MAX,
        visible_items * bytes_per_item <= usize::MAX,
    ensures
        r == (if total_items * bytes_per_item >= visible_items * bytes_per_item {
            total_items * bytes_per_item - visible_items * bytes_per_item
        } else {
            0
        }),
{
    let without_virt = total_items * bytes_per_item;
    let with_virt = visible_items * bytes_per_item;
    without_virt.saturating_sub(with_virt)
}

} // verus!
