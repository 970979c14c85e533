use pgvectorscale::custom_executor::{
    execute_bitmap_filtered_vector_search, BitmapFilter, BitmapFilteredTSVResponseIterator,
    BitmapFilteredVectorScanHook, BitmapFilteredVectorScanState, ScanStep, SearchResult,
};
use pgvectorscale::item_pointer::{HeapPointer, IndexPointer, ItemPointer, INVALID_OFFSET_NUMBER};
use pgvectorscale::tid_bitmap::TidBitmap;

fn hp(block_number: u32, offset: u16) -> HeapPointer {
    ItemPointer { block_number, offset }
}

fn ip(block_number: u32, offset: u16) -> IndexPointer {
    ItemPointer { block_number, offset }
}

fn bitmap_of(tids: &[ItemPointer]) -> TidBitmap {
    let mut tbm = TidBitmap::new();
    tbm.add_tuples(tids);
    tbm
}

#[test]
fn test_bitmap_filter_operations() {
    let bitmap_filter = BitmapFilter::new(Some(bitmap_of(&[hp(1, 1), hp(1, 2)])));
    let heap_pointer1 = HeapPointer { block_number: 1, offset: 1 };
    let heap_pointer2 = HeapPointer { block_number: 1, offset: 2 };
    let heap_pointer3 = HeapPointer { block_number: 1, offset: 3 };
    assert!(bitmap_filter.contains(&heap_pointer1));
    assert!(bitmap_filter.contains(&heap_pointer2));
    assert!(!bitmap_filter.contains(&heap_pointer3));
}

#[test]
fn test_filter_without_bitmap_allows_everything() {
    let filter = BitmapFilter::new(None);
    assert!(filter.contains(&hp(0, 0)));
    assert!(filter.contains(&hp(7, 3)));
    assert!(filter.contains(&hp(u32::MAX, u16::MAX)));
}

#[test]
fn test_empty_bitmap_allows_nothing() {
    let filter = BitmapFilter::new(Some(TidBitmap::new()));
    assert!(!filter.contains(&hp(1, 1)));
    assert!(!filter.contains(&hp(0, 0)));
}

#[test]
fn test_bitmap_tuples_are_kept_apart_by_block_and_offset() {
    let tbm = bitmap_of(&[hp(2, 5), hp(0, 7), hp(2, 5), hp(u32::MAX, u16::MAX)]);
    assert!(tbm.is_member(&hp(2, 5)));
    assert!(tbm.is_member(&hp(0, 7)));
    assert!(tbm.is_member(&hp(u32::MAX, u16::MAX)));
    assert!(!tbm.is_member(&hp(5, 2)));
    assert!(!tbm.is_member(&hp(7, 0)));
    assert!(!tbm.is_member(&hp(2, 6)));
    assert!(!tbm.is_member(&hp(u32::MAX, 0)));
}

#[test]
fn test_bitmap_whole_page_holds_every_offset() {
    let mut tbm = bitmap_of(&[hp(3, 1)]);
    tbm.add_page(8);
    assert!(tbm.is_member(&hp(8, 0)));
    assert!(tbm.is_member(&hp(8, 1)));
    assert!(tbm.is_member(&hp(8, u16::MAX)));
    assert!(tbm.is_member(&hp(3, 1)));
    assert!(!tbm.is_member(&hp(3, 2)));
    assert!(!tbm.is_member(&hp(9, 1)));
    tbm.add_page(8);
    tbm.add_page(0);
    assert!(tbm.is_member(&hp(0, 42)));
    assert!(tbm.is_member(&hp(8, 5)));
}

#[test]
fn test_item_pointer_key_orders_by_block_then_offset() {
    assert_eq!(hp(0, 0).key(), 0);
    assert_eq!(hp(1, 2).key(), 65538);
    assert!(hp(1, u16::MAX).key() < hp(2, 0).key());
    assert_eq!(INVALID_OFFSET_NUMBER, 0);
}

#[test]
fn test_iterator_filters_and_counts() {
    let filter = BitmapFilter::new(Some(bitmap_of(&[hp(1, 1), hp(1, 2), hp(4, 0)])));
    let mut it = BitmapFilteredTSVResponseIterator::new(40, Some(filter));
    assert_eq!(it.search_list_size(), 40);
    assert_eq!(it.get_filter_stats(), (0, 0));
    // in the bitmap
    assert_eq!(it.next_filtered(Some((hp(1, 1), ip(10, 1)))), ScanStep::Return(hp(1, 1), ip(10, 1)));
    // not in the bitmap: filtered out and counted
    assert_eq!(it.next_filtered(Some((hp(1, 3), ip(10, 2)))), ScanStep::Skip);
    // in the bitmap but deleted: skipped, not counted as filtered
    assert_eq!(it.next_filtered(Some((hp(4, 0), ip(10, 3)))), ScanStep::Skip);
    assert_eq!(it.next_filtered(Some((hp(1, 2), ip(10, 4)))), ScanStep::Return(hp(1, 2), ip(10, 4)));
    assert_eq!(it.get_filter_stats(), (1, 4));
    assert_eq!(it.next_filtered(None), ScanStep::Exhausted);
    assert_eq!(it.next_filtered(None), ScanStep::Exhausted);
    assert_eq!(it.get_filter_stats(), (1, 4));
}

#[test]
fn test_iterator_without_filter_skips_only_deleted() {
    let mut it = BitmapFilteredTSVResponseIterator::new(10, None);
    assert_eq!(it.next_filtered(Some((hp(9, 9), ip(1, 1)))), ScanStep::Return(hp(9, 9), ip(1, 1)));
    assert_eq!(it.next_filtered(Some((hp(9, 0), ip(1, 2)))), ScanStep::Skip);
    assert_eq!(it.get_filter_stats(), (0, 2));
}

#[test]
fn test_deleted_tuple_outside_bitmap_counts_as_filtered() {
    let filter = BitmapFilter::new(Some(bitmap_of(&[hp(1, 1)])));
    let mut it = BitmapFilteredTSVResponseIterator::new(10, Some(filter));
    assert_eq!(it.next_filtered(Some((hp(2, 0), ip(1, 1)))), ScanStep::Skip);
    assert_eq!(it.get_filter_stats(), (1, 1));
}

#[test]
fn test_scan_state_initializes_once() {
    let filter = BitmapFilter::new(Some(bitmap_of(&[hp(1, 1)])));
    let mut state = BitmapFilteredVectorScanState::new("query", 25, Some(filter));
    assert_eq!(state.search_list_size(), 25);
    // before the iterator is set up the scan has nothing to return
    assert_eq!(state.next_tuple(Some((hp(1, 1), ip(2, 2)))), ScanStep::Exhausted);
    assert_eq!(state.get_stats(), (0, 0));
    assert_eq!(state.initialize_iterator(), Some("query"));
    assert_eq!(state.initialize_iterator(), None);
    assert_eq!(state.next_tuple(Some((hp(1, 1), ip(2, 2)))), ScanStep::Return(hp(1, 1), ip(2, 2)));
    assert_eq!(state.next_tuple(Some((hp(1, 5), ip(2, 3)))), ScanStep::Skip);
    assert_eq!(state.next_tuple(None), ScanStep::Exhausted);
    assert_eq!(state.get_stats(), (1, 1));
    assert_eq!(state.candidates_checked(), 2);
}

#[test]
fn test_scan_stats_count_bitmap_rejections() {
    let filter = BitmapFilter::new(Some(bitmap_of(&[hp(1, 1), hp(2, 0)])));
    let mut state = BitmapFilteredVectorScanState::new(7u8, 10, Some(filter));
    assert_eq!(state.candidates_checked(), 0);
    assert_eq!(state.initialize_iterator(), Some(7u8));
    // rejected by the bitmap: counted as filtered
    assert_eq!(state.next_tuple(Some((hp(3, 3), ip(1, 1)))), ScanStep::Skip);
    assert_eq!(state.get_stats(), (0, 1));
    // in the bitmap but deleted: skipped, not counted as filtered
    assert_eq!(state.next_tuple(Some((hp(2, 0), ip(1, 2)))), ScanStep::Skip);
    assert_eq!(state.get_stats(), (0, 1));
    assert_eq!(state.next_tuple(Some((hp(1, 1), ip(1, 3)))), ScanStep::Return(hp(1, 1), ip(1, 3)));
    assert_eq!(state.next_tuple(Some((hp(4, 4), ip(1, 4)))), ScanStep::Skip);
    assert_eq!(state.get_stats(), (1, 2));
    assert_eq!(state.candidates_checked(), 4);
}

#[test]
fn test_scan_without_bitmap_filters_nothing() {
    let mut state = BitmapFilteredVectorScanState::new((), 10, Some(BitmapFilter::new(None)));
    state.initialize_iterator();
    assert_eq!(state.next_tuple(Some((hp(3, 3), ip(1, 1)))), ScanStep::Return(hp(3, 3), ip(1, 1)));
    assert_eq!(state.next_tuple(Some((hp(3, 0), ip(1, 2)))), ScanStep::Skip);
    assert_eq!(state.get_stats(), (1, 0));
}

#[test]
fn test_narrower_bitmap_only_removes_results() {
    let candidates: Vec<SearchResult> =
        vec![(hp(1, 1), ip(1, 1)), (hp(1, 2), ip(1, 2)), (hp(1, 3), ip(1, 3))];
    let wide = BitmapFilter::new(Some(bitmap_of(&[hp(1, 1), hp(1, 2), hp(1, 3)])));
    let narrow = BitmapFilter::new(Some(bitmap_of(&[hp(1, 3), hp(1, 1)])));
    let wide_results = execute_bitmap_filtered_vector_search((), 10, Some(wide), &candidates);
    let narrow_results = execute_bitmap_filtered_vector_search((), 10, Some(narrow), &candidates);
    assert_eq!(wide_results, candidates);
    assert_eq!(narrow_results, vec![(hp(1, 1), ip(1, 1)), (hp(1, 3), ip(1, 3))]);
}

#[test]
fn test_bitmap_membership_persists_after_more_additions() {
    let mut tbm = bitmap_of(&[hp(6, 6)]);
    tbm.add_tuples(&[hp(1, 1), hp(9, 9)]);
    tbm.add_page(6);
    tbm.add_tuples(&[hp(0, 1)]);
    assert!(tbm.is_member(&hp(6, 6)));
    assert!(tbm.is_member(&hp(1, 1)));
    assert!(tbm.is_member(&hp(9, 9)));
    assert!(tbm.is_member(&hp(0, 1)));
}

#[test]
fn test_execute_bitmap_filtered_vector_search() {
    let filter = BitmapFilter::new(Some(bitmap_of(&[hp(1, 1), hp(1, 2), hp(3, 0)])));
    let candidates: Vec<SearchResult> = vec![
        (hp(1, 2), ip(7, 1)),
        (hp(2, 1), ip(7, 2)),
        (hp(3, 0), ip(7, 3)),
        (hp(1, 1), ip(7, 4)),
        (hp(1, 3), ip(7, 5)),
    ];
    let results = execute_bitmap_filtered_vector_search(0u32, 100, Some(filter), &candidates);
    assert_eq!(results, vec![(hp(1, 2), ip(7, 1)), (hp(1, 1), ip(7, 4))]);
}

#[test]
fn test_execute_without_filter_and_without_candidates() {
    let candidates: Vec<SearchResult> = vec![(hp(5, 1), ip(1, 1)), (hp(5, 0), ip(1, 2))];
    let results = execute_bitmap_filtered_vector_search((), 10, None, &candidates);
    assert_eq!(results, vec![(hp(5, 1), ip(1, 1))]);
    let none = execute_bitmap_filtered_vector_search((), 10, None, &Vec::new());
    assert!(none.is_empty());
    let null_bitmap = BitmapFilter::new(None);
    let all = execute_bitmap_filtered_vector_search((), 10, Some(null_bitmap), &candidates);
    assert_eq!(all, vec![(hp(5, 1), ip(1, 1))]);
}

#[test]
fn test_can_optimize_query_is_false() {
    assert!(!BitmapFilteredVectorScanHook::can_optimize_query());
}
