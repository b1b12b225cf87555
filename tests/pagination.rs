use supermq_sdk::paginate::Paginator;

/// Runs a walk against a fake listing that answers with pages of the given sizes, in turn.
/// Returns the items gathered and the offsets requested.
fn walk(page_size: u64, sizes: &[usize]) -> (Vec<u64>, Vec<u64>) {
    let mut pager: Paginator<u64> = Paginator::new(page_size);
    let mut offsets = Vec::new();
    while let Some(offset) = pager.next_offset() {
        assert!(pager.within_limits());
        let n = sizes[offsets.len()];
        offsets.push(offset);
        let page: Vec<u64> = (0..n as u64).map(|i| offset + i).collect();
        pager.record_page(page);
    }
    (pager.into_items(), offsets)
}

#[test]
fn scenario_two_full_pages_then_37() {
    let (items, offsets) = walk(100, &[100, 100, 37]);
    assert_eq!(items.len(), 237);
    assert_eq!(offsets, vec![0, 100, 200]);
    assert_eq!(items[0], 0);
    assert_eq!(items[236], 236);
}

#[test]
fn full_pages_then_partial_counts() {
    let (items, offsets) = walk(10, &[10, 10, 10, 10, 3]);
    assert_eq!(items.len(), 43);
    assert_eq!(offsets, vec![0, 10, 20, 30, 40]);
}

#[test]
fn empty_first_page_is_one_request() {
    let (items, offsets) = walk(100, &[0, 100, 100]);
    assert!(items.is_empty());
    assert_eq!(offsets, vec![0]);
}

#[test]
fn empty_page_after_full_pages_stops() {
    let (items, offsets) = walk(5, &[5, 0]);
    assert_eq!(items.len(), 5);
    assert_eq!(offsets, vec![0, 5]);
}

#[test]
fn finished_walk_has_no_next_offset() {
    let mut pager: Paginator<u8> = Paginator::new(4);
    assert_eq!(pager.page_size(), 4);
    assert_eq!(pager.next_offset(), Some(0));
    pager.record_page(vec![1, 2]);
    assert_eq!(pager.next_offset(), None);
    assert_eq!(pager.into_items(), vec![1, 2]);
}
