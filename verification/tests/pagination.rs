use medow::Pagination;

#[test]
fn test_new_pagination() {
    let pagination = Pagination::new();
    assert_eq!(pagination.total, 0);
    assert_eq!(pagination.offset, 0);
    assert_eq!(pagination.items.len(), 0);
}

#[test]
fn test_page_size() {
    let pagination = Pagination::new();
    assert_eq!(pagination.page_size(), 15);
}

#[test]
fn test_total_pages_empty() {
    let pagination = Pagination { total: 0, offset: 0, items: vec![] };
    assert_eq!(pagination.total_pages(), 0);
}

#[test]
fn test_total_pages_single_page() {
    let pagination = Pagination { total: 15, offset: 0, items: vec![] };
    assert_eq!(pagination.total_pages(), 1);
}

#[test]
fn test_total_pages_multiple_pages() {
    let pagination = Pagination { total: 30, offset: 0, items: vec![] };
    assert_eq!(pagination.total_pages(), 2);
}

#[test]
fn test_total_pages_partial_page() {
    let pagination = Pagination { total: 16, offset: 0, items: vec![] };
    assert_eq!(pagination.total_pages(), 2);
}

#[test]
fn test_has_next_page_no_items() {
    let pagination = Pagination { total: 0, offset: 0, items: vec![] };
    assert!(!pagination.has_next_page());
}

#[test]
fn test_has_next_page_single_page() {
    let pagination = Pagination { total: 15, offset: 0, items: vec![] };
    assert!(!pagination.has_next_page());
}

#[test]
fn test_has_next_page_multiple_pages() {
    let pagination = Pagination { total: 30, offset: 0, items: vec![] };
    assert!(pagination.has_next_page());
}

#[test]
fn test_has_next_page_last_page() {
    let pagination = Pagination { total: 30, offset: 15, items: vec![] };
    assert!(!pagination.has_next_page());
}

#[test]
fn test_has_previous_page_no_items() {
    let pagination = Pagination { total: 0, offset: 0, items: vec![] };
    assert!(!pagination.has_previous_page());
}

#[test]
fn test_has_previous_page_first_page() {
    let pagination = Pagination { total: 30, offset: 0, items: vec![] };
    assert!(!pagination.has_previous_page());
}

#[test]
fn test_has_previous_page_middle_page() {
    let pagination = Pagination { total: 30, offset: 15, items: vec![] };
    assert!(pagination.has_previous_page());
}

#[test]
fn test_current_page_first_page() {
    let pagination = Pagination { total: 30, offset: 0, items: vec![] };
    assert_eq!(pagination.current_page(), 1);
}

#[test]
fn test_current_page_middle_page() {
    let pagination = Pagination { total: 30, offset: 15, items: vec![] };
    assert_eq!(pagination.current_page(), 2);
}

#[test]
fn test_next_offset_no_items() {
    let pagination = Pagination { total: 0, offset: 0, items: vec![] };
    assert_eq!(pagination.next_offset(), None);
}

#[test]
fn test_next_offset_single_page() {
    let pagination = Pagination { total: 15, offset: 0, items: vec![] };
    assert_eq!(pagination.next_offset(), None);
}

#[test]
fn test_next_offset_multiple_pages() {
    let pagination = Pagination { total: 30, offset: 0, items: vec![] };
    assert_eq!(pagination.next_offset(), Some(15));
}

#[test]
fn test_next_offset_last_page() {
    let pagination = Pagination { total: 30, offset: 15, items: vec![] };
    assert_eq!(pagination.next_offset(), None);
}

#[test]
fn test_previous_offset_no_items() {
    let pagination = Pagination { total: 0, offset: 0, items: vec![] };
    assert_eq!(pagination.previous_offset(), None);
}

#[test]
fn test_previous_offset_first_page() {
    let pagination = Pagination { total: 30, offset: 0, items: vec![] };
    assert_eq!(pagination.previous_offset(), None);
}

#[test]
fn test_previous_offset_middle_page() {
    let pagination = Pagination { total: 30, offset: 15, items: vec![] };
    assert_eq!(pagination.previous_offset(), Some(0));
}

#[test]
fn test_items_on_page_full_page() {
    let pagination = Pagination { total: 30, offset: 0, items: vec![] };
    assert_eq!(pagination.items_on_page(), 15);
}

#[test]
fn test_items_on_page_partial_page() {
    let pagination = Pagination { total: 16, offset: 15, items: vec![] };
    assert_eq!(pagination.items_on_page(), 1);
}

#[test]
fn test_items_on_page_last_page() {
    let pagination = Pagination { total: 30, offset: 15, items: vec![] };
    assert_eq!(pagination.items_on_page(), 15);
}

#[test]
fn test_is_valid_valid_offset() {
    let pagination = Pagination { total: 30, offset: 15, items: vec![] };
    assert!(pagination.is_valid());
}

#[test]
fn test_is_valid_invalid_offset() {
    let pagination = Pagination { total: 15, offset: 20, items: vec![] };
    assert!(!pagination.is_valid());
}

#[test]
fn test_item_range_full_page() {
    let pagination = Pagination { total: 30, offset: 0, items: vec![] };
    assert_eq!(pagination.item_range(), (0, 15));
}

#[test]
fn test_item_range_partial_page() {
    let pagination = Pagination { total: 16, offset: 15, items: vec![] };
    assert_eq!(pagination.item_range(), (15, 16));
}

#[test]
fn test_info_empty() {
    let pagination = Pagination { total: 0, offset: 0, items: vec![] };
    assert_eq!(pagination.info(), "Page 1/0 (Items 1-0 of 0)");
}

#[test]
fn test_info_single_page() {
    let pagination = Pagination { total: 15, offset: 0, items: vec![] };
    assert_eq!(pagination.info(), "Page 1/1 (Items 1-15 of 15)");
}

#[test]
fn test_info_multiple_pages() {
    let pagination = Pagination { total: 30, offset: 15, items: vec![] };
    assert_eq!(pagination.info(), "Page 2/2 (Items 16-30 of 30)");
}

#[test]
fn test_next_then_previous_offset_round_trip() {
    let mut pagination = Pagination { total: 100, offset: 30, items: vec![] };
    let forward = pagination.next_offset().unwrap();
    pagination.offset = forward;
    assert_eq!(pagination.previous_offset(), Some(30));
}

#[test]
fn test_current_page_non_decreasing_in_page_steps() {
    let pagination = Pagination { total: 1000, offset: 0, items: vec![] };
    let mut last_page = pagination.current_page();
    let mut offset = 0;
    while offset < 1000 {
        offset += 15;
        let stepped = Pagination { total: 1000, offset, items: vec![] };
        let page = stepped.current_page();
        assert!(page >= last_page);
        last_page = page;
    }
}

#[test]
fn test_item_range_matches_items_on_page() {
    for total in [0usize, 1, 14, 15, 16, 29, 30, 31, 100] {
        for offset in [0usize, 1, 14, 15, 16, 30, 99, 100] {
            if offset <= total {
                let pagination = Pagination { total, offset, items: vec![] };
                let (start, end) = pagination.item_range();
                assert_eq!(start, offset);
                assert_eq!(end, (offset + 15).min(total));
                assert_eq!(pagination.items_on_page(), end - start);
            }
        }
    }
}

#[test]
fn test_total_pages_is_ceiling() {
    let cases = [
        (1usize, 1usize),
        (14, 1),
        (15, 1),
        (16, 2),
        (29, 2),
        (30, 2),
        (31, 3),
        (149, 10),
        (150, 10),
        (151, 11),
    ];
    for (total, pages) in cases {
        let pagination = Pagination { total, offset: 0, items: vec![] };
        assert_eq!(pagination.total_pages(), pages);
    }
}
