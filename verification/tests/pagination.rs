use moth::pagination::{get_paginated_records, has_page, next_page, previous_page, total_pages, RECORDS_PER_PAGE};

#[test]
fn full_page_has_twenty_records() {
    let records: Vec<u32> = (0..45).collect();
    assert_eq!(RECORDS_PER_PAGE, 20);
    assert_eq!(get_paginated_records(&records, 0), &records[0..20]);
    assert_eq!(get_paginated_records(&records, 1), &records[20..40]);
}

#[test]
fn last_page_is_what_is_left() {
    let records: Vec<u32> = (0..45).collect();
    assert_eq!(get_paginated_records(&records, 2), &[40, 41, 42, 43, 44]);
    let exact: Vec<u32> = (0..40).collect();
    assert_eq!(get_paginated_records(&exact, 1).len(), 20);
    assert!(get_paginated_records(&exact, 2).is_empty());
}

#[test]
fn empty_list_has_an_empty_first_page() {
    let records: Vec<u32> = vec![];
    assert!(get_paginated_records(&records, 0).is_empty());
    assert!(has_page(0, 0));
    assert!(!has_page(0, 1));
}

#[test]
fn page_exists_up_to_the_end_of_the_list() {
    assert!(has_page(45, 2));
    assert!(!has_page(45, 3));
    assert!(has_page(40, 2));
    assert!(!has_page(39, 2));
    assert!(!has_page(usize::MAX, usize::MAX));
    assert!(has_page(usize::MAX, usize::MAX / 20));
}

#[test]
fn page_count_rounds_up() {
    assert_eq!(total_pages(0), 0);
    assert_eq!(total_pages(1), 1);
    assert_eq!(total_pages(20), 1);
    assert_eq!(total_pages(21), 2);
    assert_eq!(total_pages(45), 3);
    assert_eq!(total_pages(usize::MAX), usize::MAX / 20 + 1);
}

#[test]
fn next_page_wraps_to_the_first() {
    assert_eq!(next_page(0, 3), 1);
    assert_eq!(next_page(1, 3), 2);
    assert_eq!(next_page(2, 3), 0);
    assert_eq!(next_page(5, 3), 0);
    assert_eq!(next_page(0, 0), 0);
    assert_eq!(next_page(usize::MAX, usize::MAX), 0);
}

#[test]
fn previous_page_wraps_to_the_last() {
    assert_eq!(previous_page(0, 3), 2);
    assert_eq!(previous_page(2, 3), 1);
    assert_eq!(previous_page(1, 3), 0);
    assert_eq!(previous_page(0, 1), 0);
}
