use chain_lookup::pagination::{
    bitcoin_pagination, default_limit, default_page, effective_limit, effective_page,
    evm_pagination, page_offset, total_pages,
};

#[test]
fn limit_above_maximum_is_fifty() {
    assert_eq!(effective_limit(51), 50);
    assert_eq!(effective_limit(1000), 50);
    assert_eq!(effective_limit(u32::MAX), 50);
    assert_eq!(effective_limit(50), 50);
    assert_eq!(effective_limit(0), 1);
    assert_eq!(effective_limit(7), 7);
}

#[test]
fn page_below_one_is_one() {
    assert_eq!(effective_page(0), 1);
    assert_eq!(effective_page(1), 1);
    assert_eq!(effective_page(9), 9);
}

#[test]
fn defaults() {
    assert_eq!(default_page(), 1);
    assert_eq!(default_limit(), 10);
}

#[test]
fn empty_listing_has_one_page() {
    assert_eq!(total_pages(0, 1), 1);
    assert_eq!(total_pages(0, 10), 1);
    assert_eq!(total_pages(0, 50), 1);
}

#[test]
fn page_count_is_ceiling() {
    assert_eq!(total_pages(101, 10), 11);
    assert_eq!(total_pages(100, 10), 10);
    assert_eq!(total_pages(1, 50), 1);
    assert_eq!(total_pages(51, 50), 2);
    assert_eq!(total_pages(u32::MAX, 1), u32::MAX);
    assert_eq!(total_pages(u32::MAX, 50), 85899346);
}

#[test]
fn offsets() {
    assert_eq!(page_offset(1, 10), 0);
    assert_eq!(page_offset(3, 20), 40);
    assert_eq!(page_offset(u32::MAX, 50), (u32::MAX as u64 - 1) * 50);
}

#[test]
fn pagination_blocks() {
    let p = bitcoin_pagination(0, 100, 101);
    assert_eq!(p.current_page, 1);
    assert_eq!(p.per_page, 50);
    assert_eq!(p.total_transactions, 101);
    assert_eq!(p.total_pages, 3);
    let e = evm_pagination(2, 0);
    assert_eq!(e.current_page, 2);
    assert_eq!(e.per_page, 1);
}
