use ime_session::paginator::Paginator;

fn items(n: usize) -> Vec<String> {
    (0..n).map(|i| format!("c{}", i)).collect()
}

fn page_lengths(p: &Paginator) -> Vec<usize> {
    (0..p.page_count()).map(|i| p.page_len(i)).collect()
}

#[test]
fn twenty_three_items_make_three_pages() {
    let p = Paginator::open(items(23), 10, 4).unwrap();
    assert_eq!(p.page_count(), 3);
    assert_eq!(page_lengths(&p), vec![10, 10, 3]);
    assert_eq!(p.page_len(3), 0);
}

#[test]
fn even_division_has_full_last_page() {
    let p = Paginator::open(items(20), 10, 4).unwrap();
    assert_eq!(page_lengths(&p), vec![10, 10]);
}

#[test]
fn page_count_is_ceiling() {
    for len in 1..40 {
        for cap in 1..12 {
            let p = Paginator::open(items(len), cap, 3).unwrap();
            let n = (len + cap - 1) / cap;
            assert_eq!(p.page_count(), n);
            assert_eq!(p.page_len(n - 1), len - (n - 1) * cap);
            assert_eq!(page_lengths(&p).iter().sum::<usize>(), len);
        }
    }
}

#[test]
fn single_candidate() {
    let p = Paginator::open(items(1), 10, 4).unwrap();
    assert_eq!(page_lengths(&p), vec![1]);
    assert_eq!(p.page_items(0), vec!["c0".to_string()]);
}

#[test]
fn open_starts_at_first_page() {
    let p = Paginator::open(items(23), 10, 4).unwrap();
    assert_eq!(p.page(), 0);
    assert_eq!(p.index(), 0);
    assert_eq!(p.page_items(0), items(10));
    assert_eq!(p.page_items(2), vec!["c20".to_string(), "c21".to_string(), "c22".to_string()]);
}

#[test]
fn open_rejects_empty_list() {
    assert!(Paginator::open(Vec::new(), 10, 4).is_none());
}

#[test]
fn right_twice_then_down_on_short_last_page() {
    let mut p = Paginator::open(items(23), 10, 4).unwrap();
    p.move_right();
    p.move_right();
    assert_eq!(p.page(), 2);
    assert_eq!(p.page_len(p.page()), 3);
    assert!(!p.move_down());
    assert!(!p.move_down());
    assert_eq!(p.index(), 2);
    // The last position asks for the next batch instead of moving on.
    assert!(p.move_down());
    assert_eq!(p.index(), 2);
    assert_eq!(p.page(), 2);
}

#[test]
fn move_right_clamps_at_last_page_and_position() {
    let mut p = Paginator::open(items(23), 10, 4).unwrap();
    p.move_right();
    for _ in 0..7 {
        assert!(!p.move_down());
    }
    assert_eq!(p.index(), 7);
    p.move_right();
    assert_eq!(p.page(), 2);
    assert_eq!(p.index(), 2);
    p.move_right();
    assert_eq!(p.page(), 2);
    assert_eq!(p.index(), 2);
}

#[test]
fn move_left_stops_at_page_zero() {
    let mut p = Paginator::open(items(23), 10, 4).unwrap();
    p.move_left();
    assert_eq!(p.page(), 0);
    p.move_right();
    assert!(!p.move_down());
    p.move_left();
    assert_eq!(p.page(), 0);
    assert_eq!(p.index(), 1);
}

#[test]
fn move_up_at_top_changes_nothing() {
    let mut p = Paginator::open(items(23), 10, 4).unwrap();
    for _ in 0..5 {
        p.move_up();
        assert_eq!(p.page(), 0);
        assert_eq!(p.index(), 0);
    }
    assert!(!p.move_down());
    p.move_up();
    assert_eq!(p.index(), 0);
}

#[test]
fn select_index_is_page_times_capacity_plus_slot() {
    let mut p = Paginator::open(items(23), 10, 4).unwrap();
    assert_eq!(p.select_index(4), 4);
    p.move_right();
    assert_eq!(p.select_index(0), 10);
    assert_eq!(p.select_index(9), 19);
    p.move_right();
    assert_eq!(p.select_index(2), 22);
    for page in 0..p.page_count() {
        let mut q = Paginator::open(items(23), 10, 4).unwrap();
        for _ in 0..page {
            q.move_right();
        }
        for slot in 0..q.page_len(page) {
            let flat = q.select_index(slot);
            assert_eq!(flat, page * 10 + slot);
            assert!(flat < 23);
            assert_eq!(q.candidates()[flat], format!("c{}", flat));
        }
    }
}

#[test]
fn select_index_past_a_short_page() {
    let mut p = Paginator::open(items(23), 10, 4).unwrap();
    p.move_right();
    p.move_right();
    assert_eq!(p.page_start(), 20);
    assert_eq!(p.select_index(5), 25);
    assert_eq!(p.select_index(9), 29);
    assert_eq!(p.page(), 2);
    assert_eq!(p.index(), 0);
}

#[test]
fn selected_follows_the_cursor() {
    let mut p = Paginator::open(items(23), 10, 4).unwrap();
    p.move_right();
    assert!(!p.move_down());
    assert_eq!(p.selected(), 11);
}

#[test]
fn window_of_pages() {
    // 45 candidates: pages 0..4 full, page 4 holds 5; windows of 4 pages.
    let mut p = Paginator::open(items(45), 10, 4).unwrap();
    let w = p.visible_pages();
    assert_eq!(w.len(), 4);
    assert_eq!(w[1], p.page_items(1));
    for _ in 0..4 {
        p.move_right();
    }
    assert_eq!(p.page(), 4);
    assert_eq!(p.window_position(), 0);
    let w = p.visible_pages();
    assert_eq!(w.len(), 1);
    assert_eq!(w[0].len(), 5);
    assert_eq!(w[0][0], "c40");
    p.move_left();
    assert_eq!(p.window_position(), 3);
    assert_eq!(p.visible_pages().len(), 4);
}

#[test]
fn hover_moves_within_the_window() {
    let mut p = Paginator::open(items(23), 10, 4).unwrap();
    assert!(p.hover(2, 1));
    assert_eq!(p.page(), 2);
    assert_eq!(p.index(), 1);
    // Past the end of the short last page.
    assert!(!p.hover(2, 5));
    assert_eq!(p.page(), 2);
    assert_eq!(p.index(), 1);
    // A window position with no page.
    assert!(!p.hover(3, 0));
    assert!(!p.hover(4, 0));
    assert_eq!(p.page(), 2);
}

#[test]
fn capacity_one_pages() {
    let mut p = Paginator::open(items(3), 1, 2).unwrap();
    assert_eq!(page_lengths(&p), vec![1, 1, 1]);
    assert!(p.move_down());
    p.move_right();
    p.move_right();
    assert_eq!(p.page(), 2);
    assert_eq!(p.window_position(), 0);
    assert_eq!(p.visible_pages(), vec![vec!["c2".to_string()]]);
}
