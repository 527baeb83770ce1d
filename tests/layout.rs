use options_viewer::layout::{allocate_heights, item_min_height, COLLAPSED_HEIGHT};
use options_viewer::nav::App;
use options_viewer::table::{table_columns, table_widths, Column, Field};

#[test]
fn surplus_goes_to_last_item() {
    assert_eq!(allocate_heights(&vec![3, 3, 3], 12), vec![3, 3, 6]);
}

#[test]
fn no_surplus_when_minimums_fill_area() {
    assert_eq!(allocate_heights(&vec![4, 4, 4], 12), vec![4, 4, 4]);
    assert_eq!(allocate_heights(&vec![5, 8, 3], 12), vec![5, 8, 3]);
    assert_eq!(allocate_heights(&vec![3, 3, 3], 0), vec![3, 3, 3]);
}

#[test]
fn allocation_of_nothing_is_nothing() {
    assert_eq!(allocate_heights(&Vec::new(), 40), Vec::<u64>::new());
}

#[test]
fn single_item_takes_whole_area() {
    assert_eq!(allocate_heights(&vec![8], 30), vec![30]);
    assert_eq!(allocate_heights(&vec![3], u16::MAX), vec![u16::MAX as u64]);
}

#[test]
fn huge_minimums_do_not_overflow() {
    assert_eq!(allocate_heights(&vec![u64::MAX, u64::MAX], 10), vec![u64::MAX, u64::MAX]);
}

#[test]
fn item_heights() {
    assert_eq!(item_min_height(false, 7), COLLAPSED_HEIGHT);
    assert_eq!(item_min_height(true, 3), 8);
    assert_eq!(item_min_height(true, 0), 5);
    assert_eq!(item_min_height(true, usize::MAX), u64::MAX);
}

#[test]
fn viewport_of_collapsed_list() {
    let app = App::new(vec![3, 3, 3]);
    let vp = app.viewport(12);
    assert_eq!((vp.start, vp.end, vp.clipped), (0, 3, false));
    assert_eq!(vp.heights, vec![3, 3, 6]);
}

#[test]
fn viewport_with_expanded_item() {
    let mut app = App::new(vec![3, 4, 2]);
    app.move_cursor_down();
    app.toggle_current_expiration();
    let vp = app.viewport(20);
    assert_eq!(vp.heights, vec![3, 9, 8]);
    let vp = app.viewport(10);
    assert_eq!(vp.heights, vec![3, 9, 3]);
}

#[test]
fn viewport_limited_by_area_height() {
    let app = App::new(vec![1; 8]);
    let vp = app.viewport(5);
    assert_eq!((vp.start, vp.end, vp.clipped), (0, 5, true));
    assert_eq!(vp.heights, vec![3, 3, 3, 3, 3]);
}

#[test]
fn viewport_after_scrolling() {
    let mut app = App::new(vec![1; 14]);
    app.move_cursor_up();
    assert_eq!((app.cursor_position(), app.scroll_offset()), (13, 4));
    let vp = app.viewport(40);
    assert_eq!((vp.start, vp.end, vp.clipped), (4, 14, true));
    assert_eq!(vp.heights, vec![3, 3, 3, 3, 3, 3, 3, 3, 3, 13]);
}

#[test]
fn viewport_of_empty_chain() {
    let app = App::new(Vec::new());
    let vp = app.viewport(30);
    assert_eq!((vp.start, vp.end, vp.clipped), (0, 0, false));
    assert!(vp.heights.is_empty());
}

#[test]
fn tabbed_viewport_is_one_full_region() {
    let mut app = App::new_tabbed(vec![3, 6]);
    app.move_cursor_down();
    let vp = app.viewport(25);
    assert_eq!((vp.start, vp.end, vp.clipped), (1, 2, true));
    assert_eq!(vp.heights, vec![25]);
}

fn titles(show: bool) -> Vec<&'static str> {
    table_columns(show).iter().map(|c| c.title()).collect()
}

#[test]
fn hiding_greeks_drops_three_columns_per_side() {
    // two expirations with three option pairs each, greeks shown at start
    let mut app = App::new(vec![3, 3]);
    app.toggle_current_expiration();
    assert!(app.show_greeks());
    let with = titles(app.show_greeks());
    let heights_with = app.viewport(30).heights;
    assert_eq!(
        with,
        vec![
            "Call Sym", "Bid", "Ask", "Bid Size", "Ask Size", "Volume", "Delta", "Gamma", "Vega",
            "Strike", "Put Sym", "Bid", "Ask", "Bid Size", "Ask Size", "Volume", "Delta", "Gamma",
            "Vega",
        ]
    );
    app.toggle_greeks();
    let without = titles(app.show_greeks());
    assert_eq!(
        without,
        vec![
            "Call Sym", "Bid", "Ask", "Bid Size", "Ask Size", "Volume", "Strike", "Put Sym", "Bid",
            "Ask", "Bid Size", "Ask Size", "Volume",
        ]
    );
    assert_eq!(with.len() - without.len(), 6);
    let kept: Vec<Column> = table_columns(true).into_iter().filter(|c| !c.is_greek()).collect();
    assert_eq!(kept, table_columns(false));
    assert_eq!(app.viewport(30).heights, heights_with);
    assert_eq!(heights_with, vec![8, 22]);
}

#[test]
fn column_widths() {
    assert_eq!(table_widths(false), vec![10, 8, 8, 8, 8, 8, 10, 10, 8, 8, 8, 8, 8]);
    assert_eq!(table_widths(true).len(), 19);
    assert_eq!(Column::Strike.width(), 10);
    assert_eq!(Column::Put(Field::Delta).width(), 8);
    assert!(Field::Gamma.is_greek());
    assert!(!Column::Strike.is_greek());
    assert_eq!(Column::Put(Field::Symbol).title(), "Put Sym");
}
