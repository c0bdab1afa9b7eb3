use interactive_picker::graphics::Rect;
use interactive_picker::layout::{can_fit_search_bar, columns, search_bar};
use interactive_picker::text::decimal_string;

fn rect(x: u16, y: u16, width: u16, height: u16) -> Rect {
    Rect { x, y, width, height }
}

#[test]
fn numbers_are_written_in_decimal() {
    for n in [0u32, 7, 9, 10, 11, 99, 100, 1090, 4294967295] {
        assert_eq!(decimal_string(n), n.to_string());
    }
}

#[test]
fn clipping_takes_cells_away_from_one_side() {
    let area = rect(3, 4, 10, 6);
    assert_eq!(area.clip_left(1), rect(4, 4, 9, 6));
    assert_eq!(area.clip_left(40), rect(13, 4, 0, 6));
    assert_eq!(area.clip_top(2), rect(3, 6, 10, 4));
    assert_eq!(area.clip_top(9), rect(3, 10, 10, 0));
    assert_eq!(area.with_width(2), rect(3, 4, 2, 6));
    assert_eq!(area.with_height(1), rect(3, 4, 10, 1));
    assert_eq!(area.left(), 3);
    assert_eq!(area.right(), 13);
}

#[test]
fn coordinates_do_not_wrap_around() {
    let area = rect(u16::MAX, u16::MAX, 4, 4);
    assert_eq!(area.right(), u16::MAX);
    assert_eq!(area.clip_left(2), rect(u16::MAX, u16::MAX, 2, 4));
    assert_eq!(area.inner(), rect(u16::MAX, u16::MAX, 2, 2));
}

#[test]
fn borders_take_one_cell_on_each_side() {
    assert_eq!(rect(0, 0, 80, 24).inner(), rect(1, 1, 78, 22));
    assert_eq!(rect(5, 6, 2, 2).inner(), rect(6, 7, 0, 0));
    assert_eq!(rect(5, 6, 1, 1).inner(), rect(6, 7, 0, 0));
    assert_eq!(rect(5, 6, 0, 0).inner(), rect(5, 6, 0, 0));
}

#[test]
fn every_cell_inside_the_borders_has_neighbours_in_the_box() {
    let area = rect(2, 3, 5, 4);
    let inner = area.inner();
    for x in 0..12u16 {
        for y in 0..12u16 {
            let inside = x >= inner.x
                && x < inner.x + inner.width
                && y >= inner.y
                && y < inner.y + inner.height;
            assert_eq!(inside, x > 2 && x < 6 && y > 3 && y < 6);
        }
    }
}

#[test]
fn the_search_bar_shows_the_number_of_matches_at_its_right_end() {
    let bar = search_bar(rect(1, 1, 40, 20), false, 12, 345);
    assert_eq!(bar.prompt, rect(2, 1, 39, 1));
    assert_eq!(bar.count.text, "12/345");
    assert_eq!(bar.count.x, 34);
    assert_eq!(bar.count.y, 1);
    assert_eq!(bar.count.width, 6);
    assert_eq!(bar.separator.len(), 40);
    assert_eq!(bar.separator[0], (1, 2));
    assert_eq!(bar.separator[39], (40, 2));
}

#[test]
fn a_running_matcher_is_shown() {
    let bar = search_bar(rect(1, 1, 40, 20), true, 0, u32::MAX);
    assert_eq!(bar.count.text, "(running) 0/4294967295");
    assert_eq!(bar.count.x, 18);
    assert_eq!(bar.count.width, 22);
}

#[test]
fn the_count_is_cut_where_the_bar_is_too_narrow() {
    let bar = search_bar(rect(0, 0, 5, 3), false, 123, 456);
    assert_eq!(bar.count.text, "123/456");
    assert_eq!(bar.count.x, 0);
    assert_eq!(bar.count.width, 4);
    let none = search_bar(rect(0, 0, 0, 3), false, 1, 2);
    assert_eq!(none.count.width, 0);
    assert!(none.separator.is_empty());
}

#[test]
fn the_preview_gets_the_other_half() {
    let area = rect(10, 2, 81, 20);
    let with = columns(area, true);
    assert_eq!(with.picker, rect(10, 2, 40, 20));
    assert_eq!(with.preview, Some(rect(50, 2, 41, 20)));
    let without = columns(area, false);
    assert_eq!(without.picker, area);
    assert_eq!(without.preview, None);
}

#[test]
fn a_search_bar_needs_coordinates() {
    assert!(can_fit_search_bar(rect(0, 0, 78, 22)));
    assert!(can_fit_search_bar(rect(0, 0, 0, 0)));
    assert!(!can_fit_search_bar(rect(u16::MAX, 0, 3, 2)));
    assert!(!can_fit_search_bar(rect(0, u16::MAX, 1, 0)));
    assert!(can_fit_search_bar(rect(0, u16::MAX, 0, 0)));
    // a box that lies on the screen, but on its last row
    assert!(!can_fit_search_bar(rect(0, u16::MAX, 3, 0).inner()));
    assert!(can_fit_search_bar(rect(0, u16::MAX, 2, 0).inner()));
}

#[test]
fn the_search_bar_lies_above_the_list() {
    let inner = rect(3, 2, 12, 9).inner();
    let bar = search_bar(inner, false, 0, 0);
    let list = inner.clip_top(2);
    assert_eq!(bar.prompt.y, 3);
    assert!(bar.separator.iter().all(|cell| cell.1 == 4));
    assert_eq!(list, rect(4, 5, 10, 5));
}
