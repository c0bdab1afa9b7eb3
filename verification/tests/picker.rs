use interactive_picker::draw::{draw_steps, DrawStep};
use interactive_picker::file_result::FileResult;
use interactive_picker::flag::Flag;
use interactive_picker::graphics::Rect;
use interactive_picker::keys::{
    shortcut, Direction, Event, KeyCode, KeyEvent, KeyModifiers, Shortcut,
};
use interactive_picker::matcher::Status;
use interactive_picker::picker::{
    settle_cursor, CursorArea, EventStep, InteractivePicker, Picker, PickerFrame, Prompt,
};
use std::path::{Path, PathBuf};
use std::sync::Arc;
use std::time::{Duration, Instant};

const NONE: KeyModifiers =
    KeyModifiers { shift: false, control: false, alt: false, other: false };
const SHIFT: KeyModifiers =
    KeyModifiers { shift: true, control: false, alt: false, other: false };
const CONTROL: KeyModifiers =
    KeyModifiers { shift: false, control: true, alt: false, other: false };

fn key(code: KeyCode, modifiers: KeyModifiers) -> Event {
    Event::Key(KeyEvent { code, modifiers })
}

fn file_picker() -> Picker<FileResult> {
    Picker {
        prompt: Prompt::new("files:"),
        matcher: nucleo::Nucleo::new(nucleo::Config::DEFAULT, Arc::new(|| {}), Some(1), 1),
        cursor: 0,
        show_preview: true,
        has_file_fn: true,
        min_area_width_for_preview: 72,
        shutdown: Flag::new(),
    }
}

fn inject(picker: &InteractivePicker<FileResult>, names: &[&str]) {
    let injector = picker.file_picker.matcher.injector();
    for name in names {
        let text = name.to_string();
        injector.push(FileResult::new(Path::new(name), None), move |_, columns| {
            columns[0] = text.as_str().into();
        });
    }
}

fn render_until(picker: &mut InteractivePicker<FileResult>, count: &str) -> PickerFrame {
    let give_up = Instant::now() + Duration::from_secs(10);
    loop {
        let frame = picker.render_picker(Rect { x: 0, y: 0, width: 60, height: 20 });
        if frame.search.count.text == count {
            return frame;
        }
        assert!(Instant::now() < give_up);
    }
}

#[test]
fn a_new_picker_has_searched_for_nothing() {
    let picker = InteractivePicker::new(file_picker(), true);
    assert!(picker.search_focused);
    assert_eq!(picker.search_prompt.label, "search:");
    assert_eq!(picker.search_prompt.line, "");
    assert_eq!(picker.file_picker.prompt.label, "path:");
    assert_eq!(picker.previous_search, "");
    assert!(!picker.cancel_notify.raised);
    assert!(!InteractivePicker::new(file_picker(), false).search_focused);
}

#[test]
fn only_exact_key_combinations_are_shortcuts() {
    assert_eq!(shortcut(&key(KeyCode::Tab, NONE)), Some(Shortcut::SwitchFocus));
    assert_eq!(shortcut(&key(KeyCode::Tab, SHIFT)), Some(Shortcut::SwitchFocus));
    assert_eq!(shortcut(&key(KeyCode::Tab, CONTROL)), None);
    assert_eq!(
        shortcut(&key(KeyCode::Char('j'), CONTROL)),
        Some(Shortcut::Move(Direction::Forward))
    );
    assert_eq!(
        shortcut(&key(KeyCode::Char('k'), CONTROL)),
        Some(Shortcut::Move(Direction::Backward))
    );
    assert_eq!(shortcut(&key(KeyCode::Char('j'), NONE)), None);
    assert_eq!(shortcut(&key(KeyCode::Char('l'), CONTROL)), None);
    let both = KeyModifiers { shift: true, ..CONTROL };
    assert_eq!(shortcut(&key(KeyCode::Char('j'), both)), None);
    let alt = KeyModifiers { alt: true, ..NONE };
    assert_eq!(shortcut(&key(KeyCode::Tab, alt)), None);
    let other = KeyModifiers { other: true, ..CONTROL };
    assert_eq!(shortcut(&key(KeyCode::Char('k'), other)), None);
    assert_eq!(shortcut(&key(KeyCode::Other, NONE)), None);
    assert_eq!(shortcut(&Event::Other), None);
}

#[test]
fn tab_switches_the_focus_back_and_forth() {
    let mut picker = InteractivePicker::new(file_picker(), true);
    assert_eq!(picker.handle_event(&key(KeyCode::Tab, NONE)), EventStep::Consumed);
    assert!(!picker.search_focused);
    assert_eq!(picker.handle_event(&key(KeyCode::Tab, SHIFT)), EventStep::Consumed);
    assert!(picker.search_focused);
}

#[test]
fn other_events_go_where_the_focus_is() {
    let mut picker = InteractivePicker::new(file_picker(), true);
    let letter = key(KeyCode::Char('a'), NONE);
    assert_eq!(picker.handle_event(&letter), EventStep::SearchPrompt);
    assert_eq!(picker.handle_event(&Event::Other), EventStep::SearchPrompt);
    picker.handle_event(&key(KeyCode::Tab, NONE));
    assert_eq!(picker.handle_event(&letter), EventStep::FilePicker);
    assert_eq!(picker.handle_event(&Event::Other), EventStep::FilePicker);
}

#[test]
fn the_selection_is_moved_from_either_field() {
    for focused in [true, false] {
        let mut picker = InteractivePicker::new(file_picker(), focused);
        assert_eq!(
            picker.handle_event(&key(KeyCode::Char('j'), CONTROL)),
            EventStep::MoveBy(1, Direction::Forward)
        );
        assert_eq!(
            picker.handle_event(&key(KeyCode::Char('k'), CONTROL)),
            EventStep::MoveBy(1, Direction::Backward)
        );
        assert_eq!(picker.search_focused, focused);
    }
}

#[test]
fn a_query_is_searched_for_once() {
    let mut picker = InteractivePicker::new(file_picker(), true);
    assert!(picker.search_line("").is_none());
    let request = picker.search_line("fn").unwrap();
    assert_eq!(request.query, "fn");
    assert_eq!(picker.previous_search, "fn");
    assert_eq!(picker.search_prompt.line, "fn");
    assert!(picker.search_line("fn").is_none());
    assert!(picker.search_line("fn ").is_some());
}

#[test]
fn a_new_search_cancels_the_one_before() {
    let mut picker = InteractivePicker::new(file_picker(), true);
    let first = picker.search_line("a").unwrap();
    assert!(!first.cancel.raised);
    let second = picker.search_line("ab").unwrap();
    assert!(second.cancelled.raised);
    assert_eq!(second.cancelled.id, first.cancel.id);
    assert!(!second.cancel.raised);
    assert!(second.cancel.id != first.cancel.id);
    assert_eq!(picker.cancel_notify, second.cancel);
}

#[test]
fn a_search_after_a_shutdown_gets_a_fresh_flag() {
    let mut picker = InteractivePicker::new(file_picker(), true);
    picker.file_picker.shutdown = picker.file_picker.shutdown.raise();
    let closed = picker.file_picker.shutdown;
    let request = picker.search_line("x").unwrap();
    assert!(!picker.file_picker.shutdown.raised);
    assert_eq!(request.shutdown, picker.file_picker.shutdown);
    assert!(request.shutdown.id != closed.id);
}

#[test]
fn flags_are_told_apart_when_the_numbers_run_out() {
    let last = Flag { id: u64::MAX, raised: true };
    assert_eq!(last.renew(), Flag { id: 0, raised: false });
    assert_eq!(Flag { id: 4, raised: false }.raise(), Flag { id: 4, raised: true });
}

#[test]
fn the_selection_follows_the_matches() {
    assert_eq!(settle_cursor(10, true, 3), 2);
    assert_eq!(settle_cursor(1, true, 3), 1);
    assert_eq!(settle_cursor(10, true, 0), 0);
    assert_eq!(settle_cursor(10, false, 3), 10);
}

#[test]
fn drawing_counts_the_entries_and_keeps_the_selection_among_them() {
    let mut picker = InteractivePicker::new(file_picker(), true);
    inject(&picker, &["a.rs", "b.rs", "c.rs"]);
    picker.file_picker.cursor = 10;
    let frame = render_until(&mut picker, "3/3");
    assert_eq!(picker.file_picker.cursor, 2);
    assert_eq!(frame.area, Rect { x: 0, y: 0, width: 60, height: 20 });
    assert_eq!(frame.search.prompt, Rect { x: 2, y: 1, width: 57, height: 1 });
    assert_eq!(frame.list, Rect { x: 1, y: 3, width: 58, height: 16 });
}

#[test]
fn only_matching_entries_are_counted_as_matches() {
    let mut picker = InteractivePicker::new(file_picker(), true);
    inject(&picker, &["alpha", "beta", "gamma", "almond"]);
    render_until(&mut picker, "4/4");
    picker.file_picker.matcher.pattern.reparse(
        0,
        "al",
        nucleo::pattern::CaseMatching::Smart,
        nucleo::pattern::Normalization::Smart,
        false,
    );
    render_until(&mut picker, "2/4");
    assert_eq!(picker.file_picker.matcher.snapshot().matched_item_count(), 2);
}

#[test]
fn a_new_search_keeps_showing_the_old_entries_until_there_are_new_ones() {
    let mut picker = InteractivePicker::new(file_picker(), true);
    inject(&picker, &["old one", "old two"]);
    render_until(&mut picker, "2/2");
    let old_injector = picker.file_picker.matcher.injector();
    assert!(picker.search_line("new").is_some());
    assert_eq!(picker.file_picker.matcher.snapshot().item_count(), 2);
    old_injector.push(FileResult::new(Path::new("late"), None), |_, columns| {
        columns[0] = "late".into();
    });
    inject(&picker, &["new one"]);
    render_until(&mut picker, "1/1");
    let snapshot = picker.file_picker.matcher.snapshot();
    assert_eq!(snapshot.get_matched_item(0).unwrap().data.path, PathBuf::from("new one"));
}

#[test]
fn the_preview_needs_room_and_the_users_wish() {
    let wide = Rect { x: 0, y: 0, width: 100, height: 20 };
    let narrow = Rect { x: 0, y: 0, width: 72, height: 20 };
    let mut picker = InteractivePicker::new(file_picker(), true);
    let frame = picker.render(wide);
    assert_eq!(frame.picker.area, Rect { x: 0, y: 0, width: 50, height: 20 });
    assert_eq!(frame.preview, Some(Rect { x: 50, y: 0, width: 50, height: 20 }));
    let frame = picker.render(narrow);
    assert_eq!(frame.picker.area, narrow);
    assert_eq!(frame.preview, None);
    assert!(picker.can_render(wide));
    picker.file_picker.show_preview = false;
    assert_eq!(picker.render(wide).preview, None);
    picker.file_picker.show_preview = true;
    picker.file_picker.has_file_fn = false;
    assert_eq!(picker.render(wide).preview, None);
}

#[test]
fn the_terminal_cursor_is_in_the_field_with_the_focus() {
    let area = Rect { x: 0, y: 0, width: 60, height: 20 };
    let mut picker = InteractivePicker::new(file_picker(), true);
    assert_eq!(
        picker.cursor(area),
        CursorArea::SearchPrompt(Rect { x: 2, y: 1, width: 57, height: 1 })
    );
    picker.handle_event(&key(KeyCode::Tab, NONE));
    assert_eq!(
        picker.cursor(area),
        CursorArea::FilePicker(Rect { x: 0, y: 2, width: 60, height: 18 })
    );
}

#[test]
fn the_cursor_is_in_the_prompt_that_was_drawn() {
    for width in [3u16, 4, 60, 72, 73, 100] {
        let area = Rect { x: 3, y: 2, width, height: 20 };
        let mut picker = InteractivePicker::new(file_picker(), true);
        let drawn = picker.render(area).picker.search.prompt;
        match picker.cursor(area) {
            CursorArea::SearchPrompt(row) => {
                assert_eq!((row.x, row.y, row.height), (drawn.x, drawn.y, drawn.height));
            }
            CursorArea::FilePicker(_) => panic!("the search prompt has the focus"),
        }
    }
}

#[test]
fn the_layout_follows_the_status_of_the_tick() {
    let area = Rect { x: 0, y: 0, width: 60, height: 20 };
    let mut picker = InteractivePicker::new(file_picker(), true);
    inject(&picker, &["a.rs", "b.rs", "c.rs"]);
    render_until(&mut picker, "3/3");
    picker.file_picker.cursor = 10;
    let running = Status { changed: false, running: true };
    let frame = picker.lay_out(area, running);
    assert_eq!(frame.status, running);
    assert_eq!(frame.search.count.text, "(running) 3/3");
    assert_eq!(picker.file_picker.cursor, 10);
    let settled = Status { changed: true, running: false };
    let frame = picker.lay_out(area, settled);
    assert_eq!(frame.status, settled);
    assert_eq!(frame.search.count.text, "3/3");
    assert_eq!(picker.file_picker.cursor, 2);
}

#[test]
fn the_prompt_is_drawn_before_the_count() {
    let mut picker = InteractivePicker::new(file_picker(), true);
    let wide = Rect { x: 0, y: 0, width: 100, height: 20 };
    let steps = draw_steps(picker.render(wide));
    assert_eq!(steps.len(), 7);
    assert!(matches!(&steps[0], DrawStep::Clear(area) if area.width == 50));
    assert!(matches!(&steps[1], DrawStep::Borders(area) if area.width == 50));
    assert!(matches!(&steps[2], DrawStep::SearchPrompt(row) if row.x == 2 && row.y == 1));
    assert!(matches!(&steps[3], DrawStep::Count(count) if count.text.ends_with("0/0")));
    assert!(matches!(&steps[4], DrawStep::Separator(cells) if cells.len() == 48));
    assert!(matches!(&steps[5], DrawStep::List(area, _) if area.y == 3));
    assert!(matches!(&steps[6], DrawStep::Preview(area) if area.x == 50));
    picker.file_picker.show_preview = false;
    assert_eq!(draw_steps(picker.render(wide)).len(), 6);
}

#[test]
fn over_a_run_one_search_is_not_cancelled() {
    let area = Rect { x: 0, y: 0, width: 60, height: 20 };
    let mut picker = InteractivePicker::new(file_picker(), true);
    let mut searches = Vec::new();
    for line in ["", "a", "a", "ab", "ab", "a", "", "", "b"] {
        searches.extend(picker.search_line(line));
        picker.render(area);
        picker.handle_event(&key(KeyCode::Tab, NONE));
    }
    let queries: Vec<&str> = searches.iter().map(|search| search.query.as_str()).collect();
    assert_eq!(queries, vec!["a", "ab", "a", "", "b"]);
    for (i, search) in searches.iter().enumerate() {
        assert!(!search.cancel.raised);
        assert!(search.cancelled.id != picker.cancel_notify.id);
        for later in &searches[i + 1..] {
            assert!(later.cancel.id != search.cancel.id);
        }
        if i > 0 {
            assert_eq!(search.cancelled, searches[i - 1].cancel.raise());
        }
    }
    assert_eq!(picker.cancel_notify, searches[4].cancel);
}

#[test]
fn a_preview_in_a_narrow_area_leaves_no_room_for_the_prompt() {
    for width in 1..12u16 {
        let area = Rect { x: 3, y: 2, width, height: 20 };
        let mut picker = InteractivePicker::new(file_picker(), true);
        picker.file_picker.min_area_width_for_preview = 0;
        let drawn = picker.render(area).picker.search.prompt;
        match picker.cursor(area) {
            CursorArea::SearchPrompt(row) => {
                assert_eq!(row.x == drawn.x, width >= 6 || width == 2);
                assert_eq!((row.y, row.height), (drawn.y, drawn.height));
            }
            CursorArea::FilePicker(_) => panic!("the search prompt has the focus"),
        }
    }
}
