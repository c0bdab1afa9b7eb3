use grep_regex::RegexMatcherBuilder;
use grep_searcher::{BinaryDetection, SearcherBuilder};
use interactive_picker::events::{register, EventKind, EventRegistry};
use interactive_picker::file_result::FileResult;
use interactive_picker::flag::Flag;
use interactive_picker::open::{jump, open_error, spawn_interactive_search, Jump};
use interactive_picker::picker::{Picker, Prompt};
use interactive_picker::search::{
    after_entry, decide, dyn_search_callback, line_result, line_results, visit_entry,
    ContentSearch, Document, SearchDecision, SearchPlan, Visit, WalkStep,
};
use interactive_picker::walk::{
    feed_step, listed_file, listing_start, listing_step, Directory, FeedPhase, FilePickerConfig,
    PushOutcome, WalkEntry, WalkPlan,
};
use std::path::{Path, PathBuf};
use std::sync::Arc;

fn config() -> FilePickerConfig {
    FilePickerConfig {
        hidden: true,
        follow_symlinks: true,
        deduplicate_links: true,
        parents: true,
        ignore: true,
        git_ignore: true,
        git_global: true,
        git_exclude: true,
        max_depth: None,
    }
}

fn directory(exists: bool) -> Directory {
    Directory { path: PathBuf::from("/work"), exists, canonical: None }
}

fn file_picker() -> Picker<FileResult> {
    Picker {
        prompt: Prompt::new("files:"),
        matcher: nucleo::Nucleo::new(nucleo::Config::DEFAULT, Arc::new(|| {}), Some(1), 1),
        cursor: 4,
        show_preview: true,
        has_file_fn: false,
        min_area_width_for_preview: 72,
        shutdown: Flag::new(),
    }
}

fn list_walk_of(directory: Directory, config: &FilePickerConfig) -> WalkPlan {
    match spawn_interactive_search(true, file_picker(), directory, config) {
        Ok(opened) => opened.walk,
        Err(message) => panic!("{message}"),
    }
}

fn plan(query: &str, smart_case: bool, exists: bool) -> SearchPlan {
    dyn_search_callback(query, smart_case, directory(exists), &PathBuf::from("/etc/ed"), &config())
}

fn content_search(query: &str, smart_case: bool) -> ContentSearch {
    match plan(query, smart_case, true) {
        SearchPlan::SearchContents(search, _) => search,
        _ => panic!("no content search for {query}"),
    }
}

fn found_lines(query: &str, smart_case: bool, text: &str) -> Vec<usize> {
    let path = PathBuf::from("/work/a.txt");
    let found = content_search(query, smart_case).search_document(&path, text);
    assert_eq!(found.error, None);
    found
        .results
        .iter()
        .map(|result| {
            assert_eq!(result.path, path);
            result.line_num.unwrap()
        })
        .collect()
}

#[test]
fn a_row_shows_the_relative_path_and_marks_the_open_file() {
    let result = FileResult::new(Path::new("/work/src/main.rs"), Some(3));
    assert_eq!(result.path, PathBuf::from("/work/src/main.rs"));
    assert_eq!(result.line_num, Some(3));
    assert_eq!(result.format("src/main.rs", &None), "src/main.rs");
    let open = Some(PathBuf::from("/work/src/main.rs"));
    assert_eq!(result.format("src/main.rs", &open), "src/main.rs (*)");
    let same = Some(PathBuf::from("/work//src/./main.rs"));
    assert_eq!(result.format("src/main.rs", &same), "src/main.rs (*)");
    let other = Some(PathBuf::from("/work/src/lib.rs"));
    assert_eq!(result.format("src/main.rs", &other), "src/main.rs");
}

#[test]
fn the_preview_highlights_the_line() {
    let line = FileResult::new(Path::new("a"), Some(7));
    assert_eq!(line.preview(), (PathBuf::from("a"), Some((7, 7))));
    let file = FileResult::new(Path::new("a"), None);
    assert_eq!(file.preview(), (PathBuf::from("a"), None));
}

#[test]
fn what_a_query_asks_for() {
    assert_eq!(decide(false, true, 5), SearchDecision::Ignore);
    assert_eq!(decide(false, false, 0), SearchDecision::Ignore);
    assert_eq!(decide(true, false, 5), SearchDecision::MissingRoot);
    assert_eq!(decide(true, true, 0), SearchDecision::ListFiles);
    assert_eq!(decide(true, true, 1), SearchDecision::ListFiles);
    assert_eq!(decide(true, true, 2), SearchDecision::SearchContents);
}

#[test]
fn an_invalid_pattern_asks_for_nothing() {
    assert!(matches!(plan("(", true, true), SearchPlan::Ignore));
    assert!(matches!(plan("a**[", false, true), SearchPlan::Ignore));
    assert!(matches!(plan("(ab", true, false), SearchPlan::Ignore));
}

#[test]
fn a_missing_directory_is_reported() {
    match plan("ab", true, false) {
        SearchPlan::MissingRoot(message) => {
            assert_eq!(message, "Current working directory does not exist");
        }
        _ => panic!("the directory is missing"),
    }
}

#[test]
fn a_short_query_lists_all_files() {
    assert!(matches!(plan("", true, true), SearchPlan::ListFiles(_)));
    assert!(matches!(plan("a", true, true), SearchPlan::ListFiles(_)));
    assert!(matches!(plan("ab", true, true), SearchPlan::SearchContents(_, _)));
    // one character, but two bytes
    assert!(matches!(plan("\u{e9}", true, true), SearchPlan::SearchContents(_, _)));
}

#[test]
fn lines_are_found_and_counted_from_zero() {
    assert_eq!(found_lines("needle", false, "needle\nhay\nmore needle\nneedle"), vec![0, 2, 3]);
    assert_eq!(found_lines("needle", false, "hay\n"), Vec::<usize>::new());
    assert_eq!(found_lines("needle", false, ""), Vec::<usize>::new());
    assert_eq!(found_lines("a+b", false, "aab\nab ab\nb\n"), vec![0, 1]);
}

#[test]
fn smart_case_looks_at_the_query() {
    let text = "Needle\nneedle\n";
    assert_eq!(found_lines("needle", true, text), vec![0, 1]);
    assert_eq!(found_lines("Needle", true, text), vec![0]);
    assert_eq!(found_lines("needle", false, text), vec![1]);
}

#[test]
fn matches_do_not_span_lines() {
    assert_eq!(found_lines("one\\s+two", false, "one\ntwo\none two\n"), vec![2]);
}

#[test]
fn binary_data_is_not_searched() {
    assert_eq!(found_lines("needle", false, "needle\n\u{0}\nneedle\n"), Vec::<usize>::new());
}

#[test]
fn a_search_can_be_repeated_and_forked() {
    let mut search = content_search("ab", false);
    let mut fork = search.fork();
    let path = PathBuf::from("x");
    for _ in 0..2 {
        assert_eq!(search.search_document(&path, "ab\nb\nab").results.len(), 2);
        assert_eq!(fork.search_document(&path, "b\nab").results[0].line_num, Some(1));
    }
}

#[test]
fn a_searcher_for_matches_across_lines_gets_the_whole_text() {
    let mut search = ContentSearch {
        matcher: RegexMatcherBuilder::new().case_smart(false).build("one\\s+two").unwrap(),
        searcher: SearcherBuilder::new()
            .binary_detection(BinaryDetection::quit(0))
            .multi_line(true)
            .build(),
    };
    let found = search.search_document(&PathBuf::from("x"), "zero\none\ntwo\nthree\none two\n");
    let lines: Vec<Option<usize>> = found.results.iter().map(|result| result.line_num).collect();
    assert_eq!(lines, vec![Some(1), Some(4)]);
}

#[test]
fn a_found_line_can_be_selected() {
    let text = "x\nneedle\n\nneedle";
    for line in found_lines("needle", false, text) {
        assert!(matches!(jump(Some(line), text.lines().count()), Jump::Select(_, _)));
    }
}

#[test]
fn line_numbers_become_entries() {
    let path = PathBuf::from("p");
    assert_eq!(line_result(&path, 1).line_num, Some(0));
    let results = line_results(&path, &vec![1, 5, 9]);
    let lines: Vec<Option<usize>> = results.iter().map(|result| result.line_num).collect();
    assert_eq!(lines, vec![Some(0), Some(4), Some(8)]);
    assert_eq!(results[1].path, path);
}

fn entry(path: &str, is_file: Option<bool>) -> Option<WalkEntry> {
    Some(WalkEntry { path: PathBuf::from(path), is_file })
}

#[test]
fn only_files_are_listed() {
    let listed = listed_file(entry("a/b", Some(true))).unwrap();
    assert_eq!(listed.path, PathBuf::from("a/b"));
    assert_eq!(listed.line_num, None);
    assert!(listed_file(entry("a/b", Some(false))).is_none());
    assert!(listed_file(entry("a/b", None)).is_none());
    assert!(listed_file(None).is_none());
}

#[test]
fn open_documents_are_searched_in_place_of_their_files() {
    let documents = vec![
        Document { path: None, text: "scratch".to_string() },
        Document { path: Some(PathBuf::from("a/b")), text: "first".to_string() },
        Document { path: Some(PathBuf::from("a/./b")), text: "second".to_string() },
    ];
    assert_eq!(visit_entry(true, &entry("a/b", Some(true)), &documents), Visit::Quit);
    assert_eq!(visit_entry(false, &None, &documents), Visit::Skip);
    assert_eq!(visit_entry(false, &entry("a/b", Some(false)), &documents), Visit::Skip);
    assert_eq!(visit_entry(false, &entry("a/b", None), &documents), Visit::Skip);
    assert_eq!(
        visit_entry(false, &entry("a/b", Some(true)), &documents),
        Visit::SearchDocument(1)
    );
    assert_eq!(visit_entry(false, &entry("a/c", Some(true)), &documents), Visit::SearchFile);
}

#[test]
fn the_walk_ends_when_the_picker_takes_no_more() {
    assert_eq!(after_entry(FeedPhase::Stopped), WalkStep::Quit);
    assert_eq!(after_entry(FeedPhase::Background), WalkStep::Continue);
    assert_eq!(after_entry(FeedPhase::Foreground), WalkStep::Continue);
}

#[test]
fn feeding_moves_to_the_background_and_loses_nothing() {
    let outcome = |accepted, past_deadline| PushOutcome { accepted, past_deadline };
    assert_eq!(feed_step(FeedPhase::Foreground, outcome(true, false)), FeedPhase::Foreground);
    assert_eq!(feed_step(FeedPhase::Foreground, outcome(true, true)), FeedPhase::Background);
    assert_eq!(feed_step(FeedPhase::Foreground, outcome(false, true)), FeedPhase::Stopped);
    assert_eq!(feed_step(FeedPhase::Background, outcome(true, false)), FeedPhase::Background);
    assert_eq!(feed_step(FeedPhase::Background, outcome(false, false)), FeedPhase::Stopped);
    assert_eq!(feed_step(FeedPhase::Stopped, outcome(true, false)), FeedPhase::Stopped);
    let mut phase = FeedPhase::Foreground;
    let mut fed = 0;
    for i in 0..10 {
        if phase == FeedPhase::Stopped {
            break;
        }
        fed += 1;
        phase = feed_step(phase, outcome(i != 6, i >= 2));
    }
    assert_eq!(fed, 7);
}

#[test]
fn the_workspace_must_exist() {
    match spawn_interactive_search(true, file_picker(), directory(false), &config()) {
        Err(message) => assert_eq!(message, "Workspace directory does not exist"),
        Ok(_) => panic!("the workspace does not exist"),
    }
}

#[test]
fn an_opened_search_previews_its_entries() {
    for focused in [true, false] {
        match spawn_interactive_search(focused, file_picker(), directory(true), &config()) {
            Ok(opened) => {
                assert_eq!(opened.picker.search_focused, focused);
                assert_eq!(opened.picker.search_prompt.label, "search:");
                assert_eq!(opened.picker.file_picker.prompt.label, "path:");
                assert_eq!(opened.picker.file_picker.cursor, 4);
                assert!(opened.picker.file_picker.has_file_fn);
            }
            Err(message) => panic!("{message}"),
        }
    }
}

#[test]
fn the_walk_takes_on_the_settings() {
    let default = format!("{:?}", ignore::WalkBuilder::new("/work"));
    assert!(default.contains("hidden: true"));
    let settings = FilePickerConfig {
        hidden: false,
        follow_symlinks: true,
        deduplicate_links: false,
        parents: false,
        ignore: false,
        git_ignore: false,
        git_global: false,
        git_exclude: false,
        max_depth: Some(5),
    };
    let walk = list_walk_of(directory(true), &settings);
    let shown = format!("{:?}", walk.builder);
    for setting in [
        "\"/work\"",
        "hidden: false",
        "parents: false",
        " ignore: false",
        "git_ignore: false",
        "git_global: false",
        "git_exclude: false",
        "max_depth: Some(5)",
        "follow_links: true",
        "custom_ignore_filenames: []",
    ] {
        assert!(shown.contains(setting), "{setting} in {shown}");
    }
    assert!(!walk.deduplicate_links);
    assert_eq!(walk.absolute_root, PathBuf::from("/work"));
}

#[test]
fn each_setting_goes_to_its_own_option() {
    let names = ["hidden", "parents", " ignore", "git_ignore", "git_global", "git_exclude"];
    for chosen in 0..names.len() {
        let settings = FilePickerConfig {
            hidden: chosen == 0,
            follow_symlinks: false,
            deduplicate_links: true,
            parents: chosen == 1,
            ignore: chosen == 2,
            git_ignore: chosen == 3,
            git_global: chosen == 4,
            git_exclude: chosen == 5,
            max_depth: None,
        };
        let walk = list_walk_of(directory(true), &settings);
        let shown = format!("{:?}", walk.builder);
        for (i, name) in names.iter().enumerate() {
            let setting = format!("{}: {}", name, i == chosen);
            assert!(shown.contains(&setting), "{setting} in {shown}");
        }
        assert!(shown.contains("follow_links: false"));
    }
}

#[test]
fn links_in_the_root_are_resolved_where_possible() {
    let found = Directory {
        path: PathBuf::from("/link"),
        exists: true,
        canonical: Some(PathBuf::from("/real")),
    };
    let walk = list_walk_of(found, &config());
    assert_eq!(walk.absolute_root, PathBuf::from("/real"));
    assert!(format!("{:?}", walk.builder).contains("\"/link\""));
}

#[test]
fn a_content_search_heeds_its_own_ignore_files() {
    match plan("ab", true, true) {
        SearchPlan::SearchContents(_, walk) => {
            let shown = format!("{:?}", walk.builder);
            let ignores = "custom_ignore_filenames: [\"/etc/ed/ignore\", \".helix/ignore\"]";
            assert!(shown.contains(ignores), "{shown}");
        }
        _ => panic!("a content search"),
    }
    match plan("a", true, true) {
        SearchPlan::ListFiles(walk) => {
            assert!(format!("{:?}", walk.builder).contains("custom_ignore_filenames: []"));
        }
        _ => panic!("a list of files"),
    }
}

#[test]
fn opening_an_entry_selects_its_line() {
    assert!(matches!(jump(None, 0), Jump::Stay));
    assert!(matches!(jump(Some(0), 1), Jump::Select(0, 1)));
    assert!(matches!(jump(Some(4), 9), Jump::Select(4, 5)));
    match jump(Some(9), 9) {
        Jump::LineGone(message) => assert_eq!(
            message,
            "The line you jumped to does not exist anymore because the file has changed."
        ),
        _ => panic!("the line is gone"),
    }
}

#[test]
fn a_file_that_cannot_be_opened_is_reported() {
    assert_eq!(open_error("/a b", "no such file"), "Failed to open file '/a b': no such file");
}

#[test]
fn events_are_registered_once() {
    let mut registry = EventRegistry::new();
    let first = register(&mut registry);
    assert_eq!(
        first,
        vec![
            EventKind::OnModeSwitch,
            EventKind::PostInsertChar,
            EventKind::PostCommand,
            EventKind::DocumentDidOpen,
            EventKind::DocumentDidChange,
            EventKind::DocumentDidClose,
            EventKind::DocumentFocusLost,
            EventKind::SelectionDidChange,
            EventKind::DiagnosticsDidChange,
            EventKind::LanguageServerInitialized,
            EventKind::LanguageServerExited,
            EventKind::ConfigDidChange,
        ]
    );
    assert_eq!(registry.registered, first);
    for _ in 0..3 {
        assert!(register(&mut registry).is_empty());
        assert_eq!(registry.registered, first);
    }
}

fn files_listed(cancelled_at_start: bool, cancelled_after: usize, files: usize) -> usize {
    let mut phase = listing_start(cancelled_at_start);
    let mut listed: usize = 0;
    while listed < files && phase != FeedPhase::Stopped {
        listed += 1;
        let outcome = PushOutcome { accepted: true, past_deadline: listed > 2 };
        phase = listing_step(phase, outcome, listed >= cancelled_after);
    }
    listed
}

#[test]
fn a_cancelled_listing_stops() {
    assert_eq!(files_listed(true, 9, 5), 0);
    assert_eq!(files_listed(false, 1, 5), 1);
    assert_eq!(files_listed(false, 4, 5), 4);
    assert_eq!(files_listed(false, 9, 5), 5);
    let taken = PushOutcome { accepted: true, past_deadline: false };
    assert_eq!(listing_step(FeedPhase::Foreground, taken, true), FeedPhase::Stopped);
    assert_eq!(listing_step(FeedPhase::Background, taken, false), FeedPhase::Background);
    let refused = PushOutcome { accepted: false, past_deadline: false };
    assert_eq!(listing_step(FeedPhase::Background, refused, false), FeedPhase::Stopped);
}

fn walked(entries: &[Option<WalkEntry>]) -> Vec<(PathBuf, usize)> {
    let documents = vec![
        Document { path: Some(PathBuf::from("w/b")), text: "ab ab\nb\nab\n".to_string() },
        Document { path: Some(PathBuf::from("w/c")), text: "b\nab".to_string() },
    ];
    let mut search = content_search("ab", false);
    let mut found: Vec<(PathBuf, usize)> = Vec::new();
    for entry in entries {
        if let Visit::SearchDocument(n) = visit_entry(false, entry, &documents) {
            let path = &entry.as_ref().unwrap().path;
            for result in search.search_document(path, &documents[n].text).results {
                found.push((result.path, result.line_num.unwrap()));
            }
        }
        assert_eq!(after_entry(FeedPhase::Background), WalkStep::Continue);
    }
    found
}

#[test]
fn each_matching_line_of_a_walk_gives_one_entry() {
    let expected = vec![
        (PathBuf::from("w/b"), 0),
        (PathBuf::from("w/b"), 2),
        (PathBuf::from("w/c"), 1),
    ];
    let with_failures = [
        None,
        entry("w", Some(false)),
        entry("w/b", Some(true)),
        entry("w/b", None),
        entry("w/c", Some(true)),
    ];
    assert_eq!(walked(&with_failures), expected);
    let without = [entry("w/b", Some(true)), entry("w/c", Some(true))];
    assert_eq!(walked(&without), expected);
}

#[test]
fn what_was_searched_before_matters_for_binary_data_only() {
    let path = PathBuf::from("x");
    let plain = format!("needle\n{}needle\n", "hay\n".repeat(17_500));
    let binary = format!("needle\n{}\u{0}\n", "hay\n".repeat(17_500));
    let long_line = "h".repeat(70_000);
    let mut fresh = content_search("needle", false);
    let mut used = fresh.fork();
    assert!(used.search_document(&path, &long_line).results.is_empty());
    assert_eq!(fresh.search_document(&path, &plain).results.len(), 2);
    assert_eq!(used.search_document(&path, &plain).results.len(), 2);
    assert_eq!(fresh.search_document(&path, &binary).results.len(), 1);
    assert!(used.search_document(&path, &binary).results.is_empty());
}

fn listing(entries: Vec<Option<WalkEntry>>, refused: usize, cancelled: usize) -> Vec<PathBuf> {
    let mut handed_over: Vec<PathBuf> = Vec::new();
    let mut phase = listing_start(cancelled == 0);
    for found in entries {
        if phase == FeedPhase::Stopped {
            break;
        }
        if let Some(file) = listed_file(found) {
            assert_eq!(file.line_num, None);
            handed_over.push(file.path);
            let n = handed_over.len();
            let outcome = PushOutcome { accepted: n != refused, past_deadline: n > 1 };
            phase = listing_step(phase, outcome, n >= cancelled);
        }
    }
    handed_over
}

#[test]
fn files_are_listed_in_the_order_of_the_walk() {
    let entries = || {
        vec![
            entry("w", Some(false)),
            entry("w/b", Some(true)),
            None,
            entry("w/a", Some(true)),
            entry("w/link", None),
            entry("w/c", Some(true)),
        ]
    };
    let files = vec![PathBuf::from("w/b"), PathBuf::from("w/a"), PathBuf::from("w/c")];
    assert_eq!(listing(entries(), 9, 9), files);
    assert_eq!(listing(entries(), 2, 9), files[..2]);
    assert_eq!(listing(entries(), 9, 1), files[..1]);
    assert_eq!(listing(entries(), 9, 0), files[..0]);
}
