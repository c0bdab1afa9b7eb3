//! What a caller of each operation can rely on, stated of its arguments and its result alone, and
//! of how the results of two calls relate.
use crate::draw::{draw_steps, DrawStep};
use crate::events::{every_kind_is_registered, register, EventKind, EventRegistry};
use crate::file_result::{buf_bytes, path_bytes, path_components, FileResult};
use crate::flag::Flag;
use crate::graphics::Rect;
use crate::grep::{
    buffer_len, matcher_source, pattern_compiles, reader_hits, searcher_settings,
};
use crate::keys::{shortcut, Direction, Event, KeyCode, KeyEvent, KeyModifiers, Shortcut};
use crate::layout::{
    can_fit_search_bar, columns, count_text, search_bar, the_count_can_be_read_back, Columns,
    SearchBar,
};
use crate::matcher::{is_restarted, matched_count, total_count, Status};
use crate::open::{jump, open_error, spawn_interactive_search, Jump, OpenedSearch};
use crate::picker::{
    settle_cursor, CursorArea, EventStep, Frame, InteractivePicker, Picker, PickerFrame,
    SearchRequest,
};
use crate::search::{
    after_entry, decide, dyn_search_callback, line_result, line_results,
    the_texts_do_not_decide_what_is_searched, visit_entry, BufferSearch, ContentSearch, Document,
    SearchDecision, SearchPlan, Visit, WalkStep,
};
use crate::text::{
    decimal_is_the_usual_notation, decimal_keeps_the_number, decimal_string, decimal_value,
};
use crate::walk::{
    content_walk, feed_step, list_walk, listed_file, listing_start, listing_step, Directory,
    FeedPhase, FilePickerConfig, PushOutcome, WalkEntry, WalkPlan,
};
use crate::walker::{joined_path, walk_custom_ignores, walk_options, walk_roots};
use grep_regex::RegexMatcher;
use std::path::{Path, PathBuf};
use vstd::prelude::*;

verus! {

/// [`visit_entry`] searches the open document in place of its file: for a file, and whatever the
/// texts are, a document whose path has the same components is found, and none before it is
/// passed over.
pub proof fn visiting_prefers_the_open_document(
    entry: &Option<WalkEntry>,
    documents: &Vec<Document>,
    visit: Visit,
    k: int,
)
    requires
        call_ensures(visit_entry, (false, entry, documents), visit),
        entry is Some && entry->0.is_file == Some(true),
    ensures
        0 <= k < documents@.len() && documents@[k].path is Some && path_components(
            buf_bytes(documents@[k].path->0),
        ) == path_components(buf_bytes(entry->0.path)) ==> (visit matches Visit::SearchDocument(n)
            && n <= k),
        visit matches Visit::SearchDocument(n) ==> n < documents@.len()
            && documents@[n as int].path is Some && path_components(
            buf_bytes(documents@[n as int].path->0),
        ) == path_components(buf_bytes(entry->0.path)),
        visit is SearchDocument || visit is SearchFile,
{
    if 0 <= k < documents@.len() && documents@[k].path is Some && path_components(
        buf_bytes(documents@[k].path->0),
    ) == path_components(buf_bytes(entry->0.path)) {
        assert(documents@[k].is_open_for(entry->0.path));
    }
}

/// [`visit_entry`] does not look at the texts: editing documents changes nothing about what is
/// searched.
pub proof fn editing_documents_changes_no_visit(
    cancelled: bool,
    entry: &Option<WalkEntry>,
    documents: &Vec<Document>,
    edited: &Vec<Document>,
    visit: Visit,
    later_visit: Visit,
)
    requires
        call_ensures(visit_entry, (cancelled, entry, documents), visit),
        call_ensures(visit_entry, (cancelled, entry, edited), later_visit),
        documents@.len() == edited@.len(),
        forall|i: int|
            0 <= i < documents@.len() ==> (#[trigger] documents@[i]).path == edited@[i].path,
    ensures
        later_visit == visit,
{
    the_texts_do_not_decide_what_is_searched(
        visit,
        later_visit,
        cancelled,
        *entry,
        documents@,
        edited@,
    );
}

/// [`visit_entry`] looks at the flag first, and then at whether the entry is a file.
pub proof fn visiting_heeds_the_flag(
    cancelled: bool,
    entry: &Option<WalkEntry>,
    documents: &Vec<Document>,
    visit: Visit,
)
    requires
        call_ensures(visit_entry, (cancelled, entry, documents), visit),
    ensures
        visit is Quit <==> cancelled,
        visit is Skip <==> !cancelled && !(entry is Some && entry->0.is_file == Some(true)),
{
}

/// [`after_entry`] ends the walk exactly where the picker takes no more.
pub proof fn the_walk_ends_with_the_picker(phase: FeedPhase, step: WalkStep)
    requires
        call_ensures(after_entry, (phase,), step),
    ensures
        step is Quit <==> phase is Stopped,
{
}

/// [`decide`] treats all queries of two bytes and more alike, and all shorter ones.
pub proof fn deciding_depends_on_two_bytes(
    compiles: bool,
    root_exists: bool,
    bytes: usize,
    other_bytes: usize,
    decision: SearchDecision,
    other: SearchDecision,
)
    requires
        call_ensures(decide, (compiles, root_exists, bytes), decision),
        call_ensures(decide, (compiles, root_exists, other_bytes), other),
    ensures
        decision is Ignore <==> !compiles,
        decision is MissingRoot <==> compiles && !root_exists,
        decision is ListFiles <==> compiles && root_exists && bytes < 2,
        decision is SearchContents <==> compiles && root_exists && bytes >= 2,
        (bytes >= 2 <==> other_bytes >= 2) ==> decision == other,
{
}

/// [`dyn_search_callback`] plans by whether the query compiles, the directory exists and the query
/// has two bytes, in this order. What is searched for is the query itself, with smart case as it
/// was set, and the walk goes through the directory with each setting as it was set.
pub proof fn planning_follows_the_query(
    query: &str,
    smart_case: bool,
    directory: Directory,
    config_dir: &PathBuf,
    config: &FilePickerConfig,
    plan: SearchPlan,
)
    requires
        call_ensures(
            dyn_search_callback,
            (query, smart_case, directory, config_dir, config),
            plan,
        ),
    ensures
        plan is Ignore <==> !pattern_compiles(query@, smart_case),
        plan is MissingRoot <==> pattern_compiles(query@, smart_case) && !directory.exists,
        plan is ListFiles <==> pattern_compiles(query@, smart_case) && directory.exists
            && vstd::utf8::encode_utf8(query@).len() < 2,
        plan is SearchContents <==> pattern_compiles(query@, smart_case) && directory.exists
            && vstd::utf8::encode_utf8(query@).len() >= 2,
        plan matches SearchPlan::MissingRoot(message) ==> message@
            == "Current working directory does not exist"@,
        plan matches SearchPlan::ListFiles(walk) ==> follows_settings(walk, directory, *config)
            && walk_custom_ignores(walk.builder).len() == 0,
        plan matches SearchPlan::SearchContents(search, walk) ==> follows_settings(
            walk,
            directory,
            *config,
        ) && matcher_source(search.matcher) == Some((query@, smart_case)) && searcher_settings(
            search.searcher,
        ) == Some((0u8, false)) && walk_custom_ignores(walk.builder) == seq![
            joined_path(buf_bytes(*config_dir), "ignore"@),
            vstd::utf8::encode_utf8(".helix/ignore"@),
        ],
{
}

/// Whether a walk goes through `directory` and has each setting as it is in `config`.
pub open spec fn follows_settings(
    walk: WalkPlan,
    directory: Directory,
    config: FilePickerConfig,
) -> bool {
    let options = walk_options(walk.builder);
    &&& walk_roots(walk.builder) == seq![buf_bytes(directory.path)]
    &&& options.hidden == config.hidden
    &&& options.parents == config.parents
    &&& options.ignore == config.ignore
    &&& options.follow_links == config.follow_symlinks
    &&& options.git_ignore == config.git_ignore
    &&& options.git_global == config.git_global
    &&& options.git_exclude == config.git_exclude
    &&& options.max_depth == config.max_depth
    &&& options.min_depth is None
    &&& walk.deduplicate_links == config.deduplicate_links
    &&& directory.canonical is Some ==> buf_bytes(walk.absolute_root) == buf_bytes(
        directory.canonical->0,
    )
    &&& directory.canonical is None ==> buf_bytes(walk.absolute_root) == buf_bytes(directory.path)
}

/// [`list_walk`] follows each setting, for every combination of the others: two walks agree in an
/// option exactly where the configurations agree in the setting.
pub proof fn a_list_follows_each_setting(
    directory: Directory,
    other_directory: Directory,
    config: &FilePickerConfig,
    other_config: &FilePickerConfig,
    plan: WalkPlan,
    other: WalkPlan,
)
    requires
        call_ensures(list_walk, (directory, config), plan),
        call_ensures(list_walk, (other_directory, other_config), other),
    ensures
        follows_settings(plan, directory, *config),
        walk_custom_ignores(plan.builder).len() == 0,
        ({
            let (a, b) = (walk_options(plan.builder), walk_options(other.builder));
            &&& a.hidden == b.hidden <==> config.hidden == other_config.hidden
            &&& a.parents == b.parents <==> config.parents == other_config.parents
            &&& a.ignore == b.ignore <==> config.ignore == other_config.ignore
            &&& a.follow_links == b.follow_links <==> config.follow_symlinks
                == other_config.follow_symlinks
            &&& a.git_ignore == b.git_ignore <==> config.git_ignore == other_config.git_ignore
            &&& a.git_global == b.git_global <==> config.git_global == other_config.git_global
            &&& a.git_exclude == b.git_exclude <==> config.git_exclude == other_config.git_exclude
            &&& a.max_depth == b.max_depth <==> config.max_depth == other_config.max_depth
        }),
{
}

/// [`content_walk`] differs from [`list_walk`] in its two additional ignore files only.
pub proof fn a_content_walk_has_ignore_files(
    directory: Directory,
    config_dir: &PathBuf,
    config: &FilePickerConfig,
    plan: WalkPlan,
    list: WalkPlan,
)
    requires
        call_ensures(content_walk, (directory, config_dir, config), plan),
        call_ensures(list_walk, (directory, config), list),
    ensures
        follows_settings(plan, directory, *config),
        walk_options(plan.builder) == walk_options(list.builder),
        walk_roots(plan.builder) == walk_roots(list.builder),
        walk_custom_ignores(plan.builder) == seq![
            joined_path(buf_bytes(*config_dir), "ignore"@),
            vstd::utf8::encode_utf8(".helix/ignore"@),
        ],
{
}

/// [`listed_file`] lists exactly the files, each under its path and without a line.
pub proof fn listing_keeps_the_path(entry: Option<WalkEntry>, result: Option<FileResult>)
    requires
        call_ensures(listed_file, (entry,), result),
    ensures
        result is Some <==> entry is Some && entry->0.is_file == Some(true),
        result is Some ==> result->0.line_num is None && buf_bytes(result->0.path) == buf_bytes(
            entry->0.path,
        ),
{
}

/// [`feed_step`] and [`listing_step`] stop exactly at a refusal, or where the listing is cancelled,
/// and move to the background exactly once the time is over.
pub proof fn feeding_stops_at_a_refusal(
    phase: FeedPhase,
    outcome: PushOutcome,
    cancelled: bool,
    fed: FeedPhase,
    listed: FeedPhase,
    start: FeedPhase,
)
    requires
        call_ensures(feed_step, (phase, outcome), fed),
        call_ensures(listing_step, (phase, outcome, cancelled), listed),
        call_ensures(listing_start, (cancelled,), start),
    ensures
        fed is Stopped <==> phase is Stopped || !outcome.accepted,
        fed is Foreground <==> phase is Foreground && outcome.accepted && !outcome.past_deadline,
        !cancelled ==> listed == fed,
        cancelled ==> listed is Stopped,
        start is Stopped <==> cancelled,
        start is Foreground <==> !cancelled,
{
}

/// [`settle_cursor`] keeps a selection among the matches, and gives the smaller of the selection
/// and the last match where the matches changed. More matches never move it up the list, and
/// settling again changes nothing.
pub proof fn settling_keeps_the_selection(
    cursor: u32,
    changed: bool,
    matched: u32,
    more: u32,
    settled: u32,
    with_more: u32,
    again: u32,
)
    requires
        call_ensures(settle_cursor, (cursor, changed, matched), settled),
        call_ensures(settle_cursor, (cursor, changed, more), with_more),
        call_ensures(settle_cursor, (settled, changed, matched), again),
        matched <= more,
    ensures
        cursor < matched ==> settled == cursor,
        !changed ==> settled == cursor,
        changed && cursor >= matched > 0 ==> settled + 1 == matched,
        changed && matched == 0 ==> settled == 0,
        settled <= with_more <= cursor,
        again == settled,
{
}

/// [`shortcut`] knows Tab, alone or with shift, and control with `j` and `k`, and no other event.
pub proof fn no_other_key_is_a_shortcut(
    event: &Event,
    code: KeyCode,
    modifiers: KeyModifiers,
    found: Option<Shortcut>,
)
    requires
        call_ensures(shortcut, (event,), found),
        *event is Key ==> *event == Event::Key(KeyEvent { code, modifiers }),
    ensures
        *event is Other ==> found is None,
        *event is Key ==> {
            let with_control = modifiers.control && !modifiers.shift && !modifiers.alt
                && !modifiers.other;
            &&& found == Some(Shortcut::SwitchFocus) <==> code == KeyCode::Tab
                && !modifiers.control && !modifiers.alt && !modifiers.other
            &&& found == Some(Shortcut::Move(Direction::Forward)) <==> with_control && code
                == KeyCode::Char('j')
            &&& found == Some(Shortcut::Move(Direction::Backward)) <==> with_control && code
                == KeyCode::Char('k')
        },
{
}

/// [`FileResult::new`], [`FileResult::format`] and [`FileResult::preview`] keep path and line; the
/// row has a mark behind the path exactly where a file with the same components is open.
pub proof fn an_entry_shows_its_file(
    path: &Path,
    line_num: Option<usize>,
    entry: &FileResult,
    relative_path: &str,
    current_path: &Option<PathBuf>,
    row: String,
    preview: (PathBuf, Option<(usize, usize)>),
)
    requires
        call_ensures(FileResult::new, (path, line_num), *entry),
        call_ensures(FileResult::format, (entry, relative_path, current_path), row),
        call_ensures(FileResult::preview, (entry,), preview),
    ensures
        buf_bytes(entry.path) == path_bytes(path),
        entry.line_num == line_num,
        buf_bytes(preview.0) == path_bytes(path),
        preview.1 is Some <==> line_num is Some,
        line_num is Some ==> preview.1->0 == (line_num->0, line_num->0),
        row@ == relative_path@ || row@ == relative_path@ + " (*)"@,
        row@ == relative_path@ + " (*)"@ <==> current_path is Some && path_components(
            buf_bytes(current_path->0),
        ) == path_components(path_bytes(path)),
{
    reveal_strlit(" (*)");
    assert((relative_path@ + " (*)"@).len() == relative_path@.len() + 4);
}

/// [`line_result`] and [`line_results`] count lines from zero where a search counts from one.
pub proof fn lines_are_counted_from_zero(
    path: &PathBuf,
    line: u64,
    result: FileResult,
    lines: &Vec<u64>,
    results: Vec<FileResult>,
    i: int,
)
    requires
        1 <= line <= usize::MAX,
        call_ensures(line_result, (path, line), result),
        0 <= i < lines@.len(),
        1 <= lines@[i] <= usize::MAX,
        call_ensures(line_results, (path, lines), results),
    ensures
        result.line_num is Some && result.line_num->0 + 1 == line,
        buf_bytes(result.path) == buf_bytes(*path),
        results@.len() == lines@.len(),
        results@[i].line_num is Some && results@[i].line_num->0 + 1 == lines@[i],
        buf_bytes(results@[i].path) == buf_bytes(*path),
{
    assert(buf_bytes(results@[i].path) == buf_bytes(*path));
}

/// [`jump`] selects exactly the entry's line, from its start to the start of the next one, wherever
/// the file has it.
pub proof fn a_jump_selects_one_line(line_num: Option<usize>, len_lines: usize, to: Jump)
    requires
        call_ensures(jump, (line_num, len_lines), to),
    ensures
        to is Stay <==> line_num is None,
        to is Select <==> line_num is Some && line_num->0 < len_lines,
        to matches Jump::Select(from, end) ==> line_num == Some(from) && end == from + 1,
        to matches Jump::LineGone(message) ==> message@
            == "The line you jumped to does not exist anymore because the file has changed."@,
{
}

/// [`open_error`] names the file and what went wrong.
pub proof fn an_error_names_the_file(path: &str, error: &str, message: String)
    requires
        call_ensures(open_error, (path, error), message),
    ensures
        message@ == "Failed to open file '"@ + path@ + "': "@ + error@,
{
}

/// [`spawn_interactive_search`] opens a picker exactly where the directory exists: around the file
/// picker as it is, but with a preview, with the input where it was asked for, and with a walk
/// through the directory.
pub proof fn a_search_opens_where_there_is_a_directory(
    search_focused: bool,
    file_picker: Picker<FileResult>,
    directory: Directory,
    config: &FilePickerConfig,
    opened: Result<OpenedSearch, String>,
)
    requires
        call_ensures(
            spawn_interactive_search,
            (search_focused, file_picker, directory, config),
            opened,
        ),
    ensures
        opened is Ok <==> directory.exists,
        opened is Err ==> opened->Err_0@ == "Workspace directory does not exist"@,
        opened matches Ok(search) ==> {
            let inside = search.picker.file_picker;
            &&& search.picker.search_focused == search_focused
            &&& search.picker.previous_search@.len() == 0
            &&& search.picker.search_prompt.line@.len() == 0
            &&& search.picker.search_prompt.label@ == "search:"@
            &&& inside.prompt.label@ == "path:"@
            &&& inside.prompt.line == file_picker.prompt.line
            &&& inside.matcher == file_picker.matcher
            &&& inside.cursor == file_picker.cursor
            &&& inside.show_preview == file_picker.show_preview
            &&& inside.has_file_fn
            &&& inside.min_area_width_for_preview == file_picker.min_area_width_for_preview
            &&& inside.shutdown == file_picker.shutdown
            &&& follows_settings(search.walk, directory, *config)
            &&& walk_custom_ignores(search.walk.builder).len() == 0
        },
{
}

/// [`InteractivePicker::new`] keeps the file picker but for its label, and searches for nothing.
pub proof fn a_new_picker_keeps_the_file_picker(
    file_picker: Picker<FileResult>,
    search_focused: bool,
    picker: InteractivePicker<FileResult>,
)
    requires
        call_ensures(
            InteractivePicker::<FileResult>::new,
            (file_picker, search_focused),
            picker,
        ),
    ensures
        picker.search_focused == search_focused,
        picker.search_prompt.label@ == "search:"@,
        picker.search_prompt.line@.len() == 0,
        picker.previous_search@.len() == 0,
        !picker.cancel_notify.raised,
        picker.file_picker.prompt.label@ == "path:"@,
        picker.file_picker == (Picker { prompt: picker.file_picker.prompt, ..file_picker }),
        picker.file_picker.prompt.line == file_picker.prompt.line,
{
}

/// [`InteractivePicker::cursor`] shows the cursor in the field with the focus: in the first row
/// inside the borders behind a free column, or below the first two rows.
pub proof fn the_cursor_is_in_the_field_with_the_focus(
    picker: &InteractivePicker<FileResult>,
    area: Rect,
    cursor: CursorArea,
)
    requires
        call_ensures(InteractivePicker::<FileResult>::cursor, (picker, area), cursor),
        area.x + area.width <= u16::MAX,
        area.y + area.height <= u16::MAX,
    ensures
        cursor is SearchPrompt <==> picker.search_focused,
        cursor matches CursorArea::SearchPrompt(row) ==> {
            &&& row.height == 1
            &&& row.y == area.y + (if area.height > 0 {
                1int
            } else {
                0
            })
            &&& area.width >= 3 ==> row.x == area.x + 2 && row.width + 3 == area.width
            &&& area.width < 3 ==> row.width == 0
        },
        cursor matches CursorArea::FilePicker(rest) ==> {
            &&& rest.x == area.x && rest.width == area.width
            &&& rest.y + rest.height == area.y + area.height
            &&& area.height >= 2 ==> rest.y == area.y + 2
            &&& area.height < 2 ==> rest.height == 0
        },
{
}

/// [`columns`] gives the preview the right half, with the odd column, and the picker the rest.
pub proof fn the_columns_are_halves(
    area: Rect,
    with_preview: bool,
    parts: Columns,
)
    requires
        call_ensures(columns, (area, with_preview), parts),
    ensures
        parts.preview is Some <==> with_preview,
        !with_preview ==> parts.picker == area,
        with_preview ==> {
            let (picker, preview) = (parts.picker, parts.preview->0);
            &&& picker.x == area.x && picker.y == area.y && picker.height == area.height
            &&& preview.y == area.y && preview.height == area.height
            &&& picker.width + preview.width == area.width
            &&& picker.width <= preview.width <= picker.width + 1
            &&& area.x + area.width <= u16::MAX ==> preview.x == area.x + picker.width
        },
{
}

/// [`search_bar`] puts the prompt, the count and the line where they belong, whatever the numbers
/// are: the count ends one column before the prompt does where there is room for it.
pub proof fn the_bar_is_laid_out_in_two_rows(
    inner: Rect,
    running: bool,
    matched: u32,
    total: u32,
    bar: SearchBar,
    idle: SearchBar,
)
    requires
        inner.x + inner.width <= u16::MAX,
        inner.y < u16::MAX,
        call_ensures(search_bar, (inner, running, matched, total), bar),
        call_ensures(search_bar, (inner, false, matched, total), idle),
    ensures
        bar.prompt.y == inner.y && bar.prompt.height == 1,
        inner.width > 0 ==> bar.prompt.x == inner.x + 1 && bar.prompt.width + 1 == inner.width,
        inner.width == 0 ==> bar.prompt.x == inner.x && bar.prompt.width == 0,
        bar.count.y == inner.y,
        bar.count.text@.len() < inner.x + inner.width ==> bar.count.x + bar.count.text@.len() + 1
            == inner.x + inner.width,
        bar.count.text@.len() >= inner.x + inner.width ==> bar.count.x == 0,
        bar.count.width <= bar.count.text@.len() && bar.count.width <= bar.prompt.width,
        bar.count.width == bar.count.text@.len() || bar.count.width == bar.prompt.width,
        running ==> bar.count.text@ == "(running) "@ + idle.count.text@,
        !running ==> bar.count.text@ == idle.count.text@,
        bar.separator@.len() == inner.width,
        forall|i: int|
            0 <= i < inner.width ==> (#[trigger] bar.separator@[i]).0 == inner.x + i
                && bar.separator@[i].1 == inner.y + 1,
{
    the_count_can_be_read_back(matched, total);
}

/// [`can_fit_search_bar`] says no only where a coordinate is too large.
pub proof fn a_bar_fits_unless_coordinates_are_too_large(inner: Rect, fits: bool)
    requires
        call_ensures(can_fit_search_bar, (inner,), fits),
    ensures
        inner.x + inner.width <= u16::MAX && inner.y < u16::MAX ==> fits,
        inner.width > 1 && inner.x + inner.width > u16::MAX ==> !fits,
{
}

/// [`decimal_string`] writes digits that read back as the number, without a zero in front.
pub proof fn a_number_is_written_in_digits(n: u32, text: String)
    requires
        call_ensures(decimal_string, (n,), text),
    ensures
        decimal_value(text@) == n,
        text@.len() > 0,
        forall|i: int| 0 <= i < text@.len() ==> '0' <= #[trigger] text@[i] <= '9',
        text@[0] == '0' ==> text@.len() == 1,
{
    decimal_keeps_the_number(n as nat);
    decimal_is_the_usual_notation(n as nat);
}

/// The operations on rectangles: clipping keeps the far edges and the other extent, and the inside
/// of a box is smaller by a cell on each side.
pub proof fn rectangles_are_cut_at_their_edges(
    area: Rect,
    n: u16,
    left: Rect,
    top: Rect,
    inner: Rect,
    wide: Rect,
    high: Rect,
)
    requires
        area.x + area.width <= u16::MAX,
        area.y + area.height <= u16::MAX,
        call_ensures(Rect::clip_left, (area, n), left),
        call_ensures(Rect::clip_top, (area, n), top),
        call_ensures(Rect::inner, (area,), inner),
        call_ensures(Rect::with_width, (area, n), wide),
        call_ensures(Rect::with_height, (area, n), high),
    ensures
        left.y == area.y && left.height == area.height,
        left.x + left.width == area.x + area.width,
        n <= area.width ==> left.x == area.x + n,
        n > area.width ==> left.width == 0,
        top.x == area.x && top.width == area.width,
        top.y + top.height == area.y + area.height,
        n <= area.height ==> top.y == area.y + n,
        n > area.height ==> top.height == 0,
        area.width >= 2 ==> inner.x == area.x + 1 && inner.width + 2 == area.width,
        area.height >= 2 ==> inner.y == area.y + 1 && inner.height + 2 == area.height,
        area.width < 2 ==> inner.width == 0,
        area.height < 2 ==> inner.height == 0,
        wide == (Rect { x: area.x, y: area.y, width: n, height: area.height }),
        high == (Rect { x: area.x, y: area.y, width: area.width, height: n }),
{
}

/// [`Flag::raise`] raises the same flag, and [`Flag::renew`] gives another one that is not raised:
/// different flags for different flags.
pub proof fn a_flag_is_raised_or_replaced(
    flag: Flag,
    other: Flag,
    raised: Flag,
    renewed: Flag,
    other_renewed: Flag,
)
    requires
        call_ensures(Flag::raise, (flag,), raised),
        call_ensures(Flag::renew, (flag,), renewed),
        call_ensures(Flag::renew, (other,), other_renewed),
    ensures
        raised.id == flag.id && raised.raised,
        renewed.id != flag.id && !renewed.raised,
        renewed.id == other_renewed.id <==> flag.id == other.id,
{
}

/// [`draw_steps`] draws each part of the frame once, what clears an area before what is drawn in
/// it, and the preview last and exactly where there is one.
pub proof fn all_of_a_frame_is_drawn(frame: Frame, steps: Vec<DrawStep>)
    requires
        call_ensures(draw_steps, (frame,), steps),
    ensures
        steps@.len() == if frame.preview is Some {
            7int
        } else {
            6int
        },
        steps@[0] == DrawStep::Clear(frame.picker.area),
        steps@[1] == DrawStep::Borders(frame.picker.area),
        steps@[2] == DrawStep::SearchPrompt(frame.picker.search.prompt),
        steps@[3] == DrawStep::Count(frame.picker.search.count),
        steps@[4] == DrawStep::Separator(frame.picker.search.separator),
        steps@[5] == DrawStep::List(frame.picker.list, frame.picker.status),
        frame.preview is Some ==> steps@[6] == DrawStep::Preview(frame.preview->0),
{
}

/// [`InteractivePicker::handle_event`] swallows no event but Tab, moves the selection for control
/// with `j` and `k`, and hands every other event to the field with the focus. It changes nothing but
/// the focus, and that for Tab only.
pub proof fn an_event_reaches_the_field_with_the_focus(
    picker: &mut InteractivePicker<FileResult>,
    event: &Event,
    code: KeyCode,
    modifiers: KeyModifiers,
    step: EventStep,
)
    requires
        call_ensures(InteractivePicker::<FileResult>::handle_event, (picker, event), step),
        *event is Key ==> *event == Event::Key(KeyEvent { code, modifiers }),
    ensures
        ({
            let tab = *event is Key && code == KeyCode::Tab && !modifiers.control && !modifiers.alt
                && !modifiers.other;
            let with_control = *event is Key && modifiers.control && !modifiers.shift
                && !modifiers.alt && !modifiers.other;
            let (forward, backward) = (
                with_control && code == KeyCode::Char('j'),
                with_control && code == KeyCode::Char('k'),
            );
            &&& step is Consumed <==> tab
            &&& step == EventStep::MoveBy(1, Direction::Forward) <==> forward
            &&& step == EventStep::MoveBy(1, Direction::Backward) <==> backward
            &&& step is MoveBy ==> forward || backward
            &&& step is SearchPrompt <==> !tab && !forward && !backward && old(picker).search_focused
            &&& step is FilePicker <==> !tab && !forward && !backward && !old(picker).search_focused
            &&& final(picker).search_focused == old(picker).search_focused <==> !tab
        }),
        final(picker).file_picker == old(picker).file_picker,
        final(picker).search_prompt == old(picker).search_prompt,
        final(picker).previous_search == old(picker).previous_search,
        final(picker).cancel_notify == old(picker).cancel_notify,
{
}

/// [`InteractivePicker::search_line`] starts a search exactly for a line that differs from the last
/// query, for that line as it is, and leaves alone what the user set and selected.
pub proof fn a_changed_line_is_searched_for(
    picker: &mut InteractivePicker<FileResult>,
    line: &str,
    request: Option<SearchRequest>,
)
    requires
        call_ensures(InteractivePicker::<FileResult>::search_line, (picker, line), request),
    ensures
        request is None <==> old(picker).previous_search@ == line@,
        final(picker).previous_search@ == line@,
        final(picker).search_prompt.line@ == line@,
        final(picker).search_prompt.label == old(picker).search_prompt.label,
        final(picker).search_focused == old(picker).search_focused,
        final(picker).file_picker.prompt == old(picker).file_picker.prompt,
        final(picker).file_picker.cursor == old(picker).file_picker.cursor,
        final(picker).file_picker.show_preview == old(picker).file_picker.show_preview,
        final(picker).file_picker.has_file_fn == old(picker).file_picker.has_file_fn,
        final(picker).file_picker.min_area_width_for_preview == old(picker).file_picker.min_area_width_for_preview,
        matched_count(final(picker).file_picker.matcher) == matched_count(
            old(picker).file_picker.matcher,
        ),
        total_count(final(picker).file_picker.matcher) == total_count(
            old(picker).file_picker.matcher,
        ),
        request is None ==> final(picker).file_picker == old(picker).file_picker && final(picker).cancel_notify == old(picker).cancel_notify,
        request matches Some(search) ==> {
            &&& search.query@ == line@
            &&& is_restarted(final(picker).file_picker.matcher)
            &&& search.cancelled.id == old(picker).cancel_notify.id && search.cancelled.raised
            &&& search.cancel.id != old(picker).cancel_notify.id && !search.cancel.raised
            &&& search.shutdown.id != old(picker).file_picker.shutdown.id
            &&& !search.shutdown.raised
            &&& final(picker).cancel_notify == search.cancel
            &&& final(picker).file_picker.shutdown == search.shutdown
        },
{
}

/// Whether drawing changed no more than the matcher and the selection, and the selection only
/// where the matches changed and it lay beyond them: it is then the last match.
pub open spec fn drew(
    before: InteractivePicker<FileResult>,
    after: InteractivePicker<FileResult>,
    changed: bool,
) -> bool {
    let matched = matched_count(after.file_picker.matcher);
    &&& after.search_focused == before.search_focused
    &&& after.search_prompt == before.search_prompt
    &&& after.previous_search == before.previous_search
    &&& after.cancel_notify == before.cancel_notify
    &&& after.file_picker.prompt == before.file_picker.prompt
    &&& after.file_picker.show_preview == before.file_picker.show_preview
    &&& after.file_picker.has_file_fn == before.file_picker.has_file_fn
    &&& after.file_picker.min_area_width_for_preview
        == before.file_picker.min_area_width_for_preview
    &&& after.file_picker.shutdown == before.file_picker.shutdown
    &&& !changed || before.file_picker.cursor < matched ==> after.file_picker.cursor
        == before.file_picker.cursor
    &&& changed && before.file_picker.cursor >= matched > 0 ==> after.file_picker.cursor + 1
        == matched
    &&& changed && matched == 0 ==> after.file_picker.cursor == 0
}

/// Whether a frame has its parts where they belong in a box of at least three columns and four
/// rows: the prompt behind a free column in the first row inside the borders, the line in the
/// second, and the list in the others.
pub open spec fn frame_fills(frame: PickerFrame, area: Rect) -> bool {
    &&& frame.area == area
    &&& frame.search.prompt.x == area.x + 2 && frame.search.prompt.width + 3 == area.width
    &&& frame.search.prompt.y == area.y + 1 && frame.search.prompt.height == 1
    &&& frame.search.count.y == area.y + 1
    &&& frame.search.separator@.len() + 2 == area.width
    &&& forall|i: int|
        0 <= i < frame.search.separator@.len() ==> (#[trigger] frame.search.separator@[i]).0
            == area.x + 1 + i && frame.search.separator@[i].1 == area.y + 2
    &&& frame.list.x == area.x + 1 && frame.list.width + 2 == area.width
    &&& frame.list.y == area.y + 3 && frame.list.height + 4 == area.height
}

/// [`InteractivePicker::lay_out`] takes over the status it is given, keeps a selection among the
/// matches, and fills the area.
pub proof fn laying_out_takes_the_status_over(
    picker: &mut InteractivePicker<FileResult>,
    area: Rect,
    status: Status,
    frame: PickerFrame,
)
    requires
        area.on_screen(),
        area.width >= 3,
        area.height >= 4,
        call_ensures(InteractivePicker::<FileResult>::lay_out, (picker, area, status), frame),
    ensures
        frame.status == status,
        final(picker).file_picker.matcher == old(picker).file_picker.matcher,
        drew(*old(picker), *final(picker), status.changed),
        frame_fills(frame, area),
        frame.search.count.text@ == count_text(
            status.running,
            matched_count(old(picker).file_picker.matcher),
            total_count(old(picker).file_picker.matcher),
        ),
{
}

/// [`InteractivePicker::render_picker`] keeps a selection among the matches, shows the matcher's
/// numbers, and fills the area.
pub proof fn drawing_keeps_the_selection(
    picker: &mut InteractivePicker<FileResult>,
    area: Rect,
    frame: PickerFrame,
)
    requires
        area.on_screen(),
        area.width >= 3,
        area.height >= 4,
        call_ensures(InteractivePicker::<FileResult>::render_picker, (picker, area), frame),
    ensures
        !is_restarted(final(picker).file_picker.matcher),
        drew(*old(picker), *final(picker), frame.status.changed),
        frame_fills(frame, area),
        frame.search.count.text@ == count_text(
            frame.status.running,
            matched_count(final(picker).file_picker.matcher),
            total_count(final(picker).file_picker.matcher),
        ),
{
}

/// [`InteractivePicker::render`] shows a preview exactly where the user wants one, the file of an
/// entry can be found and the area is wider than the least width; the picker then fills the left
/// half, and else the whole area.
pub proof fn drawing_shares_the_area(
    picker: &mut InteractivePicker<FileResult>,
    area: Rect,
    frame: Frame,
)
    requires
        area.on_screen(),
        area.width >= 6,
        area.height >= 4,
        call_ensures(InteractivePicker::<FileResult>::render, (picker, area), frame),
    ensures
        frame.preview is Some <==> old(picker).file_picker.show_preview && old(picker).file_picker.has_file_fn && old(picker).file_picker.min_area_width_for_preview
            < area.width,
        drew(*old(picker), *final(picker), frame.picker.status.changed),
        !is_restarted(final(picker).file_picker.matcher),
        frame_fills(frame.picker, frame.picker.area),
        frame.picker.area.x == area.x && frame.picker.area.y == area.y,
        frame.picker.area.height == area.height,
        frame.preview is None ==> frame.picker.area.width == area.width,
        frame.preview matches Some(preview) ==> {
            &&& preview.x == area.x + frame.picker.area.width && preview.y == area.y
            &&& preview.height == area.height
            &&& frame.picker.area.width + preview.width == area.width
            &&& frame.picker.area.width <= preview.width <= frame.picker.area.width + 1
        },
        frame.picker.search.count.text@ == count_text(
            frame.picker.status.running,
            matched_count(final(picker).file_picker.matcher),
            total_count(final(picker).file_picker.matcher),
        ),
{
}

/// [`InteractivePicker::render_search_prompt`] shows the matcher's numbers.
pub proof fn the_bar_shows_the_numbers(
    picker: &InteractivePicker<FileResult>,
    area: Rect,
    status: Status,
    bar: SearchBar,
)
    requires
        call_ensures(
            InteractivePicker::<FileResult>::render_search_prompt,
            (picker, area, status),
            bar,
        ),
    ensures
        bar.count.text@ == count_text(
            status.running,
            matched_count(picker.file_picker.matcher),
            total_count(picker.file_picker.matcher),
        ),
        bar.prompt.y == area.y && bar.prompt.height == 1,
        bar.count.y == area.y,
{
}

/// [`InteractivePicker::can_render`] says yes wherever the area lies on the screen and is not on
/// its last rows, and [`Picker::shows_preview`] by the user's wish and the room.
pub proof fn an_area_on_the_screen_can_be_drawn(
    picker: &InteractivePicker<FileResult>,
    inside: &Picker<FileResult>,
    area: Rect,
    fits: bool,
    shown: bool,
)
    requires
        call_ensures(InteractivePicker::<FileResult>::can_render, (picker, area), fits),
        call_ensures(Picker::<FileResult>::shows_preview, (inside, area), shown),
    ensures
        area.on_screen() && area.y + 1 < u16::MAX ==> fits,
        shown <==> inside.show_preview && inside.has_file_fn && inside.min_area_width_for_preview
            < area.width,
{
}

/// [`register`] registers each kind of event, and only the first time.
pub proof fn registering_again_does_nothing(
    registry: &mut EventRegistry,
    registered: Vec<EventKind>,
    event: EventKind,
)
    requires
        old(registry).wf(),
        call_ensures(register, (registry,), registered),
    ensures
        final(registry).done,
        final(registry).registered@.contains(event),
        final(registry).registered@.no_duplicates(),
        registered@.contains(event) <==> !old(registry).done,
        registered@.no_duplicates(),
        old(registry).done ==> final(registry).registered@ == old(registry).registered@,
{
    every_kind_is_registered(event);
}

/// [`ContentSearch::search_document`] gives one entry for each line that the searcher reports of
/// the text, in order and counted from zero, and passes its error on. It keeps the query and the
/// settings.
pub proof fn searching_a_document_gives_its_lines(
    search: &mut ContentSearch,
    path: &PathBuf,
    text: &str,
    found: BufferSearch,
    i: int,
)
    requires
        matcher_source(old(search).matcher) is Some,
        searcher_settings(old(search).searcher) == Some((0u8, false)),
        call_ensures(ContentSearch::search_document, (search, path, text), found),
    ensures
        ({
            let source = matcher_source(old(search).matcher)->0;
            let hits = reader_hits(
                source.0,
                source.1,
                (0, false),
                buffer_len(old(search).searcher),
                text@,
            );
            &&& found.results@.len() == hits.0.len()
            &&& 0 <= i < hits.0.len() ==> found.results@[i].line_num is Some
                && found.results@[i].line_num->0 + 1 == hits.0[i] && buf_bytes(
                found.results@[i].path,
            ) == buf_bytes(*path)
            &&& found.error is Some <==> hits.1 is Some
            &&& found.error is Some ==> found.error->0@ == hits.1->0
        }),
        final(search).matcher == old(search).matcher,
        searcher_settings(final(search).searcher) == Some((0u8, false)),
{
    if 0 <= i < found.results@.len() {
        assert(buf_bytes(found.results@[i].path) == buf_bytes(*path));
    }
}

/// [`ContentSearch::new`] and [`ContentSearch::fork`] keep the query; a search quits at a NUL byte.
pub proof fn a_search_keeps_its_query(
    matcher: RegexMatcher,
    search: &ContentSearch,
    fork: ContentSearch,
)
    requires
        call_ensures(ContentSearch::new, (matcher,), *search),
        call_ensures(ContentSearch::fork, (search,), fork),
    ensures
        search.matcher == matcher,
        matcher_source(fork.matcher) == matcher_source(matcher),
        searcher_settings(search.searcher) == Some((0u8, false)),
        searcher_settings(fork.searcher) == Some((0u8, false)),
        buffer_len(fork.searcher) == buffer_len(search.searcher),
{
}

} // verus!
