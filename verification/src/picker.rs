//! The interactive picker: a file picker with a search prompt above it.
use crate::file_result::FileResult;
use crate::flag::Flag;
use crate::graphics::Rect;
use crate::keys::{
    shortcut, shortcut_of, Direction, Event, KeyCode, KeyEvent, KeyModifiers, Shortcut,
};
use crate::layout::{
    can_fit_search_bar, columns, count_text, fits_search_bar, is_search_bar, picker_part,
    preview_part, prompt_row, search_bar, Columns, SearchBar, SEARCH_BAR_HEIGHT,
};
use crate::matcher::{
    is_restarted, item_count, matched_count, matched_item_count, restart, tick, total_count,
    Status,
};
use nucleo::Nucleo;
use vstd::prelude::*;

verus! {

/// How long, in milliseconds, drawing waits for the matcher.
pub const TICK_TIMEOUT: u64 = 10;

/// An input field: its label, and the line that was typed.
pub struct Prompt {
    pub label: String,
    pub line: String,
}

impl Prompt {
    /// An empty input field with this label.
    pub fn new(label: &str) -> (prompt: Prompt)
        ensures
            prompt.label@ == label@,
            prompt.line@ == Seq::<char>::empty(),
    {
        Prompt { label: label.to_owned(), line: String::new() }
    }

    /// Gives the input field another label.
    pub fn set_prompt(&mut self, label: &str)
        ensures
            final(self).label@ == label@,
            final(self).line == old(self).line,
    {
        self.label = label.to_owned();
    }
}

/// The file picker below the search prompt.
#[verifier::reject_recursive_types(T)]
pub struct Picker<T: Sync + Send + 'static> {
    /// The input field that filters the entries.
    pub prompt: Prompt,
    /// The entries, and which of them match.
    pub matcher: Nucleo<T>,
    /// The selected match.
    pub cursor: u32,
    /// Whether the user wants a preview.
    pub show_preview: bool,
    /// Whether it is known how to find the file of an entry, which a preview needs.
    pub has_file_fn: bool,
    /// The area must be wider than this for a preview.
    pub min_area_width_for_preview: u16,
    /// Raised when the picker is closed: the injectors that share it stop.
    pub shutdown: Flag,
}

/// The last match that can be selected among `matched`; the first one where there is none.
pub open spec fn last_selectable(matched: u32) -> u32 {
    if matched == 0 {
        0
    } else {
        (matched - 1) as u32
    }
}

/// The selection after a tick: kept, but no further than the last match where the matches
/// changed.
pub open spec fn settled_cursor(cursor: u32, changed: bool, matched: u32) -> u32 {
    if changed && cursor > last_selectable(matched) {
        last_selectable(matched)
    } else {
        cursor
    }
}

/// The selection after a tick that ended with `matched` matches.
pub fn settle_cursor(cursor: u32, changed: bool, matched: u32) -> (settled: u32)
    ensures
        settled == settled_cursor(cursor, changed, matched),
        cursor < matched || !changed ==> settled == cursor,
        changed && cursor >= matched ==> settled == (if matched > 0 {
            matched - 1
        } else {
            0
        }),
{
    let last: u32 = matched.saturating_sub(1);
    if changed && cursor > last {
        last
    } else {
        cursor
    }
}

impl<T: Sync + Send + 'static> Picker<T> {
    /// Whether a preview is shown beside the picker in `area`.
    pub open spec fn previews(self, area: Rect) -> bool {
        self.show_preview && self.has_file_fn && area.width > self.min_area_width_for_preview
    }

    /// Whether a preview is shown beside the picker in `area`.
    pub fn shows_preview(&self, area: Rect) -> (shown: bool)
        ensures
            shown == self.previews(area),
            shown <==> self.show_preview && self.has_file_fn && self.min_area_width_for_preview
                < area.width,
    {
        self.show_preview && self.has_file_fn && area.width > self.min_area_width_for_preview
    }
}

impl Picker<FileResult> {
    /// Whether the selection is one of the matches that are shown, or the first place where
    /// nothing matches.
    pub open spec fn selection_is_shown(self) -> bool {
        self.cursor <= last_selectable(matched_count(self.matcher))
    }
}

/// A picker that updates its contents whenever the query string changes. Useful for live
/// grep, workspace symbols, etc.
#[verifier::reject_recursive_types(T)]
pub struct InteractivePicker<T: Sync + Send + 'static> {
    pub file_picker: Picker<T>,
    /// Whether input goes to the search prompt.
    pub search_focused: bool,
    /// The input field for the query.
    pub search_prompt: Prompt,
    /// The query of the search that was started last.
    pub previous_search: String,
    /// Tells the search that was started last to stop.
    pub cancel_notify: Flag,
}

/// What is to be done with an event.
#[derive(Clone, Copy, Debug, PartialEq, Eq, Structural)]
pub enum EventStep {
    /// Nothing more: the event is consumed.
    Consumed,
    /// Put off the idle timeout, then move the selection this many entries. The event is
    /// consumed.
    MoveBy(u32, Direction),
    /// Hand the event to the file picker; its answer is the answer.
    FilePicker,
    /// Hand the event to the search prompt, then to the file picker with the prompt's answer
    /// as the default; the file picker's answer is the answer. Then report the line that the
    /// prompt holds with [`InteractivePicker::search_line`].
    SearchPrompt,
}

/// What an event asks for, given where the input goes.
pub open spec fn step_for(search_focused: bool, event: Event) -> EventStep {
    match shortcut_of(event) {
        Some(Shortcut::SwitchFocus) => EventStep::Consumed,
        Some(Shortcut::Move(direction)) => EventStep::MoveBy(1, direction),
        None => if search_focused {
            EventStep::SearchPrompt
        } else {
            EventStep::FilePicker
        },
    }
}

/// Where the input goes after an event.
pub open spec fn focus_after(search_focused: bool, event: Event) -> bool {
    if shortcut_of(event) == Some(Shortcut::SwitchFocus) {
        !search_focused
    } else {
        search_focused
    }
}

/// A search that is to be started. Starting it puts off the idle timeout.
pub struct SearchRequest {
    /// What to search for.
    pub query: String,
    /// The flag of the search before, raised: that search is to stop.
    pub cancelled: Flag,
    /// The flag that tells the new search to stop.
    pub cancel: Flag,
    /// The flag for the injector that the new search pushes into.
    pub shutdown: Flag,
}

/// What one drawing of the picker consists of.
pub struct PickerFrame {
    /// How far the matcher has come.
    pub status: Status,
    /// The area to clear and to draw borders around.
    pub area: Rect,
    /// The search bar inside the borders.
    pub search: SearchBar,
    /// Where the file picker is drawn, below the search bar.
    pub list: Rect,
}

/// What one drawing of the picker and its preview consists of.
pub struct Frame {
    pub picker: PickerFrame,
    pub preview: Option<Rect>,
}

/// Which input field shows the terminal's cursor, and the area it is drawn in.
#[derive(Clone, Copy, Debug, PartialEq, Eq, Structural)]
pub enum CursorArea {
    SearchPrompt(Rect),
    FilePicker(Rect),
}

/// The area in which the field that has the input shows the terminal's cursor: the row of the
/// search prompt, or what lies below the search bar.
pub open spec fn cursor_area(search_focused: bool, area: Rect) -> CursorArea {
    if search_focused {
        CursorArea::SearchPrompt(prompt_row(area.inside_borders()))
    } else {
        CursorArea::FilePicker(area.without_top(SEARCH_BAR_HEIGHT))
    }
}

/// How a tick changes the file picker: the matcher takes over what it was restarted for, the
/// snapshot is replaced only where it changed, and the selection settles on the matches that are
/// then shown.
pub open spec fn ticked(
    before: Picker<FileResult>,
    after: Picker<FileResult>,
    changed: bool,
) -> bool {
    &&& after == (Picker {
        matcher: after.matcher,
        cursor: settled_cursor(before.cursor, changed, matched_count(after.matcher)),
        ..before
    })
    &&& !is_restarted(after.matcher)
    &&& !changed ==> matched_count(after.matcher) == matched_count(before.matcher)
    &&& !changed ==> total_count(after.matcher) == total_count(before.matcher)
}

/// Whether `frame` is the layout of the picker in `area`, for what `matcher` shows.
pub open spec fn is_picker_frame(
    frame: PickerFrame,
    area: Rect,
    matcher: Nucleo<FileResult>,
) -> bool {
    &&& frame.area == area
    &&& is_search_bar(
        frame.search,
        area.inside_borders(),
        frame.status.running,
        matched_count(matcher),
        total_count(matcher),
    )
    &&& frame.list == area.inside_borders().without_top(SEARCH_BAR_HEIGHT)
}

/// How the picker takes note of the line in its search prompt. A line that differs from the
/// query searched for last is a new query: the matcher is restarted, which drops its entries, the
/// search before is cancelled, and the new one gets flags of its own. What the matcher shows stays
/// until the new search has found something. Else nothing is started.
pub open spec fn noted_line(
    before: InteractivePicker<FileResult>,
    line: Seq<char>,
    after: InteractivePicker<FileResult>,
    request: Option<SearchRequest>,
) -> bool {
    &&& request is Some <==> line != before.previous_search@
    &&& after.search_focused == before.search_focused
    &&& after.search_prompt.label == before.search_prompt.label
    &&& after.search_prompt.line@ == line
    &&& after.previous_search@ == line
    &&& matched_count(after.file_picker.matcher) == matched_count(before.file_picker.matcher)
    &&& total_count(after.file_picker.matcher) == total_count(before.file_picker.matcher)
    &&& match request {
        None => {
            &&& after.cancel_notify == before.cancel_notify
            &&& after.file_picker == before.file_picker
        },
        Some(search) => {
            &&& search.query@ == line
            &&& is_restarted(after.file_picker.matcher)
            &&& search.cancelled == before.cancel_notify.up()
            &&& search.cancel == before.cancel_notify.next()
            &&& search.shutdown == before.file_picker.shutdown.next()
            &&& after.cancel_notify == search.cancel
            &&& after.file_picker == (Picker {
                shutdown: search.shutdown,
                matcher: after.file_picker.matcher,
                ..before.file_picker
            })
        },
    }
}

/// Whether `picker` is an interactive picker around `file_picker` that has searched for nothing
/// yet. The two input fields are told apart by their labels.
pub open spec fn is_new_picker<T: Sync + Send + 'static>(
    picker: InteractivePicker<T>,
    file_picker: Picker<T>,
    search_focused: bool,
) -> bool {
    &&& picker.search_focused == search_focused
    &&& picker.search_prompt.label@ == "search:"@
    &&& picker.search_prompt.line@ == Seq::<char>::empty()
    &&& picker.previous_search@ == Seq::<char>::empty()
    &&& picker.cancel_notify == (Flag { id: 0, raised: false })
    &&& picker.file_picker.prompt.label@ == "path:"@
    &&& picker.file_picker == (Picker {
        prompt: Prompt {
            label: picker.file_picker.prompt.label,
            line: file_picker.prompt.line,
        },
        ..file_picker
    })
}

impl<T: Sync + Send + 'static> InteractivePicker<T> {
    /// An interactive picker around `file_picker`. Nothing has been searched for yet.
    pub fn new(mut file_picker: Picker<T>, search_focused: bool) -> (picker: Self)
        ensures
            is_new_picker(picker, file_picker, search_focused),
    {
        let search_prompt: Prompt = Prompt::new("search:");
        file_picker.prompt.set_prompt("path:");
        InteractivePicker {
            file_picker,
            search_focused,
            search_prompt,
            previous_search: String::new(),
            cancel_notify: Flag::new(),
        }
    }

    /// Decides what `event` asks for, and switches the focus where it asks for that.
    pub fn handle_event(&mut self, event: &Event) -> (step: EventStep)
        ensures
            step == step_for(old(self).search_focused, *event),
            *final(self) == (InteractivePicker {
                search_focused: focus_after(old(self).search_focused, *event),
                ..*old(self)
            }),
    {
        match shortcut(event) {
            Some(Shortcut::SwitchFocus) => {
                self.search_focused = !self.search_focused;
                EventStep::Consumed
            },
            Some(Shortcut::Move(direction)) => EventStep::MoveBy(1, direction),
            None => if self.search_focused {
                EventStep::SearchPrompt
            } else {
                EventStep::FilePicker
            },
        }
    }

    /// The area in which the field that has the input shows the terminal's cursor.
    pub fn cursor(&self, area: Rect) -> (cursor: CursorArea)
        ensures
            cursor == cursor_area(self.search_focused, area),
    {
        if self.search_focused {
            CursorArea::SearchPrompt(area.inner().clip_left(1).with_height(1))
        } else {
            CursorArea::FilePicker(area.clip_top(SEARCH_BAR_HEIGHT))
        }
    }
}

impl InteractivePicker<FileResult> {
    /// Takes note of the line that the search prompt holds after an event. Where it differs
    /// from the query that was searched for last, that search is cancelled, the entries are
    /// dropped, and the search to start is returned.
    pub fn search_line(&mut self, line: &str) -> (request: Option<SearchRequest>)
        ensures
            noted_line(*old(self), line@, *final(self), request),
    {
        self.search_prompt.line = line.to_owned();
        if self.previous_search == self.search_prompt.line {
            return None;
        }
        self.previous_search = line.to_owned();
        restart(&mut self.file_picker.matcher, false);
        // if the picker was closed and is brought back, new injectors must not find the flag
        // that stopped the old ones
        self.file_picker.shutdown = self.file_picker.shutdown.renew();
        let cancelled: Flag = self.cancel_notify.raise();
        self.cancel_notify = self.cancel_notify.renew();
        Some(
            SearchRequest {
                query: line.to_owned(),
                cancelled,
                cancel: self.cancel_notify,
                shutdown: self.file_picker.shutdown,
            },
        )
    }

    /// The search bar in `area`, with the numbers that the matcher shows.
    pub fn render_search_prompt(&self, area: Rect, status: Status) -> (bar: SearchBar)
        requires
            fits_search_bar(area),
        ensures
            is_search_bar(
                bar,
                area,
                status.running,
                matched_count(self.file_picker.matcher),
                total_count(self.file_picker.matcher),
            ),
    {
        let matched: u32 = matched_item_count(&self.file_picker.matcher);
        let total: u32 = item_count(&self.file_picker.matcher);
        search_bar(area, status.running, matched, total)
    }

    /// Keeps the selection among the matches after a tick that came out as `status`, and lays the
    /// picker out in `area`.
    pub fn lay_out(&mut self, area: Rect, status: Status) -> (frame: PickerFrame)
        requires
            fits_search_bar(area.inside_borders()),
        ensures
            *final(self) == (InteractivePicker {
                file_picker: Picker {
                    cursor: settled_cursor(
                        old(self).file_picker.cursor,
                        status.changed,
                        matched_count(old(self).file_picker.matcher),
                    ),
                    ..old(self).file_picker
                },
                ..*old(self)
            }),
            frame.status == status,
            is_picker_frame(frame, area, old(self).file_picker.matcher),
    {
        let matched: u32 = matched_item_count(&self.file_picker.matcher);
        self.file_picker.cursor = settle_cursor(self.file_picker.cursor, status.changed, matched);
        let inner: Rect = area.inner();
        let search: SearchBar = self.render_search_prompt(inner, status);
        PickerFrame { status, area, search, list: inner.clip_top(SEARCH_BAR_HEIGHT) }
    }

    /// Lets the matcher catch up, keeps the selection among the matches, and lays the picker
    /// out in `area`. What the matcher has found by then depends on time;
    /// [`InteractivePicker::lay_out`] says what is made of it.
    pub fn render_picker(&mut self, area: Rect) -> (frame: PickerFrame)
        requires
            fits_search_bar(area.inside_borders()),
        ensures
            *final(self) == (InteractivePicker {
                file_picker: final(self).file_picker,
                ..*old(self)
            }),
            ticked(old(self).file_picker, final(self).file_picker, frame.status.changed),
            is_picker_frame(frame, area, final(self).file_picker.matcher),
    {
        let status: Status = tick(&mut self.file_picker.matcher, TICK_TIMEOUT);
        self.lay_out(area, status)
    }

    /// Whether the picker can be laid out in `area`.
    pub fn can_render(&self, area: Rect) -> (fits: bool)
        ensures
            fits == fits_search_bar(
                picker_part(area, self.file_picker.previews(area)).inside_borders(),
            ),
    {
        can_fit_search_bar(columns(area, self.file_picker.shows_preview(area)).picker.inner())
    }

    /// Lays the picker out in `area`, with the preview beside it where one is shown.
    pub fn render(&mut self, area: Rect) -> (frame: Frame)
        requires
            fits_search_bar(
                picker_part(area, old(self).file_picker.previews(area)).inside_borders(),
            ),
        ensures
            *final(self) == (InteractivePicker {
                file_picker: final(self).file_picker,
                ..*old(self)
            }),
            ticked(old(self).file_picker, final(self).file_picker, frame.picker.status.changed),
            is_picker_frame(
                frame.picker,
                picker_part(area, old(self).file_picker.previews(area)),
                final(self).file_picker.matcher,
            ),
            frame.preview == preview_part(area, old(self).file_picker.previews(area)),
    {
        let parts: Columns = columns(area, self.file_picker.shows_preview(area));
        let picker: PickerFrame = self.render_picker(parts.picker);
        Frame { picker, preview: parts.preview }
    }
}

/// Where the input goes after a run of events.
pub open spec fn focus_after_all(search_focused: bool, events: Seq<Event>) -> bool
    decreases events.len(),
{
    if events.len() == 0 {
        search_focused
    } else {
        focus_after(focus_after_all(search_focused, events.drop_last()), events.last())
    }
}

/// How many of the events switch the focus.
pub open spec fn focus_switches(events: Seq<Event>) -> nat
    decreases events.len(),
{
    if events.len() == 0 {
        0
    } else {
        focus_switches(events.drop_last()) + if shortcut_of(events.last()) == Some(
            Shortcut::SwitchFocus,
        ) {
            1nat
        } else {
            0nat
        }
    }
}

/// Only switching changes the focus: after any run of events it is where it was exactly if the
/// number of switches is even.
pub proof fn focus_follows_the_switches(search_focused: bool, events: Seq<Event>)
    ensures
        focus_after_all(search_focused, events) == search_focused <==> focus_switches(events) % 2
            == 0,
    decreases events.len(),
{
    if events.len() > 0 {
        focus_follows_the_switches(search_focused, events.drop_last());
    }
}

/// A shortcut does the same wherever the input goes.
pub proof fn shortcuts_do_not_depend_on_the_focus(event: Event)
    requires
        shortcut_of(event) is Some,
    ensures
        step_for(true, event) == step_for(false, event),
        step_for(true, event) != EventStep::SearchPrompt,
        step_for(true, event) != EventStep::FilePicker,
{
}

/// A query is searched for once: noting the same line again starts nothing and cancels
/// nothing.
pub proof fn the_same_line_starts_no_second_search(
    first: InteractivePicker<FileResult>,
    second: InteractivePicker<FileResult>,
    third: InteractivePicker<FileResult>,
    line: Seq<char>,
    request: Option<SearchRequest>,
    again: Option<SearchRequest>,
)
    requires
        noted_line(first, line, second, request),
        noted_line(second, line, third, again),
    ensures
        again is None,
        third.cancel_notify == second.cancel_notify,
        third.file_picker == second.file_picker,
{
}

/// Of two searches that follow each other, the first is told to stop and the second is not:
/// the flag that is raised is the first one's, and the second has another. Between the two the
/// picker may be drawn and used, as long as no search is started.
pub proof fn a_new_search_stops_the_one_before(
    first: InteractivePicker<FileResult>,
    second: InteractivePicker<FileResult>,
    third: InteractivePicker<FileResult>,
    fourth: InteractivePicker<FileResult>,
    earlier: SearchRequest,
    later: SearchRequest,
)
    requires
        noted_line(first, earlier.query@, second, Some(earlier)),
        third.cancel_notify == second.cancel_notify,
        noted_line(third, later.query@, fourth, Some(later)),
    ensures
        later.cancelled == earlier.cancel.up(),
        !later.cancel.raised,
        later.cancel.id != earlier.cancel.id,
{
}

/// Whether the picker came from `before` to `after` in one step that started this search, or
/// none: the line of the search prompt was noted, or something was done that leaves the search
/// alone.
pub open spec fn is_step(
    before: InteractivePicker<FileResult>,
    after: InteractivePicker<FileResult>,
    request: Option<SearchRequest>,
) -> bool {
    ||| exists|line: Seq<char>| #[trigger] noted_line(before, line, after, request)
    ||| {
        &&& request is None
        &&& after.previous_search == before.previous_search
        &&& after.cancel_notify == before.cancel_notify
    }
}

/// Whether a picker that had searched for nothing went through these states, and the steps
/// between them started these searches, or none.
pub open spec fn is_run(
    states: Seq<InteractivePicker<FileResult>>,
    requests: Seq<Option<SearchRequest>>,
) -> bool {
    &&& states.len() == requests.len() + 1
    &&& exists|file_picker: Picker<FileResult>, search_focused: bool| #[trigger]
        is_new_picker(states[0], file_picker, search_focused)
    &&& forall|k: int|
        0 <= k < requests.len() ==> is_step(states[k], states[k + 1], #[trigger] requests[k])
}

/// The searches that were started, in order.
pub open spec fn started(requests: Seq<Option<SearchRequest>>) -> Seq<SearchRequest>
    decreases requests.len(),
{
    if requests.len() == 0 {
        Seq::empty()
    } else {
        match requests.last() {
            Some(search) => started(requests.drop_last()).push(search),
            None => started(requests.drop_last()),
        }
    }
}

/// Events, drawing and whatever else is done to the file picker leave the search alone.
pub proof fn only_noting_a_line_starts_a_search(
    before: InteractivePicker<FileResult>,
    after: InteractivePicker<FileResult>,
    event: Event,
)
    ensures
        after == (InteractivePicker {
            search_focused: focus_after(before.search_focused, event),
            ..before
        }) ==> is_step(before, after, None),
        after == (InteractivePicker { file_picker: after.file_picker, ..before }) ==> is_step(
            before,
            after,
            None,
        ),
{
}

/// What a run without its last step is, and what that step did.
proof fn lemma_last_step(
    states: Seq<InteractivePicker<FileResult>>,
    requests: Seq<Option<SearchRequest>>,
)
    requires
        is_run(states, requests),
        requests.len() > 0,
    ensures
        is_run(states.drop_last(), requests.drop_last()),
        is_step(states.drop_last().last(), states.last(), requests.last()),
{
    let n = requests.len() as int;
    assert(states.drop_last()[0] == states[0]);
    assert(is_step(states[n - 1], states[n], requests[n - 1]));
    assert forall|k: int| 0 <= k < requests.drop_last().len() implies is_step(
        states.drop_last()[k],
        states.drop_last()[k + 1],
        #[trigger] requests.drop_last()[k],
    ) by {
        assert(is_step(states[k], states[k + 1], requests[k]));
    }
}

/// Over any run, the first query that is searched for is not empty, and no query is searched for
/// twice in a row.
pub proof fn no_query_is_searched_for_twice_in_a_row(
    states: Seq<InteractivePicker<FileResult>>,
    requests: Seq<Option<SearchRequest>>,
)
    requires
        is_run(states, requests),
    ensures
        ({
            let searches = started(requests);
            &&& searches.len() > 0 ==> searches[0].query@.len() > 0
            &&& forall|i: int|
                0 < i < searches.len() ==> (#[trigger] searches[i]).query@ != searches[i
                    - 1].query@
            &&& states.last().previous_search@ == (if searches.len() > 0 {
                searches.last().query@
            } else {
                Seq::empty()
            })
        }),
    decreases requests.len(),
{
    if requests.len() > 0 {
        lemma_last_step(states, requests);
        no_query_is_searched_for_twice_in_a_row(states.drop_last(), requests.drop_last());
        if let Some(search) = requests.last() {
            let earlier = started(requests.drop_last());
            if earlier.len() == 0 {
                assert(search.query@ != Seq::<char>::empty());
                assert(search.query@.len() == 0 ==> search.query@ =~= Seq::<char>::empty());
            }
        }
    }
}

/// Over any run, at most one search is not told to stop. Each search gets a flag of its own that
/// is not raised when it starts; the start of the next search raises it, and nothing ever raises
/// the flag of the last one. This holds of the run up to any step, for as many searches as there
/// are numbers for flags.
pub proof fn all_searches_but_the_last_are_cancelled(
    states: Seq<InteractivePicker<FileResult>>,
    requests: Seq<Option<SearchRequest>>,
)
    requires
        is_run(states, requests),
        started(requests).len() <= u64::MAX,
    ensures
        ({
            let searches = started(requests);
            &&& forall|i: int|
                0 <= i < searches.len() ==> !(#[trigger] searches[i]).cancel.raised
            &&& forall|i: int, j: int|
                0 <= i < j < searches.len() ==> (#[trigger] searches[i]).cancel.id != (
                #[trigger] searches[j]).cancel.id
            &&& forall|i: int|
                0 < i < searches.len() ==> (#[trigger] searches[i]).cancelled == searches[i
                    - 1].cancel.up()
            &&& forall|i: int|
                0 <= i < searches.len() ==> (#[trigger] searches[i]).cancelled.id
                    != searches.last().cancel.id
            &&& searches.len() > 0 ==> states.last().cancel_notify == searches.last().cancel
        }),
{
    lemma_flags_are_numbered(states, requests);
}

/// The flags of a run are numbered in the order in which the searches were started.
proof fn lemma_flags_are_numbered(
    states: Seq<InteractivePicker<FileResult>>,
    requests: Seq<Option<SearchRequest>>,
)
    requires
        is_run(states, requests),
        started(requests).len() <= u64::MAX,
    ensures
        states.last().cancel_notify == (Flag { id: started(requests).len() as u64, raised: false }),
        forall|i: int|
            0 <= i < started(requests).len() ==> (#[trigger] started(requests)[i]).cancel == (
            Flag { id: (i + 1) as u64, raised: false }),
        forall|i: int|
            0 <= i < started(requests).len() ==> (#[trigger] started(requests)[i]).cancelled == (
            Flag { id: i as u64, raised: true }),
    decreases requests.len(),
{
    if requests.len() > 0 {
        lemma_last_step(states, requests);
        lemma_flags_are_numbered(states.drop_last(), requests.drop_last());
    }
}

/// A picker that was closed can be brought back: the injector of a new search finds its flag
/// lowered, and it is not the flag that stopped the injectors before.
pub proof fn a_new_search_can_inject_after_a_shutdown(
    before: InteractivePicker<FileResult>,
    after: InteractivePicker<FileResult>,
    request: SearchRequest,
)
    requires
        noted_line(before, request.query@, after, Some(request)),
    ensures
        !after.file_picker.shutdown.raised,
        after.file_picker.shutdown == request.shutdown,
        after.file_picker.shutdown.id != before.file_picker.shutdown.id,
{
}

/// A changed query replaces the contents of the picker: noting it restarts the matcher, and the
/// next drawing takes the restart over.
pub proof fn a_new_search_replaces_the_entries(
    before: InteractivePicker<FileResult>,
    noted: InteractivePicker<FileResult>,
    drawn: InteractivePicker<FileResult>,
    line: Seq<char>,
    request: Option<SearchRequest>,
    changed: bool,
)
    requires
        noted_line(before, line, noted, request),
        line != before.previous_search@,
        ticked(noted.file_picker, drawn.file_picker, changed),
    ensures
        is_restarted(noted.file_picker.matcher),
        !is_restarted(drawn.file_picker.matcher),
{
}

/// The cursor is shown in the search prompt that was drawn: in the same area, the two lie in the
/// same row and begin at the same column, with a preview beside them and without one. Only where
/// a preview is shown in an area of one, three, four or five columns do they begin at different
/// ones: the picker's half of it has no column for the prompt then.
pub proof fn the_cursor_is_in_the_search_prompt(
    picker: InteractivePicker<FileResult>,
    area: Rect,
    frame: PickerFrame,
    matcher: Nucleo<FileResult>,
)
    requires
        is_picker_frame(frame, picker_part(area, picker.file_picker.previews(area)), matcher),
    ensures
        cursor_area(true, area) matches CursorArea::SearchPrompt(row) && {
            let drawn = frame.search.prompt;
            &&& row.y == drawn.y
            &&& row.height == 1
            &&& drawn.height == 1
            &&& !picker.file_picker.previews(area) || area.width >= 6 ==> row.x == drawn.x
            &&& picker.file_picker.previews(area) && area.on_screen() ==> (row.x == drawn.x <==> (
            area.width >= 6 || area.width == 2))
        },
{
}

/// The selection stays among the matches that are shown: drawing keeps it there, whatever the
/// matcher has found meanwhile, and puts it there where the matches changed; noting a line
/// keeps it there too.
pub proof fn the_selection_stays_among_the_matches(
    before: InteractivePicker<FileResult>,
    after: InteractivePicker<FileResult>,
    changed: bool,
    line: Seq<char>,
    request: Option<SearchRequest>,
)
    ensures
        ticked(before.file_picker, after.file_picker, changed) && (
        before.file_picker.selection_is_shown() || changed)
            ==> after.file_picker.selection_is_shown(),
        noted_line(before, line, after, request) && before.file_picker.selection_is_shown()
            ==> after.file_picker.selection_is_shown(),
{
}

/// A selection that is among the matches is not moved, and neither is any where nothing changed.
/// Where the matches changed, a selection beyond them moves to the last one, or to the first place
/// where there is none. It never moves further down, and settling once more changes nothing.
pub proof fn a_selection_among_the_matches_is_kept(cursor: u32, changed: bool, matched: u32)
    ensures
        cursor < matched ==> settled_cursor(cursor, changed, matched) == cursor,
        settled_cursor(cursor, false, matched) == cursor,
        cursor >= matched > 0 ==> settled_cursor(cursor, true, matched) == matched - 1,
        settled_cursor(cursor, true, 0) == 0,
        settled_cursor(cursor, changed, matched) <= cursor,
        settled_cursor(settled_cursor(cursor, changed, matched), changed, matched)
            == settled_cursor(cursor, changed, matched),
{
}

/// Which places can be selected: those of the matches, and the first one where nothing matches.
pub proof fn the_last_match_can_be_selected(matched: u32)
    ensures
        matched > 0 ==> last_selectable(matched) + 1 == matched,
        last_selectable(0) == 0,
{
}

/// No event is swallowed: one that is no shortcut goes to the field that has the focus, whatever
/// it is, and leaves the focus there.
pub proof fn other_events_go_to_the_field_with_the_focus(search_focused: bool, event: Event)
    ensures
        shortcut_of(event) is None ==> step_for(search_focused, event) == (if search_focused {
            EventStep::SearchPrompt
        } else {
            EventStep::FilePicker
        }),
        step_for(search_focused, event) is Consumed || step_for(search_focused, event) is MoveBy
            <==> shortcut_of(event) is Some,
        shortcut_of(event) is None ==> focus_after(search_focused, event) == search_focused,
{
}

/// What a key does, in terms of the key itself: Tab, alone or with shift, switches the focus and is
/// consumed; control with `j` moves the selection one entry forward, with `k` one backward; any
/// other key goes to the field that has the focus. Only Tab moves the focus.
pub proof fn what_a_key_does(
    search_focused: bool,
    code: KeyCode,
    shift: bool,
    control: bool,
    alt: bool,
    other: bool,
)
    ensures
        ({
            let key = KeyEvent { code, modifiers: KeyModifiers { shift, control, alt, other } };
            let step = step_for(search_focused, Event::Key(key));
            let focus = focus_after(search_focused, Event::Key(key));
            let tab = code == KeyCode::Tab && !control && !alt && !other;
            let with_control = control && !shift && !alt && !other;
            &&& step is Consumed <==> tab
            &&& focus == !search_focused <==> tab
            &&& step == EventStep::MoveBy(1, Direction::Forward) <==> code == KeyCode::Char('j')
                && with_control
            &&& step == EventStep::MoveBy(1, Direction::Backward) <==> code == KeyCode::Char('k')
                && with_control
            &&& step is MoveBy ==> with_control && (code == KeyCode::Char('j') || code
                == KeyCode::Char('k'))
            &&& step is SearchPrompt ==> search_focused
            &&& step is FilePicker ==> !search_focused
        }),
        step_for(search_focused, Event::Other) == (if search_focused {
            EventStep::SearchPrompt
        } else {
            EventStep::FilePicker
        }),
        focus_after(search_focused, Event::Other) == search_focused,
{
}

/// The cursor is shown in the area as it is clipped for either field, wherever the area lies.
pub proof fn the_cursor_area_is_clipped(area: Rect)
    ensures
        cursor_area(true, area) == CursorArea::SearchPrompt(
            (Rect { height: 1, ..area.inside_borders().without_left(1) }),
        ),
        cursor_area(false, area) == CursorArea::FilePicker(area.without_top(2)),
{
}

/// Where the cursor is shown: with the focus on the search prompt in the first row inside the
/// borders, behind one free column; else in all of the area but its first two rows.
pub proof fn where_the_cursor_is_shown(area: Rect)
    requires
        area.on_screen(),
    ensures
        cursor_area(true, area) matches CursorArea::SearchPrompt(row) && {
            &&& row.height == 1
            &&& area.height > 0 ==> row.y == area.y + 1
            &&& area.height == 0 ==> row.y == area.y
            &&& area.width >= 3 ==> row.x == area.x + 2 && row.width + 3 == area.width
            &&& 0 < area.width < 3 ==> row.x == area.x + 1 && row.width == 0
            &&& area.width == 0 ==> row.x == area.x && row.width == 0
        },
        cursor_area(false, area) matches CursorArea::FilePicker(rest) && {
            &&& rest.x == area.x && rest.width == area.width
            &&& area.height >= 2 ==> rest.y == area.y + 2 && rest.height + 2 == area.height
            &&& area.height < 2 ==> rest.y == area.y + area.height && rest.height == 0
        },
{
}

/// When a preview is shown: where the user wants one, the file of an entry can be found, and the
/// area is wide enough. A wider area does not take the preview away.
pub proof fn when_a_preview_is_shown(picker: Picker<FileResult>, area: Rect, wider: Rect)
    ensures
        picker.previews(area) <==> picker.show_preview && picker.has_file_fn
            && picker.min_area_width_for_preview < area.width,
        picker.previews(area) && area.width <= wider.width ==> picker.previews(wider),
{
}

/// Drawing touches the matcher and the selection only: a selection that is among the matches shown
/// then stays, and one beyond them stays only where nothing changed.
pub proof fn drawing_changes_the_selection_only(
    before: Picker<FileResult>,
    after: Picker<FileResult>,
    changed: bool,
)
    requires
        ticked(before, after, changed),
    ensures
        after.prompt == before.prompt,
        after.show_preview == before.show_preview,
        after.has_file_fn == before.has_file_fn,
        after.min_area_width_for_preview == before.min_area_width_for_preview,
        after.shutdown == before.shutdown,
        !is_restarted(after.matcher),
        !changed || before.cursor < matched_count(after.matcher) ==> after.cursor == before.cursor,
        changed && matched_count(after.matcher) > 0 && before.cursor >= matched_count(after.matcher)
            ==> after.cursor + 1 == matched_count(after.matcher),
        changed && matched_count(after.matcher) == 0 ==> after.cursor == 0,
        !changed ==> matched_count(after.matcher) == matched_count(before.matcher)
            && total_count(after.matcher) == total_count(before.matcher),
{
}

/// What a frame shows, in terms of its area: the search bar inside the borders with the matcher's
/// numbers, and the list in the rows from the third one inside the borders to the last.
pub proof fn a_frame_fills_its_area(frame: PickerFrame, area: Rect, matcher: Nucleo<FileResult>)
    requires
        is_picker_frame(frame, area, matcher),
        area.on_screen(),
        area.width >= 3,
        area.height >= 4,
    ensures
        frame.area == area,
        frame.search.prompt == (Rect {
            x: (area.x + 2) as u16,
            y: (area.y + 1) as u16,
            width: (area.width - 3) as u16,
            height: 1,
        }),
        frame.search.count.text@ == count_text(
            frame.status.running,
            matched_count(matcher),
            total_count(matcher),
        ),
        frame.search.count.y == area.y + 1,
        frame.search.separator@.len() == area.width - 2,
        forall|i: int|
            0 <= i < area.width - 2 ==> #[trigger] frame.search.separator@[i] == (
                (area.x + 1 + i) as u16,
                (area.y + 2) as u16,
            ),
        frame.list == (Rect {
            x: (area.x + 1) as u16,
            y: (area.y + 3) as u16,
            width: (area.width - 2) as u16,
            height: (area.height - 4) as u16,
        }),
{
}

/// In any area the search bar lies inside the borders and the list below its two rows. The list of
/// a frame in a box that is too small for it is empty.
pub proof fn the_list_lies_below_the_search_bar(
    frame: PickerFrame,
    area: Rect,
    matcher: Nucleo<FileResult>,
)
    requires
        is_picker_frame(frame, area, matcher),
    ensures
        frame.area == area,
        is_search_bar(
            frame.search,
            area.inside_borders(),
            frame.status.running,
            matched_count(matcher),
            total_count(matcher),
        ),
        frame.list == area.inside_borders().without_top(2),
        area.width < 3 || area.height < 5 ==> frame.list.width == 0 || frame.list.height == 0,
        area.width >= 3 ==> frame.list.width + 2 == area.width,
        area.height >= 4 ==> frame.list.height + 4 == area.height,
{
}

/// Noting a line, part by part. The query is the line as it is. A new query raises the flag of the
/// search before and no other, and gives both flags successors that are not raised; a line that
/// was searched for last leaves the picker as it is but for the line itself. The focus, the labels,
/// the selection and what the user set are left alone either way.
pub proof fn what_noting_a_line_does(
    before: InteractivePicker<FileResult>,
    line: Seq<char>,
    after: InteractivePicker<FileResult>,
    request: Option<SearchRequest>,
)
    requires
        noted_line(before, line, after, request),
    ensures
        request is None <==> before.previous_search@ == line,
        after.previous_search@ == line,
        after.search_prompt.line@ == line,
        after.search_prompt.label == before.search_prompt.label,
        after.search_focused == before.search_focused,
        after.file_picker.prompt == before.file_picker.prompt,
        after.file_picker.cursor == before.file_picker.cursor,
        after.file_picker.show_preview == before.file_picker.show_preview,
        after.file_picker.has_file_fn == before.file_picker.has_file_fn,
        after.file_picker.min_area_width_for_preview
            == before.file_picker.min_area_width_for_preview,
        matched_count(after.file_picker.matcher) == matched_count(before.file_picker.matcher),
        total_count(after.file_picker.matcher) == total_count(before.file_picker.matcher),
        request is None ==> after.file_picker == before.file_picker && after.cancel_notify
            == before.cancel_notify,
        request matches Some(search) ==> {
            &&& search.query@ == line
            &&& is_restarted(after.file_picker.matcher)
            &&& search.cancelled.id == before.cancel_notify.id && search.cancelled.raised
            &&& search.cancel.id != before.cancel_notify.id && !search.cancel.raised
            &&& search.shutdown.id != before.file_picker.shutdown.id && !search.shutdown.raised
            &&& after.cancel_notify == search.cancel
            &&& after.file_picker.shutdown == search.shutdown
        },
{
}

/// A new picker, part by part: the input goes where it was asked to, both fields have their labels,
/// nothing was typed into the search prompt or searched for, no search is told to stop, and the
/// file picker is as it was handed over but for its label.
pub proof fn what_a_new_picker_is(
    picker: InteractivePicker<FileResult>,
    file_picker: Picker<FileResult>,
    search_focused: bool,
)
    requires
        is_new_picker(picker, file_picker, search_focused),
    ensures
        picker.search_focused == search_focused,
        picker.search_prompt.label@ == "search:"@,
        picker.search_prompt.line@.len() == 0,
        picker.previous_search@.len() == 0,
        !picker.cancel_notify.raised,
        picker.file_picker.prompt.label@ == "path:"@,
        picker.file_picker.prompt.line == file_picker.prompt.line,
        picker.file_picker.matcher == file_picker.matcher,
        picker.file_picker.cursor == file_picker.cursor,
        picker.file_picker.show_preview == file_picker.show_preview,
        picker.file_picker.has_file_fn == file_picker.has_file_fn,
        picker.file_picker.min_area_width_for_preview == file_picker.min_area_width_for_preview,
        picker.file_picker.shutdown == file_picker.shutdown,
{
}

/// Drawing waits for the matcher for ten milliseconds at most.
pub proof fn drawing_does_not_wait_long()
    ensures
        TICK_TIMEOUT == 10,
{
}

} // verus!
