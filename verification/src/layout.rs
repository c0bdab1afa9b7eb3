//! Where the parts of the picker are drawn, and what the search bar shows.
use crate::graphics::{capped, Rect};
use crate::text::{
    decimal, decimal_is_the_usual_notation, decimal_keeps_the_number, decimal_string,
    decimal_value, lemma_decimal_shape,
};
use vstd::prelude::*;

verus! {

/// The rows of the search bar: the prompt and the line below it.
pub const SEARCH_BAR_HEIGHT: u16 = 2;

/// A line of text on the screen: at most `width` cells of `text`, from column `x` of row `y`.
pub struct CountLabel {
    pub x: u16,
    pub y: u16,
    pub text: String,
    pub width: usize,
}

/// What the search bar is made of.
pub struct SearchBar {
    /// Where the search prompt is drawn.
    pub prompt: Rect,
    /// The number of matches, over the right end of the prompt.
    pub count: CountLabel,
    /// The cells, as column and row, of the line below.
    pub separator: Vec<(u16, u16)>,
}

/// The row for the search prompt, with one column left free at its start.
pub open spec fn prompt_row(inner: Rect) -> Rect {
    Rect { height: 1, ..inner.without_left(1) }
}

/// The number of matches, as text.
pub open spec fn count_text(running: bool, matched: u32, total: u32) -> Seq<char> {
    (if running {
        "(running) "@
    } else {
        ""@
    }) + decimal(matched as nat) + "/"@ + decimal(total as nat)
}

/// The cells of a line across `inner` in its second row.
pub open spec fn separator_cells(inner: Rect) -> Seq<(u16, u16)> {
    Seq::new(
        (capped(inner.x + inner.width) - inner.x) as nat,
        |i: int| ((inner.x + i) as u16, (inner.y + 1) as u16),
    )
}

/// Whether the coordinates of a search bar in `inner` can be computed.
pub open spec fn fits_search_bar(inner: Rect) -> bool {
    &&& inner.without_left(1).x + inner.without_left(1).width <= u16::MAX
    &&& inner.x < capped(inner.x + inner.width) ==> inner.y < u16::MAX
}

/// Whether the coordinates of a search bar in `inner` can be computed.
pub fn can_fit_search_bar(inner: Rect) -> (fits: bool)
    ensures
        fits == fits_search_bar(inner),
{
    let prompt: Rect = inner.clip_left(1);
    prompt.x.checked_add(prompt.width).is_some() && (inner.left() >= inner.right() || inner.y
        < u16::MAX)
}

/// Whether `bar` is the search bar in `inner` for these numbers of matches.
pub open spec fn is_search_bar(
    bar: SearchBar,
    inner: Rect,
    running: bool,
    matched: u32,
    total: u32,
) -> bool {
    let prompt = prompt_row(inner);
    let text = count_text(running, matched, total);
    &&& bar.prompt == prompt
    &&& bar.count.text@ == text
    &&& bar.count.x == (if prompt.x + prompt.width >= text.len() + 1 {
        prompt.x + prompt.width - text.len() - 1
    } else {
        0
    })
    &&& bar.count.y == prompt.y
    &&& bar.count.width == (if text.len() <= prompt.width {
        text.len() as int
    } else {
        prompt.width as int
    })
    &&& bar.separator@ == separator_cells(inner)
}

/// The text of the count is ASCII, so that it has as many bytes as characters, and short.
proof fn lemma_count_text_shape(running: bool, matched: u32, total: u32)
    ensures
        vstd::utf8::is_ascii_chars(count_text(running, matched, total)),
        count_text(running, matched, total).len() <= 31,
        vstd::utf8::encode_utf8(count_text(running, matched, total)).len() == count_text(
            running,
            matched,
            total,
        ).len(),
{
    assert(vstd::arithmetic::power::pow(10, 10) == 10_000_000_000) by {
        reveal_with_fuel(vstd::arithmetic::power::pow, 11);
    }
    lemma_decimal_shape(matched as nat, 10);
    lemma_decimal_shape(total as nat, 10);
    reveal_strlit("(running) ");
    reveal_strlit("");
    reveal_strlit("/");
    vstd::utf8::is_ascii_chars_encode_utf8(count_text(running, matched, total));
}

/// The number of matches, as text.
fn count_string(running: bool, matched: u32, total: u32) -> (text: String)
    ensures
        text@ == count_text(running, matched, total),
{
    let mut text: String = (if running { "(running) " } else { "" }).to_owned();
    text.append(decimal_string(matched).as_str());
    text.append("/");
    text.append(decimal_string(total).as_str());
    text
}

/// The cells of the line that separates the search bar from the list below it.
fn separator(inner: Rect) -> (cells: Vec<(u16, u16)>)
    requires
        fits_search_bar(inner),
    ensures
        cells@ == separator_cells(inner),
{
    let mut cells: Vec<(u16, u16)> = Vec::new();
    let right: u16 = inner.right();
    let mut x: u16 = inner.left();
    while x < right
        invariant
            fits_search_bar(inner),
            right == capped(inner.x + inner.width),
            inner.x <= x <= right,
            cells@ == separator_cells(inner).take(x - inner.x),
        decreases right - x,
    {
        cells.push((x, inner.y + 1));
        x = x + 1;
        assert(separator_cells(inner).take(x - inner.x) =~= separator_cells(inner).take(
            x - 1 - inner.x,
        ).push(separator_cells(inner)[x - 1 - inner.x]));
    }
    assert(separator_cells(inner).take(right - inner.x) =~= separator_cells(inner));
    cells
}

/// The search bar in `inner`: the prompt in the first row with the number of matches over its
/// right end, and a line in the second row.
pub fn search_bar(inner: Rect, running: bool, matched: u32, total: u32) -> (bar: SearchBar)
    requires
        fits_search_bar(inner),
    ensures
        is_search_bar(bar, inner, running, matched, total),
{
    let prompt: Rect = inner.clip_left(1).with_height(1);
    let text: String = count_string(running, matched, total);
    proof {
        lemma_count_text_shape(running, matched, total);
    }
    let length: usize = text.as_str().len();
    let x: u16 = (prompt.x + prompt.width).saturating_sub(length as u16 + 1);
    let width: usize = if length <= prompt.width as usize { length } else { prompt.width as usize };
    SearchBar {
        prompt,
        count: CountLabel { x, y: prompt.y, text, width },
        separator: separator(inner),
    }
}

/// Where the picker itself and the preview are drawn.
pub struct Columns {
    pub picker: Rect,
    pub preview: Option<Rect>,
}

/// How wide the picker is: half of the area where a preview is shown, else all of it.
pub open spec fn picker_width(area: Rect, with_preview: bool) -> u16 {
    if with_preview {
        area.width / 2
    } else {
        area.width
    }
}

/// The part of the area that the picker gets.
pub open spec fn picker_part(area: Rect, with_preview: bool) -> Rect {
    Rect { width: picker_width(area, with_preview), ..area }
}

/// The part of the area that the preview gets, where one is shown.
pub open spec fn preview_part(area: Rect, with_preview: bool) -> Option<Rect> {
    if with_preview {
        Some(area.without_left(picker_width(area, with_preview)))
    } else {
        None
    }
}

/// Divides `area` between the picker on the left and the preview on the right.
pub fn columns(area: Rect, with_preview: bool) -> (columns: Columns)
    ensures
        columns.picker == picker_part(area, with_preview),
        columns.preview == preview_part(area, with_preview),
{
    let width: u16 = if with_preview { area.width / 2 } else { area.width };
    Columns {
        picker: area.with_width(width),
        preview: if with_preview { Some(area.clip_left(width)) } else { None },
    }
}

/// The picker and the preview share the area: each of its cells belongs to exactly one of the
/// two, and to the picker where there is no preview.
pub proof fn picker_and_preview_share_the_area(area: Rect, with_preview: bool, x: int, y: int)
    requires
        area.on_screen(),
    ensures
        picker_part(area, with_preview).on_screen(),
        match preview_part(area, with_preview) {
            Some(preview) => preview.on_screen() && (area.has(x, y) <==> (picker_part(
                area,
                with_preview,
            ).has(x, y) != preview.has(x, y))),
            None => picker_part(area, with_preview) == area,
        },
{
}

/// In a box that lies on the screen the search bar can always be computed, unless the box has
/// columns to draw in but lies so low that no row is left below the first one inside it.
pub proof fn a_box_on_screen_fits_the_search_bar(area: Rect)
    requires
        area.on_screen(),
        area.width <= 2 || area.inside_borders().y < u16::MAX,
    ensures
        fits_search_bar(area.inside_borders()),
{
}

/// Inside a box, the search prompt, the line below it and the list take different rows: no
/// cell belongs to two of them, and all of them lie inside the borders where these leave at
/// least two rows and a column free.
pub proof fn search_bar_and_list_do_not_overlap(area: Rect)
    requires
        area.on_screen(),
        area.width >= 3,
        area.height >= 4,
    ensures
        ({
            let inner = area.inside_borders();
            let list = inner.without_top(SEARCH_BAR_HEIGHT);
            &&& forall|x: int, y: int|
                #![trigger inner.has(x, y)]
                prompt_row(inner).has(x, y) ==> inner.has(x, y) && y == inner.y && !list.has(x, y)
            &&& forall|i: int|
                0 <= i < separator_cells(inner).len() ==> {
                    let cell = #[trigger] separator_cells(inner)[i];
                    inner.has(cell.0 as int, cell.1 as int) && cell.1 == inner.y + 1 && !list.has(
                        cell.0 as int,
                        cell.1 as int,
                    )
                }
            &&& forall|x: int, y: int|
                #![trigger inner.has(x, y)]
                list.has(x, y) ==> inner.has(x, y)
        }),
{
}

/// The number of matches can be read back from its text: what stands before the only stroke is the
/// number of matches, and what stands after it the number of entries. That the matcher is running
/// is told in front, and changes nothing else.
pub proof fn the_count_can_be_read_back(matched: u32, total: u32)
    ensures
        count_text(true, matched, total) == "(running) "@ + count_text(false, matched, total),
        exists|k: int|
            #![trigger count_text(false, matched, total)[k]]
            0 < k < count_text(false, matched, total).len() - 1 && {
                let text = count_text(false, matched, total);
                &&& text[k] == '/'
                &&& text.take(k) == decimal(matched as nat)
                &&& text.skip(k + 1) == decimal(total as nat)
                &&& !text.take(k).contains('/')
                &&& !text.skip(k + 1).contains('/')
                &&& decimal_value(text.take(k)) == matched
                &&& decimal_value(text.skip(k + 1)) == total
            },
{
    let text = count_text(false, matched, total);
    let (before, after) = (decimal(matched as nat), decimal(total as nat));
    let k = before.len() as int;
    reveal_strlit("(running) ");
    reveal_strlit("");
    reveal_strlit("/");
    decimal_is_the_usual_notation(matched as nat);
    decimal_is_the_usual_notation(total as nat);
    decimal_keeps_the_number(matched as nat);
    decimal_keeps_the_number(total as nat);
    assert(count_text(true, matched, total) =~= "(running) "@ + text);
    assert(text =~= before + seq!['/'] + after);
    assert(text.take(k) =~= before);
    assert(text.skip(k + 1) =~= after);
    assert(text[k] == '/');
}

/// Where the parts of a search bar lie: the prompt in the first row with the first column left
/// free, the number of matches in that row with the last column left free, cut to the prompt's
/// width, and the line through all columns of the second row.
pub proof fn the_search_bar_fills_two_rows(
    bar: SearchBar,
    inner: Rect,
    running: bool,
    matched: u32,
    total: u32,
)
    requires
        is_search_bar(bar, inner, running, matched, total),
    ensures
        bar.prompt.y == inner.y,
        bar.prompt.height == 1,
        inner.width > 0 ==> bar.prompt.width + 1 == inner.width,
        inner.width == 0 ==> bar.prompt.width == 0 && bar.prompt.x == inner.x,
        inner.width > 0 && inner.x < u16::MAX ==> bar.prompt.x == inner.x + 1,
        inner.width > 0 && inner.x == u16::MAX ==> bar.prompt.x == u16::MAX,
        bar.count.text@ == count_text(running, matched, total),
        bar.count.y == inner.y,
        bar.count.text@.len() < bar.prompt.x + bar.prompt.width ==> bar.count.x
            + bar.count.text@.len() + 1 == bar.prompt.x + bar.prompt.width,
        bar.count.text@.len() >= bar.prompt.x + bar.prompt.width ==> bar.count.x == 0,
        bar.count.width <= bar.count.text@.len(),
        bar.count.width <= bar.prompt.width,
        bar.count.width == bar.count.text@.len() || bar.count.width == bar.prompt.width,
        inner.x + inner.width <= u16::MAX ==> bar.separator@.len() == inner.width,
        inner.x + inner.width > u16::MAX ==> bar.separator@.len() == u16::MAX - inner.x,
        inner.y < u16::MAX ==> forall|i: int|
            0 <= i < bar.separator@.len() ==> (#[trigger] bar.separator@[i]).0 == inner.x + i
                && bar.separator@[i].1 == inner.y + 1,
{
}

/// The search bar can be computed unless a coordinate is too large for it: the prompt must end at
/// a coordinate, and where the line has cells, there must be a row for them.
pub proof fn only_large_coordinates_fit_no_search_bar(inner: Rect)
    ensures
        fits_search_bar(inner) <==> {
            &&& inner.width == 0 || inner.x + inner.width <= u16::MAX || (inner.width == 1
                && inner.x == u16::MAX)
            &&& inner.width == 0 || inner.x == u16::MAX || inner.y < u16::MAX
        },
{
}

/// With a preview the picker gets the left half and the preview the right one, which has the odd
/// column; without one the picker gets all. Both are as high as the area.
pub proof fn the_preview_gets_half_of_the_area(area: Rect)
    ensures
        picker_part(area, false) == area,
        preview_part(area, false) is None,
        preview_part(area, true) matches Some(preview) && {
            let picker = picker_part(area, true);
            &&& picker.x == area.x
            &&& picker.y == area.y && preview.y == area.y
            &&& picker.height == area.height && preview.height == area.height
            &&& picker.width + preview.width == area.width
            &&& picker.width <= preview.width <= picker.width + 1
            &&& area.x + picker.width <= u16::MAX ==> preview.x == area.x + picker.width
            &&& area.x + picker.width > u16::MAX ==> preview.x == u16::MAX
        },
{
}

} // verus!
