//! The order in which the parts of a picker are drawn.
use crate::graphics::Rect;
use crate::layout::CountLabel;
use crate::matcher::Status;
use crate::picker::Frame;
use vstd::prelude::*;

verus! {

/// One step of drawing.
pub enum DrawStep {
    /// Clear this area.
    Clear(Rect),
    /// Draw borders along the edge of this area.
    Borders(Rect),
    /// Draw the search prompt, which clears its background.
    SearchPrompt(Rect),
    /// Write the number of matches.
    Count(CountLabel),
    /// Draw a horizontal line through these cells, given as column and row.
    Separator(Vec<(u16, u16)>),
    /// Draw the file picker.
    List(Rect, Status),
    /// Draw the preview.
    Preview(Rect),
}

/// The steps that draw `frame`, in order. What clears an area comes before what is drawn there.
pub open spec fn steps_of(frame: Frame) -> Seq<DrawStep> {
    let picker = frame.picker;
    seq![
        DrawStep::Clear(picker.area),
        DrawStep::Borders(picker.area),
        DrawStep::SearchPrompt(picker.search.prompt),
        DrawStep::Count(picker.search.count),
        DrawStep::Separator(picker.search.separator),
        DrawStep::List(picker.list, picker.status),
    ] + match frame.preview {
        Some(area) => seq![DrawStep::Preview(area)],
        None => Seq::empty(),
    }
}

/// The steps that draw `frame`, in order.
pub fn draw_steps(frame: Frame) -> (steps: Vec<DrawStep>)
    ensures
        steps@ == steps_of(frame),
{
    let picker = frame.picker;
    let mut steps: Vec<DrawStep> = Vec::new();
    steps.push(DrawStep::Clear(picker.area));
    steps.push(DrawStep::Borders(picker.area));
    steps.push(DrawStep::SearchPrompt(picker.search.prompt));
    steps.push(DrawStep::Count(picker.search.count));
    steps.push(DrawStep::Separator(picker.search.separator));
    steps.push(DrawStep::List(picker.list, picker.status));
    if let Some(area) = frame.preview {
        steps.push(DrawStep::Preview(area));
    }
    assert(steps@ =~= steps_of(frame));
    steps
}

/// Clearing wipes nothing that was drawn: the area is cleared before anything else is done, and
/// the search prompt, which clears its background, is drawn before the number of matches over it.
pub proof fn nothing_drawn_is_cleared(frame: Frame, i: int, j: int)
    requires
        0 <= i < steps_of(frame).len(),
        0 <= j < steps_of(frame).len(),
    ensures
        steps_of(frame)[i] is Clear && i != j ==> i < j,
        steps_of(frame)[i] is SearchPrompt && steps_of(frame)[j] is Count ==> i < j,
        exists|k: int|
            0 <= k < steps_of(frame).len() && #[trigger] steps_of(frame)[k] is SearchPrompt,
        exists|k: int| 0 <= k < steps_of(frame).len() && #[trigger] steps_of(frame)[k] is Count,
{
    assert(steps_of(frame)[2] is SearchPrompt);
    assert(steps_of(frame)[3] is Count);
}

/// Every part of a frame is drawn once and where the frame says, whatever it shows, and nothing
/// else is drawn: the preview exactly where the frame has one. The order is the same for all
/// frames.
pub proof fn every_part_is_drawn_once(frame: Frame)
    ensures
        steps_of(frame).contains(DrawStep::Clear(frame.picker.area)),
        steps_of(frame).contains(DrawStep::Borders(frame.picker.area)),
        steps_of(frame).contains(DrawStep::SearchPrompt(frame.picker.search.prompt)),
        steps_of(frame).contains(DrawStep::Count(frame.picker.search.count)),
        steps_of(frame).contains(DrawStep::Separator(frame.picker.search.separator)),
        steps_of(frame).contains(DrawStep::List(frame.picker.list, frame.picker.status)),
        forall|area: Rect| #[trigger]
            steps_of(frame).contains(DrawStep::Preview(area)) <==> frame.preview == Some(
                area,
            ),
        steps_of(frame).len() == if frame.preview is Some {
            7int
        } else {
            6int
        },
        steps_of(frame)[0] is Clear,
        steps_of(frame)[1] is Borders,
        steps_of(frame)[2] is SearchPrompt,
        steps_of(frame)[3] is Count,
        steps_of(frame)[4] is Separator,
        steps_of(frame)[5] is List,
{
    let steps = steps_of(frame);
    assert(steps[0] == DrawStep::Clear(frame.picker.area));
    assert(steps[1] == DrawStep::Borders(frame.picker.area));
    assert(steps[2] == DrawStep::SearchPrompt(frame.picker.search.prompt));
    assert(steps[3] == DrawStep::Count(frame.picker.search.count));
    assert(steps[4] == DrawStep::Separator(frame.picker.search.separator));
    assert(steps[5] == DrawStep::List(frame.picker.list, frame.picker.status));
    if let Some(area) = frame.preview {
        assert(steps[6] == DrawStep::Preview(area));
    }
}

} // verus!
