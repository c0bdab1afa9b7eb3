//! Opening the picker, and opening the entry that was chosen in it.
use crate::file_result::FileResult;
use crate::picker::{is_new_picker, InteractivePicker, Picker};
use crate::walk::{list_walk, plans_walk, Directory, FilePickerConfig, WalkPlan};
use vstd::prelude::*;

verus! {

/// A search that was opened.
pub struct OpenedSearch {
    pub picker: InteractivePicker<FileResult>,
    /// The walk that lists the files of the workspace, to be fed to the picker.
    pub walk: WalkPlan,
}

/// Opens the search in the workspace at `directory`, around a file picker whose entries have a
/// preview. Returns the message for the user where the directory does not exist.
pub fn spawn_interactive_search(
    search_focused: bool,
    mut file_picker: Picker<FileResult>,
    directory: Directory,
    config: &FilePickerConfig,
) -> (opened: Result<OpenedSearch, String>)
    ensures
        match opened {
            Ok(search) => {
                &&& directory.exists
                &&& is_new_picker(
                    search.picker,
                    (Picker { has_file_fn: true, ..file_picker }),
                    search_focused,
                )
                &&& plans_walk(search.walk, directory, *config, Seq::empty())
            },
            Err(message) => !directory.exists && message@ == "Workspace directory does not exist"@,
        },
{
    if !directory.exists {
        return Err("Workspace directory does not exist".to_owned());
    }
    file_picker.has_file_fn = true;
    let picker: InteractivePicker<FileResult> = InteractivePicker::new(file_picker, search_focused);
    Ok(OpenedSearch { picker, walk: list_walk(directory, config) })
}

/// The message for a file that could not be opened.
pub fn open_error(path: &str, error: &str) -> (message: String)
    ensures
        message@ == "Failed to open file '"@ + path@ + "': "@ + error@,
{
    let mut message: String = "Failed to open file '".to_owned();
    message.append(path);
    message.append("': ");
    message.append(error);
    message
}

/// What to do in a file after it was opened.
pub enum Jump {
    /// Nothing: the entry stands for the whole file.
    Stay,
    /// Tell the user this: the line is not there.
    LineGone(String),
    /// Select from the start of the first line to the start of the second one, which is the
    /// end of the text where it is the number of lines; then bring the selection into view.
    Select(usize, usize),
}

/// Whether an entry stands for a line that a file of `len_lines` lines has.
pub open spec fn has_line(line_num: Option<usize>, len_lines: usize) -> bool {
    line_num is Some && line_num->0 < len_lines
}

/// Decides what to do in a file of `len_lines` lines that was opened for an entry with line
/// `line_num`: its line is selected whole.
pub fn jump(line_num: Option<usize>, len_lines: usize) -> (jump: Jump)
    ensures
        jump is Stay <==> line_num is None,
        has_line(line_num, len_lines) ==> jump == Jump::Select(
            line_num->0,
            (line_num->0 + 1) as usize,
        ),
        line_num is Some && !has_line(line_num, len_lines) ==> {
            &&& jump matches Jump::LineGone(message)
            &&& message@
                == "The line you jumped to does not exist anymore because the file has changed."@
        },
        line_num matches Some(line) ==> (jump matches Jump::Select(from, to) && from == line
            && to == line + 1) == (line < len_lines),
        line_num matches Some(line) ==> jump is LineGone == (line >= len_lines),
        jump matches Jump::Select(from, to) ==> from < len_lines && to <= len_lines && to == from
            + 1,
{
    match line_num {
        None => Jump::Stay,
        Some(line) => if line >= len_lines {
            Jump::LineGone(
                "The line you jumped to does not exist anymore because the file has changed.".to_owned(),
            )
        } else {
            let next: usize = line + 1;
            Jump::Select(line, if next <= len_lines { next } else { len_lines })
        },
    }
}

/// Which entries have their line: one with a line that lies before the end of the file, and every
/// such one still where the file grows.
pub proof fn a_line_before_the_end_is_there(line_num: Option<usize>, len_lines: usize, more: usize)
    ensures
        has_line(line_num, len_lines) <==> (line_num matches Some(line) && line < len_lines),
        has_line(line_num, len_lines) && len_lines <= more ==> has_line(line_num, more),
{
}

} // verus!
