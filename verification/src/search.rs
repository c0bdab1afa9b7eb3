//! Searching the current working directory for the query: what a query asks for, which files are
//! searched how, and the entries that come of it.
use crate::file_result::{
    as_path, buf_bytes, path_components, paths_equal, places, same_path, FileResult,
};
use crate::grep::{
    are_line_numbers, buffer_len, build_matcher, clone_matcher, clone_searcher, is_free_of,
    matcher_source, message_text, multi_line_with_matcher, new_searcher, newlines,
    pattern_compiles, reader_hits, search_reader, search_slice, searcher_settings, slice_hits,
    spans_lines, LineHits, NEW_BUFFER_LEN,
};
use crate::open::has_line;
use crate::walk::{
    content_search_ignores, content_walk, is_listed, list_walk, listed_entries, plans_walk,
    Directory, FeedPhase, FilePickerConfig, WalkEntry, WalkPlan,
};
use grep_regex::RegexMatcher;
use grep_searcher::Searcher;
use std::path::PathBuf;
use vstd::prelude::*;

verus! {

/// Data that holds this byte is binary and not searched.
pub const BINARY_BYTE: u8 = 0;

/// A query shorter than this, in bytes, lists all files instead of searching their contents.
pub const MIN_CONTENT_QUERY: usize = 2;

/// What a query asks for.
#[derive(Clone, Copy, Debug, PartialEq, Eq, Structural)]
pub enum SearchDecision {
    /// Nothing: it is no valid pattern.
    Ignore,
    /// To tell the user that there is no directory to search in.
    MissingRoot,
    /// All files of the directory.
    ListFiles,
    /// The lines that match.
    SearchContents,
}

/// What a query of `query_bytes` bytes asks for, given whether it compiles.
pub open spec fn decision_for(
    compiles: bool,
    root_exists: bool,
    query_bytes: nat,
) -> SearchDecision {
    if !compiles {
        SearchDecision::Ignore
    } else if !root_exists {
        SearchDecision::MissingRoot
    } else if query_bytes < MIN_CONTENT_QUERY {
        SearchDecision::ListFiles
    } else {
        SearchDecision::SearchContents
    }
}

/// What a query of `query_bytes` bytes asks for, given whether it compiles.
pub fn decide(compiles: bool, root_exists: bool, query_bytes: usize) -> (decision: SearchDecision)
    ensures
        decision == decision_for(compiles, root_exists, query_bytes as nat),
        decision is Ignore <==> !compiles,
        decision is MissingRoot <==> compiles && !root_exists,
        decision is ListFiles <==> compiles && root_exists && query_bytes < 2,
        decision is SearchContents <==> compiles && root_exists && query_bytes >= 2,
{
    if !compiles {
        SearchDecision::Ignore
    } else if !root_exists {
        SearchDecision::MissingRoot
    } else if query_bytes < MIN_CONTENT_QUERY {
        SearchDecision::ListFiles
    } else {
        SearchDecision::SearchContents
    }
}

/// A search through the contents of files, for one worker.
pub struct ContentSearch {
    pub matcher: RegexMatcher,
    pub searcher: Searcher,
}

/// What a search through an open document found.
pub struct BufferSearch {
    /// An entry for each matching line, from the top to the bottom.
    pub results: Vec<FileResult>,
    /// The message of the error that ended the search, if one did.
    pub error: Option<String>,
}

/// What a search through `text` reports: all at once where matches can span lines, and else as a
/// stream, of which `buffer` bytes are read at a time at first.
pub open spec fn text_hits(
    source: (Seq<char>, bool),
    settings: (u8, bool),
    buffer: nat,
    text: Seq<char>,
) -> (Seq<u64>, Option<Seq<char>>) {
    if spans_lines(source.0, source.1, settings.1) {
        slice_hits(source.0, source.1, settings, text)
    } else {
        reader_hits(source.0, source.1, settings, buffer, text)
    }
}

/// Whether these are the entries for these lines of the file at `path`. Entries count lines
/// from zero.
pub open spec fn are_line_results(
    results: Seq<FileResult>,
    path: PathBuf,
    lines: Seq<u64>,
) -> bool {
    &&& results.len() == lines.len()
    &&& forall|i: int|
        0 <= i < lines.len() ==> buf_bytes((#[trigger] results[i]).path) == buf_bytes(path)
            && results[i].line_num == Some((lines[i] - 1) as usize)
}

/// Whether these are numbers of lines as a search counts them: from one, each line once and in
/// order.
pub open spec fn are_counted_lines(lines: Seq<u64>) -> bool {
    &&& forall|i: int| 0 <= i < lines.len() ==> 1 <= #[trigger] lines[i] <= usize::MAX
    &&& forall|i: int, j: int| 0 <= i < j < lines.len() ==> lines[i] < lines[j]
}

/// The entry for a line of the file at `path`, which a search counts from one.
pub fn line_result(path: &PathBuf, line: u64) -> (result: FileResult)
    requires
        1 <= line as usize,
    ensures
        buf_bytes(result.path) == buf_bytes(*path),
        result.line_num == Some((line as usize - 1) as usize),
{
    FileResult::new(as_path(path), Some(line as usize - 1))
}

/// The entries for these lines of the file at `path`, which a search counts from one.
pub fn line_results(path: &PathBuf, lines: &Vec<u64>) -> (results: Vec<FileResult>)
    requires
        forall|i: int| 0 <= i < lines@.len() ==> 1 <= #[trigger] lines@[i] <= usize::MAX,
    ensures
        are_line_results(results@, *path, lines@),
{
    let mut results: Vec<FileResult> = Vec::new();
    let mut i: usize = 0;
    while i < lines.len()
        invariant
            i <= lines@.len(),
            forall|j: int| 0 <= j < lines@.len() ==> 1 <= #[trigger] lines@[j] <= usize::MAX,
            are_line_results(results@, *path, lines@.take(i as int)),
        decreases lines@.len() - i,
    {
        let ghost before = results@;
        let line: u64 = lines[i];
        assert(line == lines@[i as int]);
        results.push(line_result(path, line));
        i = i + 1;
        assert forall|j: int| 0 <= j < i implies buf_bytes((#[trigger] results@[j]).path)
            == buf_bytes(*path) && results@[j].line_num == Some((lines@[j] - 1) as usize) by {
            if j < i - 1 {
                assert(results@[j] == before[j]);
                assert(lines@.take(i - 1)[j] == lines@[j]);
            }
        }
    }
    assert(lines@.take(i as int) =~= lines@);
    results
}

impl ContentSearch {
    /// Whether the searcher quits at binary data and is else set as a new one.
    pub open spec fn is_set_up(self) -> bool {
        searcher_settings(self.searcher) == Some((BINARY_BYTE, false))
    }

    /// Whether nothing has been searched yet that made the searcher read more at a time.
    pub open spec fn is_fresh(self) -> bool {
        buffer_len(self.searcher) == NEW_BUFFER_LEN
    }

    /// A search with this compiled query.
    pub fn new(matcher: RegexMatcher) -> (search: ContentSearch)
        ensures
            search.matcher == matcher,
            search.is_set_up(),
            search.is_fresh(),
            searcher_settings(search.searcher) == Some((0u8, false)),
    {
        ContentSearch { matcher, searcher: new_searcher(BINARY_BYTE) }
    }

    /// The same search for another worker.
    pub fn fork(&self) -> (search: ContentSearch)
        ensures
            matcher_source(search.matcher) == matcher_source(self.matcher),
            searcher_settings(search.searcher) == searcher_settings(self.searcher),
            buffer_len(search.searcher) == buffer_len(self.searcher),
    {
        ContentSearch {
            matcher: clone_matcher(&self.matcher),
            searcher: clone_searcher(&self.searcher),
        }
    }

    /// Searches the text of a document that is open for the file at `path`, in place of the
    /// file: that is faster, and finds new edits before they are saved. What was searched before
    /// only matters where the text holds binary data.
    pub fn search_document(&mut self, path: &PathBuf, text: &str) -> (found: BufferSearch)
        requires
            searcher_settings(old(self).searcher) is Some,
            matcher_source(old(self).matcher) is Some,
        ensures
            final(self).matcher == old(self).matcher,
            searcher_settings(final(self).searcher) == searcher_settings(old(self).searcher),
            ({
                let hits = text_hits(
                    matcher_source(old(self).matcher)->0,
                    searcher_settings(old(self).searcher)->0,
                    buffer_len(old(self).searcher),
                    text@,
                );
                &&& are_line_results(found.results@, *path, hits.0)
                &&& are_line_numbers(hits.0, text@)
                &&& are_counted_lines(hits.0)
                &&& message_text(found.error) == hits.1
                &&& is_free_of(text@, (searcher_settings(old(self).searcher)->0).0) ==> hits
                    == text_hits(
                    matcher_source(old(self).matcher)->0,
                    searcher_settings(old(self).searcher)->0,
                    NEW_BUFFER_LEN as nat,
                    text@,
                )
                &&& old(self).is_set_up() ==> hits == reader_hits(
                    (matcher_source(old(self).matcher)->0).0,
                    (matcher_source(old(self).matcher)->0).1,
                    (BINARY_BYTE, false),
                    buffer_len(old(self).searcher),
                    text@,
                )
            }),
    {
        let bytes: usize = text.as_bytes().len();
        let hits: LineHits = if multi_line_with_matcher(&self.searcher, &self.matcher) {
            // a match may span lines, so the text is needed as a whole
            search_slice(&mut self.searcher, &self.matcher, text)
        } else {
            search_reader(&mut self.searcher, &self.matcher, text)
        };
        assert(forall|i: int|
            0 <= i < hits.lines@.len() ==> 1 <= #[trigger] hits.lines@[i] <= bytes);
        BufferSearch { results: line_results(path, &hits.lines), error: hits.error }
    }
}

/// The entries for the lines that a search reports come from the top to the bottom of the
/// text, and no line gets two of them.
pub proof fn entries_come_in_line_order(
    results: Seq<FileResult>,
    path: PathBuf,
    lines: Seq<u64>,
    i: int,
    j: int,
)
    requires
        are_line_results(results, path, lines),
        are_counted_lines(lines),
        0 <= i < j < results.len(),
    ensures
        results[i].line_num is Some,
        results[j].line_num is Some,
        results[i].line_num->0 < results[j].line_num->0,
{
    assert(lines[i] < lines[j]);
}

/// A line that was found can be gone to: as long as the text is not changed, its number is
/// below the number of lines, which is one more than the number of line feeds or greater.
pub proof fn a_found_line_is_there(
    results: Seq<FileResult>,
    path: PathBuf,
    lines: Seq<u64>,
    text: Seq<char>,
    len_lines: usize,
    i: int,
)
    requires
        are_line_results(results, path, lines),
        are_line_numbers(lines, text),
        are_counted_lines(lines),
        len_lines > newlines(text),
        0 <= i < results.len(),
    ensures
        has_line(results[i].line_num, len_lines),
{
    assert(1 <= lines[i] <= newlines(text) + 1);
}

/// What is to be done for a query.
pub enum SearchPlan {
    /// Nothing.
    Ignore,
    /// Tell the user this.
    MissingRoot(String),
    /// Feed all files of this walk to the picker.
    ListFiles(WalkPlan),
    /// Search the files of this walk.
    SearchContents(ContentSearch, WalkPlan),
}

/// Plans what a changed query asks for. A query that is no valid pattern asks for nothing; one
/// of less than two bytes lists all files; any other is searched for in the files' contents.
pub fn dyn_search_callback(
    search_query: &str,
    smart_case: bool,
    directory: Directory,
    config_dir: &PathBuf,
    config: &FilePickerConfig,
) -> (plan: SearchPlan)
    ensures
        match decision_for(
            pattern_compiles(search_query@, smart_case),
            directory.exists,
            vstd::utf8::encode_utf8(search_query@).len(),
        ) {
            SearchDecision::Ignore => plan is Ignore,
            SearchDecision::MissingRoot => plan matches SearchPlan::MissingRoot(message)
                && message@ == "Current working directory does not exist"@,
            SearchDecision::ListFiles => plan matches SearchPlan::ListFiles(walk) && plans_walk(
                walk,
                directory,
                *config,
                Seq::empty(),
            ),
            SearchDecision::SearchContents => plan matches SearchPlan::SearchContents(search, walk)
                && search.is_set_up() && search.is_fresh() && matcher_source(search.matcher) == Some(
                (search_query@, smart_case),
            ) && plans_walk(walk, directory, *config, content_search_ignores(*config_dir)),
        },
        plan is Ignore <==> !pattern_compiles(search_query@, smart_case),
        plan is MissingRoot <==> pattern_compiles(search_query@, smart_case) && !directory.exists,
        plan is ListFiles <==> pattern_compiles(search_query@, smart_case) && directory.exists
            && vstd::utf8::encode_utf8(search_query@).len() < 2,
        plan is SearchContents <==> pattern_compiles(search_query@, smart_case) && directory.exists
            && vstd::utf8::encode_utf8(search_query@).len() >= 2,
{
    let bytes: usize = search_query.as_bytes().len();
    match build_matcher(search_query, smart_case) {
        Err(_) => SearchPlan::Ignore,
        Ok(matcher) => match decide(true, directory.exists, bytes) {
            SearchDecision::Ignore => SearchPlan::Ignore,
            SearchDecision::MissingRoot => SearchPlan::MissingRoot(
                "Current working directory does not exist".to_owned(),
            ),
            SearchDecision::ListFiles => SearchPlan::ListFiles(list_walk(directory, config)),
            SearchDecision::SearchContents => SearchPlan::SearchContents(
                ContentSearch::new(matcher),
                content_walk(directory, config_dir, config),
            ),
        },
    }
}

/// A document that is open in the editor.
pub struct Document {
    /// The file it belongs to, if it has one.
    pub path: Option<PathBuf>,
    pub text: String,
}

impl Document {
    /// Whether this document is open for the file at `path`.
    pub open spec fn is_open_for(self, path: PathBuf) -> bool {
        self.path is Some && same_path(self.path->0, path)
    }
}

/// What a content search does with an entry of the walk.
#[derive(Clone, Copy, Debug, PartialEq, Eq, Structural)]
pub enum Visit {
    /// End the walk.
    Quit,
    /// Go on to the next entry.
    Skip,
    /// Search the text of this document.
    SearchDocument(usize),
    /// Search the file.
    SearchFile,
}

/// Whether `visit` is what a content search does with an entry of the walk.
pub open spec fn is_visit(
    visit: Visit,
    cancelled: bool,
    entry: Option<WalkEntry>,
    documents: Seq<Document>,
) -> bool {
    &&& visit is Quit <==> cancelled
    &&& visit is Skip <==> !cancelled && !is_listed(entry)
    &&& visit is SearchFile <==> !cancelled && is_listed(entry) && forall|i: int|
        0 <= i < documents.len() ==> !(#[trigger] documents[i]).is_open_for(entry->0.path)
    &&& visit matches Visit::SearchDocument(n) ==> {
        &&& n < documents.len()
        &&& documents[n as int].is_open_for(entry->0.path)
        &&& forall|i: int| 0 <= i < n ==> !(#[trigger] documents[i]).is_open_for(entry->0.path)
    }
}

/// Decides what a content search does with an entry of the walk; `None` stands for one that
/// could not be read. A cancelled search ends. Only files are searched, and of a file that is
/// open the first document that belongs to it.
pub fn visit_entry(
    cancelled: bool,
    entry: &Option<WalkEntry>,
    documents: &Vec<Document>,
) -> (visit: Visit)
    ensures
        is_visit(visit, cancelled, *entry, documents@),
        visit is Quit <==> cancelled,
        !cancelled ==> (visit is Skip <==> !(entry matches Some(found) && found.is_file == Some(
            true,
        ))),
        visit matches Visit::SearchDocument(n) ==> n < documents@.len(),
{
    if cancelled {
        return Visit::Quit;
    }
    match entry {
        None => Visit::Skip,
        Some(found) => match found.is_file {
            Some(true) => {
                let mut i: usize = 0;
                while i < documents.len()
                    invariant
                        !cancelled,
                        *entry == Some(*found),
                        is_listed(*entry),
                        i <= documents@.len(),
                        forall|j: int|
                            0 <= j < i ==> !(#[trigger] documents@[j]).is_open_for(found.path),
                    decreases documents@.len() - i,
                {
                    let open: bool = match &documents[i].path {
                        Some(path) => paths_equal(path, &found.path),
                        None => false,
                    };
                    if open {
                        return Visit::SearchDocument(i);
                    }
                    i = i + 1;
                }
                Visit::SearchFile
            },
            _ => Visit::Skip,
        },
    }
}

/// Whether a walk goes on.
#[derive(Clone, Copy, Debug, PartialEq, Eq, Structural)]
pub enum WalkStep {
    Continue,
    Quit,
}

/// Whether the walk goes on after an entry was searched.
pub open spec fn step_after(phase: FeedPhase) -> WalkStep {
    if phase == FeedPhase::Stopped {
        WalkStep::Quit
    } else {
        WalkStep::Continue
    }
}

/// Decides whether the walk goes on after an entry was searched: it does unless the picker
/// took no more results. That a search ended with an error does not end the walk.
pub fn after_entry(phase: FeedPhase) -> (step: WalkStep)
    ensures
        step == step_after(phase),
{
    match phase {
        FeedPhase::Stopped => WalkStep::Quit,
        _ => WalkStep::Continue,
    }
}

/// The entries that a walk searches, in order, when it does `visits[i]` with the `i`-th one and
/// searching that leaves feeding in `phases[i]`.
pub open spec fn searched_entries(
    entries: Seq<Option<WalkEntry>>,
    visits: Seq<Visit>,
    phases: Seq<FeedPhase>,
) -> Seq<Option<WalkEntry>>
    decreases entries.len(),
{
    if entries.len() == 0 || visits[0] is Quit {
        Seq::empty()
    } else {
        let rest = searched_entries(
            entries.drop_first(),
            visits.drop_first(),
            phases.drop_first(),
        );
        if visits[0] is Skip {
            rest
        } else if step_after(phases[0]) == WalkStep::Quit {
            seq![entries[0]]
        } else {
            seq![entries[0]] + rest
        }
    }
}

/// As long as a search is not cancelled and the picker takes its results, exactly the files of
/// the walk are searched, in order.
pub proof fn exactly_the_files_are_searched(
    entries: Seq<Option<WalkEntry>>,
    documents: Seq<Document>,
    visits: Seq<Visit>,
    phases: Seq<FeedPhase>,
)
    requires
        visits.len() == entries.len(),
        phases.len() == entries.len(),
        forall|i: int|
            0 <= i < entries.len() ==> is_visit(#[trigger] visits[i], false, entries[i], documents),
        forall|i: int| 0 <= i < phases.len() ==> #[trigger] phases[i] != FeedPhase::Stopped,
    ensures
        searched_entries(entries, visits, phases) == listed_entries(entries),
    decreases entries.len(),
{
    if entries.len() > 0 {
        assert(is_visit(visits[0], false, entries[0], documents));
        assert(phases[0] != FeedPhase::Stopped);
        let rest = visits.drop_first();
        assert forall|i: int| 0 <= i < rest.len() implies is_visit(
            #[trigger] rest[i],
            false,
            entries.drop_first()[i],
            documents,
        ) by {
            assert(rest[i] == visits[i + 1]);
        }
        assert forall|i: int| 0 <= i < rest.len() implies #[trigger] phases.drop_first()[i]
            != FeedPhase::Stopped by {
            assert(phases.drop_first()[i] == phases[i + 1]);
        }
        exactly_the_files_are_searched(entries.drop_first(), documents, rest, phases.drop_first());
    }
}

/// Entries that could not be read or are no files change nothing: without one of them the same
/// files are searched.
pub proof fn entries_that_fail_change_nothing(entries: Seq<Option<WalkEntry>>, k: int)
    requires
        0 <= k < entries.len(),
        !is_listed(entries[k]),
    ensures
        listed_entries(entries.remove(k)) == listed_entries(entries),
    decreases entries.len(),
{
    let without = entries.remove(k);
    if k == 0 {
        assert(without =~= entries.drop_first());
    } else {
        entries_that_fail_change_nothing(entries.drop_first(), k - 1);
        assert(without[0] == entries[0]);
        assert(without.drop_first() =~= entries.drop_first().remove(k - 1));
    }
}

/// A cancelled search ends: from the entry on at which the flag is found to be up, none is
/// searched.
pub proof fn a_cancelled_search_ends(
    entries: Seq<Option<WalkEntry>>,
    documents: Seq<Document>,
    visits: Seq<Visit>,
    phases: Seq<FeedPhase>,
    k: int,
)
    requires
        visits.len() == entries.len(),
        phases.len() == entries.len(),
        0 <= k < entries.len(),
        is_visit(visits[k], true, entries[k], documents),
    ensures
        searched_entries(entries, visits, phases) == searched_entries(
            entries.take(k),
            visits.take(k),
            phases.take(k),
        ),
    decreases k,
{
    if k > 0 {
        assert(visits.drop_first()[k - 1] == visits[k]);
        assert(entries.drop_first()[k - 1] == entries[k]);
        a_cancelled_search_ends(
            entries.drop_first(),
            documents,
            visits.drop_first(),
            phases.drop_first(),
            k - 1,
        );
        assert(entries.take(k).drop_first() =~= entries.drop_first().take(k - 1));
        assert(visits.take(k).drop_first() =~= visits.drop_first().take(k - 1));
        assert(phases.take(k).drop_first() =~= phases.drop_first().take(k - 1));
    }
}

/// The lines that match in what is searched for an entry of the walk: of an open document what a
/// new searcher reports of its text, and of a file what was found in it.
pub open spec fn entry_lines(
    visit: Visit,
    documents: Seq<Document>,
    source: (Seq<char>, bool),
    settings: (u8, bool),
    in_file: Seq<u64>,
) -> Seq<u64> {
    match visit {
        Visit::SearchDocument(n) => text_hits(
            source,
            settings,
            NEW_BUFFER_LEN as nat,
            documents[n as int].text@,
        ).0,
        Visit::SearchFile => in_file,
        _ => Seq::empty(),
    }
}

/// The lines that match, for each entry of a walk.
pub open spec fn walk_lines(
    visits: Seq<Visit>,
    documents: Seq<Document>,
    source: (Seq<char>, bool),
    settings: (u8, bool),
    in_files: Seq<Seq<u64>>,
) -> Seq<Seq<u64>> {
    Seq::new(
        visits.len(),
        |i: int| entry_lines(visits[i], documents, source, settings, in_files[i]),
    )
}

/// Whether the `i`-th entry of a walk is a file whose path has these bytes, and line `line` of it,
/// counted from zero, is among the lines that match, which are counted from one.
pub open spec fn is_matching_line(
    entries: Seq<Option<WalkEntry>>,
    lines: Seq<Seq<u64>>,
    i: int,
    bytes: Seq<u8>,
    line: usize,
) -> bool {
    &&& 0 <= i < entries.len()
    &&& is_listed(entries[i])
    &&& buf_bytes(entries[i]->0.path) == bytes
    &&& line < u64::MAX && lines[i].contains((line + 1) as u64)
}

/// Whether line `line`, counted from zero, of the `i`-th of these files is among the lines found
/// in it, and its path has these bytes.
spec fn is_found(
    paths: Seq<PathBuf>,
    lines: Seq<Seq<u64>>,
    i: int,
    bytes: Seq<u8>,
    line: usize,
) -> bool {
    &&& 0 <= i < paths.len()
    &&& buf_bytes(paths[i]) == bytes
    &&& line < u64::MAX && lines[i].contains((line + 1) as u64)
}

/// Each line found in a file gives one entry, and there are no others.
proof fn lemma_each_line_gives_one_entry(results: Seq<FileResult>, path: PathBuf, lines: Seq<u64>)
    requires
        are_line_results(results, path, lines),
        are_counted_lines(lines),
    ensures
        places(results).no_duplicates(),
        forall|k: int|
            0 <= k < results.len() ==> (#[trigger] places(results)[k]).1 is Some
                && places(results)[k].0 == buf_bytes(path),
        forall|line: usize| #[trigger]
            places(results).contains((buf_bytes(path), Some(line))) <==> (line < u64::MAX
                && lines.contains((line + 1) as u64)),
{
    let found = places(results);
    assert forall|k: int| 0 <= k < results.len() implies #[trigger] found[k] == (
        buf_bytes(path),
        Some((lines[k] - 1) as usize),
    ) by {
        assert(buf_bytes(results[k].path) == buf_bytes(path));
    }
    assert forall|a: int, b: int| 0 <= a < found.len() && 0 <= b < found.len() && a != b implies
        found[a] != found[b] by {
        if a < b {
            assert(lines[a] < lines[b]);
        } else {
            assert(lines[b] < lines[a]);
        }
    }
    assert forall|line: usize| #[trigger]
        found.contains((buf_bytes(path), Some(line))) <==> (line < u64::MAX && lines.contains(
            (line + 1) as u64,
        )) by {
        if found.contains((buf_bytes(path), Some(line))) {
            let k = choose|k: int|
                0 <= k < found.len() && found[k] == (buf_bytes(path), Some(line));
            assert(lines[k] == line + 1);
        }
        if line < u64::MAX && lines.contains((line + 1) as u64) {
            let k = choose|k: int| 0 <= k < lines.len() && lines[k] == (line + 1) as u64;
            assert(found[k] == (buf_bytes(path), Some(line)));
        }
    }
}

/// Over several files, each line found in one of them gives one entry, and there are no others.
proof fn lemma_all_lines_give_one_entry(
    paths: Seq<PathBuf>,
    lines: Seq<Seq<u64>>,
    results: Seq<Seq<FileResult>>,
)
    requires
        lines.len() == paths.len(),
        results.len() == paths.len(),
        forall|i: int|
            0 <= i < paths.len() ==> are_line_results(#[trigger] results[i], paths[i], lines[i])
                && are_counted_lines(lines[i]),
        forall|i: int, j: int|
            0 <= i < j < paths.len() && (#[trigger] lines[i]).len() > 0 && (
            #[trigger] lines[j]).len() > 0 ==> buf_bytes(paths[i]) != buf_bytes(paths[j]),
    ensures
        places(results.flatten()).no_duplicates(),
        forall|k: int|
            0 <= k < results.flatten().len() ==> (#[trigger] places(results.flatten())[k]).1
                is Some,
        forall|bytes: Seq<u8>, line: usize| #[trigger]
            places(results.flatten()).contains((bytes, Some(line))) <==> exists|i: int| #[trigger]
                is_found(paths, lines, i, bytes, line),
    decreases paths.len(),
{
    let all = results.flatten();
    let found = places(all);
    if paths.len() == 0 {
        assert(all =~= Seq::empty());
    } else {
        let (paths1, lines1, results1) = (
            paths.drop_first(),
            lines.drop_first(),
            results.drop_first(),
        );
        assert forall|i: int| 0 <= i < paths1.len() implies are_line_results(
            #[trigger] results1[i],
            paths1[i],
            lines1[i],
        ) && are_counted_lines(lines1[i]) by {
            assert(results1[i] == results[i + 1]);
        }
        assert forall|i: int, j: int|
            0 <= i < j < paths1.len() && (#[trigger] lines1[i]).len() > 0 && (
            #[trigger] lines1[j]).len() > 0 implies buf_bytes(paths1[i]) != buf_bytes(
            paths1[j],
        ) by {
            assert(lines1[i] == lines[i + 1] && lines1[j] == lines[j + 1]);
        }
        lemma_all_lines_give_one_entry(paths1, lines1, results1);
        assert(are_line_results(results[0], paths[0], lines[0]));
        lemma_each_line_gives_one_entry(results[0], paths[0], lines[0]);
        let (first, rest) = (places(results[0]), places(results1.flatten()));
        assert(all =~= results[0] + results1.flatten());
        assert(found =~= first + rest);
        assert forall|bytes: Seq<u8>, line: usize| #[trigger]
            found.contains((bytes, Some(line))) <==> exists|i: int| #[trigger]
                is_found(paths, lines, i, bytes, line) by {
            let here = (bytes, Some(line));
            if found.contains(here) {
                let k = choose|k: int| 0 <= k < found.len() && found[k] == here;
                if k < first.len() {
                    assert(first[k] == here);
                    assert(first.contains((buf_bytes(paths[0]), Some(line))));
                    assert(is_found(paths, lines, 0, bytes, line));
                } else {
                    assert(rest[k - first.len()] == here);
                    assert(rest.contains(here));
                    let i = choose|i: int| is_found(paths1, lines1, i, bytes, line);
                    assert(is_found(paths, lines, i + 1, bytes, line));
                }
            }
            if exists|i: int| is_found(paths, lines, i, bytes, line) {
                let i = choose|i: int| is_found(paths, lines, i, bytes, line);
                if i == 0 {
                    assert(first.contains((buf_bytes(paths[0]), Some(line))));
                    let k = choose|k: int| 0 <= k < first.len() && first[k] == here;
                    assert(found[k] == here);
                } else {
                    assert(is_found(paths1, lines1, i - 1, bytes, line));
                    assert(rest.contains(here));
                    let k = choose|k: int| 0 <= k < rest.len() && rest[k] == here;
                    assert(found[first.len() + k] == here);
                }
            }
        }
        assert forall|a: int, b: int| 0 <= a < first.len() && 0 <= b < rest.len() implies first[a]
            != rest[b] by {
            assert(first[a].0 == buf_bytes(paths[0]));
            assert(rest[b].1 is Some);
            assert(rest.contains((rest[b].0, Some(rest[b].1->0))));
            let i = choose|i: int| is_found(paths1, lines1, i, rest[b].0, rest[b].1->0);
            assert(lines1[i].len() > 0);
            assert(lines[i + 1] == lines1[i] && paths[i + 1] == paths1[i]);
            assert(lines[0].len() > 0);
        }
        assert forall|k: int| 0 <= k < all.len() implies (#[trigger] found[k]).1 is Some by {
            if k < first.len() {
                assert(found[k] == first[k]);
            } else {
                assert(found[k] == rest[k - first.len()]);
            }
        }
        assert(found.no_duplicates()) by {
            assert forall|a: int, b: int|
                0 <= a < found.len() && 0 <= b < found.len() && a != b implies found[a]
                != found[b] by {
                let n = first.len() as int;
                if a < n && b < n {
                    assert(first[a] != first[b]);
                } else if a < n {
                    assert(first[a] != rest[b - n]);
                } else if b < n {
                    assert(first[b] != rest[a - n]);
                } else {
                    assert(rest[a - n] != rest[b - n]);
                }
            }
        }
    }
}

/// What a content search finds in a whole walk, as long as it is not cancelled: each line that
/// matches in a file of the walk gives exactly one entry, and there are no others. Entries that
/// could not be read and entries that are no files give none, and what is found in one file does
/// not depend on the others. The walk yields no file twice.
pub proof fn each_matching_line_gives_one_entry(
    entries: Seq<Option<WalkEntry>>,
    documents: Seq<Document>,
    visits: Seq<Visit>,
    source: (Seq<char>, bool),
    settings: (u8, bool),
    in_files: Seq<Seq<u64>>,
    results: Seq<Seq<FileResult>>,
)
    requires
        visits.len() == entries.len(),
        in_files.len() == entries.len(),
        results.len() == entries.len(),
        forall|i: int|
            0 <= i < entries.len() ==> is_visit(#[trigger] visits[i], false, entries[i], documents),
        forall|i: int|
            0 <= i < entries.len() ==> {
                let lines = walk_lines(visits, documents, source, settings, in_files)[i];
                are_line_results(#[trigger] results[i], entries[i]->0.path, lines)
                    && are_counted_lines(lines)
            },
        forall|i: int, j: int|
            0 <= i < j < entries.len() && is_listed(#[trigger] entries[i]) && is_listed(
                #[trigger] entries[j],
            ) ==> buf_bytes(entries[i]->0.path) != buf_bytes(entries[j]->0.path),
    ensures
        places(results.flatten()).no_duplicates(),
        forall|k: int|
            0 <= k < results.flatten().len() ==> (#[trigger] results.flatten()[k]).line_num is Some,
        forall|bytes: Seq<u8>, line: usize| #[trigger]
            places(results.flatten()).contains((bytes, Some(line))) <==> exists|i: int| #[trigger]
                is_matching_line(
                    entries,
                    walk_lines(visits, documents, source, settings, in_files),
                    i,
                    bytes,
                    line,
                ),
{
    let paths = Seq::new(entries.len(), |i: int| entries[i]->0.path);
    let lines = walk_lines(visits, documents, source, settings, in_files);
    assert forall|i: int| 0 <= i < lines.len() && (#[trigger] lines[i]).len() > 0 implies is_listed(
        entries[i],
    ) by {
        assert(is_visit(visits[i], false, entries[i], documents));
    }
    lemma_all_lines_give_one_entry(paths, lines, results);
    let found = places(results.flatten());
    assert forall|k: int| 0 <= k < results.flatten().len() implies (
    #[trigger] results.flatten()[k]).line_num is Some by {
        assert(found[k].1 is Some);
    }
    assert forall|bytes: Seq<u8>, line: usize| #[trigger]
        found.contains((bytes, Some(line))) <==> exists|i: int| #[trigger]
            is_matching_line(entries, lines, i, bytes, line) by {
        if found.contains((bytes, Some(line))) {
            let i = choose|i: int| is_found(paths, lines, i, bytes, line);
            assert(lines[i].len() > 0);
            assert(is_matching_line(entries, lines, i, bytes, line));
        }
        if exists|i: int| is_matching_line(entries, lines, i, bytes, line) {
            let i = choose|i: int| is_matching_line(entries, lines, i, bytes, line);
            assert(is_found(paths, lines, i, bytes, line));
        }
    }
}

/// What a query asks for depends on its length only as far as it has less than two bytes: any two
/// shorter ones, and any two that are not, ask for the same. A query that does not compile asks
/// for nothing, whatever else holds, and one that compiles needs a directory.
pub proof fn every_longer_query_searches_contents(
    compiles: bool,
    root_exists: bool,
    bytes: nat,
    other_bytes: nat,
)
    ensures
        decision_for(compiles, root_exists, bytes) is Ignore <==> !compiles,
        decision_for(compiles, root_exists, bytes) is MissingRoot <==> compiles && !root_exists,
        compiles && root_exists ==> (decision_for(compiles, root_exists, bytes) is SearchContents
            <==> bytes >= 2),
        compiles && root_exists ==> (decision_for(compiles, root_exists, bytes) is ListFiles <==> (
        bytes == 0 || bytes == 1)),
        (bytes < 2) == (other_bytes < 2) ==> decision_for(compiles, root_exists, bytes)
            == decision_for(compiles, root_exists, other_bytes),
{
}

/// An open document is searched in place of its file: whenever some document has a path with the
/// same components as the file's, the first such one is searched, and else the file is. Nothing
/// but the paths of the documents matters.
pub proof fn an_open_document_is_searched_in_place_of_its_file(
    visit: Visit,
    entry: WalkEntry,
    documents: Seq<Document>,
    k: int,
)
    requires
        is_visit(visit, false, Some(entry), documents),
        entry.is_file == Some(true),
        documents.len() <= usize::MAX,
    ensures
        visit is SearchDocument || visit is SearchFile,
        0 <= k < documents.len() && (documents[k].path matches Some(path) && path_components(
            buf_bytes(path),
        ) == path_components(buf_bytes(entry.path))) ==> (visit matches Visit::SearchDocument(n)
            && n <= k),
        visit matches Visit::SearchDocument(n) ==> n < documents.len() && (
        documents[n as int].path matches Some(path) && path_components(buf_bytes(path))
            == path_components(buf_bytes(entry.path))),
{
    if 0 <= k < documents.len() && documents[k].path is Some && path_components(
        buf_bytes(documents[k].path->0),
    ) == path_components(buf_bytes(entry.path)) {
        assert(documents[k].is_open_for(entry.path));
    }
}

/// What is done with an entry does not depend on the texts of the documents: with other texts, and
/// the same paths, the same is done.
pub proof fn the_texts_do_not_decide_what_is_searched(
    visit: Visit,
    other_visit: Visit,
    cancelled: bool,
    entry: Option<WalkEntry>,
    documents: Seq<Document>,
    others: Seq<Document>,
)
    requires
        is_visit(visit, cancelled, entry, documents),
        is_visit(other_visit, cancelled, entry, others),
        documents.len() == others.len(),
        forall|i: int|
            0 <= i < documents.len() ==> (#[trigger] documents[i]).path == others[i].path,
    ensures
        other_visit == visit,
{
    assert forall|i: int| 0 <= i < documents.len() implies (
    #[trigger] documents[i]).is_open_for(entry->0.path) == others[i].is_open_for(
        entry->0.path,
    ) by {}
    assert forall|i: int| 0 <= i < others.len() implies (
    #[trigger] others[i]).is_open_for(entry->0.path) == documents[i].is_open_for(
        entry->0.path,
    ) by {
        assert(documents[i].path == others[i].path);
    }
    if let Visit::SearchDocument(n) = visit {
        assert(others[n as int].is_open_for(entry->0.path));
    }
    if let Visit::SearchDocument(n) = other_visit {
        assert(documents[n as int].is_open_for(entry->0.path));
    }
}

/// A cancelled search ends at once; else exactly the entries that could be read and are files are
/// searched, and the others are passed over.
pub proof fn only_files_are_searched(
    visit: Visit,
    cancelled: bool,
    entry: Option<WalkEntry>,
    documents: Seq<Document>,
)
    requires
        is_visit(visit, cancelled, entry, documents),
    ensures
        visit is Quit <==> cancelled,
        (visit is SearchFile || visit is SearchDocument) <==> !cancelled && (
        entry matches Some(found) && found.is_file == Some(true)),
{
}

/// The walk goes on after an entry exactly as long as the picker takes results.
pub proof fn only_a_refusal_ends_the_walk(phase: FeedPhase)
    ensures
        step_after(phase) is Quit <==> phase is Stopped,
{
}

/// The entry for the `i`-th line found lies in the searched file, and stands for the line before
/// which as many lines lie as its number, counted from one, has before it.
pub proof fn each_entry_is_for_its_line(
    results: Seq<FileResult>,
    path: PathBuf,
    lines: Seq<u64>,
    i: int,
)
    requires
        are_line_results(results, path, lines),
        0 <= i < lines.len(),
        1 <= lines[i] <= usize::MAX,
    ensures
        results.len() == lines.len(),
        results[i].line_num matches Some(line) && line + 1 == lines[i],
        buf_bytes(results[i].path) == buf_bytes(path),
{
    assert(buf_bytes(results[i].path) == buf_bytes(path));
}

/// A text is searched as a whole exactly where matches can span lines, whatever the text is.
pub proof fn only_spanning_matches_need_the_whole_text(
    source: (Seq<char>, bool),
    settings: (u8, bool),
    buffer: nat,
    text: Seq<char>,
)
    ensures
        spans_lines(source.0, source.1, settings.1) ==> text_hits(source, settings, buffer, text)
            == slice_hits(source.0, source.1, settings, text),
        !spans_lines(source.0, source.1, settings.1) ==> text_hits(source, settings, buffer, text)
            == reader_hits(source.0, source.1, settings, buffer, text),
{
}

/// A new content search takes data with a NUL byte for binary and nothing else, and does not look
/// for matches that span lines.
pub proof fn a_content_search_quits_at_binary_data(search: ContentSearch)
    ensures
        search.is_set_up() <==> searcher_settings(search.searcher) == Some((0u8, false)),
        search.is_fresh() <==> buffer_len(search.searcher) == 65536,
{
}

} // verus!
