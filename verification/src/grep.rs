//! The regular expressions of the `grep-regex` crate and the searcher of the `grep-searcher`
//! crate.
use grep_regex::{RegexMatcher, RegexMatcherBuilder};
use grep_searcher::{sinks, BinaryDetection, Searcher, SearcherBuilder};
use vstd::prelude::*;

verus! {

/// A compiled regular expression of the `grep-regex` crate, taken as an opaque value.
#[verifier::external_type_specification]
#[verifier::external_body]
pub struct ExRegexMatcher(RegexMatcher);

/// Why a regular expression could not be compiled, taken as an opaque value.
#[verifier::external_type_specification]
#[verifier::external_body]
pub struct ExRegexError(grep_regex::Error);

/// The line searcher of the `grep-searcher` crate, taken as an opaque value.
#[verifier::external_type_specification]
#[verifier::external_body]
pub struct ExSearcher(Searcher);

/// Whether a pattern compiles, with smart case on or off. The limit on the size of a compiled
/// pattern counts memory as on the platform that the library is compiled for.
pub uninterp spec fn pattern_compiles(pattern: Seq<char>, smart_case: bool) -> bool;

/// The pattern, and whether smart case was on, that a matcher was compiled from; `None` for a
/// matcher with any other setting changed.
pub uninterp spec fn matcher_source(matcher: RegexMatcher) -> Option<(Seq<char>, bool)>;

/// The byte at which a searcher takes data for binary and quits, and whether it looks for
/// matches that span lines; `None` for a searcher with any other setting changed.
pub uninterp spec fn searcher_settings(searcher: Searcher) -> Option<(u8, bool)>;

/// The length of a searcher's line buffer: how many bytes it reads at a time. The buffer is made
/// longer when a line does not fit in it.
pub uninterp spec fn buffer_len(searcher: Searcher) -> nat;

/// How many bytes a new searcher reads at a time.
pub const NEW_BUFFER_LEN: u64 = 65536;

/// Whether a text holds no such byte.
pub open spec fn is_free_of(text: Seq<char>, byte: u8) -> bool {
    !vstd::utf8::encode_utf8(text).contains(byte)
}

/// Whether a searcher that looks for matches that span lines, or does not, can find such
/// matches for this pattern.
pub uninterp spec fn spans_lines(pattern: Seq<char>, smart_case: bool, multi_line: bool) -> bool;

/// What a searcher with these settings reports of `text` for this pattern when it reads the
/// text as a stream, `buffer` bytes at a time at first: the numbers of the matching lines, and
/// the message of the error that ended the search, if one did.
pub uninterp spec fn reader_hits(
    pattern: Seq<char>,
    smart_case: bool,
    settings: (u8, bool),
    buffer: nat,
    text: Seq<char>,
) -> (Seq<u64>, Option<Seq<char>>);

/// What a searcher with these settings reports of `text` for this pattern, whose matches can
/// span lines, when it has the whole text at hand: the numbers of the matching lines, and the message of the error that
/// ended the search, if one did.
pub uninterp spec fn slice_hits(
    pattern: Seq<char>,
    smart_case: bool,
    settings: (u8, bool),
    text: Seq<char>,
) -> (Seq<u64>, Option<Seq<char>>);

/// How many line feeds a text holds.
pub open spec fn newlines(text: Seq<char>) -> nat
    decreases text.len(),
{
    if text.len() == 0 {
        0
    } else {
        newlines(text.drop_last()) + if text.last() == '\n' {
            1nat
        } else {
            0nat
        }
    }
}

/// Whether these can be the numbers of lines of `text` that a search reports: counted from
/// one, each line once and in order, and none beyond the last line.
pub open spec fn are_line_numbers(lines: Seq<u64>, text: Seq<char>) -> bool {
    &&& forall|i: int|
        0 <= i < lines.len() ==> 1 <= #[trigger] lines[i] <= vstd::utf8::encode_utf8(text).len()
    &&& forall|i: int| 0 <= i < lines.len() ==> #[trigger] lines[i] <= newlines(text) + 1
    &&& forall|i: int, j: int| 0 <= i < j < lines.len() ==> lines[i] < lines[j]
}

/// The numbers of the lines that a search reported.
pub struct LineLog {
    pub lines: Vec<u64>,
}

impl LineLog {
    /// A log without lines.
    pub fn new() -> (log: LineLog)
        ensures
            log.lines@ == Seq::<u64>::empty(),
    {
        LineLog { lines: Vec::new() }
    }

    /// Adds a line to the log, and says that the search shall go on.
    pub fn record(&mut self, line: u64) -> (go_on: bool)
        ensures
            final(self).lines@ == old(self).lines@.push(line),
            go_on,
    {
        self.lines.push(line);
        true
    }
}

/// What a search through a text reported.
pub struct LineHits {
    /// The numbers of the matching lines, counted from one.
    pub lines: Vec<u64>,
    /// The message of the error that ended the search, if one did.
    pub error: Option<String>,
}

impl LineHits {
    /// The lines, and the text of the error.
    pub open spec fn report(self) -> (Seq<u64>, Option<Seq<char>>) {
        (self.lines@, message_text(self.error))
    }
}

/// The text of a message, where there is one.
pub open spec fn message_text(message: Option<String>) -> Option<Seq<char>> {
    match message {
        Some(text) => Some(text@),
        None => None,
    }
}

/// Calls `RegexMatcherBuilder::build` with `case_smart` set: compiles the pattern. Which
/// patterns compile is left to `pattern_compiles`.
#[verifier::external_body]
pub(crate) fn build_matcher(pattern: &str, smart_case: bool) -> (matcher: Result<
    RegexMatcher,
    grep_regex::Error,
>)
    ensures
        matcher is Ok <==> pattern_compiles(pattern@, smart_case),
        matcher matches Ok(compiled) ==> matcher_source(compiled) == Some((pattern@, smart_case)),
{
    RegexMatcherBuilder::new().case_smart(smart_case).build(pattern)
}

/// Calls `RegexMatcher::clone`: a matcher for the same pattern.
#[verifier::external_body]
pub(crate) fn clone_matcher(matcher: &RegexMatcher) -> (copy: RegexMatcher)
    ensures
        matcher_source(copy) == matcher_source(*matcher),
{
    matcher.clone()
}

/// Calls `SearcherBuilder::build` with `BinaryDetection::quit` set: a searcher that takes data
/// with this byte for binary and quits, and has the default settings else: it does not look for
/// matches that span lines, and its buffer has the initial length.
#[verifier::external_body]
pub(crate) fn new_searcher(quit_byte: u8) -> (searcher: Searcher)
    ensures
        searcher_settings(searcher) == Some((quit_byte, false)),
        buffer_len(searcher) == NEW_BUFFER_LEN,
{
    SearcherBuilder::new().binary_detection(BinaryDetection::quit(quit_byte)).build()
}

/// Calls `Searcher::clone`: a searcher with the same settings, and a buffer of the same length.
#[verifier::external_body]
pub(crate) fn clone_searcher(searcher: &Searcher) -> (copy: Searcher)
    ensures
        searcher_settings(copy) == searcher_settings(*searcher),
        buffer_len(copy) == buffer_len(*searcher),
{
    searcher.clone()
}

/// Calls `Searcher::multi_line_with_matcher`, which says whether matches can span lines. They
/// cannot where the searcher does not look for such matches; where it does, that depends on the
/// pattern and is left to `spans_lines`.
#[verifier::external_body]
pub(crate) fn multi_line_with_matcher(searcher: &Searcher, matcher: &RegexMatcher) -> (spans: bool)
    requires
        searcher_settings(*searcher) is Some,
        matcher_source(*matcher) is Some,
    ensures
        spans == spans_lines(
            (matcher_source(*matcher)->0).0,
            (matcher_source(*matcher)->0).1,
            (searcher_settings(*searcher)->0).1,
        ),
        spans ==> (searcher_settings(*searcher)->0).1,
{
    searcher.multi_line_with_matcher(matcher)
}

/// Calls `Searcher::search_reader` on the bytes of the text with a `sinks::UTF8`, and keeps
/// the line numbers that it reports. They are counted from one and come in order, each line
/// once; which lines match, and how the search fails, is left to `reader_hits`. What is read
/// together with the byte for binary data is not searched, so the length of the buffer decides
/// how much before such a byte is; where the text has none, it changes nothing. How far the
/// buffer grows is left open.
#[verifier::external_body]
pub(crate) fn search_reader(
    searcher: &mut Searcher,
    matcher: &RegexMatcher,
    text: &str,
) -> (hits: LineHits)
    requires
        searcher_settings(*old(searcher)) is Some,
        matcher_source(*matcher) is Some,
    ensures
        searcher_settings(*final(searcher)) == searcher_settings(*old(searcher)),
        hits.report() == reader_hits(
            (matcher_source(*matcher)->0).0,
            (matcher_source(*matcher)->0).1,
            searcher_settings(*old(searcher))->0,
            buffer_len(*old(searcher)),
            text@,
        ),
        is_free_of(text@, (searcher_settings(*old(searcher))->0).0) ==> hits.report()
            == reader_hits(
            (matcher_source(*matcher)->0).0,
            (matcher_source(*matcher)->0).1,
            searcher_settings(*old(searcher))->0,
            NEW_BUFFER_LEN as nat,
            text@,
        ),
        are_line_numbers(hits.lines@, text@),
{
    let mut log = LineLog::new();
    let sink = sinks::UTF8(|line, _| Ok(log.record(line)));
    let error = match searcher.search_reader(matcher, text.as_bytes(), sink) {
        Ok(()) => None,
        Err(error) => Some(error.to_string()),
    };
    LineHits { lines: log.lines, error }
}

/// Calls `Searcher::search_slice` on the bytes of the text with a `sinks::UTF8`, and keeps the
/// line numbers that it reports. They are counted from one and come in order, each line once;
/// which lines match, and how the search fails, is left to `slice_hits`. It is called where
/// matches can span lines: the text is then searched as a whole, without the buffer.
#[verifier::external_body]
pub(crate) fn search_slice(
    searcher: &mut Searcher,
    matcher: &RegexMatcher,
    text: &str,
) -> (hits: LineHits)
    requires
        searcher_settings(*old(searcher)) is Some,
        matcher_source(*matcher) is Some,
        spans_lines(
            (matcher_source(*matcher)->0).0,
            (matcher_source(*matcher)->0).1,
            (searcher_settings(*old(searcher))->0).1,
        ),
    ensures
        searcher_settings(*final(searcher)) == searcher_settings(*old(searcher)),
        hits.report() == slice_hits(
            (matcher_source(*matcher)->0).0,
            (matcher_source(*matcher)->0).1,
            searcher_settings(*old(searcher))->0,
            text@,
        ),
        are_line_numbers(hits.lines@, text@),
{
    let mut log = LineLog::new();
    let sink = sinks::UTF8(|line, _| Ok(log.record(line)));
    let error = match searcher.search_slice(matcher, text.as_bytes(), sink) {
        Ok(()) => None,
        Err(error) => Some(error.to_string()),
    };
    LineHits { lines: log.lines, error }
}

/// A message keeps its text, and no text comes from nowhere.
pub proof fn a_message_keeps_its_text(message: Option<String>)
    ensures
        message matches Some(text) ==> message_text(message) == Some(text@),
        message is None <==> message_text(message) is None,
{
}

/// Counting line feeds: one more character adds one exactly where it is a line feed.
pub proof fn a_line_feed_more_counts(text: Seq<char>, c: char)
    ensures
        newlines(Seq::empty()) == 0,
        newlines(text.push(c)) == newlines(text) + if c == '\n' {
            1nat
        } else {
            0nat
        },
{
    assert(text.push(c).drop_last() =~= text);
}

} // verus!
