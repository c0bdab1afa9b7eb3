//! Listing the files of a directory: where to walk, which entries count, and how the files
//! found are fed to the picker.
use crate::file_result::{as_path, buf_bytes, place, places, FileResult};
use crate::walker::{
    add_custom_ignore_filename, join, joined_path, new_builder, path_from, set_follow_links,
    set_git_exclude, set_git_global, set_git_ignore, set_hidden, set_ignore, set_max_depth,
    set_parents, walk_custom_ignores, walk_options, walk_roots, WalkOptions,
};
use ignore::WalkBuilder;
use std::path::PathBuf;
use vstd::prelude::*;

verus! {

/// How long, in milliseconds, files are fed to the picker before it is shown.
pub const FEED_TIMEOUT: u64 = 30;

/// The settings of the file picker.
#[derive(Clone, Copy, Debug, PartialEq, Eq, Structural)]
pub struct FilePickerConfig {
    pub hidden: bool,
    pub follow_symlinks: bool,
    pub deduplicate_links: bool,
    pub parents: bool,
    pub ignore: bool,
    pub git_ignore: bool,
    pub git_global: bool,
    pub git_exclude: bool,
    pub max_depth: Option<usize>,
}

/// A directory, as it was found on disk.
pub struct Directory {
    pub path: PathBuf,
    pub exists: bool,
    /// The path with all links resolved, where that was possible.
    pub canonical: Option<PathBuf>,
}

/// How a directory is to be walked.
pub struct WalkPlan {
    /// The walk, set up but for the filter on its entries.
    pub builder: WalkBuilder,
    /// What the filter measures entries against: the root, with all links resolved where that
    /// is possible.
    pub absolute_root: PathBuf,
    /// Whether the filter drops links to files that the walk visits anyway.
    pub deduplicate_links: bool,
}

impl Directory {
    /// The bytes of the path with all links resolved, or as it is where that failed.
    pub open spec fn resolved(self) -> Seq<u8> {
        match self.canonical {
            Some(path) => buf_bytes(path),
            None => buf_bytes(self.path),
        }
    }
}

/// The settings of a walk for these settings of the file picker.
pub open spec fn options_for(config: FilePickerConfig) -> WalkOptions {
    WalkOptions {
        hidden: config.hidden,
        parents: config.parents,
        ignore: config.ignore,
        follow_links: config.follow_symlinks,
        git_ignore: config.git_ignore,
        git_global: config.git_global,
        git_exclude: config.git_exclude,
        max_depth: config.max_depth,
        min_depth: None,
    }
}

/// Whether `plan` walks `directory` with the settings `config` and these additional ignore files.
pub open spec fn plans_walk(
    plan: WalkPlan,
    directory: Directory,
    config: FilePickerConfig,
    ignores: Seq<Seq<u8>>,
) -> bool {
    &&& walk_roots(plan.builder) == seq![buf_bytes(directory.path)]
    &&& walk_options(plan.builder) == options_for(config)
    &&& walk_custom_ignores(plan.builder) == ignores
    &&& buf_bytes(plan.absolute_root) == directory.resolved()
    &&& plan.deduplicate_links == config.deduplicate_links
}

/// The ignore files of a search through the contents of files: `ignore` in the configuration
/// directory, then `.helix/ignore` in each directory.
pub open spec fn content_search_ignores(config_dir: PathBuf) -> Seq<Seq<u8>> {
    seq![
        joined_path(buf_bytes(config_dir), "ignore"@),
        vstd::utf8::encode_utf8(".helix/ignore"@),
    ]
}

/// A walk through all files below `directory`.
pub fn list_walk(directory: Directory, config: &FilePickerConfig) -> (plan: WalkPlan)
    ensures
        plans_walk(plan, directory, *config, Seq::empty()),
        walk_options(plan.builder).hidden == config.hidden,
        walk_options(plan.builder).parents == config.parents,
        walk_options(plan.builder).ignore == config.ignore,
        walk_options(plan.builder).follow_links == config.follow_symlinks,
        walk_options(plan.builder).git_ignore == config.git_ignore,
        walk_options(plan.builder).git_global == config.git_global,
        walk_options(plan.builder).git_exclude == config.git_exclude,
        walk_options(plan.builder).max_depth == config.max_depth,
        walk_options(plan.builder).min_depth is None,
{
    let mut builder: WalkBuilder = new_builder(&directory.path);
    set_hidden(&mut builder, config.hidden);
    set_parents(&mut builder, config.parents);
    set_ignore(&mut builder, config.ignore);
    set_follow_links(&mut builder, config.follow_symlinks);
    set_git_ignore(&mut builder, config.git_ignore);
    set_git_global(&mut builder, config.git_global);
    set_git_exclude(&mut builder, config.git_exclude);
    set_max_depth(&mut builder, config.max_depth);
    let absolute_root: PathBuf = match directory.canonical {
        Some(path) => path,
        None => directory.path,
    };
    WalkPlan { builder, absolute_root, deduplicate_links: config.deduplicate_links }
}

/// A walk to search the contents of the files below `directory`: as [`list_walk`], with the ignore
/// files for content searches.
pub fn content_walk(
    directory: Directory,
    config_dir: &PathBuf,
    config: &FilePickerConfig,
) -> (plan: WalkPlan)
    ensures
        plans_walk(plan, directory, *config, content_search_ignores(*config_dir)),
        walk_options(plan.builder).hidden == config.hidden,
        walk_options(plan.builder).parents == config.parents,
        walk_options(plan.builder).ignore == config.ignore,
        walk_options(plan.builder).follow_links == config.follow_symlinks,
        walk_options(plan.builder).git_ignore == config.git_ignore,
        walk_options(plan.builder).git_global == config.git_global,
        walk_options(plan.builder).git_exclude == config.git_exclude,
        walk_options(plan.builder).max_depth == config.max_depth,
        walk_options(plan.builder).min_depth is None,
{
    let mut plan: WalkPlan = list_walk(directory, config);
    add_custom_ignore_filename(&mut plan.builder, &join(config_dir, "ignore"));
    add_custom_ignore_filename(&mut plan.builder, &path_from(".helix/ignore"));
    assert(walk_custom_ignores(plan.builder) =~= content_search_ignores(*config_dir));
    plan
}

/// What a walk found.
pub struct WalkEntry {
    pub path: PathBuf,
    /// Whether it is a file, where its type is known.
    pub is_file: Option<bool>,
}

/// Whether an entry counts: it could be read and is a file.
pub open spec fn is_listed(entry: Option<WalkEntry>) -> bool {
    entry is Some && entry->0.is_file == Some(true)
}

/// The entries that could be read and are files, in order.
pub open spec fn listed_entries(entries: Seq<Option<WalkEntry>>) -> Seq<Option<WalkEntry>>
    decreases entries.len(),
{
    if entries.len() == 0 {
        Seq::empty()
    } else if is_listed(entries[0]) {
        seq![entries[0]] + listed_entries(entries.drop_first())
    } else {
        listed_entries(entries.drop_first())
    }
}

/// Whether `file` is the picker's entry for the file that a walk found.
pub open spec fn is_entry_for(file: FileResult, entry: Option<WalkEntry>) -> bool {
    place(file) == (buf_bytes(entry->0.path), None::<usize>)
}

/// The picker's entry for what a walk found; `None` stands for an entry that could not be
/// read. Only files are listed.
pub fn listed_file(entry: Option<WalkEntry>) -> (result: Option<FileResult>)
    ensures
        result is Some <==> is_listed(entry),
        result matches Some(file) ==> is_entry_for(file, entry),
        result is Some <==> (entry matches Some(found) && found.is_file == Some(true)),
        result matches Some(file) ==> buf_bytes(file.path) == buf_bytes(entry->0.path)
            && file.line_num is None,
{
    match entry {
        None => None,
        Some(found) => match found.is_file {
            Some(true) => Some(FileResult::new(as_path(&found.path), None)),
            _ => None,
        },
    }
}

/// How far feeding has come.
#[derive(Clone, Copy, Debug, PartialEq, Eq, Structural)]
pub enum FeedPhase {
    /// Files are fed while the user waits.
    Foreground,
    /// The rest is fed in the background.
    Background,
    /// The picker takes no more.
    Stopped,
}

/// What came of handing one file to the picker.
#[derive(Clone, Copy, Debug, PartialEq, Eq, Structural)]
pub struct PushOutcome {
    /// Whether the picker took it; it does not once it is closed.
    pub accepted: bool,
    /// Whether the time for feeding in the foreground was over by then.
    pub past_deadline: bool,
}

/// The phase after one file was handed over.
pub open spec fn phase_after(phase: FeedPhase, outcome: PushOutcome) -> FeedPhase {
    if phase == FeedPhase::Stopped || !outcome.accepted {
        FeedPhase::Stopped
    } else if outcome.past_deadline {
        FeedPhase::Background
    } else {
        phase
    }
}

/// Decides how feeding goes on after one file was handed to the picker: it stops where the
/// picker is closed, and goes on in the background once the time is over.
pub fn feed_step(phase: FeedPhase, outcome: PushOutcome) -> (next: FeedPhase)
    ensures
        next == phase_after(phase, outcome),
{
    match phase {
        FeedPhase::Stopped => FeedPhase::Stopped,
        _ => if !outcome.accepted {
            FeedPhase::Stopped
        } else if outcome.past_deadline {
            FeedPhase::Background
        } else {
            phase
        },
    }
}

/// The phase in which a listing that can be cancelled begins.
pub open spec fn first_phase(cancelled: bool) -> FeedPhase {
    if cancelled {
        FeedPhase::Stopped
    } else {
        FeedPhase::Foreground
    }
}

/// The phase of a listing after one file was handed over, by when it may have been cancelled.
pub open spec fn listing_phase_after(
    phase: FeedPhase,
    outcome: PushOutcome,
    cancelled: bool,
) -> FeedPhase {
    if cancelled {
        FeedPhase::Stopped
    } else {
        phase_after(phase, outcome)
    }
}

/// Decides whether a listing begins: one that is cancelled already does not.
pub fn listing_start(cancelled: bool) -> (phase: FeedPhase)
    ensures
        phase == first_phase(cancelled),
{
    if cancelled {
        FeedPhase::Stopped
    } else {
        FeedPhase::Foreground
    }
}

/// Decides how a listing goes on after one file was handed to the picker: as [`feed_step`] says,
/// but it stops where it is cancelled.
pub fn listing_step(phase: FeedPhase, outcome: PushOutcome, cancelled: bool) -> (next: FeedPhase)
    ensures
        next == listing_phase_after(phase, outcome, cancelled),
{
    if cancelled {
        FeedPhase::Stopped
    } else {
        feed_step(phase, outcome)
    }
}

/// How many files a listing hands over, when handing over the `i`-th one comes out as
/// `outcomes[i]` and the flag that cancels the listing then reads `flags[i]`.
pub open spec fn files_listed(
    phase: FeedPhase,
    outcomes: Seq<PushOutcome>,
    flags: Seq<bool>,
) -> nat
    decreases outcomes.len(),
{
    if phase == FeedPhase::Stopped || outcomes.len() == 0 {
        0
    } else {
        1 + files_listed(
            listing_phase_after(phase, outcomes[0], flags[0]),
            outcomes.drop_first(),
            flags.drop_first(),
        )
    }
}

/// The files that a listing hands over from these entries of a walk, in order, when handing over
/// the `i`-th file comes out as `outcomes[i]` and the flag that cancels the listing then reads
/// `flags[i]`.
pub open spec fn handed_over(
    phase: FeedPhase,
    entries: Seq<Option<WalkEntry>>,
    outcomes: Seq<PushOutcome>,
    flags: Seq<bool>,
) -> Seq<Option<WalkEntry>>
    decreases entries.len(),
{
    if phase == FeedPhase::Stopped || entries.len() == 0 {
        Seq::empty()
    } else if !is_listed(entries[0]) {
        handed_over(phase, entries.drop_first(), outcomes, flags)
    } else {
        seq![entries[0]] + handed_over(
            listing_phase_after(phase, outcomes[0], flags[0]),
            entries.drop_first(),
            outcomes.drop_first(),
            flags.drop_first(),
        )
    }
}

/// A listing hands over the files of the walk in the order in which it finds them, from the first
/// one on and without leaving one out.
pub proof fn a_listing_hands_over_the_first_files(
    phase: FeedPhase,
    entries: Seq<Option<WalkEntry>>,
    outcomes: Seq<PushOutcome>,
    flags: Seq<bool>,
)
    requires
        outcomes.len() == listed_entries(entries).len(),
        flags.len() == outcomes.len(),
    ensures
        files_listed(phase, outcomes, flags) <= outcomes.len(),
        handed_over(phase, entries, outcomes, flags) == listed_entries(entries).take(
            files_listed(phase, outcomes, flags) as int,
        ),
    decreases entries.len(),
{
    let files = listed_entries(entries);
    if phase == FeedPhase::Stopped || entries.len() == 0 {
        assert(files.take(0) =~= Seq::empty());
    } else if !is_listed(entries[0]) {
        a_listing_hands_over_the_first_files(phase, entries.drop_first(), outcomes, flags);
    } else {
        let next = listing_phase_after(phase, outcomes[0], flags[0]);
        let rest = listed_entries(entries.drop_first());
        a_listing_hands_over_the_first_files(
            next,
            entries.drop_first(),
            outcomes.drop_first(),
            flags.drop_first(),
        );
        let n = files_listed(next, outcomes.drop_first(), flags.drop_first()) as int;
        assert(files =~= seq![entries[0]] + rest);
        assert(files.take(n + 1) =~= seq![entries[0]] + rest.take(n));
    }
}

/// What a listing hands over, whenever its deadline passes: all files of the walk, in order, where
/// the picker takes them and the listing is not cancelled; else those up to and including the one
/// that the picker refuses or after which the listing is found to be cancelled; none where it was
/// cancelled before it began.
pub proof fn a_listing_ends_at_a_refusal_or_when_cancelled(
    phase: FeedPhase,
    entries: Seq<Option<WalkEntry>>,
    outcomes: Seq<PushOutcome>,
    flags: Seq<bool>,
    n: int,
)
    requires
        phase != FeedPhase::Stopped,
        outcomes.len() == listed_entries(entries).len(),
        flags.len() == outcomes.len(),
        0 <= n <= outcomes.len(),
        forall|i: int| 0 <= i < n ==> (#[trigger] outcomes[i]).accepted,
        forall|i: int| 0 <= i < n ==> !#[trigger] flags[i],
    ensures
        n == outcomes.len() ==> handed_over(phase, entries, outcomes, flags) == listed_entries(
            entries,
        ),
        n < outcomes.len() && (!outcomes[n].accepted || flags[n]) ==> handed_over(
            phase,
            entries,
            outcomes,
            flags,
        ) == listed_entries(entries).take(n + 1),
        handed_over(first_phase(true), entries, outcomes, flags) == Seq::<
            Option<WalkEntry>,
        >::empty(),
{
    a_listing_hands_over_the_first_files(phase, entries, outcomes, flags);
    lemma_files_listed(phase, outcomes, flags, n);
    let files = listed_entries(entries);
    assert(files.take(files.len() as int) =~= files);
}

/// How many files are handed over: all, or those up to the first at which the listing ends.
proof fn lemma_files_listed(
    phase: FeedPhase,
    outcomes: Seq<PushOutcome>,
    flags: Seq<bool>,
    n: int,
)
    requires
        phase != FeedPhase::Stopped,
        flags.len() == outcomes.len(),
        0 <= n <= outcomes.len(),
        forall|i: int| 0 <= i < n ==> (#[trigger] outcomes[i]).accepted,
        forall|i: int| 0 <= i < n ==> !#[trigger] flags[i],
    ensures
        n == outcomes.len() ==> files_listed(phase, outcomes, flags) == n,
        n < outcomes.len() && (!outcomes[n].accepted || flags[n]) ==> files_listed(
            phase,
            outcomes,
            flags,
        ) == n + 1,
    decreases outcomes.len(),
{
    if outcomes.len() > 0 {
        let (outcomes1, flags1) = (outcomes.drop_first(), flags.drop_first());
        let next = listing_phase_after(phase, outcomes[0], flags[0]);
        if n > 0 {
            assert(outcomes[0].accepted && !flags[0]);
            assert forall|i: int| 0 <= i < n - 1 implies (#[trigger] outcomes1[i]).accepted by {
                assert(outcomes1[i] == outcomes[i + 1]);
            }
            assert forall|i: int| 0 <= i < n - 1 implies !#[trigger] flags1[i] by {
                assert(flags1[i] == flags[i + 1]);
            }
            lemma_files_listed(next, outcomes1, flags1, n - 1);
        } else if !outcomes[0].accepted || flags[0] {
            assert(files_listed(next, outcomes1, flags1) == 0);
        }
    }
}

/// The picker's entries for the files that a listing hands over are those of the first files of
/// the walk, in order, and stand for whole files.
pub proof fn listed_files_come_in_walk_order(
    phase: FeedPhase,
    entries: Seq<Option<WalkEntry>>,
    outcomes: Seq<PushOutcome>,
    flags: Seq<bool>,
    results: Seq<FileResult>,
    k: int,
)
    requires
        outcomes.len() == listed_entries(entries).len(),
        flags.len() == outcomes.len(),
        results.len() == handed_over(phase, entries, outcomes, flags).len(),
        forall|i: int|
            0 <= i < results.len() ==> is_entry_for(
                #[trigger] results[i],
                handed_over(phase, entries, outcomes, flags)[i],
            ),
        0 <= k < results.len(),
    ensures
        places(results)[k] == (buf_bytes(listed_entries(entries)[k]->0.path), None::<usize>),
{
    a_listing_hands_over_the_first_files(phase, entries, outcomes, flags);
    assert(is_entry_for(results[k], handed_over(phase, entries, outcomes, flags)[k]));
}

/// No file is handed over once the flag that cancels a listing is up: none where it is up from
/// the start, and none after the `k`-th where it is up when that one was handed over.
pub proof fn a_cancelled_listing_hands_over_no_more(
    phase: FeedPhase,
    outcomes: Seq<PushOutcome>,
    flags: Seq<bool>,
    k: int,
)
    requires
        flags.len() == outcomes.len(),
        0 <= k < flags.len(),
        flags[k],
    ensures
        files_listed(first_phase(true), outcomes, flags) == 0,
        files_listed(phase, outcomes, flags) <= k + 1,
    decreases outcomes.len(),
{
    let next = listing_phase_after(phase, outcomes[0], flags[0]);
    if k > 0 {
        assert(flags.drop_first()[k - 1] == flags[k]);
        a_cancelled_listing_hands_over_no_more(
            next,
            outcomes.drop_first(),
            flags.drop_first(),
            k - 1,
        );
    } else {
        assert(files_listed(next, outcomes.drop_first(), flags.drop_first()) == 0);
    }
}

/// A listing that is not cancelled hands over what feeding hands over.
pub proof fn a_listing_goes_on_until_it_is_cancelled(
    phase: FeedPhase,
    outcomes: Seq<PushOutcome>,
    flags: Seq<bool>,
)
    requires
        flags.len() == outcomes.len(),
        forall|i: int| 0 <= i < flags.len() ==> !#[trigger] flags[i],
    ensures
        first_phase(false) == FeedPhase::Foreground,
        files_listed(phase, outcomes, flags) == files_fed(phase, outcomes),
    decreases outcomes.len(),
{
    if outcomes.len() > 0 {
        let rest = flags.drop_first();
        assert(forall|i: int| 0 <= i < rest.len() ==> #[trigger] rest[i] == flags[i + 1]);
        a_listing_goes_on_until_it_is_cancelled(
            phase_after(phase, outcomes[0]),
            outcomes.drop_first(),
            rest,
        );
    }
}

/// How many files are handed over when handing over the `i`-th one comes out as `outcomes[i]`.
pub open spec fn files_fed(phase: FeedPhase, outcomes: Seq<PushOutcome>) -> nat
    decreases outcomes.len(),
{
    if phase == FeedPhase::Stopped || outcomes.len() == 0 {
        0
    } else {
        1 + files_fed(phase_after(phase, outcomes[0]), outcomes.drop_first())
    }
}

/// The deadline never loses a file: whenever it passes, every file is handed over up to and
/// including the first that the picker refuses, and none after that.
pub proof fn the_deadline_loses_no_file(phase: FeedPhase, outcomes: Seq<PushOutcome>, n: int)
    requires
        phase != FeedPhase::Stopped,
        0 <= n <= outcomes.len(),
        forall|i: int| 0 <= i < n ==> (#[trigger] outcomes[i]).accepted,
    ensures
        n == outcomes.len() ==> files_fed(phase, outcomes) == n,
        n < outcomes.len() && !outcomes[n].accepted ==> files_fed(phase, outcomes) == n + 1,
    decreases outcomes.len(),
{
    if outcomes.len() > 0 {
        let rest = outcomes.drop_first();
        let next = phase_after(phase, outcomes[0]);
        if n > 0 {
            assert(forall|i: int| 0 <= i < rest.len() ==> #[trigger] rest[i] == outcomes[i + 1]);
            the_deadline_loses_no_file(next, rest, n - 1);
        } else if !outcomes[0].accepted {
            assert(files_fed(next, rest) == 0);
        }
    }
}

/// Once feeding has moved to the background it does not come back.
pub proof fn feeding_does_not_return_to_the_foreground(phase: FeedPhase, outcome: PushOutcome)
    requires
        phase != FeedPhase::Foreground,
    ensures
        phase_after(phase, outcome) != FeedPhase::Foreground,
{
}

/// A walk follows the settings, each by itself and whatever the others are: its options are the
/// settings of the same name. It begins at the directory and nowhere else, with exactly these
/// additional ignore files, and its filter measures against the directory with its links resolved
/// where that was possible.
pub proof fn a_walk_follows_each_setting(
    plan: WalkPlan,
    directory: Directory,
    config: FilePickerConfig,
    ignores: Seq<Seq<u8>>,
)
    requires
        plans_walk(plan, directory, config, ignores),
    ensures
        walk_options(plan.builder).hidden == config.hidden,
        walk_options(plan.builder).parents == config.parents,
        walk_options(plan.builder).ignore == config.ignore,
        walk_options(plan.builder).follow_links == config.follow_symlinks,
        walk_options(plan.builder).git_ignore == config.git_ignore,
        walk_options(plan.builder).git_global == config.git_global,
        walk_options(plan.builder).git_exclude == config.git_exclude,
        walk_options(plan.builder).max_depth == config.max_depth,
        walk_options(plan.builder).min_depth is None,
        walk_roots(plan.builder).len() == 1,
        walk_roots(plan.builder)[0] == buf_bytes(directory.path),
        walk_custom_ignores(plan.builder) == ignores,
        plan.deduplicate_links == config.deduplicate_links,
        directory.canonical matches Some(path) ==> buf_bytes(plan.absolute_root) == buf_bytes(path),
        directory.canonical is None ==> buf_bytes(plan.absolute_root) == buf_bytes(directory.path),
{
}

/// Changing one setting changes that one option of the walk and no other: the walks for two
/// configurations agree in each option in which the configurations agree, and differ in each in
/// which they differ.
pub proof fn settings_do_not_affect_each_other(a: FilePickerConfig, b: FilePickerConfig)
    ensures
        options_for(a).hidden == options_for(b).hidden <==> a.hidden == b.hidden,
        options_for(a).parents == options_for(b).parents <==> a.parents == b.parents,
        options_for(a).ignore == options_for(b).ignore <==> a.ignore == b.ignore,
        options_for(a).follow_links == options_for(b).follow_links <==> a.follow_symlinks
            == b.follow_symlinks,
        options_for(a).git_ignore == options_for(b).git_ignore <==> a.git_ignore == b.git_ignore,
        options_for(a).git_global == options_for(b).git_global <==> a.git_global == b.git_global,
        options_for(a).git_exclude == options_for(b).git_exclude <==> a.git_exclude
            == b.git_exclude,
        options_for(a).max_depth == options_for(b).max_depth <==> a.max_depth == b.max_depth,
        options_for(a).min_depth == options_for(b).min_depth,
{
}

/// A content search heeds two additional ignore files, wherever the configuration lies: the one in
/// the configuration directory, and then the one in each directory of the walk.
pub proof fn a_content_search_has_two_ignore_files(config_dir: PathBuf)
    ensures
        content_search_ignores(config_dir).len() == 2,
        content_search_ignores(config_dir)[0] == joined_path(buf_bytes(config_dir), "ignore"@),
        content_search_ignores(config_dir)[1] == vstd::utf8::encode_utf8(".helix/ignore"@),
{
}

/// Only files count: not what could not be read, what is no file, or what has no known type. The
/// path does not matter.
pub proof fn exactly_the_files_count(entry: Option<WalkEntry>)
    ensures
        is_listed(entry) <==> (entry matches Some(found) && found.is_file == Some(true)),
{
}

/// The entry for a file stands for the whole file at that path.
pub proof fn a_listed_file_has_no_line(file: FileResult, entry: Option<WalkEntry>)
    requires
        is_entry_for(file, entry),
    ensures
        file.line_num is None,
        buf_bytes(file.path) == buf_bytes(entry->0.path),
{
}

/// Feeding ends exactly with the first file that is refused and does not begin again; while it
/// goes on, it is in the background exactly once the time was over.
pub proof fn feeding_ends_only_at_a_refusal(phase: FeedPhase, outcome: PushOutcome)
    ensures
        phase_after(phase, outcome) is Stopped <==> phase is Stopped || !outcome.accepted,
        phase_after(phase, outcome) is Background <==> outcome.accepted && (phase is Background || (
        phase is Foreground && outcome.past_deadline)),
        phase_after(phase, outcome) is Foreground <==> outcome.accepted && phase is Foreground
            && !outcome.past_deadline,
{
}

/// Cancelling is all that tells a listing from feeding: a cancelled one is stopped, and one that is
/// not cancelled begins in the foreground and ends only at a refusal.
pub proof fn only_cancelling_ends_a_listing_early(
    phase: FeedPhase,
    outcome: PushOutcome,
    cancelled: bool,
)
    ensures
        first_phase(cancelled) is Stopped <==> cancelled,
        first_phase(cancelled) is Foreground <==> !cancelled,
        listing_phase_after(phase, outcome, cancelled) is Stopped <==> cancelled || phase is Stopped
            || !outcome.accepted,
        listing_phase_after(phase, outcome, cancelled) is Background <==> !cancelled
            && outcome.accepted && (phase is Background || (phase is Foreground
            && outcome.past_deadline)),
{
}

/// Listing goes entry by entry: what is listed of two walks after each other is what is listed of
/// the first, then what is listed of the second; and of a single entry it is that entry, where it
/// is a file.
pub proof fn entries_are_listed_one_by_one(
    first: Seq<Option<WalkEntry>>,
    second: Seq<Option<WalkEntry>>,
    entry: Option<WalkEntry>,
)
    ensures
        listed_entries(first + second) == listed_entries(first) + listed_entries(second),
        listed_entries(seq![entry]) == (if entry matches Some(found) && found.is_file == Some(
            true,
        ) {
            seq![entry]
        } else {
            Seq::empty()
        }),
    decreases first.len(),
{
    assert(seq![entry].drop_first() =~= Seq::empty());
    assert(listed_entries(seq![entry].drop_first()) =~= Seq::empty());
    if first.len() == 0 {
        assert(first + second =~= second);
    } else {
        entries_are_listed_one_by_one(first.drop_first(), second, entry);
        assert((first + second).drop_first() =~= first.drop_first() + second);
        assert(listed_entries(first + second) =~= listed_entries(first) + listed_entries(second));
    }
}

/// The user waits for thirty milliseconds at most before the rest is fed in the background.
pub proof fn the_user_does_not_wait_long()
    ensures
        FEED_TIMEOUT == 30,
{
}

} // verus!
