//! The directory walker of the `ignore` crate, and its settings.
use crate::file_result::buf_bytes;
use ignore::WalkBuilder;
use std::path::PathBuf;
use vstd::prelude::*;

verus! {

/// The builder of a directory walk of the `ignore` crate, taken as an opaque value.
#[verifier::external_type_specification]
#[verifier::external_body]
pub struct ExWalkBuilder(WalkBuilder);

/// The settings of a walk that decide which entries it visits.
#[derive(Clone, Copy, Debug, PartialEq, Eq, Structural)]
pub struct WalkOptions {
    /// Whether hidden files are skipped.
    pub hidden: bool,
    /// Whether ignore files in the parents of the root hold.
    pub parents: bool,
    /// Whether `.ignore` files hold.
    pub ignore: bool,
    /// Whether symbolic links are followed.
    pub follow_links: bool,
    /// Whether `.gitignore` files hold.
    pub git_ignore: bool,
    /// Whether the user's global git ignore file holds.
    pub git_global: bool,
    /// Whether `.git/info/exclude` files hold.
    pub git_exclude: bool,
    /// How deep the walk goes.
    pub max_depth: Option<usize>,
    /// How deep an entry must lie to be visited.
    pub min_depth: Option<usize>,
}

/// The settings that a builder holds.
pub uninterp spec fn walk_options(builder: WalkBuilder) -> WalkOptions;

/// The bytes of the paths at which a builder's walk begins.
pub uninterp spec fn walk_roots(builder: WalkBuilder) -> Seq<Seq<u8>>;

/// The bytes of the names of a builder's additional ignore files, in the order they were added.
pub uninterp spec fn walk_custom_ignores(builder: WalkBuilder) -> Seq<Seq<u8>>;

/// The bytes of a path that was joined from a path with these bytes and a name, by the rules of
/// the platform that the library is compiled for.
pub uninterp spec fn joined_path(base: Seq<u8>, name: Seq<char>) -> Seq<u8>;

/// The settings that a new builder holds.
pub open spec fn default_walk_options() -> WalkOptions {
    WalkOptions {
        hidden: true,
        parents: true,
        ignore: true,
        follow_links: false,
        git_ignore: true,
        git_global: true,
        git_exclude: true,
        max_depth: None,
        min_depth: None,
    }
}

/// Whether a builder became another one by taking on these settings, and nothing else changed.
pub open spec fn set_to(before: WalkBuilder, after: WalkBuilder, options: WalkOptions) -> bool {
    &&& walk_options(after) == options
    &&& walk_roots(after) == walk_roots(before)
    &&& walk_custom_ignores(after) == walk_custom_ignores(before)
}

/// Calls `WalkBuilder::new`: a walk that begins at `root`, with the default settings and no
/// additional ignore files.
#[verifier::external_body]
pub(crate) fn new_builder(root: &PathBuf) -> (builder: WalkBuilder)
    ensures
        walk_options(builder) == default_walk_options(),
        walk_roots(builder) == seq![buf_bytes(*root)],
        walk_custom_ignores(builder) == Seq::<Seq<u8>>::empty(),
{
    WalkBuilder::new(root)
}

/// Calls `WalkBuilder::hidden`, which sets this one setting.
#[verifier::external_body]
pub(crate) fn set_hidden(builder: &mut WalkBuilder, yes: bool)
    ensures
        set_to(
            *old(builder),
            *final(builder),
            WalkOptions { hidden: yes, ..walk_options(*old(builder)) },
        ),
{
    builder.hidden(yes);
}

/// Calls `WalkBuilder::parents`, which sets this one setting.
#[verifier::external_body]
pub(crate) fn set_parents(builder: &mut WalkBuilder, yes: bool)
    ensures
        set_to(
            *old(builder),
            *final(builder),
            WalkOptions { parents: yes, ..walk_options(*old(builder)) },
        ),
{
    builder.parents(yes);
}

/// Calls `WalkBuilder::ignore`, which sets this one setting.
#[verifier::external_body]
pub(crate) fn set_ignore(builder: &mut WalkBuilder, yes: bool)
    ensures
        set_to(
            *old(builder),
            *final(builder),
            WalkOptions { ignore: yes, ..walk_options(*old(builder)) },
        ),
{
    builder.ignore(yes);
}

/// Calls `WalkBuilder::follow_links`, which sets this one setting.
#[verifier::external_body]
pub(crate) fn set_follow_links(builder: &mut WalkBuilder, yes: bool)
    ensures
        set_to(
            *old(builder),
            *final(builder),
            WalkOptions { follow_links: yes, ..walk_options(*old(builder)) },
        ),
{
    builder.follow_links(yes);
}

/// Calls `WalkBuilder::git_ignore`, which sets this one setting.
#[verifier::external_body]
pub(crate) fn set_git_ignore(builder: &mut WalkBuilder, yes: bool)
    ensures
        set_to(
            *old(builder),
            *final(builder),
            WalkOptions { git_ignore: yes, ..walk_options(*old(builder)) },
        ),
{
    builder.git_ignore(yes);
}

/// Calls `WalkBuilder::git_global`, which sets this one setting.
#[verifier::external_body]
pub(crate) fn set_git_global(builder: &mut WalkBuilder, yes: bool)
    ensures
        set_to(
            *old(builder),
            *final(builder),
            WalkOptions { git_global: yes, ..walk_options(*old(builder)) },
        ),
{
    builder.git_global(yes);
}

/// Calls `WalkBuilder::git_exclude`, which sets this one setting.
#[verifier::external_body]
pub(crate) fn set_git_exclude(builder: &mut WalkBuilder, yes: bool)
    ensures
        set_to(
            *old(builder),
            *final(builder),
            WalkOptions { git_exclude: yes, ..walk_options(*old(builder)) },
        ),
{
    builder.git_exclude(yes);
}

/// Calls `WalkBuilder::max_depth`, which sets this one setting where no minimum depth was set.
#[verifier::external_body]
pub(crate) fn set_max_depth(builder: &mut WalkBuilder, depth: Option<usize>)
    requires
        walk_options(*old(builder)).min_depth is None,
    ensures
        set_to(
            *old(builder),
            *final(builder),
            WalkOptions { max_depth: depth, ..walk_options(*old(builder)) },
        ),
{
    builder.max_depth(depth);
}

/// Calls `WalkBuilder::add_custom_ignore_filename`, which appends the name to the additional
/// ignore files.
#[verifier::external_body]
pub(crate) fn add_custom_ignore_filename(builder: &mut WalkBuilder, name: &PathBuf)
    ensures
        walk_options(*final(builder)) == walk_options(*old(builder)),
        walk_roots(*final(builder)) == walk_roots(*old(builder)),
        walk_custom_ignores(*final(builder)) == walk_custom_ignores(*old(builder)).push(
            buf_bytes(*name),
        ),
{
    builder.add_custom_ignore_filename(name);
}

/// Calls `Path::join`: the path of `name` below `base`.
#[verifier::external_body]
pub(crate) fn join(base: &PathBuf, name: &str) -> (path: PathBuf)
    ensures
        buf_bytes(path) == joined_path(buf_bytes(*base), name@),
{
    base.join(name)
}

/// Calls `PathBuf::from` on a string: the path that holds the bytes of the string.
#[verifier::external_body]
pub(crate) fn path_from(name: &str) -> (path: PathBuf)
    ensures
        buf_bytes(path) == vstd::utf8::encode_utf8(name@),
{
    PathBuf::from(name)
}

} // verus!
