//! The fuzzy matcher that keeps the entries and picks those that fit the path prompt.
use crate::file_result::FileResult;
use nucleo::Nucleo;
use vstd::prelude::*;

verus! {

/// The matcher worker of the `nucleo` crate, taken as an opaque value.
#[verifier::external_type_specification]
#[verifier::external_body]
#[verifier::reject_recursive_types(T)]
pub struct ExNucleo<T: Sync + Send + 'static>(Nucleo<T>);

/// How many entries match in the snapshot that a matcher shows.
pub uninterp spec fn matched_count(matcher: Nucleo<FileResult>) -> u32;

/// How many entries there are in the snapshot that a matcher shows.
pub uninterp spec fn total_count(matcher: Nucleo<FileResult>) -> u32;

/// Whether a matcher was restarted and has not been ticked since: the entries it had are gone
/// from it, and its snapshot still stands for them.
pub uninterp spec fn is_restarted(matcher: Nucleo<FileResult>) -> bool;

/// How far a matcher has come after a tick.
#[derive(Clone, Copy, Debug, PartialEq, Eq, Structural)]
pub struct Status {
    /// Whether the snapshot may have changed.
    pub changed: bool,
    /// Whether the matcher is still working in the background.
    pub running: bool,
}

/// Calls `Nucleo::tick`, which waits up to `timeout` milliseconds for the background workers
/// and takes over what they have found. The snapshot is only replaced where the status says
/// that it changed, and a restart before is taken over. What the workers have found by then is
/// left open: it depends on time.
#[verifier::external_body]
pub(crate) fn tick(matcher: &mut Nucleo<FileResult>, timeout: u64) -> (status: Status)
    ensures
        !is_restarted(*final(matcher)),
        !status.changed ==> matched_count(*final(matcher)) == matched_count(*old(matcher)),
        !status.changed ==> total_count(*final(matcher)) == total_count(*old(matcher)),
{
    let status = matcher.tick(timeout);
    Status { changed: status.changed, running: status.running }
}

/// Calls `Nucleo::restart`: the entries are dropped, and injectors made before no longer reach
/// the matcher. The snapshot is emptied at once where `clear_snapshot` asks for it, and else
/// shows what it showed until the next tick that changes it. What new injectors push is not
/// spoken of: workers do that at any time.
#[verifier::external_body]
pub(crate) fn restart(matcher: &mut Nucleo<FileResult>, clear_snapshot: bool)
    ensures
        is_restarted(*final(matcher)),
        matched_count(*final(matcher)) == (if clear_snapshot {
            0
        } else {
            matched_count(*old(matcher))
        }),
        total_count(*final(matcher)) == (if clear_snapshot {
            0
        } else {
            total_count(*old(matcher))
        }),
{
    matcher.restart(clear_snapshot)
}

/// Calls `Snapshot::matched_item_count` on the matcher's snapshot: the number of entries in it
/// that match.
#[verifier::external_body]
pub(crate) fn matched_item_count(matcher: &Nucleo<FileResult>) -> (count: u32)
    ensures
        count == matched_count(*matcher),
{
    matcher.snapshot().matched_item_count()
}

/// Calls `Snapshot::item_count` on the matcher's snapshot: the number of entries in it.
#[verifier::external_body]
pub(crate) fn item_count(matcher: &Nucleo<FileResult>) -> (count: u32)
    ensures
        count == total_count(*matcher),
{
    matcher.snapshot().item_count()
}

} // verus!
