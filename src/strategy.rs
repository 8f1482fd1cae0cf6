//! The choice of notification strategy for a workspace root.

use vstd::prelude::*;
use crate::classify::{has_cloud_marker, is_cloud_marked, is_onedrive_path};
use crate::text::lower_of;

verus! {

/// Seconds between two re-scans under the polling strategy.
pub const POLL_INTERVAL_SECS: u64 = 2;

/// How a watch session learns of changes.
#[derive(Clone, Copy, Debug, PartialEq, Eq, Structural)]
pub enum NotificationStrategy {
    /// Push notifications from the operating system.
    Native,
    /// A periodic re-scan; with `compare_contents`, a file counts as changed
    /// only when its bytes differ, not merely its timestamp.
    Polling { interval_secs: u64, compare_contents: bool },
}

/// The strategy for a root whose lowercase form is `lower`.
pub open spec fn strategy_for(lower: Seq<char>) -> NotificationStrategy {
    if has_cloud_marker(lower) {
        NotificationStrategy::Polling { interval_secs: POLL_INTERVAL_SECS, compare_contents: true }
    } else {
        NotificationStrategy::Native
    }
}

fn strategy_of_marker(cloud: bool) -> (r: NotificationStrategy)
    ensures
        cloud ==> r == (NotificationStrategy::Polling {
            interval_secs: POLL_INTERVAL_SECS,
            compare_contents: true,
        }),
        !cloud ==> r == NotificationStrategy::Native,
{
    if cloud {
        NotificationStrategy::Polling { interval_secs: POLL_INTERVAL_SECS, compare_contents: true }
    } else {
        NotificationStrategy::Native
    }
}

/// Picks the strategy for an already-lowercased root: polling with content
/// comparison on cloud-sync storage, native notification elsewhere.
pub fn strategy_for_lowered(lower: &str) -> (r: NotificationStrategy)
    ensures
        r == strategy_for(lower@),
{
    strategy_of_marker(is_cloud_marked(lower))
}

/// Picks the strategy for a workspace root, once, before the session starts.
/// The choice depends on the root's text alone.
pub fn select_strategy(root: &str) -> (r: NotificationStrategy)
    ensures
        r == strategy_for(lower_of(root@)),
{
    strategy_of_marker(is_onedrive_path(root))
}

} // verus!
