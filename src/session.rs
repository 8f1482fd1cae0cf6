//! The decisions of a watch session: the strategy it is created with, and
//! what it does with each notification its watcher delivers.

use vstd::prelude::*;
use crate::filter::{filter_batch, kept_paths};
use crate::paths::texts;
use crate::strategy::{select_strategy, strategy_for, NotificationStrategy};
use crate::text::lower_of;

verus! {

/// One delivery from the watcher: the paths of a change, or the watcher's
/// report of a failure for one notification.
pub enum WatchEvent {
    Changed(Vec<String>),
    Failed(String),
}

/// What the session does in answer to one delivery.
pub enum SessionAction {
    /// Send the batch, in order, as one change signal.
    Emit(Vec<String>),
    /// Log the failure and keep watching.
    Report(String),
    /// Nothing survived the filter: send nothing.
    Skip,
}

/// A session bound to one workspace root, with the strategy chosen for it
/// at creation. Neither changes for the session's lifetime.
pub struct WatchSession {
    root: String,
    strategy: NotificationStrategy,
}

impl WatchSession {
    /// The root the session watches.
    pub closed spec fn root_view(&self) -> Seq<char> {
        self.root@
    }

    /// The strategy the session was created with.
    pub closed spec fn strategy_view(&self) -> NotificationStrategy {
        self.strategy
    }

    /// Creates the session for `root`, choosing its strategy.
    pub fn new(root: String) -> (r: WatchSession)
        ensures
            r.root_view() == root@,
            r.strategy_view() == strategy_for(lower_of(root@)),
    {
        let strategy = select_strategy(root.as_str());
        WatchSession { root, strategy }
    }

    /// The root the session watches.
    pub fn root(&self) -> (r: &str)
        ensures
            r@ == self.root_view(),
    {
        self.root.as_str()
    }

    /// The strategy the session was created with.
    pub fn strategy(&self) -> (r: NotificationStrategy)
        ensures
            r == self.strategy_view(),
    {
        self.strategy
    }

    /// Decides what to do with one delivery. A change is filtered; a
    /// non-empty batch is emitted and an empty one gives no signal at all.
    /// A failure is reported and the session goes on.
    pub fn handle(&self, event: WatchEvent) -> (r: SessionAction)
        ensures
            match event {
                WatchEvent::Changed(paths) => {
                    let batch = kept_paths(texts(paths@), self.root_view());
                    if batch.len() == 0 {
                        r is Skip
                    } else {
                        r matches SessionAction::Emit(b) && texts(b@) == batch
                    }
                },
                WatchEvent::Failed(msg) => r matches SessionAction::Report(m) && m@ == msg@,
            },
    {
        match event {
            WatchEvent::Changed(paths) => {
                let batch = filter_batch(&paths, self.root.as_str());
                if batch.len() == 0 {
                    SessionAction::Skip
                } else {
                    SessionAction::Emit(batch)
                }
            },
            WatchEvent::Failed(msg) => SessionAction::Report(msg),
        }
    }
}

} // verus!
