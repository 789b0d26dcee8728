//! The bridge to the change watcher.
//!
//! The watcher itself lives with the host. It hands over what it has seen
//! since the last poll; however many changes that is, they call for one
//! rescan. The host also asks here whether the watcher still watches the
//! right root.

use crate::text::same_text;
use vstd::prelude::*;
use vstd::string::StringExecFns;

verus! {

/// One notification of the watcher: something changed below the root, or the
/// watcher reports an error.
#[derive(Clone, Debug, PartialEq, Eq)]
pub enum WatchSignal {
    Changed,
    Failed { message: String },
}

/// What a [`WatchSignal`] holds, as text.
pub enum WatchSignalView {
    Changed,
    Failed { message: Seq<char> },
}

impl View for WatchSignal {
    type V = WatchSignalView;

    open spec fn view(&self) -> WatchSignalView {
        match self {
            Self::Changed => WatchSignalView::Changed,
            Self::Failed { message } => WatchSignalView::Failed { message: message@ },
        }
    }
}

impl DeepView for WatchSignal {
    type V = WatchSignalView;

    open spec fn deep_view(&self) -> WatchSignalView {
        self@
    }
}

/// What a poll of the watcher comes to.
#[derive(Clone, Debug, PartialEq, Eq)]
pub struct Drained {
    /// The lists of installed mods are to be read again.
    pub refresh: bool,
    /// The error that the watcher reported last, if it reported one.
    pub error: Option<String>,
}

/// One of the signals is a change.
pub open spec fn any_change(signals: Seq<WatchSignalView>) -> bool {
    exists|i: int| 0 <= i < signals.len() && #[trigger] signals[i] is Changed
}

/// The message of the last error among the signals.
pub open spec fn last_failure(signals: Seq<WatchSignalView>) -> Option<Seq<char>>
    decreases signals.len(),
{
    if signals.len() == 0 {
        None
    } else {
        match signals.last() {
            WatchSignalView::Failed { message } => Some(message),
            WatchSignalView::Changed => last_failure(signals.drop_last()),
        }
    }
}

/// Drains what the watcher has seen: a rescan is due exactly if something
/// changed, however often; of the errors the last one is kept.
pub fn process_fs_events(signals: &Vec<WatchSignal>) -> (r: Drained)
    ensures
        r.refresh == any_change(signals.deep_view()),
        r.error.deep_view() == last_failure(signals.deep_view()),
{
    let mut refresh = false;
    let mut error: Option<String> = None;
    let mut i: usize = 0;
    while i < signals.len()
        invariant
            0 <= i <= signals.len(),
            refresh == any_change(signals.deep_view().take(i as int)),
            error.deep_view() == last_failure(signals.deep_view().take(i as int)),
        decreases signals.len() - i,
    {
        let ghost done = signals.deep_view().take(i as int);
        let ghost next = signals.deep_view().take(i + 1);
        proof {
            assert(next.drop_last() =~= done);
            assert(next.last() == signals[i as int]@);
            if any_change(done) {
                let k = choose|k: int| 0 <= k < done.len() && #[trigger] done[k] is Changed;
                assert(next[k] is Changed);
            }
            if any_change(next) && !(signals[i as int]@ is Changed) {
                let k = choose|k: int| 0 <= k < next.len() && #[trigger] next[k] is Changed;
                assert(done[k] is Changed);
            }
        }
        match &signals[i] {
            WatchSignal::Changed => {
                assert(next[i as int] is Changed);
                refresh = true;
            },
            WatchSignal::Failed { message } => {
                error = Some(message.clone());
            },
        }
        i = i + 1;
    }
    assert(signals.deep_view().take(signals.len() as int) =~= signals.deep_view());
    Drained { refresh, error }
}

/// Polling in two goes calls for a rescan exactly if polling in one go
/// does: a backlog collapses to a single rescan.
pub proof fn lemma_changes_coalesce(first: Seq<WatchSignalView>, second: Seq<WatchSignalView>)
    ensures
        any_change(first + second) == (any_change(first) || any_change(second)),
{
    let both = first + second;
    if any_change(first) {
        let k = choose|k: int| 0 <= k < first.len() && #[trigger] first[k] is Changed;
        assert(both[k] is Changed);
    }
    if any_change(second) {
        let k = choose|k: int| 0 <= k < second.len() && #[trigger] second[k] is Changed;
        assert(both[first.len() + k] is Changed);
    }
    if any_change(both) {
        let k = choose|k: int| 0 <= k < both.len() && #[trigger] both[k] is Changed;
        if k < first.len() {
            assert(first[k] is Changed);
        } else {
            assert(second[k - first.len()] is Changed);
        }
    }
}

/// What is to be done about the watcher.
#[derive(Clone, Debug, PartialEq, Eq)]
pub enum WatchPlan {
    /// The watcher watches the right root already.
    Keep,
    /// The watcher, if there is one, is dropped; the root is not there.
    Stop,
    /// The watcher, if there is one, is dropped, and a new one is started
    /// on the root.
    Start { root: String },
}

/// What a [`WatchPlan`] holds, as text.
pub enum WatchPlanView {
    Keep,
    Stop,
    Start { root: Seq<char> },
}

impl View for WatchPlan {
    type V = WatchPlanView;

    open spec fn view(&self) -> WatchPlanView {
        match self {
            Self::Keep => WatchPlanView::Keep,
            Self::Stop => WatchPlanView::Stop,
            Self::Start { root } => WatchPlanView::Start { root: root@ },
        }
    }
}

/// The watcher is kept while it watches the mods root; otherwise it is
/// dropped, and a new one is started if the root exists.
pub open spec fn spec_sync_fs_watcher(
    watched: Option<Seq<char>>,
    root: Seq<char>,
    root_exists: bool,
) -> WatchPlanView {
    if watched == Some(root) {
        WatchPlanView::Keep
    } else if !root_exists {
        WatchPlanView::Stop
    } else {
        WatchPlanView::Start { root }
    }
}

/// Decides what is to be done about the watcher, given the root that it
/// watches, the mods root, and whether the mods root exists.
pub fn sync_fs_watcher(watched: &Option<String>, root: &str, root_exists: bool) -> (r: WatchPlan)
    ensures
        r@ == spec_sync_fs_watcher(watched.deep_view(), root@, root_exists),
{
    let same = match watched {
        Some(current) => same_text(current.as_str(), root),
        None => false,
    };
    if same {
        WatchPlan::Keep
    } else if !root_exists {
        WatchPlan::Stop
    } else {
        WatchPlan::Start { root: String::from_str(root) }
    }
}

/// A watcher that could not be started is reported once for each root: the
/// failure is told unless the last failure told was for the same root.
pub open spec fn spec_report_watcher_failure(reported_for: Option<Seq<char>>, root: Seq<char>) -> bool {
    reported_for != Some(root)
}

/// Tells whether the failure to start a watcher on `root` is to be told,
/// given the root whose failure was told last.
pub fn report_watcher_failure(reported_for: &Option<String>, root: &str) -> (r: bool)
    ensures
        r == spec_report_watcher_failure(reported_for.deep_view(), root@),
{
    match reported_for {
        Some(last) => !same_text(last.as_str(), root),
        None => true,
    }
}

} // verus!
