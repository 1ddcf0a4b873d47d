//! When and how the network graph is brought up to date.

use crate::config::{join, rapid_sync_path};
use crate::text::{decimal, decimal_string};
use vstd::prelude::*;
use vstd::string::*;

verus! {

/// How old the network graph may become, in seconds.
pub const SYNC_INTERVAL_SECS: u64 = 300;

/// What has been tried to bring the graph up to date.
#[derive(Debug, PartialEq, Eq, Structural, Clone, Copy)]
pub enum SyncStage {
    /// Nothing yet.
    Start,
    /// The changes since the last time have been fetched.
    Changes,
    /// The whole graph has been fetched.
    Whole,
    /// Nothing more is tried.
    Done,
}

/// What has happened.
#[derive(Debug, PartialEq, Eq, Structural, Clone, Copy)]
pub enum SyncEvent {
    /// The graph is wanted now. The graph was last brought up to date at this time, if ever; both
    /// times in seconds since the epoch.
    Wanted { now_secs: u64, last_secs: Option<u32> },
    /// What was fetched has been applied to the graph.
    Applied,
    /// What was fetched could not be applied to the graph.
    Rejected,
}

/// What is to be done next.
#[derive(Debug)]
pub enum SyncAction {
    /// Nothing: the graph is up to date.
    UpToDate,
    /// Fetch from this address, write what comes to this file, and apply it. Remove the file first
    /// where a former try has left it.
    Fetch { url: String, file: String, remove_first: bool },
    /// Nothing: the graph cannot be brought up to date.
    GiveUp,
    /// Wait for what was asked for.
    Wait,
}

/// What a `SyncAction` says.
#[verifier::ext_equal]
pub enum SyncActionView {
    UpToDate,
    Fetch { url: Seq<char>, file: Seq<char>, remove_first: bool },
    GiveUp,
    Wait,
}

impl View for SyncAction {
    type V = SyncActionView;

    open spec fn view(&self) -> SyncActionView {
        match self {
            SyncAction::UpToDate => SyncActionView::UpToDate,
            SyncAction::Fetch { url, file, remove_first } => SyncActionView::Fetch {
                url: url@,
                file: file@,
                remove_first: *remove_first,
            },
            SyncAction::GiveUp => SyncActionView::GiveUp,
            SyncAction::Wait => SyncActionView::Wait,
        }
    }
}

/// The time of the last update, zero for a graph that was never brought up to date.
pub open spec fn last_update(last_secs: Option<u32>) -> u64 {
    match last_secs {
        Some(t) => t as u64,
        None => 0,
    }
}

/// Whether a graph is still fresh: it has been brought up to date at some time, and less than five
/// minutes ago. A time in the future counts as now.
pub open spec fn is_fresh(now_secs: u64, last_secs: Option<u32>) -> bool {
    &&& last_update(last_secs) != 0
    &&& now_secs < last_update(last_secs) + 300
}

/// What follows an event: the next stage and the action.
pub open spec fn sync_transition(
    stage: SyncStage,
    event: SyncEvent,
    url: Seq<char>,
    data_dir: Seq<char>,
) -> (SyncStage, SyncActionView) {
    let file = data_dir + "/rapid_sync.lngossip"@;
    match (stage, event) {
        (SyncStage::Start, SyncEvent::Wanted { now_secs, last_secs }) => if is_fresh(
            now_secs,
            last_secs,
        ) {
            (SyncStage::Done, SyncActionView::UpToDate)
        } else {
            (
                SyncStage::Changes,
                SyncActionView::Fetch {
                    url: url + decimal(last_update(last_secs) as nat),
                    file,
                    remove_first: false,
                },
            )
        },
        (SyncStage::Changes, SyncEvent::Applied) => (SyncStage::Done, SyncActionView::UpToDate),
        (SyncStage::Changes, SyncEvent::Rejected) => (
            SyncStage::Whole,
            SyncActionView::Fetch { url: url + seq!['0'], file, remove_first: true },
        ),
        (SyncStage::Whole, SyncEvent::Applied) => (SyncStage::Done, SyncActionView::UpToDate),
        (SyncStage::Whole, SyncEvent::Rejected) => (SyncStage::Done, SyncActionView::GiveUp),
        _ => (stage, SyncActionView::Wait),
    }
}

/// The stage that a run of events leads to.
pub open spec fn stage_after(events: Seq<SyncEvent>, url: Seq<char>, data_dir: Seq<char>) -> SyncStage
    decreases events.len(),
{
    if events.len() == 0 {
        SyncStage::Start
    } else {
        sync_transition(
            stage_after(events.drop_last(), url, data_dir),
            events.last(),
            url,
            data_dir,
        ).0
    }
}

/// How many times something has been fetched in the course of a run of events.
pub open spec fn fetches(events: Seq<SyncEvent>, url: Seq<char>, data_dir: Seq<char>) -> nat
    decreases events.len(),
{
    if events.len() == 0 {
        0
    } else {
        fetches(events.drop_last(), url, data_dir) + if sync_transition(
            stage_after(events.drop_last(), url, data_dir),
            events.last(),
            url,
            data_dir,
        ).1 is Fetch {
            1nat
        } else {
            0nat
        }
    }
}

/// Whatever happens, something is fetched at most twice before the graph is up to date or given
/// up.
pub proof fn law_at_most_two_fetches(events: Seq<SyncEvent>, url: Seq<char>, data_dir: Seq<char>)
    ensures
        fetches(events, url, data_dir) <= 2,
        stage_after(events, url, data_dir) is Start ==> fetches(events, url, data_dir) == 0,
        stage_after(events, url, data_dir) is Changes ==> fetches(events, url, data_dir) == 1,
    decreases events.len(),
{
    if events.len() > 0 {
        law_at_most_two_fetches(events.drop_last(), url, data_dir);
    }
}

/// The graph is given up only after the changes and then the whole graph could not be applied.
pub proof fn law_give_up_only_after_both(
    stage: SyncStage,
    event: SyncEvent,
    url: Seq<char>,
    data_dir: Seq<char>,
)
    ensures
        sync_transition(stage, event, url, data_dir).1 is GiveUp <==> (stage is Whole
            && event is Rejected),
        sync_transition(stage, event, url, data_dir).0 is Whole && stage !is Whole <==> (
        stage is Changes && event is Rejected),
{
}

/// Where a whole graph is fetched, it is fetched from the beginning of time, as it is for a graph
/// that was never brought up to date.
pub proof fn law_whole_graph_starts_at_zero(now_secs: u64, url: Seq<char>, data_dir: Seq<char>)
    ensures
        sync_transition(
            SyncStage::Start,
            SyncEvent::Wanted { now_secs, last_secs: None },
            url,
            data_dir,
        ).1->url == sync_transition(SyncStage::Changes, SyncEvent::Rejected, url, data_dir).1->url,
{
    assert(decimal(0) =~= seq!['0']);
}

/// A graph is fresh exactly where it has been brought up to date and that is less than five minutes
/// ago: so one that was never brought up to date is not, and one that is no longer fresh does not
/// become so as time passes.
pub proof fn law_graph_grows_old(now_secs: u64, later_secs: u64, last_secs: Option<u32>)
    requires
        now_secs <= later_secs,
    ensures
        is_fresh(now_secs, last_secs) <==> last_secs is Some && last_secs->0 > 0 && now_secs
            - last_secs->0 < 300,
        !is_fresh(now_secs, None),
        is_fresh(later_secs, last_secs) ==> is_fresh(now_secs, last_secs),
        last_secs is Some && now_secs >= last_secs->0 + 300 ==> !is_fresh(later_secs, last_secs),
{
}

/// Where a graph is wanted that is not fresh, the changes since the last time are fetched, from the
/// address and the numeral of that time, or of zero, and nothing is removed first; a fresh one is
/// left as it is.
pub proof fn law_old_graph_is_fetched(
    now_secs: u64,
    last_secs: Option<u32>,
    url: Seq<char>,
    data_dir: Seq<char>,
)
    ensures
        ({
            let (stage, action) = sync_transition(
                SyncStage::Start,
                SyncEvent::Wanted { now_secs, last_secs },
                url,
                data_dir,
            );
            &&& last_secs is Some && last_secs->0 > 0 && now_secs < last_secs->0 + 300 ==> stage
                == SyncStage::Done && action == SyncActionView::UpToDate
            &&& last_secs is None || last_secs->0 == 0 || now_secs >= last_secs->0 + 300 ==> {
                &&& stage == SyncStage::Changes
                &&& action matches SyncActionView::Fetch { url: u, file, remove_first }
                &&& last_secs is Some ==> u == url + decimal(last_secs->0 as nat)
                &&& last_secs is None ==> u == url + decimal(0)
                &&& file == data_dir + "/rapid_sync.lngossip"@
                &&& !remove_first
            }
        }),
{
}

/// What was fetched and applied brings the graph up to date. Changes that cannot be applied lead to
/// the whole graph, fetched anew into the same file; a whole graph that cannot be applied is given
/// up. Any other event is waited out, and nothing more happens when all is done.
pub proof fn law_each_try_ends(
    stage: SyncStage,
    event: SyncEvent,
    url: Seq<char>,
    data_dir: Seq<char>,
)
    ensures
        stage is Changes || stage is Whole ==> sync_transition(
            stage,
            SyncEvent::Applied,
            url,
            data_dir,
        ) == (SyncStage::Done, SyncActionView::UpToDate),
        sync_transition(SyncStage::Changes, SyncEvent::Rejected, url, data_dir) == (
            SyncStage::Whole,
            SyncActionView::Fetch {
                url: url.push('0'),
                file: data_dir + "/rapid_sync.lngossip"@,
                remove_first: true,
            },
        ),
        sync_transition(SyncStage::Whole, SyncEvent::Rejected, url, data_dir) == (
            SyncStage::Done,
            SyncActionView::GiveUp,
        ),
        stage is Done || (stage is Start && event !is Wanted) || ((stage is Changes
            || stage is Whole) && event is Wanted) ==> sync_transition(stage, event, url, data_dir)
            == (stage, SyncActionView::Wait),
{
    assert(url + seq!['0'] =~= url.push('0'));
}

/// What is held of an action is what it says.
pub proof fn law_views_show_sync_actions_as_they_are(u: String, f: String, remove_first: bool)
    ensures
        SyncAction::UpToDate@ == SyncActionView::UpToDate,
        SyncAction::GiveUp@ == SyncActionView::GiveUp,
        SyncAction::Wait@ == SyncActionView::Wait,
        (SyncAction::Fetch { url: u, file: f, remove_first })@ == (SyncActionView::Fetch {
            url: u@,
            file: f@,
            remove_first,
        }),
{
}

/// Whether a graph is out of date.
pub fn needs_sync(now_secs: u64, last_secs: Option<u32>) -> (r: bool)
    ensures
        r == !is_fresh(now_secs, last_secs),
        !r <==> last_secs is Some && last_secs->0 > 0 && now_secs - last_secs->0 < 300,
{
    let last: u64 = match last_secs {
        Some(t) => t as u64,
        None => 0,
    };
    !(now_secs.saturating_sub(last) < SYNC_INTERVAL_SECS && last != 0)
}

/// Decides what is to be done to bring the graph up to date, given what has been tried and what has
/// happened. A fresh graph is left as it is. Else the changes since the last time are fetched; if
/// they do not fit the graph, the whole graph is fetched.
pub fn sync_graph(stage: SyncStage, event: SyncEvent, url: &str, data_dir: &str) -> (r: (
    SyncStage,
    SyncAction,
))
    ensures
        (r.0, r.1@) == sync_transition(stage, event, url@, data_dir@),
{
    match (stage, event) {
        (SyncStage::Start, SyncEvent::Wanted { now_secs, last_secs }) => {
            if !needs_sync(now_secs, last_secs) {
                (SyncStage::Done, SyncAction::UpToDate)
            } else {
                let last: u64 = match last_secs {
                    Some(t) => t as u64,
                    None => 0,
                };
                (
                    SyncStage::Changes,
                    SyncAction::Fetch {
                        url: join(url, decimal_string(last).as_str()),
                        file: rapid_sync_path(data_dir),
                        remove_first: false,
                    },
                )
            }
        },
        (SyncStage::Changes, SyncEvent::Applied) => (SyncStage::Done, SyncAction::UpToDate),
        (SyncStage::Changes, SyncEvent::Rejected) => {
            proof {
                reveal_strlit("0");
                assert("0"@ =~= seq!['0']);
            }
            (
                SyncStage::Whole,
                SyncAction::Fetch {
                    url: join(url, "0"),
                    file: rapid_sync_path(data_dir),
                    remove_first: true,
                },
            )
        },
        (SyncStage::Whole, SyncEvent::Applied) => (SyncStage::Done, SyncAction::UpToDate),
        (SyncStage::Whole, SyncEvent::Rejected) => (SyncStage::Done, SyncAction::GiveUp),
        _ => (stage, SyncAction::Wait),
    }
}

} // verus!
