//! Server status and the rules for moving between statuses.

use vstd::prelude::*;

verus! {

/// Status of one server slot.
#[derive(Debug, Clone, PartialEq, Eq)]
pub enum ServerStatus {
    Stopped,
    Starting,
    Running,
    Stopping,
    Error(String),
}

/// A run is in progress: a start was accepted and no terminal status was written yet.
pub open spec fn is_active(s: ServerStatus) -> bool {
    s is Starting || s is Running || s is Stopping
}

/// Position of a status along `Starting -> Running -> Stopping -> Stopped/Error`.
pub open spec fn rank(s: ServerStatus) -> int {
    match s {
        ServerStatus::Starting => 1,
        ServerStatus::Running => 2,
        ServerStatus::Stopping => 3,
        _ => 4,
    }
}

/// `to` may directly follow `from`: an idle slot may only begin a new run, and
/// an active run only moves forward (skipping is allowed, going back is not).
pub open spec fn may_follow(from: ServerStatus, to: ServerStatus) -> bool {
    if is_active(from) {
        rank(to) > rank(from)
    } else {
        to is Starting
    }
}

/// The status is unchanged or took one permitted step.
pub open spec fn moves_forward(from: ServerStatus, to: ServerStatus) -> bool {
    from == to || may_follow(from, to)
}

/// The status is unchanged, or moved forward within a run without starting
/// a new one: what a running task's reports can do.
pub open spec fn event_reach(from: ServerStatus, to: ServerStatus) -> bool {
    from == to || (may_follow(from, to) && !(to is Starting))
}

/// Reports of a running task compose: several of them in a row still only
/// move the status forward within the same run.
pub proof fn lemma_event_reach_trans(a: ServerStatus, b: ServerStatus, c: ServerStatus)
    requires
        event_reach(a, b),
        event_reach(b, c),
    ensures
        event_reach(a, c),
{
}

/// While a run is active (`Starting`, `Running`, `Stopping`) no new run can
/// begin: `Starting` never follows an active status.
pub proof fn lemma_single_active_run(s: ServerStatus)
    ensures
        is_active(s) <==> !may_follow(s, ServerStatus::Starting),
{
}

/// A stop takes effect at most once per run: once `Stopping` was entered, a
/// further stop request (a move to `Stopping`) is refused.
pub proof fn lemma_stop_once(s: ServerStatus)
    ensures
        may_follow(s, ServerStatus::Stopping) ==> !may_follow(ServerStatus::Stopping, ServerStatus::Stopping),
        may_follow(s, ServerStatus::Stopping) <==> (s is Starting || s is Running),
{
}

/// Every run moves forward along `Starting -> Running -> Stopping ->
/// Stopped/Error`: in a sequence of statuses that starts idle, where each
/// status may follow the one before and no status but the last ends the run,
/// the run begins with `Starting` and the ranks strictly increase, so the run
/// has at most four statuses and never goes back.
pub proof fn lemma_run_monotone(trace: Seq<ServerStatus>)
    requires
        trace.len() > 0,
        !is_active(trace[0]),
        forall|i: int| 0 <= i < trace.len() - 1 ==> #[trigger] may_follow(trace[i], trace[i + 1]),
        forall|i: int| 0 < i < trace.len() - 1 ==> #[trigger] is_active(trace[i]),
    ensures
        trace.len() > 1 ==> trace[1] is Starting,
        forall|i: int, j: int| 0 < i < j < trace.len() ==> rank(trace[i]) < rank(trace[j]),
        forall|i: int| 0 < i < trace.len() ==> rank(#[trigger] trace[i]) >= i,
        trace.len() <= 5,
    decreases trace.len(),
{
    if trace.len() > 1 {
        let z: int = 0;
        assert(may_follow(trace[z], trace[z + 1]));
        let prefix = trace.drop_last();
        assert forall|i: int| 0 <= i < prefix.len() - 1 implies #[trigger] may_follow(prefix[i], prefix[i + 1]) by {
            assert(may_follow(trace[i], trace[i + 1]));
        }
        assert forall|i: int| 0 < i < prefix.len() - 1 implies #[trigger] is_active(prefix[i]) by {
            assert(is_active(trace[i]));
        }
        lemma_run_monotone(prefix);
        let n = trace.len() - 1;
        if n > 1 {
            assert(is_active(trace[n - 1]));
            let m = n - 1;
            assert(may_follow(trace[m], trace[m + 1]));
            assert forall|i: int, j: int| 0 < i < j < trace.len() implies rank(trace[i]) < rank(trace[j]) by {
                if j < n {
                    assert(prefix[i] == trace[i] && prefix[j] == trace[j]);
                } else if i < n - 1 {
                    assert(prefix[i] == trace[i] && prefix[n - 1] == trace[n - 1]);
                }
            }
            assert(rank(trace[1]) == 1);
            assert(rank(trace[n]) <= 4);
            assert(prefix[m] == trace[m]);
            assert forall|i: int| 0 < i < trace.len() implies rank(#[trigger] trace[i]) >= i by {
                if i < n {
                    assert(prefix[i] == trace[i]);
                }
            }
            if n >= 5 {
                assert(prefix[4] == trace[4]);
                assert(is_active(trace[4]));
            }
        }
    }
}

impl ServerStatus {
    /// True for `Starting`, `Running` and `Stopping`.
    pub fn is_active(&self) -> (r: bool)
        ensures
            r == is_active(*self),
    {
        match self {
            ServerStatus::Starting | ServerStatus::Running | ServerStatus::Stopping => true,
            _ => false,
        }
    }

    /// A copy of this status.
    pub fn duplicate(&self) -> (r: ServerStatus)
        ensures
            r == *self,
    {
        match self {
            ServerStatus::Stopped => ServerStatus::Stopped,
            ServerStatus::Starting => ServerStatus::Starting,
            ServerStatus::Running => ServerStatus::Running,
            ServerStatus::Stopping => ServerStatus::Stopping,
            ServerStatus::Error(reason) => ServerStatus::Error(reason.clone()),
        }
    }

    /// Whether `to` may directly follow this status.
    pub fn may_move_to(&self, to: &ServerStatus) -> (r: bool)
        ensures
            r == may_follow(*self, *to),
    {
        let rank_from: u8 = match self {
            ServerStatus::Starting => 1,
            ServerStatus::Running => 2,
            ServerStatus::Stopping => 3,
            _ => 4,
        };
        let rank_to: u8 = match to {
            ServerStatus::Starting => 1,
            ServerStatus::Running => 2,
            ServerStatus::Stopping => 3,
            _ => 4,
        };
        if self.is_active() {
            rank_to > rank_from
        } else {
            rank_to == 1
        }
    }
}

} // verus!
