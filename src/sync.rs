use vstd::prelude::*;

verus! {

/// One artifact that is kept up to date by downloading it.
#[derive(Clone, Debug)]
pub struct ArtifactSpec {
    /// Human-readable name, used in reports.
    pub identity: String,
    pub enabled: bool,
    pub source_url: String,
    pub destination: String,
}

/// What is done about an artifact at the start of its task.
#[derive(Clone, Copy, Debug, PartialEq, Eq, Structural)]
pub enum UpdateDecision {
    Skip,
    Fetch,
    Rebuild,
}

#[derive(Clone, Copy, Debug, PartialEq, Eq, Structural)]
pub enum SyncError {
    /// The download failed.
    Transport,
    /// Removing the old artifact or writing the new one failed.
    Filesystem,
}

/// How a sync that did not fail ended.
#[derive(Clone, Copy, Debug, PartialEq, Eq, Structural)]
pub enum SyncOutcome {
    Disabled,
    /// The artifact was present and no update was forced.
    Skipped,
    /// The artifact was downloaded; this many bytes were written.
    Fetched(u64),
}

#[derive(Clone, Copy, Debug)]
pub enum SyncState {
    CheckPresence,
    DeleteExisting,
    Fetch,
    Done(Result<SyncOutcome, SyncError>),
}

/// What the caller reports after it carried out an action.
#[derive(Clone, Copy, Debug, PartialEq, Eq, Structural)]
pub enum SyncEvent {
    /// Whether the artifact is at its destination.
    Present(bool),
    /// Whether the destination is now free: true also where nothing was there.
    Deleted(bool),
    /// The download was written in full; this many bytes.
    Fetched(u64),
    TransportFailed,
    WriteFailed,
}

/// What the sync asks its caller to do next.
#[derive(Clone, Copy, Debug)]
pub enum SyncAction {
    CheckPresence,
    /// Remove whatever is at the destination.
    DeleteExisting,
    /// Download the source to the destination.
    Fetch,
    Stop(Result<SyncOutcome, SyncError>),
}

/// The decision rule for a downloaded artifact.
pub open spec fn decision(enabled: bool, present: bool, force: bool) -> UpdateDecision {
    if enabled && (force || !present) {
        UpdateDecision::Fetch
    } else {
        UpdateDecision::Skip
    }
}

/// The decision rule for the artifact that is built from source.
pub open spec fn build_decision(enabled: bool, force: bool) -> UpdateDecision {
    if enabled || force {
        UpdateDecision::Rebuild
    } else {
        UpdateDecision::Skip
    }
}

pub open spec fn sync_start(enabled: bool, force: bool) -> SyncState {
    if !enabled {
        SyncState::Done(Ok(SyncOutcome::Disabled))
    } else if force {
        SyncState::DeleteExisting
    } else {
        SyncState::CheckPresence
    }
}

pub open spec fn sync_step(s: SyncState, e: SyncEvent) -> SyncState {
    match s {
        SyncState::CheckPresence => match e {
            SyncEvent::Present(true) => SyncState::Done(Ok(SyncOutcome::Skipped)),
            SyncEvent::Present(false) => SyncState::DeleteExisting,
            _ => SyncState::Done(Err(SyncError::Filesystem)),
        },
        SyncState::DeleteExisting => match e {
            SyncEvent::Deleted(true) => SyncState::Fetch,
            _ => SyncState::Done(Err(SyncError::Filesystem)),
        },
        SyncState::Fetch => match e {
            SyncEvent::Fetched(n) => SyncState::Done(Ok(SyncOutcome::Fetched(n))),
            SyncEvent::WriteFailed => SyncState::Done(Err(SyncError::Filesystem)),
            _ => SyncState::Done(Err(SyncError::Transport)),
        },
        SyncState::Done(r) => SyncState::Done(r),
    }
}

pub open spec fn sync_action(s: SyncState) -> SyncAction {
    match s {
        SyncState::CheckPresence => SyncAction::CheckPresence,
        SyncState::DeleteExisting => SyncAction::DeleteExisting,
        SyncState::Fetch => SyncAction::Fetch,
        SyncState::Done(r) => SyncAction::Stop(r),
    }
}

/// The actions asked for along a run from `s` in which the caller reports `events`.
pub open spec fn sync_trace(s: SyncState, events: Seq<SyncEvent>) -> Seq<SyncAction>
    decreases events.len(),
{
    if events.len() == 0 {
        seq![sync_action(s)]
    } else {
        seq![sync_action(s)] + sync_trace(sync_step(s, events[0]), events.drop_first())
    }
}

/// Whether an action writes to the filesystem or uses the network.
pub open spec fn has_effect(a: SyncAction) -> bool {
    a is DeleteExisting || a is Fetch
}

/// Decides what to do about a downloaded artifact.
pub fn decide(enabled: bool, present: bool, force: bool) -> (r: UpdateDecision)
    ensures
        r == decision(enabled, present, force),
{
    if enabled && (force || !present) {
        UpdateDecision::Fetch
    } else {
        UpdateDecision::Skip
    }
}

/// Decides whether the artifact built from source is rebuilt.
pub fn decide_build(enabled: bool, force: bool) -> (r: UpdateDecision)
    ensures
        r == build_decision(enabled, force),
{
    if enabled || force {
        UpdateDecision::Rebuild
    } else {
        UpdateDecision::Skip
    }
}

/// The sync of one artifact: the caller performs `action()` and hands its
/// result to `advance`, until the action is `Stop`.
pub struct SyncRun {
    pub spec: ArtifactSpec,
    pub state: SyncState,
}

impl SyncRun {
    pub fn new(spec: ArtifactSpec, force: bool) -> (r: SyncRun)
        ensures
            r.spec == spec,
            r.state == sync_start(spec.enabled, force),
    {
        let state = if !spec.enabled {
            SyncState::Done(Ok(SyncOutcome::Disabled))
        } else if force {
            SyncState::DeleteExisting
        } else {
            SyncState::CheckPresence
        };
        SyncRun { spec, state }
    }

    pub fn action(&self) -> (r: SyncAction)
        ensures
            r == sync_action(self.state),
    {
        match self.state {
            SyncState::CheckPresence => SyncAction::CheckPresence,
            SyncState::DeleteExisting => SyncAction::DeleteExisting,
            SyncState::Fetch => SyncAction::Fetch,
            SyncState::Done(r) => SyncAction::Stop(r),
        }
    }

    pub fn advance(&mut self, e: SyncEvent)
        ensures
            final(self).spec == old(self).spec,
            final(self).state == sync_step(old(self).state, e),
    {
        let next = match self.state {
            SyncState::CheckPresence => match e {
                SyncEvent::Present(true) => SyncState::Done(Ok(SyncOutcome::Skipped)),
                SyncEvent::Present(false) => SyncState::DeleteExisting,
                _ => SyncState::Done(Err(SyncError::Filesystem)),
            },
            SyncState::DeleteExisting => match e {
                SyncEvent::Deleted(true) => SyncState::Fetch,
                _ => SyncState::Done(Err(SyncError::Filesystem)),
            },
            SyncState::Fetch => match e {
                SyncEvent::Fetched(n) => SyncState::Done(Ok(SyncOutcome::Fetched(n))),
                SyncEvent::WriteFailed => SyncState::Done(Err(SyncError::Filesystem)),
                _ => SyncState::Done(Err(SyncError::Transport)),
            },
            SyncState::Done(r) => SyncState::Done(r),
        };
        self.state = next;
    }
}

proof fn lemma_done_trace(r: Result<SyncOutcome, SyncError>, events: Seq<SyncEvent>)
    ensures
        sync_trace(SyncState::Done(r), events).len() == events.len() + 1,
        forall|i: int|
            0 <= i < events.len() + 1 ==> #[trigger] sync_trace(SyncState::Done(r), events)[i]
                == SyncAction::Stop(r),
    decreases events.len(),
{
    if events.len() > 0 {
        lemma_done_trace(r, events.drop_first());
    }
}

/// Without a forced update, an artifact that is reported present is left
/// alone: whatever happens afterwards, the sync neither writes to the
/// filesystem nor uses the network, and it ends as skipped (or disabled).
pub proof fn lemma_present_is_left_alone(enabled: bool, later: Seq<SyncEvent>)
    ensures
        forall|i: int|
            0 <= i < sync_trace(sync_start(enabled, false), seq![SyncEvent::Present(true)] + later).len()
                ==> !has_effect(
                #[trigger] sync_trace(sync_start(enabled, false), seq![SyncEvent::Present(true)] + later)[i],
            ),
        sync_step(sync_start(enabled, false), SyncEvent::Present(true)) == SyncState::Done(
            Ok(if enabled { SyncOutcome::Skipped } else { SyncOutcome::Disabled }),
        ),
{
    let events = seq![SyncEvent::Present(true)] + later;
    assert(events.drop_first() =~= later);
    let r = if enabled { SyncOutcome::Skipped } else { SyncOutcome::Disabled };
    lemma_done_trace(Ok(r), later);
    if !enabled {
        lemma_done_trace(Ok(SyncOutcome::Disabled), events);
    }
}

/// A forced update of an enabled artifact asks for exactly one download,
/// whether or not the artifact was present (presence is not even asked), as
/// long as the old artifact could be removed (its absence counts as removed).
pub proof fn lemma_forced_fetches_once(later: Seq<SyncEvent>)
    ensures
        ({
            let trace = sync_trace(sync_start(true, true), seq![SyncEvent::Deleted(true)] + later);
            &&& trace[0] is DeleteExisting
            &&& trace.len() >= 2 && trace[1] is Fetch
            &&& forall|i: int| 0 <= i < trace.len() && i != 1 ==> !(#[trigger] trace[i] is Fetch)
            &&& forall|i: int| 0 <= i < trace.len() ==> !(#[trigger] trace[i] is CheckPresence)
        }),
{
    let events = seq![SyncEvent::Deleted(true)] + later;
    assert(events.drop_first() =~= later);
    let trace = sync_trace(SyncState::DeleteExisting, events);
    let tail = sync_trace(SyncState::Fetch, later);
    assert(trace == seq![SyncAction::DeleteExisting] + tail);
    if later.len() > 0 {
        let r = sync_step(SyncState::Fetch, later[0])->Done_0;
        lemma_done_trace(r, later.drop_first());
        let rest = sync_trace(SyncState::Done(r), later.drop_first());
        assert(tail == seq![SyncAction::Fetch] + rest);
        assert forall|i: int| 2 <= i < trace.len() implies trace[i] == SyncAction::Stop(r) by {
            assert(trace[i] == rest[i - 2]);
        }
    }
}

} // verus!
