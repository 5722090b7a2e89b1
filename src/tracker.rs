use vstd::prelude::*;
use crate::lifecycle::{
    CheckError, EventBridge, EventView, FailureKind, InstallError, InvalidTransition, Busy,
    LifecycleState, LifecycleView, UpdateEvent, FULL_PROGRESS,
};
use crate::metadata::{UpdateInfo, UpdateInfoView};

verus! {

/// Abstract value of what a version check produced.
pub open spec fn outcome_view(o: Result<Option<UpdateInfo>, CheckError>) -> Result<
    Option<UpdateInfoView>,
    CheckError,
> {
    match o {
        Ok(Some(m)) => Ok(Some(m@)),
        Ok(None) => Ok(None),
        Err(e) => Err(e),
    }
}

/// The outcome of a check that found release `m`.
pub open spec fn found_release(m: UpdateInfoView) -> Result<Option<UpdateInfoView>, CheckError> {
    Ok(Some(m))
}

/// A new check may start unless a check or a download is in flight.
pub open spec fn begin_check_accepts(s: LifecycleView) -> bool {
    !s.is_busy()
}

/// The state after one `begin_check` call.
pub open spec fn after_begin_check(s: LifecycleView) -> LifecycleView {
    if begin_check_accepts(s) {
        LifecycleView::Checking
    } else {
        s
    }
}

/// The state that a check outcome leads to. A release that names the running
/// version is no update.
pub open spec fn check_result_state(o: Result<Option<UpdateInfoView>, CheckError>) -> LifecycleView {
    match o {
        Err(e) => LifecycleView::Failed(FailureKind::Check(e)),
        Ok(Some(m)) => if m.is_newer_release() {
            LifecycleView::Available(m)
        } else {
            LifecycleView::Idle
        },
        Ok(None) => LifecycleView::Idle,
    }
}

/// The events that a check outcome sends: exactly one.
pub open spec fn check_result_events(o: Result<Option<UpdateInfoView>, CheckError>) -> Seq<EventView> {
    match o {
        Err(e) => seq![EventView::Failed(FailureKind::Check(e))],
        Ok(Some(m)) => if m.is_newer_release() {
            seq![EventView::UpdateAvailable(m)]
        } else {
            seq![EventView::NoUpdateAvailable]
        },
        Ok(None) => seq![EventView::NoUpdateAvailable],
    }
}

/// The percentage shown after a tick of `p` when `prev` was shown: clamped to
/// completion, and never below what was shown before.
pub open spec fn accept_progress(prev: u64, p: u64) -> u64 {
    let c = if p > FULL_PROGRESS {
        FULL_PROGRESS
    } else {
        p
    };
    if c < prev {
        prev
    } else {
        c
    }
}

/// How many of `n` successive `begin_check` calls, made from state `s` with no
/// other transition between them, are accepted.
pub open spec fn accepted_checks(s: LifecycleView, n: nat) -> nat
    decreases n,
{
    if n == 0 {
        0
    } else {
        (if begin_check_accepts(s) {
            1nat
        } else {
            0nat
        }) + accepted_checks(after_begin_check(s), (n - 1) as nat)
    }
}

/// Of any run of `begin_check` calls at most one succeeds, and while a check is
/// in flight none does: the others fail with `Busy` until a terminal transition.
pub proof fn lemma_one_check_in_flight(s: LifecycleView, n: nat)
    ensures
        accepted_checks(s, n) <= 1,
        s.is_busy() ==> accepted_checks(s, n) == 0,
    decreases n,
{
    if n > 0 {
        lemma_one_check_in_flight(after_begin_check(s), (n - 1) as nat);
    }
}

/// The percentages shown for the ticks `ps` of one download, starting from `prev`.
pub open spec fn shown_progress(prev: u64, ps: Seq<u64>) -> Seq<u64>
    decreases ps.len(),
{
    if ps.len() == 0 {
        Seq::empty()
    } else {
        let a = accept_progress(prev, ps[0]);
        seq![a] + shown_progress(a, ps.drop_first())
    }
}

/// Within one download the shown percentages never decrease, whatever ticks come in.
pub proof fn lemma_progress_never_regresses(prev: u64, ps: Seq<u64>)
    ensures
        shown_progress(prev, ps).len() == ps.len(),
        forall|i: int| 0 <= i < ps.len() ==> prev <= #[trigger] shown_progress(prev, ps)[i],
        forall|i: int, j: int|
            0 <= i <= j < ps.len() ==> #[trigger] shown_progress(prev, ps)[i] <= #[trigger] shown_progress(
                prev,
                ps,
            )[j],
    decreases ps.len(),
{
    if ps.len() > 0 {
        let a = accept_progress(prev, ps[0]);
        let rest = ps.drop_first();
        lemma_progress_never_regresses(a, rest);
        let run = shown_progress(prev, ps);
        assert(run == seq![a] + shown_progress(a, rest));
        assert forall|i: int| 0 <= i < ps.len() implies a <= #[trigger] run[i] by {
            if i > 0 {
                assert(run[i] == shown_progress(a, rest)[i - 1]);
            }
        }
        assert forall|i: int, j: int| 0 <= i <= j < ps.len() implies #[trigger] run[i] <= #[trigger] run[j] by {
            if i > 0 {
                assert(run[i] == shown_progress(a, rest)[i - 1]);
                assert(run[j] == shown_progress(a, rest)[j - 1]);
            } else {
                assert(a <= run[j]);
            }
        }
    }
}

/// Owner of the lifecycle state; every transition goes through it.
pub struct UpdateTracker {
    state: LifecycleState,
}

impl View for UpdateTracker {
    type V = LifecycleView;

    closed spec fn view(&self) -> LifecycleView {
        self.state@
    }
}

impl UpdateTracker {
    /// A tracker in the `Idle` state.
    pub fn new() -> (r: UpdateTracker)
        ensures
            r@ == LifecycleView::Idle,
    {
        UpdateTracker { state: LifecycleState::Idle }
    }

    /// A snapshot of the current state.
    pub fn current(&self) -> (r: &LifecycleState)
        ensures
            r@ == self@,
    {
        &self.state
    }

    /// Starts a check; refused with `Busy` while a check or a download is in flight.
    pub fn begin_check(&mut self) -> (r: Result<(), Busy>)
        requires
            old(self)@.wf(),
        ensures
            final(self)@.wf(),
            r is Ok <==> begin_check_accepts(old(self)@),
            final(self)@ == after_begin_check(old(self)@),
    {
        match self.state {
            LifecycleState::Checking | LifecycleState::Downloading(_) => Err(Busy),
            _ => {
                self.state = LifecycleState::Checking;
                Ok(())
            },
        }
    }

    /// Records what the check found. Legal only while `Checking`. Returns the
    /// release now offered, if any.
    pub fn record_check_result(
        &mut self,
        outcome: Result<Option<UpdateInfo>, CheckError>,
        bridge: &mut EventBridge,
    ) -> (r: Result<Option<UpdateInfo>, InvalidTransition>)
        requires
            old(self)@.wf(),
        ensures
            final(self)@.wf(),
            final(bridge).is_attached() == old(bridge).is_attached(),
            r is Ok <==> old(self)@ is Checking,
            r is Ok ==> final(self)@ == check_result_state(outcome_view(outcome)),
            r is Ok ==> final(bridge)@ == old(bridge).after(
                check_result_events(outcome_view(outcome)),
            ),
            r is Err ==> final(self)@ == old(self)@ && final(bridge)@ == old(bridge)@,
            r matches Ok(Some(m)) ==> final(self)@ == LifecycleView::Available(m@)
                && outcome_view(outcome) == found_release(m@),
            r matches Ok(None) ==> !(final(self)@ is Available),
            // a release naming the running version is treated as no update
            old(self)@ is Checking ==> (outcome matches Ok(Some(m)) && m.version@ == m.current_version@
                ==> final(self)@ == LifecycleView::Idle && final(bridge)@ == old(bridge).after(
                seq![EventView::NoUpdateAvailable],
            )),
            // each offer is announced once, with the release that was found
            r is Ok ==> (final(self)@ matches LifecycleView::Available(m) ==> outcome_view(outcome)
                == found_release(m) && final(bridge)@ == old(bridge).after(
                seq![EventView::UpdateAvailable(m)],
            )),
    {
        match self.state {
            LifecycleState::Checking => {},
            _ => {
                return Err(InvalidTransition);
            },
        }
        match outcome {
            Err(e) => {
                self.state = LifecycleState::Failed(FailureKind::Check(e));
                bridge.emit(UpdateEvent::Failed(FailureKind::Check(e)));
                Ok(None)
            },
            Ok(Some(m)) => {
                if m.is_newer_release() {
                    let reported = m.duplicate();
                    bridge.emit(UpdateEvent::UpdateAvailable(m.duplicate()));
                    self.state = LifecycleState::Available(m);
                    Ok(Some(reported))
                } else {
                    self.state = LifecycleState::Idle;
                    bridge.emit(UpdateEvent::NoUpdateAvailable);
                    Ok(None)
                }
            },
            Ok(None) => {
                self.state = LifecycleState::Idle;
                bridge.emit(UpdateEvent::NoUpdateAvailable);
                Ok(None)
            },
        }
    }

    /// Starts downloading the offered release. Legal only while `Available`;
    /// hands the release to the caller.
    pub fn begin_download(&mut self, bridge: &mut EventBridge) -> (r: Result<
        UpdateInfo,
        InvalidTransition,
    >)
        requires
            old(self)@.wf(),
        ensures
            final(self)@.wf(),
            final(bridge).is_attached() == old(bridge).is_attached(),
            r is Ok <==> old(self)@ is Available,
            r matches Ok(m) ==> old(self)@ == LifecycleView::Available(m@) && final(self)@
                == LifecycleView::Downloading(0) && final(bridge)@ == old(bridge).after(
                seq![EventView::DownloadStart],
            ),
            r is Err ==> final(self)@ == old(self)@ && final(bridge)@ == old(bridge)@,
    {
        let mut previous = LifecycleState::Downloading(0);
        core::mem::swap(&mut previous, &mut self.state);
        match previous {
            LifecycleState::Available(m) => {
                bridge.emit(UpdateEvent::DownloadStart);
                Ok(m)
            },
            other => {
                self.state = other;
                Err(InvalidTransition)
            },
        }
    }

    /// Records a progress tick. Legal only while `Downloading`. Returns the
    /// percentage shown, which never falls below the one shown before.
    pub fn record_progress(&mut self, percent: u64, bridge: &mut EventBridge) -> (r: Result<
        u64,
        InvalidTransition,
    >)
        requires
            old(self)@.wf(),
        ensures
            final(self)@.wf(),
            final(bridge).is_attached() == old(bridge).is_attached(),
            r is Ok <==> old(self)@ is Downloading,
            r matches Ok(a) ==> a == accept_progress(old(self)@->Downloading_0, percent)
                && old(self)@->Downloading_0 <= a && final(self)@ == LifecycleView::Downloading(a)
                && final(bridge)@ == old(bridge).after(seq![EventView::DownloadProgress(a)]),
            r is Err ==> final(self)@ == old(self)@ && final(bridge)@ == old(bridge)@,
    {
        match self.state {
            LifecycleState::Downloading(prev) => {
                let clamped = if percent > FULL_PROGRESS {
                    FULL_PROGRESS
                } else {
                    percent
                };
                let shown = if clamped < prev {
                    prev
                } else {
                    clamped
                };
                self.state = LifecycleState::Downloading(shown);
                bridge.emit(UpdateEvent::DownloadProgress(shown));
                Ok(shown)
            },
            _ => Err(InvalidTransition),
        }
    }

    /// Ends a download in success. Legal only while `Downloading`.
    pub fn complete_download(&mut self, bridge: &mut EventBridge) -> (r: Result<
        (),
        InvalidTransition,
    >)
        requires
            old(self)@.wf(),
        ensures
            final(self)@.wf(),
            final(bridge).is_attached() == old(bridge).is_attached(),
            r is Ok <==> old(self)@ is Downloading,
            r is Ok ==> final(self)@ == LifecycleView::Downloaded && final(bridge)@ == old(
                bridge,
            ).after(seq![EventView::Installed]),
            r is Err ==> final(self)@ == old(self)@ && final(bridge)@ == old(bridge)@,
    {
        match self.state {
            LifecycleState::Downloading(_) => {
                self.state = LifecycleState::Downloaded;
                bridge.emit(UpdateEvent::Installed);
                Ok(())
            },
            _ => Err(InvalidTransition),
        }
    }

    /// Ends a download in failure. Legal only while `Downloading`.
    pub fn fail_download(&mut self, error: InstallError, bridge: &mut EventBridge) -> (r: Result<
        (),
        InvalidTransition,
    >)
        requires
            old(self)@.wf(),
        ensures
            final(self)@.wf(),
            final(bridge).is_attached() == old(bridge).is_attached(),
            r is Ok <==> old(self)@ is Downloading,
            r is Ok ==> final(self)@ == LifecycleView::Failed(FailureKind::Install(error))
                && final(bridge)@ == old(bridge).after(
                seq![EventView::Failed(FailureKind::Install(error))],
            ),
            r is Err ==> final(self)@ == old(self)@ && final(bridge)@ == old(bridge)@,
    {
        match self.state {
            LifecycleState::Downloading(_) => {
                self.state = LifecycleState::Failed(FailureKind::Install(error));
                bridge.emit(UpdateEvent::Failed(FailureKind::Install(error)));
                Ok(())
            },
            _ => Err(InvalidTransition),
        }
    }

    /// Acknowledges a finished run, successful or failed, and returns to `Idle`.
    pub fn acknowledge(&mut self) -> (r: Result<(), InvalidTransition>)
        requires
            old(self)@.wf(),
        ensures
            final(self)@.wf(),
            r is Ok <==> (old(self)@ is Downloaded || old(self)@ is Failed),
            r is Ok ==> final(self)@ == LifecycleView::Idle,
            r is Err ==> final(self)@ == old(self)@,
    {
        match self.state {
            LifecycleState::Downloaded | LifecycleState::Failed(_) => {
                self.state = LifecycleState::Idle;
                Ok(())
            },
            _ => Err(InvalidTransition),
        }
    }
}

} // verus!
