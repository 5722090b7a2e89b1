use vstd::prelude::*;
use crate::download::{progress_of, progress_total, DownloadProgress};
use crate::lifecycle::{
    failure_message, Busy, CheckError, EventBridge, EventView, FailureKind, InstallError,
    InvalidTransition, LifecycleState, LifecycleView,
};
use crate::metadata::{UpdateInfo, UpdateInfoView};
use crate::tracker::{
    accept_progress, after_begin_check, begin_check_accepts, check_result_events,
    check_result_state, outcome_view, UpdateTracker,
};

verus! {

/// Seconds after launch at which the background check runs.
pub const STARTUP_DELAY_SECS: u64 = 10;

/// Reply to a caller whose operation came out of sequence.
pub open spec fn out_of_sequence_message() -> Seq<char> {
    "update operation out of sequence"@
}

/// Reply to an install request when the re-check finds nothing to install.
pub open spec fn no_update_message() -> Seq<char> {
    "No update available"@
}

/// Abstract value of a command's reply.
pub open spec fn reply_view(r: Result<Option<UpdateInfo>, String>) -> Result<
    Option<UpdateInfoView>,
    Seq<char>,
> {
    match r {
        Ok(Some(m)) => Ok(Some(m@)),
        Ok(None) => Ok(None),
        Err(s) => Err(s@),
    }
}

/// The text of an error reply, if the reply is one.
pub open spec fn error_text<T>(r: Result<T, String>) -> Option<Seq<char>> {
    match r {
        Ok(_) => None,
        Err(s) => Some(s@),
    }
}

/// What a manual check answers for a check outcome, from the `Checking` state.
pub open spec fn check_reply(o: Result<Option<UpdateInfoView>, CheckError>) -> Result<
    Option<UpdateInfoView>,
    Seq<char>,
> {
    match o {
        Err(e) => Err(failure_message(FailureKind::Check(e))),
        Ok(Some(m)) => if m.is_newer_release() {
            Ok(Some(m))
        } else {
            Ok(None)
        },
        Ok(None) => Ok(None),
    }
}

/// The state that the re-check of an install request leads to, from `Checking`:
/// a newer release goes straight on to downloading.
pub open spec fn install_check_state(o: Result<Option<UpdateInfoView>, CheckError>) -> LifecycleView {
    match check_result_state(o) {
        LifecycleView::Available(_) => LifecycleView::Downloading(0),
        s => s,
    }
}

/// The events that the re-check of an install request sends.
pub open spec fn install_check_events(o: Result<Option<UpdateInfoView>, CheckError>) -> Seq<EventView> {
    match check_result_state(o) {
        LifecycleView::Available(_) => check_result_events(o) + seq![EventView::DownloadStart],
        _ => check_result_events(o),
    }
}

/// A second install request made while one is in flight is refused: once a
/// request has been let in, and once its download has begun, `begin_check`
/// answers `Busy`.
pub proof fn lemma_install_in_flight_refuses_another(
    s: LifecycleView,
    o: Result<Option<UpdateInfoView>, CheckError>,
)
    ensures
        begin_check_accepts(s) ==> !begin_check_accepts(after_begin_check(s)),
        install_check_state(o) is Downloading ==> !begin_check_accepts(install_check_state(o)),
        s.is_busy() ==> after_begin_check(s) == s,
{
}

/// One-shot trigger of the background check, driven by an outside clock.
pub struct StartupCheck {
    fired: bool,
}

impl StartupCheck {
    /// Whether the trigger has gone off.
    pub closed spec fn has_fired(&self) -> bool {
        self.fired
    }

    /// A trigger that has not gone off.
    pub fn new() -> (r: StartupCheck)
        ensures
            !r.has_fired(),
    {
        StartupCheck { fired: false }
    }

    /// Asks, `elapsed_secs` after launch, whether the background check is due
    /// now. It is due once: at the first call at or after the delay.
    pub fn due(&mut self, elapsed_secs: u64) -> (r: bool)
        ensures
            r == (!old(self).has_fired() && elapsed_secs >= STARTUP_DELAY_SECS),
            final(self).has_fired() == (old(self).has_fired() || r),
    {
        if !self.fired && elapsed_secs >= STARTUP_DELAY_SECS {
            self.fired = true;
            true
        } else {
            false
        }
    }
}

/// The update lifecycle manager: the tracker, and the byte count of the
/// download in progress.
pub struct UpdateManager {
    tracker: UpdateTracker,
    download: DownloadProgress,
}

impl UpdateManager {
    /// The lifecycle state.
    pub closed spec fn state(&self) -> LifecycleView {
        self.tracker@
    }

    /// Bytes received in the current download.
    pub closed spec fn downloaded(&self) -> u64 {
        self.download.bytes_downloaded
    }

    /// Size advertised by the release being downloaded.
    pub closed spec fn advertised(&self) -> Option<u64> {
        self.download.advertised_size
    }

    pub open spec fn wf(&self) -> bool {
        self.state().wf()
    }

    /// A manager in the `Idle` state.
    pub fn new() -> (r: UpdateManager)
        ensures
            r.wf(),
            r.state() == LifecycleView::Idle,
            r.downloaded() == 0,
    {
        UpdateManager { tracker: UpdateTracker::new(), download: DownloadProgress::new(None) }
    }

    /// A snapshot of the lifecycle state.
    pub fn current(&self) -> (r: &LifecycleState)
        ensures
            r@ == self.state(),
    {
        self.tracker.current()
    }

    /// Bytes received in the current download.
    pub fn bytes_downloaded(&self) -> (r: u64)
        ensures
            r == self.downloaded(),
    {
        self.download.bytes_downloaded
    }

    /// Lets a check (manual, scheduled, or before an install) begin; `Busy`
    /// while a check or a download is in flight.
    pub fn start_check(&mut self) -> (r: Result<(), Busy>)
        requires
            old(self).wf(),
        ensures
            final(self).wf(),
            r is Ok <==> begin_check_accepts(old(self).state()),
            final(self).state() == after_begin_check(old(self).state()),
            final(self).downloaded() == old(self).downloaded(),
            final(self).advertised() == old(self).advertised(),
    {
        self.tracker.begin_check()
    }

    /// Polls the background trigger: true when the scheduled check is due and
    /// was let in, so the caller now queries the version source. A due check
    /// that finds one in flight is dropped, not queued.
    pub fn start_scheduled_check(&mut self, trigger: &mut StartupCheck, elapsed_secs: u64) -> (r:
        bool)
        requires
            old(self).wf(),
        ensures
            final(self).wf(),
            final(trigger).has_fired() == (old(trigger).has_fired() || elapsed_secs
                >= STARTUP_DELAY_SECS),
            r == (!old(trigger).has_fired() && elapsed_secs >= STARTUP_DELAY_SECS
                && begin_check_accepts(old(self).state())),
            final(self).state() == if !old(trigger).has_fired() && elapsed_secs
                >= STARTUP_DELAY_SECS {
                after_begin_check(old(self).state())
            } else {
                old(self).state()
            },
            final(self).downloaded() == old(self).downloaded(),
            final(self).advertised() == old(self).advertised(),
    {
        if trigger.due(elapsed_secs) {
            self.start_check().is_ok()
        } else {
            false
        }
    }

    /// Finishes a manual check with what the version source answered: the
    /// release now offered, `None` when there is none, or the failure as text.
    pub fn check_for_updates(
        &mut self,
        outcome: Result<Option<UpdateInfo>, CheckError>,
        bridge: &mut EventBridge,
    ) -> (r: Result<Option<UpdateInfo>, String>)
        requires
            old(self).wf(),
        ensures
            final(self).wf(),
            final(bridge).is_attached() == old(bridge).is_attached(),
            final(self).downloaded() == old(self).downloaded(),
            final(self).advertised() == old(self).advertised(),
            old(self).state() is Checking ==> final(self).state() == check_result_state(
                outcome_view(outcome),
            ) && final(bridge)@ == old(bridge).after(check_result_events(outcome_view(outcome)))
                && reply_view(r) == check_reply(outcome_view(outcome)),
            !(old(self).state() is Checking) ==> final(self).state() == old(self).state()
                && final(bridge)@ == old(bridge)@ && reply_view(r) == Err::<
                Option<UpdateInfoView>,
                Seq<char>,
            >(out_of_sequence_message()),
    {
        let kind = match &outcome {
            Err(e) => Some(FailureKind::Check(*e)),
            _ => None,
        };
        match self.tracker.record_check_result(outcome, bridge) {
            Err(_) => Err(String::from_str("update operation out of sequence")),
            Ok(found) => {
                match kind {
                    Some(k) => Err(k.message()),
                    None => Ok(found),
                }
            },
        }
    }

    /// Finishes the re-check of an install request: a newer release starts
    /// downloading and is handed back; otherwise the reply is an error text.
    pub fn install_update(
        &mut self,
        outcome: Result<Option<UpdateInfo>, CheckError>,
        bridge: &mut EventBridge,
    ) -> (r: Result<UpdateInfo, String>)
        requires
            old(self).wf(),
        ensures
            final(self).wf(),
            final(bridge).is_attached() == old(bridge).is_attached(),
            old(self).state() is Checking ==> final(self).state() == install_check_state(
                outcome_view(outcome),
            ) && final(bridge)@ == old(bridge).after(install_check_events(outcome_view(outcome))),
            old(self).state() is Checking ==> (r is Ok <==> check_result_state(
                outcome_view(outcome),
            ) is Available),
            old(self).state() is Checking ==> (r matches Ok(m) ==> outcome_view(outcome)
                == crate::tracker::found_release(m@) && final(self).downloaded() == 0
                && final(self).advertised() == m.download_size),
            old(self).state() is Checking ==> (outcome matches Err(e) ==> error_text(r) == Some(failure_message(FailureKind::Check(e)))),
            old(self).state() is Checking ==> (final(self).state() is Idle ==> error_text(r) == Some(no_update_message())),
            !(old(self).state() is Checking) ==> final(self).state() == old(self).state()
                && final(bridge)@ == old(bridge)@ && final(self).downloaded() == old(
                self,
            ).downloaded() && error_text(r) == Some(out_of_sequence_message()),
    {
        let kind = match &outcome {
            Err(e) => Some(FailureKind::Check(*e)),
            _ => None,
        };
        match self.tracker.record_check_result(outcome, bridge) {
            Err(_) => Err(String::from_str("update operation out of sequence")),
            Ok(Some(_)) => {
                match self.tracker.begin_download(bridge) {
                    Ok(m) => {
                        self.download = DownloadProgress::new(m.download_size);
                        Ok(m)
                    },
                    Err(_) => Err(String::from_str("update operation out of sequence")),
                }
            },
            Ok(None) => {
                match kind {
                    Some(k) => Err(k.message()),
                    None => Err(String::from_str("No update available")),
                }
            },
        }
    }

    /// Accounts for one received chunk and shows the progress it brings.
    /// `content_length` is the total the stream reports, if any.
    pub fn on_chunk(
        &mut self,
        chunk_length: u64,
        content_length: Option<u64>,
        bridge: &mut EventBridge,
    ) -> (r: Result<u64, InvalidTransition>)
        requires
            old(self).wf(),
            old(self).downloaded() + chunk_length <= u64::MAX,
        ensures
            final(self).wf(),
            final(bridge).is_attached() == old(bridge).is_attached(),
            final(self).advertised() == old(self).advertised(),
            r is Ok <==> old(self).state() is Downloading,
            r matches Ok(a) ==> final(self).downloaded() == old(self).downloaded() + chunk_length
                && a == accept_progress(
                old(self).state()->Downloading_0,
                progress_of(
                    final(self).downloaded(),
                    progress_total(content_length, old(self).advertised()),
                ),
            ) && final(self).state() == LifecycleView::Downloading(a) && final(bridge)@ == old(
                bridge,
            ).after(seq![EventView::DownloadProgress(a)]),
            r is Err ==> final(self).state() == old(self).state() && final(bridge)@ == old(
                bridge,
            )@ && final(self).downloaded() == old(self).downloaded(),
    {
        match self.tracker.current() {
            LifecycleState::Downloading(_) => {},
            _ => {
                return Err(InvalidTransition);
            },
        }
        let percent = self.download.add_chunk(chunk_length, content_length);
        self.tracker.record_progress(percent, bridge)
    }

    /// Ends the download with what the platform install step reported.
    pub fn finish_download(&mut self, result: Result<(), InstallError>, bridge: &mut EventBridge) -> (r:
        Result<(), String>)
        requires
            old(self).wf(),
        ensures
            final(self).wf(),
            final(bridge).is_attached() == old(bridge).is_attached(),
            final(self).downloaded() == old(self).downloaded(),
            old(self).state() is Downloading ==> match result {
                Ok(()) => final(self).state() == LifecycleView::Downloaded && final(bridge)@ == old(
                    bridge,
                ).after(seq![EventView::Installed]) && r is Ok,
                Err(e) => final(self).state() == LifecycleView::Failed(FailureKind::Install(e))
                    && final(bridge)@ == old(bridge).after(
                    seq![EventView::Failed(FailureKind::Install(e))],
                ) && error_text(r) == Some(failure_message(FailureKind::Install(e))),
            },
            !(old(self).state() is Downloading) ==> final(self).state() == old(self).state()
                && final(bridge)@ == old(bridge)@ && error_text(r) == Some(out_of_sequence_message()),
    {
        match result {
            Ok(()) => match self.tracker.complete_download(bridge) {
                Ok(()) => Ok(()),
                Err(_) => Err(String::from_str("update operation out of sequence")),
            },
            Err(e) => match self.tracker.fail_download(e, bridge) {
                Ok(()) => Err(FailureKind::Install(e).message()),
                Err(_) => Err(String::from_str("update operation out of sequence")),
            },
        }
    }

    /// Abandons the download on the host's request, without installing.
    pub fn cancel_download(&mut self, bridge: &mut EventBridge) -> (r: Result<(), InvalidTransition>)
        requires
            old(self).wf(),
        ensures
            final(self).wf(),
            final(bridge).is_attached() == old(bridge).is_attached(),
            final(self).downloaded() == old(self).downloaded(),
            r is Ok <==> old(self).state() is Downloading,
            r is Ok ==> final(self).state() == LifecycleView::Failed(
                FailureKind::Install(InstallError::Cancelled),
            ) && final(bridge)@ == old(bridge).after(
                seq![EventView::Failed(FailureKind::Install(InstallError::Cancelled))],
            ),
            r is Err ==> final(self).state() == old(self).state() && final(bridge)@ == old(
                bridge,
            )@,
    {
        self.tracker.fail_download(InstallError::Cancelled, bridge)
    }

    /// Acknowledges a finished run and returns to `Idle`.
    pub fn acknowledge(&mut self) -> (r: Result<(), InvalidTransition>)
        requires
            old(self).wf(),
        ensures
            final(self).wf(),
            final(self).downloaded() == old(self).downloaded(),
            r is Ok <==> (old(self).state() is Downloaded || old(self).state() is Failed),
            r is Ok ==> final(self).state() == LifecycleView::Idle,
            r is Err ==> final(self).state() == old(self).state(),
    {
        self.tracker.acknowledge()
    }
}

} // verus!
