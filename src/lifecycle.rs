use vstd::prelude::*;
use crate::metadata::{UpdateInfo, UpdateInfoView};

verus! {

/// Hundredths of a percent that stand for a complete download.
pub const FULL_PROGRESS: u64 = 10000;

/// Why a version check failed.
#[derive(PartialEq, Eq, Structural, Clone, Copy, Debug)]
pub enum CheckError {
    /// The transport failed.
    Network,
    /// The response was malformed.
    Parse,
    /// The source answered with a status outside the success range.
    SourceUnavailable,
}

/// Why a download-and-install sequence failed.
#[derive(PartialEq, Eq, Structural, Clone, Copy, Debug)]
pub enum InstallError {
    /// The transfer was interrupted.
    Download,
    /// The artifact failed its integrity check.
    Corrupt,
    /// The platform install step failed.
    Install,
    /// The host asked the download to stop.
    Cancelled,
}

/// A check or a download is already in flight.
#[derive(PartialEq, Eq, Structural, Clone, Copy, Debug)]
pub struct Busy;

/// The operation is not legal in the current lifecycle state.
#[derive(PartialEq, Eq, Structural, Clone, Copy, Debug)]
pub struct InvalidTransition;

/// What ended a lifecycle run in failure.
#[derive(PartialEq, Eq, Structural, Clone, Copy, Debug)]
pub enum FailureKind {
    Check(CheckError),
    Install(InstallError),
}

/// Name of a failure, as carried by the `update-failed` event.
pub open spec fn failure_kind_name(k: FailureKind) -> Seq<char> {
    match k {
        FailureKind::Check(CheckError::Network) => "Network"@,
        FailureKind::Check(CheckError::Parse) => "Parse"@,
        FailureKind::Check(CheckError::SourceUnavailable) => "SourceUnavailable"@,
        FailureKind::Install(InstallError::Download) => "Download"@,
        FailureKind::Install(InstallError::Corrupt) => "Corrupt"@,
        FailureKind::Install(InstallError::Install) => "Install"@,
        FailureKind::Install(InstallError::Cancelled) => "Cancelled"@,
    }
}

impl FailureKind {
    /// The name of the failure, such as `Download`.
    pub fn kind_name(&self) -> (r: String)
        ensures
            r@ == failure_kind_name(*self),
    {
        match self {
            FailureKind::Check(CheckError::Network) => String::from_str("Network"),
            FailureKind::Check(CheckError::Parse) => String::from_str("Parse"),
            FailureKind::Check(CheckError::SourceUnavailable) => String::from_str(
                "SourceUnavailable",
            ),
            FailureKind::Install(InstallError::Download) => String::from_str("Download"),
            FailureKind::Install(InstallError::Corrupt) => String::from_str("Corrupt"),
            FailureKind::Install(InstallError::Install) => String::from_str("Install"),
            FailureKind::Install(InstallError::Cancelled) => String::from_str("Cancelled"),
        }
    }
}

/// Human-readable rendering of a failure for a direct caller.
pub open spec fn failure_message(k: FailureKind) -> Seq<char> {
    match k {
        FailureKind::Check(CheckError::Network) => "update check failed: network error"@,
        FailureKind::Check(CheckError::Parse) => "update check failed: malformed response"@,
        FailureKind::Check(CheckError::SourceUnavailable) => "update check failed: source unavailable"@,
        FailureKind::Install(InstallError::Download) => "update failed: download interrupted"@,
        FailureKind::Install(InstallError::Corrupt) => "update failed: artifact is corrupt"@,
        FailureKind::Install(InstallError::Install) => "update failed: install step failed"@,
        FailureKind::Install(InstallError::Cancelled) => "update failed: download cancelled"@,
    }
}

impl FailureKind {
    /// A sentence that describes the failure.
    pub fn message(&self) -> (r: String)
        ensures
            r@ == failure_message(*self),
    {
        match self {
            FailureKind::Check(CheckError::Network) => String::from_str(
                "update check failed: network error",
            ),
            FailureKind::Check(CheckError::Parse) => String::from_str(
                "update check failed: malformed response",
            ),
            FailureKind::Check(CheckError::SourceUnavailable) => String::from_str(
                "update check failed: source unavailable",
            ),
            FailureKind::Install(InstallError::Download) => String::from_str(
                "update failed: download interrupted",
            ),
            FailureKind::Install(InstallError::Corrupt) => String::from_str(
                "update failed: artifact is corrupt",
            ),
            FailureKind::Install(InstallError::Install) => String::from_str(
                "update failed: install step failed",
            ),
            FailureKind::Install(InstallError::Cancelled) => String::from_str(
                "update failed: download cancelled",
            ),
        }
    }
}

/// The single process-wide state of the update lifecycle.
pub enum LifecycleState {
    Idle,
    Checking,
    Available(UpdateInfo),
    /// Progress in hundredths of a percent.
    Downloading(u64),
    Downloaded,
    Failed(FailureKind),
}

/// Abstract value of a [`LifecycleState`].
pub ghost enum LifecycleView {
    Idle,
    Checking,
    Available(UpdateInfoView),
    Downloading(u64),
    Downloaded,
    Failed(FailureKind),
}

impl View for LifecycleState {
    type V = LifecycleView;

    open spec fn view(&self) -> LifecycleView {
        match self {
            LifecycleState::Idle => LifecycleView::Idle,
            LifecycleState::Checking => LifecycleView::Checking,
            LifecycleState::Available(m) => LifecycleView::Available(m@),
            LifecycleState::Downloading(p) => LifecycleView::Downloading(*p),
            LifecycleState::Downloaded => LifecycleView::Downloaded,
            LifecycleState::Failed(k) => LifecycleView::Failed(*k),
        }
    }
}

impl LifecycleView {
    /// The invariant of every reachable state: an offered release is a newer one,
    /// and progress never passes completion.
    pub open spec fn wf(self) -> bool {
        match self {
            LifecycleView::Available(m) => m.is_newer_release(),
            LifecycleView::Downloading(p) => p <= FULL_PROGRESS,
            _ => true,
        }
    }

    /// A check or a download-install sequence is in flight.
    pub open spec fn is_busy(self) -> bool {
        self is Checking || self is Downloading
    }
}

/// Messages sent to the user interface, one per state transition or progress tick.
pub enum UpdateEvent {
    UpdateAvailable(UpdateInfo),
    NoUpdateAvailable,
    DownloadStart,
    /// Progress in hundredths of a percent.
    DownloadProgress(u64),
    Installed,
    Failed(FailureKind),
}

/// Abstract value of an [`UpdateEvent`].
pub ghost enum EventView {
    UpdateAvailable(UpdateInfoView),
    NoUpdateAvailable,
    DownloadStart,
    DownloadProgress(u64),
    Installed,
    Failed(FailureKind),
}

impl View for UpdateEvent {
    type V = EventView;

    open spec fn view(&self) -> EventView {
        match self {
            UpdateEvent::UpdateAvailable(m) => EventView::UpdateAvailable(m@),
            UpdateEvent::NoUpdateAvailable => EventView::NoUpdateAvailable,
            UpdateEvent::DownloadStart => EventView::DownloadStart,
            UpdateEvent::DownloadProgress(p) => EventView::DownloadProgress(*p),
            UpdateEvent::Installed => EventView::Installed,
            UpdateEvent::Failed(k) => EventView::Failed(*k),
        }
    }
}

/// Name under which an event is sent to the user interface.
pub open spec fn event_name(e: EventView) -> Seq<char> {
    match e {
        EventView::UpdateAvailable(_) => "update-available"@,
        EventView::NoUpdateAvailable => "no-update-available"@,
        EventView::DownloadStart => "update-download-start"@,
        EventView::DownloadProgress(_) => "update-download-progress"@,
        EventView::Installed => "update-installed"@,
        EventView::Failed(_) => "update-failed"@,
    }
}

impl UpdateEvent {
    /// The event's name on the user-interface channel.
    pub fn name(&self) -> (r: String)
        ensures
            r@ == event_name(self@),
    {
        match self {
            UpdateEvent::UpdateAvailable(_) => String::from_str("update-available"),
            UpdateEvent::NoUpdateAvailable => String::from_str("no-update-available"),
            UpdateEvent::DownloadStart => String::from_str("update-download-start"),
            UpdateEvent::DownloadProgress(_) => String::from_str("update-download-progress"),
            UpdateEvent::Installed => String::from_str("update-installed"),
            UpdateEvent::Failed(_) => String::from_str("update-failed"),
        }
    }
}

/// One-way fan-out of events. With no consumer attached, events are dropped;
/// with one, they wait in `delivered` until the consumer takes them.
pub struct EventBridge {
    attached: bool,
    delivered: Vec<UpdateEvent>,
}

impl View for EventBridge {
    type V = Seq<EventView>;

    closed spec fn view(&self) -> Seq<EventView> {
        self.delivered@.map_values(|e: UpdateEvent| e@)
    }
}

impl EventBridge {
    /// Whether a consumer listens.
    pub closed spec fn is_attached(&self) -> bool {
        self.attached
    }

    /// What the bridge holds after `evs` were emitted on it.
    pub open spec fn after(&self, evs: Seq<EventView>) -> Seq<EventView> {
        if self.is_attached() {
            self@ + evs
        } else {
            self@
        }
    }

    /// A bridge with nothing delivered yet.
    pub fn new(attached: bool) -> (r: EventBridge)
        ensures
            r.is_attached() == attached,
            r@ == Seq::<EventView>::empty(),
    {
        let r = EventBridge { attached, delivered: Vec::new() };
        assert(r@ =~= Seq::<EventView>::empty());
        r
    }

    /// Whether a consumer listens.
    pub fn attached(&self) -> (r: bool)
        ensures
            r == self.is_attached(),
    {
        self.attached
    }

    /// Sends one event: kept for the consumer, or dropped when none listens.
    pub fn emit(&mut self, e: UpdateEvent)
        ensures
            final(self).is_attached() == old(self).is_attached(),
            final(self)@ == old(self).after(seq![e@]),
    {
        if self.attached {
            let ghost e_view = e@;
            self.delivered.push(e);
            assert(self@ =~= old(self)@ + seq![e_view]);
        }
    }

    /// Hands the delivered events to the consumer, in the order they were emitted.
    pub fn take_delivered(&mut self) -> (r: Vec<UpdateEvent>)
        ensures
            final(self).is_attached() == old(self).is_attached(),
            final(self)@ == Seq::<EventView>::empty(),
            r@.map_values(|e: UpdateEvent| e@) == old(self)@,
    {
        let mut r: Vec<UpdateEvent> = Vec::new();
        core::mem::swap(&mut r, &mut self.delivered);
        assert(self@ =~= Seq::<EventView>::empty());
        r
    }
}

} // verus!
