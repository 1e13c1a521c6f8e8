//! Service lifecycle: the status a supervised unit of work reports, the
//! byte encoding used by the shared atomic status cell, and the steps the
//! supervisor takes when it mirrors status broadcasts into that cell.

use vstd::prelude::*;

verus! {

/// Status of one supervised service, as published on its broadcast
/// channel and mirrored into the supervisor's status cell.
///
/// `Started` is the initial state on spawn; `Finished` (graceful
/// completion or forced cancellation) and `Failed` (the run phase
/// returned an error) are terminal.
#[derive(Copy, Clone, Debug, PartialEq, Eq, Structural)]
pub enum ServiceStatus {
    Started,
    Finished,
    Failed,
}

impl ServiceStatus {
    /// Byte stored in the shared atomic status cell for this status.
    pub open spec fn spec_byte(self) -> u8 {
        match self {
            ServiceStatus::Started => 0,
            ServiceStatus::Finished => 1,
            ServiceStatus::Failed => 2,
        }
    }

    /// A terminal status never changes again by the unit's own reporting.
    pub open spec fn spec_is_terminal(self) -> bool {
        self is Finished || self is Failed
    }

    /// Encode this status for the shared atomic status cell.
    pub fn to_byte(self) -> (r: u8)
        ensures
            r == self.spec_byte(),
    {
        match self {
            ServiceStatus::Started => 0,
            ServiceStatus::Finished => 1,
            ServiceStatus::Failed => 2,
        }
    }

    /// Status a legal cell byte stands for; `None` on an illegal byte.
    pub open spec fn spec_from_byte(b: u8) -> Option<ServiceStatus> {
        if b == 0 {
            Some(ServiceStatus::Started)
        } else if b == 1 {
            Some(ServiceStatus::Finished)
        } else if b == 2 {
            Some(ServiceStatus::Failed)
        } else {
            None
        }
    }

    /// Exhaustive decode of the status cell: a byte outside the legal
    /// range is rejected loudly instead of being reinterpreted.
    pub fn from_byte(b: u8) -> (r: Option<ServiceStatus>)
        ensures
            r == ServiceStatus::spec_from_byte(b),
            r matches Some(s) ==> s.spec_byte() == b,
            r is Some <==> b <= 2,
    {
        if b == 0 {
            Some(ServiceStatus::Started)
        } else if b == 1 {
            Some(ServiceStatus::Finished)
        } else if b == 2 {
            Some(ServiceStatus::Failed)
        } else {
            None
        }
    }

    /// Whether the shutdown-wait loop may stop polling this status.
    pub fn is_terminal(self) -> (r: bool)
        ensures
            r == self.spec_is_terminal(),
    {
        match self {
            ServiceStatus::Started => false,
            ServiceStatus::Finished => true,
            ServiceStatus::Failed => true,
        }
    }
}

/// Decoding a status byte inverts encoding, and encoding a decoded byte
/// gives the byte back: the status cell loses no information.
pub proof fn lemma_status_byte_round_trip(s: ServiceStatus, b: u8)
    ensures
        ServiceStatus::spec_from_byte(s.spec_byte()) == Some(s),
        ServiceStatus::spec_from_byte(b) matches Some(d) ==> d.spec_byte() == b,
{
}

/// How a unit's run phase ended, as seen by the supervisor task that
/// publishes the final status.
#[derive(Copy, Clone, Debug, PartialEq, Eq, Structural)]
pub enum RunOutcome {
    /// The run phase returned without error.
    Completed,
    /// The run phase returned an error.
    Errored,
    /// The unit's task was cancelled by the shutdown abort before the
    /// run phase reported anything.
    Aborted,
}

/// Status published for a run phase that ended the given way: graceful
/// completion and forced cancellation both count as `Finished`; only an
/// error from the run phase itself counts as `Failed`.
pub open spec fn spec_final_status(o: RunOutcome) -> ServiceStatus {
    match o {
        RunOutcome::Completed => ServiceStatus::Finished,
        RunOutcome::Errored => ServiceStatus::Failed,
        RunOutcome::Aborted => ServiceStatus::Finished,
    }
}

/// Map the end of a run phase to the status broadcast to watchers.
pub fn final_status(o: RunOutcome) -> (r: ServiceStatus)
    ensures
        r == spec_final_status(o),
        r.spec_is_terminal(),
{
    match o {
        RunOutcome::Completed => ServiceStatus::Finished,
        RunOutcome::Errored => ServiceStatus::Failed,
        RunOutcome::Aborted => ServiceStatus::Finished,
    }
}

/// One observation of the status-mirroring task: either a status arrived
/// on the unit's broadcast channel, or the channel closed because every
/// sender is gone.
#[derive(Copy, Clone, Debug, PartialEq, Eq, Structural)]
pub enum StatusEvent {
    Reported(ServiceStatus),
    ChannelClosed,
}

/// New cell value after one observation, and whether the mirroring task
/// is done listening.
pub open spec fn spec_supervisor_step(cell: ServiceStatus, event: StatusEvent) -> (
    ServiceStatus,
    bool,
) {
    match event {
        StatusEvent::Reported(s) => (s, s.spec_is_terminal()),
        StatusEvent::ChannelClosed => (ServiceStatus::Finished, true),
    }
}

/// One step of the supervisor's status-mirroring loop: every reported
/// transition is written into the status cell, and the loop stops once a
/// terminal status arrived or the channel closed. A closed channel means
/// the unit is gone, so the cell is finalized as `Finished`; the wait
/// loop can then never block forever on a unit that stopped reporting.
pub fn supervisor_step(cell: ServiceStatus, event: StatusEvent) -> (r: (ServiceStatus, bool))
    ensures
        r == spec_supervisor_step(cell, event),
        r.1 ==> r.0.spec_is_terminal(),
{
    match event {
        StatusEvent::Reported(s) => (s, s.is_terminal()),
        StatusEvent::ChannelClosed => (ServiceStatus::Finished, true),
    }
}

/// Status cell value after the shutdown broadcast reached the unit's
/// abort task: `Finished` is force-published no matter what the unit
/// itself reported, so the wait loop always observes a terminal status.
pub open spec fn spec_after_shutdown_signal(cell: ServiceStatus) -> ServiceStatus {
    ServiceStatus::Finished
}

/// Apply the shutdown broadcast to a unit's status cell.
pub fn after_shutdown_signal(cell: ServiceStatus) -> (r: ServiceStatus)
    ensures
        r == spec_after_shutdown_signal(cell),
        r.spec_is_terminal(),
{
    ServiceStatus::Finished
}

/// Sending the shutdown broadcast twice is harmless: the second signal
/// leaves the status cell exactly where the first one put it, so a unit
/// is never double-finalized, and the cell stays terminal.
pub proof fn lemma_shutdown_signal_idempotent(cell: ServiceStatus)
    ensures
        spec_after_shutdown_signal(spec_after_shutdown_signal(cell))
            == spec_after_shutdown_signal(cell),
        spec_after_shutdown_signal(cell).spec_is_terminal(),
{
}

} // verus!
