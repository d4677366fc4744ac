//! Whether a build is under way, and what follows from each event: the
//! state behind the signal that lets a client wait until no build runs.

use vstd::prelude::*;

verus! {

/// What is done after an event.
#[derive(Clone, Copy, Debug, PartialEq, Eq, Structural)]
pub enum BuildStatusAction {
    /// Nothing.
    Nothing,
    /// Those who wait for the build are woken.
    NotifyWaiters,
}

/// What happens to a build.
#[derive(Clone, Copy, Debug, PartialEq, Eq, Structural)]
pub enum BuildStatusEvent {
    /// Changed files were seen; a build will start.
    ChangesPending,
    /// The changes that were seen need no build.
    NoPendingChanges,
    /// A build ended, with or without errors.
    BuildCompleted,
}

/// Whether a build is under way.
#[derive(Clone, Copy, Debug, PartialEq, Eq, Structural)]
pub struct BuildStatus {
    pub is_building: bool,
}

impl BuildStatus {
    /// The state at the start: a build is under way, so that the first
    /// build is waited for.
    pub fn new() -> (status: BuildStatus)
        ensures
            status.is_building,
    {
        BuildStatus { is_building: true }
    }

    /// The state and the action after `event`: changes start a build;
    /// without pending changes and after a build no build is under way,
    /// and those who wait are woken.
    pub open spec fn spec_on(self, event: BuildStatusEvent) -> (BuildStatus, BuildStatusAction) {
        match event {
            BuildStatusEvent::ChangesPending => (
                BuildStatus { is_building: true },
                BuildStatusAction::Nothing,
            ),
            BuildStatusEvent::NoPendingChanges => (
                BuildStatus { is_building: false },
                BuildStatusAction::NotifyWaiters,
            ),
            BuildStatusEvent::BuildCompleted => (
                BuildStatus { is_building: false },
                BuildStatusAction::NotifyWaiters,
            ),
        }
    }

    pub fn on(self, event: BuildStatusEvent) -> (next: (BuildStatus, BuildStatusAction))
        ensures
            next == self.spec_on(event),
    {
        match event {
            BuildStatusEvent::ChangesPending => (
                BuildStatus { is_building: true },
                BuildStatusAction::Nothing,
            ),
            BuildStatusEvent::NoPendingChanges => (
                BuildStatus { is_building: false },
                BuildStatusAction::NotifyWaiters,
            ),
            BuildStatusEvent::BuildCompleted => (
                BuildStatus { is_building: false },
                BuildStatusAction::NotifyWaiters,
            ),
        }
    }

    /// Changed files were seen.
    pub fn changes_pending(&mut self) -> (action: BuildStatusAction)
        ensures
            (*final(self), action) == old(self).spec_on(BuildStatusEvent::ChangesPending),
    {
        self.is_building = true;
        BuildStatusAction::Nothing
    }

    /// The changes that were seen need no build.
    pub fn no_pending_changes(&mut self) -> (action: BuildStatusAction)
        ensures
            (*final(self), action) == old(self).spec_on(BuildStatusEvent::NoPendingChanges),
    {
        self.is_building = false;
        BuildStatusAction::NotifyWaiters
    }

    /// A build ended.
    pub fn build_completed(&mut self) -> (action: BuildStatusAction)
        ensures
            (*final(self), action) == old(self).spec_on(BuildStatusEvent::BuildCompleted),
    {
        self.is_building = false;
        BuildStatusAction::NotifyWaiters
    }

    /// Whether one who wants no build to be under way has to wait.
    pub fn must_wait_for_idle(&self) -> (wait: bool)
        ensures
            wait == self.is_building,
    {
        self.is_building
    }
}

impl Default for BuildStatus {
    fn default() -> (status: BuildStatus)
        ensures
            status.is_building,
    {
        BuildStatus::new()
    }
}

/// After a build has ended or was found needless, nobody has to wait,
/// until changes are seen again.
pub proof fn law_idle_after_completion(status: BuildStatus, event: BuildStatusEvent)
    ensures
        status.spec_on(event).0.is_building <==> event == BuildStatusEvent::ChangesPending,
        status.spec_on(event).1 == BuildStatusAction::NotifyWaiters <==> event
            != BuildStatusEvent::ChangesPending,
{
}

} // verus!
