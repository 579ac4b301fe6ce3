//! System sleep and resume: the inhibitor lock that delays sleep, and what
//! the sleep signals and the bus's standby command ask for.
use vstd::prelude::*;

use crate::event::{Event, Opcode, Request};
use crate::meta_command::{MetaCommand, Power};

verus! {

/// Holds the sleep-inhibitor lock `L` while the system is awake. Without
/// the lock, sleep has already been let through, and the cooperative
/// power-off is not asked for.
pub struct SleepInhibitor<L> {
    pub lock: Option<L>,
}

/// What a sleep-preparation signal asks for.
#[derive(Debug, Clone, PartialEq, Eq)]
pub struct SleepStep {
    /// The request to hand to the connection, if any.
    pub request: Option<Request>,
    /// Whether to acquire a new lock, after the request, and store it.
    pub reacquire: bool,
}

impl<L> SleepInhibitor<L> {
    /// Starts awake, holding `lock`.
    pub fn new(lock: L) -> (r: SleepInhibitor<L>)
        ensures
            r.lock == Some(lock),
    {
        SleepInhibitor { lock: Some(lock) }
    }

    pub open spec fn is_held(&self) -> bool {
        self.lock is Some
    }

    pub fn held(&self) -> (r: bool)
        ensures
            r == self.is_held(),
    {
        self.lock.is_some()
    }

    /// The system is about to sleep (`start`) or has resumed. Before sleep,
    /// with the lock held, the devices are asked to power off cooperatively;
    /// without it nothing is asked. After resume the connection is reset,
    /// and a new lock is acquired for the next sleep.
    pub fn on_prepare_for_sleep(&self, start: bool) -> (r: SleepStep)
        ensures
            start && self.is_held() ==> r.request == Some(
                Request::MetaCommand(MetaCommand::Power(Power::Off { cooperative: true })),
            ),
            start && !self.is_held() ==> r.request is None,
            !start ==> r.request == Some(Request::ResetDevice(None)),
            r.reacquire == !start,
    {
        if start {
            let request = if self.held() {
                Some(Request::MetaCommand(MetaCommand::Power(Power::Off { cooperative: true })))
            } else {
                None
            };
            SleepStep { request, reacquire: false }
        } else {
            SleepStep { request: Some(Request::ResetDevice(None)), reacquire: true }
        }
    }

    /// Keeps a newly acquired lock, letting go of any older one.
    pub fn store(&mut self, lock: L)
        ensures
            final(self).lock == Some(lock),
    {
        self.lock = Some(lock);
    }

    /// On a standby command from the bus the lock is let go, and the
    /// system is to be suspended; other events change nothing.
    pub fn on_event(&mut self, event: &Event) -> (suspend: bool)
        ensures
            suspend == (*event matches Event::Command(Opcode::Standby)),
            suspend ==> final(self).lock is None,
            !suspend ==> final(self).lock == old(self).lock,
    {
        match event {
            Event::Command(Opcode::Standby) => {
                self.lock = None;
                true
            },
            _ => false,
        }
    }
}

} // verus!
