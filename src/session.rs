use vstd::prelude::*;

use crate::consumer::Consumer;
use crate::controller::Controller;
use crate::handle::{release, Handle};

verus! {

/// A trace session: the controller that started it and the consumer that
/// reads it, each with the handle it must release.
pub struct ETWSession {
    controller: Controller,
    consumer: Consumer,
}

/// The handles that tearing a session down releases, in order: first the
/// session is stopped, then the consumption handle is closed.
#[derive(Debug, Clone, Copy, PartialEq, Eq, Structural)]
pub struct Teardown {
    pub stop: Option<u64>,
    pub close: Option<u64>,
}

impl ETWSession {
    /// The controller part.
    pub closed spec fn control_part(&self) -> Controller {
        self.controller
    }

    /// The consumer part.
    pub closed spec fn consume_part(&self) -> Consumer {
        self.consumer
    }

    /// A session of a started controller and an opened consumer.
    pub fn new(controller: Controller, consumer: Consumer) -> (r: ETWSession)
        ensures
            r.control_part() == controller,
            r.consume_part() == consumer,
    {
        ETWSession { controller, consumer }
    }

    /// The controller part.
    pub fn controller(&self) -> (r: &Controller)
        ensures
            *r == self.control_part(),
    {
        &self.controller
    }

    /// The consumer part.
    pub fn consumer(&self) -> (r: &Consumer)
        ensures
            *r == self.consume_part(),
    {
        &self.consumer
    }

    /// The consumption handle to pump, where the session is ready to be read:
    /// the controller has started it and the consumer holds a handle.
    pub fn start_session(&self) -> (r: Option<u64>)
        ensures
            r is Some <==> (self.control_part().control() is Open
                && self.consume_part().consume() is Open),
            r is Some ==> r == release(self.consume_part().consume()).0,
    {
        if self.controller.is_started() {
            self.consumer.pump_handle()
        } else {
            None
        }
    }

    /// The handles to release, each once: the control handle to stop the
    /// session with, then the consumption handle to close. Afterwards nothing
    /// is held, and a second teardown releases nothing.
    pub fn teardown(&mut self) -> (r: Teardown)
        ensures
            r.stop == release(old(self).control_part().control()).0,
            r.close == release(old(self).consume_part().consume()).0,
            final(self).control_part().control() == Handle::Closed,
            final(self).consume_part().consume() == Handle::Closed,
            final(self).control_part().block() == old(self).control_part().block(),
            final(self).control_part().name() == old(self).control_part().name(),
    {
        let stop = self.controller.take_stop();
        let close = self.consumer.take_close();
        Teardown { stop, close }
    }
}

} // verus!
