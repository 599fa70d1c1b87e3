//! Handles to the event loop: the dispatcher that other parts hold, the
//! installer for an existing event loop, and the mouse listener.
use vstd::prelude::*;

use std::sync::atomic::AtomicBool;
use std::sync::Arc;

use crate::error::Result;
use crate::native_window::WindowId;

verus! {

/// Where closures are sent to run on the event-loop thread: the loop's
/// hidden message window and the loop thread's identifier.
#[derive(Clone, Copy, Debug, PartialEq, Eq, Structural)]
pub struct EventLoopSource {
    pub message_window_handle: WindowId,
    pub thread_id: u32,
}

/// A handle for running work on the event loop, shared by the parts of the
/// platform layer.
#[derive(Clone)]
pub struct Dispatcher {
    source: Option<EventLoopSource>,
    stopped: Arc<AtomicBool>,
}

impl Dispatcher {
    /// The event loop that this dispatcher sends to, if it has one.
    pub closed spec fn spec_source(&self) -> Option<EventLoopSource> {
        self.source
    }

    /// Creates a dispatcher for the event loop `source` (none for an event
    /// loop that is driven from outside), with the shared stop flag
    /// `stopped`.
    pub fn new(source: Option<EventLoopSource>, stopped: Arc<AtomicBool>) -> (r: Dispatcher)
        ensures
            r.spec_source() == source,
            r.spec_stopped() == stopped,
    {
        Dispatcher { source, stopped }
    }

    /// The event loop that this dispatcher sends to, if it has one.
    pub fn source(&self) -> (r: Option<EventLoopSource>)
        ensures
            r == self.spec_source(),
    {
        self.source
    }

    /// The stop flag that this dispatcher shares with its event loop.
    pub closed spec fn spec_stopped(&self) -> Arc<AtomicBool> {
        self.stopped
    }

    /// The stop flag that this dispatcher shares with its event loop.
    pub fn stopped(&self) -> (r: &Arc<AtomicBool>)
        ensures
            *r == self.spec_stopped(),
    {
        &self.stopped
    }
}

/// An installer for integrating a [`Dispatcher`] with an existing event loop.
pub struct EventLoopInstaller;

impl EventLoopInstaller {
    /// Creates a new installer and a dispatcher for integrating with an
    /// existing event loop. The dispatcher has no event loop of its own, and
    /// its stop flag is not set.
    pub fn new() -> (r: Result<(EventLoopInstaller, Dispatcher)>)
        ensures
            r matches Ok((_, d)) && d.spec_source() is None,
    {
        let stopped = Arc::new(AtomicBool::new(false));
        let dispatcher = Dispatcher::new(None, stopped);
        Ok((EventLoopInstaller, dispatcher))
    }
}

/// A listener for system-wide mouse events.
pub struct MouseListener {
    dispatcher: Dispatcher,
}

/// Another pointer to the stop flag `flag` (`Arc::clone`): the clone points
/// to the same allocation, so it stands for the same flag.
#[verifier::external_body]
fn share_stop_flag(flag: &Arc<AtomicBool>) -> (r: Arc<AtomicBool>)
    ensures
        r == *flag,
{
    Arc::clone(flag)
}

impl MouseListener {
    /// The dispatcher that this listener holds.
    pub closed spec fn spec_dispatcher(&self) -> Dispatcher {
        self.dispatcher
    }

    /// Creates a new mouse listener that holds a copy of `dispatcher`: one
    /// with the same event loop that shares its stop flag.
    pub fn new(dispatcher: &Dispatcher) -> (r: Result<MouseListener>)
        ensures
            r matches Ok(l) && l.spec_dispatcher().spec_source() == dispatcher.spec_source()
                && l.spec_dispatcher().spec_stopped() == dispatcher.spec_stopped(),
    {
        let copy = Dispatcher::new(dispatcher.source(), share_stop_flag(dispatcher.stopped()));
        Ok(MouseListener { dispatcher: copy })
    }
}

} // verus!
