//! The decisions of the window's event handler.
//!
//! Resize notifications come in bursts while a window is dragged. Each one
//! starts a delay and cancels the delay before it, so that only the size of
//! the last notification of a burst is ever applied. While a delay runs,
//! requests to redraw are dropped: the frame that follows the resize takes
//! their place.
//!
//! Nothing here waits or draws. The handler is told what happened and
//! answers with what to do; delays are told apart by tickets.

use vstd::prelude::*;
use crate::config::ShuiqiOptions;
use crate::render::PhysicalSize;

verus! {

/// The application: its settings.
pub struct ShuqiApp {
    config: ShuiqiOptions,
}

impl ShuqiApp {
    /// The quiet time before a resize is applied, in milliseconds.
    pub closed spec fn interval(&self) -> u128 {
        self.config.resize_interval
    }

    /// An application with the given settings.
    pub fn new(config: ShuiqiOptions) -> (app: Self)
        ensures
            app.interval() == config.resize_interval,
    {
        ShuqiApp { config }
    }

    /// The quiet time before a resize is applied, in milliseconds.
    pub fn resize_interval(&self) -> (interval: u128)
        ensures
            interval == self.interval(),
    {
        self.config.resize_interval
    }
}

impl Default for ShuqiApp {
    fn default() -> (app: Self)
        ensures
            app.interval() == 250,
    {
        ShuqiApp { config: ShuiqiOptions::default() }
    }
}

/// What the window system reports.
#[derive(Clone, Copy, Debug, PartialEq, Eq, Structural)]
pub enum WindowEvent {
    /// The user asked to close the window.
    CloseRequested,
    /// The window wants its content drawn.
    RedrawRequested,
    /// The window's drawable area now has this extent.
    Resized(PhysicalSize),
    /// Anything else.
    Other,
}

/// A resize that waits for its delay to run out.
#[derive(Clone, Copy, Debug, PartialEq, Eq, Structural)]
pub struct PendingResize {
    /// The ticket of the delay.
    pub ticket: u64,
    /// The extent to apply.
    pub size: PhysicalSize,
}

/// The order to start a delay for a resize.
#[derive(Clone, Copy, Debug, PartialEq, Eq, Structural)]
pub struct ResizeOrder {
    /// The ticket of the delay that is superseded and has to be cancelled,
    /// if one was running.
    pub cancel: Option<u64>,
    /// The ticket to report when the new delay has run out.
    pub ticket: u64,
    /// The length of the new delay in milliseconds.
    pub delay_millis: u64,
    /// The extent that the resize will apply.
    pub size: PhysicalSize,
}

/// What to do about an event.
#[derive(Clone, Copy, Debug, PartialEq, Eq, Structural)]
pub enum Action {
    /// Leave the event loop.
    Exit,
    /// Draw a frame.
    Render,
    /// Cancel the running delay, if any, and start a new one.
    Schedule(ResizeOrder),
    /// Do nothing.
    Ignore,
}

/// The event handler's state.
pub struct ShuqiIntermediateApp {
    app: ShuqiApp,
    renderer_ready: bool,
    issued: u64,
    resize_task: Option<PendingResize>,
}

/// The event handler's state, laid open.
pub struct HandlerState {
    /// The quiet time before a resize is applied, in milliseconds.
    pub interval: u128,
    /// Whether a renderer exists yet.
    pub ready: bool,
    /// The ticket that was issued last.
    pub issued: u64,
    /// The resize that waits for its delay, if any.
    pub pending: Option<PendingResize>,
}

/// The ticket issued after `issued`.
pub open spec fn next_ticket(issued: u64) -> u64 {
    if issued == u64::MAX {
        0
    } else {
        (issued + 1) as u64
    }
}

/// The delay for an interval: its low 64 bits.
pub open spec fn delay_for(interval: u128) -> u64 {
    (interval % 0x1_0000_0000_0000_0000) as u64
}

impl HandlerState {
    /// The state is one that a handler can be in: a pending resize carries
    /// the ticket that was issued last.
    pub open spec fn wf(self) -> bool {
        self.pending matches Some(pending) ==> pending.ticket == self.issued
    }

    /// The order that a resize notification for `size` gives rise to.
    pub open spec fn order_for(self, size: PhysicalSize) -> ResizeOrder {
        ResizeOrder {
            cancel: match self.pending {
                Some(pending) => Some(pending.ticket),
                None => None,
            },
            ticket: next_ticket(self.issued),
            delay_millis: delay_for(self.interval),
            size,
        }
    }

    /// The state after a resize notification for `size`: the notification's
    /// delay is the one that runs.
    pub open spec fn after_resize(self, size: PhysicalSize) -> HandlerState {
        HandlerState {
            issued: next_ticket(self.issued),
            pending: Some(PendingResize { ticket: next_ticket(self.issued), size }),
            ..self
        }
    }

    /// The extent to apply when the delay with `ticket` has run out: that of
    /// the pending resize if the ticket is its own, none for any other.
    pub open spec fn due(self, ticket: u64) -> Option<PhysicalSize> {
        match self.pending {
            Some(pending) => if pending.ticket == ticket {
                Some(pending.size)
            } else {
                None
            },
            None => None,
        }
    }

    /// The state after the delay with `ticket` has run out: nothing is
    /// pending any more if the ticket was that of the pending resize.
    pub open spec fn after_elapsed(self, ticket: u64) -> HandlerState {
        if self.due(ticket) is Some {
            HandlerState { pending: None, ..self }
        } else {
            self
        }
    }

    /// What to do about `event`.
    pub open spec fn reaction(self, event: WindowEvent) -> Action {
        match event {
            WindowEvent::CloseRequested => Action::Exit,
            WindowEvent::RedrawRequested => if self.pending is None && self.ready {
                Action::Render
            } else {
                Action::Ignore
            },
            WindowEvent::Resized(size) => Action::Schedule(self.order_for(size)),
            WindowEvent::Other => Action::Ignore,
        }
    }

    /// The state after `event`.
    pub open spec fn after_event(self, event: WindowEvent) -> HandlerState {
        match event {
            WindowEvent::Resized(size) => self.after_resize(size),
            _ => self,
        }
    }

    /// The state after a burst of resize notifications, one for each of
    /// `sizes` in order, with no delay running out in between.
    pub open spec fn after_burst(self, sizes: Seq<PhysicalSize>) -> HandlerState
        decreases sizes.len(),
    {
        if sizes.len() == 0 {
            self
        } else {
            self.after_burst(sizes.drop_last()).after_resize(sizes.last())
        }
    }
}

impl View for ShuqiIntermediateApp {
    type V = HandlerState;

    closed spec fn view(&self) -> HandlerState {
        HandlerState {
            interval: self.app.interval(),
            ready: self.renderer_ready,
            issued: self.issued,
            pending: self.resize_task,
        }
    }
}

impl ShuqiIntermediateApp {
    #[verifier::type_invariant]
    spec fn pending_ticket_is_latest(self) -> bool {
        self.resize_task matches Some(pending) ==> pending.ticket == self.issued
    }

    /// A handler for `app`: no renderer yet, nothing pending.
    pub fn new(app: ShuqiApp) -> (handler: Self)
        ensures
            handler@ == (HandlerState {
                interval: app.interval(),
                ready: false,
                issued: 0,
                pending: None,
            }),
            handler@.wf(),
    {
        ShuqiIntermediateApp { app, renderer_ready: false, issued: 0, resize_task: None }
    }

    /// Records that the window and its renderer exist.
    pub fn resumed(&mut self)
        ensures
            final(self)@ == (HandlerState { ready: true, ..old(self)@ }),
            final(self)@.wf(),
    {
        proof {
            use_type_invariant(&*self);
        }
        self.renderer_ready = true;
    }

    /// Whether a renderer exists yet.
    pub fn is_ready(&self) -> (ready: bool)
        ensures
            ready == self@.ready,
    {
        self.renderer_ready
    }

    /// The resize that waits for its delay, if any.
    pub fn pending(&self) -> (pending: Option<PendingResize>)
        ensures
            pending == self@.pending,
            self@.wf(),
    {
        proof {
            use_type_invariant(self);
        }
        self.resize_task
    }

    /// Takes a resize notification: the delay that runs, if any, is to be
    /// cancelled, and a new one started for `size`.
    pub fn schedule_resize(&mut self, size: PhysicalSize) -> (order: ResizeOrder)
        requires
            old(self)@.ready,
        ensures
            order == old(self)@.order_for(size),
            final(self)@ == old(self)@.after_resize(size),
            final(self)@.wf(),
    {
        let cancel = match self.resize_task {
            Some(pending) => Some(pending.ticket),
            None => None,
        };
        let ticket = self.issued.wrapping_add(1);
        let delay = self.app.resize_interval();
        let delay_millis = (delay % 0x1_0000_0000_0000_0000) as u64;
        self.resize_task = None;
        self.issued = ticket;
        self.resize_task = Some(PendingResize { ticket, size });
        ResizeOrder { cancel, ticket, delay_millis, size }
    }

    /// Takes the news that the delay with `ticket` has run out. Where that
    /// delay belongs to the pending resize, the resize is due: its extent is
    /// returned to be applied and followed by a frame, and nothing is pending
    /// any more. The ticket of a superseded delay changes nothing.
    pub fn resize_elapsed(&mut self, ticket: u64) -> (due: Option<PhysicalSize>)
        ensures
            due == old(self)@.due(ticket),
            final(self)@ == old(self)@.after_elapsed(ticket),
            final(self)@.wf(),
    {
        proof {
            use_type_invariant(&*self);
        }
        match self.resize_task {
            Some(pending) => {
                if pending.ticket == ticket {
                    self.resize_task = None;
                    Some(pending.size)
                } else {
                    None
                }
            },
            None => None,
        }
    }

    /// Decides what to do about an event of the window: to leave on a close
    /// request; to draw on a redraw request, unless a resize is pending or
    /// there is no renderer; to start a delay on a resize.
    pub fn window_event(&mut self, event: WindowEvent) -> (action: Action)
        requires
            event is Resized ==> old(self)@.ready,
        ensures
            action == old(self)@.reaction(event),
            final(self)@ == old(self)@.after_event(event),
            final(self)@.wf(),
    {
        proof {
            use_type_invariant(&*self);
        }
        match event {
            WindowEvent::CloseRequested => Action::Exit,
            WindowEvent::RedrawRequested => {
                if self.resize_task.is_some() {
                    return Action::Ignore;
                }
                if self.renderer_ready {
                    Action::Render
                } else {
                    Action::Ignore
                }
            },
            WindowEvent::Resized(size) => Action::Schedule(self.schedule_resize(size)),
            WindowEvent::Other => Action::Ignore,
        }
    }
}

/// While a resize is pending, a redraw request draws nothing.
pub proof fn lemma_redraw_is_dropped_while_pending(state: HandlerState)
    requires
        state.pending is Some,
    ensures
        state.reaction(WindowEvent::RedrawRequested) == Action::Ignore,
        state.after_event(WindowEvent::RedrawRequested) == state,
{
}

/// A resize notification supersedes the pending resize: the order cancels
/// its delay, and its ticket no longer makes anything due.
pub proof fn lemma_resize_supersedes(state: HandlerState, size: PhysicalSize)
    requires
        state.wf(),
    ensures
        state.after_resize(size).wf(),
        state.pending matches Some(pending) ==> {
            &&& state.order_for(size).cancel == Some(pending.ticket)
            &&& state.after_resize(size).due(pending.ticket) is None
        },
        state.after_resize(size).due(state.order_for(size).ticket) == Some(size),
{
}

/// After a burst of resize notifications exactly one resize is pending: that
/// of the last notification. Its ticket is the only one that makes a resize
/// due, and what is due is the last extent, never an earlier one. Once it has
/// been applied, nothing is due any more.
pub proof fn lemma_burst_coalesces(state: HandlerState, sizes: Seq<PhysicalSize>)
    requires
        state.wf(),
        sizes.len() > 0,
    ensures
        ({
            let end = state.after_burst(sizes);
            &&& end.wf()
            &&& end.pending matches Some(pending) && pending.size == sizes.last()
            &&& end.due(end.issued) == Some(sizes.last())
            &&& forall|ticket: u64| ticket != end.issued ==> #[trigger] end.due(ticket) is None
            &&& forall|ticket: u64| #[trigger] end.after_elapsed(end.issued).due(ticket) is None
        }),
{
}

} // verus!
