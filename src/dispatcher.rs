use either::Either;
use vstd::prelude::*;

use crate::error::{DispatchItem, DispatcherError};
use crate::timer::Timer;

verus! {

/// Keep-alive timeout, in seconds, of a new dispatcher.
pub const DEFAULT_KEEPALIVE: u16 = 30;

/// Disconnect timeout, in milliseconds, of a new connection state.
pub const DEFAULT_DISCONNECT: u16 = 1000;

/// The lifecycle of a dispatcher. It only ever moves forward.
#[derive(Clone, Copy, Debug, PartialEq, Eq, Structural)]
pub enum DispatcherState {
    Processing,
    Stop,
    Shutdown,
}

/// Position of a lifecycle state: transitions never lower it.
pub open spec fn rank(s: DispatcherState) -> int {
    match s {
        DispatcherState::Processing => 0,
        DispatcherState::Stop => 1,
        DispatcherState::Shutdown => 2,
    }
}

/// The answer of the handler's readiness check.
pub enum Readiness<E> {
    Ready,
    NotReady,
    Failed(E),
}

/// Outcome of the backpressure gate.
pub enum PollService<F, D, C, I> {
    /// An item to hand to the handler without decoding a frame.
    Item(DispatchItem<F, D, C, I>),
    /// The handler failed, or the connection was told to stop with no error:
    /// go round again without consuming a frame.
    ServiceError,
    /// The handler is saturated.
    Pending,
    /// The handler takes work: a frame may be decoded.
    Ready,
}

/// What a suspended dispatcher waits for before it is woken.
#[derive(Clone, Copy, Debug, PartialEq, Eq, Structural)]
pub enum WakeOn {
    /// New events on the connection (read readiness, a stop request,
    /// completions of detached calls).
    Events,
    /// More bytes: the buffer holds no complete frame.
    MoreData,
    /// The handler becomes ready again; reading is paused meanwhile.
    ServiceReady,
    /// The handler's shutdown hook makes progress.
    Handler,
}

/// What the dispatcher needs the driver to report next.
#[derive(Clone, Copy, Debug, PartialEq, Eq, Structural)]
pub enum Awaiting {
    /// Nothing in particular: the next poll of the task.
    Idle,
    /// The handler's readiness.
    Readiness,
    /// The outcome of decoding one frame.
    Decode,
    /// The outcome of polling the inline handler call once.
    Inline,
    /// The outcome of polling the handler's shutdown hook.
    Shutdown,
    /// Nothing more: the dispatcher has finished.
    Finished,
}

/// What the driver reports to the dispatcher.
#[verifier::reject_recursive_types(E)]
#[verifier::reject_recursive_types(C)]
pub enum Event<F, D, E, C> {
    /// The task was polled.
    Woken,
    /// The pending inline handler call completed, and its response was
    /// written back with this outcome.
    InlineReady(Result<(), Either<E, C>>),
    /// The handler's readiness, as asked by `Action::PollReady`.
    Readiness(Readiness<E>),
    /// The outcome of decoding, as asked by `Action::Decode`.
    Decoded(Result<Option<F>, D>),
    /// The inline call started by `Action::Call`, polled once: `None` when it
    /// is still pending, else the outcome of writing its response back.
    InlinePolled(Option<Result<(), Either<E, C>>>),
    /// Whether the handler's shutdown hook has completed.
    ShutdownPolled(bool),
}

/// What the driver must do next.
pub enum Action<F, D, E, C, I> {
    /// Ask the handler whether it is ready.
    PollReady,
    /// Decode one frame from the read buffer.
    Decode,
    /// Start a handler call on the item and poll it once, inline.
    Call(DispatchItem<F, D, C, I>),
    /// Run a handler call on the item as a task of its own; its completion is
    /// reported through `Dispatcher::handle_result`.
    Spawn(DispatchItem<F, D, C, I>),
    /// Return to the scheduler until woken.
    Suspend(WakeOn),
    /// Poll the handler's shutdown hook, telling it whether an error is pending.
    PollShutdown(bool),
    /// The dispatcher has finished, with this result.
    Done(Result<(), E>),
}

impl<F, D, E, C, I> Action<F, D, E, C, I> {
    /// The frame that this action hands to the handler, if any.
    pub open spec fn dispatched_frame(&self) -> Option<F> {
        match *self {
            Action::Call(DispatchItem::Item(f)) => Some(f),
            Action::Spawn(DispatchItem::Item(f)) => Some(f),
            _ => None,
        }
    }

    /// The item that this action hands to the handler, if any.
    pub open spec fn dispatched_item(&self) -> Option<DispatchItem<F, D, C, I>> {
        match *self {
            Action::Call(item) => Some(item),
            Action::Spawn(item) => Some(item),
            _ => None,
        }
    }

    /// The action hands an error item to the handler.
    pub open spec fn dispatches_error(&self) -> bool {
        match *self {
            Action::Call(item) => item.is_error(),
            Action::Spawn(item) => item.is_error(),
            _ => false,
        }
    }

    /// The action hands the keep-alive timeout to the handler.
    pub open spec fn dispatches_keepalive(&self) -> bool {
        match *self {
            Action::Call(item) => item is KeepAliveTimeout,
            Action::Spawn(item) => item is KeepAliveTimeout,
            _ => false,
        }
    }

    /// What the dispatcher waits for once the driver has been given this action.
    pub open spec fn awaits(&self) -> Awaiting {
        match *self {
            Action::PollReady => Awaiting::Readiness,
            Action::Decode => Awaiting::Decode,
            Action::Call(_) => Awaiting::Inline,
            Action::Spawn(_) => Awaiting::Idle,
            Action::Suspend(_) => Awaiting::Idle,
            Action::PollShutdown(_) => Awaiting::Shutdown,
            Action::Done(_) => Awaiting::Finished,
        }
    }
}

impl<F, D, E, C> Event<F, D, E, C> {
    /// The frame that this event brings, if any.
    pub open spec fn decoded_frame(&self) -> Option<F> {
        match *self {
            Event::Decoded(Ok(Some(f))) => Some(f),
            _ => None,
        }
    }
}

/// The flags of the connection state that the dispatcher reads and sets.
pub struct State<I> {
    /// The read buffer holds bytes not yet decoded.
    pub read_ready: bool,
    /// The connection asked the dispatcher to stop.
    pub dsp_stopped: bool,
    /// An error of the transport, not yet taken.
    pub io_error: Option<I>,
    /// Reading is paused because the handler is saturated.
    pub read_paused: bool,
    /// The dispatcher asked the transport to shut down.
    pub shutdown: bool,
    /// Disconnect timeout, in milliseconds; 0 disables it.
    pub disconnect_timeout: u16,
}

impl<I> State<I> {
    /// A connection with nothing read, no request and the default
    /// disconnect timeout.
    pub fn new() -> (r: Self)
        ensures
            !r.read_ready,
            !r.dsp_stopped,
            r.io_error is None,
            !r.read_paused,
            !r.shutdown,
            r.disconnect_timeout == DEFAULT_DISCONNECT,
    {
        State {
            read_ready: false,
            dsp_stopped: false,
            io_error: None,
            read_paused: false,
            shutdown: false,
            disconnect_timeout: DEFAULT_DISCONNECT,
        }
    }

    /// Takes the transport's error, leaving none.
    pub fn take_io_error(&mut self) -> (r: Option<I>)
        ensures
            r == old(self).io_error,
            final(self).io_error is None,
            final(self).read_ready == old(self).read_ready,
            final(self).dsp_stopped == old(self).dsp_stopped,
            final(self).read_paused == old(self).read_paused,
            final(self).shutdown == old(self).shutdown,
            final(self).disconnect_timeout == old(self).disconnect_timeout,
    {
        self.io_error.take()
    }
}

/// The cell shared by the dispatch loop and the detached handler calls: how
/// many calls have not yet written their response back, and the first error
/// that is not yet consumed.
pub struct DispatcherShared<E, C> {
    error: Option<DispatcherError<E, C>>,
    inflight: usize,
}

/// The error cell after a response was written back with `written`: the first
/// error recorded stays until it is consumed.
pub open spec fn recorded<E, C>(
    prev: Option<DispatcherError<E, C>>,
    written: Result<(), Either<E, C>>,
) -> Option<DispatcherError<E, C>> {
    match written {
        Ok(()) => prev,
        Err(e) => if prev is Some {
            prev
        } else {
            Some(DispatcherError::of_either(e))
        },
    }
}

impl<E, C> DispatcherShared<E, C> {
    pub closed spec fn pending(&self) -> Option<DispatcherError<E, C>> {
        self.error
    }

    pub closed spec fn count(&self) -> nat {
        self.inflight as nat
    }

    fn new() -> (r: Self)
        ensures
            r.pending() is None,
            r.count() == 0,
    {
        DispatcherShared { error: None, inflight: 0 }
    }

    /// Records the outcome of writing a response back.
    fn record(&mut self, written: Result<(), Either<E, C>>)
        ensures
            final(self).pending() == recorded(old(self).pending(), written),
            final(self).count() == old(self).count(),
    {
        if let Err(err) = written {
            if self.error.is_none() {
                self.error = Some(DispatcherError::from(err));
            }
        }
    }

    /// A handler call that was counted in flight has written its response
    /// back with `written`. Returns whether the dispatch loop is to be woken.
    pub fn handle_result(&mut self, written: Result<(), Either<E, C>>, wake: bool) -> (r: bool)
        requires
            old(self).count() > 0,
        ensures
            final(self).count() == old(self).count() - 1,
            final(self).pending() == recorded(old(self).pending(), written),
            r == wake,
    {
        self.inflight = self.inflight - 1;
        self.record(written);
        wake
    }
}

/// The dispatch engine of one connection.
pub struct Dispatcher<E, C, I> {
    st: DispatcherState,
    state: State<I>,
    timer: Timer,
    ka_timeout: u16,
    ka_updated: u32,
    error: Option<E>,
    shared: DispatcherShared<E, C>,
    inline: bool,
    awaiting: Awaiting,
}

impl<E, C, I> Dispatcher<E, C, I> {
    pub closed spec fn lifecycle(&self) -> DispatcherState {
        self.st
    }

    pub closed spec fn conn(&self) -> State<I> {
        self.state
    }

    pub closed spec fn clock(&self) -> Timer {
        self.timer
    }

    /// Keep-alive timeout in seconds; 0 when it is disabled.
    pub closed spec fn keepalive(&self) -> u16 {
        self.ka_timeout
    }

    /// Clock reading at the last keep-alive update.
    pub closed spec fn keepalive_updated(&self) -> u32 {
        self.ka_updated
    }

    /// The handler error that becomes the final result.
    pub closed spec fn final_error(&self) -> Option<E> {
        self.error
    }

    /// The error in the shared cell, not yet consumed.
    pub closed spec fn pending_error(&self) -> Option<DispatcherError<E, C>> {
        self.shared.pending()
    }

    /// Handler calls that have not yet written their response back.
    pub closed spec fn inflight(&self) -> nat {
        self.shared.count()
    }

    /// An inline handler call has been started and has not completed.
    pub closed spec fn inline_pending(&self) -> bool {
        self.inline
    }

    pub closed spec fn awaiting(&self) -> Awaiting {
        self.awaiting
    }

    /// The keep-alive deadline that the connection holds in each state.
    pub open spec fn keepalive_registration(&self) -> Option<u64> {
        if self.lifecycle() == DispatcherState::Processing && self.keepalive() > 0 {
            Some((self.keepalive_updated() + self.keepalive()) as u64)
        } else {
            None
        }
    }

    /// Detached calls in flight: those counted, less the inline call once it
    /// has been counted.
    pub open spec fn detached(&self) -> int {
        self.inflight() - if self.inline_pending() && self.awaiting() != Awaiting::Inline {
            1int
        } else {
            0int
        }
    }

    pub closed spec fn wf(&self) -> bool {
        &&& self.timer.registered() == self.keepalive_registration()
        &&& (self.ka_timeout == 0 ==> !(self.shared.error matches Some(DispatcherError::KeepAlive)))
        &&& (self.st == DispatcherState::Processing ==> self.error is None)
        &&& (self.st == DispatcherState::Shutdown ==> self.shared.inflight == 0 && !self.inline)
        &&& (self.inline && self.awaiting != Awaiting::Inline ==> self.shared.inflight >= 1)
        &&& (self.awaiting == Awaiting::Inline ==> self.inline && self.st
            != DispatcherState::Shutdown)
        &&& (self.awaiting == Awaiting::Readiness ==> self.st != DispatcherState::Shutdown)
        &&& (self.awaiting == Awaiting::Decode ==> self.st == DispatcherState::Processing
            && self.shared.error is None)
        &&& (self.awaiting == Awaiting::Shutdown || self.awaiting == Awaiting::Finished ==> self.st
            == DispatcherState::Shutdown)
    }

    /// A dispatcher that has not been polled yet.
    pub open spec fn fresh(&self) -> bool {
        &&& self.wf()
        &&& self.lifecycle() == DispatcherState::Processing
        &&& self.awaiting() == Awaiting::Idle
        &&& self.inflight() == 0
        &&& !self.inline_pending()
        &&& self.pending_error() is None
    }

    /// The driver reports what the dispatcher waits for.
    pub open spec fn expects<F, D>(&self, ev: Event<F, D, E, C>) -> bool {
        match ev {
            Event::Woken => self.awaiting() == Awaiting::Idle,
            Event::InlineReady(_) => self.awaiting() == Awaiting::Idle && self.inline_pending(),
            Event::Readiness(_) => self.awaiting() == Awaiting::Readiness,
            Event::Decoded(_) => self.awaiting() == Awaiting::Decode,
            Event::InlinePolled(_) => self.awaiting() == Awaiting::Inline,
            Event::ShutdownPolled(_) => self.awaiting() == Awaiting::Shutdown,
        }
    }

    /// A dispatcher over the connection `state`, with keep-alive registered
    /// for the default timeout from the timer's clock.
    pub fn from_state(state: State<I>, timer: Timer) -> (r: Self)
        requires
            timer.registered() is None,
        ensures
            r.fresh(),
            r.conn() == state,
            r.keepalive() == DEFAULT_KEEPALIVE,
            r.keepalive_updated() == timer.clock(),
            r.clock().clock() == timer.clock(),
            r.clock().registered() == Some((timer.clock() + DEFAULT_KEEPALIVE) as u64),
            r.final_error() is None,
    {
        let mut timer = timer;
        let updated = timer.now();
        let ka_timeout: u16 = DEFAULT_KEEPALIVE;
        let expire = updated as u64 + ka_timeout as u64;
        timer.register(expire, expire);
        Dispatcher {
            st: DispatcherState::Processing,
            state,
            timer,
            ka_timeout,
            ka_updated: updated,
            error: None,
            shared: DispatcherShared::new(),
            inline: false,
            awaiting: Awaiting::Idle,
        }
    }

    /// A dispatcher over a new connection state.
    pub fn new(timer: Timer) -> (r: Self)
        requires
            timer.registered() is None,
        ensures
            r.fresh(),
            !r.conn().read_ready && !r.conn().dsp_stopped && r.conn().io_error is None,
            !r.conn().read_paused && !r.conn().shutdown,
            r.conn().disconnect_timeout == DEFAULT_DISCONNECT,
            r.keepalive() == DEFAULT_KEEPALIVE,
            r.keepalive_updated() == timer.clock(),
            r.clock().clock() == timer.clock(),
            r.clock().registered() == Some((timer.clock() + DEFAULT_KEEPALIVE) as u64),
            r.final_error() is None,
    {
        Self::from_state(State::new(), timer)
    }
}

/// The final result once the handler's shutdown hook has completed.
pub open spec fn final_result<E>(error: Option<E>) -> Result<(), E> {
    match error {
        Some(e) => Err(e),
        None => Ok(()),
    }
}

impl<E, C, I> Dispatcher<E, C, I> {
    /// Everything but the keep-alive bookkeeping is the same in `self` and `o`.
    spec fn same_flow(&self, o: &Self) -> bool {
        &&& self.st == o.st
        &&& self.state == o.state
        &&& self.error == o.error
        &&& self.shared == o.shared
        &&& self.inline == o.inline
        &&& self.awaiting == o.awaiting
    }

    /// The keep-alive timeout as a number of seconds.
    fn ka(&self) -> (r: u64)
        ensures
            r == self.ka_timeout as u64,
    {
        self.ka_timeout as u64
    }

    fn ka_enabled(&self) -> (r: bool)
        ensures
            r == (self.ka_timeout > 0),
    {
        self.ka_timeout > 0
    }

    /// Records a keep-alive timeout in the shared cell when the registered
    /// deadline has elapsed, unless an error is pending there already.
    fn check_keepalive(&mut self)
        ensures
            final(self).shared.error == (if old(self).timer.expired()
                && old(self).shared.error is None {
                Some(DispatcherError::KeepAlive)
            } else {
                old(self).shared.error
            }),
            // with no deadline registered nothing is recorded
            old(self).timer.registered() is None ==> final(self).shared.error == old(self).shared.error,
            final(self).shared.inflight == old(self).shared.inflight,
            final(self).st == old(self).st,
            final(self).state == old(self).state,
            final(self).error == old(self).error,
            final(self).inline == old(self).inline,
            final(self).awaiting == old(self).awaiting,
            final(self).timer == old(self).timer,
            final(self).ka_timeout == old(self).ka_timeout,
            final(self).ka_updated == old(self).ka_updated,
    {
        if self.timer.is_expired() {
            if self.shared.error.is_none() {
                self.shared.error = Some(DispatcherError::KeepAlive);
            }
        }
    }

    /// After a frame was decoded: moves the deadline to `now + timeout` when
    /// keep-alive is enabled and the clock has moved since the last update.
    fn update_keepalive(&mut self)
        requires
            old(self).timer.registered() == old(self).keepalive_registration(),
            old(self).st == DispatcherState::Processing,
        ensures
            final(self).same_flow(old(self)),
            final(self).ka_timeout == old(self).ka_timeout,
            final(self).ka_updated == (if old(self).ka_timeout > 0 {
                old(self).timer.clock()
            } else {
                old(self).ka_updated
            }),
            final(self).timer.clock() == old(self).timer.clock(),
            final(self).timer.registered() == final(self).keepalive_registration(),
    {
        if self.ka_enabled() {
            let updated = self.timer.now();
            if updated != self.ka_updated {
                let ka = self.ka();
                self.timer.register(updated as u64 + ka, self.ka_updated as u64 + ka);
                self.ka_updated = updated;
            }
        }
    }

    /// Removes the keep-alive registration; does nothing when keep-alive is
    /// disabled.
    fn unregister_keepalive(&mut self)
        ensures
            final(self).same_flow(old(self)),
            final(self).ka_timeout == old(self).ka_timeout,
            final(self).ka_updated == old(self).ka_updated,
            final(self).timer.clock() == old(self).timer.clock(),
            final(self).timer.registered() == (if old(self).ka_timeout > 0 {
                crate::timer::after_unregister(
                    old(self).timer.registered(),
                    (old(self).ka_updated + old(self).ka_timeout) as u64,
                )
            } else {
                old(self).timer.registered()
            }),
    {
        if self.ka_enabled() {
            let expire = self.ka_updated as u64 + self.ka();
            self.timer.unregister(expire);
        }
    }

    /// The backpressure gate: turns the handler's readiness, the keep-alive
    /// deadline, the shared error and a stop request into the next unit of
    /// work.
    fn poll_service<F, D>(&mut self, ready: Readiness<E>) -> (r: PollService<F, D, C, I>)
        requires
            old(self).wf(),
            old(self).st == DispatcherState::Processing,
            old(self).awaiting == Awaiting::Readiness,
        ensures
            final(self).wf(),
            final(self).awaiting == old(self).awaiting,
            final(self).inline == old(self).inline,
            final(self).shared.inflight == old(self).shared.inflight,
            final(self).ka_timeout == old(self).ka_timeout,
            final(self).ka_updated == old(self).ka_updated,
            final(self).timer.clock() == old(self).timer.clock(),
            final(self).state.dsp_stopped == old(self).state.dsp_stopped,
            final(self).state.read_ready == old(self).state.read_ready,
            final(self).state.shutdown == old(self).state.shutdown,
            final(self).state.disconnect_timeout == old(self).state.disconnect_timeout,
            r is Pending <==> ready is NotReady,
            ready is NotReady ==> final(self).st == DispatcherState::Processing
                && final(self).state.read_paused && final(self).shared.error
                == old(self).shared.error,
            ready matches Readiness::Failed(e) ==> r is ServiceError && final(self).error == Some(
                e,
            ),
            ready is Failed ==> final(self).shared.error == old(self).shared.error
                && final(self).state.read_paused == old(self).state.read_paused
                && final(self).state.io_error == old(self).state.io_error,
            r is Ready ==> final(self).st == DispatcherState::Processing
                && final(self).shared.error is None && !final(self).state.read_paused,
            !(r is Ready || r is Pending) ==> final(self).st == DispatcherState::Stop,
            r matches PollService::Item(item) ==> item.is_error(),
            ready is Ready ==> !final(self).state.read_paused,
            !(r is ServiceError) ==> final(self).error == old(self).error,
            ready is Ready ==> match old(self).shared.error {
                Some(DispatcherError::KeepAlive) => r == PollService::<F, D, C, I>::Item(
                    DispatchItem::KeepAliveTimeout,
                ) && final(self).shared.error is None && final(self).state.io_error == old(self).state.io_error,
                Some(DispatcherError::Encoder(c)) => r == PollService::<F, D, C, I>::Item(
                    DispatchItem::EncoderError(c),
                ) && final(self).shared.error is None && final(self).state.io_error == old(self).state.io_error,
                Some(DispatcherError::Service(e)) => r is ServiceError && final(self).error
                    == Some(e) && final(self).shared.error is None && final(self).state.io_error
                    == old(self).state.io_error,
                None => if old(self).timer.expired() {
                    r == PollService::<F, D, C, I>::Item(DispatchItem::KeepAliveTimeout)
                        && final(self).shared.error is None && final(self).state.io_error == old(self).state.io_error
                } else if old(self).state.dsp_stopped {
                    final(self).state.io_error is None && final(self).shared.error is None
                        && match old(self).state.io_error {
                        Some(i) => r == PollService::<F, D, C, I>::Item(DispatchItem::IoError(i)),
                        None => r is ServiceError && final(self).error == old(self).error,
                    }
                } else {
                    r is Ready && final(self).state.io_error == old(self).state.io_error
                },
            },
            old(self).ka_timeout == 0 ==> !(r matches PollService::Item(
                DispatchItem::KeepAliveTimeout,
            )),
    {
        match ready {
            Readiness::Ready => {
                // the handler keeps up: reading may go on
                self.state.read_paused = false;
                self.check_keepalive();
                let err = self.shared.error.take();
                if let Some(err) = err {
                    self.unregister_keepalive();
                    self.st = DispatcherState::Stop;
                    match err {
                        DispatcherError::KeepAlive => PollService::Item(
                            DispatchItem::KeepAliveTimeout,
                        ),
                        DispatcherError::Encoder(e) => PollService::Item(
                            DispatchItem::EncoderError(e),
                        ),
                        DispatcherError::Service(e) => {
                            self.error = Some(e);
                            PollService::ServiceError
                        },
                    }
                } else if self.state.dsp_stopped {
                    self.unregister_keepalive();
                    self.st = DispatcherState::Stop;
                    match self.state.take_io_error() {
                        Some(e) => PollService::Item(DispatchItem::IoError(e)),
                        None => PollService::ServiceError,
                    }
                } else {
                    PollService::Ready
                }
            },
            Readiness::NotReady => {
                // no frame is decoded while the handler is saturated
                self.state.read_paused = true;
                PollService::Pending
            },
            Readiness::Failed(e) => {
                self.st = DispatcherState::Stop;
                self.error = Some(e);
                self.unregister_keepalive();
                PollService::ServiceError
            },
        }
    }
}

impl<E, C, I> Dispatcher<E, C, I> {
    /// Asks for what the current lifecycle state needs first.
    fn next_action<F, D>(&mut self) -> (r: Action<F, D, E, C, I>)
        requires
            old(self).wf(),
            old(self).awaiting == Awaiting::Idle || old(self).awaiting == Awaiting::Readiness,
        ensures
            final(self).wf(),
            final(self).awaiting == r.awaits(),
            final(self).st == old(self).st,
            final(self).state == old(self).state,
            final(self).error == old(self).error,
            final(self).shared == old(self).shared,
            final(self).inline == old(self).inline,
            final(self).ka_timeout == old(self).ka_timeout,
            final(self).ka_updated == old(self).ka_updated,
            final(self).timer == old(self).timer,
            old(self).st == DispatcherState::Shutdown ==> r == Action::<F, D, E, C, I>::PollShutdown(
                old(self).error is Some,
            ),
            old(self).st != DispatcherState::Shutdown ==> r is PollReady,
    {
        match self.st {
            DispatcherState::Shutdown => {
                self.awaiting = Awaiting::Shutdown;
                Action::PollShutdown(self.error.is_some())
            },
            _ => {
                self.awaiting = Awaiting::Readiness;
                Action::PollReady
            },
        }
    }

    /// Hands an item to the handler: inline when no inline call is pending,
    /// else as a detached call counted in flight.
    fn dispatch<F, D>(&mut self, item: DispatchItem<F, D, C, I>) -> (r: Action<F, D, E, C, I>)
        requires
            old(self).wf(),
            old(self).st != DispatcherState::Shutdown,
            old(self).awaiting != Awaiting::Inline,
            old(self).awaiting != Awaiting::Shutdown,
            old(self).awaiting != Awaiting::Finished,
            old(self).shared.inflight < usize::MAX,
        ensures
            final(self).wf(),
            final(self).awaiting == r.awaits(),
            final(self).st == old(self).st,
            final(self).state == old(self).state,
            final(self).error == old(self).error,
            final(self).shared.error == old(self).shared.error,
            final(self).ka_timeout == old(self).ka_timeout,
            final(self).ka_updated == old(self).ka_updated,
            final(self).timer == old(self).timer,
            !old(self).inline ==> r == Action::<F, D, E, C, I>::Call(item) && final(self).inline
                && final(self).shared.inflight == old(self).shared.inflight,
            old(self).inline ==> r == Action::<F, D, E, C, I>::Spawn(item) && final(self).inline
                && final(self).shared.inflight == old(self).shared.inflight + 1,
    {
        if !self.inline {
            self.inline = true;
            self.awaiting = Awaiting::Inline;
            Action::Call(item)
        } else {
            self.shared.inflight = self.shared.inflight + 1;
            self.awaiting = Awaiting::Idle;
            Action::Spawn(item)
        }
    }

    /// One step of the dispatcher: takes what the driver reports and returns
    /// what it must do next.
    pub fn poll<F, D>(&mut self, ev: Event<F, D, E, C>) -> (r: Action<F, D, E, C, I>)
        requires
            old(self).wf(),
            old(self).expects(ev),
            old(self).inflight() < usize::MAX,
        ensures
            final(self).wf(),
            final(self).awaiting() == r.awaits(),
            final(self).keepalive() == old(self).keepalive(),
            // what a step leaves as it was
            final(self).clock().clock() == old(self).clock().clock(),
            final(self).clock().registered() == final(self).keepalive_registration(),
            final(self).conn().read_ready == old(self).conn().read_ready,
            final(self).conn().dsp_stopped == old(self).conn().dsp_stopped,
            final(self).conn().disconnect_timeout == old(self).conn().disconnect_timeout,
            final(self).inflight() == old(self).inflight() + (if r is Spawn {
                1int
            } else {
                0int
            }) + (if ev == Event::<F, D, E, C>::InlinePolled(None) {
                1int
            } else {
                0int
            }) - (if ev is InlineReady {
                1int
            } else {
                0int
            }),
            !(ev matches Event::Decoded(Ok(Some(_)))) ==> final(self).keepalive_updated() == old(self).keepalive_updated(),
            !(ev is Readiness || ev is ShutdownPolled) ==> final(self).final_error() == old(self).final_error(),
            r.dispatched_item() is Some || r is Decode || r is Suspend ==> final(self).final_error()
                == old(self).final_error(),
            !(ev is Readiness || ev is InlineReady || ev matches Event::InlinePolled(Some(_)))
                ==> final(self).pending_error() == old(self).pending_error(),
            // every decoded frame goes to the handler in the same step, and no
            // other frame does
            r.dispatched_frame() == ev.decoded_frame(),
            ev.decoded_frame() is Some ==> (r is Call <==> !old(self).inline_pending()),
            // an item goes inline unless an inline call is pending already
            r.dispatched_item() is Some ==> (r is Call <==> !old(self).inline_pending()),
            final(self).inline_pending() == if r is Call {
                true
            } else if ev is InlineReady || ev matches Event::InlinePolled(Some(_)) {
                false
            } else {
                old(self).inline_pending()
            },
            // the lifecycle only moves forward
            rank(old(self).lifecycle()) <= rank(final(self).lifecycle()),
            // an error handed to the handler stops the pipeline
            r.dispatches_error() ==> final(self).lifecycle() == DispatcherState::Stop,
            ev is Decoded && !(ev.decoded_frame() is Some) && !(r is Suspend)
                ==> final(self).lifecycle() == DispatcherState::Stop,
            // a frame is decoded only while processing with no pending error
            old(self).lifecycle() != DispatcherState::Processing ==> !(r is Decode),
            old(self).pending_error() is Some ==> !(r is Decode),
            r is Decode ==> final(self).lifecycle() == DispatcherState::Processing
                && final(self).pending_error() is None && final(self).conn().read_ready,
            // shutdown starts only once nothing is in flight
            final(self).lifecycle() == DispatcherState::Shutdown && old(self).lifecycle()
                != DispatcherState::Shutdown ==> old(self).inflight() == 0
                && final(self).conn().shutdown,
            old(self).keepalive() == 0 ==> !r.dispatches_keepalive(),
            // what each event leads to
            ev is Woken ==> final(self).lifecycle() == old(self).lifecycle() && if old(self).lifecycle() == DispatcherState::Shutdown {
                r is PollShutdown
            } else {
                r is PollReady
            },
            ev matches Event::InlineReady(written) ==> r is PollReady && !final(self).inline_pending() && final(self).inflight() == old(self).inflight() - 1
                && final(self).pending_error() == recorded(old(self).pending_error(), written)
                && final(self).lifecycle() == old(self).lifecycle(),
            ev matches Event::InlinePolled(Some(written)) ==> r is PollReady && !final(self).inline_pending() && final(self).inflight() == old(self).inflight()
                && final(self).pending_error() == recorded(old(self).pending_error(), written)
                && final(self).lifecycle() == old(self).lifecycle(),
            ev == Event::<F, D, E, C>::InlinePolled(None) ==> r is PollReady && final(self).inline_pending() && final(self).inflight() == old(self).inflight() + 1
                && final(self).lifecycle() == old(self).lifecycle(),
            ev matches Event::Decoded(Ok(Some(f))) ==> final(self).lifecycle()
                == DispatcherState::Processing && final(self).inflight() == old(self).inflight()
                + if old(self).inline_pending() {
                1int
            } else {
                0int
            },
            ev == Event::<F, D, E, C>::Decoded(Ok(None)) ==> r == Action::<F, D, E, C, I>::Suspend(WakeOn::MoreData) && final(self).lifecycle() == old(self).lifecycle(),
            ev matches Event::Decoded(Err(e)) ==> r.dispatched_item() == Some(
                DispatchItem::<F, D, C, I>::DecoderError(e),
            ) && final(self).lifecycle() == DispatcherState::Stop,
            old(self).lifecycle() == DispatcherState::Processing ==> (ev matches Event::Readiness(
                ready,
            ) ==> match ready {
                Readiness::NotReady => r == Action::<F, D, E, C, I>::Suspend(WakeOn::ServiceReady)
                    && final(self).conn().read_paused && final(self).lifecycle()
                    == DispatcherState::Processing && final(self).pending_error() == old(self).pending_error(),
                Readiness::Failed(e) => r is PollReady && final(self).final_error() == Some(e)
                    && final(self).lifecycle() == DispatcherState::Stop && final(self).pending_error()
                    == old(self).pending_error() && final(self).conn().read_paused == old(self).conn().read_paused && final(self).conn().io_error == old(self).conn().io_error,
                Readiness::Ready => !final(self).conn().read_paused && match old(self).pending_error() {
                    Some(DispatcherError::KeepAlive) => r.dispatched_item() == Some(
                        DispatchItem::<F, D, C, I>::KeepAliveTimeout,
                    ) && final(self).pending_error() is None && final(self).conn().io_error == old(self).conn().io_error,
                    Some(DispatcherError::Encoder(c)) => r.dispatched_item() == Some(
                        DispatchItem::<F, D, C, I>::EncoderError(c),
                    ) && final(self).pending_error() is None && final(self).conn().io_error == old(self).conn().io_error,
                    Some(DispatcherError::Service(e)) => r is PollReady && final(self).final_error()
                        == Some(e) && final(self).lifecycle() == DispatcherState::Stop && final(self).pending_error() is None && final(self).conn().io_error == old(self).conn().io_error,
                    None => if old(self).clock().expired() {
                        r.dispatched_item() == Some(DispatchItem::<F, D, C, I>::KeepAliveTimeout)
                            && final(self).pending_error() is None && final(self).conn().io_error
                            == old(self).conn().io_error
                    } else if old(self).conn().dsp_stopped {
                        final(self).lifecycle() == DispatcherState::Stop && final(self).pending_error() is None && final(self).conn().io_error is None
                            && match old(self).conn().io_error {
                            Some(i) => r.dispatched_item() == Some(
                                DispatchItem::<F, D, C, I>::IoError(i),
                            ),
                            None => r is PollReady && final(self).final_error() == old(self).final_error(),
                        }
                    } else if old(self).conn().read_ready {
                        r is Decode && final(self).conn().io_error == old(self).conn().io_error
                    } else {
                        r == Action::<F, D, E, C, I>::Suspend(WakeOn::Events)
                            && final(self).lifecycle() == DispatcherState::Processing
                            && final(self).pending_error() is None && final(self).conn().io_error
                            == old(self).conn().io_error
                    },
                },
            }),
            ev is Readiness && old(self).lifecycle() != DispatcherState::Processing ==> final(self).final_error() == old(self).final_error() && final(self).pending_error() == old(self).pending_error(),
            ev is Readiness && old(self).lifecycle() == DispatcherState::Stop ==> if old(self).inflight() == 0 {
                r == Action::<F, D, E, C, I>::PollShutdown(old(self).final_error() is Some)
                    && final(self).lifecycle() == DispatcherState::Shutdown
            } else {
                r == Action::<F, D, E, C, I>::Suspend(WakeOn::Events) && final(self).lifecycle()
                    == DispatcherState::Stop
            },
            ev == Event::<F, D, E, C>::ShutdownPolled(false) ==> r == Action::<F, D, E, C, I>::Suspend(WakeOn::Handler),
            r matches Action::PollShutdown(has_error) ==> has_error
                == final(self).final_error() is Some,
            r is Done <==> ev == Event::<F, D, E, C>::ShutdownPolled(true),
            r matches Action::Done(res) ==> res == final_result(old(self).final_error()),
            r is Done ==> final(self).lifecycle() == DispatcherState::Shutdown,
    {
        match ev {
            Event::Woken => self.next_action(),
            Event::InlineReady(written) => {
                self.shared.handle_result(written, false);
                self.inline = false;
                self.next_action()
            },
            Event::Readiness(ready) => {
                if self.st == DispatcherState::Processing {
                    match self.poll_service(ready) {
                        PollService::Ready => {
                            if self.state.read_ready {
                                self.awaiting = Awaiting::Decode;
                                Action::Decode
                            } else {
                                self.awaiting = Awaiting::Idle;
                                Action::Suspend(WakeOn::Events)
                            }
                        },
                        PollService::Item(item) => self.dispatch(item),
                        PollService::ServiceError => self.next_action(),
                        PollService::Pending => {
                            self.awaiting = Awaiting::Idle;
                            Action::Suspend(WakeOn::ServiceReady)
                        },
                    }
                } else if self.shared.inflight == 0 {
                    // drained: the readiness answer was only for the
                    // handler's sake
                    self.st = DispatcherState::Shutdown;
                    self.state.shutdown = true;
                    self.awaiting = Awaiting::Idle;
                    self.next_action()
                } else {
                    self.awaiting = Awaiting::Idle;
                    Action::Suspend(WakeOn::Events)
                }
            },
            Event::Decoded(decoded) => match decoded {
                Ok(Some(frame)) => {
                    self.update_keepalive();
                    self.dispatch(DispatchItem::Item(frame))
                },
                Ok(None) => {
                    self.awaiting = Awaiting::Idle;
                    Action::Suspend(WakeOn::MoreData)
                },
                Err(e) => {
                    self.awaiting = Awaiting::Idle;
                    self.st = DispatcherState::Stop;
                    self.unregister_keepalive();
                    self.dispatch(DispatchItem::DecoderError(e))
                },
            },
            Event::InlinePolled(polled) => match polled {
                Some(written) => {
                    self.shared.record(written);
                    self.inline = false;
                    self.awaiting = Awaiting::Idle;
                    self.next_action()
                },
                None => {
                    self.shared.inflight = self.shared.inflight + 1;
                    self.awaiting = Awaiting::Idle;
                    self.next_action()
                },
            },
            Event::ShutdownPolled(done) => {
                if done {
                    self.awaiting = Awaiting::Finished;
                    match self.error.take() {
                        Some(e) => Action::Done(Err(e)),
                        None => Action::Done(Ok(())),
                    }
                } else {
                    self.awaiting = Awaiting::Idle;
                    Action::Suspend(WakeOn::Handler)
                }
            },
        }
    }
}

impl<E, C, I> Dispatcher<E, C, I> {
    /// Sets the keep-alive timeout in seconds; 0 disables keep-alive. The
    /// registration moves from the old deadline to the new one.
    pub fn keepalive_timeout(self, timeout: u16) -> (r: Self)
        requires
            self.fresh(),
        ensures
            r.fresh(),
            r.keepalive() == timeout,
            r.keepalive_updated() == self.keepalive_updated(),
            r.clock().clock() == self.clock().clock(),
            r.clock().registered() == (if timeout > 0 {
                Some((self.keepalive_updated() + timeout) as u64)
            } else {
                None::<u64>
            }),
            r.conn() == self.conn(),
            r.final_error() == self.final_error(),
    {
        let mut d = self;
        let prev = d.ka_updated as u64 + d.ka();
        if timeout == 0 {
            d.timer.unregister(prev);
        } else {
            let expire = d.ka_updated as u64 + timeout as u64;
            d.timer.register(expire, prev);
        }
        d.ka_timeout = timeout;
        d
    }

    /// Sets the connection's disconnect timeout in milliseconds; 0 disables it.
    pub fn disconnect_timeout(self, val: u16) -> (r: Self)
        requires
            self.wf(),
        ensures
            r.wf(),
            r.conn() == (State { disconnect_timeout: val, ..self.conn() }),
            r.lifecycle() == self.lifecycle(),
            r.awaiting() == self.awaiting(),
            r.inflight() == self.inflight(),
            r.inline_pending() == self.inline_pending(),
            r.pending_error() == self.pending_error(),
            r.final_error() == self.final_error(),
            r.keepalive() == self.keepalive(),
            r.keepalive_updated() == self.keepalive_updated(),
            r.clock() == self.clock(),
    {
        let mut d = self;
        d.state.disconnect_timeout = val;
        d
    }

    /// A detached handler call wrote its response back with `written`. It
    /// runs while the dispatch loop is suspended, never in the middle of a
    /// step. Returns whether the dispatch loop is to be woken, which it always
    /// is.
    pub fn handle_result(&mut self, written: Result<(), Either<E, C>>) -> (r: bool)
        requires
            old(self).wf(),
            old(self).awaiting() == Awaiting::Idle,
            old(self).detached() > 0,
        ensures
            final(self).wf(),
            r,
            final(self).inflight() == old(self).inflight() - 1,
            final(self).pending_error() == recorded(old(self).pending_error(), written),
            final(self).lifecycle() == old(self).lifecycle(),
            final(self).awaiting() == old(self).awaiting(),
            final(self).inline_pending() == old(self).inline_pending(),
            final(self).final_error() == old(self).final_error(),
            final(self).conn() == old(self).conn(),
            final(self).clock() == old(self).clock(),
            final(self).keepalive() == old(self).keepalive(),
            final(self).keepalive_updated() == old(self).keepalive_updated(),
    {
        self.shared.handle_result(written, true)
    }

    /// Whether `ev` is what the dispatcher waits for.
    pub fn accepts<F, D>(&self, ev: &Event<F, D, E, C>) -> (r: bool)
        ensures
            r == self.expects(*ev),
    {
        match ev {
            Event::Woken => self.awaiting == Awaiting::Idle,
            Event::InlineReady(_) => self.awaiting == Awaiting::Idle && self.inline,
            Event::Readiness(_) => self.awaiting == Awaiting::Readiness,
            Event::Decoded(_) => self.awaiting == Awaiting::Decode,
            Event::InlinePolled(_) => self.awaiting == Awaiting::Inline,
            Event::ShutdownPolled(_) => self.awaiting == Awaiting::Shutdown,
        }
    }

    /// Whether the dispatcher has not been polled yet, so that it may still be
    /// configured.
    pub fn is_fresh(&self) -> (r: bool)
        requires
            self.wf(),
        ensures
            r == self.fresh(),
    {
        self.st == DispatcherState::Processing && self.awaiting == Awaiting::Idle
            && self.shared.inflight == 0 && !self.inline && self.shared.error.is_none()
    }

    /// Whether a detached call is in flight, so that its completion may be
    /// reported.
    pub fn has_detached(&self) -> (r: bool)
        requires
            self.wf(),
        ensures
            r == (self.detached() > 0),
    {
        let counted: usize = if self.inline && self.awaiting != Awaiting::Inline {
            1
        } else {
            0
        };
        self.shared.inflight > counted
    }

    pub fn lifecycle_state(&self) -> (r: DispatcherState)
        ensures
            r == self.lifecycle(),
    {
        self.st
    }

    pub fn inflight_count(&self) -> (r: usize)
        ensures
            r == self.inflight(),
    {
        self.shared.inflight
    }

    pub fn state(&self) -> (r: &State<I>)
        ensures
            *r == self.conn(),
    {
        &self.state
    }

    pub fn timer(&self) -> (r: &Timer)
        ensures
            *r == self.clock(),
    {
        &self.timer
    }

    /// Moves the timer's clock to `now`.
    pub fn set_now(&mut self, now: u32)
        requires
            old(self).wf(),
        ensures
            final(self).wf(),
            final(self).clock().clock() == now,
            final(self).clock().registered() == old(self).clock().registered(),
            final(self).conn() == old(self).conn(),
            final(self).lifecycle() == old(self).lifecycle(),
            final(self).awaiting() == old(self).awaiting(),
            final(self).inflight() == old(self).inflight(),
            final(self).inline_pending() == old(self).inline_pending(),
            final(self).pending_error() == old(self).pending_error(),
            final(self).final_error() == old(self).final_error(),
            final(self).keepalive() == old(self).keepalive(),
            final(self).keepalive_updated() == old(self).keepalive_updated(),
    {
        self.timer.set_now(now);
    }

    /// Records whether the read buffer holds bytes not yet decoded.
    pub fn set_read_ready(&mut self, ready: bool)
        requires
            old(self).wf(),
        ensures
            final(self).wf(),
            final(self).conn() == (State { read_ready: ready, ..old(self).conn() }),
            final(self).clock() == old(self).clock(),
            final(self).lifecycle() == old(self).lifecycle(),
            final(self).awaiting() == old(self).awaiting(),
            final(self).inflight() == old(self).inflight(),
            final(self).inline_pending() == old(self).inline_pending(),
            final(self).pending_error() == old(self).pending_error(),
            final(self).final_error() == old(self).final_error(),
            final(self).keepalive() == old(self).keepalive(),
            final(self).keepalive_updated() == old(self).keepalive_updated(),
    {
        self.state.read_ready = ready;
    }

    /// The connection asks the dispatcher to stop, with the transport's error
    /// if there was one.
    pub fn stop_requested(&mut self, io_error: Option<I>)
        requires
            old(self).wf(),
        ensures
            final(self).wf(),
            final(self).conn() == (State {
                dsp_stopped: true,
                io_error: io_error,
                ..old(self).conn()
            }),
            final(self).clock() == old(self).clock(),
            final(self).lifecycle() == old(self).lifecycle(),
            final(self).awaiting() == old(self).awaiting(),
            final(self).inflight() == old(self).inflight(),
            final(self).inline_pending() == old(self).inline_pending(),
            final(self).pending_error() == old(self).pending_error(),
            final(self).final_error() == old(self).final_error(),
            final(self).keepalive() == old(self).keepalive(),
            final(self).keepalive_updated() == old(self).keepalive_updated(),
    {
        self.state.dsp_stopped = true;
        self.state.io_error = io_error;
    }
}

/// Nothing is in flight once the dispatcher has shut down, and the counter
/// never goes below zero on the way there.
pub proof fn lemma_shutdown_after_drain<E, C, I>(d: Dispatcher<E, C, I>)
    requires
        d.wf(),
        d.lifecycle() == DispatcherState::Shutdown,
    ensures
        d.inflight() == 0,
        !d.inline_pending(),
        d.detached() == 0,
{
}

/// With keep-alive disabled no deadline is registered, none can elapse, and
/// no keep-alive timeout is pending.
pub proof fn lemma_keepalive_disabled<E, C, I>(d: Dispatcher<E, C, I>)
    requires
        d.wf(),
        d.keepalive() == 0,
    ensures
        d.clock().registered() is None,
        !d.clock().expired(),
        !(d.pending_error() matches Some(DispatcherError::KeepAlive)),
{
}

/// Once stopped, keep-alive is no longer registered, and the final error
/// may only be set once processing is over.
pub proof fn lemma_stopped_unregistered<E, C, I>(d: Dispatcher<E, C, I>)
    requires
        d.wf(),
    ensures
        d.lifecycle() != DispatcherState::Processing ==> d.clock().registered() is None,
        d.lifecycle() == DispatcherState::Processing ==> d.final_error() is None,
{
}

/// The frames that a run of events brings, in order.
pub open spec fn decoded_frames<F, D, E, C>(evs: Seq<Event<F, D, E, C>>) -> Seq<F>
    decreases evs.len(),
{
    if evs.len() == 0 {
        Seq::empty()
    } else {
        let rest = decoded_frames(evs.drop_last());
        match evs.last().decoded_frame() {
            Some(f) => rest.push(f),
            None => rest,
        }
    }
}

/// The frames that a run of actions hands to the handler, in order.
pub open spec fn dispatched_frames<F, D, E, C, I>(acts: Seq<Action<F, D, E, C, I>>) -> Seq<F>
    decreases acts.len(),
{
    if acts.len() == 0 {
        Seq::empty()
    } else {
        let rest = dispatched_frames(acts.drop_last());
        match acts.last().dispatched_frame() {
            Some(f) => rest.push(f),
            None => rest,
        }
    }
}

/// Over any run of steps, each answered as `Dispatcher::poll` promises, every
/// decoded frame is handed to the handler exactly once, in the order of
/// arrival, and no other frame is.
pub proof fn lemma_frames_dispatched_in_order<F, D, E, C, I>(
    evs: Seq<Event<F, D, E, C>>,
    acts: Seq<Action<F, D, E, C, I>>,
)
    requires
        evs.len() == acts.len(),
        forall|i: int| 0 <= i < evs.len() ==> #[trigger] acts[i].dispatched_frame()
            == evs[i].decoded_frame(),
    ensures
        dispatched_frames(acts) == decoded_frames(evs),
    decreases evs.len(),
{
    if evs.len() > 0 {
        let n = evs.len() - 1;
        assert(acts[n as int].dispatched_frame() == evs[n as int].decoded_frame());
        assert forall|i: int| 0 <= i < evs.drop_last().len() implies #[trigger] acts.drop_last()[
            i
        ].dispatched_frame() == evs.drop_last()[i].decoded_frame() by {
            assert(acts[i].dispatched_frame() == evs[i].decoded_frame());
        }
        lemma_frames_dispatched_in_order(evs.drop_last(), acts.drop_last());
    }
}

/// Along a run of lifecycle states that never steps back, no later state
/// ranks lower than an earlier one.
proof fn lemma_rank_monotone(sts: Seq<DispatcherState>, i: int, j: int)
    requires
        0 <= i <= j < sts.len(),
        forall|k: int| 0 <= k < sts.len() - 1 ==> rank(#[trigger] sts[k]) <= rank(sts[k + 1]),
    ensures
        rank(sts[i]) <= rank(sts[j]),
    decreases j - i,
{
    if i < j {
        lemma_rank_monotone(sts, i, j - 1);
        assert(rank(sts[j - 1]) <= rank(sts[j]));
    }
}

/// Over any run of steps, each answered as `Dispatcher::poll` promises
/// (`sts[k]` the lifecycle before step `k`, `sts[k + 1]` after it), once an
/// error has gone to the handler or the lifecycle has left `Processing`, no
/// later step asks for a frame to be decoded.
pub proof fn lemma_no_decode_after_error<F, D, E, C, I>(
    sts: Seq<DispatcherState>,
    acts: Seq<Action<F, D, E, C, I>>,
)
    requires
        sts.len() == acts.len() + 1,
        forall|k: int| 0 <= k < acts.len() ==> rank(#[trigger] sts[k]) <= rank(sts[k + 1]),
        forall|k: int| 0 <= k < acts.len() ==> (#[trigger] acts[k] is Decode ==> sts[k + 1]
            == DispatcherState::Processing),
        forall|k: int| 0 <= k < acts.len() ==> (#[trigger] acts[k].dispatches_error() ==> sts[k
            + 1] == DispatcherState::Stop),
    ensures
        forall|i: int, j: int|
            0 <= i < j < acts.len() && #[trigger] acts[i].dispatches_error() ==> !(
            #[trigger] acts[j] is Decode),
        forall|i: int, j: int|
            0 <= i <= j < acts.len() && #[trigger] sts[i] != DispatcherState::Processing ==> !(
            #[trigger] acts[j] is Decode),
{
    assert forall|i: int, j: int|
        0 <= i < j < acts.len() && #[trigger] acts[i].dispatches_error() implies !(
        #[trigger] acts[j] is Decode) by {
        lemma_rank_monotone(sts, i + 1, j + 1);
    }
    assert forall|i: int, j: int|
        0 <= i <= j < acts.len() && #[trigger] sts[i] != DispatcherState::Processing implies !(
        #[trigger] acts[j] is Decode) by {
        lemma_rank_monotone(sts, i, j + 1);
    }
}

} // verus!
