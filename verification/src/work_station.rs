//! A fixed pool of worker threads exposed as a station.
//!
//! Work is fed through a bounded channel with exactly one slot per worker:
//! enqueueing blocks the caller once every worker is busy and every slot is
//! taken, which throttles producers to the pool's capacity.  Each worker
//! owns a private context created once at startup and never shared.  Results
//! come back on a per-request single-use response channel, so a pool
//! invocation can be chained like any other station.

use vstd::prelude::*;

use crate::computation::{ready, Computation, ReadyFuture};
use crate::error::ConveyorError;
use crate::promise::Promise;
use crate::promise::OneOfFuture;
use crate::station::Station;
use crate::step::Step;

verus! {

/// Declares crossbeam's `Sender` so channel endpoints can sit in fields
/// and signatures; the type stays opaque.
#[verifier::external_type_specification]
#[verifier::external_body]
#[verifier::reject_recursive_types(T)]
pub struct ExSender<T>(crossbeam::channel::Sender<T>);

/// Declares crossbeam's `Receiver` in the same way.
#[verifier::external_type_specification]
#[verifier::external_body]
#[verifier::reject_recursive_types(T)]
pub struct ExReceiver<T>(crossbeam::channel::Receiver<T>);

/// Relies on crossbeam's `bounded`: it creates a channel that holds at most
/// `cap` messages in flight.
#[verifier::external_body]
fn channel_bounded<T>(cap: usize) -> (chans: (
    crossbeam::channel::Sender<T>,
    crossbeam::channel::Receiver<T>,
)) {
    crossbeam::channel::bounded(cap)
}

/// Relies on crossbeam's `Sender::send`: it blocks until the message is
/// accepted and reports failure exactly when every receiver is gone.
#[verifier::external_body]
fn channel_send<T>(sx: &crossbeam::channel::Sender<T>, msg: T) -> (accepted: bool) {
    sx.send(msg).is_ok()
}

/// What a non-blocking enqueue attempt reported.
#[derive(Clone, Copy, Debug, PartialEq, Eq, Structural)]
pub enum SendOutcome {
    /// The message was accepted.
    Sent,
    /// The channel is at capacity; the message was not accepted.
    Full,
    /// Every receiver is gone; the message was not accepted.
    Closed,
}

/// Relies on crossbeam's `Sender::try_send`: it never blocks, failing with
/// a full-channel error when the bounded channel is at capacity and with a
/// disconnected error when every receiver is gone.
#[verifier::external_body]
fn channel_try_send<T>(sx: &crossbeam::channel::Sender<T>, msg: T) -> (r: SendOutcome) {
    match sx.try_send(msg) {
        Ok(()) => SendOutcome::Sent,
        Err(crossbeam::channel::TrySendError::Full(_)) => SendOutcome::Full,
        Err(crossbeam::channel::TrySendError::Disconnected(_)) => SendOutcome::Closed,
    }
}

/// Relies on crossbeam's `Receiver::recv`: it blocks until a message
/// arrives, and reports failure exactly when the channel is empty and every
/// sender is gone.
#[verifier::external_body]
fn channel_recv<T>(rx: &crossbeam::channel::Receiver<T>) -> (msg: Option<T>) {
    rx.recv().ok()
}

/// What a non-blocking receive attempt reported.
pub enum RecvOutcome<T> {
    /// A message was waiting.
    Got(T),
    /// No message is waiting right now.
    Empty,
    /// The channel is empty and every sender is gone.
    Closed,
}

/// Relies on crossbeam's `Receiver::try_recv`: it never blocks, reporting
/// an empty channel or — when every sender is gone as well — a closed one.
#[verifier::external_body]
fn channel_try_recv<T>(rx: &crossbeam::channel::Receiver<T>) -> (msg: RecvOutcome<T>) {
    match rx.try_recv() {
        Ok(v) => RecvOutcome::Got(v),
        Err(crossbeam::channel::TryRecvError::Empty) => RecvOutcome::Empty,
        Err(crossbeam::channel::TryRecvError::Disconnected) => RecvOutcome::Closed,
    }
}

/// Relies on crossbeam's `Receiver::clone`: the clone receives from the
/// same channel, so several workers can share one work queue.
#[verifier::external_body]
fn receiver_clone<T>(rx: &crossbeam::channel::Receiver<T>) -> (r: crossbeam::channel::Receiver<
    T,
>) {
    rx.clone()
}

/// The synchronous work a [`WorkStation`] runs: implementors supply each
/// worker's private context and the work function itself.  The context is
/// created once per worker and mutated only by that worker's thread.
pub trait WorkFn<V, O, C>: Sized {
    /// Builds one worker's private context; invoked once per worker at
    /// startup.
    fn context(&self) -> C;

    /// Runs one unit of work against the worker's private context.
    fn call(&self, input: V, ctx: &mut C) -> Result<O, ConveyorError>;
}

/// One message on the work queue: a unit of work with the sender on which
/// its result is owed, or the shutdown signal.
type WorkMessage<V, O> = Option<(V, crossbeam::channel::Sender<Result<O, ConveyorError>>)>;

/// One worker's seat: the receive side of the shared work queue, the work
/// function, and this worker's private context, which no other worker ever
/// touches.  The embedding application runs each seat, typically on a
/// dedicated thread of its execution substrate; the seat itself is plain
/// sequential logic.
#[verifier::reject_recursive_types(V)]
#[verifier::reject_recursive_types(O)]
pub struct WorkerSeat<V, O, C, W> {
    /// The receive side of the shared work queue.
    pub rx: crossbeam::channel::Receiver<WorkMessage<V, O>>,
    /// The work function.
    pub work: W,
    /// This worker's private context.
    pub ctx: C,
}

impl<V, O, C, W: WorkFn<V, O, C>> WorkerSeat<V, O, C, W> {
    /// Handles one message: waits for a unit of work, runs it, and delivers
    /// the result on that unit's response channel.  Reports `false` when
    /// the seat must stop — on a shutdown signal, or when the pool side of
    /// the queue is gone.
    pub fn step(&mut self) -> (working: bool) {
        match channel_recv(&self.rx) {
            None => false,
            Some(msg) => match msg {
                None => false,
                Some((input, respond)) => {
                    let result = self.work.call(input, &mut self.ctx);
                    let _ = channel_send(&respond, result);
                    true
                },
            },
        }
    }

    /// The worker loop: handle units of work until a shutdown signal
    /// arrives or the queue closes.  A seat serves at most `usize::MAX`
    /// units over its lifetime.
    pub fn run(&mut self) {
        let mut served: usize = 0;
        while served < usize::MAX
            decreases usize::MAX - served,
        {
            if !self.step() {
                return ;
            }
            served = served + 1;
        }
    }
}

/// The send side of a fixed-size worker pool, fed through a bounded work
/// queue with one slot per worker.
#[verifier::reject_recursive_types(V)]
#[verifier::reject_recursive_types(O)]
pub struct WorkStation<V, O> {
    /// The send side of the work queue.
    pub sx: crossbeam::channel::Sender<WorkMessage<V, O>>,
    /// How many worker seats were created with this pool.
    pub nwork: usize,
}

impl<V, O> WorkStation<V, O> {
    /// Creates a pool of `nwork` workers: the station on which work is
    /// submitted, and one seat per worker, each with its own private
    /// context built by the work function's factory.  The work queue holds
    /// at most `nwork` units, one slot per worker.  The embedding
    /// application runs each seat (typically one thread per seat) and,
    /// after `shutdown`, waits for every seat's `run` to return, so that no
    /// worker outlives the pool.
    pub fn new<C, W>(nwork: usize, work: W) -> (r: (WorkStation<V, O>, Vec<WorkerSeat<V, O, C, W>>)) where
        W: WorkFn<V, O, C> + Clone,

        ensures
            r.0.nwork == nwork,
            r.1@.len() == nwork,
    {
        let (sx, rx) = channel_bounded(nwork);
        let mut seats: Vec<WorkerSeat<V, O, C, W>> = Vec::new();
        let mut i: usize = 0;
        while i < nwork
            invariant
                i <= nwork,
                seats@.len() == i,
            decreases nwork - i,
        {
            let ctx = work.context();
            let seat = WorkerSeat { rx: receiver_clone(&rx), work: work.clone(), ctx };
            seats.push(seat);
            i = i + 1;
        }
        (WorkStation { sx, nwork }, seats)
    }

    /// The number of worker seats this pool was created with.
    pub fn workers(&self) -> (n: usize)
        ensures
            n == self.nwork,
    {
        self.nwork
    }

    /// Graceful destruction: sends exactly one shutdown signal per worker,
    /// so that every seat's `run` returns once the queued work before its
    /// signal is done.  Consumes the station: no work can be submitted
    /// afterwards.  The embedding application waits for the seats after
    /// this call; a seat that panicked is its report, never silently lost.
    pub fn shutdown(self) {
        let n = self.nwork;
        let mut i: usize = 0;
        while i < n
            invariant
                i <= n,
            decreases n - i,
        {
            let _ = channel_send(&self.sx, None);
            i = i + 1;
        }
    }

    /// Non-blocking enqueue: where `execute` would block because every
    /// worker is busy and every queue slot is taken, this reports the
    /// backpressure instead.
    pub fn try_execute(&self, input: V) -> (r: Result<WorkStationFuture<O>, SendOutcome>)
        ensures
            match r {
                Ok(f) => f.wf() && !f.resolved() && f.fuel() == 1,
                Err(o) => o is Full || o is Closed,
            },
    {
        let (rsx, rrx) = channel_bounded(1);
        match channel_try_send(&self.sx, Some((input, rsx))) {
            SendOutcome::Sent => Ok(WorkStationFuture { rx: rrx, done: false, patience: 1 }),
            SendOutcome::Full => Err(SendOutcome::Full),
            SendOutcome::Closed => Err(SendOutcome::Closed),
        }
    }
}

impl<V, O> Station for WorkStation<V, O> {
    type Input = V;

    type Output = O;

    type Fut = OneOfFuture<
        WorkStationFuture<O>,
        ReadyFuture<Result<O, ConveyorError>>,
        Result<O, ConveyorError>,
    >;

    open spec fn pre(&self, input: V) -> bool {
        true
    }

    open spec fn post(&self, input: V, r: Result<O, ConveyorError>) -> bool {
        true
    }

    open spec fn fuel_bound(&self) -> nat {
        1
    }

    /// Creates a single-use response channel, enqueues the unit of work,
    /// and hands back a computation that awaits the response.  The enqueue
    /// blocks the calling thread while every worker is busy and every queue
    /// slot is taken — the pool's deliberate backpressure point (see
    /// `try_execute` for the non-blocking variant).  If the pool is shut
    /// down the computation fails at once instead of blocking.
    fn execute(&self, input: V) -> (fut: Self::Fut) {
        let (rsx, rrx) = channel_bounded(1);
        if channel_send(&self.sx, Some((input, rsx))) {
            OneOfFuture::new(Promise::First(WorkStationFuture { rx: rrx, done: false, patience: 1 }))
        } else {
            OneOfFuture::new(
                Promise::Second(ready(Err(ConveyorError::new("work station is shut down")))),
            )
        }
    }
}

/// The computation that awaits one response from a worker thread.  While it
/// has patience left, a poll merely looks for the response and reports
/// pending without blocking; once the patience is spent, the poll blocks
/// until the worker has delivered the result — the one place the pool
/// trades cooperative suspension for a genuine wait.  What a worker
/// computes depends on thread scheduling, so nothing is promised about the
/// value beyond its type.
#[verifier::reject_recursive_types(O)]
pub struct WorkStationFuture<O> {
    /// The receive side of this request's response channel.
    pub rx: crossbeam::channel::Receiver<Result<O, ConveyorError>>,
    /// Whether the response was already delivered.
    pub done: bool,
    /// How many more polls may report pending instead of blocking.
    pub patience: usize,
}

impl<O> Computation for WorkStationFuture<O> {
    type Output = Result<O, ConveyorError>;

    open spec fn wf(&self) -> bool {
        true
    }

    open spec fn resolved(&self) -> bool {
        self.done
    }

    open spec fn post(&self, r: Result<O, ConveyorError>) -> bool {
        true
    }

    open spec fn fuel(&self) -> nat {
        self.patience as nat
    }

    fn poll(&mut self) -> (s: Step<Result<O, ConveyorError>>) {
        if self.patience > 0 {
            self.patience = self.patience - 1;
            match channel_try_recv(&self.rx) {
                RecvOutcome::Got(r) => {
                    self.done = true;
                    Step::Ready(r)
                },
                RecvOutcome::Empty => Step::Pending,
                RecvOutcome::Closed => {
                    self.done = true;
                    Step::Ready(Err(ConveyorError::new("work station dropped the response")))
                },
            }
        } else {
            self.done = true;
            match channel_recv(&self.rx) {
                Some(r) => Step::Ready(r),
                None => Step::Ready(Err(ConveyorError::new("work station dropped the response"))),
            }
        }
    }
}

} // verus!
