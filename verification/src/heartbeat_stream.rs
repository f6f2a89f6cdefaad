//! A heartbeat on top of a source of commands.
//!
//! The stream hands on the commands of the source it wraps and adds two things. If
//! nothing was emitted for `timeout` seconds, it emits a command of its own that seals
//! an empty block, so that the chain keeps moving. And it lets at least `min_blocktime`
//! seconds pass between two emissions: a command that comes sooner is held back until
//! then.
//!
//! The stream does not wait and does not read the clock. Whoever drives it polls the
//! source, reads the time, calls [`HeartbeatStream::poll_next`] and, if nothing is
//! emitted, comes back no later than [`HeartbeatStream::deadline`]. Time is counted in
//! nanoseconds from a start that the driver chooses.

use vstd::prelude::*;
use crate::rpc::EngineCommand;

verus! {

/// Seconds without an emission after which a heartbeat is due, unless told otherwise.
pub const DEFAULT_TIMEOUT: u64 = 30;

/// Seconds that pass at least between two emissions, unless told otherwise.
pub const DEFAULT_MIN_BLOCKTIME: u64 = 1;

/// Whether the blocks of heartbeats are final, unless told otherwise.
pub const DEFAULT_FINALIZE: bool = false;

/// Nanoseconds in a second.
pub const NANOS_PER_SEC: u64 = 1_000_000_000;

/// What a heartbeat stream is set up with.
#[derive(Clone, Copy, Debug, PartialEq, Eq)]
pub struct HeartbeatOptions {
    /// Seconds without an emission after which a heartbeat is due.
    pub timeout: u64,
    /// Seconds that pass at least between two emissions.
    pub min_blocktime: u64,
    /// Whether the block of a heartbeat is final.
    pub finalize: bool,
}

impl Default for HeartbeatOptions {
    fn default() -> (opts: Self)
        ensures
            opts == (HeartbeatOptions {
                timeout: DEFAULT_TIMEOUT,
                min_blocktime: DEFAULT_MIN_BLOCKTIME,
                finalize: DEFAULT_FINALIZE,
            }),
    {
        HeartbeatOptions {
            timeout: DEFAULT_TIMEOUT,
            min_blocktime: DEFAULT_MIN_BLOCKTIME,
            finalize: DEFAULT_FINALIZE,
        }
    }
}

/// The fault of options that ask for a longer `min_blocktime` than `timeout`.
#[derive(Clone, Copy, Debug, PartialEq, Eq)]
pub struct InvalidHeartbeatOptions;

/// What the wrapped source answered when it was polled.
#[derive(Debug, PartialEq, Eq)]
pub enum SourcePoll<C> {
    /// The next command of the source.
    Ready(C),
    /// The source has ended.
    Closed,
    /// The source has nothing yet.
    Pending,
}

/// What the stream answers when it is polled.
#[derive(Debug, PartialEq, Eq)]
pub enum Poll<C> {
    /// The next command of the stream, or `None` once the stream has ended.
    Ready(Option<C>),
    /// The stream has nothing yet.
    Pending,
}

/// The time of the last emission and the time at which the stream acts next.
#[derive(Clone, Copy, Debug, PartialEq, Eq)]
pub struct Timer {
    /// When the stream last emitted, if it ever did.
    pub last_heartbeat: Option<u64>,
    /// When the stream is to be polled again at the latest.
    pub deadline: u128,
}

/// What a poll of the stream amounts to.
pub enum Emission<C> {
    /// A command of the source is handed on.
    Forwarded(C),
    /// A heartbeat is emitted.
    Heartbeat,
    /// The stream has ended.
    Ended,
    /// Nothing is emitted.
    Nothing,
}

/// The state of a heartbeat stream over commands of type `C`.
pub struct HeartbeatState<C> {
    /// What the stream was set up with.
    pub opts: HeartbeatOptions,
    /// The time of the last emission and the time at which the stream acts next.
    pub timer: Timer,
    /// The commands that are held back, oldest first.
    pub pending: Seq<C>,
    /// Whether the source has ended.
    pub closed: bool,
}

/// The length of `secs` seconds in nanoseconds.
pub open spec fn nanos(secs: u64) -> nat {
    (secs * NANOS_PER_SEC) as nat
}

/// The time that has passed at `now` since `since`; none if the clock went backwards.
pub open spec fn elapsed(since: u64, now: u64) -> nat {
    if now >= since {
        (now - since) as nat
    } else {
        0
    }
}

/// The command that a heartbeat emits: seal a block, empty if need be, on the best block
/// of the chain, with no caller to report to.
pub open spec fn heartbeat_command<Hash, S, F>(finalize: bool) -> EngineCommand<Hash, S, F> {
    EngineCommand::SealNewBlock { create_empty: true, finalize, parent_hash: None, sender: None }
}

impl<C> HeartbeatState<C> {
    /// The state of a stream set up at `now`: nothing emitted, nothing held back, and a
    /// heartbeat due after `timeout`.
    pub open spec fn initial(opts: HeartbeatOptions, now: u64) -> Self {
        HeartbeatState {
            opts,
            timer: Timer { last_heartbeat: None, deadline: (now + nanos(opts.timeout)) as u128 },
            pending: Seq::empty(),
            closed: false,
        }
    }

    /// What holds of every state of a stream: `min_blocktime` is no longer than
    /// `timeout`, and the stream is not due before `min_blocktime` has passed since its
    /// last emission.
    pub open spec fn wf(self) -> bool {
        &&& self.opts.min_blocktime <= self.opts.timeout
        &&& self.timer.last_heartbeat matches Some(last) ==> self.timer.deadline >= last + nanos(
            self.opts.min_blocktime,
        )
    }

    /// Whether an emission at `now` would come too soon after the last one.
    pub open spec fn too_early(self, now: u64) -> bool {
        self.timer.last_heartbeat matches Some(last) && elapsed(last, now) < nanos(
            self.opts.min_blocktime,
        )
    }

    /// The timer after an emission at `now`: a heartbeat is due after `timeout`.
    pub open spec fn rearmed(self, now: u64) -> Timer {
        Timer {
            last_heartbeat: Some(now),
            deadline: (now + nanos(self.opts.timeout)) as u128,
        }
    }

    /// The timer that goes off when `min_blocktime` has passed since the last emission.
    pub open spec fn shortened(self) -> Timer {
        match self.timer.last_heartbeat {
            Some(last) => Timer {
                last_heartbeat: Some(last),
                deadline: (last + nanos(self.opts.min_blocktime)) as u128,
            },
            None => self.timer,
        }
    }

    /// The state once the answer of the source is taken in: its command joins the
    /// commands that are held back, as the youngest; its end is noted.
    pub open spec fn taken_in(self, inner: SourcePoll<C>) -> Self {
        match inner {
            SourcePoll::Ready(command) => HeartbeatState {
                pending: self.pending.push(command),
                ..self
            },
            SourcePoll::Closed => HeartbeatState { closed: true, ..self },
            SourcePoll::Pending => self,
        }
    }

    /// One poll of the stream at `now`, the source having answered `inner`, with
    /// `heartbeat` the command of a heartbeat: the state after the poll and the answer.
    ///
    /// If a command is held back, the oldest is emitted unless that is too soon after
    /// the last emission; then the stream is due when `min_blocktime` has passed.
    /// If none is held back: a source that has ended ends the stream, and else a
    /// heartbeat is emitted if it is due. Every emission makes the next heartbeat due
    /// after `timeout`.
    pub open spec fn poll(self, now: u64, inner: SourcePoll<C>, heartbeat: C) -> (Self, Poll<C>) {
        let taken = self.taken_in(inner);
        if taken.pending.len() > 0 {
            if taken.too_early(now) {
                (HeartbeatState { timer: taken.shortened(), ..taken }, Poll::Pending)
            } else {
                (
                    HeartbeatState {
                        timer: taken.rearmed(now),
                        pending: taken.pending.drop_first(),
                        ..taken
                    },
                    Poll::Ready(Some(taken.pending[0])),
                )
            }
        } else if taken.closed {
            (taken, Poll::Ready(None))
        } else if now >= taken.timer.deadline {
            (HeartbeatState { timer: taken.rearmed(now), ..taken }, Poll::Ready(Some(heartbeat)))
        } else {
            (taken, Poll::Pending)
        }
    }

    /// What one poll of the stream at `now` amounts to, the source having answered
    /// `inner`.
    pub open spec fn emission(self, now: u64, inner: SourcePoll<C>) -> Emission<C> {
        let taken = self.taken_in(inner);
        if taken.pending.len() > 0 {
            if taken.too_early(now) {
                Emission::Nothing
            } else {
                Emission::Forwarded(taken.pending[0])
            }
        } else if taken.closed {
            Emission::Ended
        } else if now >= taken.timer.deadline {
            Emission::Heartbeat
        } else {
            Emission::Nothing
        }
    }

    /// Polls with the given times and answers of the source, one after the other: the
    /// state after the last poll and what each poll amounted to, in order.
    pub open spec fn feed(self, inputs: Seq<(u64, SourcePoll<C>)>, heartbeat: C) -> (
        Self,
        Seq<Emission<C>>,
    )
        decreases inputs.len(),
    {
        if inputs.len() == 0 {
            (self, Seq::empty())
        } else {
            let (now, inner) = inputs[0];
            let first = self.emission(now, inner);
            let (state, rest) = self.poll(now, inner, heartbeat).0.feed(
                inputs.drop_first(),
                heartbeat,
            );
            (state, seq![first] + rest)
        }
    }

    /// Polls at the given times, one after the other, while the source has nothing: the
    /// state after the last poll and the answers, in order.
    pub open spec fn polls(self, times: Seq<u64>, heartbeat: C) -> (Self, Seq<Poll<C>>)
        decreases times.len(),
    {
        if times.len() == 0 {
            (self, Seq::empty())
        } else {
            let (state, first) = self.poll(times[0], SourcePoll::Pending, heartbeat);
            let (state, rest) = state.polls(times.drop_first(), heartbeat);
            (state, seq![first] + rest)
        }
    }
}

/// The length of `secs` seconds in nanoseconds.
fn to_nanos(secs: u64) -> (n: u128)
    ensures
        n == nanos(secs),
        n <= nanos(u64::MAX),
{
    assert(secs * NANOS_PER_SEC <= u64::MAX * NANOS_PER_SEC) by (nonlinear_arith)
        requires
            secs <= u64::MAX,
    ;
    secs as u128 * NANOS_PER_SEC as u128
}

/// A source of commands with a heartbeat.
pub struct HeartbeatStream<Hash, S, F> {
    opts: HeartbeatOptions,
    timer: Timer,
    pending: Vec<EngineCommand<Hash, S, F>>,
    closed: bool,
}

impl<Hash, S, F> View for HeartbeatStream<Hash, S, F> {
    type V = HeartbeatState<EngineCommand<Hash, S, F>>;

    closed spec fn view(&self) -> Self::V {
        HeartbeatState {
            opts: self.opts,
            timer: self.timer,
            pending: self.pending@,
            closed: self.closed,
        }
    }
}

impl<Hash, S, F> HeartbeatStream<Hash, S, F> {
    /// Sets up a stream at the time `now`.
    ///
    /// Options with a longer `min_blocktime` than `timeout` are refused. Else the stream
    /// has emitted nothing and holds nothing back, and its first heartbeat is due
    /// `timeout` after `now`.
    pub fn new(opts: HeartbeatOptions, now: u64) -> (r: Result<Self, InvalidHeartbeatOptions>)
        ensures
            match r {
                Ok(stream) => {
                    &&& opts.min_blocktime <= opts.timeout
                    &&& stream@ == HeartbeatState::<EngineCommand<Hash, S, F>>::initial(opts, now)
                    &&& stream@.wf()
                },
                Err(_) => opts.min_blocktime > opts.timeout,
            },
    {
        if opts.min_blocktime > opts.timeout {
            return Err(InvalidHeartbeatOptions);
        }
        proof {
            law_new_stream_wf::<EngineCommand<Hash, S, F>>(opts, now);
        }
        let deadline = now as u128 + to_nanos(opts.timeout);
        Ok(
            HeartbeatStream {
                opts,
                timer: Timer { last_heartbeat: None, deadline },
                pending: Vec::new(),
                closed: false,
            },
        )
    }

    /// The time at which the stream is to be polled again at the latest: when the next
    /// heartbeat is due or when the oldest command held back may go out.
    pub fn deadline(&self) -> (deadline: u128)
        ensures
            deadline == self@.timer.deadline,
    {
        self.timer.deadline
    }

    /// How long from `now` until the stream is to be polled again, in nanoseconds.
    pub fn delay(&self, now: u64) -> (delay: u128)
        ensures
            delay == if self@.timer.deadline > now {
                self@.timer.deadline - now
            } else {
                0
            },
    {
        if self.timer.deadline > now as u128 {
            self.timer.deadline - now as u128
        } else {
            0
        }
    }

    /// Whether the source has ended, so that it must not be polled again.
    pub fn is_closed(&self) -> (closed: bool)
        ensures
            closed == self@.closed,
    {
        self.closed
    }

    /// How many commands are held back.
    pub fn held_back(&self) -> (n: usize)
        ensures
            n == self@.pending.len(),
    {
        self.pending.len()
    }

    /// Polls the stream at the time `now`, the source having answered `inner`.
    ///
    /// Once the source has ended it is not polled again: `inner` is then `Closed`.
    pub fn poll_next(&mut self, now: u64, inner: SourcePoll<EngineCommand<Hash, S, F>>) -> (r: Poll<
        EngineCommand<Hash, S, F>,
    >)
        ensures
            (final(self)@, r) == old(self)@.poll(
                now,
                inner,
                heartbeat_command(old(self)@.opts.finalize),
            ),
            old(self)@.wf() ==> final(self)@.wf(),
    {
        proof {
            if old(self)@.wf() {
                law_poll_keeps_wf(
                    old(self)@,
                    now,
                    inner,
                    heartbeat_command::<Hash, S, F>(old(self)@.opts.finalize),
                );
            }
        }
        match inner {
            SourcePoll::Ready(command) => {
                self.pending.push(command);
            },
            SourcePoll::Closed => {
                self.closed = true;
            },
            SourcePoll::Pending => {},
        }
        let ghost taken = old(self)@.taken_in(inner);
        assert(self@ == taken);
        let min_blocktime = to_nanos(self.opts.min_blocktime);
        let timeout = to_nanos(self.opts.timeout);
        if self.pending.len() > 0 {
            let wait_until = match self.timer.last_heartbeat {
                Some(last) => {
                    let passed: u64 = if now >= last {
                        now - last
                    } else {
                        0
                    };
                    if (passed as u128) < min_blocktime {
                        Some(last)
                    } else {
                        None
                    }
                },
                None => None,
            };
            match wait_until {
                Some(last) => {
                    self.timer = Timer {
                        last_heartbeat: Some(last),
                        deadline: last as u128 + min_blocktime,
                    };
                    Poll::Pending
                },
                None => {
                    let command = self.pending.remove(0);
                    self.timer = Timer { last_heartbeat: Some(now), deadline: now as u128 + timeout };
                    assert(self.pending@ =~= taken.pending.drop_first());
                    Poll::Ready(Some(command))
                },
            }
        } else if self.closed {
            Poll::Ready(None)
        } else if now as u128 >= self.timer.deadline {
            self.timer = Timer { last_heartbeat: Some(now), deadline: now as u128 + timeout };
            Poll::Ready(
                Some(
                    EngineCommand::SealNewBlock {
                        create_empty: true,
                        finalize: self.opts.finalize,
                        parent_hash: None,
                        sender: None,
                    },
                ),
            )
        } else {
            Poll::Pending
        }
    }
}

/// A stream that was set up with options that are accepted is well formed.
pub proof fn law_new_stream_wf<C>(opts: HeartbeatOptions, now: u64)
    requires
        opts.min_blocktime <= opts.timeout,
    ensures
        HeartbeatState::<C>::initial(opts, now).wf(),
{
}

/// A stream that is well formed stays well formed when it is polled.
pub proof fn law_poll_keeps_wf<C>(
    state: HeartbeatState<C>,
    now: u64,
    inner: SourcePoll<C>,
    heartbeat: C,
)
    requires
        state.wf(),
    ensures
        state.poll(now, inner, heartbeat).0.wf(),
{
    assert(nanos(state.opts.min_blocktime) <= nanos(state.opts.timeout)) by (nonlinear_arith)
        requires
            state.opts.min_blocktime <= state.opts.timeout,
    ;
}

/// As long as no heartbeat is due, a stream that holds nothing back and whose source
/// has nothing emits nothing, however often it is polled, and stays as it is.
pub proof fn law_quiet_until_due<C>(state: HeartbeatState<C>, times: Seq<u64>, heartbeat: C)
    requires
        state.pending.len() == 0,
        !state.closed,
        forall|i: int| 0 <= i < times.len() ==> times[i] < state.timer.deadline,
    ensures
        state.polls(times, heartbeat) == (
            state,
            Seq::new(times.len(), |i: int| Poll::<C>::Pending),
        ),
    decreases times.len(),
{
    if times.len() > 0 {
        law_quiet_until_due(state, times.drop_first(), heartbeat);
        assert(state.polls(times, heartbeat).1 =~= Seq::new(
            times.len(),
            |i: int| Poll::<C>::Pending,
        ));
    } else {
        assert(state.polls(times, heartbeat).1 =~= Seq::new(
            times.len(),
            |i: int| Poll::<C>::Pending,
        ));
    }
}

/// Once a heartbeat is due, a stream that holds nothing back and whose source has
/// nothing emits the heartbeat, and no other is due before `timeout` has passed again.
pub proof fn law_heartbeat_when_due<C>(state: HeartbeatState<C>, now: u64, heartbeat: C)
    requires
        state.pending.len() == 0,
        !state.closed,
        now >= state.timer.deadline,
    ensures
        state.poll(now, SourcePoll::Pending, heartbeat) == (
            HeartbeatState {
                timer: Timer {
                    last_heartbeat: Some(now),
                    deadline: (now + nanos(state.opts.timeout)) as u128,
                },
                ..state
            },
            Poll::Ready(Some(heartbeat)),
        ),
{
}

/// A command that comes before `min_blocktime` has passed since the last emission is
/// not emitted: it is held back, and the stream is due when `min_blocktime` has passed.
pub proof fn law_early_command_is_held<C>(
    state: HeartbeatState<C>,
    last: u64,
    now: u64,
    command: C,
    heartbeat: C,
)
    requires
        state.pending.len() == 0,
        state.timer.last_heartbeat == Some(last),
        elapsed(last, now) < nanos(state.opts.min_blocktime),
    ensures
        state.poll(now, SourcePoll::Ready(command), heartbeat) == (
            HeartbeatState {
                timer: Timer {
                    last_heartbeat: Some(last),
                    deadline: (last + nanos(state.opts.min_blocktime)) as u128,
                },
                pending: seq![command],
                ..state
            },
            Poll::<C>::Pending,
        ),
{
    assert(state.pending.push(command) =~= seq![command]);
}

/// A command that is held back stays held back, and the stream emits nothing, as long
/// as `min_blocktime` has not passed since the last emission.
pub proof fn law_held_command_waits<C>(
    state: HeartbeatState<C>,
    last: u64,
    times: Seq<u64>,
    heartbeat: C,
)
    requires
        state.pending.len() > 0,
        state.timer == (Timer {
            last_heartbeat: Some(last),
            deadline: (last + nanos(state.opts.min_blocktime)) as u128,
        }),
        forall|i: int| 0 <= i < times.len() ==> elapsed(last, times[i]) < nanos(
            state.opts.min_blocktime,
        ),
    ensures
        state.polls(times, heartbeat) == (
            state,
            Seq::new(times.len(), |i: int| Poll::<C>::Pending),
        ),
    decreases times.len(),
{
    if times.len() > 0 {
        assert(elapsed(last, times[0]) < nanos(state.opts.min_blocktime));
        law_held_command_waits(state, last, times.drop_first(), heartbeat);
    }
    assert(state.polls(times, heartbeat).1 =~= Seq::new(
        times.len(),
        |i: int| Poll::<C>::Pending,
    ));
}

/// At the first poll after `min_blocktime` has passed since the last emission, the
/// oldest command held back is emitted as it came in, and the next heartbeat is due
/// `timeout` later.
pub proof fn law_held_command_goes_out<C>(
    state: HeartbeatState<C>,
    last: u64,
    now: u64,
    heartbeat: C,
)
    requires
        state.pending.len() > 0,
        state.timer.last_heartbeat == Some(last),
        elapsed(last, now) >= nanos(state.opts.min_blocktime),
    ensures
        state.poll(now, SourcePoll::Pending, heartbeat) == (
            HeartbeatState {
                timer: Timer {
                    last_heartbeat: Some(now),
                    deadline: (now + nanos(state.opts.timeout)) as u128,
                },
                pending: state.pending.drop_first(),
                ..state
            },
            Poll::Ready(Some(state.pending[0])),
        ),
{
}

/// Two emissions in a row, heartbeats included, are at least `min_blocktime` apart on
/// a clock that does not go backwards.
pub proof fn law_emissions_apart<C>(
    state: HeartbeatState<C>,
    last: u64,
    now: u64,
    inner: SourcePoll<C>,
    heartbeat: C,
)
    requires
        state.wf(),
        state.timer.last_heartbeat == Some(last),
        last <= now,
        state.poll(now, inner, heartbeat).1 matches Poll::Ready(Some(_)),
    ensures
        now - last >= nanos(state.opts.min_blocktime),
{
}

/// Once the source has ended and nothing is held back, the stream has ended: every
/// poll says so, and no heartbeat follows.
pub proof fn law_ended_source_ends_stream<C>(
    state: HeartbeatState<C>,
    now: u64,
    inner: SourcePoll<C>,
    heartbeat: C,
)
    requires
        state.pending.len() == 0,
        state.closed || inner is Closed,
        !(inner is Ready),
    ensures
        state.poll(now, inner, heartbeat) == (
            HeartbeatState { closed: true, ..state },
            Poll::<C>::Ready(None),
        ),
{
}

/// The answer of the stream for what a poll amounts to.
pub open spec fn answer_of<C>(emission: Emission<C>, heartbeat: C) -> Poll<C> {
    match emission {
        Emission::Forwarded(command) => Poll::Ready(Some(command)),
        Emission::Heartbeat => Poll::Ready(Some(heartbeat)),
        Emission::Ended => Poll::Ready(None),
        Emission::Nothing => Poll::Pending,
    }
}

/// The commands that the source handed over, in order.
pub open spec fn arrivals<C>(inputs: Seq<(u64, SourcePoll<C>)>) -> Seq<C>
    decreases inputs.len(),
{
    if inputs.len() == 0 {
        Seq::empty()
    } else {
        match inputs[0].1 {
            SourcePoll::Ready(command) => seq![command] + arrivals(inputs.drop_first()),
            _ => arrivals(inputs.drop_first()),
        }
    }
}

/// The commands of the source that the stream handed on, in order.
pub open spec fn forwarded<C>(emissions: Seq<Emission<C>>) -> Seq<C>
    decreases emissions.len(),
{
    if emissions.len() == 0 {
        Seq::empty()
    } else {
        match emissions[0] {
            Emission::Forwarded(command) => seq![command] + forwarded(emissions.drop_first()),
            _ => forwarded(emissions.drop_first()),
        }
    }
}

/// The answer of a poll is the answer for what the poll amounts to.
pub proof fn law_answer_is_emission<C>(
    state: HeartbeatState<C>,
    now: u64,
    inner: SourcePoll<C>,
    heartbeat: C,
)
    ensures
        state.poll(now, inner, heartbeat).1 == answer_of(state.emission(now, inner), heartbeat),
{
}

/// No command of the source is lost, none is handed on twice, and none overtakes
/// another: at any time, the commands handed on so far followed by the commands still
/// held back are the commands that the source handed over, in their order.
pub proof fn law_commands_pass_in_order<C>(
    state: HeartbeatState<C>,
    inputs: Seq<(u64, SourcePoll<C>)>,
    heartbeat: C,
)
    ensures
        ({
            let (end, emissions) = state.feed(inputs, heartbeat);
            forwarded(emissions) + end.pending == state.pending + arrivals(inputs)
        }),
    decreases inputs.len(),
{
    let (end, emissions) = state.feed(inputs, heartbeat);
    if inputs.len() == 0 {
        assert(forwarded(emissions) + end.pending =~= state.pending + arrivals(inputs));
    } else {
        let (now, inner) = inputs[0];
        let next = state.poll(now, inner, heartbeat).0;
        let first = state.emission(now, inner);
        let (_, rest) = next.feed(inputs.drop_first(), heartbeat);
        law_commands_pass_in_order(next, inputs.drop_first(), heartbeat);
        assert(emissions == seq![first] + rest);
        assert(emissions.drop_first() =~= rest);
        assert(emissions[0] == first);
        let taken = state.taken_in(inner);
        let arrived: Seq<C> = match inner {
            SourcePoll::Ready(command) => seq![command],
            _ => Seq::empty(),
        };
        let handed_on: Seq<C> = match first {
            Emission::Forwarded(command) => seq![command],
            _ => Seq::empty(),
        };
        assert(taken.pending =~= state.pending + arrived);
        assert(handed_on + next.pending =~= taken.pending);
        assert(arrivals(inputs) =~= arrived + arrivals(inputs.drop_first()));
        assert(forwarded(emissions) =~= handed_on + forwarded(rest));
        assert(forwarded(emissions) + end.pending =~= handed_on + (forwarded(rest) + end.pending));
        assert(state.pending + arrivals(inputs) =~= (state.pending + arrived) + arrivals(
            inputs.drop_first(),
        ));
    }
}

} // verus!
