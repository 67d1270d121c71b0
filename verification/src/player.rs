//! The DMX player: the shared universe buffer together with the
//! transmission-loop state machine.
//!
//! The player starts in [`LinkState::NotStarted`]: the buffer exists and
//! accepts writes, but nothing is transmitted. A successful start attempt
//! moves it to [`LinkState::Running`], once and for all — there is no way
//! back, and no tick outcome ever stops the loop. The loop itself — the
//! serial port, the thread and the timer — lives outside the library; it
//! feeds each outcome back through [`Player::on_tick`] and takes every
//! frame it sends from [`Player::next_frame`].

use vstd::prelude::*;
use vstd::string::StringExecFns;

use crate::shared::SharedUniverse;
use crate::universe::{BoundsError, UNIVERSE_CHANNELS};

verus! {

/// Milliseconds between two frames: the cadence the transmission loop is
/// expected to keep, roughly 20 frames a second.
pub const TICK_INTERVAL_MS: u64 = 50;

/// Whether the transmission loop has been attached to a serial transmitter.
#[derive(Clone, Copy, Debug, PartialEq, Eq, Structural)]
pub enum LinkState {
    /// The buffer exists and accepts writes; nothing is transmitted.
    NotStarted,
    /// The transmitter is attached and the periodic send is active.
    Running,
}

/// What came of trying to open the serial device.
#[derive(Debug)]
pub enum PortOpenOutcome {
    /// The device opened and can transmit.
    Opened,
    /// The device could not be opened; the payload is the underlying
    /// error text.
    Failed(String),
}

/// Why a start attempt was refused.
#[derive(Debug)]
pub enum StartError {
    /// The transmission loop is already running; a second start is refused.
    AlreadyStarted,
    /// The serial device could not be opened.
    CouldNotOpen { port: String, cause: String },
}

impl StartError {
    /// The error as one line of text, for logs and for reporting the
    /// failure upstream.
    pub fn message(&self) -> (m: String)
        ensures
            self is AlreadyStarted ==> m@ == "the transmission loop is already running"@,
            self matches StartError::CouldNotOpen { port, cause } ==> m@
                == "could not open serial port "@ + port@ + ": "@ + cause@,
    {
        match self {
            StartError::AlreadyStarted => String::from_str(
                "the transmission loop is already running",
            ),
            StartError::CouldNotOpen { port, cause } => {
                let mut m = String::from_str("could not open serial port ");
                m.append(port.as_str());
                m.append(": ");
                m.append(cause.as_str());
                m
            },
        }
    }
}

/// What the transmission loop learned from one tick.
#[derive(Debug)]
pub enum TickEvent {
    /// The frame went out.
    FrameSent,
    /// The serial write failed; the payload is the underlying error text.
    SendFailed(String),
}

/// The loop state one tick outcome leads to: whatever happened, the loop
/// keeps its state — a failed send is simply retried on the next tick.
pub open spec fn spec_tick(state: LinkState, ev: TickEvent) -> LinkState {
    state
}

/// The loop state after a whole run of tick outcomes.
pub open spec fn spec_run(state: LinkState, evs: Seq<TickEvent>) -> LinkState
    decreases evs.len(),
{
    if evs.len() == 0 {
        state
    } else {
        spec_run(spec_tick(state, evs[0]), evs.drop_first())
    }
}

/// The 512-channel universe buffer and the transmission-loop state.
pub struct Player {
    universe: SharedUniverse,
    state: LinkState,
}

impl Player {
    /// The transmission-loop state, for specifications.
    pub closed spec fn link_state(&self) -> LinkState {
        self.state
    }

    /// The shared buffer handle, for specifications: methods that only
    /// decide loop questions leave it untouched.
    pub closed spec fn universe_ref(&self) -> SharedUniverse {
        self.universe
    }

    /// A fresh player: every channel at zero, loop not started.
    pub fn new() -> (p: Player)
        ensures
            p.link_state() is NotStarted,
    {
        Player { universe: SharedUniverse::new(), state: LinkState::NotStarted }
    }

    /// Whether the transmission loop is running.
    pub fn is_running(&self) -> (r: bool)
        ensures
            r == (self.link_state() is Running),
    {
        match self.state {
            LinkState::Running => true,
            LinkState::NotStarted => false,
        }
    }

    /// Write `values` into the consecutive channels starting at `offset`,
    /// as one atomic update of the shared buffer.
    ///
    /// Succeeds exactly when the range fits into the 512 channels; an
    /// out-of-range write is rejected with a [`BoundsError`] and changes
    /// nothing. Accepted in every state: before the loop starts, writes
    /// land in the buffer and are simply never transmitted.
    pub fn set(&self, offset: usize, values: Vec<u8>) -> (r: Result<(), BoundsError>)
        ensures
            r is Ok <==> offset + values@.len() <= UNIVERSE_CHANNELS,
            r matches Err(e) ==> e == (BoundsError { offset, len: values.len() }),
    {
        self.universe.set(offset, &values)
    }

    /// Write each `(channel, value)` pair into the shared buffer, as one
    /// atomic update: this is the write a multi-channel logical property —
    /// a color with its red, green and blue channels — issues, and the
    /// transmission loop never observes it partially applied.
    ///
    /// A channel index is a byte, so it is always within the 512 channels
    /// and the write cannot fail. Where two pairs aim at the same channel,
    /// the later one wins.
    pub fn set_channels(&self, writes: Vec<(u8, u8)>) {
        self.universe.set_channels(&writes)
    }

    /// The frame the transmission loop sends on its next tick: a snapshot
    /// of the whole universe, exactly 512 bytes, taken under the buffer
    /// lock. Sending it happens outside the lock.
    pub fn next_frame(&self) -> (frame: Vec<u8>)
        ensures
            frame@.len() == UNIVERSE_CHANNELS,
    {
        self.universe.snapshot()
    }

    /// Decide what a start attempt means, given whether the serial device
    /// named `port` opened.
    ///
    /// The one transition of the player: from `NotStarted` to `Running`
    /// when the device opened. A failed open leaves the player exactly
    /// where it was — not started, so no transmission task may run — and
    /// reports which device failed and why. A second start while running
    /// is refused.
    pub fn on_start_attempt(&mut self, port: &str, outcome: PortOpenOutcome) -> (r: Result<
        (),
        StartError,
    >)
        ensures
            final(self).universe_ref() == old(self).universe_ref(),
            r is Ok <==> (old(self).link_state() is NotStarted && outcome is Opened),
            old(self).link_state() is Running ==> final(self).link_state() is Running && (
            r matches Err(StartError::AlreadyStarted)),
            old(self).link_state() is NotStarted && outcome is Opened
                ==> final(self).link_state() is Running,
            outcome matches PortOpenOutcome::Failed(cause)
                ==> (old(self).link_state() is NotStarted
                ==> final(self).link_state() is NotStarted
                    && (r matches Err(StartError::CouldNotOpen { port: p, cause: c })
                    && p@ == port@ && c == cause)),
    {
        match self.state {
            LinkState::Running => Err(StartError::AlreadyStarted),
            LinkState::NotStarted => match outcome {
                PortOpenOutcome::Opened => {
                    self.state = LinkState::Running;
                    Ok(())
                },
                PortOpenOutcome::Failed(cause) => Err(
                    StartError::CouldNotOpen { port: String::from_str(port), cause },
                ),
            },
        }
    }

    /// Decide what one tick outcome means for the loop.
    ///
    /// The answer is always: keep running. A failed send is the caller's
    /// to log; the fixed retransmission cadence is itself the recovery, so
    /// there is no backoff, no failure counter and no stop.
    pub fn on_tick(&mut self, ev: &TickEvent) -> (keep_running: bool)
        ensures
            keep_running,
            final(self).link_state() == spec_tick(old(self).link_state(), *ev),
            final(self).link_state() == old(self).link_state(),
            final(self).universe_ref() == old(self).universe_ref(),
    {
        true
    }
}

/// However many sends fail, and in whatever order outcomes arrive: a
/// running transmission loop is still running after all of them. No
/// sequence of tick outcomes ever stops it.
pub proof fn lemma_loop_survives_any_outcomes(evs: Seq<TickEvent>)
    ensures
        spec_run(LinkState::Running, evs) is Running,
    decreases evs.len(),
{
    if evs.len() > 0 {
        lemma_loop_survives_any_outcomes(evs.drop_first());
    }
}

} // verus!
