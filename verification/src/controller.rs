//! The actuator controller and its sequencing state machine.
//!
//! The controller owns the actuator exclusively.  It waits for a payload in
//! the handoff channel, validates it, and answers a valid command with a
//! fixed two-phase sequence: drive to the commanded angle, dwell, drive back
//! to rest, settle.  The executing command occupies the channel until the
//! settle completes, so every payload arriving mid-sequence is refused by
//! the receiver's busy policy — dropped, never queued.
//!
//! The controller decides; its caller acts.  Each step hands back a [`Drive`]
//! naming the duty level to program and how long to hold it, and the caller
//! performs the programming, the delay, and the logging between steps.

use vstd::prelude::*;
use crate::channel::HandoffChannel;
use crate::command::{
    parse_command, parses, payload_value, valid_command, digits_of, dec_value, digit_value,
    is_digit, CommandError,
};
use crate::config::{DWELL_MS, MAX_DEGREE, REST_DEGREE, SETTLE_MS};
use crate::duty::{duty_for, duty_for_degree};

verus! {

/// Where the controller stands in its move–dwell–return sequence.
#[derive(Clone, Copy, Debug, PartialEq, Eq, Structural)]
pub enum Phase {
    /// Waiting for a command; the actuator is at rest.
    Resting,
    /// The actuator was driven to the commanded angle and dwells there.
    MovingToTarget { target: u8 },
    /// The actuator was driven back to rest and settles there.
    ReturningToRest,
}

/// One programming of the actuator: a duty level to write and how long to
/// hold the position before the next step.
#[derive(Clone, Copy, Debug, PartialEq, Eq, Structural)]
pub struct Drive {
    /// The duty level to program.
    pub duty: u32,
    /// The hold time, in milliseconds.
    pub hold_ms: u32,
}

/// The whole lock: the receiver-facing admission policy, the capacity-one
/// handoff channel, and the controller with its actuator state.
pub struct LockSystem {
    channel: HandoffChannel,
    phase: Phase,
    position: u8,
    max_duty: u32,
}

impl LockSystem {
    /// The payload outstanding in the handoff channel, if any.
    pub closed spec fn pending(self) -> Option<Seq<u8>> {
        self.channel.pending()
    }

    /// The controller's place in its sequence.
    pub closed spec fn phase(self) -> Phase {
        self.phase
    }

    /// The angle the actuator currently stands at, in degrees.
    pub closed spec fn position(self) -> u8 {
        self.position
    }

    /// The full-scale duty value cached at initialization.
    pub closed spec fn max_duty(self) -> u32 {
        self.max_duty
    }

    /// A command is pending or executing: no new command is admitted.
    pub open spec fn busy(self) -> bool {
        self.pending() is Some
    }

    /// Well-formedness: the actuator stands where the phase says — at the
    /// target while dwelling, at rest otherwise — and an executing command
    /// still occupies the channel.
    pub open spec fn wf(self) -> bool {
        match self.phase() {
            Phase::Resting => self.position() == REST_DEGREE,
            Phase::MovingToTarget { target } => {
                &&& target <= MAX_DEGREE
                &&& self.position() == target
                &&& self.pending() is Some
            },
            Phase::ReturningToRest => {
                &&& self.position() == REST_DEGREE
                &&& self.pending() is Some
            },
        }
    }

    /// Initialize the controller: cache the full-scale duty value and hand
    /// back the startup drive, which moves the actuator to rest and holds it
    /// for the settle delay before the first command is taken.
    pub fn new(max_duty: u32) -> (r: (LockSystem, Drive))
        ensures
            r.0.wf(),
            !r.0.busy(),
            r.0.phase() is Resting,
            r.0.position() == REST_DEGREE,
            r.0.max_duty() == max_duty,
            r.1.duty == duty_for(REST_DEGREE as int, max_duty as int),
            r.1.hold_ms == SETTLE_MS,
    {
        let sys = LockSystem {
            channel: HandoffChannel::new(),
            phase: Phase::Resting,
            position: REST_DEGREE,
            max_duty,
        };
        let drive = Drive { duty: duty_for_degree(REST_DEGREE, max_duty), hold_ms: SETTLE_MS };
        (sys, drive)
    }

    /// The wireless write callback: admit the payload when no command is
    /// pending or executing, drop it otherwise.  Never blocks.  A refusal is
    /// the caller's cue to emit exactly one busy warning; nothing else in
    /// the system changes.
    pub fn on_write(&mut self, data: Vec<u8>) -> (accepted: bool)
        ensures
            accepted == !old(self).busy(),
            accepted ==> final(self).pending() == Some(data@),
            !accepted ==> final(self).pending() == old(self).pending(),
            final(self).phase() == old(self).phase(),
            final(self).position() == old(self).position(),
            final(self).max_duty() == old(self).max_duty(),
            old(self).wf() ==> final(self).wf(),
    {
        match self.channel.try_send(data) {
            Ok(()) => true,
            Err(_) => false,
        }
    }

    /// Take the pending command and decide.  A valid payload starts the
    /// sequence: the actuator is driven to the commanded angle and dwells
    /// there, and the command keeps the channel occupied until the sequence
    /// completes.  A rejected payload frees the channel at once — the
    /// controller goes straight back to waiting, the actuator does not move
    /// — and the returned error is the caller's cue to emit exactly one
    /// warning.
    pub fn take_command(&mut self) -> (r: Result<Drive, CommandError>)
        requires
            old(self).wf(),
            old(self).phase() is Resting,
            old(self).pending() is Some,
        ensures
            final(self).wf(),
            final(self).max_duty() == old(self).max_duty(),
            r is Ok <==> valid_command(old(self).pending()->0),
            r matches Ok(drive) ==> {
                let payload = old(self).pending()->0;
                &&& drive.duty == duty_for(payload_value(payload) as int, old(self).max_duty() as int)
                &&& drive.hold_ms == DWELL_MS
                &&& final(self).phase() == (Phase::MovingToTarget {
                    target: payload_value(payload) as u8,
                })
                &&& final(self).position() as nat == payload_value(payload)
                &&& final(self).pending() == old(self).pending()
            },
            r matches Err(e) ==> {
                let payload = old(self).pending()->0;
                &&& final(self).phase() is Resting
                &&& final(self).position() == old(self).position()
                &&& final(self).pending() is None
                &&& (e is Malformed <==> !parses(payload))
                &&& (e matches CommandError::TooLarge(v) ==> parses(payload)
                    && payload_value(payload) == v as nat && v > MAX_DEGREE)
            },
    {
        match parse_command(self.channel.peek().as_slice()) {
            Ok(cmd) => {
                let drive = Drive {
                    duty: duty_for_degree(cmd.degree, self.max_duty),
                    hold_ms: DWELL_MS,
                };
                self.phase = Phase::MovingToTarget { target: cmd.degree };
                self.position = cmd.degree;
                Ok(drive)
            },
            Err(e) => {
                let _ = self.channel.take();
                Err(e)
            },
        }
    }

    /// The dwell at the commanded angle has elapsed: drive back to rest and
    /// settle there.  The executing command still occupies the channel.
    pub fn finish_dwell(&mut self) -> (drive: Drive)
        requires
            old(self).wf(),
            old(self).phase() is MovingToTarget,
        ensures
            final(self).wf(),
            final(self).phase() is ReturningToRest,
            final(self).position() == REST_DEGREE,
            final(self).pending() == old(self).pending(),
            final(self).max_duty() == old(self).max_duty(),
            drive.duty == duty_for(REST_DEGREE as int, old(self).max_duty() as int),
            drive.hold_ms == SETTLE_MS,
    {
        let drive = Drive {
            duty: duty_for_degree(REST_DEGREE, self.max_duty),
            hold_ms: SETTLE_MS,
        };
        self.phase = Phase::ReturningToRest;
        self.position = REST_DEGREE;
        drive
    }

    /// The settle at rest has elapsed: the sequence is complete.  The
    /// executed command leaves the channel, so the next arriving payload
    /// will be admitted again.
    pub fn finish_settle(&mut self)
        requires
            old(self).wf(),
            old(self).phase() is ReturningToRest,
        ensures
            final(self).wf(),
            !final(self).busy(),
            final(self).phase() is Resting,
            final(self).position() == REST_DEGREE,
            final(self).max_duty() == old(self).max_duty(),
    {
        let _ = self.channel.take();
        self.phase = Phase::Resting;
    }

    /// One whole pass of the controller's sequencing loop, from a pending
    /// command back to waiting.  A valid command yields its two drives in
    /// order: to the commanded angle for the dwell, then back to rest for
    /// the settle.  Whatever the payload, the controller ends resting with
    /// the channel free and the actuator where it began — a rejected command
    /// moves nothing, and an executed one has returned to rest.
    pub fn run_cycle(&mut self) -> (r: Result<(Drive, Drive), CommandError>)
        requires
            old(self).wf(),
            old(self).phase() is Resting,
            old(self).pending() is Some,
        ensures
            final(self).wf(),
            final(self).phase() is Resting,
            final(self).position() == old(self).position(),
            !final(self).busy(),
            final(self).max_duty() == old(self).max_duty(),
            r is Ok <==> valid_command(old(self).pending()->0),
            r matches Ok(drives) ==> {
                let payload = old(self).pending()->0;
                &&& drives.0.duty == duty_for(payload_value(payload) as int, old(self).max_duty() as int)
                &&& drives.0.hold_ms == DWELL_MS
                &&& drives.1.duty == duty_for(REST_DEGREE as int, old(self).max_duty() as int)
                &&& drives.1.hold_ms == SETTLE_MS
            },
            r matches Err(e) ==> {
                let payload = old(self).pending()->0;
                &&& !valid_command(payload)
                &&& (e is Malformed <==> !parses(payload))
                &&& (e matches CommandError::TooLarge(v) ==> parses(payload)
                    && payload_value(payload) == v as nat && v > MAX_DEGREE)
            },
    {
        match self.take_command() {
            Ok(first) => {
                let second = self.finish_dwell();
                self.finish_settle();
                Ok((first, second))
            },
            Err(e) => Err(e),
        }
    }

    /// Whether a command is pending or executing.
    pub fn is_busy(&self) -> (b: bool)
        ensures
            b == self.busy(),
    {
        self.channel.has_pending()
    }

    /// Whether the controller is waiting for a command.
    pub fn is_resting(&self) -> (b: bool)
        ensures
            b == (self.phase() is Resting),
    {
        matches!(self.phase, Phase::Resting)
    }

    /// The angle the actuator currently stands at, in degrees.
    pub fn position_degrees(&self) -> (d: u8)
        ensures
            d == self.position(),
    {
        self.position
    }
}

/// Admission during a sequence: a well-formed system that is mid-sequence is
/// always busy — the executing command still occupies the channel, so every
/// payload delivered to the receiver is dropped — and once the sequence has
/// completed and the channel is free, the system is not busy, so the next
/// command is admitted.
pub proof fn lemma_busy_during_sequence(s: LockSystem)
    requires
        s.wf(),
    ensures
        !(s.phase() is Resting) ==> s.busy(),
        s.phase() is Resting && s.pending() is None ==> !s.busy(),
{
}

/// Idempotence of the zero command: the payload "0" is valid, names the rest
/// angle, and its target duty is the rest duty itself — a cycle that executes
/// it errs nowhere and commands no motion away from rest.
pub proof fn lemma_zero_command_idempotent(max_duty: u32)
    ensures
        valid_command(seq![48u8]),
        payload_value(seq![48u8]) == REST_DEGREE,
        duty_for(payload_value(seq![48u8]) as int, max_duty as int)
            == duty_for(REST_DEGREE as int, max_duty as int),
{
    let s = seq![48u8];
    assert(digits_of(s) =~= s);
    assert(s.drop_last() =~= Seq::<u8>::empty());
    assert(dec_value(s.drop_last()) == 0);
    assert(dec_value(s) == 0);
    assert(is_digit(s[0]));
}

} // verus!
