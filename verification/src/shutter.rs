//! A motorised shutter, driven by pulses on one control line, and the pulse
//! trains that make it open, close, stop, reset or settle half open.

use vstd::prelude::*;

verus! {

/// Length of one pulse, and of the silence after it, in milliseconds.
pub const PULSE_MILLIS: u64 = 100;

/// Pulses that start an opening run.
pub const OPEN_PULSES: usize = 3;

/// Pulses that start a closing run.
pub const CLOSE_PULSES: usize = 4;

/// Pulses that halt the motor.
pub const STOP_PULSES: usize = 1;

/// Pulses that put the controller back into its initial state.
pub const RESET_PULSES: usize = 25;

/// Time left to a shutter to open fully before it is sent down again, in
/// milliseconds.
pub const MIDDLE_OPEN_MILLIS: u64 = 180000;

/// Time a fully open shutter travels down to reach the half-open position, in
/// milliseconds.
pub const MIDDLE_CLOSE_MILLIS: u64 = 8800;

/// One step of a pulse train.
#[derive(Clone, Copy, Debug, PartialEq, Eq, Structural)]
pub enum Step {
    /// Raise line `pin` for `millis`, then lower it for `millis`.
    Pulse { pin: u8, millis: u64 },
    /// Leave every line alone for `millis`.
    Pause { millis: u64 },
}

/// A train of `count` standard pulses on line `pin`.
pub open spec fn pulses(pin: u8, count: nat) -> Seq<Step> {
    Seq::new(count, |i: int| Step::Pulse { pin, millis: PULSE_MILLIS })
}

/// The train that sends a shutter to the half-open position: open, wait for
/// the top, close, wait for the half-way point, stop.
pub open spec fn middle_train(pin: u8) -> Seq<Step> {
    pulses(pin, OPEN_PULSES as nat) + seq![Step::Pause { millis: MIDDLE_OPEN_MILLIS }] + pulses(
        pin,
        CLOSE_PULSES as nat,
    ) + seq![Step::Pause { millis: MIDDLE_CLOSE_MILLIS }] + pulses(pin, STOP_PULSES as nat)
}

/// Appends `count` standard pulses on line `pin` to a train.
fn push_pulses(train: &mut Vec<Step>, pin: u8, count: usize)
    ensures
        final(train)@ == old(train)@ + pulses(pin, count as nat),
{
    let ghost before = train@;
    let mut sent: usize = 0;
    while sent < count
        invariant
            sent <= count,
            train@ == before + pulses(pin, sent as nat),
        decreases count - sent,
    {
        train.push(Step::Pulse { pin, millis: PULSE_MILLIS });
        sent = sent + 1;
        assert(train@ =~= before + pulses(pin, sent as nat));
    }
    assert(train@ =~= before + pulses(pin, count as nat));
}

/// A shutter, known by the number of the line that controls it.
#[derive(Clone, Copy, Debug, PartialEq, Eq, Structural)]
pub struct Shutter {
    number: u8,
}

impl Shutter {
    /// The control line of this shutter.
    pub closed spec fn pin(self) -> u8 {
        self.number
    }

    /// A shutter on control line `number`.
    pub fn new(number: u8) -> (r: Shutter)
        ensures
            r.pin() == number,
    {
        Shutter { number }
    }

    /// The number of the control line.
    pub fn number(&self) -> (r: u8)
        ensures
            r == self.pin(),
    {
        self.number
    }

    /// The pulse train that opens the shutter.
    pub fn open(&self) -> (train: Vec<Step>)
        ensures
            train@ == pulses(self.pin(), OPEN_PULSES as nat),
    {
        let mut train: Vec<Step> = Vec::new();
        push_pulses(&mut train, self.number, OPEN_PULSES);
        assert(train@ =~= pulses(self.pin(), OPEN_PULSES as nat));
        train
    }

    /// The pulse train that closes the shutter.
    pub fn close(&self) -> (train: Vec<Step>)
        ensures
            train@ == pulses(self.pin(), CLOSE_PULSES as nat),
    {
        let mut train: Vec<Step> = Vec::new();
        push_pulses(&mut train, self.number, CLOSE_PULSES);
        assert(train@ =~= pulses(self.pin(), CLOSE_PULSES as nat));
        train
    }

    /// The pulse train that halts the shutter where it is.
    pub fn stop(&self) -> (train: Vec<Step>)
        ensures
            train@ == pulses(self.pin(), STOP_PULSES as nat),
    {
        let mut train: Vec<Step> = Vec::new();
        push_pulses(&mut train, self.number, STOP_PULSES);
        assert(train@ =~= pulses(self.pin(), STOP_PULSES as nat));
        train
    }

    /// The pulse train that resets the shutter's controller.
    pub fn reset(&self) -> (train: Vec<Step>)
        ensures
            train@ == pulses(self.pin(), RESET_PULSES as nat),
    {
        let mut train: Vec<Step> = Vec::new();
        push_pulses(&mut train, self.number, RESET_PULSES);
        assert(train@ =~= pulses(self.pin(), RESET_PULSES as nat));
        train
    }

    /// The pulse train that leaves the shutter half open.
    pub fn middle(&self) -> (train: Vec<Step>)
        ensures
            train@ == middle_train(self.pin()),
    {
        let mut train: Vec<Step> = Vec::new();
        push_pulses(&mut train, self.number, OPEN_PULSES);
        train.push(Step::Pause { millis: MIDDLE_OPEN_MILLIS });
        push_pulses(&mut train, self.number, CLOSE_PULSES);
        train.push(Step::Pause { millis: MIDDLE_CLOSE_MILLIS });
        push_pulses(&mut train, self.number, STOP_PULSES);
        assert(train@ =~= middle_train(self.pin()));
        train
    }
}

} // verus!
