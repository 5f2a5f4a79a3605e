//! The oscillating animation state machine.
//!
//! The controller owns the parameters that drive the HUD's motion and
//! advances them exactly once per rendered frame. In the idle mode a
//! ping-pong integrator walks the counter between 0 and its upper bound,
//! with the phase and the scale tracking the counter linearly; in the
//! recording mode the rotation grows by a fixed increment per frame and
//! wraps after a fixed multiple of a full turn. A single external trigger
//! toggles the recording flag and resets the oscillating parameters.
//!
//! Fractional quantities (phase, rotation, scale) are micro-unit scalars, so
//! every transition is exact integer arithmetic.

use vstd::prelude::*;

verus! {

/// Upper bound of the idle ping-pong counter.
pub const COUNTER_BOUND: i16 = 300;

/// Phase gained per idle frame, in micro-units (one ten-thousandth of a
/// unit); the phase feeds the glow rings' time offset.
pub const PHASE_STEP_MICRO: i64 = 100;

/// The phase at the counter's upper bound: `COUNTER_BOUND * PHASE_STEP_MICRO`.
pub const PHASE_MAX_MICRO: i64 = 30_000;

/// Scale gained per idle frame, in micro-units (one thousandth of a unit).
pub const SCALE_STEP_MICRO: i64 = 1_000;

/// The scale every reset returns to: 1.4 units.
pub const SCALE_BASE_MICRO: i64 = 1_400_000;

/// Rotation gained per recording frame, in micro-units of a radian.
pub const ROTATION_STEP_MICRO: i64 = 30_000;

/// The rotation wraps back to zero once it reaches forty pi radians, in
/// micro-units.
pub const ROTATION_WRAP_MICRO: i64 = 125_663_706;

/// The parameter bundle one frame consumes, copied out of the state machine.
#[derive(Clone, Copy, Debug, PartialEq, Eq, Structural)]
pub struct FrameParams {
    pub phase_micro: i64,
    pub rotation_micro: i64,
    pub scale_micro: i64,
    pub is_recording: bool,
}

impl FrameParams {
    /// The ranges every reachable state's bundle lies in.
    pub open spec fn wf(self) -> bool {
        &&& 0 <= self.phase_micro <= PHASE_MAX_MICRO
        &&& 0 <= self.rotation_micro <= ROTATION_WRAP_MICRO + ROTATION_STEP_MICRO
        &&& SCALE_BASE_MICRO <= self.scale_micro <= SCALE_BASE_MICRO + COUNTER_BOUND as int
            * SCALE_STEP_MICRO
    }
}

/// The animation state: created once at startup, mutated exclusively by
/// `advance` (once per frame) and by `toggle_record`.
#[derive(Clone, Copy, Debug, PartialEq, Eq, Structural)]
pub struct AnimationState {
    pub phase_micro: i64,
    pub counter: i16,
    pub direction: i16,
    pub is_recording: bool,
    pub rotation_micro: i64,
    pub scale_micro: i64,
}

impl AnimationState {
    /// The state every run starts from.
    pub open spec fn initial() -> AnimationState {
        AnimationState {
            phase_micro: 0,
            counter: 0,
            direction: 1,
            is_recording: false,
            rotation_micro: 0,
            scale_micro: SCALE_BASE_MICRO,
        }
    }

    /// Invariant of every reachable state: the counter stays within its
    /// bounds, the direction is a sign, the phase and the scale track the
    /// counter linearly, the rotation stays within one step of its wrap
    /// bound, and in the idle mode the direction always points away from the
    /// bound the counter sits on.
    pub open spec fn wf(self) -> bool {
        &&& 0 <= self.counter <= COUNTER_BOUND
        &&& (self.direction == 1 || self.direction == -1)
        &&& self.phase_micro == self.counter as int * PHASE_STEP_MICRO
        &&& self.scale_micro == SCALE_BASE_MICRO + self.counter as int * SCALE_STEP_MICRO
        &&& 0 <= self.rotation_micro <= ROTATION_WRAP_MICRO + ROTATION_STEP_MICRO
        &&& (!self.is_recording && self.counter == 0 ==> self.direction == 1)
        &&& (!self.is_recording && self.counter == COUNTER_BOUND ==> self.direction == -1)
    }

    /// The state one frame later. Idle: the counter, phase and scale step by
    /// the direction. Recording: the rotation wraps to zero on reaching its
    /// bound and then grows by its increment. In either mode the direction is
    /// negated when the counter sits at 0, or at its upper bound while idle.
    pub open spec fn advanced(self) -> AnimationState {
        let stepped = if !self.is_recording {
            AnimationState {
                phase_micro: (self.phase_micro + self.direction as int * PHASE_STEP_MICRO) as i64,
                counter: (self.counter + self.direction) as i16,
                direction: self.direction,
                is_recording: self.is_recording,
                rotation_micro: self.rotation_micro,
                scale_micro: (self.scale_micro + self.direction as int * SCALE_STEP_MICRO) as i64,
            }
        } else {
            AnimationState {
                phase_micro: self.phase_micro,
                counter: self.counter,
                direction: self.direction,
                is_recording: self.is_recording,
                rotation_micro: ((if self.rotation_micro >= ROTATION_WRAP_MICRO {
                    0
                } else {
                    self.rotation_micro as int
                }) + ROTATION_STEP_MICRO) as i64,
                scale_micro: self.scale_micro,
            }
        };
        if stepped.counter == 0 || (stepped.counter == COUNTER_BOUND && !stepped.is_recording) {
            AnimationState {
                phase_micro: stepped.phase_micro,
                counter: stepped.counter,
                direction: (-(stepped.direction as int)) as i16,
                is_recording: stepped.is_recording,
                rotation_micro: stepped.rotation_micro,
                scale_micro: stepped.scale_micro,
            }
        } else {
            stepped
        }
    }

    /// The state after the record trigger: the flag flips and the
    /// oscillating parameters reset to their defaults.
    pub open spec fn toggled(self) -> AnimationState {
        AnimationState {
            phase_micro: 0,
            counter: 0,
            direction: 1,
            is_recording: !self.is_recording,
            rotation_micro: 0,
            scale_micro: SCALE_BASE_MICRO,
        }
    }

    /// The state after `n` frame advances.
    pub open spec fn advanced_n(self, n: nat) -> AnimationState
        decreases n,
    {
        if n == 0 {
            self
        } else {
            self.advanced_n((n - 1) as nat).advanced()
        }
    }

    /// The parameter bundle of this state.
    pub open spec fn spec_params(self) -> FrameParams {
        FrameParams {
            phase_micro: self.phase_micro,
            rotation_micro: self.rotation_micro,
            scale_micro: self.scale_micro,
            is_recording: self.is_recording,
        }
    }

    /// Creates the startup state.
    pub fn new() -> (s: AnimationState)
        ensures
            s == AnimationState::initial(),
            s.wf(),
    {
        AnimationState {
            phase_micro: 0,
            counter: 0,
            direction: 1,
            is_recording: false,
            rotation_micro: 0,
            scale_micro: SCALE_BASE_MICRO,
        }
    }

    /// Advances the animation by exactly one frame.
    pub fn advance(&mut self)
        requires
            old(self).wf(),
        ensures
            *final(self) == old(self).advanced(),
            final(self).wf(),
    {
        if !self.is_recording {
            self.counter = self.counter + self.direction;
            self.phase_micro = self.phase_micro + (self.direction as i64) * PHASE_STEP_MICRO;
            self.scale_micro = self.scale_micro + (self.direction as i64) * SCALE_STEP_MICRO;
        } else {
            if self.rotation_micro >= ROTATION_WRAP_MICRO {
                self.rotation_micro = 0;
            }
            self.rotation_micro = self.rotation_micro + ROTATION_STEP_MICRO;
        }
        if self.counter == 0 || (self.counter == COUNTER_BOUND && !self.is_recording) {
            self.direction = -self.direction;
        }
    }

    /// Flips the recording flag and resets the oscillating parameters,
    /// whatever their values were.
    pub fn toggle_record(&mut self)
        ensures
            *final(self) == old(self).toggled(),
            final(self).wf(),
    {
        self.is_recording = !self.is_recording;
        self.phase_micro = 0;
        self.counter = 0;
        self.direction = 1;
        self.rotation_micro = 0;
        self.scale_micro = SCALE_BASE_MICRO;
    }

    /// Copies out the parameter bundle the frame assembler consumes.
    pub fn params(&self) -> (p: FrameParams)
        ensures
            p == self.spec_params(),
            self.wf() ==> p.wf(),
    {
        FrameParams {
            phase_micro: self.phase_micro,
            rotation_micro: self.rotation_micro,
            scale_micro: self.scale_micro,
            is_recording: self.is_recording,
        }
    }
}

/// Rising half of the idle oscillation: for `n` up to the bound, `n` advances
/// from a freshly reset idle state put the counter at `n`, the direction
/// still rising except at the bound itself.
proof fn lemma_idle_rise(s: AnimationState, n: nat)
    requires
        s.wf(),
        !s.is_recording,
        s.counter == 0,
        n <= 300,
    ensures
        s.advanced_n(n) == (AnimationState {
            phase_micro: (n * PHASE_STEP_MICRO) as i64,
            counter: n as i16,
            direction: if n == 300 { -1i16 } else { 1i16 },
            is_recording: false,
            rotation_micro: s.rotation_micro,
            scale_micro: (SCALE_BASE_MICRO + n * SCALE_STEP_MICRO) as i64,
        }),
    decreases n,
{
    if n > 0 {
        lemma_idle_rise(s, (n - 1) as nat);
    }
}

/// Falling half of the idle oscillation: between 300 and 600 advances the
/// counter walks back down, returning to 0 with the direction flipped back
/// up at exactly 600.
proof fn lemma_idle_fall(s: AnimationState, n: nat)
    requires
        s.wf(),
        !s.is_recording,
        s.counter == 0,
        300 <= n <= 600,
    ensures
        s.advanced_n(n) == (AnimationState {
            phase_micro: ((600 - n) * PHASE_STEP_MICRO) as i64,
            counter: (600 - n) as i16,
            direction: if n == 600 { 1i16 } else { -1i16 },
            is_recording: false,
            rotation_micro: s.rotation_micro,
            scale_micro: (SCALE_BASE_MICRO + (600 - n) * SCALE_STEP_MICRO) as i64,
        }),
    decreases n,
{
    if n == 300 {
        lemma_idle_rise(s, 300);
    } else {
        lemma_idle_fall(s, (n - 1) as nat);
    }
}

/// Splitting a run of advances: `a + b` advances equal `a` advances followed
/// by `b` advances.
proof fn lemma_advanced_n_add(s: AnimationState, a: nat, b: nat)
    ensures
        s.advanced_n(a + b) == s.advanced_n(a).advanced_n(b),
    decreases b,
{
    if b > 0 {
        lemma_advanced_n_add(s, a, (b - 1) as nat);
    }
}

/// Idle ping-pong periodicity: starting from a freshly reset idle state
/// (counter 0, direction rising), after exactly 300 advances the counter sits
/// at its upper bound with the direction flipped to falling, after 600
/// advances the state has returned exactly to its start, and the whole motion
/// repeats with period 600.
pub proof fn lemma_idle_ping_pong(s: AnimationState)
    requires
        s.wf(),
        !s.is_recording,
        s.counter == 0,
    ensures
        s.advanced_n(300).counter == COUNTER_BOUND,
        s.advanced_n(300).direction == -1,
        s.advanced_n(600) == s,
        forall|n: nat| #[trigger] s.advanced_n(n + 600) == s.advanced_n(n),
{
    lemma_idle_rise(s, 300);
    lemma_idle_fall(s, 600);
    assert forall|n: nat| #[trigger] s.advanced_n(n + 600) == s.advanced_n(n) by {
        lemma_advanced_n_add(s, 600, n);
    }
}

/// Toggling the record trigger twice in succession restores the recording
/// flag to its original value; each toggle resets the counter, rotation,
/// scale, phase and direction to their defaults regardless of the values
/// they held immediately before the call.
pub proof fn lemma_toggle_twice(s: AnimationState)
    ensures
        s.toggled().toggled().is_recording == s.is_recording,
        s.toggled().counter == 0,
        s.toggled().rotation_micro == 0,
        s.toggled().scale_micro == SCALE_BASE_MICRO,
        s.toggled().phase_micro == 0,
        s.toggled().direction == 1,
        s.toggled().toggled().counter == 0,
        s.toggled().toggled().rotation_micro == 0,
        s.toggled().toggled().scale_micro == SCALE_BASE_MICRO,
{
}

} // verus!
