//! The envelope: a four-stage amplitude contour driven by elapsed time.

use vstd::prelude::*;

use crate::synth_core::level::{Level, Ratio, UNITY};

verus! {

/// The stage an envelope is in.
#[derive(Clone, Copy, Debug, PartialEq, Eq, Structural)]
pub enum EnvelopeState {
    Idle,
    Attack,
    Decay,
    Sustain,
    Release,
}

/// The abstract state of an [`Envelope`].
///
/// Times are in microseconds, the sustain level in millionths, the sample
/// rate in hertz, and `time` counts the steps taken in the current stage, so
/// the time elapsed in the stage is `time / sample_rate` seconds.
pub ghost struct EnvelopeView {
    pub attack: u32,
    pub decay: u32,
    pub sustain: u32,
    pub release: u32,
    pub sample_rate: u32,
    pub state: EnvelopeState,
    pub level: Ratio,
    pub time: u64,
}

impl EnvelopeView {
    /// The envelope at rest with the default contour: 10 ms attack, 100 ms
    /// decay, sustain at 0.7 and 500 ms release.
    pub open spec fn initial(sample_rate: u32) -> EnvelopeView {
        EnvelopeView {
            attack: 10_000,
            decay: 100_000,
            sustain: 700_000,
            release: 500_000,
            sample_rate,
            state: EnvelopeState::Idle,
            level: Ratio::zero(),
            time: 0,
        }
    }

    /// A stage of `duration` microseconds, in the unit in which one step
    /// lasts `UNITY`: a million times the stage's length in samples.
    pub open spec fn span(self, duration: u32) -> int {
        duration * self.sample_rate
    }

    /// The step count after one more step; it stops at the largest count the
    /// envelope can hold.
    pub open spec fn advanced(self) -> u64 {
        if self.time < u64::MAX {
            (self.time + 1) as u64
        } else {
            self.time
        }
    }

    /// Whether `time` steps cover a stage of `duration` microseconds:
    /// `time / sample_rate >= duration / 1_000_000`.
    pub open spec fn reached(self, time: int, duration: u32) -> bool {
        time * UNITY >= self.span(duration)
    }

    /// The attack ramp from 0 to 1: `elapsed / attack`.
    pub open spec fn attack_level(self, time: int) -> Ratio {
        Ratio { num: time * UNITY, den: self.span(self.attack) }
    }

    /// The decay ramp from 1 to the sustain level:
    /// `1 - (1 - sustain) * (elapsed / decay)`.
    pub open spec fn decay_level(self, time: int) -> Ratio {
        Ratio {
            num: self.span(self.decay) - (UNITY - self.sustain) * time,
            den: self.span(self.decay),
        }
    }

    /// The level held while the note is sustained.
    pub open spec fn sustain_level(self) -> Ratio {
        Ratio { num: self.sustain as int, den: UNITY as int }
    }

    /// The release ramp from the sustain level to 0:
    /// `sustain * (1 - elapsed / release)`.
    pub open spec fn release_level(self, time: int) -> Ratio {
        Ratio {
            num: self.sustain * (self.span(self.release) - time * UNITY),
            den: UNITY * self.span(self.release),
        }
    }

    /// A note starts: the attack begins, whatever the stage was.
    pub open spec fn trigger(self) -> EnvelopeView {
        EnvelopeView { state: EnvelopeState::Attack, time: 0, ..self }
    }

    /// A note ends: the release begins, unless the envelope is at rest.
    pub open spec fn release(self) -> EnvelopeView {
        if self.state == EnvelopeState::Idle {
            self
        } else {
            EnvelopeView { state: EnvelopeState::Release, time: 0, ..self }
        }
    }

    /// One sample passes: the time in the stage advances, the level follows
    /// the stage's contour, and a stage whose time is up hands over to the
    /// next one.
    pub open spec fn step(self) -> EnvelopeView {
        let time = self.advanced();
        match self.state {
            EnvelopeState::Idle => EnvelopeView { level: Ratio::zero(), time, ..self },
            EnvelopeState::Attack => {
                let level = self.attack_level(time as int);
                if self.reached(time as int, self.attack) {
                    EnvelopeView { state: EnvelopeState::Decay, level, time: 0, ..self }
                } else {
                    EnvelopeView { level, time, ..self }
                }
            },
            EnvelopeState::Decay => {
                let level = self.decay_level(time as int);
                if self.reached(time as int, self.decay) {
                    EnvelopeView { state: EnvelopeState::Sustain, level, time: 0, ..self }
                } else {
                    EnvelopeView { level, time, ..self }
                }
            },
            EnvelopeState::Sustain => EnvelopeView { level: self.sustain_level(), time, ..self },
            EnvelopeState::Release => {
                if self.reached(time as int, self.release) {
                    EnvelopeView {
                        state: EnvelopeState::Idle,
                        level: Ratio::zero(),
                        time: 0,
                        ..self
                    }
                } else {
                    EnvelopeView { level: self.release_level(time as int), time, ..self }
                }
            },
        }
    }

    /// The envelope after `steps` samples have passed.
    pub open spec fn after(self, steps: nat) -> EnvelopeView
        decreases steps,
    {
        if steps == 0 {
            self
        } else {
            self.after((steps - 1) as nat).step()
        }
    }

    /// Whether the envelope stands at the very start of an attack.
    pub open spec fn attack_begins(self) -> bool {
        self.state == EnvelopeState::Attack && self.time == 0
    }

    /// How long the stage lasts that the envelope is in, in microseconds, if
    /// the stage ends by itself.
    pub open spec fn stage_time(self) -> Option<u32> {
        match self.state {
            EnvelopeState::Attack => Some(self.attack),
            EnvelopeState::Decay => Some(self.decay),
            EnvelopeState::Release => Some(self.release),
            _ => None,
        }
    }

    /// The level that the contour of the current stage gives `time` steps
    /// into the stage.
    pub open spec fn stage_level(self, time: int) -> Ratio {
        match self.state {
            EnvelopeState::Idle => Ratio::zero(),
            EnvelopeState::Attack => self.attack_level(time),
            EnvelopeState::Decay => self.decay_level(time),
            EnvelopeState::Sustain => self.sustain_level(),
            EnvelopeState::Release => self.release_level(time),
        }
    }

    /// The stage that follows the current one when its time is up.
    pub open spec fn next_state(self) -> EnvelopeState {
        match self.state {
            EnvelopeState::Attack => EnvelopeState::Decay,
            EnvelopeState::Decay => EnvelopeState::Sustain,
            EnvelopeState::Release => EnvelopeState::Idle,
            state => state,
        }
    }

    /// How many steps a stage of `duration` microseconds takes: its length
    /// in samples, rounded up, and at least one.
    pub open spec fn steps_of(self, duration: u32) -> nat {
        let span = self.span(duration);
        if span == 0 {
            1
        } else {
            ((span + UNITY - 1) / (UNITY as int)) as nat
        }
    }

    /// Whether the time spent in a stage of limited duration is still short
    /// of that duration, as it is as long as the contour is not replaced in
    /// the middle of a stage.
    pub open spec fn on_time(self) -> bool {
        match self.state {
            EnvelopeState::Attack => self.time == 0 || self.time * UNITY < self.span(self.attack),
            EnvelopeState::Decay => self.time == 0 || self.time * UNITY < self.span(self.decay),
            EnvelopeState::Release => self.time == 0 || self.time * UNITY < self.span(
                self.release,
            ),
            _ => true,
        }
    }
}

/// An attack-decay-sustain-release envelope generator.
pub struct Envelope {
    attack: u32,
    decay: u32,
    sustain: u32,
    release: u32,
    sample_rate: u32,
    state: EnvelopeState,
    level: Level,
    time: u64,
}

impl View for Envelope {
    type V = EnvelopeView;

    closed spec fn view(&self) -> EnvelopeView {
        EnvelopeView {
            attack: self.attack,
            decay: self.decay,
            sustain: self.sustain,
            release: self.release,
            sample_rate: self.sample_rate,
            state: self.state,
            level: self.level@,
            time: self.time,
        }
    }
}

/// The product of two 32-bit values fits in 64 bits.
proof fn lemma_span_fits(duration: u32, sample_rate: u32)
    ensures
        0 <= duration * sample_rate <= 0xffff_fffe_0000_0001,
{
    assert(0 <= duration * sample_rate <= 0xffff_ffff * 0xffff_ffff) by (nonlinear_arith)
        requires
            0 <= duration <= 0xffff_ffff,
            0 <= sample_rate <= 0xffff_ffff,
    ;
}

/// A product is bounded by the product of the bounds of its factors.
proof fn lemma_product_bounded(a: int, b: int, bound_a: int, bound_b: int)
    requires
        -bound_a <= a <= bound_a,
        -bound_b <= b <= bound_b,
    ensures
        -(bound_a * bound_b) <= a * b <= bound_a * bound_b,
{
    assert(-(bound_a * bound_b) <= a * b <= bound_a * bound_b) by (nonlinear_arith)
        requires
            -bound_a <= a <= bound_a,
            -bound_b <= b <= bound_b,
    ;
}

impl Envelope {
    /// The sample rate is positive from construction on.
    #[verifier::type_invariant]
    spec fn positive_rate(self) -> bool {
        self.sample_rate > 0
    }

    /// An envelope at rest with the default contour.
    pub fn new(sample_rate: u32) -> (envelope: Envelope)
        requires
            sample_rate > 0,
        ensures
            envelope@ == EnvelopeView::initial(sample_rate),
            envelope@.state == EnvelopeState::Idle,
            envelope@.level == Ratio::zero(),
    {
        Envelope {
            attack: 10_000,
            decay: 100_000,
            sustain: 700_000,
            release: 500_000,
            sample_rate,
            state: EnvelopeState::Idle,
            level: Level::zero(),
            time: 0,
        }
    }

    /// Replaces the contour: the three times in microseconds and the sustain
    /// level in millionths. The stage, its elapsed time and the level stay.
    pub fn set_contour(&mut self, attack: u32, decay: u32, sustain: u32, release: u32)
        ensures
            final(self)@ == (EnvelopeView { attack, decay, sustain, release, ..old(self)@ }),
    {
        proof {
            use_type_invariant(&*self);
        }
        self.attack = attack;
        self.decay = decay;
        self.sustain = sustain;
        self.release = release;
    }

    /// Starts the attack, from any stage and at any level.
    pub fn trigger(&mut self)
        ensures
            final(self)@ == old(self)@.trigger(),
            final(self)@.state == EnvelopeState::Attack,
            final(self)@.time == 0,
    {
        proof {
            use_type_invariant(&*self);
        }
        self.state = EnvelopeState::Attack;
        self.time = 0;
    }

    /// Starts the release, unless the envelope is at rest: releasing a silent
    /// envelope changes nothing.
    pub fn release(&mut self)
        ensures
            final(self)@ == old(self)@.release(),
            old(self)@.state == EnvelopeState::Idle ==> final(self)@ == old(self)@,
    {
        proof {
            use_type_invariant(&*self);
        }
        if self.state != EnvelopeState::Idle {
            self.state = EnvelopeState::Release;
            self.time = 0;
        }
    }

    /// Advances the envelope by one sample and returns the new level.
    pub fn process(&mut self) -> (level: Level)
        ensures
            final(self)@ == old(self)@.step(),
            level@ == final(self)@.level,
    {
        proof {
            use_type_invariant(&*self);
        }
        let time: u64 = if self.time < u64::MAX {
            self.time + 1
        } else {
            self.time
        };
        let elapsed: u128 = time as u128 * UNITY as u128;
        self.time = time;
        match self.state {
            EnvelopeState::Idle => {
                self.level = Level::zero();
            },
            EnvelopeState::Attack => {
                proof {
                    lemma_span_fits(self.attack, self.sample_rate);
                }
                let span: u128 = self.attack as u128 * self.sample_rate as u128;
                self.level = Level { num: elapsed as i128, den: span };
                if elapsed >= span {
                    self.state = EnvelopeState::Decay;
                    self.time = 0;
                }
            },
            EnvelopeState::Decay => {
                proof {
                    lemma_span_fits(self.decay, self.sample_rate);
                    lemma_product_bounded(
                        UNITY - self.sustain,
                        time as int,
                        0xffff_ffff,
                        0xffff_ffff_ffff_ffff,
                    );
                }
                let span: u128 = self.decay as u128 * self.sample_rate as u128;
                let drop: i128 = (UNITY as i128 - self.sustain as i128) * time as i128;
                self.level = Level { num: span as i128 - drop, den: span };
                if elapsed >= span {
                    self.state = EnvelopeState::Sustain;
                    self.time = 0;
                }
            },
            EnvelopeState::Sustain => {
                self.level = Level { num: self.sustain as i128, den: UNITY as u128 };
            },
            EnvelopeState::Release => {
                proof {
                    lemma_span_fits(self.release, self.sample_rate);
                }
                let span: u128 = self.release as u128 * self.sample_rate as u128;
                if elapsed >= span {
                    self.state = EnvelopeState::Idle;
                    self.level = Level::zero();
                    self.time = 0;
                } else {
                    let left: i128 = span as i128 - elapsed as i128;
                    proof {
                        lemma_product_bounded(
                            self.sustain as int,
                            left as int,
                            0xffff_ffff,
                            0xffff_ffff_ffff_ffff,
                        );
                    }
                    self.level = Level {
                        num: self.sustain as i128 * left,
                        den: UNITY as u128 * span,
                    };
                }
            },
        }
        self.level
    }

    /// The sample rate the envelope was made for, in hertz.
    pub fn sample_rate(&self) -> (sample_rate: u32)
        ensures
            sample_rate == self@.sample_rate,
            sample_rate > 0,
    {
        proof {
            use_type_invariant(self);
        }
        self.sample_rate
    }

    /// The stage the envelope is in.
    pub fn state(&self) -> (state: EnvelopeState)
        ensures
            state == self@.state,
    {
        self.state
    }

    /// The level the envelope last produced.
    pub fn level(&self) -> (level: Level)
        ensures
            level@ == self@.level,
    {
        self.level
    }

    /// The number of steps taken in the current stage.
    pub fn time(&self) -> (time: u64)
        ensures
            time == self@.time,
    {
        self.time
    }
}

/// Taking steps one lot after another is taking them all.
pub proof fn lemma_after_adds(env: EnvelopeView, first: nat, then: nat)
    ensures
        env.after(first + then) == env.after(first).after(then),
    decreases then,
{
    if then > 0 {
        lemma_after_adds(env, first, (then - 1) as nat);
    }
}

/// While the time of a stage has not elapsed, an envelope that entered the
/// stage `steps` samples ago is still in it, and once a step has been taken
/// its level is what the stage's contour gives for the elapsed time.
pub proof fn lemma_stage_ramp(env: EnvelopeView, steps: nat)
    requires
        env.time == 0,
        env.stage_time() matches Some(duration) && steps * UNITY < env.span(duration),
    ensures
        env.after(steps) == (EnvelopeView {
            time: steps as u64,
            level: if steps == 0 {
                env.level
            } else {
                env.stage_level(steps as int)
            },
            ..env
        }),
        steps <= u64::MAX,
    decreases steps,
{
    lemma_span_fits(env.stage_time()->0, env.sample_rate);
    if steps > 0 {
        lemma_stage_ramp(env, (steps - 1) as nat);
    }
}

/// A stage takes its length in samples, rounded up, and at least one sample:
/// before that many steps from its start the envelope is still in the stage,
/// after exactly that many it is in the next stage with no time elapsed
/// there. The level of that last step is what the contour gives, but for the
/// release, which ends in silence.
pub proof fn lemma_stage_takes(env: EnvelopeView, steps: nat)
    requires
        env.time == 0,
        env.stage_time() matches Some(duration) && steps <= env.steps_of(duration),
    ensures
        steps < env.steps_of(env.stage_time()->0) ==> env.after(steps).state == env.state,
        steps == env.steps_of(env.stage_time()->0) ==> env.after(steps) == (EnvelopeView {
            state: env.next_state(),
            time: 0,
            level: if env.state == EnvelopeState::Release {
                Ratio::zero()
            } else {
                env.stage_level(steps as int)
            },
            ..env
        }),
{
    let duration = env.stage_time()->0;
    lemma_span_fits(duration, env.sample_rate);
    let span = env.span(duration);
    let whole = env.steps_of(duration);
    assert(whole >= 1 && (whole - 1) * UNITY < span + UNITY - 1 && span <= whole * UNITY) by {
        if span > 0 {
            vstd::arithmetic::div_mod::lemma_fundamental_div_mod(span + UNITY - 1, UNITY as int);
        }
    }
    if steps < whole {
        if span > 0 {
            lemma_stage_ramp(env, steps);
        }
    } else if steps > 1 {
        lemma_stage_ramp(env, (steps - 1) as nat);
    } else {
        assert(env.after(0) == env);
    }
}

/// A stage that does not end by itself lasts: an envelope at rest stays at
/// rest and silent, and a sustained one stays at the sustain level, for any
/// number of steps.
pub proof fn lemma_stage_lasts(env: EnvelopeView, steps: nat)
    requires
        env.stage_time() is None,
        steps >= 1,
    ensures
        env.after(steps).state == env.state,
        env.after(steps).level == env.stage_level(0),
        env.after(steps).stage_level(0) == env.stage_level(0),
    decreases steps,
{
    if steps > 1 {
        lemma_stage_lasts(env, (steps - 1) as nat);
    } else {
        assert(env.after(0) == env);
    }
}

/// The attack takes its length in samples, rounded up, and at least one
/// sample: before that many steps from its start the envelope is in `Attack`,
/// after exactly that many it is in `Decay` with no time elapsed there.
pub proof fn lemma_attack_takes(env: EnvelopeView, steps: nat)
    requires
        env.attack_begins(),
        steps <= env.steps_of(env.attack),
    ensures
        steps < env.steps_of(env.attack) ==> env.after(steps).state == EnvelopeState::Attack,
        steps == env.steps_of(env.attack) ==> env.after(steps) == (EnvelopeView {
            state: EnvelopeState::Decay,
            time: 0,
            level: env.attack_level(steps as int),
            ..env
        }),
{
    lemma_stage_takes(env, steps);
}

/// During the attack the level rises strictly from one step to the next, up
/// to and including the step that ends the attack. For an attack that starts
/// from silence this holds from the first step on.
pub proof fn lemma_attack_rises(env: EnvelopeView, steps: nat)
    requires
        env.attack_begins(),
        steps < env.steps_of(env.attack),
        env.attack > 0 && env.sample_rate > 0,
        steps >= 1 || env.level == Ratio::zero(),
    ensures
        env.after(steps).state == EnvelopeState::Attack,
        env.after(steps).level.is_finite(),
        env.after(steps + 1).level.is_finite(),
        env.after(steps).level.lt(env.after(steps + 1).level),
{
    lemma_span_fits(env.attack, env.sample_rate);
    let span = env.span(env.attack);
    assert(span > 0) by (nonlinear_arith)
        requires
            span == env.attack * env.sample_rate,
            env.attack > 0,
            env.sample_rate > 0,
    ;
    vstd::arithmetic::div_mod::lemma_fundamental_div_mod(span + UNITY - 1, UNITY as int);
    lemma_stage_ramp(env, steps);
    let next = env.attack_level(steps + 1 as int);
    if (steps + 1) * UNITY < span {
        lemma_stage_ramp(env, steps + 1);
    } else {
        lemma_stage_takes(env, steps + 1);
    }
    assert(env.after(steps + 1).level == next);
    if steps == 0 {
        assert(0 * span < next.num * 1);
    } else {
        assert(steps * UNITY * span < (steps + 1) * UNITY * span) by (nonlinear_arith)
            requires
                span > 0,
        ;
    }
}

/// A note that is held runs through attack and decay into sustain and stays
/// there: once the samples of the attack and those of the decay have passed
/// since the trigger, the envelope is in `Sustain`, however many more pass.
pub proof fn lemma_held_note_sustains(env: EnvelopeView, more: nat)
    requires
        env.attack_begins(),
    ensures
        env.after(env.steps_of(env.attack) + env.steps_of(env.decay) + more).state
            == EnvelopeState::Sustain,
        more >= 1 ==> env.after(env.steps_of(env.attack) + env.steps_of(env.decay) + more).level
            == env.sustain_level(),
{
    let attack = env.steps_of(env.attack);
    let decay = env.steps_of(env.decay);
    lemma_stage_takes(env, attack);
    lemma_stage_takes(env.after(attack), decay);
    lemma_after_adds(env, attack, decay);
    lemma_after_adds(env, attack + decay, more);
    if more >= 1 {
        lemma_stage_lasts(env.after(attack + decay), more);
    }
}

/// A released note comes to rest: once the samples of the release have
/// passed since the release began, the envelope is in `Idle` and silent,
/// however many more pass.
pub proof fn lemma_released_note_rests(env: EnvelopeView, more: nat)
    requires
        env.state == EnvelopeState::Release,
        env.time == 0,
    ensures
        env.after(env.steps_of(env.release) + more).state == EnvelopeState::Idle,
        env.after(env.steps_of(env.release) + more).level == Ratio::zero(),
{
    let release = env.steps_of(env.release);
    lemma_stage_takes(env, release);
    lemma_after_adds(env, release, more);
    if more >= 1 {
        lemma_stage_lasts(env.after(release), more);
    }
}

/// An envelope that is on time stays on time whatever is done to it, short
/// of replacing its contour; and a new envelope is on time.
pub proof fn lemma_stays_on_time(env: EnvelopeView)
    requires
        env.on_time(),
    ensures
        env.step().on_time(),
        env.trigger().on_time(),
        env.release().on_time(),
        EnvelopeView::initial(env.sample_rate).on_time(),
{
    lemma_span_fits(env.attack, env.sample_rate);
    lemma_span_fits(env.decay, env.sample_rate);
    lemma_span_fits(env.release, env.sample_rate);
}

/// A step taken during the attack overshoots full level by less than the
/// ramp of one sample: the level stays below `1 + (1 / sample_rate) / attack`.
pub proof fn lemma_attack_overshoot(env: EnvelopeView)
    requires
        env.state == EnvelopeState::Attack,
        env.on_time(),
        env.span(env.attack) > 0,
    ensures
        env.step().level.is_finite(),
        env.step().level.num < env.step().level.den + UNITY,
{
    lemma_span_fits(env.attack, env.sample_rate);
}

/// A step taken during the decay undershoots the sustain level by less than
/// the ramp of one sample: with a sustain level of at most one, the level
/// stays at or above `sustain - (1 - sustain) * (1 / sample_rate) / decay`.
pub proof fn lemma_decay_undershoot(env: EnvelopeView)
    requires
        env.state == EnvelopeState::Decay,
        env.on_time(),
        env.span(env.decay) > 0,
        env.sustain <= UNITY,
    ensures
        env.step().level.is_finite(),
        env.step().level.num * UNITY >= env.sustain * env.step().level.den - (UNITY
            - env.sustain) * UNITY,
{
    lemma_span_fits(env.decay, env.sample_rate);
    let span = env.span(env.decay);
    let time = env.advanced() as int;
    let slope = UNITY - env.sustain;
    assert(time * UNITY <= span + UNITY);
    assert(slope * (time * UNITY) <= slope * (span + UNITY)) by (nonlinear_arith)
        requires
            slope >= 0,
            time * UNITY <= span + UNITY,
    ;
    assert((span - slope * time) * UNITY == span * UNITY - slope * (time * UNITY))
        by (nonlinear_arith);
    assert(slope * (span + UNITY) == UNITY * span - env.sustain * span + slope * UNITY)
        by (nonlinear_arith)
        requires
            slope == UNITY - env.sustain,
    ;
}

/// The release never falls through silence: while the release lasts the level
/// is at least zero, and the step that ends it leaves the envelope at rest
/// with a level of exactly zero.
pub proof fn lemma_release_lands(env: EnvelopeView)
    requires
        env.state == EnvelopeState::Release,
    ensures
        env.step().state == EnvelopeState::Release ==> env.step().level.is_finite()
            && env.step().level.num >= 0,
        env.step().state != EnvelopeState::Release ==> env.step().state == EnvelopeState::Idle
            && env.step().level == Ratio::zero() && env.step().time == 0,
{
    lemma_span_fits(env.release, env.sample_rate);
    let left = env.span(env.release) - env.advanced() * UNITY;
    if left > 0 {
        assert(env.sustain * left >= 0) by (nonlinear_arith)
            requires
                env.sustain >= 0,
                left > 0,
        ;
        assert(UNITY * env.span(env.release) > 0);
    }
}

} // verus!
