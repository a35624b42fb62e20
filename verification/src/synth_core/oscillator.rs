//! The oscillator pair: a carrier and the modulator that deviates its
//! frequency.

use vstd::prelude::*;

use crate::synth_core::level::UNITY;

verus! {

/// `UNITY` squared: the scale of a product of two values in millionths.
pub const UNITY_SQUARED: u64 = 1_000_000_000_000;

/// `UNITY` cubed: the number of phase units that one cycle holds for each
/// hertz of sample rate.
pub const UNITY_CUBED: u64 = 1_000_000_000_000_000_000;

/// The parameters of an FM voice.
#[derive(Clone, Copy, Debug, PartialEq, Eq, Structural)]
pub struct FMParams {
    /// Carrier frequency in microhertz.
    pub carrier_freq: i64,
    /// Modulator frequency in microhertz.
    pub modulator_freq: i64,
    /// Modulation depth in millionths.
    pub modulation_index: u32,
    /// Output amplitude in millionths, from 0 to `UNITY`.
    pub amplitude: u32,
}

impl FMParams {
    /// Whether each parameter lies in its range: a carrier that runs
    /// forwards, a modulator that does not run backwards, and an amplitude
    /// of at most one.
    pub open spec fn valid(self) -> bool {
        &&& self.carrier_freq > 0
        &&& self.modulator_freq >= 0
        &&& self.amplitude <= UNITY
    }

    /// The parameters a voice has when none are chosen: a 440 Hz carrier, a
    /// 220 Hz modulator, a depth of 2 and an amplitude of 0.3.
    pub open spec fn standard() -> FMParams {
        FMParams {
            carrier_freq: 440_000_000,
            modulator_freq: 220_000_000,
            modulation_index: 2_000_000,
            amplitude: 300_000,
        }
    }
}

impl Default for FMParams {
    fn default() -> (params: FMParams)
        ensures
            params == FMParams::standard(),
    {
        FMParams {
            carrier_freq: 440_000_000,
            modulator_freq: 220_000_000,
            modulation_index: 2_000_000,
            amplitude: 300_000,
        }
    }
}

/// A sine sample is a value from -1 to 1, in millionths.
pub open spec fn is_sine(wave: i32) -> bool {
    -UNITY <= wave <= UNITY
}

/// The value kept of a phase that has left the range of its integer type:
/// the nearest end of the range.
pub open spec fn held(phase: int) -> i128 {
    if phase < i128::MIN {
        i128::MIN
    } else if phase > i128::MAX {
        i128::MAX
    } else {
        phase as i128
    }
}

/// The abstract state of an [`FMOscillator`].
///
/// A phase counts units of which one cycle holds `sample_rate * UNITY_CUBED`,
/// so that a frequency given in microhertz and scaled by a factor given in
/// millionths of millionths advances it by a whole number of units.
pub ghost struct OscillatorView {
    pub sample_rate: u32,
    pub carrier_phase: i128,
    pub modulator_phase: i128,
    pub params: FMParams,
}

impl OscillatorView {
    /// An oscillator at the start of both cycles.
    pub open spec fn initial(sample_rate: u32, params: FMParams) -> OscillatorView {
        OscillatorView { sample_rate, carrier_phase: 0, modulator_phase: 0, params }
    }

    /// The number of phase units in one cycle.
    pub open spec fn period(self) -> int {
        self.sample_rate * UNITY_CUBED
    }

    /// What one sample adds to the modulator phase:
    /// `modulator_freq / sample_rate` of a cycle.
    pub open spec fn modulator_increment(self) -> int {
        self.params.modulator_freq * UNITY_SQUARED
    }

    /// What one sample adds to the carrier phase when the modulator stands at
    /// `modulator_wave`: `carrier_freq * (1 + modulation_index *
    /// modulator_wave) / sample_rate` of a cycle.
    pub open spec fn carrier_increment(self, modulator_wave: i32) -> int {
        self.params.carrier_freq * (UNITY_SQUARED + self.params.modulation_index
            * modulator_wave)
    }

    /// A phase that has reached or passed the end of the cycle is taken back
    /// by one cycle, once.
    pub open spec fn wrapped(self, phase: i128) -> i128 {
        if phase >= self.period() {
            (phase - self.period()) as i128
        } else {
            phase
        }
    }

    /// One sample passes: both phases advance and wrap; the parameters stay.
    pub open spec fn step(self, modulator_wave: i32) -> OscillatorView {
        OscillatorView {
            carrier_phase: self.wrapped(
                held(self.carrier_phase + self.carrier_increment(modulator_wave)),
            ),
            modulator_phase: self.wrapped(held(self.modulator_phase + self.modulator_increment())),
            ..self
        }
    }

    /// The sample put out while the carrier stands at `carrier_wave`, in
    /// millionths of millionths: `carrier_wave * amplitude`.
    pub open spec fn output(self, carrier_wave: i32) -> int {
        carrier_wave * self.params.amplitude
    }

    /// The parameters are replaced; the phases stay.
    pub open spec fn set_params(self, params: FMParams) -> OscillatorView {
        OscillatorView { params, ..self }
    }

    /// The oscillator after one sample for each of `modulator_waves`, in
    /// order.
    pub open spec fn run(self, modulator_waves: Seq<i32>) -> OscillatorView
        decreases modulator_waves.len(),
    {
        if modulator_waves.len() == 0 {
            self
        } else {
            self.run(modulator_waves.drop_last()).step(modulator_waves.last())
        }
    }

    /// Whether both phases lie within the cycle: from 0 up to, not
    /// including, `period()`.
    pub open spec fn in_cycle(self) -> bool {
        &&& 0 <= self.carrier_phase < self.period()
        &&& 0 <= self.modulator_phase < self.period()
    }

    /// Whether a sample taken while the modulator stands at `modulator_wave`
    /// advances both phases forwards and by less than a cycle. Only then
    /// does taking off one cycle bring a phase back into the cycle.
    pub open spec fn advances_in_cycle(self, modulator_wave: i32) -> bool {
        &&& 0 <= self.carrier_increment(modulator_wave) < self.period()
        &&& 0 <= self.modulator_increment() < self.period()
    }

    /// Whether the parameters keep every advance forwards and below a cycle,
    /// whatever sine the modulator stands at: the modulator runs forwards
    /// and below the sample rate, the depth is at most one, so that the
    /// carrier never runs backwards, and the carrier at its fastest,
    /// `carrier_freq * (1 + modulation_index)`, stays below the sample rate.
    pub open spec fn in_band(self) -> bool {
        &&& 0 <= self.params.carrier_freq
        &&& 0 <= self.params.modulator_freq < self.sample_rate * UNITY
        &&& self.params.modulation_index <= UNITY
        &&& self.params.carrier_freq * (UNITY + self.params.modulation_index)
            < self.sample_rate * UNITY_SQUARED
    }
}

/// A two-operator FM oscillator: a carrier whose frequency a modulator
/// deviates.
///
/// The oscillator keeps the two phases and leaves the sine to its caller, who
/// reads the phases, takes the sine of each and hands both to
/// [`FMOscillator::next_sample`].
pub struct FMOscillator {
    sample_rate: u32,
    carrier_phase: i128,
    modulator_phase: i128,
    params: FMParams,
}

impl View for FMOscillator {
    type V = OscillatorView;

    closed spec fn view(&self) -> OscillatorView {
        OscillatorView {
            sample_rate: self.sample_rate,
            carrier_phase: self.carrier_phase,
            modulator_phase: self.modulator_phase,
            params: self.params,
        }
    }
}

/// The carrier's advance fits the phase's integer type for every parameter
/// set and every modulator sample.
proof fn lemma_carrier_increment_fits(carrier_freq: i64, modulation_index: u32, modulator_wave: i32)
    ensures
        -0x8000_0000_0000_0000 <= modulation_index * modulator_wave <= 0x8000_0000_0000_0000,
        i128::MIN <= carrier_freq * (UNITY_SQUARED + modulation_index * modulator_wave)
            <= i128::MAX,
{
    let depth = modulation_index * modulator_wave;
    assert(-(0x1_0000_0000 * 0x8000_0000) <= depth <= 0x1_0000_0000 * 0x8000_0000)
        by (nonlinear_arith)
        requires
            depth == modulation_index * modulator_wave,
            0 <= modulation_index <= 0x1_0000_0000,
            -0x8000_0000 <= modulator_wave <= 0x8000_0000,
    ;
    let factor = UNITY_SQUARED + depth;
    let bound = 0x8000_0000_0000_0000 + UNITY_SQUARED;
    assert(-(0x8000_0000_0000_0000 * bound) <= carrier_freq * factor <= 0x8000_0000_0000_0000
        * bound) by (nonlinear_arith)
        requires
            -0x8000_0000_0000_0000 <= carrier_freq <= 0x8000_0000_0000_0000,
            -bound <= factor <= bound,
            bound >= 0,
    ;
}

/// A cycle's length fits the phase's integer type.
proof fn lemma_period_fits(sample_rate: u32)
    ensures
        0 <= sample_rate * UNITY_CUBED <= 0xffff_ffff * 1_000_000_000_000_000_000,
{
    assert(UNITY_CUBED == 1_000_000_000_000_000_000);
    assert(0 <= sample_rate * 1_000_000_000_000_000_000 <= 0xffff_ffff
        * 1_000_000_000_000_000_000);
}

/// Adds `increment` to `phase`, holds the sum within the integer type, and
/// wraps it once at `period`.
fn advance(phase: i128, increment: i128, period: i128) -> (next: i128)
    requires
        period >= 0,
    ensures
        next == if held(phase + increment) >= period {
            held(phase + increment) - period
        } else {
            held(phase + increment) as int
        },
{
    let sum: i128 = match phase.checked_add(increment) {
        Some(sum) => sum,
        None => if increment > 0 {
            i128::MAX
        } else {
            i128::MIN
        },
    };
    if sum >= period {
        sum - period
    } else {
        sum
    }
}

impl FMOscillator {
    /// The sample rate is positive from construction on.
    #[verifier::type_invariant]
    spec fn positive_rate(self) -> bool {
        self.sample_rate > 0
    }

    /// An oscillator at the start of both cycles.
    pub fn new(sample_rate: u32, params: FMParams) -> (oscillator: FMOscillator)
        requires
            sample_rate > 0,
        ensures
            oscillator@ == OscillatorView::initial(sample_rate, params),
    {
        FMOscillator { sample_rate, carrier_phase: 0, modulator_phase: 0, params }
    }

    /// Produces one sample and advances both phases.
    ///
    /// `modulator_wave` and `carrier_wave` are the sines of the modulator's
    /// and the carrier's phase as they stand before the call, in millionths.
    /// The sample is in millionths of millionths.
    pub fn next_sample(&mut self, modulator_wave: i32, carrier_wave: i32) -> (sample: i64)
        ensures
            final(self)@ == old(self)@.step(modulator_wave),
            sample == old(self)@.output(carrier_wave),
            old(self)@.in_cycle() && old(self)@.advances_in_cycle(modulator_wave)
                ==> final(self)@.in_cycle(),
    {
        proof {
            use_type_invariant(&*self);
            if self@.in_cycle() && self@.advances_in_cycle(modulator_wave) {
                lemma_step_stays_in_cycle(self@, modulator_wave);
            }
            lemma_period_fits(self.sample_rate);
            lemma_carrier_increment_fits(
                self.params.carrier_freq,
                self.params.modulation_index,
                modulator_wave,
            );
            assert(carrier_wave * self.params.amplitude >= -0x8000_0000 * 0xffff_ffff
                && carrier_wave * self.params.amplitude <= 0x8000_0000 * 0xffff_ffff)
                by (nonlinear_arith)
                requires
                    -0x8000_0000 <= carrier_wave <= 0x8000_0000,
                    0 <= self.params.amplitude <= 0xffff_ffff,
            ;
        }
        let period: i128 = self.sample_rate as i128 * UNITY_CUBED as i128;
        let depth: i128 = self.params.modulation_index as i128 * modulator_wave as i128;
        let carrier_increment: i128 = self.params.carrier_freq as i128 * (UNITY_SQUARED as i128
            + depth);
        let modulator_increment: i128 = self.params.modulator_freq as i128 * UNITY_SQUARED as i128;
        let sample: i64 = carrier_wave as i64 * self.params.amplitude as i64;
        self.carrier_phase = advance(self.carrier_phase, carrier_increment, period);
        self.modulator_phase = advance(self.modulator_phase, modulator_increment, period);
        sample
    }

    /// Replaces the parameters. The phases are not reset.
    pub fn set_params(&mut self, params: FMParams)
        ensures
            final(self)@ == old(self)@.set_params(params),
            final(self)@.carrier_phase == old(self)@.carrier_phase,
            final(self)@.modulator_phase == old(self)@.modulator_phase,
    {
        proof {
            use_type_invariant(&*self);
        }
        self.params = params;
    }

    /// The sample rate the oscillator was made for, in hertz.
    pub fn sample_rate(&self) -> (sample_rate: u32)
        ensures
            sample_rate == self@.sample_rate,
            sample_rate > 0,
    {
        proof {
            use_type_invariant(self);
        }
        self.sample_rate
    }

    /// The carrier's phase, in units of which `period()` make a cycle.
    pub fn carrier_phase(&self) -> (phase: i128)
        ensures
            phase == self@.carrier_phase,
    {
        self.carrier_phase
    }

    /// The modulator's phase, in units of which `period()` make a cycle.
    pub fn modulator_phase(&self) -> (phase: i128)
        ensures
            phase == self@.modulator_phase,
    {
        self.modulator_phase
    }

    /// The number of phase units in one cycle.
    pub fn period(&self) -> (period: u128)
        ensures
            period == self@.period(),
            period > 0,
    {
        proof {
            use_type_invariant(self);
            lemma_period_fits(self.sample_rate);
        }
        self.sample_rate as u128 * UNITY_CUBED as u128
    }

    /// The parameters in force.
    pub fn params(&self) -> (params: FMParams)
        ensures
            params == self@.params,
    {
        self.params
    }
}

/// A sample that advances both phases forwards and by less than a cycle
/// leaves phases that lay within the cycle within the cycle.
pub proof fn lemma_step_stays_in_cycle(oscillator: OscillatorView, modulator_wave: i32)
    requires
        oscillator.in_cycle(),
        oscillator.advances_in_cycle(modulator_wave),
    ensures
        oscillator.step(modulator_wave).in_cycle(),
{
    lemma_period_fits(oscillator.sample_rate);
}

/// Parameters in band advance both phases forwards and by less than a cycle
/// at every sine of the modulator.
pub proof fn lemma_in_band_advances_in_cycle(oscillator: OscillatorView, modulator_wave: i32)
    requires
        oscillator.in_band(),
        is_sine(modulator_wave),
    ensures
        oscillator.advances_in_cycle(modulator_wave),
{
    let params = oscillator.params;
    let period = oscillator.period();
    let depth = params.modulation_index * modulator_wave;
    assert(-(UNITY * UNITY) <= depth <= params.modulation_index * UNITY) by (nonlinear_arith)
        requires
            depth == params.modulation_index * modulator_wave,
            0 <= params.modulation_index <= UNITY,
            -UNITY <= modulator_wave <= UNITY,
    ;
    let factor = UNITY_SQUARED + depth;
    let increment = oscillator.carrier_increment(modulator_wave);
    assert(0 <= increment <= params.carrier_freq * (UNITY * (UNITY + params.modulation_index)))
        by (nonlinear_arith)
        requires
            increment == params.carrier_freq * factor,
            0 <= params.carrier_freq,
            0 <= factor <= UNITY * (UNITY + params.modulation_index),
    ;
    assert(params.carrier_freq * (UNITY * (UNITY + params.modulation_index)) < period)
        by (nonlinear_arith)
        requires
            params.carrier_freq * (UNITY + params.modulation_index) < oscillator.sample_rate
                * UNITY_SQUARED,
            period == oscillator.sample_rate * UNITY_CUBED,
    ;
}

/// Taking samples changes neither the sample rate nor the parameters.
pub proof fn lemma_run_keeps_params(oscillator: OscillatorView, modulator_waves: Seq<i32>)
    ensures
        oscillator.run(modulator_waves).params == oscillator.params,
        oscillator.run(modulator_waves).sample_rate == oscillator.sample_rate,
    decreases modulator_waves.len(),
{
    if modulator_waves.len() > 0 {
        lemma_run_keeps_params(oscillator, modulator_waves.drop_last());
    }
}

/// The phase-wrap invariant: as long as every sample advances both phases
/// forwards and by less than a cycle, phases that start within the cycle are
/// within the cycle after any number of samples.
pub proof fn lemma_phases_stay_in_cycle(oscillator: OscillatorView, modulator_waves: Seq<i32>)
    requires
        oscillator.in_cycle(),
        forall|i: int|
            0 <= i < modulator_waves.len() ==> oscillator.advances_in_cycle(
                #[trigger] modulator_waves[i],
            ),
    ensures
        oscillator.run(modulator_waves).in_cycle(),
    decreases modulator_waves.len(),
{
    if modulator_waves.len() > 0 {
        let earlier = modulator_waves.drop_last();
        assert forall|i: int| 0 <= i < earlier.len() implies oscillator.advances_in_cycle(
            #[trigger] earlier[i],
        ) by {
            assert(earlier[i] == modulator_waves[i]);
        }
        lemma_phases_stay_in_cycle(oscillator, earlier);
        lemma_run_keeps_params(oscillator, earlier);
        assert(oscillator.advances_in_cycle(modulator_waves[modulator_waves.len() - 1]));
        lemma_step_stays_in_cycle(oscillator.run(earlier), modulator_waves.last());
    }
}

/// The phase-wrap invariant for parameters in band: whatever sines the
/// modulator runs through, phases that start within the cycle are within the
/// cycle after any number of samples.
pub proof fn lemma_in_band_stays_in_cycle(oscillator: OscillatorView, modulator_waves: Seq<i32>)
    requires
        oscillator.in_cycle(),
        oscillator.in_band(),
        forall|i: int| 0 <= i < modulator_waves.len() ==> is_sine(#[trigger] modulator_waves[i]),
    ensures
        oscillator.run(modulator_waves).in_cycle(),
{
    assert forall|i: int| 0 <= i < modulator_waves.len() implies oscillator.advances_in_cycle(
        #[trigger] modulator_waves[i],
    ) by {
        lemma_in_band_advances_in_cycle(oscillator, modulator_waves[i]);
    }
    lemma_phases_stay_in_cycle(oscillator, modulator_waves);
}

/// A modulator of frequency zero does not modulate. Its phase stays at the
/// start of the cycle, where its sine is zero; with that sine the carrier
/// advances by its own frequency alone, whatever the modulation depth; and at
/// full amplitude the sample is the carrier's sine itself.
pub proof fn lemma_still_modulator(
    oscillator: OscillatorView,
    modulator_wave: i32,
    carrier_wave: i32,
)
    requires
        oscillator.params.modulator_freq == 0,
        oscillator.modulator_phase == 0,
        oscillator.sample_rate > 0,
    ensures
        oscillator.step(modulator_wave).modulator_phase == 0,
        oscillator.carrier_increment(0) == oscillator.params.carrier_freq * UNITY_SQUARED,
        oscillator.params.amplitude == UNITY ==> oscillator.output(carrier_wave) == carrier_wave
            * UNITY,
{
}

/// A modulator of frequency zero that stands at the start of its cycle
/// stands there after any number of samples.
pub proof fn lemma_still_modulator_stays(oscillator: OscillatorView, modulator_waves: Seq<i32>)
    requires
        oscillator.params.modulator_freq == 0,
        oscillator.modulator_phase == 0,
        oscillator.sample_rate > 0,
    ensures
        oscillator.run(modulator_waves).modulator_phase == 0,
    decreases modulator_waves.len(),
{
    if modulator_waves.len() > 0 {
        lemma_still_modulator_stays(oscillator, modulator_waves.drop_last());
        lemma_run_keeps_params(oscillator, modulator_waves.drop_last());
        lemma_still_modulator(
            oscillator.run(modulator_waves.drop_last()),
            modulator_waves.last(),
            0,
        );
    }
}

/// Replacing the parameters does not disturb the phases: an oscillator whose
/// parameters are replaced by ones with the same frequencies and depth goes
/// on exactly as one that was left alone.
pub proof fn lemma_set_params_keeps_phase(
    oscillator: OscillatorView,
    params: FMParams,
    modulator_wave: i32,
)
    requires
        params.carrier_freq == oscillator.params.carrier_freq,
        params.modulator_freq == oscillator.params.modulator_freq,
        params.modulation_index == oscillator.params.modulation_index,
    ensures
        oscillator.set_params(params).carrier_phase == oscillator.carrier_phase,
        oscillator.set_params(params).modulator_phase == oscillator.modulator_phase,
        oscillator.set_params(params).step(modulator_wave).carrier_phase == oscillator.step(
            modulator_wave,
        ).carrier_phase,
        oscillator.set_params(params).step(modulator_wave).modulator_phase == oscillator.step(
            modulator_wave,
        ).modulator_phase,
{
}

} // verus!
