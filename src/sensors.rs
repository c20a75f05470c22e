//! Reflectance sensor array: threshold masks, calibration and the weighted
//! line-position estimate.
//!
//! Readings are sampled by the platform layer and handed in as a
//! [`SensorReadings`] frame; index 0 is the leftmost sensor.

use vstd::arithmetic::div_mod::lemma_div_is_ordered;
use vstd::prelude::*;

verus! {

/// Number of sensors in the array.
pub const SENSOR_COUNT: usize = 8;

/// Largest raw ADC reading.
pub const ADC_MAX: u16 = 4095;

/// Total normalized intensity under which the line counts as lost.
pub const LINE_LOST_INTENSITY: u32 = 500;

/// Raw ADC readings (0-4095), one per sensor.
pub type SensorReadings = [u16; SENSOR_COUNT];

/// Bit `i` of `m`.
pub open spec fn bit_set(m: u8, i: int) -> bool {
    (m >> (i as u8)) & 1u8 == 1u8
}

/// The byte whose bit `i` is `flags[i]`.
pub open spec fn mask_bits(flags: Seq<bool>) -> u8
    decreases flags.len(),
{
    if flags.len() == 0 {
        0
    } else {
        let m = mask_bits(flags.drop_last());
        if flags.last() {
            m | (1u8 << ((flags.len() - 1) as u8))
        } else {
            m
        }
    }
}

/// For each channel, whether its reading exceeds its threshold.
pub open spec fn above(readings: Seq<u16>, thresholds: Seq<u16>) -> Seq<bool> {
    Seq::new(readings.len(), |i: int| readings[i] > thresholds[i])
}

/// The same threshold for every channel.
pub open spec fn uniform(threshold: u16) -> Seq<u16> {
    Seq::new(SENSOR_COUNT as nat, |i: int| threshold)
}

proof fn lemma_bit_step(m: u8, k: u8, j: u8)
    by (bit_vector)
    requires
        k < 8,
        j < 8,
        m < (1u8 << k),
    ensures
        ((m | (1u8 << k)) >> j) & 1u8 == (if j == k { 1u8 } else { (m >> j) & 1u8 }),
        j >= k ==> (m >> j) & 1u8 == 0u8,
        k < 7 ==> (m | (1u8 << k)) < (1u8 << ((k + 1) as u8)),
        k < 7 ==> m < (1u8 << ((k + 1) as u8)),
{
}

proof fn lemma_zero_bits(j: u8)
    by (bit_vector)
    requires
        j < 8,
    ensures
        (0u8 >> j) & 1u8 == 0u8,
        0u8 < (1u8 << 0u8),
{
}

/// Bit `i` of `mask_bits(flags)` is `flags[i]`, and the bits above the last
/// flag are clear.
pub proof fn lemma_mask_bits(flags: Seq<bool>)
    requires
        flags.len() <= 8,
    ensures
        forall|i: int| 0 <= i < flags.len() ==> (bit_set(mask_bits(flags), i) <==> flags[i]),
        forall|i: int| flags.len() <= i < 8 ==> !bit_set(mask_bits(flags), i),
        flags.len() < 8 ==> mask_bits(flags) < (1u8 << (flags.len() as u8)),
    decreases flags.len(),
{
    if flags.len() == 0 {
        assert forall|i: int| 0 <= i < 8 implies !bit_set(mask_bits(flags), i) by {
            lemma_zero_bits(i as u8);
        }
        lemma_zero_bits(0);
    } else {
        let prefix = flags.drop_last();
        lemma_mask_bits(prefix);
        let m = mask_bits(prefix);
        let k = (flags.len() - 1) as u8;
        assert forall|i: int| 0 <= i < 8 implies (#[trigger] bit_set(mask_bits(flags), i) <==> (i
            < flags.len() && flags[i])) by {
            let j = i as u8;
            lemma_bit_step(m, k, j);
            if i < k {
                assert(prefix[i] == flags[i]);
            }
        }
        lemma_bit_step(m, k, 0);
    }
}

/// `threshold[i] = min[i] + (max[i] - min[i]) * 40 / 100`, where the
/// difference saturates at zero.
pub open spec fn threshold_for(min: u16, max: u16) -> u16 {
    let range: int = if max > min { max - min } else { 0 };
    (min + range * 40 / 100) as u16
}

/// A raw reading scaled into 0..=1000 between the channel's bounds; 0 at or
/// below `min`, 1000 at or above `max`, and always 0 on a channel whose
/// bounds are equal.
pub open spec fn normalized(raw: u16, min: u16, max: u16) -> int {
    if raw <= min || min == max {
        0
    } else if raw >= max {
        1000
    } else {
        (raw - min) * 1000 / (max - min)
    }
}

/// Abstract state of a [`CalibratedSensors`].
pub struct Calibration {
    pub min: Seq<u16>,
    pub max: Seq<u16>,
    pub thresholds: Seq<u16>,
    pub calibrated: bool,
}

impl Calibration {
    /// One bound and one threshold per sensor.
    pub open spec fn wf(self) -> bool {
        &&& self.min.len() == SENSOR_COUNT
        &&& self.max.len() == SENSOR_COUNT
        &&& self.thresholds.len() == SENSOR_COUNT
    }

    /// State before the first calibration: bounds at their extremes,
    /// thresholds at [`DEFAULT_THRESHOLD`], not calibrated.
    pub open spec fn initial() -> Calibration {
        Calibration {
            min: Seq::new(SENSOR_COUNT as nat, |i: int| ADC_MAX),
            max: Seq::new(SENSOR_COUNT as nat, |i: int| 0u16),
            thresholds: uniform(DEFAULT_THRESHOLD),
            calibrated: false,
        }
    }

    /// Bounds back at their extremes (min 4095, max 0); not calibrated.
    pub open spec fn reset(self) -> Calibration {
        Calibration {
            min: Seq::new(SENSOR_COUNT as nat, |i: int| ADC_MAX),
            max: Seq::new(SENSOR_COUNT as nat, |i: int| 0u16),
            calibrated: false,
            ..self
        }
    }

    /// Bounds widened to take in one frame.
    pub open spec fn updated(self, frame: Seq<u16>) -> Calibration {
        Calibration {
            min: Seq::new(
                SENSOR_COUNT as nat,
                |i: int|
                    if frame[i] < self.min[i] {
                        frame[i]
                    } else {
                        self.min[i]
                    },
            ),
            max: Seq::new(
                SENSOR_COUNT as nat,
                |i: int|
                    if frame[i] > self.max[i] {
                        frame[i]
                    } else {
                        self.max[i]
                    },
            ),
            ..self
        }
    }

    /// Thresholds computed from the bounds; calibrated.
    pub open spec fn finalized(self) -> Calibration {
        Calibration {
            thresholds: Seq::new(
                SENSOR_COUNT as nat,
                |i: int| threshold_for(self.min[i], self.max[i]),
            ),
            calibrated: true,
            ..self
        }
    }

    /// Mask of the channels whose reading exceeds their threshold.
    pub open spec fn mask(self, frame: Seq<u16>) -> u8 {
        mask_bits(above(frame, self.thresholds))
    }

    /// Normalized reading of channel `i`.
    pub open spec fn level(self, frame: Seq<u16>, i: int) -> int {
        normalized(frame[i], self.min[i], self.max[i])
    }

    /// Sum of the normalized values of the first `n` channels.
    pub open spec fn intensity_upto(self, frame: Seq<u16>, n: nat) -> int
        decreases n,
    {
        if n == 0 {
            0
        } else {
            self.intensity_upto(frame, (n - 1) as nat) + self.level(frame, n - 1)
        }
    }

    /// Sum over the first `n` channels of the normalized value times
    /// `1000 * index`.
    pub open spec fn weighted_upto(self, frame: Seq<u16>, n: nat) -> int
        decreases n,
    {
        if n == 0 {
            0
        } else {
            self.weighted_upto(frame, (n - 1) as nat) + self.level(frame, n - 1) * ((n - 1) * 1000)
        }
    }

    /// `(position, intensity)` of a frame: `(0, 0)` when the intensity is
    /// under 500, else the weighted mean index (in thousandths) minus 3500.
    pub open spec fn line_position(self, frame: Seq<u16>) -> (i32, u32) {
        let total = self.intensity_upto(frame, SENSOR_COUNT as nat);
        if total < LINE_LOST_INTENSITY {
            (0i32, 0u32)
        } else {
            ((self.weighted_upto(frame, SENSOR_COUNT as nat) / total - 3500) as i32, total as u32)
        }
    }
}

proof fn lemma_normalized_range(raw: u16, min: u16, max: u16)
    ensures
        0 <= normalized(raw, min, max) <= 1000,
{
    if !(raw <= min || min == max) && raw < max {
        let a: int = raw - min;
        let b: int = max - min;
        assert(0 <= a * 1000 / b <= 1000) by (nonlinear_arith)
            requires
                0 < a < b,
        ;
    }
}

proof fn lemma_sums(c: Calibration, frame: Seq<u16>, n: nat)
    requires
        n <= SENSOR_COUNT,
    ensures
        0 <= c.intensity_upto(frame, n) <= 1000 * n,
        0 <= c.weighted_upto(frame, n),
        n > 0 ==> c.weighted_upto(frame, n) <= (n - 1) * 1000 * c.intensity_upto(frame, n),
    decreases n,
{
    if n > 0 {
        let k: int = n - 1;
        lemma_sums(c, frame, k as nat);
        lemma_normalized_range(frame[k], c.min[k], c.max[k]);
        let v = c.level(frame, k);
        let t = c.intensity_upto(frame, k as nat);
        let w = c.weighted_upto(frame, k as nat);
        assert(0 <= v * (k * 1000)) by (nonlinear_arith)
            requires
                0 <= v,
                0 <= k,
        ;
        if k == 0 {
            assert(v * (k * 1000) == 0) by (nonlinear_arith)
                requires
                    k == 0,
            ;
            assert(c.weighted_upto(frame, n) == 0);
            assert((n - 1) * 1000 * c.intensity_upto(frame, n) == 0);
        } else {
            assert(w + v * (k * 1000) <= k * 1000 * (t + v)) by (nonlinear_arith)
                requires
                    w <= (k - 1) * 1000 * t,
                    0 <= t,
                    0 <= v,
                    k >= 1,
            ;
        }
    }
}

/// Mask of the readings above `threshold`: bit `i` is set iff
/// `readings[i] > threshold`.
pub fn threshold_mask(readings: &SensorReadings, threshold: u16) -> (r: u8)
    ensures
        r == mask_bits(above(readings@, uniform(threshold))),
        forall|i: int| 0 <= i < SENSOR_COUNT ==> (bit_set(r, i) <==> readings[i] > threshold),
{
    let thresholds: SensorReadings = [threshold; SENSOR_COUNT];
    assert(thresholds@ =~= uniform(threshold));
    mask_above(readings, &thresholds)
}

fn mask_above(readings: &SensorReadings, thresholds: &SensorReadings) -> (r: u8)
    ensures
        r == mask_bits(above(readings@, thresholds@)),
        forall|i: int| 0 <= i < SENSOR_COUNT ==> (bit_set(r, i) <==> readings[i] > thresholds[i]),
{
    let ghost flags = above(readings@, thresholds@);
    let mut result: u8 = 0;
    let mut i: usize = 0;
    while i < SENSOR_COUNT
        invariant
            i <= SENSOR_COUNT,
            flags == above(readings@, thresholds@),
            result == mask_bits(flags.take(i as int)),
        decreases SENSOR_COUNT - i,
    {
        assert(flags.take(i + 1).drop_last() =~= flags.take(i as int));
        if readings[i] > thresholds[i] {
            result = result | (1u8 << (i as u8));
        }
        i = i + 1;
    }
    assert(flags.take(SENSOR_COUNT as int) =~= flags);
    proof {
        lemma_mask_bits(flags);
        assert forall|i: int| 0 <= i < SENSOR_COUNT implies (bit_set(result, i) <==> readings[i]
            > thresholds[i]) by {
            assert(flags[i] == (readings@[i] > thresholds@[i]));
        }
    }
    result
}

/// Mean of the readings, rounded down.
pub fn average(readings: &SensorReadings) -> (r: u16)
    ensures
        r == readings@.fold_left(0int, |acc: int, v: u16| acc + v) / (SENSOR_COUNT as int),
{
    let mut sum: u32 = 0;
    let mut i: usize = 0;
    while i < SENSOR_COUNT
        invariant
            i <= SENSOR_COUNT,
            sum == readings@.take(i as int).fold_left(0int, |acc: int, v: u16| acc + v),
            sum <= 65535 * i,
        decreases SENSOR_COUNT - i,
    {
        assert(readings@.take(i + 1).drop_last() =~= readings@.take(i as int));
        sum = sum + readings[i] as u32;
        i = i + 1;
    }
    assert(readings@.take(SENSOR_COUNT as int) =~= readings@);
    (sum / (SENSOR_COUNT as u32)) as u16
}

/// Calibration state of the sensor array: per-channel bounds seen during
/// the calibration window, and the thresholds derived from them.
pub struct CalibratedSensors {
    min_readings: SensorReadings,
    max_readings: SensorReadings,
    thresholds: SensorReadings,
    calibrated: bool,
}

impl View for CalibratedSensors {
    type V = Calibration;

    closed spec fn view(&self) -> Calibration {
        Calibration {
            min: self.min_readings@,
            max: self.max_readings@,
            thresholds: self.thresholds@,
            calibrated: self.calibrated,
        }
    }
}

/// Default threshold of every channel before the first calibration.
pub const DEFAULT_THRESHOLD: u16 = 2000;

fn normalize(raw: u16, min: u16, max: u16) -> (r: u32)
    ensures
        r == normalized(raw, min, max),
        r <= 1000,
{
    proof {
        lemma_normalized_range(raw, min, max);
    }
    if raw <= min || min == max {
        0
    } else if raw >= max {
        1000
    } else {
        (raw - min) as u32 * 1000 / (max - min) as u32
    }
}

impl CalibratedSensors {
    /// Bounds at their extremes, thresholds at [`DEFAULT_THRESHOLD`], not
    /// calibrated.
    pub fn new() -> (r: CalibratedSensors)
        ensures
            r@ == Calibration::initial(),
            r@.wf(),
    {
        let r = CalibratedSensors {
            min_readings: [ADC_MAX; SENSOR_COUNT],
            max_readings: [0; SENSOR_COUNT],
            thresholds: [DEFAULT_THRESHOLD; SENSOR_COUNT],
            calibrated: false,
        };
        assert(r@.min =~= Seq::new(SENSOR_COUNT as nat, |i: int| ADC_MAX));
        assert(r@.max =~= Seq::new(SENSOR_COUNT as nat, |i: int| 0u16));
        assert(r@.thresholds =~= uniform(DEFAULT_THRESHOLD));
        r
    }

    /// Whether thresholds have been computed since the last reset.
    pub fn is_calibrated(&self) -> (r: bool)
        ensures
            r == self@.calibrated,
    {
        self.calibrated
    }

    /// Per-channel lower bounds.
    pub fn min_readings(&self) -> (r: SensorReadings)
        ensures
            r@ == self@.min,
    {
        self.min_readings
    }

    /// Per-channel upper bounds.
    pub fn max_readings(&self) -> (r: SensorReadings)
        ensures
            r@ == self@.max,
    {
        self.max_readings
    }

    /// Per-channel thresholds.
    pub fn thresholds(&self) -> (r: SensorReadings)
        ensures
            r@ == self@.thresholds,
    {
        self.thresholds
    }

    /// Start a new calibration: min 4095 and max 0 on every channel.
    pub fn reset_calibration(&mut self)
        ensures
            final(self)@ == old(self)@.reset(),
    {
        self.min_readings = [ADC_MAX; SENSOR_COUNT];
        self.max_readings = [0; SENSOR_COUNT];
        self.calibrated = false;
        assert(self@.min =~= old(self)@.reset().min);
        assert(self@.max =~= old(self)@.reset().max);
    }

    /// Widen each channel's bounds to take in `readings`.
    pub fn update_calibration(&mut self, readings: &SensorReadings)
        ensures
            final(self)@ == old(self)@.updated(readings@),
    {
        let ghost target = old(self)@.updated(readings@);
        let mut i: usize = 0;
        while i < SENSOR_COUNT
            invariant
                i <= SENSOR_COUNT,
                target == old(self)@.updated(readings@),
                self.thresholds == old(self).thresholds,
                self.calibrated == old(self).calibrated,
                forall|j: int| 0 <= j < i ==> self.min_readings[j] == target.min[j],
                forall|j: int| 0 <= j < i ==> self.max_readings[j] == target.max[j],
                forall|j: int| i <= j < SENSOR_COUNT ==> self.min_readings[j] == old(self).min_readings[j],
                forall|j: int| i <= j < SENSOR_COUNT ==> self.max_readings[j] == old(self).max_readings[j],
            decreases SENSOR_COUNT - i,
        {
            let val = readings[i];
            if val < self.min_readings[i] {
                self.min_readings[i] = val;
            }
            if val > self.max_readings[i] {
                self.max_readings[i] = val;
            }
            i = i + 1;
        }
        assert(self@.min =~= target.min);
        assert(self@.max =~= target.max);
    }

    /// Compute every threshold as `min + (max - min) * 40 / 100` (the
    /// difference saturating at zero) and mark the sensors calibrated.
    pub fn finalize_calibration(&mut self)
        ensures
            final(self)@ == old(self)@.finalized(),
    {
        let ghost target = old(self)@.finalized();
        let mut i: usize = 0;
        while i < SENSOR_COUNT
            invariant
                i <= SENSOR_COUNT,
                target == old(self)@.finalized(),
                self.min_readings == old(self).min_readings,
                self.max_readings == old(self).max_readings,
                self.calibrated == old(self).calibrated,
                forall|j: int| 0 <= j < i ==> self.thresholds[j] == target.thresholds[j],
            decreases SENSOR_COUNT - i,
        {
            let min = self.min_readings[i];
            let range = self.max_readings[i].saturating_sub(min);
            let th = min as u32 + range as u32 * 40 / 100;
            assert(th <= 65535);
            self.thresholds[i] = th as u16;
            i = i + 1;
        }
        self.calibrated = true;
        assert(self@.thresholds =~= target.thresholds);
    }

    /// Mask of the channels whose reading exceeds their threshold: bit `i`
    /// is set iff `readings[i] > thresholds[i]`.
    pub fn read_binary(&self, readings: &SensorReadings) -> (r: u8)
        ensures
            r == self@.mask(readings@),
            forall|i: int| 0 <= i < SENSOR_COUNT ==> (bit_set(r, i) <==> readings[i] > self@.thresholds[i]),
    {
        mask_above(readings, &self.thresholds)
    }

    /// Weighted line position and total intensity of a frame.
    ///
    /// Each reading is normalized into 0..=1000 between its channel's bounds;
    /// the intensity is their sum. Under 500 the line is lost and the result
    /// is `(0, 0)`; otherwise the position is the intensity-weighted mean of
    /// `1000 * index`, minus 3500, so that -3500 is the leftmost sensor,
    /// 3500 the rightmost and 0 the centre.
    pub fn read_line_position(&self, readings: &SensorReadings) -> (r: (i32, u32))
        ensures
            r == self@.line_position(readings@),
            self@.intensity_upto(readings@, SENSOR_COUNT as nat) < LINE_LOST_INTENSITY ==> r == (0i32, 0u32),
            r.1 == 0 || LINE_LOST_INTENSITY <= r.1 <= 8000,
            -3500 <= r.0 <= 3500,
    {
        let ghost c = self@;
        let mut weighted_sum: u32 = 0;
        let mut total_intensity: u32 = 0;
        let mut i: usize = 0;
        while i < SENSOR_COUNT
            invariant
                i <= SENSOR_COUNT,
                c == self@,
                total_intensity == c.intensity_upto(readings@, i as nat),
                weighted_sum == c.weighted_upto(readings@, i as nat),
            decreases SENSOR_COUNT - i,
        {
            proof {
                lemma_sums(c, readings@, i as nat);
                lemma_sums(c, readings@, (i + 1) as nat);
            }
            let val = normalize(readings[i], self.min_readings[i], self.max_readings[i]);
            let weight: u32 = i as u32 * 1000;
            assert(val * weight <= 7000 * 1000) by (nonlinear_arith)
                requires
                    val <= 1000,
                    weight <= 7000,
            ;
            assert(weighted_sum <= 49_000_000) by (nonlinear_arith)
                requires
                    i > 0 ==> weighted_sum <= (i - 1) * 1000 * total_intensity,
                    total_intensity <= 1000 * i,
                    i == 0 ==> weighted_sum == 0,
                    i < 8,
            ;
            total_intensity = total_intensity + val;
            let contribution: u32 = val * weight;
            weighted_sum = weighted_sum + contribution;
            i = i + 1;
        }
        proof {
            lemma_sums(c, readings@, SENSOR_COUNT as nat);
        }
        if total_intensity < LINE_LOST_INTENSITY {
            return (0, 0);
        }
        let mean = weighted_sum / total_intensity;
        assert(mean <= 7000) by (nonlinear_arith)
            requires
                weighted_sum <= 7000 * total_intensity,
                total_intensity > 0,
                mean == weighted_sum / total_intensity,
        ;
        (mean as i32 - 3500, total_intensity)
    }
}

/// Finalizing is idempotent: computing the thresholds a second time from the
/// same bounds leaves the state as the first computation left it.
pub proof fn lemma_finalize_idempotent(c: Calibration)
    ensures
        c.finalized().finalized() == c.finalized(),
{
    assert(c.finalized().finalized().thresholds =~= c.finalized().thresholds);
}

/// A normalized reading lies in 0..=1000; it is 0 at or below the channel's
/// lower bound and on a channel whose bounds are equal, and 1000 at or above
/// the upper bound when the reading is also above the lower bound on a
/// channel whose bounds differ.
pub proof fn lemma_normalized_bounds(raw: u16, min: u16, max: u16)
    ensures
        0 <= normalized(raw, min, max) <= 1000,
        raw <= min ==> normalized(raw, min, max) == 0,
        min == max ==> normalized(raw, min, max) == 0,
        min != max && raw > min && raw >= max ==> normalized(raw, min, max) == 1000,
{
    lemma_normalized_range(raw, min, max);
}

/// Normalization is monotonic in the raw reading.
pub proof fn lemma_normalized_monotonic(a: u16, b: u16, min: u16, max: u16)
    requires
        a <= b,
    ensures
        normalized(a, min, max) <= normalized(b, min, max),
{
    lemma_normalized_range(a, min, max);
    lemma_normalized_range(b, min, max);
    if min < a && a < max && b < max {
        lemma_div_is_ordered((a - min) * 1000, (b - min) * 1000, max - min);
    }
}

/// Whenever the total intensity of a frame is under 500, however it is spread
/// over the channels, the estimate is the line-lost result `(0, 0)`.
pub proof fn lemma_line_lost(c: Calibration, frame: Seq<u16>)
    requires
        c.intensity_upto(frame, SENSOR_COUNT as nat) < LINE_LOST_INTENSITY,
    ensures
        c.line_position(frame) == (0i32, 0u32),
{
}

/// After any update each channel's bounds bracket the sample just taken, so
/// the lower bound never exceeds the upper one; a threshold computed from
/// ordered bounds lies between them.
pub proof fn lemma_bounds_ordered(c: Calibration, frame: Seq<u16>)
    requires
        c.wf(),
        frame.len() == SENSOR_COUNT,
    ensures
        forall|i: int|
            0 <= i < SENSOR_COUNT ==> #[trigger] c.updated(frame).min[i] <= frame[i] <= c.updated(
                frame,
            ).max[i],
        forall|i: int|
            0 <= i < SENSOR_COUNT ==> c.updated(frame).finalized().min[i] <= #[trigger] c.updated(
                frame,
            ).finalized().thresholds[i] <= c.updated(frame).finalized().max[i],
{
}

} // verus!
