use vstd::prelude::*;

use crate::integration_time::IntegrationTime;
use crate::reading::read_requests;
use crate::{
    config_frame, le_count, AllChannelMeasurement, Error, I2cBus, MeasurementMode, Veml6040,
    BIT_TRIG, IT_BITS,
};

verus! {

/// Below this green count the next measurement should use a longer integration time.
pub const DARK_THRESHOLD_SOFT: u16 = 500;

/// Below this green count the reading is rejected as too dark.
pub const DARK_THRESHOLD_HARD: u16 = 10;

/// Above this green count the next measurement should use a shorter integration time.
pub const BRIGHT_THRESHOLD_SOFT: u16 = 20_000;

/// Above this green count the reading is rejected as too bright.
pub const BRIGHT_THRESHOLD_HARD: u16 = 64_000;

/// Brightness of all channels, in millionths of a lux.
#[derive(Debug, Clone, Copy, PartialEq, Eq, Structural)]
pub struct AbsoluteMeasurementChannels {
    /// Red channel brightness.
    pub red: u64,
    /// Green channel brightness.
    pub green: u64,
    /// Blue channel brightness.
    pub blue: u64,
    /// White channel brightness.
    pub white: u64,
}

/// Different kinds of errors that may occur while getting an absolute measurement.
#[derive(Debug)]
pub enum AbsoluteMeasurementError<E> {
    /// The values could not be read from the sensor, or the new integration time
    /// could not be written.
    ReadErr(Error<E>),
    /// The values are too dark, but the next measurement might be successful.
    TooDarkRelative,
    /// The values are too bright, but the next measurement might be successful.
    TooBrightRelative,
    /// The values are too dark, and there is no longer integration time that could fix this.
    TooDarkAbsolute,
    /// The values are too bright, and there is no shorter integration time that could fix this.
    TooBrightAbsolute,
}

/// Why a reading was rejected.
#[derive(Debug, Clone, Copy, PartialEq, Eq, Structural)]
pub enum Rejection {
    /// Too dark; a longer integration time was chosen for the next measurement.
    TooDarkRelative,
    /// Too bright; a shorter integration time was chosen for the next measurement.
    TooBrightRelative,
    /// Too dark, already at the longest integration time.
    TooDarkAbsolute,
    /// Too bright, already at the shortest integration time.
    TooBrightAbsolute,
}

/// What one reading means for the controller.
#[derive(Debug, Clone, Copy, PartialEq, Eq, Structural)]
pub struct Assessment {
    /// The integration time to switch to, if any.
    pub adjustment: Option<IntegrationTime>,
    /// Why the reading is rejected, if it is.
    pub rejection: Option<Rejection>,
}

/// The integration time to move to after a reading with green count `green`
/// taken at `it`: one step longer below the soft dark threshold, one step shorter
/// above the soft bright threshold, where the ladder allows.
pub open spec fn spec_adjustment(it: IntegrationTime, green: u16) -> Option<IntegrationTime> {
    if green < DARK_THRESHOLD_SOFT {
        it.spec_longer()
    } else if green > BRIGHT_THRESHOLD_SOFT {
        it.spec_shorter()
    } else {
        None
    }
}

/// Whether, and why, a reading with green count `green` taken at `it` is rejected:
/// past a hard threshold it is, relatively when an adjustment was available,
/// absolutely when not.
pub open spec fn spec_rejection(it: IntegrationTime, green: u16) -> Option<Rejection> {
    let adjusted = spec_adjustment(it, green) is Some;
    if green < DARK_THRESHOLD_HARD {
        Some(if adjusted { Rejection::TooDarkRelative } else { Rejection::TooDarkAbsolute })
    } else if green > BRIGHT_THRESHOLD_HARD {
        Some(if adjusted { Rejection::TooBrightRelative } else { Rejection::TooBrightAbsolute })
    } else {
        None
    }
}

/// Each channel count scaled by `sensitivity`.
pub open spec fn spec_calibrated(m: AllChannelMeasurement, sensitivity: int) -> (
    int,
    int,
    int,
    int,
) {
    (sensitivity * m.red, sensitivity * m.green, sensitivity * m.blue, sensitivity * m.white)
}

/// The brightness values of `c` as a tuple.
pub open spec fn channels(c: AbsoluteMeasurementChannels) -> (int, int, int, int) {
    (c.red as int, c.green as int, c.blue as int, c.white as int)
}

/// The error that stands for a rejection.
pub open spec fn error_of<E>(rej: Rejection) -> AbsoluteMeasurementError<E> {
    match rej {
        Rejection::TooDarkRelative => AbsoluteMeasurementError::TooDarkRelative,
        Rejection::TooBrightRelative => AbsoluteMeasurementError::TooBrightRelative,
        Rejection::TooDarkAbsolute => AbsoluteMeasurementError::TooDarkAbsolute,
        Rejection::TooBrightAbsolute => AbsoluteMeasurementError::TooBrightAbsolute,
    }
}

/// The outcome of a measurement that read `m` at `it`: the rejection, if any, else
/// the counts calibrated with the sensitivity of `it`.
pub open spec fn spec_outcome<E>(
    it: IntegrationTime,
    m: AllChannelMeasurement,
    r: Result<AbsoluteMeasurementChannels, AbsoluteMeasurementError<E>>,
) -> bool {
    match spec_rejection(it, m.green) {
        Some(rej) => r == Err::<AbsoluteMeasurementChannels, _>(error_of::<E>(rej)),
        None => r is Ok && channels(r->Ok_0) == spec_calibrated(m, it.sensitivity_micro_lux()),
    }
}

/// Classify a reading with green count `green` taken at integration time `it`.
pub fn assess(it: IntegrationTime, green: u16) -> (r: Assessment)
    ensures
        r.adjustment == spec_adjustment(it, green),
        r.rejection == spec_rejection(it, green),
{
    let adjustment = if green < DARK_THRESHOLD_SOFT {
        it.longer()
    } else if green > BRIGHT_THRESHOLD_SOFT {
        it.shorter()
    } else {
        None
    };
    let adjusted = adjustment.is_some();
    let rejection = if green < DARK_THRESHOLD_HARD {
        if adjusted {
            Some(Rejection::TooDarkRelative)
        } else {
            Some(Rejection::TooDarkAbsolute)
        }
    } else if green > BRIGHT_THRESHOLD_HARD {
        if adjusted {
            Some(Rejection::TooBrightRelative)
        } else {
            Some(Rejection::TooBrightAbsolute)
        }
    } else {
        None
    };
    Assessment { adjustment, rejection }
}

/// Scale each channel count of `m` by `sensitivity`.
pub fn calibrate(m: AllChannelMeasurement, sensitivity: u32) -> (r: AbsoluteMeasurementChannels)
    ensures
        channels(r) == spec_calibrated(m, sensitivity as int),
{
    let s = sensitivity as u64;
    proof {
        assert(s * (m.red as u64) <= 0xffff_ffff * 0xffff) by (nonlinear_arith)
            requires s <= 0xffff_ffff, m.red <= 0xffff;
        assert(s * (m.green as u64) <= 0xffff_ffff * 0xffff) by (nonlinear_arith)
            requires s <= 0xffff_ffff, m.green <= 0xffff;
        assert(s * (m.blue as u64) <= 0xffff_ffff * 0xffff) by (nonlinear_arith)
            requires s <= 0xffff_ffff, m.blue <= 0xffff;
        assert(s * (m.white as u64) <= 0xffff_ffff * 0xffff) by (nonlinear_arith)
            requires s <= 0xffff_ffff, m.white <= 0xffff;
    }
    AbsoluteMeasurementChannels {
        red: s * (m.red as u64),
        green: s * (m.green as u64),
        blue: s * (m.blue as u64),
        white: s * (m.white as u64),
    }
}

impl Rejection {
    /// The error that stands for this rejection.
    pub fn to_error<E>(self) -> (r: AbsoluteMeasurementError<E>)
        ensures
            r == error_of::<E>(self),
    {
        match self {
            Rejection::TooDarkRelative => AbsoluteMeasurementError::TooDarkRelative,
            Rejection::TooBrightRelative => AbsoluteMeasurementError::TooBrightRelative,
            Rejection::TooDarkAbsolute => AbsoluteMeasurementError::TooDarkAbsolute,
            Rejection::TooBrightAbsolute => AbsoluteMeasurementError::TooBrightAbsolute,
        }
    }
}

fn error_mapper<E>(e: Error<E>) -> (r: AbsoluteMeasurementError<E>)
    ensures
        r == AbsoluteMeasurementError::ReadErr(e),
{
    AbsoluteMeasurementError::ReadErr(e)
}

/// Whether a retry loop stops at this result: on success and on an absolute
/// failure it does; after a relative failure, where the integration time was
/// already adjusted, it measures again.
pub open spec fn stops<E>(r: Result<AbsoluteMeasurementChannels, AbsoluteMeasurementError<E>>) -> bool {
    !(r matches Err(AbsoluteMeasurementError::TooDarkRelative) || r matches Err(
        AbsoluteMeasurementError::TooBrightRelative,
    ))
}

/// Whether a retry loop stops at this result (see `stops`).
pub fn is_final<E>(r: &Result<AbsoluteMeasurementChannels, AbsoluteMeasurementError<E>>) -> (b:
    bool)
    ensures
        b == stops(*r),
{
    match r {
        Err(AbsoluteMeasurementError::TooDarkRelative) => false,
        Err(AbsoluteMeasurementError::TooBrightRelative) => false,
        _ => true,
    }
}

/// What a retry loop driven by `is_final` ends with when every measurement reads
/// the green count `green`, starting at `it`, with at most `fuel` retries: the
/// final rejection (`None` for success) and how many retries it took.
pub open spec fn retry_on_constant(it: IntegrationTime, green: u16, fuel: nat) -> (
    Option<Rejection>,
    nat,
)
    decreases fuel,
{
    let rej = spec_rejection(it, green);
    match (rej, spec_adjustment(it, green)) {
        (Some(Rejection::TooDarkRelative), Some(next)) | (
            Some(Rejection::TooBrightRelative),
            Some(next),
        ) => if fuel == 0 {
            (rej, 0)
        } else {
            let (o, n) = retry_on_constant(next, green, (fuel - 1) as nat);
            (o, n + 1)
        },
        _ => (rej, 0),
    }
}

/// One measurement whose outcome is the one `finish_measurement` gives when the
/// bus acknowledges every call (`spec_outcome`) takes the step that
/// `retry_on_constant` models: where `is_final` stops the loop, the model stops
/// too, with the same rejection or success; where the loop goes on, the
/// integration time has moved to the next setting and the model goes on from
/// that setting, one retry later.
pub proof fn lemma_measurement_follows_retry_model<E>(
    it: IntegrationTime,
    m: AllChannelMeasurement,
    r: Result<AbsoluteMeasurementChannels, AbsoluteMeasurementError<E>>,
    fuel: nat,
)
    requires
        spec_outcome(it, m, r),
    ensures
        stops(r) ==> retry_on_constant(it, m.green, fuel) == (spec_rejection(it, m.green), 0nat),
        stops(r) ==> (r is Ok <==> spec_rejection(it, m.green) is None),
        !stops(r) ==> spec_adjustment(it, m.green) is Some,
        !stops(r) && fuel > 0 ==> ({
            let next = spec_adjustment(it, m.green)->Some_0;
            let rest = retry_on_constant(next, m.green, (fuel - 1) as nat);
            retry_on_constant(it, m.green, fuel) == (rest.0, rest.1 + 1)
        }),
{
}

/// A relative rejection always comes with one step along the ladder: a longer
/// integration time when too dark, a shorter one when too bright. An absolute one
/// comes with none.
pub proof fn lemma_relative_rejection_moves(it: IntegrationTime, green: u16)
    ensures
        spec_rejection(it, green) == Some(Rejection::TooDarkRelative) ==> spec_adjustment(it, green)
            == it.spec_longer() && it.spec_longer() is Some,
        spec_rejection(it, green) == Some(Rejection::TooBrightRelative) ==> spec_adjustment(
            it,
            green,
        ) == it.spec_shorter() && it.spec_shorter() is Some,
        spec_rejection(it, green) == Some(Rejection::TooDarkAbsolute) ==> spec_adjustment(it, green)
            is None,
        spec_rejection(it, green) == Some(Rejection::TooBrightAbsolute) ==> spec_adjustment(
            it,
            green,
        ) is None,
{
}

/// When every reading is darker than the hard dark threshold, retrying never
/// succeeds: whatever the allowance of retries, as long as it does not cut the
/// loop short, it ends with `TooDarkAbsolute` after exactly as many retries as
/// there are longer settings left, at most five.
pub proof fn lemma_dark_stream_ends_absolute(it: IntegrationTime, green: u16, fuel: nat)
    requires
        green < DARK_THRESHOLD_HARD,
        fuel >= 5 - it.index(),
    ensures
        retry_on_constant(it, green, fuel) == (
            Some(Rejection::TooDarkAbsolute),
            (5 - it.index()) as nat,
        ),
        5 - it.index() <= 5,
    decreases fuel,
{
    if it.index() < 5 {
        let next = IntegrationTime::at_index(it.index() + 1);
        lemma_dark_stream_ends_absolute(next, green, (fuel - 1) as nat);
    }
}

/// Retrying on a reading that does not change always stops: with an allowance of
/// five retries, the length of the ladder, the loop ends on success or an absolute
/// rejection, never on a relative one, after at most five retries.
pub proof fn lemma_constant_stream_terminates(it: IntegrationTime, green: u16, fuel: nat)
    requires
        fuel >= 5,
    ensures
        !(retry_on_constant(it, green, fuel).0 matches Some(Rejection::TooDarkRelative)),
        !(retry_on_constant(it, green, fuel).0 matches Some(Rejection::TooBrightRelative)),
        retry_on_constant(it, green, fuel).1 <= 5,
{
    lemma_steps_left(it, green, fuel);
}

proof fn lemma_steps_left(it: IntegrationTime, green: u16, fuel: nat)
    requires
        fuel >= (if green < DARK_THRESHOLD_HARD { 5 - it.index() } else { it.index() as int }),
    ensures
        !(retry_on_constant(it, green, fuel).0 matches Some(Rejection::TooDarkRelative)),
        !(retry_on_constant(it, green, fuel).0 matches Some(Rejection::TooBrightRelative)),
        retry_on_constant(it, green, fuel).1 <= (if green < DARK_THRESHOLD_HARD {
            5 - it.index()
        } else {
            it.index() as int
        }),
    decreases fuel,
{
    if fuel > 0 && (green < DARK_THRESHOLD_HARD || green > BRIGHT_THRESHOLD_HARD) {
        match spec_adjustment(it, green) {
            Some(next) => lemma_steps_left(next, green, (fuel - 1) as nat),
            None => {},
        }
    }
}

/// A wrapper around a sensor that offers absolute measurements and automatic
/// selection of a suitable integration time.
///
/// A measurement is taken in two halves: `start_measurement` triggers it and
/// says how long to wait, `finish_measurement` reads and assesses it.
pub struct AutoVeml6040<I2C: I2cBus> {
    sensor: Veml6040<I2C>,
    integration_time: IntegrationTime,
}

/// The four counts logged in `received` from position `n` on, red, green, blue, white.
pub open spec fn logged_reading(received: Seq<Seq<u8>>, n: int, m: AllChannelMeasurement) -> bool {
    &&& m.red as int == le_count(received[n])
    &&& m.green as int == le_count(received[n + 1])
    &&& m.blue as int == le_count(received[n + 2])
    &&& m.white as int == le_count(received[n + 3])
}

/// Replacing the integration time field of `c` with a ladder pattern `v` sets the
/// field to `v` and keeps the trigger bit.
pub proof fn lemma_it_field(c: u8, v: u8)
    requires
        v == 0 || v == 16 || v == 32 || v == 48 || v == 64 || v == 80,
    ensures
        ((c & !IT_BITS) | v) & IT_BITS == v,
        ((c & !IT_BITS) | v) & BIT_TRIG == c & BIT_TRIG,
{
    assert(((c & !0x70u8) | v) & 0x70u8 == v && ((c & !0x70u8) | v) & 4u8 == c & 4u8)
        by (bit_vector)
        requires
            v == 0 || v == 16 || v == 32 || v == 48 || v == 64 || v == 80,
    ;
}

impl<I2C: I2cBus> AutoVeml6040<I2C> {
    /// The sensor driver.
    pub closed spec fn sensor(&self) -> Veml6040<I2C> {
        self.sensor
    }

    /// The integration time in effect.
    pub closed spec fn setting(&self) -> IntegrationTime {
        self.integration_time
    }

    /// The shadow configuration holds the integration time in effect, and no
    /// trigger bit.
    pub open spec fn synced(&self) -> bool {
        &&& self.sensor().config() & IT_BITS == (self.setting().index() * 16) as u8
        &&& self.sensor().config() & BIT_TRIG == 0
    }

    /// Construct the wrapper around a new sensor driver, then enable the sensor,
    /// set the integration time to 160 ms and switch to manual measurement mode.
    /// The first write that the bus refuses ends it: its error is returned with
    /// the driver.
    pub fn new(i2c: I2C) -> (r: Result<Self, (Error<I2C::Error>, Veml6040<I2C>)>)
        ensures
            ({
                let frames = seq![config_frame(0), config_frame(0x20), config_frame(0x22)];
                match r {
                    Ok(s) => {
                        &&& s.setting() == IntegrationTime::_160ms
                        &&& s.sensor().config() == 0x22
                        &&& s.sensor().sent() == frames
                        &&& s.sensor().answers() == seq![
                            None::<I2C::Error>,
                            None::<I2C::Error>,
                            None::<I2C::Error>,
                        ]
                        &&& s.sensor().received() == Seq::<Seq<u8>>::empty()
                        &&& s.synced()
                    },
                    Err((e, d)) => {
                        let k = d.answers().len() as int;
                        &&& 1 <= k <= 3
                        &&& d.sent() == frames.take(k)
                        &&& forall|i: int| 0 <= i < k - 1 ==> #[trigger] d.answers()[i] is None
                        &&& d.answers().last() is Some
                        &&& e == Error::I2C(d.answers().last()->Some_0)
                        &&& d.received() == Seq::<Seq<u8>>::empty()
                    },
                }
            }),
    {
        let ghost frames = seq![config_frame(0), config_frame(0x20), config_frame(0x22)];
        let mut sensor = Veml6040::new(i2c);
        let it = IntegrationTime::_160ms;
        proof {
            assert((0u8 & !1u8) == 0u8) by (bit_vector);
            assert(((0u8 & !0x70u8) | 0x20u8) == 0x20u8) by (bit_vector);
            assert((0x20u8 | 2u8) == 0x22u8) by (bit_vector);
            assert(0x22u8 & 0x70u8 == 0x20u8 && 0x22u8 & 4u8 == 0u8) by (bit_vector);
        }
        match sensor.enable() {
            Ok(()) => {},
            Err(e) => {
                proof {
                    assert(sensor.sent() =~= frames.take(1));
                }
                return Err((e, sensor));
            },
        }
        match sensor.set_integration_time(it) {
            Ok(()) => {},
            Err(e) => {
                proof {
                    assert(sensor.sent() =~= frames.take(2));
                    assert(sensor.answers()[0] == sensor.answers().drop_last()[0]);
                }
                return Err((e, sensor));
            },
        }
        match sensor.set_measurement_mode(MeasurementMode::Manual) {
            Ok(()) => {},
            Err(e) => {
                proof {
                    assert(sensor.sent() =~= frames.take(3));
                    assert(sensor.answers()[0] == sensor.answers().drop_last()[0]);
                    assert(sensor.answers()[1] == sensor.answers().drop_last()[1]);
                }
                return Err((e, sensor));
            },
        }
        proof {
            assert(sensor.sent() =~= frames);
            assert(sensor.answers()[0] == sensor.answers().drop_last()[0]);
            assert(sensor.answers()[1] == sensor.answers().drop_last()[1]);
            assert(sensor.answers() =~= seq![
                None::<I2C::Error>,
                None::<I2C::Error>,
                None::<I2C::Error>,
            ]);
        }
        Ok(AutoVeml6040 { sensor, integration_time: it })
    }

    /// The integration time in effect.
    pub fn integration_time(&self) -> (r: IntegrationTime)
        ensures
            r == self.setting(),
    {
        self.integration_time
    }

    /// Give the bus back.
    pub fn destroy(self) -> I2C {
        self.sensor.destroy()
    }

    /// Trigger a measurement. Where the bus acknowledges the trigger, returns how
    /// many milliseconds to wait before `finish_measurement`: the waiting time of
    /// the integration time in effect; otherwise the bus's error.
    pub fn start_measurement(&mut self) -> (r: Result<u64, AbsoluteMeasurementError<I2C::Error>>)
        ensures
            final(self).setting() == old(self).setting(),
            final(self).sensor().config() == old(self).sensor().config(),
            final(self).sensor().sent() == old(self).sensor().sent().push(
                config_frame(old(self).sensor().config() | BIT_TRIG),
            ),
            final(self).sensor().answers().drop_last() == old(self).sensor().answers(),
            final(self).sensor().answers().len() == old(self).sensor().answers().len() + 1,
            final(self).sensor().received() == old(self).sensor().received(),
            match final(self).sensor().answers().last() {
                None => r is Ok && r->Ok_0 as int == old(self).setting().duration_ms() + 40,
                Some(e) => r == Err::<u64, AbsoluteMeasurementError<I2C::Error>>(
                    AbsoluteMeasurementError::ReadErr(Error::I2C(e)),
                ),
            },
    {
        match self.sensor.trigger_measurement() {
            Ok(()) => {},
            Err(e) => return Err(error_mapper(e)),
        }
        let wait_time = self.integration_time.waiting_time_millis();
        Ok(wait_time as u64)
    }

    /// Read the triggered measurement and assess it.
    ///
    /// Where the green count calls for it, the integration time moves one step
    /// (see `assess`) and is written to the sensor; the reading is calibrated with
    /// the sensitivity of the integration time it was taken at. Past a hard
    /// threshold the reading is rejected: relatively where the integration time
    /// moved, absolutely where it could not. Where the bus refuses a read, or the
    /// write of the new integration time, its error comes back as `ReadErr`.
    pub fn finish_measurement(&mut self) -> (r: Result<
        AbsoluteMeasurementChannels,
        AbsoluteMeasurementError<I2C::Error>,
    >)
        ensures
            ({
                let it = old(self).setting();
                let s0 = old(self).sensor();
                let s = final(self).sensor();
                let n = s0.answers().len() as int;
                let rn = s0.received().len() as int;
                &&& s.answers().subrange(0, n) == s0.answers()
                &&& s.received().subrange(0, rn) == s0.received()
                &&& if s.answers().len() >= n + 4 && forall|i: int|
                    n <= i < n + 4 ==> #[trigger] s.answers()[i] is None {
                    exists|m: AllChannelMeasurement|
                        {
                            &&& #[trigger] logged_reading(s.received(), rn, m)
                            &&& s.received().len() == rn + 4
                            &&& match spec_adjustment(it, m.green) {
                                Some(next) => {
                                    let config = (s0.config() & !IT_BITS) | ((next.index()
                                        * 16) as u8);
                                    &&& final(self).setting() == next
                                    &&& s.sent() == s0.sent() + read_requests() + seq![
                                        config_frame(config),
                                    ]
                                    &&& s.answers().len() == n + 5
                                    &&& match s.answers().last() {
                                        None => spec_outcome(it, m, r) && s.config() == config,
                                        Some(e) => r == Err::<
                                            AbsoluteMeasurementChannels,
                                            AbsoluteMeasurementError<I2C::Error>,
                                        >(AbsoluteMeasurementError::ReadErr(Error::I2C(e)))
                                            && s.config() == s0.config(),
                                    }
                                },
                                None => {
                                    &&& final(self).setting() == it
                                    &&& s.sent() == s0.sent() + read_requests()
                                    &&& s.answers().len() == n + 4
                                    &&& spec_outcome(it, m, r)
                                    &&& s.config() == s0.config()
                                },
                            }
                        }
                } else {
                    let k = s.answers().len() - n;
                    &&& 1 <= k <= 4
                    &&& s.sent() == s0.sent() + read_requests().take(k)
                    &&& s.answers().last() is Some
                    &&& r == Err::<AbsoluteMeasurementChannels, AbsoluteMeasurementError<I2C::Error>>(
                        AbsoluteMeasurementError::ReadErr(Error::I2C(s.answers().last()->Some_0)),
                    )
                    &&& final(self).setting() == it
                    &&& s.config() == s0.config()
                }
            }),
            old(self).synced() && (final(self).sensor().answers().last() is None)
                ==> final(self).synced(),
    {
        let ghost s0 = self.sensor;
        let reading = match self.sensor.read_all_channels() {
            Ok(m) => m,
            Err(e) => {
                proof {
                    let ans = self.sensor().answers();
                    assert(ans[ans.len() - 1] is Some);
                }
                return Err(error_mapper(e));
            },
        };
        let ghost mid = self.sensor;
        proof {
            let n = s0.answers().len() as int;
            let ans = mid.answers();
            assert(ans[n + 3] is None);
            assert forall|i: int| n <= i < n + 4 implies #[trigger] ans[i] is None by {}
        }
        let green = reading.green;
        let a = assess(self.integration_time, green);
        // the sensitivity of the integration time the reading was taken at
        let sensitivity = self.integration_time.sensitivity();
        proof {
            assert(logged_reading(mid.received(), s0.received().len() as int, reading));
        }
        if let Some(next) = a.adjustment {
            self.integration_time = next;
            let w = self.sensor.set_integration_time(next);
            proof {
                let n = s0.answers().len() as int;
                let config = (s0.config() & !IT_BITS) | ((next.index() * 16) as u8);
                assert(self.sensor().sent() =~= s0.sent() + read_requests() + seq![config_frame(config)]);
                assert forall|i: int| n <= i < n + 4 implies #[trigger] self.sensor().answers()[i] is None by {
                    assert(self.sensor().answers()[i] == self.sensor().answers().drop_last()[i]);
                }
                assert(self.sensor().answers().subrange(0, n) =~= s0.answers());
                lemma_it_field(s0.config(), (next.index() * 16) as u8);
                assert(logged_reading(self.sensor().received(), s0.received().len() as int, reading));
            }
            match w {
                Ok(()) => {},
                Err(e) => return Err(error_mapper(e)),
            }
        }
        proof {
            assert(logged_reading(self.sensor().received(), s0.received().len() as int, reading));
        }
        let res = match a.rejection {
            Some(rej) => Err(rej.to_error()),
            None => Ok(calibrate(reading, sensitivity)),
        };
        proof {
            assert(spec_outcome(old(self).setting(), reading, res));
        }
        res
    }
}
} // verus!
