use vstd::prelude::*;

use crate::integration_time::IntegrationTime;
use crate::{
    answer_of, config_frame, Error, I2cBus, MeasurementMode, Veml6040, BIT_AF, BIT_SHUTDOWN, BIT_TRIG,
    DEVICE_ADDRESS, IT_BITS, REG_CONFIG,
};

verus! {

impl<I2C: I2cBus> Veml6040<I2C> {
    /// `next` is `prev` after one write of `frame` to the bus, and `r` is what the
    /// bus answered: `Ok` where it acknowledged the write, else its error.
    pub open spec fn wrote_frame(
        prev: Self,
        next: Self,
        frame: Seq<u8>,
        r: Result<(), Error<I2C::Error>>,
    ) -> bool {
        &&& next.sent() == prev.sent().push(frame)
        &&& next.answers().len() == prev.answers().len() + 1
        &&& next.answers().drop_last() == prev.answers()
        &&& next.received() == prev.received()
        &&& match next.answers().last() {
            None => r == Ok::<(), Error<I2C::Error>>(()),
            Some(e) => r == Err::<(), Error<I2C::Error>>(Error::I2C(e)),
        }
    }

    /// `next` is `prev` after one attempt to write `config` into the configuration
    /// register: the frame went out once, and the shadow holds `config` exactly when
    /// the bus acknowledged the write; otherwise it is left alone.
    pub open spec fn wrote_config(
        prev: Self,
        next: Self,
        config: u8,
        r: Result<(), Error<I2C::Error>>,
    ) -> bool {
        &&& Self::wrote_frame(prev, next, config_frame(config), r)
        &&& next.config() == if r is Ok {
            config
        } else {
            prev.config()
        }
    }

    /// Enable the sensor: clear the shutdown bit.
    pub fn enable(&mut self) -> (r: Result<(), Error<I2C::Error>>)
        ensures
            Self::wrote_config(*old(self), *final(self), old(self).config() & !BIT_SHUTDOWN, r),
    {
        let config = self.config;
        self.write_config(config & !BIT_SHUTDOWN)
    }

    /// Disable the sensor (shutdown): set the shutdown bit.
    pub fn disable(&mut self) -> (r: Result<(), Error<I2C::Error>>)
        ensures
            Self::wrote_config(*old(self), *final(self), old(self).config() | BIT_SHUTDOWN, r),
    {
        let config = self.config;
        self.write_config(config | BIT_SHUTDOWN)
    }

    /// Set the integration time: replace the integration time field.
    pub fn set_integration_time(&mut self, it: IntegrationTime) -> (r: Result<(), Error<I2C::Error>>)
        ensures
            Self::wrote_config(
                *old(self),
                *final(self),
                (old(self).config() & !IT_BITS) | ((it.index() * 16) as u8),
                r,
            ),
    {
        let config = self.config & !IT_BITS;
        self.write_config(config | it.bit_pattern())
    }

    /// Set the measurement mode: `Auto` clears the manual-mode bit, `Manual` sets it.
    pub fn set_measurement_mode(&mut self, mode: MeasurementMode) -> (r: Result<(), Error<I2C::Error>>)
        ensures
            Self::wrote_config(
                *old(self),
                *final(self),
                match mode {
                    MeasurementMode::Auto => old(self).config() & !BIT_AF,
                    MeasurementMode::Manual => old(self).config() | BIT_AF,
                },
                r,
            ),
    {
        let config = self.config;
        match mode {
            MeasurementMode::Auto => self.write_config(config & !BIT_AF),
            MeasurementMode::Manual => self.write_config(config | BIT_AF),
        }
    }

    /// Trigger a measurement when on `Manual` measurement mode.
    ///
    /// The trigger bit goes out with the configuration but is not kept in the
    /// shadow, so that a later configuration write does not trigger again.
    pub fn trigger_measurement(&mut self) -> (r: Result<(), Error<I2C::Error>>)
        ensures
            Self::wrote_frame(
                *old(self),
                *final(self),
                config_frame(old(self).config() | BIT_TRIG),
                r,
            ),
            final(self).config() == old(self).config(),
    {
        let frame: [u8; 3] = [REG_CONFIG, self.config | BIT_TRIG, 0];
        let r = self.i2c.write(DEVICE_ADDRESS, &frame);
        proof {
            assert(frame@ =~= config_frame(old(self).config() | BIT_TRIG));
            self.sent@ = self.sent@.push(frame@);
            self.answers@ = self.answers@.push(answer_of(r));
            assert(self.answers@.drop_last() =~= old(self).answers());
        }
        match r {
            Ok(()) => Ok(()),
            Err(e) => Err(Error::I2C(e)),
        }
    }

    fn write_config(&mut self, config: u8) -> (r: Result<(), Error<I2C::Error>>)
        ensures
            Self::wrote_config(*old(self), *final(self), config, r),
    {
        let frame: [u8; 3] = [REG_CONFIG, config, 0];
        let w = self.i2c.write(DEVICE_ADDRESS, &frame);
        proof {
            assert(frame@ =~= config_frame(config));
            self.sent@ = self.sent@.push(frame@);
            self.answers@ = self.answers@.push(answer_of(w));
            assert(self.answers@.drop_last() =~= old(self).answers());
        }
        match w {
            Ok(()) => {
                self.config = config;
                Ok(())
            },
            Err(e) => Err(Error::I2C(e)),
        }
    }
}

} // verus!
