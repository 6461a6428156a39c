//! Driver for a four-channel (red, green, blue, white) light sensor on an I2C bus,
//! with an automatic-exposure controller on top of it.
use vstd::prelude::*;

mod configuration;
mod integration_time;
mod reading;
mod wrapper;

pub use integration_time::IntegrationTime;
pub use wrapper::{
    assess, calibrate, is_final, AbsoluteMeasurementChannels, AbsoluteMeasurementError,
    Assessment, AutoVeml6040, Rejection, BRIGHT_THRESHOLD_HARD, BRIGHT_THRESHOLD_SOFT,
    DARK_THRESHOLD_HARD, DARK_THRESHOLD_SOFT,
};


verus! {

/// The sensor's fixed 7-bit bus address.
pub const DEVICE_ADDRESS: u8 = 0x10;

/// Configuration register.
pub const REG_CONFIG: u8 = 0x00;

/// Red channel data register.
pub const REG_R_DATA: u8 = 0x08;

/// Green channel data register.
pub const REG_G_DATA: u8 = 0x09;

/// Blue channel data register.
pub const REG_B_DATA: u8 = 0x0A;

/// White channel data register.
pub const REG_W_DATA: u8 = 0x0B;

/// Configuration bit: the sensor is shut down.
pub const BIT_SHUTDOWN: u8 = 0b0000_0001;

/// Configuration bit: manual (forced) measurement mode.
pub const BIT_AF: u8 = 0b0000_0010;

/// Configuration bit: trigger one measurement in manual mode.
pub const BIT_TRIG: u8 = 0b0000_0100;

/// Configuration field holding the integration time pattern.
pub const IT_BITS: u8 = 0b0111_0000;

/// The bus transport that the driver talks through: an I2C controller able to
/// write bytes to a device, and to write bytes then read two bytes back.
///
/// Nothing is assumed of what an implementation does or returns.
pub trait I2cBus {
    /// The transport's own error.
    type Error;

    /// Write `bytes` to the device at `address`.
    fn write(&mut self, address: u8, bytes: &[u8]) -> Result<(), Self::Error>;

    /// Write `bytes` to the device at `address`, then read two bytes from it.
    fn write_read(&mut self, address: u8, bytes: &[u8]) -> Result<[u8; 2], Self::Error>;
}

/// Errors of the driver.
#[derive(Debug)]
pub enum Error<E> {
    /// The bus transport failed.
    I2C(E),
}

/// Measurement mode.
#[derive(Debug, Clone, Copy, PartialEq, Eq, Structural)]
pub enum MeasurementMode {
    /// The sensor measures continuously.
    Auto,
    /// The sensor measures only when triggered.
    Manual,
}

/// Raw counts of the four channels.
#[derive(Debug, Clone, Copy, PartialEq, Eq, Structural)]
pub struct AllChannelMeasurement {
    /// Red channel count.
    pub red: u16,
    /// Green channel count.
    pub green: u16,
    /// Blue channel count.
    pub blue: u16,
    /// White channel count.
    pub white: u16,
}

/// The frame that writes `config` into the configuration register.
pub open spec fn config_frame(config: u8) -> Seq<u8> {
    seq![REG_CONFIG, config, 0u8]
}

/// The answer that a bus call's result stands for: `None` for success, the
/// error for a failure.
pub open spec fn answer_of<T, E>(r: Result<T, E>) -> Option<E> {
    match r {
        Ok(_) => None,
        Err(e) => Some(e),
    }
}

/// The count that two bytes read back from a data register stand for (little endian).
pub open spec fn le_count(bytes: Seq<u8>) -> int {
    bytes[0] + 256 * bytes[1]
}

/// The count held by a data register as two little-endian bytes.
pub fn count_from_le_bytes(bytes: [u8; 2]) -> (r: u16)
    ensures
        r as int == le_count(bytes@),
{
    (bytes[1] as u16) * 256 + (bytes[0] as u16)
}

/// Driver of the sensor.
///
/// It keeps a shadow of the configuration byte last written successfully, and,
/// as ghost state, every byte sequence it handed to the bus, the bus's answer to
/// each of those calls, and every pair of bytes the bus handed back.
pub struct Veml6040<I2C: I2cBus> {
    i2c: I2C,
    config: u8,
    sent: Ghost<Seq<Seq<u8>>>,
    answers: Ghost<Seq<Option<I2C::Error>>>,
    received: Ghost<Seq<Seq<u8>>>,
}

impl<I2C: I2cBus> Veml6040<I2C> {
    /// The configuration byte last written successfully.
    pub closed spec fn config(&self) -> u8 {
        self.config
    }

    /// Every byte sequence written to the bus, oldest first.
    pub closed spec fn sent(&self) -> Seq<Seq<u8>> {
        self.sent@
    }

    /// The bus's answer to each call, oldest first: `None` where it succeeded,
    /// the bus's error where it failed.
    pub closed spec fn answers(&self) -> Seq<Option<I2C::Error>> {
        self.answers@
    }

    /// Every pair of bytes read from the bus, oldest first.
    pub closed spec fn received(&self) -> Seq<Seq<u8>> {
        self.received@
    }

    /// Create a driver on the given bus. Nothing is written yet.
    pub fn new(i2c: I2C) -> (r: Self)
        ensures
            r.config() == 0,
            r.sent() == Seq::<Seq<u8>>::empty(),
            r.answers() == Seq::<Option<I2C::Error>>::empty(),
            r.received() == Seq::<Seq<u8>>::empty(),
    {
        Veml6040 {
            i2c,
            config: 0,
            sent: Ghost(Seq::empty()),
            answers: Ghost(Seq::empty()),
            received: Ghost(Seq::empty()),
        }
    }

    /// Give the bus back.
    pub fn destroy(self) -> I2C {
        self.i2c
    }
}

} // verus!
