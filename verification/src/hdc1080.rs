//! Pure logic of the HDC1080 temperature and humidity sensor driver: the
//! register map, configuration encoding, acquisition timing, conversion of
//! raw register words into readings, and chip identification. The bus
//! transactions themselves are peripheral work that the unverified runtime
//! performs with the byte sequences built here.

use vstd::prelude::*;

use crate::codec::spec_u16_from_be;
use crate::codec::u16_from_be;
use crate::codec::spec_u16_hi;
use crate::codec::spec_u16_lo;
use crate::codec::u16_hi;
use crate::codec::u16_lo;
use crate::control::div_trunc;

verus! {

/// The chip's fixed 7-bit bus address.
pub const I2C_ADDRESS: u8 = 0x40;

/// Safety margin added to every acquisition wait, in microseconds.
pub const EXTRA_DELAY: u32 = 8000;

/// Wait after a soft reset, in microseconds.
pub const RESET_DELAY: u32 = 10000;

/// Configuration-register word that commands a soft reset (bit 15).
pub const RESET_COMMAND: u16 = 0x8000;

/// Configuration-register bit that reports a low battery (bit 11).
pub const BATT_LOW_BIT: u16 = 0x0800;

/// HDC1080 chip registers.
#[derive(Debug, Clone, Copy, PartialEq, Eq, Structural)]
pub enum Register {
    Temperature,
    Humidity,
    Configuration,
    SerialId1,
    SerialId2,
    SerialId3,
    Manufacturer,
    DeviceId,
}

impl Register {
    /// The register's address on the chip.
    pub open spec fn spec_addr(self) -> u8 {
        match self {
            Register::Temperature => 0x00,
            Register::Humidity => 0x01,
            Register::Configuration => 0x02,
            Register::SerialId1 => 0xFB,
            Register::SerialId2 => 0xFC,
            Register::SerialId3 => 0xFD,
            Register::Manufacturer => 0xFE,
            Register::DeviceId => 0xFF,
        }
    }

    pub fn addr(self) -> (r: u8)
        ensures
            r == self.spec_addr(),
    {
        match self {
            Register::Temperature => 0x00,
            Register::Humidity => 0x01,
            Register::Configuration => 0x02,
            Register::SerialId1 => 0xFB,
            Register::SerialId2 => 0xFC,
            Register::SerialId3 => 0xFD,
            Register::Manufacturer => 0xFE,
            Register::DeviceId => 0xFF,
        }
    }
}

/// Resolution of temperature.
#[derive(Debug, Clone, Copy, PartialEq, Eq, Structural)]
pub enum TemperatureResolution {
    /// 11 bits
    Bits11,
    /// 14 bits
    Bits14,
}

impl TemperatureResolution {
    /// The resolution's field in the configuration register (bit 10).
    pub open spec fn spec_config_bits(self) -> u16 {
        match self {
            TemperatureResolution::Bits11 => 0x0400,
            TemperatureResolution::Bits14 => 0x0000,
        }
    }

    pub fn as_config_bits(&self) -> (r: u16)
        ensures
            r == self.spec_config_bits(),
    {
        match self {
            TemperatureResolution::Bits11 => 0x0400,
            TemperatureResolution::Bits14 => 0x0000,
        }
    }

    /// The acquisition time the datasheet gives for this resolution, in
    /// microseconds.
    pub open spec fn spec_acq_us(self) -> u32 {
        match self {
            TemperatureResolution::Bits11 => 3650,
            TemperatureResolution::Bits14 => 6350,
        }
    }

    pub fn t_acq_us(&self) -> (r: u32)
        ensures
            r == self.spec_acq_us(),
    {
        match self {
            TemperatureResolution::Bits11 => 3650,
            TemperatureResolution::Bits14 => 6350,
        }
    }
}

/// Resolution of humidity.
#[derive(Debug, Clone, Copy, PartialEq, Eq, Structural)]
pub enum HumidityResolution {
    /// 8 bits
    Bits8,
    /// 11 bits
    Bits11,
    /// 14 bits
    Bits14,
}

impl HumidityResolution {
    /// The resolution's field in the configuration register (bits 8 and 9).
    pub open spec fn spec_config_bits(self) -> u16 {
        match self {
            HumidityResolution::Bits8 => 0x0200,
            HumidityResolution::Bits11 => 0x0100,
            HumidityResolution::Bits14 => 0x0000,
        }
    }

    pub fn as_config_bits(&self) -> (r: u16)
        ensures
            r == self.spec_config_bits(),
    {
        match self {
            HumidityResolution::Bits8 => 0x0200,
            HumidityResolution::Bits11 => 0x0100,
            HumidityResolution::Bits14 => 0x0000,
        }
    }

    /// The acquisition time the datasheet gives for this resolution, in
    /// microseconds.
    pub open spec fn spec_acq_us(self) -> u32 {
        match self {
            HumidityResolution::Bits8 => 2500,
            HumidityResolution::Bits11 => 3850,
            HumidityResolution::Bits14 => 6450,
        }
    }

    pub fn t_acq_us(&self) -> (r: u32)
        ensures
            r == self.spec_acq_us(),
    {
        match self {
            HumidityResolution::Bits8 => 2500,
            HumidityResolution::Bits11 => 3850,
            HumidityResolution::Bits14 => 6450,
        }
    }
}

/// Drying heater on/off switch.
#[derive(Debug, Clone, Copy, PartialEq, Eq, Structural)]
pub enum DryingHeater {
    /// Drying heater is inactive.
    Off,
    /// Drying heater is active.
    On,
}

impl DryingHeater {
    /// The heater's field in the configuration register (bit 13).
    pub open spec fn spec_config_bits(self) -> u16 {
        match self {
            DryingHeater::On => 0x2000,
            DryingHeater::Off => 0x0000,
        }
    }

    pub fn as_config_bits(&self) -> (r: u16)
        ensures
            r == self.spec_config_bits(),
    {
        match self {
            DryingHeater::On => 0x2000,
            DryingHeater::Off => 0x0000,
        }
    }
}

/// Acquisition configuration.
#[derive(Debug, Clone, Copy, PartialEq, Eq, Structural)]
pub enum Acquisition {
    /// Get temperature and humidity at the same time in one bus request.
    Simultaneous,
    /// Get temperature and humidity separately in two requests.
    Separate,
}

impl Acquisition {
    /// The acquisition mode's field in the configuration register (bit 12).
    pub open spec fn spec_config_bits(self) -> u16 {
        match self {
            Acquisition::Simultaneous => 0x0000,
            Acquisition::Separate => 0x1000,
        }
    }

    pub fn as_config_bits(&self) -> (r: u16)
        ensures
            r == self.spec_config_bits(),
    {
        match self {
            Acquisition::Simultaneous => 0x0000,
            Acquisition::Separate => 0x1000,
        }
    }
}

/// Chip configuration.
#[derive(Debug, Clone, Copy, PartialEq, Eq, Structural)]
pub struct Config {
    pub t_resolution: TemperatureResolution,
    pub h_resolution: HumidityResolution,
    pub drying_heater: DryingHeater,
    pub acquisition: Acquisition,
}

impl Config {
    /// The configuration-register word: the four fields occupy disjoint bit
    /// ranges, so the word is their bitwise or.
    pub open spec fn spec_bits(self) -> u16 {
        self.t_resolution.spec_config_bits() | self.h_resolution.spec_config_bits()
            | self.drying_heater.spec_config_bits() | self.acquisition.spec_config_bits()
    }

    pub fn as_bits(&self) -> (r: u16)
        ensures
            r == self.spec_bits(),
    {
        self.t_resolution.as_config_bits() | self.h_resolution.as_config_bits()
            | self.drying_heater.as_config_bits() | self.acquisition.as_config_bits()
    }
}

/// The configuration the driver starts with: maximum resolution, heater off,
/// simultaneous acquisition.
pub open spec fn spec_default_config() -> Config {
    Config {
        t_resolution: TemperatureResolution::Bits11,
        h_resolution: HumidityResolution::Bits14,
        drying_heater: DryingHeater::Off,
        acquisition: Acquisition::Simultaneous,
    }
}

impl Default for Config {
    fn default() -> (r: Self)
        ensures
            r == spec_default_config(),
    {
        Config {
            t_resolution: TemperatureResolution::Bits11,
            h_resolution: HumidityResolution::Bits14,
            drying_heater: DryingHeater::Off,
            acquisition: Acquisition::Simultaneous,
        }
    }
}

impl From<bool> for DryingHeater {
    fn from(b: bool) -> (r: Self) {
        if b {
            DryingHeater::On
        } else {
            DryingHeater::Off
        }
    }
}

impl vstd::std_specs::convert::FromSpecImpl<bool> for DryingHeater {
    open spec fn obeys_from_spec() -> bool {
        true
    }

    open spec fn from_spec(b: bool) -> Self {
        if b {
            DryingHeater::On
        } else {
            DryingHeater::Off
        }
    }
}

impl From<DryingHeater> for bool {
    fn from(h: DryingHeater) -> (r: Self) {
        match h {
            DryingHeater::On => true,
            DryingHeater::Off => false,
        }
    }
}

impl vstd::std_specs::convert::FromSpecImpl<DryingHeater> for bool {
    open spec fn obeys_from_spec() -> bool {
        true
    }

    open spec fn from_spec(h: DryingHeater) -> Self {
        h == DryingHeater::On
    }
}

/// Temperature reading: the chip's raw sixteen-bit word, where full scale
/// spans -40 to 125 degrees Celsius.
#[derive(Debug, Clone, Copy, PartialEq, Eq, PartialOrd, Ord, Structural)]
pub struct Temperature(u16);

impl Temperature {
    /// The raw register word behind the reading.
    pub closed spec fn spec_raw(self) -> u16 {
        self.0
    }

    /// The reading the chip's two big-endian register bytes carry.
    pub fn from_be_bytes(hi: u8, lo: u8) -> (r: Self)
        ensures
            r.spec_raw() == spec_u16_from_be(hi, lo),
    {
        Temperature(u16_from_be(hi, lo))
    }

    /// The temperature in units of 2^-16 degrees Celsius:
    /// `raw * 165 - 40 * 2^16`.
    pub open spec fn spec_degrees_fp(self) -> int {
        self.spec_raw() * 165 - 2621440
    }

    /// Get temperature in 2^-16 degrees Celsius. For internal use only.
    fn degrees_fp(&self) -> (r: i32)
        ensures
            r == self.spec_degrees_fp(),
    {
        (self.0 as i32) * 165 - 65536 * 40
    }

    /// Get approximate temperature in degrees Celsius as integer value,
    /// truncated toward zero.
    pub fn degrees(&self) -> (r: i16)
        ensures
            r == div_trunc(self.spec_degrees_fp(), 65536),
    {
        let fp = self.degrees_fp();
        if fp >= 0 {
            (fp / 65536) as i16
        } else {
            (-((-fp) / 65536)) as i16
        }
    }

    /// Get temperature in tenths of a degree Celsius, truncated toward zero.
    pub fn degrees_10(&self) -> (r: i16)
        ensures
            r == div_trunc(self.spec_degrees_fp() * 10, 65536),
    {
        let fp = self.degrees_fp();
        if fp >= 0 {
            (fp * 10 / 65536) as i16
        } else {
            (-((-fp) * 10 / 65536)) as i16
        }
    }
}

/// Humidity reading: the chip's raw sixteen-bit word, where full scale is
/// one hundred percent relative humidity.
#[derive(Debug, Clone, Copy, PartialEq, Eq, PartialOrd, Ord, Structural)]
pub struct Humidity(u16);

impl Humidity {
    /// The raw register word behind the reading.
    pub closed spec fn spec_raw(self) -> u16 {
        self.0
    }

    /// The reading the chip's two big-endian register bytes carry.
    pub fn from_be_bytes(hi: u8, lo: u8) -> (r: Self)
        ensures
            r.spec_raw() == spec_u16_from_be(hi, lo),
    {
        Humidity(u16_from_be(hi, lo))
    }

    /// Get approximate humidity in percent as integer value.
    pub fn percent(&self) -> (r: u8)
        ensures
            r == self.spec_raw() * 100 / 65536,
    {
        ((self.0 as u32) * 100 / 65536) as u8
    }

    /// Get humidity in tenths of a percent.
    pub fn percent_10(&self) -> (r: u16)
        ensures
            r == self.spec_raw() * 1000 / 65536,
    {
        ((self.0 as u32) * 1000 / 65536) as u16
    }
}

/// A simultaneous acquisition answers with four bytes: the temperature word,
/// then the humidity word, both big-endian.
pub fn pair_from_be_bytes(bytes: [u8; 4]) -> (r: (Temperature, Humidity))
    ensures
        r.0.spec_raw() == spec_u16_from_be(bytes[0], bytes[1]),
        r.1.spec_raw() == spec_u16_from_be(bytes[2], bytes[3]),
{
    (Temperature::from_be_bytes(bytes[0], bytes[1]), Humidity::from_be_bytes(bytes[2], bytes[3]))
}

/// Chip identification.
#[derive(Debug, Clone, Copy, PartialEq, Eq)]
pub struct Identification {
    /// Chip manufacturer. Always 0x5449 (Texas Instruments).
    pub manufacturer: u16,
    /// Chip product code. Always 0x1050 for HDC1080.
    pub product: u16,
    /// Chip serial number in big-endian byte order.
    pub serial: [u8; 5],
}

impl Identification {
    /// Check if the chip is a working HDC1080.
    pub fn is_valid(&self) -> (r: bool)
        ensures
            r == (self.manufacturer == 0x5449 && self.product == 0x1050),
    {
        self.manufacturer == 0x5449 && self.product == 0x1050
    }

    /// The registers whose words identify the chip, in the order
    /// `from_registers` expects them.
    pub fn registers() -> (r: [Register; 5])
        ensures
            r@ =~= seq![
                Register::Manufacturer,
                Register::DeviceId,
                Register::SerialId1,
                Register::SerialId2,
                Register::SerialId3,
            ],
    {
        [
            Register::Manufacturer,
            Register::DeviceId,
            Register::SerialId1,
            Register::SerialId2,
            Register::SerialId3,
        ]
    }

    /// Convert register words into binary data: the manufacturer and product
    /// words, then the serial assembled big-endian from the two full serial
    /// words and the low byte of the third.
    pub fn from_registers(data: [u16; 5]) -> (r: Self)
        ensures
            r.manufacturer == data[0],
            r.product == data[1],
            r.serial@ =~= seq![
                spec_u16_hi(data[2]),
                spec_u16_lo(data[2]),
                spec_u16_hi(data[3]),
                spec_u16_lo(data[3]),
                spec_u16_lo(data[4]),
            ],
    {
        let serial: [u8; 5] = [
            u16_hi(data[2]),
            u16_lo(data[2]),
            u16_hi(data[3]),
            u16_lo(data[3]),
            u16_lo(data[4]),
        ];
        Identification { manufacturer: data[0], product: data[1], serial }
    }
}

/// The bytes of a full register write: the register address, then the word
/// high byte first.
pub fn write_register_bytes(reg: Register, data: u16) -> (r: [u8; 3])
    ensures
        r@ =~= seq![reg.spec_addr(), spec_u16_hi(data), spec_u16_lo(data)],
{
    [reg.addr(), u16_hi(data), u16_lo(data)]
}

/// The bytes of a short register write: address and high byte only — the
/// chip uses no low bit of any writable register.
pub fn write_register_bytes_short(reg: Register, data: u16) -> (r: [u8; 2])
    ensures
        r@ =~= seq![reg.spec_addr(), spec_u16_hi(data)],
{
    [reg.addr(), u16_hi(data)]
}

/// How long a temperature acquisition takes, with margin, in microseconds.
pub fn temperature_delay_us(config: &Config) -> (r: u32)
    ensures
        r == config.t_resolution.spec_acq_us() + EXTRA_DELAY,
{
    config.t_resolution.t_acq_us() + EXTRA_DELAY
}

/// How long a humidity acquisition takes, with margin, in microseconds.
pub fn humidity_delay_us(config: &Config) -> (r: u32)
    ensures
        r == config.h_resolution.spec_acq_us() + EXTRA_DELAY,
{
    config.h_resolution.t_acq_us() + EXTRA_DELAY
}

/// How long a simultaneous acquisition of both quantities takes, with
/// margin: the two conversions run in parallel on the chip, so the slower
/// one bounds the wait.
pub fn read_delay_us(config: &Config) -> (r: u32)
    ensures
        config.t_resolution.spec_acq_us() >= config.h_resolution.spec_acq_us() ==> r
            == config.t_resolution.spec_acq_us() + EXTRA_DELAY,
        config.t_resolution.spec_acq_us() < config.h_resolution.spec_acq_us() ==> r
            == config.h_resolution.spec_acq_us() + EXTRA_DELAY,
{
    let t = config.t_resolution.t_acq_us();
    let h = config.h_resolution.t_acq_us();
    let acq = if t >= h {
        t
    } else {
        h
    };
    acq + EXTRA_DELAY
}

/// The HDC1080 temperature and humidity sensor driver's state: the bus and
/// timer handles the runtime transacts with, the configuration to run the
/// chip at, and whether that configuration still has to be written out.
pub struct Hdc1080<I2C, D> {
    i2c: I2C,
    delay: D,
    config: Config,
    is_dirty: bool,
}

impl<I2C, D> Hdc1080<I2C, D> {
    /// The configuration the driver runs the chip at.
    pub closed spec fn spec_config(self) -> Config {
        self.config
    }

    /// Whether the configuration still has to be written to the chip.
    pub closed spec fn spec_is_dirty(self) -> bool {
        self.is_dirty
    }

    /// New HDC1080 device from a bus peripheral with default config.
    ///
    /// Default is maximum resolution with simultaneous acquisition.
    pub fn new(i2c: I2C, delay: D) -> (r: Self)
        ensures
            r.spec_config() == spec_default_config(),
            r.spec_is_dirty(),
    {
        Self::new_with_config(i2c, delay, Config::default())
    }

    /// New HDC1080 device from a bus peripheral with arbitrary config.
    pub fn new_with_config(i2c: I2C, delay: D, config: Config) -> (r: Self)
        ensures
            r.spec_config() == config,
            r.spec_is_dirty(),
    {
        Hdc1080 { i2c, delay, config, is_dirty: true }
    }

    /// Set temperature resolution.
    pub fn set_t_resolution(&mut self, t_resolution: TemperatureResolution)
        ensures
            final(self).spec_config() == (Config {
                t_resolution,
                ..old(self).spec_config()
            }),
            final(self).spec_is_dirty() == (old(self).spec_is_dirty() || t_resolution != old(
                self,
            ).spec_config().t_resolution),
    {
        if t_resolution != self.config.t_resolution {
            self.config.t_resolution = t_resolution;
            self.is_dirty = true;
        }
    }

    /// Set humidity resolution.
    pub fn set_h_resolution(&mut self, h_resolution: HumidityResolution)
        ensures
            final(self).spec_config() == (Config {
                h_resolution,
                ..old(self).spec_config()
            }),
            final(self).spec_is_dirty() == (old(self).spec_is_dirty() || h_resolution != old(
                self,
            ).spec_config().h_resolution),
    {
        if h_resolution != self.config.h_resolution {
            self.config.h_resolution = h_resolution;
            self.is_dirty = true;
        }
    }

    /// Enable or disable built-in drying heater.
    pub fn set_drying_heater(&mut self, drying_heater: DryingHeater)
        ensures
            final(self).spec_config() == (Config {
                drying_heater,
                ..old(self).spec_config()
            }),
            final(self).spec_is_dirty() == (old(self).spec_is_dirty() || drying_heater != old(
                self,
            ).spec_config().drying_heater),
    {
        if drying_heater != self.config.drying_heater {
            self.config.drying_heater = drying_heater;
            self.is_dirty = true;
        }
    }

    /// Hand the bus and timer handles back, for the runtime to transact
    /// with, along with the configuration word it must write first when the
    /// configuration is dirty.
    pub fn into_parts(self) -> (r: (I2C, D, Config, bool))
        ensures
            r.2 == self.spec_config(),
            r.3 == self.spec_is_dirty(),
    {
        let Hdc1080 { i2c, delay, config, is_dirty } = self;
        (i2c, delay, config, is_dirty)
    }

    /// Note that the configuration was written to the chip.
    pub fn mark_clean(&mut self)
        ensures
            final(self).spec_config() == old(self).spec_config(),
            !final(self).spec_is_dirty(),
    {
        self.is_dirty = false;
    }
}

} // verus!
