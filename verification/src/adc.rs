//! Configuration of the analog-to-digital converter and its encoding as the
//! two bytes of the converter's configuration register.

use vstd::prelude::*;
use vstd::std_specs::convert::FromSpecImpl;

verus! {

/// Address of the register that holds the last conversion.
pub const CONVERSION_REGISTER: u8 = 0b00;

/// Address of the configuration register.
pub const CONFIG_REGISTER: u8 = 0b01;

/// Which inputs the converter measures.
#[derive(Clone, Copy, Debug)]
pub enum AnalogInput {
    DifferentialAni0Ani1,
    DifferentialAni0Ani3,
    DifferentialAni1Ani3,
    DifferentialAni2Ani3,
    SingleEndedAni0,
    SingleEndedAni1,
    SingleEndedAni2,
    SingleEndedAni3,
}

/// The amplifier setting.
#[derive(Clone, Copy, Debug)]
pub enum Gain {
    Full,
}

/// Whether the converter keeps converting or converts once on request.
#[derive(Clone, Copy, Debug)]
pub enum Mode {
    Continuous,
    SingleShot,
}

/// Samples per second.
#[derive(Clone, Copy, Debug)]
pub enum DataRate {
    SPS128,
    SPS250,
    SPS490,
    SPS920,
    SPS1600,
    SPS2400,
    SPS3300,
    SPS3300Duplicate,
}

#[derive(Clone, Copy, Debug)]
pub enum ComparatorMode {
    Traditional,
    Window,
}

#[derive(Clone, Copy, Debug)]
pub enum ComparatorPolarity {
    ActiveLow,
    ActiveHigh,
}

#[derive(Clone, Copy, Debug)]
pub enum ComparatorLatching {
    NonLatching,
    Latching,
}

#[derive(Clone, Copy, Debug)]
pub enum ComparatorQueue {
    SingleConversion,
    DoubleConversion,
    QuadConversion,
    Disable,
}

#[derive(Clone, Copy, Debug)]
pub struct ComparatorConfig {
    pub mode: ComparatorMode,
    pub polarity: ComparatorPolarity,
    pub latching: ComparatorLatching,
    pub queue: ComparatorQueue,
}

#[derive(Clone, Copy, Debug)]
pub struct AdcConfig {
    pub address: u8,
    pub input: AnalogInput,
    pub gain: Gain,
    pub mode: Mode,
    pub rate: DataRate,
    pub comparator: ComparatorConfig,
}

impl AnalogInput {
    /// The three-bit multiplexer code.
    pub open spec fn code(self) -> int {
        match self {
            AnalogInput::DifferentialAni0Ani1 => 0,
            AnalogInput::DifferentialAni0Ani3 => 1,
            AnalogInput::DifferentialAni1Ani3 => 2,
            AnalogInput::DifferentialAni2Ani3 => 3,
            AnalogInput::SingleEndedAni0 => 4,
            AnalogInput::SingleEndedAni1 => 5,
            AnalogInput::SingleEndedAni2 => 6,
            AnalogInput::SingleEndedAni3 => 7,
        }
    }
}

impl Gain {
    /// The three-bit amplifier code.
    pub open spec fn code(self) -> int {
        match self {
            Gain::Full => 0,
        }
    }

    /// Millivolts per step of a raw sample.
    pub open spec fn multiplier(self) -> int {
        match self {
            Gain::Full => 3,
        }
    }

    /// The voltage in millivolts that a raw sample stands for.
    pub fn apply(&self, value: u16) -> (millivolts: u32)
        ensures
            millivolts == value * self.multiplier(),
    {
        let multiplier: u32 = match self {
            Gain::Full => 3,
        };
        (value as u32) * multiplier
    }
}

impl Mode {
    /// The one-bit mode code.
    pub open spec fn code(self) -> int {
        match self {
            Mode::Continuous => 0,
            Mode::SingleShot => 1,
        }
    }
}

impl DataRate {
    /// The three-bit rate code.
    pub open spec fn code(self) -> int {
        match self {
            DataRate::SPS128 => 0,
            DataRate::SPS250 => 1,
            DataRate::SPS490 => 2,
            DataRate::SPS920 => 3,
            DataRate::SPS1600 => 4,
            DataRate::SPS2400 => 5,
            DataRate::SPS3300 => 6,
            DataRate::SPS3300Duplicate => 7,
        }
    }
}

impl ComparatorMode {
    pub open spec fn code(self) -> int {
        match self {
            ComparatorMode::Traditional => 0,
            ComparatorMode::Window => 1,
        }
    }
}

impl ComparatorPolarity {
    pub open spec fn code(self) -> int {
        match self {
            ComparatorPolarity::ActiveLow => 0,
            ComparatorPolarity::ActiveHigh => 1,
        }
    }
}

impl ComparatorLatching {
    pub open spec fn code(self) -> int {
        match self {
            ComparatorLatching::NonLatching => 0,
            ComparatorLatching::Latching => 1,
        }
    }
}

impl ComparatorQueue {
    /// The two-bit queue code.
    pub open spec fn code(self) -> int {
        match self {
            ComparatorQueue::SingleConversion => 0,
            ComparatorQueue::DoubleConversion => 1,
            ComparatorQueue::QuadConversion => 2,
            ComparatorQueue::Disable => 3,
        }
    }
}

impl ComparatorConfig {
    /// The comparator as it is left when it is not used.
    pub open spec fn default_spec() -> ComparatorConfig {
        ComparatorConfig {
            mode: ComparatorMode::Traditional,
            polarity: ComparatorPolarity::ActiveLow,
            latching: ComparatorLatching::NonLatching,
            queue: ComparatorQueue::Disable,
        }
    }

    /// The low five bits of the register's low byte: mode in bit 4, polarity
    /// in bit 3, latching in bit 2, queue in bits 1 and 0.
    pub open spec fn bits(self) -> int {
        self.mode.code() * 16 + self.polarity.code() * 8 + self.latching.code() * 4
            + self.queue.code()
    }
}

impl AdcConfig {
    /// The converter at its first bus address, converting the difference of
    /// inputs 0 and 1 continuously at 1600 samples per second.
    pub open spec fn default_spec() -> AdcConfig {
        AdcConfig {
            address: 0b1001000,
            input: AnalogInput::DifferentialAni0Ani1,
            gain: Gain::Full,
            mode: Mode::Continuous,
            rate: DataRate::SPS1600,
            comparator: ComparatorConfig::default_spec(),
        }
    }

    /// The register's high byte: the start bit in bit 7, the input in bits 6
    /// to 4, the gain in bits 3 to 1, the mode in bit 0.
    pub open spec fn high_byte(self, begin: bool) -> int {
        (if begin {
            128int
        } else {
            0int
        }) + self.input.code() * 16 + self.gain.code() * 2 + self.mode.code()
    }

    /// The register's low byte: the rate in bits 7 to 5, the comparator below.
    pub open spec fn low_byte(self) -> int {
        self.rate.code() * 32 + self.comparator.bits()
    }
}

impl Default for ComparatorConfig {
    fn default() -> (c: ComparatorConfig)
        ensures
            c == ComparatorConfig::default_spec(),
    {
        ComparatorConfig {
            mode: ComparatorMode::Traditional,
            polarity: ComparatorPolarity::ActiveLow,
            latching: ComparatorLatching::NonLatching,
            queue: ComparatorQueue::Disable,
        }
    }
}

impl From<AnalogInput> for u8 {
    fn from(input: AnalogInput) -> (bits: u8) {
        let value: u8 = match input {
            AnalogInput::DifferentialAni0Ani1 => 0b000,
            AnalogInput::DifferentialAni0Ani3 => 0b001,
            AnalogInput::DifferentialAni1Ani3 => 0b010,
            AnalogInput::DifferentialAni2Ani3 => 0b011,
            AnalogInput::SingleEndedAni0 => 0b100,
            AnalogInput::SingleEndedAni1 => 0b101,
            AnalogInput::SingleEndedAni2 => 0b110,
            AnalogInput::SingleEndedAni3 => 0b111,
        };
        assert(value < 8 ==> value << 4 == value * 16) by (bit_vector);
        value << 4
    }
}

impl FromSpecImpl<AnalogInput> for u8 {
    open spec fn obeys_from_spec() -> bool {
        true
    }

    open spec fn from_spec(input: AnalogInput) -> u8 {
        (input.code() * 16) as u8
    }
}

impl From<Gain> for u8 {
    fn from(input: Gain) -> (bits: u8) {
        let value: u8 = match input {
            Gain::Full => 0b000,
        };
        assert(value < 8 ==> value << 1 == value * 2) by (bit_vector);
        value << 1
    }
}

impl FromSpecImpl<Gain> for u8 {
    open spec fn obeys_from_spec() -> bool {
        true
    }

    open spec fn from_spec(input: Gain) -> u8 {
        (input.code() * 2) as u8
    }
}

impl From<Mode> for u8 {
    fn from(input: Mode) -> (bits: u8) {
        match input {
            Mode::Continuous => 0b0,
            Mode::SingleShot => 0b1,
        }
    }
}

impl FromSpecImpl<Mode> for u8 {
    open spec fn obeys_from_spec() -> bool {
        true
    }

    open spec fn from_spec(input: Mode) -> u8 {
        input.code() as u8
    }
}

impl From<DataRate> for u8 {
    fn from(input: DataRate) -> (bits: u8) {
        let value: u8 = match input {
            DataRate::SPS128 => 0b000,
            DataRate::SPS250 => 0b001,
            DataRate::SPS490 => 0b010,
            DataRate::SPS920 => 0b011,
            DataRate::SPS1600 => 0b100,
            DataRate::SPS2400 => 0b101,
            DataRate::SPS3300 => 0b110,
            DataRate::SPS3300Duplicate => 0b111,
        };
        assert(value < 8 ==> value << 5 == value * 32) by (bit_vector);
        value << 5
    }
}

impl FromSpecImpl<DataRate> for u8 {
    open spec fn obeys_from_spec() -> bool {
        true
    }

    open spec fn from_spec(input: DataRate) -> u8 {
        (input.code() * 32) as u8
    }
}

impl From<ComparatorMode> for u8 {
    fn from(input: ComparatorMode) -> (bits: u8) {
        let value: u8 = match input {
            ComparatorMode::Traditional => 0b0,
            ComparatorMode::Window => 0b1,
        };
        assert(value < 2 ==> value << 4 == value * 16) by (bit_vector);
        value << 4
    }
}

impl FromSpecImpl<ComparatorMode> for u8 {
    open spec fn obeys_from_spec() -> bool {
        true
    }

    open spec fn from_spec(input: ComparatorMode) -> u8 {
        (input.code() * 16) as u8
    }
}

impl From<ComparatorPolarity> for u8 {
    fn from(input: ComparatorPolarity) -> (bits: u8) {
        let value: u8 = match input {
            ComparatorPolarity::ActiveLow => 0b0,
            ComparatorPolarity::ActiveHigh => 0b1,
        };
        assert(value < 2 ==> value << 3 == value * 8) by (bit_vector);
        value << 3
    }
}

impl FromSpecImpl<ComparatorPolarity> for u8 {
    open spec fn obeys_from_spec() -> bool {
        true
    }

    open spec fn from_spec(input: ComparatorPolarity) -> u8 {
        (input.code() * 8) as u8
    }
}

impl From<ComparatorLatching> for u8 {
    fn from(input: ComparatorLatching) -> (bits: u8) {
        let value: u8 = match input {
            ComparatorLatching::NonLatching => 0b0,
            ComparatorLatching::Latching => 0b1,
        };
        assert(value < 2 ==> value << 2 == value * 4) by (bit_vector);
        value << 2
    }
}

impl FromSpecImpl<ComparatorLatching> for u8 {
    open spec fn obeys_from_spec() -> bool {
        true
    }

    open spec fn from_spec(input: ComparatorLatching) -> u8 {
        (input.code() * 4) as u8
    }
}

impl From<ComparatorQueue> for u8 {
    fn from(input: ComparatorQueue) -> (bits: u8) {
        match input {
            ComparatorQueue::SingleConversion => 0b00,
            ComparatorQueue::DoubleConversion => 0b01,
            ComparatorQueue::QuadConversion => 0b10,
            ComparatorQueue::Disable => 0b11,
        }
    }
}

impl FromSpecImpl<ComparatorQueue> for u8 {
    open spec fn obeys_from_spec() -> bool {
        true
    }

    open spec fn from_spec(input: ComparatorQueue) -> u8 {
        input.code() as u8
    }
}

impl From<ComparatorConfig> for u8 {
    fn from(input: ComparatorConfig) -> (bits: u8) {
        let mode = u8::from(input.mode);
        let polarity = u8::from(input.polarity);
        let latching = u8::from(input.latching);
        let queue = u8::from(input.queue);
        assert((mode == 0 || mode == 16) && (polarity == 0 || polarity == 8) && (latching == 0
            || latching == 4) && queue < 4 ==> mode | polarity | latching | queue == mode
            + polarity + latching + queue) by (bit_vector);
        mode | polarity | latching | queue
    }
}

impl FromSpecImpl<ComparatorConfig> for u8 {
    open spec fn obeys_from_spec() -> bool {
        true
    }

    open spec fn from_spec(input: ComparatorConfig) -> u8 {
        input.bits() as u8
    }
}

impl AdcConfig {
    /// The two bytes of the configuration register, high byte first. With
    /// `begin` the start bit is set, which asks for a conversion.
    pub fn to_u8_array(&self, begin: bool) -> (bytes: [u8; 2])
        ensures
            bytes[0] == self.high_byte(begin),
            bytes[1] == self.low_byte(),
    {
        let start_bit: u8 = match begin {
            true => 0b1,
            false => 0b0,
        };
        let input = u8::from(self.input);
        let gain = u8::from(self.gain);
        let mode = u8::from(self.mode);
        let rate = u8::from(self.rate);
        let comparator = u8::from(self.comparator);
        assert(start_bit < 2 && input & 0x70 == input && gain == 0 && mode < 2 ==> start_bit << 7
            | input | gain | mode == start_bit * 128 + input + gain + mode) by (bit_vector);
        assert(rate & 0xe0 == rate && comparator < 32 ==> rate | comparator == rate + comparator)
            by (bit_vector);
        assert(input & 0x70 == input) by (bit_vector)
            requires
                input == 0 || input == 16 || input == 32 || input == 48 || input == 64 || input
                    == 80 || input == 96 || input == 112,
        ;
        assert(rate & 0xe0 == rate) by (bit_vector)
            requires
                rate == 0 || rate == 32 || rate == 64 || rate == 96 || rate == 128 || rate == 160
                    || rate == 192 || rate == 224,
        ;
        let config_high = start_bit << 7 | input | gain | mode;
        let config_low = rate | comparator;
        [config_high, config_low]
    }
}

impl AdcConfig {
    /// The bytes that start a conversion: the address of the configuration
    /// register, then the register's two bytes with the start bit set.
    pub fn start_command(&self) -> (bytes: [u8; 3])
        ensures
            bytes[0] == CONFIG_REGISTER,
            bytes[1] == self.high_byte(true),
            bytes[2] == self.low_byte(),
    {
        let config_bytes = self.to_u8_array(true);
        [CONFIG_REGISTER, config_bytes[0], config_bytes[1]]
    }
}

/// Whether the configuration register, as read back, reports that the
/// conversion is done: the top bit of its high byte is set.
pub fn conversion_ready(register: &[u8; 2]) -> (ready: bool)
    ensures
        ready == (register[0] >= 128),
{
    let high: u8 = register[0];
    assert((high >> 7 == 1) == (high >= 128)) by (bit_vector);
    high >> 7 == 0b1
}

impl Default for AdcConfig {
    fn default() -> (c: AdcConfig)
        ensures
            c == AdcConfig::default_spec(),
    {
        AdcConfig {
            address: 0b1001000,
            input: AnalogInput::DifferentialAni0Ani1,
            gain: Gain::Full,
            mode: Mode::Continuous,
            rate: DataRate::SPS1600,
            comparator: ComparatorConfig::default(),
        }
    }
}

} // verus!
