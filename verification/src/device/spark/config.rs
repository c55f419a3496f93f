//! The configuration a motor controller is created with.
use vstd::prelude::*;

use crate::device::spark::SparkMax;
use crate::inventory::InventoryBuilder;
use crate::inventory::Symbol;
use crate::scalar::Scalar;
use crate::scalar::ONE_MAGNITUDE;

verus! {

/// Whether `depth` is a sampling depth of at most `limit`: a power of two.
pub open spec fn spec_is_sampling_depth(depth: u8, limit: u8) -> bool {
    &&& depth <= limit
    &&& (depth == 1 || depth == 2 || depth == 4 || depth == 8 || depth == 16 || depth == 32
        || depth == 64 || depth == 128)
}

/// Whether `depth` is a power of two of at most `limit`.
pub fn is_sampling_depth(depth: u8, limit: u8) -> (valid: bool)
    ensures
        valid == spec_is_sampling_depth(depth, limit),
{
    if depth == 0 {
        return false;
    }
    let below: u8 = depth - 1;
    assert((depth & below == 0) == (depth == 1 || depth == 2 || depth == 4 || depth == 8 || depth
        == 16 || depth == 32 || depth == 64 || depth == 128)) by (bit_vector)
        requires
            depth != 0,
            below == depth - 1,
    ;
    depth & below == 0 && depth <= limit
}

/// The sensor that closes the control loop.
#[derive(Clone, Copy, Debug, PartialEq, Eq, Hash, Structural)]
pub enum FeedbackSensor {
    NoSensor,
    RelativeEncoder,
    AnalogSensor,
    AlternateEncoder,
    AbsoluteEncoder,
}

impl FeedbackSensor {
    /// The number the host knows this sensor by.
    pub open spec fn spec_code(self) -> u8 {
        match self {
            FeedbackSensor::NoSensor => 0,
            FeedbackSensor::RelativeEncoder => 1,
            FeedbackSensor::AnalogSensor => 2,
            FeedbackSensor::AlternateEncoder => 3,
            FeedbackSensor::AbsoluteEncoder => 4,
        }
    }

    pub fn code(&self) -> (code: u8)
        ensures
            code == self.spec_code(),
    {
        match self {
            FeedbackSensor::NoSensor => 0,
            FeedbackSensor::RelativeEncoder => 1,
            FeedbackSensor::AnalogSensor => 2,
            FeedbackSensor::AlternateEncoder => 3,
            FeedbackSensor::AbsoluteEncoder => 4,
        }
    }
}

/// How the motor commutates.
#[derive(Clone, Copy, Debug, PartialEq, Eq, Hash, Structural)]
pub enum MotorType {
    Brushed,
    Brushless,
}

impl MotorType {
    /// The number the host knows this motor type by.
    pub open spec fn spec_code(self) -> u8 {
        match self {
            MotorType::Brushed => 0,
            MotorType::Brushless => 1,
        }
    }

    pub fn code(&self) -> (code: u8)
        ensures
            code == self.spec_code(),
    {
        match self {
            MotorType::Brushed => 0,
            MotorType::Brushless => 1,
        }
    }
}

/// What the motor does when it is not powered.
#[derive(Clone, Copy, Debug, PartialEq, Eq, Hash, Structural)]
pub enum IdleMode {
    /// The motor holds its position when not powered.
    Brake,
    /// The motor coasts when not powered.
    Coast,
}

impl IdleMode {
    /// The number the host knows this idle mode by.
    pub open spec fn spec_code(self) -> u8 {
        match self {
            IdleMode::Brake => 0,
            IdleMode::Coast => 1,
        }
    }

    pub fn code(&self) -> (code: u8)
        ensures
            code == self.spec_code(),
    {
        match self {
            IdleMode::Brake => 0,
            IdleMode::Coast => 1,
        }
    }
}

/// The settings of the controller's absolute encoder.
#[derive(Clone, Copy, Debug, PartialEq, Eq, Structural)]
pub struct AbsoluteEncoderConfig {
    /// The phase of the encoder, so that it is in phase with the motor.
    pub inverted: bool,
    /// The factor that positions, in rotations, are multiplied by.
    pub position_factor: Scalar,
    /// The factor that velocities, in rotations per minute, are multiplied by.
    pub velocity_factor: Scalar,
    /// The position that is reported as zero.
    pub zero_offset: Scalar,
    /// The average sampling depth: a power of two up to 128.
    pub average_depth: u8,
    /// The start pulse width in microseconds; negative while unset.
    pub start_pulse_us: Scalar,
    /// The end pulse width in microseconds; negative while unset.
    pub end_pulse_us: Scalar,
    /// Whether positions are reported around zero, not from zero upward.
    pub zero_centered: bool,
}

impl AbsoluteEncoderConfig {
    pub open spec fn spec_default() -> Self {
        AbsoluteEncoderConfig {
            inverted: false,
            position_factor: Scalar { bits: ONE_MAGNITUDE },
            velocity_factor: Scalar { bits: ONE_MAGNITUDE },
            zero_offset: Scalar { bits: 0 },
            average_depth: 128,
            start_pulse_us: Scalar { bits: 0xbff0_0000_0000_0000 },
            end_pulse_us: Scalar { bits: 0xbff0_0000_0000_0000 },
            zero_centered: false,
        }
    }

    /// Sets the average sampling depth.
    pub fn average_depth(self, depth: u8) -> (config: Self)
        requires
            spec_is_sampling_depth(depth, 128),
        ensures
            config == (AbsoluteEncoderConfig { average_depth: depth, ..self }),
    {
        AbsoluteEncoderConfig { average_depth: depth, ..self }
    }
}

impl Default for AbsoluteEncoderConfig {
    fn default() -> (config: Self)
        ensures
            config == AbsoluteEncoderConfig::spec_default(),
    {
        AbsoluteEncoderConfig {
            inverted: false,
            position_factor: Scalar::one(),
            velocity_factor: Scalar::one(),
            zero_offset: Scalar::zero(),
            average_depth: 128,
            start_pulse_us: Scalar::minus_one(),
            end_pulse_us: Scalar::minus_one(),
            zero_centered: false,
        }
    }
}

/// The settings of the controller's closed loop.
#[derive(Clone, Copy, Debug, PartialEq, Eq, Structural)]
pub struct ClosedLoopConfig {
    /// The proportional gain.
    pub proportional: Scalar,
    /// The integral gain.
    pub integral: Scalar,
    /// The derivative gain.
    pub derivative: Scalar,
    /// The feedforward gain.
    pub feedforward: Scalar,
    /// The largest integral accumulator; negative while unset.
    pub max_integral: Scalar,
    /// The integral zone; negative while unset.
    pub integral_zone: Scalar,
    /// The smallest output of the controller, between -1 and 1.
    pub min_output: Scalar,
    /// The largest output of the controller, between -1 and 1.
    pub max_output: Scalar,
    pub position_wrapping: bool,
    pub position_wrap_min: Scalar,
    pub position_wrap_max: Scalar,
    pub feedback_sensor: FeedbackSensor,
}

impl ClosedLoopConfig {
    pub open spec fn spec_default() -> Self {
        ClosedLoopConfig {
            proportional: Scalar { bits: 0 },
            integral: Scalar { bits: 0 },
            derivative: Scalar { bits: 0 },
            feedforward: Scalar { bits: 0 },
            max_integral: Scalar { bits: 0xbff0_0000_0000_0000 },
            integral_zone: Scalar { bits: 0xbff0_0000_0000_0000 },
            min_output: Scalar { bits: 0xbff0_0000_0000_0000 },
            max_output: Scalar { bits: ONE_MAGNITUDE },
            position_wrapping: false,
            position_wrap_min: Scalar { bits: 0xbff0_0000_0000_0000 },
            position_wrap_max: Scalar { bits: 0xbff0_0000_0000_0000 },
            feedback_sensor: FeedbackSensor::RelativeEncoder,
        }
    }

    /// Sets the smallest output of the controller.
    pub fn min_output(self, value: Scalar) -> (config: Self)
        requires
            value.spec_is_normalized(),
        ensures
            config == (ClosedLoopConfig { min_output: value, ..self }),
    {
        ClosedLoopConfig { min_output: value, ..self }
    }

    /// Sets the largest output of the controller.
    pub fn max_output(self, value: Scalar) -> (config: Self)
        requires
            value.spec_is_normalized(),
        ensures
            config == (ClosedLoopConfig { max_output: value, ..self }),
    {
        ClosedLoopConfig { max_output: value, ..self }
    }

    /// Switches position wrapping on, between `min` and `max`.
    pub fn position_wrap(self, min: Scalar, max: Scalar) -> (config: Self)
        ensures
            config == (ClosedLoopConfig {
                position_wrap_min: min,
                position_wrap_max: max,
                position_wrapping: true,
                ..self
            }),
    {
        ClosedLoopConfig {
            position_wrap_min: min,
            position_wrap_max: max,
            position_wrapping: true,
            ..self
        }
    }

    /// Sets the three gains of the controller.
    pub fn pid(self, p: Scalar, i: Scalar, d: Scalar) -> (config: Self)
        ensures
            config == (ClosedLoopConfig { proportional: p, integral: i, derivative: d, ..self }),
    {
        ClosedLoopConfig { proportional: p, integral: i, derivative: d, ..self }
    }

    /// Sets the three gains and the feedforward gain of the controller.
    pub fn pidf(self, p: Scalar, i: Scalar, d: Scalar, ff: Scalar) -> (config: Self)
        ensures
            config == (ClosedLoopConfig {
                proportional: p,
                integral: i,
                derivative: d,
                feedforward: ff,
                ..self
            }),
    {
        ClosedLoopConfig { proportional: p, integral: i, derivative: d, feedforward: ff, ..self }
    }
}

impl Default for ClosedLoopConfig {
    fn default() -> (config: Self)
        ensures
            config == ClosedLoopConfig::spec_default(),
    {
        ClosedLoopConfig {
            proportional: Scalar::zero(),
            integral: Scalar::zero(),
            derivative: Scalar::zero(),
            feedforward: Scalar::zero(),
            max_integral: Scalar::minus_one(),
            integral_zone: Scalar::minus_one(),
            min_output: Scalar::minus_one(),
            max_output: Scalar::one(),
            position_wrapping: false,
            position_wrap_min: Scalar::minus_one(),
            position_wrap_max: Scalar::minus_one(),
            feedback_sensor: FeedbackSensor::RelativeEncoder,
        }
    }
}

/// The settings of the controller's relative encoder.
#[derive(Clone, Copy, Debug, PartialEq, Eq, Structural)]
pub struct RelativeEncoderConfig {
    /// The counts per revolution of the encoder; for brushed motors only.
    pub counts_per_revolution: u32,
    pub inverted: bool,
    pub position_factor: Scalar,
    pub velocity_factor: Scalar,
    /// The number of samples in the average of velocity readings: a power of
    /// two up to 64, or zero while unset.
    pub quadrature_average_depth: u8,
    /// The position measurement period in milliseconds.
    pub quadrature_measurement_period: u8,
    /// The number of samples in the average of velocity readings: 1, 2, 4 or
    /// 8, or zero while unset.
    pub uvw_average_depth: u8,
    /// The position measurement period in milliseconds, from 8 to 64.
    pub uvw_measurement_period: u8,
}

impl RelativeEncoderConfig {
    pub open spec fn spec_default() -> Self {
        RelativeEncoderConfig {
            counts_per_revolution: 0,
            inverted: false,
            position_factor: Scalar { bits: ONE_MAGNITUDE },
            velocity_factor: Scalar { bits: ONE_MAGNITUDE },
            quadrature_average_depth: 0,
            quadrature_measurement_period: 0,
            uvw_average_depth: 0,
            uvw_measurement_period: 32,
        }
    }

    /// Sets the number of samples in the average of quadrature readings.
    pub fn quadrature_average_depth(self, depth: u8) -> (config: Self)
        requires
            spec_is_sampling_depth(depth, 64),
        ensures
            config == (RelativeEncoderConfig { quadrature_average_depth: depth, ..self }),
    {
        RelativeEncoderConfig { quadrature_average_depth: depth, ..self }
    }

    /// Sets the measurement period to a whole number of milliseconds. Only
    /// the low eight bits of `millis` are kept.
    pub fn quadrature_measurement_period(self, millis: u128) -> (config: Self)
        ensures
            config == (RelativeEncoderConfig {
                quadrature_measurement_period: (millis % 256) as u8,
                ..self
            }),
    {
        let period: u8 = (millis % 256) as u8;
        RelativeEncoderConfig { quadrature_measurement_period: period, ..self }
    }

    /// Sets the number of samples in the average of hall sensor readings.
    pub fn uvw_average_depth(self, depth: u8) -> (config: Self)
        requires
            spec_is_sampling_depth(depth, 8),
        ensures
            config == (RelativeEncoderConfig { uvw_average_depth: depth, ..self }),
    {
        RelativeEncoderConfig { uvw_average_depth: depth, ..self }
    }

    /// Sets the measurement period to a whole number of milliseconds.
    pub fn uvw_measurement_period(self, millis: u128) -> (config: Self)
        requires
            8 <= millis <= 64,
        ensures
            config == (RelativeEncoderConfig { uvw_measurement_period: millis as u8, ..self }),
    {
        let period: u8 = millis as u8;
        RelativeEncoderConfig { uvw_measurement_period: period, ..self }
    }
}

impl Default for RelativeEncoderConfig {
    fn default() -> (config: Self)
        ensures
            config == RelativeEncoderConfig::spec_default(),
    {
        RelativeEncoderConfig {
            counts_per_revolution: 0,
            inverted: false,
            position_factor: Scalar::one(),
            velocity_factor: Scalar::one(),
            quadrature_average_depth: 0,
            quadrature_measurement_period: 0,
            uvw_average_depth: 0,
            uvw_measurement_period: 32,
        }
    }
}

/// The settings of the motor itself.
#[derive(Clone, Copy, Debug, PartialEq, Eq, Structural)]
pub struct MotorConfig {
    pub motor_type: MotorType,
    pub idle_mode: IdleMode,
    /// The number of the leader while following; zero otherwise.
    pub leader_id: u8,
    pub inverted: bool,
    /// The current limit in ampere.
    pub current_limit: Scalar,
    /// The nominal voltage in volt, for voltage compensation.
    pub nominal_voltage: Scalar,
}

impl MotorConfig {
    /// The configuration of a motor of the given type that brakes when idle
    /// and follows no leader.
    pub fn new(motor_type: MotorType) -> (config: Self)
        ensures
            config == (MotorConfig {
                motor_type,
                idle_mode: IdleMode::Brake,
                leader_id: 0,
                inverted: false,
                current_limit: Scalar { bits: 0 },
                nominal_voltage: Scalar { bits: 0 },
            }),
    {
        MotorConfig {
            motor_type,
            idle_mode: IdleMode::Brake,
            leader_id: 0,
            inverted: false,
            current_limit: Scalar::zero(),
            nominal_voltage: Scalar::zero(),
        }
    }

    /// Follows the output of the motor controller with the given number.
    pub fn follow_id(self, leader_id: u8, inverted: bool) -> (config: Self)
        ensures
            config == (MotorConfig { leader_id, inverted, ..self }),
    {
        MotorConfig { leader_id, inverted, ..self }
    }

    /// Follows the output of another motor controller.
    pub fn follow_spark(self, leader: &SparkMax, inverted: bool) -> (config: Self)
        ensures
            config == (MotorConfig { leader_id: leader.spec_can_id(), inverted, ..self }),
    {
        MotorConfig { leader_id: leader.can_id(), inverted, ..self }
    }

    /// Sets the current limit, in ampere.
    pub fn current_limit(self, current: Scalar) -> (config: Self)
        ensures
            config == (MotorConfig { current_limit: current, ..self }),
    {
        MotorConfig { current_limit: current, ..self }
    }

    /// Sets the nominal voltage, in volt.
    pub fn nominal_voltage(self, voltage: Scalar) -> (config: Self)
        ensures
            config == (MotorConfig { nominal_voltage: voltage, ..self }),
    {
        MotorConfig { nominal_voltage: voltage, ..self }
    }
}

/// Everything a motor controller is created with.
#[derive(Clone, Copy, Debug, PartialEq, Eq, Structural)]
pub struct SparkMaxConfig {
    pub absolute_encoder: AbsoluteEncoderConfig,
    pub closed_loop: ClosedLoopConfig,
    pub relative_encoder: RelativeEncoderConfig,
    pub motor: MotorConfig,
}

/// The items of this module that cross the host boundary.
pub open spec fn boundary_symbols() -> Seq<Symbol> {
    seq![
        Symbol::FeedbackSensor,
        Symbol::MotorType,
        Symbol::AbsoluteEncoderConfig,
        Symbol::ClosedLoopConfig,
        Symbol::RelativeEncoderConfig,
        Symbol::SparkMaxConfig,
    ]
}

/// Registers the items of this module, behind all that `builder` holds.
pub fn __ffi_inventory(builder: InventoryBuilder) -> (inventory: InventoryBuilder)
    ensures
        inventory@ == builder@ + boundary_symbols(),
{
    builder.register(Symbol::FeedbackSensor).register(Symbol::MotorType).register(
        Symbol::AbsoluteEncoderConfig,
    ).register(Symbol::ClosedLoopConfig).register(Symbol::RelativeEncoderConfig).register(
        Symbol::SparkMaxConfig,
    )
}

} // verus!
