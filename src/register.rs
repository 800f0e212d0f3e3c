//! The closed vocabulary of control-table registers.

use vstd::prelude::*;

verus! {

/// Number of registers in the vocabulary.
pub const REGISTER_COUNT: usize = 89;

/// Address and byte length of one register in a control table.
#[derive(Clone, Copy, Debug, PartialEq, Eq, Hash, Structural)]
pub struct RegisterData {
    /// The address of the register.
    pub address: u16,
    /// The number of bytes in the register.
    pub length: u16,
}

/// A register name from the fixed vocabulary shared by all models.
#[derive(Clone, Copy, Debug, PartialEq, Eq, Hash, PartialOrd, Ord, Structural)]
pub enum Register {
    ModelNumber,
    ModelInformation,
    FirmwareVersion,
    Id,
    BaudRate,
    ReturnDelayTime,
    DriveMode,
    OperatingMode,
    SecondaryId,
    ProtocolType,
    ProtocolVersion,
    HomingOffset,
    MovingThreshold,
    TemperatureLimit,
    MotorTemperatureLimit,
    InverterTemperatureLimit,
    MaxVoltageLimit,
    MinVoltageLimit,
    PwmLimit,
    CurrentLimit,
    AccelerationLimit,
    VelocityLimit,
    MaxPositionLimit,
    MinPositionLimit,
    PositionLimitThreshold,
    StartupConfiguration,
    Shutdown,
    TorqueEnable,
    Led,
    StatusReturnLevel,
    RegisteredInstruction,
    HardwareErrorStatus,
    VelocityIGain,
    VelocityPGain,
    PositionDGain,
    PositionIGain,
    PositionPGain,
    Feedforward2NdGain,
    Feedforward1StGain,
    BusWatchdog,
    GoalPwm,
    GoalCurrent,
    GoalVelocity,
    ProfileAcceleration,
    ProfileVelocity,
    GoalPosition,
    RealtimeTick,
    Moving,
    MovingStatus,
    PresentPwm,
    PresentCurrent,
    PresentLoad,
    PresentVelocity,
    PresentPosition,
    VelocityTrajectory,
    PositionTrajectory,
    PresentInputVoltage,
    PresentTemperature,
    PresentMotorTemperature,
    PresentInverterTemperature,
    BackupReady,
    InPositionThreshold,
    FollowingErrorThreshold,
    ElectronicGearRatioNumerator,
    ElectronicGearRatioDenominator,
    SafeStopTime,
    BrakeDelay,
    GoalUpdateDelay,
    OverexcitationVoltage,
    NormalExcitationVoltage,
    OverexcitationTime,
    NotchFilterFrequency,
    NotchFilterBandwidth,
    NotchFilterDepth,
    PresentVelocityLpfFrequency,
    GoalCurrentLpfFrequency,
    PositionFfLpfTime,
    VelocityFfLpfTime,
    ControllerState,
    ErrorCode,
    HybridSave,
    GainSave,
    VelocityFfGain,
    PositionFfGain,
    ProfileAccelerationTime,
    ProfileTime,
    PwmOffset,
    CurrentOffset,
    VelocityOffset,
}

impl Register {
    /// Position of the register in the vocabulary.
    pub open spec fn spec_index(self) -> nat {
        match self {
            Register::ModelNumber => 0,
            Register::ModelInformation => 1,
            Register::FirmwareVersion => 2,
            Register::Id => 3,
            Register::BaudRate => 4,
            Register::ReturnDelayTime => 5,
            Register::DriveMode => 6,
            Register::OperatingMode => 7,
            Register::SecondaryId => 8,
            Register::ProtocolType => 9,
            Register::ProtocolVersion => 10,
            Register::HomingOffset => 11,
            Register::MovingThreshold => 12,
            Register::TemperatureLimit => 13,
            Register::MotorTemperatureLimit => 14,
            Register::InverterTemperatureLimit => 15,
            Register::MaxVoltageLimit => 16,
            Register::MinVoltageLimit => 17,
            Register::PwmLimit => 18,
            Register::CurrentLimit => 19,
            Register::AccelerationLimit => 20,
            Register::VelocityLimit => 21,
            Register::MaxPositionLimit => 22,
            Register::MinPositionLimit => 23,
            Register::PositionLimitThreshold => 24,
            Register::StartupConfiguration => 25,
            Register::Shutdown => 26,
            Register::TorqueEnable => 27,
            Register::Led => 28,
            Register::StatusReturnLevel => 29,
            Register::RegisteredInstruction => 30,
            Register::HardwareErrorStatus => 31,
            Register::VelocityIGain => 32,
            Register::VelocityPGain => 33,
            Register::PositionDGain => 34,
            Register::PositionIGain => 35,
            Register::PositionPGain => 36,
            Register::Feedforward2NdGain => 37,
            Register::Feedforward1StGain => 38,
            Register::BusWatchdog => 39,
            Register::GoalPwm => 40,
            Register::GoalCurrent => 41,
            Register::GoalVelocity => 42,
            Register::ProfileAcceleration => 43,
            Register::ProfileVelocity => 44,
            Register::GoalPosition => 45,
            Register::RealtimeTick => 46,
            Register::Moving => 47,
            Register::MovingStatus => 48,
            Register::PresentPwm => 49,
            Register::PresentCurrent => 50,
            Register::PresentLoad => 51,
            Register::PresentVelocity => 52,
            Register::PresentPosition => 53,
            Register::VelocityTrajectory => 54,
            Register::PositionTrajectory => 55,
            Register::PresentInputVoltage => 56,
            Register::PresentTemperature => 57,
            Register::PresentMotorTemperature => 58,
            Register::PresentInverterTemperature => 59,
            Register::BackupReady => 60,
            Register::InPositionThreshold => 61,
            Register::FollowingErrorThreshold => 62,
            Register::ElectronicGearRatioNumerator => 63,
            Register::ElectronicGearRatioDenominator => 64,
            Register::SafeStopTime => 65,
            Register::BrakeDelay => 66,
            Register::GoalUpdateDelay => 67,
            Register::OverexcitationVoltage => 68,
            Register::NormalExcitationVoltage => 69,
            Register::OverexcitationTime => 70,
            Register::NotchFilterFrequency => 71,
            Register::NotchFilterBandwidth => 72,
            Register::NotchFilterDepth => 73,
            Register::PresentVelocityLpfFrequency => 74,
            Register::GoalCurrentLpfFrequency => 75,
            Register::PositionFfLpfTime => 76,
            Register::VelocityFfLpfTime => 77,
            Register::ControllerState => 78,
            Register::ErrorCode => 79,
            Register::HybridSave => 80,
            Register::GainSave => 81,
            Register::VelocityFfGain => 82,
            Register::PositionFfGain => 83,
            Register::ProfileAccelerationTime => 84,
            Register::ProfileTime => 85,
            Register::PwmOffset => 86,
            Register::CurrentOffset => 87,
            Register::VelocityOffset => 88,
        }
    }

    /// The register at position `i` of the vocabulary.
    pub open spec fn spec_at(i: nat) -> Register {
        if i == 0 {
            Register::ModelNumber
        } else         if i == 1 {
            Register::ModelInformation
        } else         if i == 2 {
            Register::FirmwareVersion
        } else         if i == 3 {
            Register::Id
        } else         if i == 4 {
            Register::BaudRate
        } else         if i == 5 {
            Register::ReturnDelayTime
        } else         if i == 6 {
            Register::DriveMode
        } else         if i == 7 {
            Register::OperatingMode
        } else         if i == 8 {
            Register::SecondaryId
        } else         if i == 9 {
            Register::ProtocolType
        } else         if i == 10 {
            Register::ProtocolVersion
        } else         if i == 11 {
            Register::HomingOffset
        } else         if i == 12 {
            Register::MovingThreshold
        } else         if i == 13 {
            Register::TemperatureLimit
        } else         if i == 14 {
            Register::MotorTemperatureLimit
        } else         if i == 15 {
            Register::InverterTemperatureLimit
        } else         if i == 16 {
            Register::MaxVoltageLimit
        } else         if i == 17 {
            Register::MinVoltageLimit
        } else         if i == 18 {
            Register::PwmLimit
        } else         if i == 19 {
            Register::CurrentLimit
        } else         if i == 20 {
            Register::AccelerationLimit
        } else         if i == 21 {
            Register::VelocityLimit
        } else         if i == 22 {
            Register::MaxPositionLimit
        } else         if i == 23 {
            Register::MinPositionLimit
        } else         if i == 24 {
            Register::PositionLimitThreshold
        } else         if i == 25 {
            Register::StartupConfiguration
        } else         if i == 26 {
            Register::Shutdown
        } else         if i == 27 {
            Register::TorqueEnable
        } else         if i == 28 {
            Register::Led
        } else         if i == 29 {
            Register::StatusReturnLevel
        } else         if i == 30 {
            Register::RegisteredInstruction
        } else         if i == 31 {
            Register::HardwareErrorStatus
        } else         if i == 32 {
            Register::VelocityIGain
        } else         if i == 33 {
            Register::VelocityPGain
        } else         if i == 34 {
            Register::PositionDGain
        } else         if i == 35 {
            Register::PositionIGain
        } else         if i == 36 {
            Register::PositionPGain
        } else         if i == 37 {
            Register::Feedforward2NdGain
        } else         if i == 38 {
            Register::Feedforward1StGain
        } else         if i == 39 {
            Register::BusWatchdog
        } else         if i == 40 {
            Register::GoalPwm
        } else         if i == 41 {
            Register::GoalCurrent
        } else         if i == 42 {
            Register::GoalVelocity
        } else         if i == 43 {
            Register::ProfileAcceleration
        } else         if i == 44 {
            Register::ProfileVelocity
        } else         if i == 45 {
            Register::GoalPosition
        } else         if i == 46 {
            Register::RealtimeTick
        } else         if i == 47 {
            Register::Moving
        } else         if i == 48 {
            Register::MovingStatus
        } else         if i == 49 {
            Register::PresentPwm
        } else         if i == 50 {
            Register::PresentCurrent
        } else         if i == 51 {
            Register::PresentLoad
        } else         if i == 52 {
            Register::PresentVelocity
        } else         if i == 53 {
            Register::PresentPosition
        } else         if i == 54 {
            Register::VelocityTrajectory
        } else         if i == 55 {
            Register::PositionTrajectory
        } else         if i == 56 {
            Register::PresentInputVoltage
        } else         if i == 57 {
            Register::PresentTemperature
        } else         if i == 58 {
            Register::PresentMotorTemperature
        } else         if i == 59 {
            Register::PresentInverterTemperature
        } else         if i == 60 {
            Register::BackupReady
        } else         if i == 61 {
            Register::InPositionThreshold
        } else         if i == 62 {
            Register::FollowingErrorThreshold
        } else         if i == 63 {
            Register::ElectronicGearRatioNumerator
        } else         if i == 64 {
            Register::ElectronicGearRatioDenominator
        } else         if i == 65 {
            Register::SafeStopTime
        } else         if i == 66 {
            Register::BrakeDelay
        } else         if i == 67 {
            Register::GoalUpdateDelay
        } else         if i == 68 {
            Register::OverexcitationVoltage
        } else         if i == 69 {
            Register::NormalExcitationVoltage
        } else         if i == 70 {
            Register::OverexcitationTime
        } else         if i == 71 {
            Register::NotchFilterFrequency
        } else         if i == 72 {
            Register::NotchFilterBandwidth
        } else         if i == 73 {
            Register::NotchFilterDepth
        } else         if i == 74 {
            Register::PresentVelocityLpfFrequency
        } else         if i == 75 {
            Register::GoalCurrentLpfFrequency
        } else         if i == 76 {
            Register::PositionFfLpfTime
        } else         if i == 77 {
            Register::VelocityFfLpfTime
        } else         if i == 78 {
            Register::ControllerState
        } else         if i == 79 {
            Register::ErrorCode
        } else         if i == 80 {
            Register::HybridSave
        } else         if i == 81 {
            Register::GainSave
        } else         if i == 82 {
            Register::VelocityFfGain
        } else         if i == 83 {
            Register::PositionFfGain
        } else         if i == 84 {
            Register::ProfileAccelerationTime
        } else         if i == 85 {
            Register::ProfileTime
        } else         if i == 86 {
            Register::PwmOffset
        } else         if i == 87 {
            Register::CurrentOffset
        } else {
            Register::VelocityOffset
        }
    }

    /// The register's name, in the casing used by the vocabulary.
    pub open spec fn spec_name(self) -> Seq<char> {
        match self {
            Register::ModelNumber => "ModelNumber"@,
            Register::ModelInformation => "ModelInformation"@,
            Register::FirmwareVersion => "FirmwareVersion"@,
            Register::Id => "Id"@,
            Register::BaudRate => "BaudRate"@,
            Register::ReturnDelayTime => "ReturnDelayTime"@,
            Register::DriveMode => "DriveMode"@,
            Register::OperatingMode => "OperatingMode"@,
            Register::SecondaryId => "SecondaryId"@,
            Register::ProtocolType => "ProtocolType"@,
            Register::ProtocolVersion => "ProtocolVersion"@,
            Register::HomingOffset => "HomingOffset"@,
            Register::MovingThreshold => "MovingThreshold"@,
            Register::TemperatureLimit => "TemperatureLimit"@,
            Register::MotorTemperatureLimit => "MotorTemperatureLimit"@,
            Register::InverterTemperatureLimit => "InverterTemperatureLimit"@,
            Register::MaxVoltageLimit => "MaxVoltageLimit"@,
            Register::MinVoltageLimit => "MinVoltageLimit"@,
            Register::PwmLimit => "PwmLimit"@,
            Register::CurrentLimit => "CurrentLimit"@,
            Register::AccelerationLimit => "AccelerationLimit"@,
            Register::VelocityLimit => "VelocityLimit"@,
            Register::MaxPositionLimit => "MaxPositionLimit"@,
            Register::MinPositionLimit => "MinPositionLimit"@,
            Register::PositionLimitThreshold => "PositionLimitThreshold"@,
            Register::StartupConfiguration => "StartupConfiguration"@,
            Register::Shutdown => "Shutdown"@,
            Register::TorqueEnable => "TorqueEnable"@,
            Register::Led => "Led"@,
            Register::StatusReturnLevel => "StatusReturnLevel"@,
            Register::RegisteredInstruction => "RegisteredInstruction"@,
            Register::HardwareErrorStatus => "HardwareErrorStatus"@,
            Register::VelocityIGain => "VelocityIGain"@,
            Register::VelocityPGain => "VelocityPGain"@,
            Register::PositionDGain => "PositionDGain"@,
            Register::PositionIGain => "PositionIGain"@,
            Register::PositionPGain => "PositionPGain"@,
            Register::Feedforward2NdGain => "Feedforward2NdGain"@,
            Register::Feedforward1StGain => "Feedforward1StGain"@,
            Register::BusWatchdog => "BusWatchdog"@,
            Register::GoalPwm => "GoalPwm"@,
            Register::GoalCurrent => "GoalCurrent"@,
            Register::GoalVelocity => "GoalVelocity"@,
            Register::ProfileAcceleration => "ProfileAcceleration"@,
            Register::ProfileVelocity => "ProfileVelocity"@,
            Register::GoalPosition => "GoalPosition"@,
            Register::RealtimeTick => "RealtimeTick"@,
            Register::Moving => "Moving"@,
            Register::MovingStatus => "MovingStatus"@,
            Register::PresentPwm => "PresentPwm"@,
            Register::PresentCurrent => "PresentCurrent"@,
            Register::PresentLoad => "PresentLoad"@,
            Register::PresentVelocity => "PresentVelocity"@,
            Register::PresentPosition => "PresentPosition"@,
            Register::VelocityTrajectory => "VelocityTrajectory"@,
            Register::PositionTrajectory => "PositionTrajectory"@,
            Register::PresentInputVoltage => "PresentInputVoltage"@,
            Register::PresentTemperature => "PresentTemperature"@,
            Register::PresentMotorTemperature => "PresentMotorTemperature"@,
            Register::PresentInverterTemperature => "PresentInverterTemperature"@,
            Register::BackupReady => "BackupReady"@,
            Register::InPositionThreshold => "InPositionThreshold"@,
            Register::FollowingErrorThreshold => "FollowingErrorThreshold"@,
            Register::ElectronicGearRatioNumerator => "ElectronicGearRatioNumerator"@,
            Register::ElectronicGearRatioDenominator => "ElectronicGearRatioDenominator"@,
            Register::SafeStopTime => "SafeStopTime"@,
            Register::BrakeDelay => "BrakeDelay"@,
            Register::GoalUpdateDelay => "GoalUpdateDelay"@,
            Register::OverexcitationVoltage => "OverexcitationVoltage"@,
            Register::NormalExcitationVoltage => "NormalExcitationVoltage"@,
            Register::OverexcitationTime => "OverexcitationTime"@,
            Register::NotchFilterFrequency => "NotchFilterFrequency"@,
            Register::NotchFilterBandwidth => "NotchFilterBandwidth"@,
            Register::NotchFilterDepth => "NotchFilterDepth"@,
            Register::PresentVelocityLpfFrequency => "PresentVelocityLpfFrequency"@,
            Register::GoalCurrentLpfFrequency => "GoalCurrentLpfFrequency"@,
            Register::PositionFfLpfTime => "PositionFfLpfTime"@,
            Register::VelocityFfLpfTime => "VelocityFfLpfTime"@,
            Register::ControllerState => "ControllerState"@,
            Register::ErrorCode => "ErrorCode"@,
            Register::HybridSave => "HybridSave"@,
            Register::GainSave => "GainSave"@,
            Register::VelocityFfGain => "VelocityFfGain"@,
            Register::PositionFfGain => "PositionFfGain"@,
            Register::ProfileAccelerationTime => "ProfileAccelerationTime"@,
            Register::ProfileTime => "ProfileTime"@,
            Register::PwmOffset => "PwmOffset"@,
            Register::CurrentOffset => "CurrentOffset"@,
            Register::VelocityOffset => "VelocityOffset"@,
        }
    }

    /// Position of the register in the vocabulary.
    pub fn index(&self) -> (r: usize)
        ensures
            r == self.spec_index(),
            r < REGISTER_COUNT,
    {
        match self {
            Register::ModelNumber => 0,
            Register::ModelInformation => 1,
            Register::FirmwareVersion => 2,
            Register::Id => 3,
            Register::BaudRate => 4,
            Register::ReturnDelayTime => 5,
            Register::DriveMode => 6,
            Register::OperatingMode => 7,
            Register::SecondaryId => 8,
            Register::ProtocolType => 9,
            Register::ProtocolVersion => 10,
            Register::HomingOffset => 11,
            Register::MovingThreshold => 12,
            Register::TemperatureLimit => 13,
            Register::MotorTemperatureLimit => 14,
            Register::InverterTemperatureLimit => 15,
            Register::MaxVoltageLimit => 16,
            Register::MinVoltageLimit => 17,
            Register::PwmLimit => 18,
            Register::CurrentLimit => 19,
            Register::AccelerationLimit => 20,
            Register::VelocityLimit => 21,
            Register::MaxPositionLimit => 22,
            Register::MinPositionLimit => 23,
            Register::PositionLimitThreshold => 24,
            Register::StartupConfiguration => 25,
            Register::Shutdown => 26,
            Register::TorqueEnable => 27,
            Register::Led => 28,
            Register::StatusReturnLevel => 29,
            Register::RegisteredInstruction => 30,
            Register::HardwareErrorStatus => 31,
            Register::VelocityIGain => 32,
            Register::VelocityPGain => 33,
            Register::PositionDGain => 34,
            Register::PositionIGain => 35,
            Register::PositionPGain => 36,
            Register::Feedforward2NdGain => 37,
            Register::Feedforward1StGain => 38,
            Register::BusWatchdog => 39,
            Register::GoalPwm => 40,
            Register::GoalCurrent => 41,
            Register::GoalVelocity => 42,
            Register::ProfileAcceleration => 43,
            Register::ProfileVelocity => 44,
            Register::GoalPosition => 45,
            Register::RealtimeTick => 46,
            Register::Moving => 47,
            Register::MovingStatus => 48,
            Register::PresentPwm => 49,
            Register::PresentCurrent => 50,
            Register::PresentLoad => 51,
            Register::PresentVelocity => 52,
            Register::PresentPosition => 53,
            Register::VelocityTrajectory => 54,
            Register::PositionTrajectory => 55,
            Register::PresentInputVoltage => 56,
            Register::PresentTemperature => 57,
            Register::PresentMotorTemperature => 58,
            Register::PresentInverterTemperature => 59,
            Register::BackupReady => 60,
            Register::InPositionThreshold => 61,
            Register::FollowingErrorThreshold => 62,
            Register::ElectronicGearRatioNumerator => 63,
            Register::ElectronicGearRatioDenominator => 64,
            Register::SafeStopTime => 65,
            Register::BrakeDelay => 66,
            Register::GoalUpdateDelay => 67,
            Register::OverexcitationVoltage => 68,
            Register::NormalExcitationVoltage => 69,
            Register::OverexcitationTime => 70,
            Register::NotchFilterFrequency => 71,
            Register::NotchFilterBandwidth => 72,
            Register::NotchFilterDepth => 73,
            Register::PresentVelocityLpfFrequency => 74,
            Register::GoalCurrentLpfFrequency => 75,
            Register::PositionFfLpfTime => 76,
            Register::VelocityFfLpfTime => 77,
            Register::ControllerState => 78,
            Register::ErrorCode => 79,
            Register::HybridSave => 80,
            Register::GainSave => 81,
            Register::VelocityFfGain => 82,
            Register::PositionFfGain => 83,
            Register::ProfileAccelerationTime => 84,
            Register::ProfileTime => 85,
            Register::PwmOffset => 86,
            Register::CurrentOffset => 87,
            Register::VelocityOffset => 88,
        }
    }

    /// The register at position `i` of the vocabulary.
    pub fn at(i: usize) -> (r: Register)
        requires
            i < REGISTER_COUNT,
        ensures
            r == Register::spec_at(i as nat),
            r.spec_index() == i,
    {
        match i {
            0 => Register::ModelNumber,
            1 => Register::ModelInformation,
            2 => Register::FirmwareVersion,
            3 => Register::Id,
            4 => Register::BaudRate,
            5 => Register::ReturnDelayTime,
            6 => Register::DriveMode,
            7 => Register::OperatingMode,
            8 => Register::SecondaryId,
            9 => Register::ProtocolType,
            10 => Register::ProtocolVersion,
            11 => Register::HomingOffset,
            12 => Register::MovingThreshold,
            13 => Register::TemperatureLimit,
            14 => Register::MotorTemperatureLimit,
            15 => Register::InverterTemperatureLimit,
            16 => Register::MaxVoltageLimit,
            17 => Register::MinVoltageLimit,
            18 => Register::PwmLimit,
            19 => Register::CurrentLimit,
            20 => Register::AccelerationLimit,
            21 => Register::VelocityLimit,
            22 => Register::MaxPositionLimit,
            23 => Register::MinPositionLimit,
            24 => Register::PositionLimitThreshold,
            25 => Register::StartupConfiguration,
            26 => Register::Shutdown,
            27 => Register::TorqueEnable,
            28 => Register::Led,
            29 => Register::StatusReturnLevel,
            30 => Register::RegisteredInstruction,
            31 => Register::HardwareErrorStatus,
            32 => Register::VelocityIGain,
            33 => Register::VelocityPGain,
            34 => Register::PositionDGain,
            35 => Register::PositionIGain,
            36 => Register::PositionPGain,
            37 => Register::Feedforward2NdGain,
            38 => Register::Feedforward1StGain,
            39 => Register::BusWatchdog,
            40 => Register::GoalPwm,
            41 => Register::GoalCurrent,
            42 => Register::GoalVelocity,
            43 => Register::ProfileAcceleration,
            44 => Register::ProfileVelocity,
            45 => Register::GoalPosition,
            46 => Register::RealtimeTick,
            47 => Register::Moving,
            48 => Register::MovingStatus,
            49 => Register::PresentPwm,
            50 => Register::PresentCurrent,
            51 => Register::PresentLoad,
            52 => Register::PresentVelocity,
            53 => Register::PresentPosition,
            54 => Register::VelocityTrajectory,
            55 => Register::PositionTrajectory,
            56 => Register::PresentInputVoltage,
            57 => Register::PresentTemperature,
            58 => Register::PresentMotorTemperature,
            59 => Register::PresentInverterTemperature,
            60 => Register::BackupReady,
            61 => Register::InPositionThreshold,
            62 => Register::FollowingErrorThreshold,
            63 => Register::ElectronicGearRatioNumerator,
            64 => Register::ElectronicGearRatioDenominator,
            65 => Register::SafeStopTime,
            66 => Register::BrakeDelay,
            67 => Register::GoalUpdateDelay,
            68 => Register::OverexcitationVoltage,
            69 => Register::NormalExcitationVoltage,
            70 => Register::OverexcitationTime,
            71 => Register::NotchFilterFrequency,
            72 => Register::NotchFilterBandwidth,
            73 => Register::NotchFilterDepth,
            74 => Register::PresentVelocityLpfFrequency,
            75 => Register::GoalCurrentLpfFrequency,
            76 => Register::PositionFfLpfTime,
            77 => Register::VelocityFfLpfTime,
            78 => Register::ControllerState,
            79 => Register::ErrorCode,
            80 => Register::HybridSave,
            81 => Register::GainSave,
            82 => Register::VelocityFfGain,
            83 => Register::PositionFfGain,
            84 => Register::ProfileAccelerationTime,
            85 => Register::ProfileTime,
            86 => Register::PwmOffset,
            87 => Register::CurrentOffset,
            _ => Register::VelocityOffset,
        }
    }

    /// The register's name, in the casing used by the vocabulary.
    pub fn name(&self) -> (r: &'static str)
        ensures
            r@ == self.spec_name(),
    {
        match self {
            Register::ModelNumber => "ModelNumber",
            Register::ModelInformation => "ModelInformation",
            Register::FirmwareVersion => "FirmwareVersion",
            Register::Id => "Id",
            Register::BaudRate => "BaudRate",
            Register::ReturnDelayTime => "ReturnDelayTime",
            Register::DriveMode => "DriveMode",
            Register::OperatingMode => "OperatingMode",
            Register::SecondaryId => "SecondaryId",
            Register::ProtocolType => "ProtocolType",
            Register::ProtocolVersion => "ProtocolVersion",
            Register::HomingOffset => "HomingOffset",
            Register::MovingThreshold => "MovingThreshold",
            Register::TemperatureLimit => "TemperatureLimit",
            Register::MotorTemperatureLimit => "MotorTemperatureLimit",
            Register::InverterTemperatureLimit => "InverterTemperatureLimit",
            Register::MaxVoltageLimit => "MaxVoltageLimit",
            Register::MinVoltageLimit => "MinVoltageLimit",
            Register::PwmLimit => "PwmLimit",
            Register::CurrentLimit => "CurrentLimit",
            Register::AccelerationLimit => "AccelerationLimit",
            Register::VelocityLimit => "VelocityLimit",
            Register::MaxPositionLimit => "MaxPositionLimit",
            Register::MinPositionLimit => "MinPositionLimit",
            Register::PositionLimitThreshold => "PositionLimitThreshold",
            Register::StartupConfiguration => "StartupConfiguration",
            Register::Shutdown => "Shutdown",
            Register::TorqueEnable => "TorqueEnable",
            Register::Led => "Led",
            Register::StatusReturnLevel => "StatusReturnLevel",
            Register::RegisteredInstruction => "RegisteredInstruction",
            Register::HardwareErrorStatus => "HardwareErrorStatus",
            Register::VelocityIGain => "VelocityIGain",
            Register::VelocityPGain => "VelocityPGain",
            Register::PositionDGain => "PositionDGain",
            Register::PositionIGain => "PositionIGain",
            Register::PositionPGain => "PositionPGain",
            Register::Feedforward2NdGain => "Feedforward2NdGain",
            Register::Feedforward1StGain => "Feedforward1StGain",
            Register::BusWatchdog => "BusWatchdog",
            Register::GoalPwm => "GoalPwm",
            Register::GoalCurrent => "GoalCurrent",
            Register::GoalVelocity => "GoalVelocity",
            Register::ProfileAcceleration => "ProfileAcceleration",
            Register::ProfileVelocity => "ProfileVelocity",
            Register::GoalPosition => "GoalPosition",
            Register::RealtimeTick => "RealtimeTick",
            Register::Moving => "Moving",
            Register::MovingStatus => "MovingStatus",
            Register::PresentPwm => "PresentPwm",
            Register::PresentCurrent => "PresentCurrent",
            Register::PresentLoad => "PresentLoad",
            Register::PresentVelocity => "PresentVelocity",
            Register::PresentPosition => "PresentPosition",
            Register::VelocityTrajectory => "VelocityTrajectory",
            Register::PositionTrajectory => "PositionTrajectory",
            Register::PresentInputVoltage => "PresentInputVoltage",
            Register::PresentTemperature => "PresentTemperature",
            Register::PresentMotorTemperature => "PresentMotorTemperature",
            Register::PresentInverterTemperature => "PresentInverterTemperature",
            Register::BackupReady => "BackupReady",
            Register::InPositionThreshold => "InPositionThreshold",
            Register::FollowingErrorThreshold => "FollowingErrorThreshold",
            Register::ElectronicGearRatioNumerator => "ElectronicGearRatioNumerator",
            Register::ElectronicGearRatioDenominator => "ElectronicGearRatioDenominator",
            Register::SafeStopTime => "SafeStopTime",
            Register::BrakeDelay => "BrakeDelay",
            Register::GoalUpdateDelay => "GoalUpdateDelay",
            Register::OverexcitationVoltage => "OverexcitationVoltage",
            Register::NormalExcitationVoltage => "NormalExcitationVoltage",
            Register::OverexcitationTime => "OverexcitationTime",
            Register::NotchFilterFrequency => "NotchFilterFrequency",
            Register::NotchFilterBandwidth => "NotchFilterBandwidth",
            Register::NotchFilterDepth => "NotchFilterDepth",
            Register::PresentVelocityLpfFrequency => "PresentVelocityLpfFrequency",
            Register::GoalCurrentLpfFrequency => "GoalCurrentLpfFrequency",
            Register::PositionFfLpfTime => "PositionFfLpfTime",
            Register::VelocityFfLpfTime => "VelocityFfLpfTime",
            Register::ControllerState => "ControllerState",
            Register::ErrorCode => "ErrorCode",
            Register::HybridSave => "HybridSave",
            Register::GainSave => "GainSave",
            Register::VelocityFfGain => "VelocityFfGain",
            Register::PositionFfGain => "PositionFfGain",
            Register::ProfileAccelerationTime => "ProfileAccelerationTime",
            Register::ProfileTime => "ProfileTime",
            Register::PwmOffset => "PwmOffset",
            Register::CurrentOffset => "CurrentOffset",
            Register::VelocityOffset => "VelocityOffset",
        }
    }
}

/// The first register of the vocabulary, from position `i` on, whose name
/// is `s`.
pub open spec fn lookup_register_from(s: Seq<char>, i: nat) -> Option<Register>
    decreases REGISTER_COUNT - i,
{
    if i >= REGISTER_COUNT {
        None
    } else if Register::spec_at(i).spec_name() == s {
        Some(Register::spec_at(i))
    } else {
        lookup_register_from(s, i + 1)
    }
}

/// The register whose name is `s`, if the vocabulary holds one.
pub open spec fn lookup_register(s: Seq<char>) -> Option<Register> {
    lookup_register_from(s, 0)
}

impl Register {
    /// Resolves a name against the vocabulary: the register whose name it
    /// is, or `None` when the vocabulary has no such register.
    pub fn from_name(name: &Vec<char>) -> (r: Option<Register>)
        ensures
            r == lookup_register(name@),
            r matches Some(g) ==> g.spec_name() == name@,
            r is None ==> forall|g: Register| #[trigger] g.spec_name() != name@,
    {
        proof {
            lemma_lookup_register(name@);
        }
        let mut i: usize = 0;
        while i < REGISTER_COUNT
            invariant
                i <= REGISTER_COUNT,
                lookup_register(name@) == lookup_register_from(name@, i as nat),
            decreases REGISTER_COUNT - i,
        {
            let g = Register::at(i);
            let n = crate::text::chars_of(g.name());
            if crate::text::same_chars(&n, name) {
                return Some(g);
            }
            i += 1;
        }
        None
    }
}

/// A resolved name is the name of the register it resolves to, and a name
/// that does not resolve is the name of no register.
pub proof fn lemma_lookup_register(s: Seq<char>)
    ensures
        match lookup_register(s) {
            Some(g) => g.spec_name() == s,
            None => forall|g: Register| #[trigger] g.spec_name() != s,
        },
{
    lemma_lookup_register_from(s, 0);
}

proof fn lemma_lookup_register_from(s: Seq<char>, i: nat)
    ensures
        match lookup_register_from(s, i) {
            Some(g) => g.spec_name() == s,
            None => forall|g: Register| g.spec_index() >= i ==> #[trigger] g.spec_name() != s,
        },
    decreases REGISTER_COUNT - i,
{
    if i < REGISTER_COUNT {
        lemma_lookup_register_from(s, i + 1);
        if lookup_register_from(s, i) is None {
            assert forall|g: Register| g.spec_index() >= i implies #[trigger] g.spec_name() != s by {
                lemma_index_at(g);
            }
        }
    } else {
        assert forall|g: Register| g.spec_index() >= i implies #[trigger] g.spec_name() != s by {
            lemma_index_at(g);
        }
    }
}

/// Every register sits at its own position of the vocabulary.
pub proof fn lemma_index_at(g: Register)
    ensures
        Register::spec_at(g.spec_index()) == g,
        g.spec_index() < REGISTER_COUNT,
{
}

} // verus!
