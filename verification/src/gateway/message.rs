//! The vocabulary of the serial protocol and the typed form of one line of it.

use super::text::{decimal, is_float_text, looks_like_float, parse_u32, push_decimal, read_u32};
use vstd::prelude::*;

verus! {

/// What a sensor is, as a node presents it.
#[derive(Debug, PartialEq, Eq, Clone, Copy, Structural)]
pub enum Sensor {
    Door,
    Motion,
    Smoke,
    Binary,
    Dimmer,
    Cover,
    Temperature,
    Humidity,
    Barometer,
    Wind,
    Rain,
    UV,
    Weight,
    Power,
    Heater,
    Distance,
    LightLevel,
    ArduinoNode,
    ArduinoRepeaterNode,
    Lock,
    IR,
    Water,
    AirQuality,
    Custom,
    Dust,
    SceneController,
    RgbLight,
    RgbwLight,
    ColorSensor,
    HVAC,
    Multimeter,
    Sprinkler,
    WaterLeak,
    Sound,
    Vibration,
    Moisture,
    Info,
    Gas,
    GPS,
    WaterQuality,
}

impl Sensor {
    /// The number that stands for this category on the wire: its place in the
    /// declaration, counted from zero.
    pub open spec fn code(self) -> u32 {
        match self {
            Sensor::Door => 0,
            Sensor::Motion => 1,
            Sensor::Smoke => 2,
            Sensor::Binary => 3,
            Sensor::Dimmer => 4,
            Sensor::Cover => 5,
            Sensor::Temperature => 6,
            Sensor::Humidity => 7,
            Sensor::Barometer => 8,
            Sensor::Wind => 9,
            Sensor::Rain => 10,
            Sensor::UV => 11,
            Sensor::Weight => 12,
            Sensor::Power => 13,
            Sensor::Heater => 14,
            Sensor::Distance => 15,
            Sensor::LightLevel => 16,
            Sensor::ArduinoNode => 17,
            Sensor::ArduinoRepeaterNode => 18,
            Sensor::Lock => 19,
            Sensor::IR => 20,
            Sensor::Water => 21,
            Sensor::AirQuality => 22,
            Sensor::Custom => 23,
            Sensor::Dust => 24,
            Sensor::SceneController => 25,
            Sensor::RgbLight => 26,
            Sensor::RgbwLight => 27,
            Sensor::ColorSensor => 28,
            Sensor::HVAC => 29,
            Sensor::Multimeter => 30,
            Sensor::Sprinkler => 31,
            Sensor::WaterLeak => 32,
            Sensor::Sound => 33,
            Sensor::Vibration => 34,
            Sensor::Moisture => 35,
            Sensor::Info => 36,
            Sensor::Gas => 37,
            Sensor::GPS => 38,
            Sensor::WaterQuality => 39,
        }
    }

    /// The category that `n` stands for, if there is one.
    pub open spec fn of_code(n: u32) -> Option<Sensor> {
        match n {
            0 => Some(Sensor::Door),
            1 => Some(Sensor::Motion),
            2 => Some(Sensor::Smoke),
            3 => Some(Sensor::Binary),
            4 => Some(Sensor::Dimmer),
            5 => Some(Sensor::Cover),
            6 => Some(Sensor::Temperature),
            7 => Some(Sensor::Humidity),
            8 => Some(Sensor::Barometer),
            9 => Some(Sensor::Wind),
            10 => Some(Sensor::Rain),
            11 => Some(Sensor::UV),
            12 => Some(Sensor::Weight),
            13 => Some(Sensor::Power),
            14 => Some(Sensor::Heater),
            15 => Some(Sensor::Distance),
            16 => Some(Sensor::LightLevel),
            17 => Some(Sensor::ArduinoNode),
            18 => Some(Sensor::ArduinoRepeaterNode),
            19 => Some(Sensor::Lock),
            20 => Some(Sensor::IR),
            21 => Some(Sensor::Water),
            22 => Some(Sensor::AirQuality),
            23 => Some(Sensor::Custom),
            24 => Some(Sensor::Dust),
            25 => Some(Sensor::SceneController),
            26 => Some(Sensor::RgbLight),
            27 => Some(Sensor::RgbwLight),
            28 => Some(Sensor::ColorSensor),
            29 => Some(Sensor::HVAC),
            30 => Some(Sensor::Multimeter),
            31 => Some(Sensor::Sprinkler),
            32 => Some(Sensor::WaterLeak),
            33 => Some(Sensor::Sound),
            34 => Some(Sensor::Vibration),
            35 => Some(Sensor::Moisture),
            36 => Some(Sensor::Info),
            37 => Some(Sensor::Gas),
            38 => Some(Sensor::GPS),
            39 => Some(Sensor::WaterQuality),
            _ => None,
        }
    }

    /// Every category is found again from its number, and the numbers in use
    /// are exactly those below 40.
    pub proof fn lemma_codes(n: u32, k: Sensor)
        ensures
            Sensor::of_code(k.code()) == Some(k),
            k.code() < 40,
            Sensor::of_code(n) is Some <==> n < 40,
            Sensor::of_code(n) == Some(k) ==> k.code() == n,
    {
    }

    /// The number of this category.
    pub fn to_u32(self) -> (n: u32)
        ensures
            n == self.code(),
    {
        match self {
            Sensor::Door => 0,
            Sensor::Motion => 1,
            Sensor::Smoke => 2,
            Sensor::Binary => 3,
            Sensor::Dimmer => 4,
            Sensor::Cover => 5,
            Sensor::Temperature => 6,
            Sensor::Humidity => 7,
            Sensor::Barometer => 8,
            Sensor::Wind => 9,
            Sensor::Rain => 10,
            Sensor::UV => 11,
            Sensor::Weight => 12,
            Sensor::Power => 13,
            Sensor::Heater => 14,
            Sensor::Distance => 15,
            Sensor::LightLevel => 16,
            Sensor::ArduinoNode => 17,
            Sensor::ArduinoRepeaterNode => 18,
            Sensor::Lock => 19,
            Sensor::IR => 20,
            Sensor::Water => 21,
            Sensor::AirQuality => 22,
            Sensor::Custom => 23,
            Sensor::Dust => 24,
            Sensor::SceneController => 25,
            Sensor::RgbLight => 26,
            Sensor::RgbwLight => 27,
            Sensor::ColorSensor => 28,
            Sensor::HVAC => 29,
            Sensor::Multimeter => 30,
            Sensor::Sprinkler => 31,
            Sensor::WaterLeak => 32,
            Sensor::Sound => 33,
            Sensor::Vibration => 34,
            Sensor::Moisture => 35,
            Sensor::Info => 36,
            Sensor::Gas => 37,
            Sensor::GPS => 38,
            Sensor::WaterQuality => 39,
        }
    }

    /// The category with the number `n`; `None` where `n` is beyond the last.
    pub fn from_u32(n: u32) -> (r: Option<Sensor>)
        ensures
            r == Sensor::of_code(n),
    {
        match n {
            0 => Some(Sensor::Door),
            1 => Some(Sensor::Motion),
            2 => Some(Sensor::Smoke),
            3 => Some(Sensor::Binary),
            4 => Some(Sensor::Dimmer),
            5 => Some(Sensor::Cover),
            6 => Some(Sensor::Temperature),
            7 => Some(Sensor::Humidity),
            8 => Some(Sensor::Barometer),
            9 => Some(Sensor::Wind),
            10 => Some(Sensor::Rain),
            11 => Some(Sensor::UV),
            12 => Some(Sensor::Weight),
            13 => Some(Sensor::Power),
            14 => Some(Sensor::Heater),
            15 => Some(Sensor::Distance),
            16 => Some(Sensor::LightLevel),
            17 => Some(Sensor::ArduinoNode),
            18 => Some(Sensor::ArduinoRepeaterNode),
            19 => Some(Sensor::Lock),
            20 => Some(Sensor::IR),
            21 => Some(Sensor::Water),
            22 => Some(Sensor::AirQuality),
            23 => Some(Sensor::Custom),
            24 => Some(Sensor::Dust),
            25 => Some(Sensor::SceneController),
            26 => Some(Sensor::RgbLight),
            27 => Some(Sensor::RgbwLight),
            28 => Some(Sensor::ColorSensor),
            29 => Some(Sensor::HVAC),
            30 => Some(Sensor::Multimeter),
            31 => Some(Sensor::Sprinkler),
            32 => Some(Sensor::WaterLeak),
            33 => Some(Sensor::Sound),
            34 => Some(Sensor::Vibration),
            35 => Some(Sensor::Moisture),
            36 => Some(Sensor::Info),
            37 => Some(Sensor::Gas),
            38 => Some(Sensor::GPS),
            39 => Some(Sensor::WaterQuality),
            _ => None,
        }
    }
}

/// What a reading measures.
#[derive(Debug, PartialEq, Eq, Clone, Copy, Structural)]
pub enum Kind {
    Temperature,
    Humidity,
    Status,
    Percentage,
    Pressure,
    WeatherForecast,
    RainAmount,
    RainRate,
    WindSpeed,
    Gust,
    Direction,
    UV,
    Weight,
    Distance,
    Impedance,
    Armed,
    Tripped,
    Watt,
    KWH,
    SceneOn,
    SceneOff,
    HvacFlowState,
    HvacSpeed,
    LightLevel,
    Var1,
    Var2,
    Var3,
    Var4,
    Var5,
    Up,
    Down,
    Stop,
    IrSend,
    IrReceive,
    WaterFlow,
    WaterVolume,
    LockStatus,
    Level,
    Voltage,
    Current,
    RGB,
    RGBW,
    ID,
    UnitPrefix,
    HvacSetpointCool,
    HvacSetpointHeat,
    HvacFlowMode,
    Text,
    Custom,
    Position,
    IrRecord,
    WaterPh,
    WaterOrp,
    WaterEc,
    ReactivePower,
    ApparentPower,
    PowerFactor,
}

impl Kind {
    /// The number that stands for this kind on the wire: its place in the
    /// declaration, counted from zero.
    pub open spec fn code(self) -> u32 {
        match self {
            Kind::Temperature => 0,
            Kind::Humidity => 1,
            Kind::Status => 2,
            Kind::Percentage => 3,
            Kind::Pressure => 4,
            Kind::WeatherForecast => 5,
            Kind::RainAmount => 6,
            Kind::RainRate => 7,
            Kind::WindSpeed => 8,
            Kind::Gust => 9,
            Kind::Direction => 10,
            Kind::UV => 11,
            Kind::Weight => 12,
            Kind::Distance => 13,
            Kind::Impedance => 14,
            Kind::Armed => 15,
            Kind::Tripped => 16,
            Kind::Watt => 17,
            Kind::KWH => 18,
            Kind::SceneOn => 19,
            Kind::SceneOff => 20,
            Kind::HvacFlowState => 21,
            Kind::HvacSpeed => 22,
            Kind::LightLevel => 23,
            Kind::Var1 => 24,
            Kind::Var2 => 25,
            Kind::Var3 => 26,
            Kind::Var4 => 27,
            Kind::Var5 => 28,
            Kind::Up => 29,
            Kind::Down => 30,
            Kind::Stop => 31,
            Kind::IrSend => 32,
            Kind::IrReceive => 33,
            Kind::WaterFlow => 34,
            Kind::WaterVolume => 35,
            Kind::LockStatus => 36,
            Kind::Level => 37,
            Kind::Voltage => 38,
            Kind::Current => 39,
            Kind::RGB => 40,
            Kind::RGBW => 41,
            Kind::ID => 42,
            Kind::UnitPrefix => 43,
            Kind::HvacSetpointCool => 44,
            Kind::HvacSetpointHeat => 45,
            Kind::HvacFlowMode => 46,
            Kind::Text => 47,
            Kind::Custom => 48,
            Kind::Position => 49,
            Kind::IrRecord => 50,
            Kind::WaterPh => 51,
            Kind::WaterOrp => 52,
            Kind::WaterEc => 53,
            Kind::ReactivePower => 54,
            Kind::ApparentPower => 55,
            Kind::PowerFactor => 56,
        }
    }

    /// The kind that `n` stands for, if there is one.
    pub open spec fn of_code(n: u32) -> Option<Kind> {
        match n {
            0 => Some(Kind::Temperature),
            1 => Some(Kind::Humidity),
            2 => Some(Kind::Status),
            3 => Some(Kind::Percentage),
            4 => Some(Kind::Pressure),
            5 => Some(Kind::WeatherForecast),
            6 => Some(Kind::RainAmount),
            7 => Some(Kind::RainRate),
            8 => Some(Kind::WindSpeed),
            9 => Some(Kind::Gust),
            10 => Some(Kind::Direction),
            11 => Some(Kind::UV),
            12 => Some(Kind::Weight),
            13 => Some(Kind::Distance),
            14 => Some(Kind::Impedance),
            15 => Some(Kind::Armed),
            16 => Some(Kind::Tripped),
            17 => Some(Kind::Watt),
            18 => Some(Kind::KWH),
            19 => Some(Kind::SceneOn),
            20 => Some(Kind::SceneOff),
            21 => Some(Kind::HvacFlowState),
            22 => Some(Kind::HvacSpeed),
            23 => Some(Kind::LightLevel),
            24 => Some(Kind::Var1),
            25 => Some(Kind::Var2),
            26 => Some(Kind::Var3),
            27 => Some(Kind::Var4),
            28 => Some(Kind::Var5),
            29 => Some(Kind::Up),
            30 => Some(Kind::Down),
            31 => Some(Kind::Stop),
            32 => Some(Kind::IrSend),
            33 => Some(Kind::IrReceive),
            34 => Some(Kind::WaterFlow),
            35 => Some(Kind::WaterVolume),
            36 => Some(Kind::LockStatus),
            37 => Some(Kind::Level),
            38 => Some(Kind::Voltage),
            39 => Some(Kind::Current),
            40 => Some(Kind::RGB),
            41 => Some(Kind::RGBW),
            42 => Some(Kind::ID),
            43 => Some(Kind::UnitPrefix),
            44 => Some(Kind::HvacSetpointCool),
            45 => Some(Kind::HvacSetpointHeat),
            46 => Some(Kind::HvacFlowMode),
            47 => Some(Kind::Text),
            48 => Some(Kind::Custom),
            49 => Some(Kind::Position),
            50 => Some(Kind::IrRecord),
            51 => Some(Kind::WaterPh),
            52 => Some(Kind::WaterOrp),
            53 => Some(Kind::WaterEc),
            54 => Some(Kind::ReactivePower),
            55 => Some(Kind::ApparentPower),
            56 => Some(Kind::PowerFactor),
            _ => None,
        }
    }

    /// Every kind is found again from its number, and the numbers in use
    /// are exactly those below 57.
    pub proof fn lemma_codes(n: u32, k: Kind)
        ensures
            Kind::of_code(k.code()) == Some(k),
            k.code() < 57,
            Kind::of_code(n) is Some <==> n < 57,
            Kind::of_code(n) == Some(k) ==> k.code() == n,
    {
    }

    /// The number of this kind.
    pub fn to_u32(self) -> (n: u32)
        ensures
            n == self.code(),
    {
        match self {
            Kind::Temperature => 0,
            Kind::Humidity => 1,
            Kind::Status => 2,
            Kind::Percentage => 3,
            Kind::Pressure => 4,
            Kind::WeatherForecast => 5,
            Kind::RainAmount => 6,
            Kind::RainRate => 7,
            Kind::WindSpeed => 8,
            Kind::Gust => 9,
            Kind::Direction => 10,
            Kind::UV => 11,
            Kind::Weight => 12,
            Kind::Distance => 13,
            Kind::Impedance => 14,
            Kind::Armed => 15,
            Kind::Tripped => 16,
            Kind::Watt => 17,
            Kind::KWH => 18,
            Kind::SceneOn => 19,
            Kind::SceneOff => 20,
            Kind::HvacFlowState => 21,
            Kind::HvacSpeed => 22,
            Kind::LightLevel => 23,
            Kind::Var1 => 24,
            Kind::Var2 => 25,
            Kind::Var3 => 26,
            Kind::Var4 => 27,
            Kind::Var5 => 28,
            Kind::Up => 29,
            Kind::Down => 30,
            Kind::Stop => 31,
            Kind::IrSend => 32,
            Kind::IrReceive => 33,
            Kind::WaterFlow => 34,
            Kind::WaterVolume => 35,
            Kind::LockStatus => 36,
            Kind::Level => 37,
            Kind::Voltage => 38,
            Kind::Current => 39,
            Kind::RGB => 40,
            Kind::RGBW => 41,
            Kind::ID => 42,
            Kind::UnitPrefix => 43,
            Kind::HvacSetpointCool => 44,
            Kind::HvacSetpointHeat => 45,
            Kind::HvacFlowMode => 46,
            Kind::Text => 47,
            Kind::Custom => 48,
            Kind::Position => 49,
            Kind::IrRecord => 50,
            Kind::WaterPh => 51,
            Kind::WaterOrp => 52,
            Kind::WaterEc => 53,
            Kind::ReactivePower => 54,
            Kind::ApparentPower => 55,
            Kind::PowerFactor => 56,
        }
    }

    /// The kind with the number `n`; `None` where `n` is beyond the last.
    pub fn from_u32(n: u32) -> (r: Option<Kind>)
        ensures
            r == Kind::of_code(n),
    {
        match n {
            0 => Some(Kind::Temperature),
            1 => Some(Kind::Humidity),
            2 => Some(Kind::Status),
            3 => Some(Kind::Percentage),
            4 => Some(Kind::Pressure),
            5 => Some(Kind::WeatherForecast),
            6 => Some(Kind::RainAmount),
            7 => Some(Kind::RainRate),
            8 => Some(Kind::WindSpeed),
            9 => Some(Kind::Gust),
            10 => Some(Kind::Direction),
            11 => Some(Kind::UV),
            12 => Some(Kind::Weight),
            13 => Some(Kind::Distance),
            14 => Some(Kind::Impedance),
            15 => Some(Kind::Armed),
            16 => Some(Kind::Tripped),
            17 => Some(Kind::Watt),
            18 => Some(Kind::KWH),
            19 => Some(Kind::SceneOn),
            20 => Some(Kind::SceneOff),
            21 => Some(Kind::HvacFlowState),
            22 => Some(Kind::HvacSpeed),
            23 => Some(Kind::LightLevel),
            24 => Some(Kind::Var1),
            25 => Some(Kind::Var2),
            26 => Some(Kind::Var3),
            27 => Some(Kind::Var4),
            28 => Some(Kind::Var5),
            29 => Some(Kind::Up),
            30 => Some(Kind::Down),
            31 => Some(Kind::Stop),
            32 => Some(Kind::IrSend),
            33 => Some(Kind::IrReceive),
            34 => Some(Kind::WaterFlow),
            35 => Some(Kind::WaterVolume),
            36 => Some(Kind::LockStatus),
            37 => Some(Kind::Level),
            38 => Some(Kind::Voltage),
            39 => Some(Kind::Current),
            40 => Some(Kind::RGB),
            41 => Some(Kind::RGBW),
            42 => Some(Kind::ID),
            43 => Some(Kind::UnitPrefix),
            44 => Some(Kind::HvacSetpointCool),
            45 => Some(Kind::HvacSetpointHeat),
            46 => Some(Kind::HvacFlowMode),
            47 => Some(Kind::Text),
            48 => Some(Kind::Custom),
            49 => Some(Kind::Position),
            50 => Some(Kind::IrRecord),
            51 => Some(Kind::WaterPh),
            52 => Some(Kind::WaterOrp),
            53 => Some(Kind::WaterEc),
            54 => Some(Kind::ReactivePower),
            55 => Some(Kind::ApparentPower),
            56 => Some(Kind::PowerFactor),
            _ => None,
        }
    }
}

/// The control messages between the gateway and its nodes.
#[derive(Debug, PartialEq, Eq, Clone, Copy, Structural)]
pub enum Internal {
    BatteryLevel,
    Time,
    Version,
    IdRequest,
    IdResponse,
    InclusionMode,
    Config,
    FindParent,
    FindParentResponse,
    LogMessage,
    Children,
    SketchName,
    SketchVersion,
    Reboot,
    GatewayReady,
    SigningPresentation,
    NonceRequest,
    NonceResponce,
    HeartbeatRequest,
    Presentation,
    DiscoverRequest,
    DiscoverResponse,
    HeartbeatResponse,
    Locked,
    Ping,
    Pong,
    RegistrationRequest,
    RegistrationResponse,
    Debug,
}

impl Internal {
    /// The number that stands for this control code on the wire: its place in the
    /// declaration, counted from zero.
    pub open spec fn code(self) -> u32 {
        match self {
            Internal::BatteryLevel => 0,
            Internal::Time => 1,
            Internal::Version => 2,
            Internal::IdRequest => 3,
            Internal::IdResponse => 4,
            Internal::InclusionMode => 5,
            Internal::Config => 6,
            Internal::FindParent => 7,
            Internal::FindParentResponse => 8,
            Internal::LogMessage => 9,
            Internal::Children => 10,
            Internal::SketchName => 11,
            Internal::SketchVersion => 12,
            Internal::Reboot => 13,
            Internal::GatewayReady => 14,
            Internal::SigningPresentation => 15,
            Internal::NonceRequest => 16,
            Internal::NonceResponce => 17,
            Internal::HeartbeatRequest => 18,
            Internal::Presentation => 19,
            Internal::DiscoverRequest => 20,
            Internal::DiscoverResponse => 21,
            Internal::HeartbeatResponse => 22,
            Internal::Locked => 23,
            Internal::Ping => 24,
            Internal::Pong => 25,
            Internal::RegistrationRequest => 26,
            Internal::RegistrationResponse => 27,
            Internal::Debug => 28,
        }
    }

    /// The control code that `n` stands for, if there is one.
    pub open spec fn of_code(n: u32) -> Option<Internal> {
        match n {
            0 => Some(Internal::BatteryLevel),
            1 => Some(Internal::Time),
            2 => Some(Internal::Version),
            3 => Some(Internal::IdRequest),
            4 => Some(Internal::IdResponse),
            5 => Some(Internal::InclusionMode),
            6 => Some(Internal::Config),
            7 => Some(Internal::FindParent),
            8 => Some(Internal::FindParentResponse),
            9 => Some(Internal::LogMessage),
            10 => Some(Internal::Children),
            11 => Some(Internal::SketchName),
            12 => Some(Internal::SketchVersion),
            13 => Some(Internal::Reboot),
            14 => Some(Internal::GatewayReady),
            15 => Some(Internal::SigningPresentation),
            16 => Some(Internal::NonceRequest),
            17 => Some(Internal::NonceResponce),
            18 => Some(Internal::HeartbeatRequest),
            19 => Some(Internal::Presentation),
            20 => Some(Internal::DiscoverRequest),
            21 => Some(Internal::DiscoverResponse),
            22 => Some(Internal::HeartbeatResponse),
            23 => Some(Internal::Locked),
            24 => Some(Internal::Ping),
            25 => Some(Internal::Pong),
            26 => Some(Internal::RegistrationRequest),
            27 => Some(Internal::RegistrationResponse),
            28 => Some(Internal::Debug),
            _ => None,
        }
    }

    /// Every control code is found again from its number, and the numbers in use
    /// are exactly those below 29.
    pub proof fn lemma_codes(n: u32, k: Internal)
        ensures
            Internal::of_code(k.code()) == Some(k),
            k.code() < 29,
            Internal::of_code(n) is Some <==> n < 29,
            Internal::of_code(n) == Some(k) ==> k.code() == n,
    {
    }

    /// The number of this control code.
    pub fn to_u32(self) -> (n: u32)
        ensures
            n == self.code(),
    {
        match self {
            Internal::BatteryLevel => 0,
            Internal::Time => 1,
            Internal::Version => 2,
            Internal::IdRequest => 3,
            Internal::IdResponse => 4,
            Internal::InclusionMode => 5,
            Internal::Config => 6,
            Internal::FindParent => 7,
            Internal::FindParentResponse => 8,
            Internal::LogMessage => 9,
            Internal::Children => 10,
            Internal::SketchName => 11,
            Internal::SketchVersion => 12,
            Internal::Reboot => 13,
            Internal::GatewayReady => 14,
            Internal::SigningPresentation => 15,
            Internal::NonceRequest => 16,
            Internal::NonceResponce => 17,
            Internal::HeartbeatRequest => 18,
            Internal::Presentation => 19,
            Internal::DiscoverRequest => 20,
            Internal::DiscoverResponse => 21,
            Internal::HeartbeatResponse => 22,
            Internal::Locked => 23,
            Internal::Ping => 24,
            Internal::Pong => 25,
            Internal::RegistrationRequest => 26,
            Internal::RegistrationResponse => 27,
            Internal::Debug => 28,
        }
    }

    /// The control code with the number `n`; `None` where `n` is beyond the last.
    pub fn from_u32(n: u32) -> (r: Option<Internal>)
        ensures
            r == Internal::of_code(n),
    {
        match n {
            0 => Some(Internal::BatteryLevel),
            1 => Some(Internal::Time),
            2 => Some(Internal::Version),
            3 => Some(Internal::IdRequest),
            4 => Some(Internal::IdResponse),
            5 => Some(Internal::InclusionMode),
            6 => Some(Internal::Config),
            7 => Some(Internal::FindParent),
            8 => Some(Internal::FindParentResponse),
            9 => Some(Internal::LogMessage),
            10 => Some(Internal::Children),
            11 => Some(Internal::SketchName),
            12 => Some(Internal::SketchVersion),
            13 => Some(Internal::Reboot),
            14 => Some(Internal::GatewayReady),
            15 => Some(Internal::SigningPresentation),
            16 => Some(Internal::NonceRequest),
            17 => Some(Internal::NonceResponce),
            18 => Some(Internal::HeartbeatRequest),
            19 => Some(Internal::Presentation),
            20 => Some(Internal::DiscoverRequest),
            21 => Some(Internal::DiscoverResponse),
            22 => Some(Internal::HeartbeatResponse),
            23 => Some(Internal::Locked),
            24 => Some(Internal::Ping),
            25 => Some(Internal::Pong),
            26 => Some(Internal::RegistrationRequest),
            27 => Some(Internal::RegistrationResponse),
            28 => Some(Internal::Debug),
            _ => None,
        }
    }
}

/// What a message asks for, with the vocabulary that its type code is read in.
#[derive(Debug, PartialEq, Eq, Clone, Copy, Structural)]
pub enum Command {
    Presentation(Sensor),
    SetValue(Kind),
    Req(Kind),
    Internal(Internal),
    Stream,
}

impl Command {
    /// The command code and the type code of this command. A stream carries
    /// no type and is written with type code 0.
    pub open spec fn codes(self) -> (u32, u32) {
        match self {
            Command::Presentation(typ) => (0, typ.code()),
            Command::SetValue(typ) => (1, typ.code()),
            Command::Req(typ) => (2, typ.code()),
            Command::Internal(typ) => (3, typ.code()),
            Command::Stream => (4, 0),
        }
    }

    /// The command that a command code and a type code stand for. The type
    /// code is read in the vocabulary that the command selects; with a stream
    /// it is not looked at.
    pub open spec fn of_codes(cmd: u32, typ: u32) -> Option<Command> {
        match cmd {
            0 => match Sensor::of_code(typ) {
                Some(t) => Some(Command::Presentation(t)),
                None => None,
            },
            1 => match Kind::of_code(typ) {
                Some(t) => Some(Command::SetValue(t)),
                None => None,
            },
            2 => match Kind::of_code(typ) {
                Some(t) => Some(Command::Req(t)),
                None => None,
            },
            3 => match Internal::of_code(typ) {
                Some(t) => Some(Command::Internal(t)),
                None => None,
            },
            4 => Some(Command::Stream),
            _ => None,
        }
    }

    /// Every command is found again from its two codes.
    pub proof fn lemma_codes_round_trip(self)
        ensures
            Command::of_codes(self.codes().0, self.codes().1) == Some(self),
    {
        match self {
            Command::Presentation(typ) => Sensor::lemma_codes(0, typ),
            Command::SetValue(typ) => Kind::lemma_codes(0, typ),
            Command::Req(typ) => Kind::lemma_codes(0, typ),
            Command::Internal(typ) => Internal::lemma_codes(0, typ),
            Command::Stream => {},
        }
    }

    /// The command that a command code and a type code stand for.
    pub fn decode(ints: (u32, u32)) -> (r: Option<Command>)
        ensures
            r == Command::of_codes(ints.0, ints.1),
    {
        let (cmd, typ) = ints;
        match cmd {
            0 => match Sensor::from_u32(typ) {
                Some(t) => Some(Command::Presentation(t)),
                None => None,
            },
            1 => match Kind::from_u32(typ) {
                Some(t) => Some(Command::SetValue(t)),
                None => None,
            },
            2 => match Kind::from_u32(typ) {
                Some(t) => Some(Command::Req(t)),
                None => None,
            },
            3 => match Internal::from_u32(typ) {
                Some(t) => Some(Command::Internal(t)),
                None => None,
            },
            4 => Some(Command::Stream),
            _ => None,
        }
    }

    /// The command code and the type code of this command.
    pub fn encode(&self) -> (r: (u32, u32))
        ensures
            r == self.codes(),
    {
        match self {
            Command::Presentation(typ) => (0, typ.to_u32()),
            Command::SetValue(typ) => (1, typ.to_u32()),
            Command::Req(typ) => (2, typ.to_u32()),
            Command::Internal(typ) => (3, typ.to_u32()),
            Command::Stream => (4, 0),
        }
    }
}

/// The value that a message carries. A floating-point value is kept as the
/// literal that denotes it, as it came or is to go over the wire; two such
/// values are the same where their literals are.
#[derive(Debug, PartialEq)]
pub enum PayloadType {
    Int(u32),
    Float(String),
    Str(String),
}

/// A payload as a mathematical value.
pub enum PayloadView {
    Int(u32),
    Float(Seq<char>),
    Str(Seq<char>),
}

impl PayloadView {
    /// The text of a string payload; empty for a number.
    pub open spec fn text(self) -> Seq<char> {
        match self {
            PayloadView::Str(s) => s,
            _ => Seq::empty(),
        }
    }

    /// How the payload is written on the wire: an integer in decimal, a
    /// floating-point literal and a string as they are.
    pub open spec fn wire(self) -> Seq<char> {
        match self {
            PayloadView::Int(n) => decimal(n as nat),
            PayloadView::Float(literal) => literal,
            PayloadView::Str(s) => s,
        }
    }

    /// The payload that a text denotes: an integer where the text is one, else
    /// a floating-point value where it has the shape of one, else the text
    /// itself.
    pub open spec fn of_text(s: Seq<char>) -> PayloadView {
        match parse_u32(s) {
            Some(n) => PayloadView::Int(n),
            None => if is_float_text(s) {
                PayloadView::Float(s)
            } else {
                PayloadView::Str(s)
            },
        }
    }
}

impl View for PayloadType {
    type V = PayloadView;

    open spec fn view(&self) -> PayloadView {
        match self {
            PayloadType::Int(n) => PayloadView::Int(*n),
            PayloadType::Float(literal) => PayloadView::Float(literal@),
            PayloadType::Str(s) => PayloadView::Str(s@),
        }
    }
}

impl Clone for PayloadType {
    fn clone(&self) -> (r: PayloadType)
        ensures
            r == *self,
    {
        match self {
            PayloadType::Int(n) => PayloadType::Int(*n),
            PayloadType::Float(literal) => PayloadType::Float(literal.clone()),
            PayloadType::Str(s) => PayloadType::Str(s.clone()),
        }
    }
}

impl PayloadType {
    /// The text of a string payload; the empty text for a number.
    pub fn get_str(&self) -> (r: String)
        ensures
            r@ == self@.text(),
    {
        match self {
            PayloadType::Str(s) => s.clone(),
            _ => String::new(),
        }
    }

    /// The payload as it is written on the wire.
    pub fn to_string(&self) -> (r: String)
        ensures
            r@ == self@.wire(),
    {
        match self {
            PayloadType::Int(n) => {
                let mut out = String::new();
                push_decimal(&mut out, *n);
                assert(out@ =~= decimal(*n as nat));
                out
            },
            PayloadType::Float(literal) => literal.clone(),
            PayloadType::Str(s) => s.clone(),
        }
    }

    /// The payload that a text denotes: an integer where the text is one,
    /// else a floating-point value where it has the shape of one, else a
    /// string.
    pub fn decode(s: &str) -> (r: PayloadType)
        ensures
            r@ == PayloadView::of_text(s@),
    {
        if let Some(n) = read_u32(s) {
            return PayloadType::Int(n);
        }
        if looks_like_float(s) {
            return PayloadType::Float(String::from_str(s));
        }
        PayloadType::Str(String::from_str(s))
    }

    /// Whether two payloads are the same value.
    pub fn same(&self, other: &PayloadType) -> (b: bool)
        ensures
            b == (self@ == other@),
    {
        match (self, other) {
            (PayloadType::Int(a), PayloadType::Int(b)) => *a == *b,
            (PayloadType::Float(a), PayloadType::Float(b)) => {
                assert((a@ == b@) == (self@ == other@));
                *a == *b
            },
            (PayloadType::Str(a), PayloadType::Str(b)) => {
                assert((a@ == b@) == (self@ == other@));
                *a == *b
            },
            _ => false,
        }
    }
}

/// One line of the protocol.
#[derive(Debug, PartialEq)]
pub struct Message {
    pub node_id: u32,
    pub child_sensor_id: u32,
    pub command: Command,
    pub ack: bool,
    pub payload: PayloadType,
}

/// A message as a mathematical value.
pub struct MessageView {
    pub node_id: u32,
    pub child_sensor_id: u32,
    pub command: Command,
    pub ack: bool,
    pub payload: PayloadView,
}

impl View for Message {
    type V = MessageView;

    open spec fn view(&self) -> MessageView {
        MessageView {
            node_id: self.node_id,
            child_sensor_id: self.child_sensor_id,
            command: self.command,
            ack: self.ack,
            payload: self.payload@,
        }
    }
}

} // verus!
