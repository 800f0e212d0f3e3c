//! The closed registry of concrete models and model families.

use vstd::prelude::*;

use crate::text::{chars_of, same_chars};

verus! {

/// Number of concrete models in the registry.
pub const MODEL_COUNT: usize = 46;

/// Number of model families in the registry.
pub const MODEL_GROUP_COUNT: usize = 17;

/// Errors that can occur when resolving a model.
#[derive(Clone, Copy, Debug, PartialEq, Eq, Structural)]
pub enum Error {
    /// The model number is not known or is not yet supported.
    UnknownModel,
    /// The model is known but no control table covers it.
    NotImplemented,
}

/// A model name that the registry does not hold.
#[derive(Clone, Copy, Debug, PartialEq, Eq, Structural)]
pub struct UnknownModel;

/// A model family: the models whose names share the part before the first
/// `_`.
#[allow(non_camel_case_types)]
#[derive(Clone, Copy, Debug, PartialEq, Eq, Hash, PartialOrd, Ord, Structural)]
pub enum ModelGroup {
    PH42,
    PH54,
    PM42,
    PM54,
    XC330,
    XC430,
    XD430,
    XD540,
    XH430,
    XH540,
    XL330,
    XL430,
    XM430,
    XM540,
    XW540,
    YM070,
    YM080,
}

/// A concrete model.
#[allow(non_camel_case_types)]
#[derive(Clone, Copy, Debug, PartialEq, Eq, Hash, PartialOrd, Ord, Structural)]
pub enum Model {
    XL330_M077,
    XL330_M288,
    XC330_M181,
    XC330_M288,
    XC330_T181,
    XC330_T288,
    XC430_W150,
    XC430_W240,
    XL430_W250,
    XM430_W210,
    XM430_W350,
    XM540_W150,
    XM540_W270,
    XH430_V210,
    XH430_V350,
    XH430_W210,
    XH430_W350,
    XH540_W150,
    XH540_W270,
    XH540_V150,
    XH540_V270,
    XD430_T210,
    XD430_T350,
    XD540_T150,
    XD540_T270,
    XW540_T140,
    XW540_T260,
    XW540_H260,
    PH42_020_S300_R,
    PH54_100_S500_R,
    PH54_200_S500_R,
    PM42_010_S260_R,
    PM54_040_S250_R,
    PM54_060_S250_R,
    YM070_210_M001_RH,
    YM070_210_B001_RH,
    YM070_200_R051_RH,
    YM070_200_R099_RH,
    YM070_210_A051_RH,
    YM070_200_A099_RH,
    YM080_230_M001_RH,
    YM080_230_B001_RH,
    YM080_230_R051_RH,
    YM080_230_R099_RH,
    YM080_230_A051_RH,
    YM080_230_A099_RH,
}

/// Either an exact model or only its family.
#[derive(Clone, Copy, Debug, PartialEq, Eq, Hash, PartialOrd, Ord, Structural)]
pub enum ModelOrModelGroup {
    /// An exact model.
    Model(Model),
    /// A model family.
    ModelGroup(ModelGroup),
}

impl ModelGroup {
    /// Position of the family in the registry.
    pub open spec fn spec_index(self) -> nat {
        match self {
            ModelGroup::PH42 => 0,
            ModelGroup::PH54 => 1,
            ModelGroup::PM42 => 2,
            ModelGroup::PM54 => 3,
            ModelGroup::XC330 => 4,
            ModelGroup::XC430 => 5,
            ModelGroup::XD430 => 6,
            ModelGroup::XD540 => 7,
            ModelGroup::XH430 => 8,
            ModelGroup::XH540 => 9,
            ModelGroup::XL330 => 10,
            ModelGroup::XL430 => 11,
            ModelGroup::XM430 => 12,
            ModelGroup::XM540 => 13,
            ModelGroup::XW540 => 14,
            ModelGroup::YM070 => 15,
            ModelGroup::YM080 => 16,
        }
    }

    /// The family at position `i` of the registry.
    pub open spec fn spec_at(i: nat) -> ModelGroup {
        if i == 0 {
            ModelGroup::PH42
        } else         if i == 1 {
            ModelGroup::PH54
        } else         if i == 2 {
            ModelGroup::PM42
        } else         if i == 3 {
            ModelGroup::PM54
        } else         if i == 4 {
            ModelGroup::XC330
        } else         if i == 5 {
            ModelGroup::XC430
        } else         if i == 6 {
            ModelGroup::XD430
        } else         if i == 7 {
            ModelGroup::XD540
        } else         if i == 8 {
            ModelGroup::XH430
        } else         if i == 9 {
            ModelGroup::XH540
        } else         if i == 10 {
            ModelGroup::XL330
        } else         if i == 11 {
            ModelGroup::XL430
        } else         if i == 12 {
            ModelGroup::XM430
        } else         if i == 13 {
            ModelGroup::XM540
        } else         if i == 14 {
            ModelGroup::XW540
        } else         if i == 15 {
            ModelGroup::YM070
        } else {
            ModelGroup::YM080
        }
    }

    /// The family's name.
    pub open spec fn spec_name(self) -> Seq<char> {
        match self {
            ModelGroup::PH42 => "PH42"@,
            ModelGroup::PH54 => "PH54"@,
            ModelGroup::PM42 => "PM42"@,
            ModelGroup::PM54 => "PM54"@,
            ModelGroup::XC330 => "XC330"@,
            ModelGroup::XC430 => "XC430"@,
            ModelGroup::XD430 => "XD430"@,
            ModelGroup::XD540 => "XD540"@,
            ModelGroup::XH430 => "XH430"@,
            ModelGroup::XH540 => "XH540"@,
            ModelGroup::XL330 => "XL330"@,
            ModelGroup::XL430 => "XL430"@,
            ModelGroup::XM430 => "XM430"@,
            ModelGroup::XM540 => "XM540"@,
            ModelGroup::XW540 => "XW540"@,
            ModelGroup::YM070 => "YM070"@,
            ModelGroup::YM080 => "YM080"@,
        }
    }

    /// Position of the family in the registry.
    pub fn index(&self) -> (r: usize)
        ensures
            r == self.spec_index(),
            r < MODEL_GROUP_COUNT,
    {
        match self {
            ModelGroup::PH42 => 0,
            ModelGroup::PH54 => 1,
            ModelGroup::PM42 => 2,
            ModelGroup::PM54 => 3,
            ModelGroup::XC330 => 4,
            ModelGroup::XC430 => 5,
            ModelGroup::XD430 => 6,
            ModelGroup::XD540 => 7,
            ModelGroup::XH430 => 8,
            ModelGroup::XH540 => 9,
            ModelGroup::XL330 => 10,
            ModelGroup::XL430 => 11,
            ModelGroup::XM430 => 12,
            ModelGroup::XM540 => 13,
            ModelGroup::XW540 => 14,
            ModelGroup::YM070 => 15,
            ModelGroup::YM080 => 16,
        }
    }

    /// The family at position `i` of the registry.
    pub fn at(i: usize) -> (r: ModelGroup)
        requires
            i < MODEL_GROUP_COUNT,
        ensures
            r == ModelGroup::spec_at(i as nat),
            r.spec_index() == i,
    {
        match i {
            0 => ModelGroup::PH42,
            1 => ModelGroup::PH54,
            2 => ModelGroup::PM42,
            3 => ModelGroup::PM54,
            4 => ModelGroup::XC330,
            5 => ModelGroup::XC430,
            6 => ModelGroup::XD430,
            7 => ModelGroup::XD540,
            8 => ModelGroup::XH430,
            9 => ModelGroup::XH540,
            10 => ModelGroup::XL330,
            11 => ModelGroup::XL430,
            12 => ModelGroup::XM430,
            13 => ModelGroup::XM540,
            14 => ModelGroup::XW540,
            15 => ModelGroup::YM070,
            _ => ModelGroup::YM080,
        }
    }

    /// The family's name.
    pub fn name(&self) -> (r: &'static str)
        ensures
            r@ == self.spec_name(),
    {
        match self {
            ModelGroup::PH42 => "PH42",
            ModelGroup::PH54 => "PH54",
            ModelGroup::PM42 => "PM42",
            ModelGroup::PM54 => "PM54",
            ModelGroup::XC330 => "XC330",
            ModelGroup::XC430 => "XC430",
            ModelGroup::XD430 => "XD430",
            ModelGroup::XD540 => "XD540",
            ModelGroup::XH430 => "XH430",
            ModelGroup::XH540 => "XH540",
            ModelGroup::XL330 => "XL330",
            ModelGroup::XL430 => "XL430",
            ModelGroup::XM430 => "XM430",
            ModelGroup::XM540 => "XM540",
            ModelGroup::XW540 => "XW540",
            ModelGroup::YM070 => "YM070",
            ModelGroup::YM080 => "YM080",
        }
    }
}

impl Model {
    /// Position of the model in the registry.
    pub open spec fn spec_index(self) -> nat {
        match self {
            Model::XL330_M077 => 0,
            Model::XL330_M288 => 1,
            Model::XC330_M181 => 2,
            Model::XC330_M288 => 3,
            Model::XC330_T181 => 4,
            Model::XC330_T288 => 5,
            Model::XC430_W150 => 6,
            Model::XC430_W240 => 7,
            Model::XL430_W250 => 8,
            Model::XM430_W210 => 9,
            Model::XM430_W350 => 10,
            Model::XM540_W150 => 11,
            Model::XM540_W270 => 12,
            Model::XH430_V210 => 13,
            Model::XH430_V350 => 14,
            Model::XH430_W210 => 15,
            Model::XH430_W350 => 16,
            Model::XH540_W150 => 17,
            Model::XH540_W270 => 18,
            Model::XH540_V150 => 19,
            Model::XH540_V270 => 20,
            Model::XD430_T210 => 21,
            Model::XD430_T350 => 22,
            Model::XD540_T150 => 23,
            Model::XD540_T270 => 24,
            Model::XW540_T140 => 25,
            Model::XW540_T260 => 26,
            Model::XW540_H260 => 27,
            Model::PH42_020_S300_R => 28,
            Model::PH54_100_S500_R => 29,
            Model::PH54_200_S500_R => 30,
            Model::PM42_010_S260_R => 31,
            Model::PM54_040_S250_R => 32,
            Model::PM54_060_S250_R => 33,
            Model::YM070_210_M001_RH => 34,
            Model::YM070_210_B001_RH => 35,
            Model::YM070_200_R051_RH => 36,
            Model::YM070_200_R099_RH => 37,
            Model::YM070_210_A051_RH => 38,
            Model::YM070_200_A099_RH => 39,
            Model::YM080_230_M001_RH => 40,
            Model::YM080_230_B001_RH => 41,
            Model::YM080_230_R051_RH => 42,
            Model::YM080_230_R099_RH => 43,
            Model::YM080_230_A051_RH => 44,
            Model::YM080_230_A099_RH => 45,
        }
    }

    /// The model at position `i` of the registry.
    pub open spec fn spec_at(i: nat) -> Model {
        if i == 0 {
            Model::XL330_M077
        } else         if i == 1 {
            Model::XL330_M288
        } else         if i == 2 {
            Model::XC330_M181
        } else         if i == 3 {
            Model::XC330_M288
        } else         if i == 4 {
            Model::XC330_T181
        } else         if i == 5 {
            Model::XC330_T288
        } else         if i == 6 {
            Model::XC430_W150
        } else         if i == 7 {
            Model::XC430_W240
        } else         if i == 8 {
            Model::XL430_W250
        } else         if i == 9 {
            Model::XM430_W210
        } else         if i == 10 {
            Model::XM430_W350
        } else         if i == 11 {
            Model::XM540_W150
        } else         if i == 12 {
            Model::XM540_W270
        } else         if i == 13 {
            Model::XH430_V210
        } else         if i == 14 {
            Model::XH430_V350
        } else         if i == 15 {
            Model::XH430_W210
        } else         if i == 16 {
            Model::XH430_W350
        } else         if i == 17 {
            Model::XH540_W150
        } else         if i == 18 {
            Model::XH540_W270
        } else         if i == 19 {
            Model::XH540_V150
        } else         if i == 20 {
            Model::XH540_V270
        } else         if i == 21 {
            Model::XD430_T210
        } else         if i == 22 {
            Model::XD430_T350
        } else         if i == 23 {
            Model::XD540_T150
        } else         if i == 24 {
            Model::XD540_T270
        } else         if i == 25 {
            Model::XW540_T140
        } else         if i == 26 {
            Model::XW540_T260
        } else         if i == 27 {
            Model::XW540_H260
        } else         if i == 28 {
            Model::PH42_020_S300_R
        } else         if i == 29 {
            Model::PH54_100_S500_R
        } else         if i == 30 {
            Model::PH54_200_S500_R
        } else         if i == 31 {
            Model::PM42_010_S260_R
        } else         if i == 32 {
            Model::PM54_040_S250_R
        } else         if i == 33 {
            Model::PM54_060_S250_R
        } else         if i == 34 {
            Model::YM070_210_M001_RH
        } else         if i == 35 {
            Model::YM070_210_B001_RH
        } else         if i == 36 {
            Model::YM070_200_R051_RH
        } else         if i == 37 {
            Model::YM070_200_R099_RH
        } else         if i == 38 {
            Model::YM070_210_A051_RH
        } else         if i == 39 {
            Model::YM070_200_A099_RH
        } else         if i == 40 {
            Model::YM080_230_M001_RH
        } else         if i == 41 {
            Model::YM080_230_B001_RH
        } else         if i == 42 {
            Model::YM080_230_R051_RH
        } else         if i == 43 {
            Model::YM080_230_R099_RH
        } else         if i == 44 {
            Model::YM080_230_A051_RH
        } else {
            Model::YM080_230_A099_RH
        }
    }

    /// The model's name.
    pub open spec fn spec_name(self) -> Seq<char> {
        match self {
            Model::XL330_M077 => "XL330_M077"@,
            Model::XL330_M288 => "XL330_M288"@,
            Model::XC330_M181 => "XC330_M181"@,
            Model::XC330_M288 => "XC330_M288"@,
            Model::XC330_T181 => "XC330_T181"@,
            Model::XC330_T288 => "XC330_T288"@,
            Model::XC430_W150 => "XC430_W150"@,
            Model::XC430_W240 => "XC430_W240"@,
            Model::XL430_W250 => "XL430_W250"@,
            Model::XM430_W210 => "XM430_W210"@,
            Model::XM430_W350 => "XM430_W350"@,
            Model::XM540_W150 => "XM540_W150"@,
            Model::XM540_W270 => "XM540_W270"@,
            Model::XH430_V210 => "XH430_V210"@,
            Model::XH430_V350 => "XH430_V350"@,
            Model::XH430_W210 => "XH430_W210"@,
            Model::XH430_W350 => "XH430_W350"@,
            Model::XH540_W150 => "XH540_W150"@,
            Model::XH540_W270 => "XH540_W270"@,
            Model::XH540_V150 => "XH540_V150"@,
            Model::XH540_V270 => "XH540_V270"@,
            Model::XD430_T210 => "XD430_T210"@,
            Model::XD430_T350 => "XD430_T350"@,
            Model::XD540_T150 => "XD540_T150"@,
            Model::XD540_T270 => "XD540_T270"@,
            Model::XW540_T140 => "XW540_T140"@,
            Model::XW540_T260 => "XW540_T260"@,
            Model::XW540_H260 => "XW540_H260"@,
            Model::PH42_020_S300_R => "PH42_020_S300_R"@,
            Model::PH54_100_S500_R => "PH54_100_S500_R"@,
            Model::PH54_200_S500_R => "PH54_200_S500_R"@,
            Model::PM42_010_S260_R => "PM42_010_S260_R"@,
            Model::PM54_040_S250_R => "PM54_040_S250_R"@,
            Model::PM54_060_S250_R => "PM54_060_S250_R"@,
            Model::YM070_210_M001_RH => "YM070_210_M001_RH"@,
            Model::YM070_210_B001_RH => "YM070_210_B001_RH"@,
            Model::YM070_200_R051_RH => "YM070_200_R051_RH"@,
            Model::YM070_200_R099_RH => "YM070_200_R099_RH"@,
            Model::YM070_210_A051_RH => "YM070_210_A051_RH"@,
            Model::YM070_200_A099_RH => "YM070_200_A099_RH"@,
            Model::YM080_230_M001_RH => "YM080_230_M001_RH"@,
            Model::YM080_230_B001_RH => "YM080_230_B001_RH"@,
            Model::YM080_230_R051_RH => "YM080_230_R051_RH"@,
            Model::YM080_230_R099_RH => "YM080_230_R099_RH"@,
            Model::YM080_230_A051_RH => "YM080_230_A051_RH"@,
            Model::YM080_230_A099_RH => "YM080_230_A099_RH"@,
        }
    }

    /// The model number that the hardware reports.
    pub open spec fn spec_number(self) -> u16 {
        match self {
            Model::XL330_M077 => 1190,
            Model::XL330_M288 => 1200,
            Model::XC330_M181 => 1230,
            Model::XC330_M288 => 1240,
            Model::XC330_T181 => 1210,
            Model::XC330_T288 => 1220,
            Model::XC430_W150 => 1070,
            Model::XC430_W240 => 1080,
            Model::XL430_W250 => 1060,
            Model::XM430_W210 => 1030,
            Model::XM430_W350 => 1020,
            Model::XM540_W150 => 1130,
            Model::XM540_W270 => 1120,
            Model::XH430_V210 => 1050,
            Model::XH430_V350 => 1040,
            Model::XH430_W210 => 1010,
            Model::XH430_W350 => 1000,
            Model::XH540_W150 => 1110,
            Model::XH540_W270 => 1100,
            Model::XH540_V150 => 1150,
            Model::XH540_V270 => 1140,
            Model::XD430_T210 => 1011,
            Model::XD430_T350 => 1001,
            Model::XD540_T150 => 1111,
            Model::XD540_T270 => 1101,
            Model::XW540_T140 => 1180,
            Model::XW540_T260 => 1170,
            Model::XW540_H260 => 1310,
            Model::PH42_020_S300_R => 2000,
            Model::PH54_100_S500_R => 2010,
            Model::PH54_200_S500_R => 2020,
            Model::PM42_010_S260_R => 2100,
            Model::PM54_040_S250_R => 2110,
            Model::PM54_060_S250_R => 2120,
            Model::YM070_210_M001_RH => 4000,
            Model::YM070_210_B001_RH => 4010,
            Model::YM070_200_R051_RH => 4020,
            Model::YM070_200_R099_RH => 4030,
            Model::YM070_210_A051_RH => 4040,
            Model::YM070_200_A099_RH => 4050,
            Model::YM080_230_M001_RH => 4120,
            Model::YM080_230_B001_RH => 4130,
            Model::YM080_230_R051_RH => 4140,
            Model::YM080_230_R099_RH => 4150,
            Model::YM080_230_A051_RH => 4160,
            Model::YM080_230_A099_RH => 4170,
        }
    }

    /// The family the model belongs to.
    pub open spec fn spec_model_group(self) -> ModelGroup {
        match self {
            Model::XL330_M077 => ModelGroup::XL330,
            Model::XL330_M288 => ModelGroup::XL330,
            Model::XC330_M181 => ModelGroup::XC330,
            Model::XC330_M288 => ModelGroup::XC330,
            Model::XC330_T181 => ModelGroup::XC330,
            Model::XC330_T288 => ModelGroup::XC330,
            Model::XC430_W150 => ModelGroup::XC430,
            Model::XC430_W240 => ModelGroup::XC430,
            Model::XL430_W250 => ModelGroup::XL430,
            Model::XM430_W210 => ModelGroup::XM430,
            Model::XM430_W350 => ModelGroup::XM430,
            Model::XM540_W150 => ModelGroup::XM540,
            Model::XM540_W270 => ModelGroup::XM540,
            Model::XH430_V210 => ModelGroup::XH430,
            Model::XH430_V350 => ModelGroup::XH430,
            Model::XH430_W210 => ModelGroup::XH430,
            Model::XH430_W350 => ModelGroup::XH430,
            Model::XH540_W150 => ModelGroup::XH540,
            Model::XH540_W270 => ModelGroup::XH540,
            Model::XH540_V150 => ModelGroup::XH540,
            Model::XH540_V270 => ModelGroup::XH540,
            Model::XD430_T210 => ModelGroup::XD430,
            Model::XD430_T350 => ModelGroup::XD430,
            Model::XD540_T150 => ModelGroup::XD540,
            Model::XD540_T270 => ModelGroup::XD540,
            Model::XW540_T140 => ModelGroup::XW540,
            Model::XW540_T260 => ModelGroup::XW540,
            Model::XW540_H260 => ModelGroup::XW540,
            Model::PH42_020_S300_R => ModelGroup::PH42,
            Model::PH54_100_S500_R => ModelGroup::PH54,
            Model::PH54_200_S500_R => ModelGroup::PH54,
            Model::PM42_010_S260_R => ModelGroup::PM42,
            Model::PM54_040_S250_R => ModelGroup::PM54,
            Model::PM54_060_S250_R => ModelGroup::PM54,
            Model::YM070_210_M001_RH => ModelGroup::YM070,
            Model::YM070_210_B001_RH => ModelGroup::YM070,
            Model::YM070_200_R051_RH => ModelGroup::YM070,
            Model::YM070_200_R099_RH => ModelGroup::YM070,
            Model::YM070_210_A051_RH => ModelGroup::YM070,
            Model::YM070_200_A099_RH => ModelGroup::YM070,
            Model::YM080_230_M001_RH => ModelGroup::YM080,
            Model::YM080_230_B001_RH => ModelGroup::YM080,
            Model::YM080_230_R051_RH => ModelGroup::YM080,
            Model::YM080_230_R099_RH => ModelGroup::YM080,
            Model::YM080_230_A051_RH => ModelGroup::YM080,
            Model::YM080_230_A099_RH => ModelGroup::YM080,
        }
    }

    /// Position of the model in the registry.
    pub fn index(&self) -> (r: usize)
        ensures
            r == self.spec_index(),
            r < MODEL_COUNT,
    {
        match self {
            Model::XL330_M077 => 0,
            Model::XL330_M288 => 1,
            Model::XC330_M181 => 2,
            Model::XC330_M288 => 3,
            Model::XC330_T181 => 4,
            Model::XC330_T288 => 5,
            Model::XC430_W150 => 6,
            Model::XC430_W240 => 7,
            Model::XL430_W250 => 8,
            Model::XM430_W210 => 9,
            Model::XM430_W350 => 10,
            Model::XM540_W150 => 11,
            Model::XM540_W270 => 12,
            Model::XH430_V210 => 13,
            Model::XH430_V350 => 14,
            Model::XH430_W210 => 15,
            Model::XH430_W350 => 16,
            Model::XH540_W150 => 17,
            Model::XH540_W270 => 18,
            Model::XH540_V150 => 19,
            Model::XH540_V270 => 20,
            Model::XD430_T210 => 21,
            Model::XD430_T350 => 22,
            Model::XD540_T150 => 23,
            Model::XD540_T270 => 24,
            Model::XW540_T140 => 25,
            Model::XW540_T260 => 26,
            Model::XW540_H260 => 27,
            Model::PH42_020_S300_R => 28,
            Model::PH54_100_S500_R => 29,
            Model::PH54_200_S500_R => 30,
            Model::PM42_010_S260_R => 31,
            Model::PM54_040_S250_R => 32,
            Model::PM54_060_S250_R => 33,
            Model::YM070_210_M001_RH => 34,
            Model::YM070_210_B001_RH => 35,
            Model::YM070_200_R051_RH => 36,
            Model::YM070_200_R099_RH => 37,
            Model::YM070_210_A051_RH => 38,
            Model::YM070_200_A099_RH => 39,
            Model::YM080_230_M001_RH => 40,
            Model::YM080_230_B001_RH => 41,
            Model::YM080_230_R051_RH => 42,
            Model::YM080_230_R099_RH => 43,
            Model::YM080_230_A051_RH => 44,
            Model::YM080_230_A099_RH => 45,
        }
    }

    /// The model at position `i` of the registry.
    pub fn at(i: usize) -> (r: Model)
        requires
            i < MODEL_COUNT,
        ensures
            r == Model::spec_at(i as nat),
            r.spec_index() == i,
    {
        match i {
            0 => Model::XL330_M077,
            1 => Model::XL330_M288,
            2 => Model::XC330_M181,
            3 => Model::XC330_M288,
            4 => Model::XC330_T181,
            5 => Model::XC330_T288,
            6 => Model::XC430_W150,
            7 => Model::XC430_W240,
            8 => Model::XL430_W250,
            9 => Model::XM430_W210,
            10 => Model::XM430_W350,
            11 => Model::XM540_W150,
            12 => Model::XM540_W270,
            13 => Model::XH430_V210,
            14 => Model::XH430_V350,
            15 => Model::XH430_W210,
            16 => Model::XH430_W350,
            17 => Model::XH540_W150,
            18 => Model::XH540_W270,
            19 => Model::XH540_V150,
            20 => Model::XH540_V270,
            21 => Model::XD430_T210,
            22 => Model::XD430_T350,
            23 => Model::XD540_T150,
            24 => Model::XD540_T270,
            25 => Model::XW540_T140,
            26 => Model::XW540_T260,
            27 => Model::XW540_H260,
            28 => Model::PH42_020_S300_R,
            29 => Model::PH54_100_S500_R,
            30 => Model::PH54_200_S500_R,
            31 => Model::PM42_010_S260_R,
            32 => Model::PM54_040_S250_R,
            33 => Model::PM54_060_S250_R,
            34 => Model::YM070_210_M001_RH,
            35 => Model::YM070_210_B001_RH,
            36 => Model::YM070_200_R051_RH,
            37 => Model::YM070_200_R099_RH,
            38 => Model::YM070_210_A051_RH,
            39 => Model::YM070_200_A099_RH,
            40 => Model::YM080_230_M001_RH,
            41 => Model::YM080_230_B001_RH,
            42 => Model::YM080_230_R051_RH,
            43 => Model::YM080_230_R099_RH,
            44 => Model::YM080_230_A051_RH,
            _ => Model::YM080_230_A099_RH,
        }
    }

    /// The model's name.
    pub fn name(&self) -> (r: &'static str)
        ensures
            r@ == self.spec_name(),
    {
        match self {
            Model::XL330_M077 => "XL330_M077",
            Model::XL330_M288 => "XL330_M288",
            Model::XC330_M181 => "XC330_M181",
            Model::XC330_M288 => "XC330_M288",
            Model::XC330_T181 => "XC330_T181",
            Model::XC330_T288 => "XC330_T288",
            Model::XC430_W150 => "XC430_W150",
            Model::XC430_W240 => "XC430_W240",
            Model::XL430_W250 => "XL430_W250",
            Model::XM430_W210 => "XM430_W210",
            Model::XM430_W350 => "XM430_W350",
            Model::XM540_W150 => "XM540_W150",
            Model::XM540_W270 => "XM540_W270",
            Model::XH430_V210 => "XH430_V210",
            Model::XH430_V350 => "XH430_V350",
            Model::XH430_W210 => "XH430_W210",
            Model::XH430_W350 => "XH430_W350",
            Model::XH540_W150 => "XH540_W150",
            Model::XH540_W270 => "XH540_W270",
            Model::XH540_V150 => "XH540_V150",
            Model::XH540_V270 => "XH540_V270",
            Model::XD430_T210 => "XD430_T210",
            Model::XD430_T350 => "XD430_T350",
            Model::XD540_T150 => "XD540_T150",
            Model::XD540_T270 => "XD540_T270",
            Model::XW540_T140 => "XW540_T140",
            Model::XW540_T260 => "XW540_T260",
            Model::XW540_H260 => "XW540_H260",
            Model::PH42_020_S300_R => "PH42_020_S300_R",
            Model::PH54_100_S500_R => "PH54_100_S500_R",
            Model::PH54_200_S500_R => "PH54_200_S500_R",
            Model::PM42_010_S260_R => "PM42_010_S260_R",
            Model::PM54_040_S250_R => "PM54_040_S250_R",
            Model::PM54_060_S250_R => "PM54_060_S250_R",
            Model::YM070_210_M001_RH => "YM070_210_M001_RH",
            Model::YM070_210_B001_RH => "YM070_210_B001_RH",
            Model::YM070_200_R051_RH => "YM070_200_R051_RH",
            Model::YM070_200_R099_RH => "YM070_200_R099_RH",
            Model::YM070_210_A051_RH => "YM070_210_A051_RH",
            Model::YM070_200_A099_RH => "YM070_200_A099_RH",
            Model::YM080_230_M001_RH => "YM080_230_M001_RH",
            Model::YM080_230_B001_RH => "YM080_230_B001_RH",
            Model::YM080_230_R051_RH => "YM080_230_R051_RH",
            Model::YM080_230_R099_RH => "YM080_230_R099_RH",
            Model::YM080_230_A051_RH => "YM080_230_A051_RH",
            Model::YM080_230_A099_RH => "YM080_230_A099_RH",
        }
    }

    /// The model number that the hardware reports.
    pub fn number(&self) -> (r: u16)
        ensures
            r == self.spec_number(),
    {
        match self {
            Model::XL330_M077 => 1190,
            Model::XL330_M288 => 1200,
            Model::XC330_M181 => 1230,
            Model::XC330_M288 => 1240,
            Model::XC330_T181 => 1210,
            Model::XC330_T288 => 1220,
            Model::XC430_W150 => 1070,
            Model::XC430_W240 => 1080,
            Model::XL430_W250 => 1060,
            Model::XM430_W210 => 1030,
            Model::XM430_W350 => 1020,
            Model::XM540_W150 => 1130,
            Model::XM540_W270 => 1120,
            Model::XH430_V210 => 1050,
            Model::XH430_V350 => 1040,
            Model::XH430_W210 => 1010,
            Model::XH430_W350 => 1000,
            Model::XH540_W150 => 1110,
            Model::XH540_W270 => 1100,
            Model::XH540_V150 => 1150,
            Model::XH540_V270 => 1140,
            Model::XD430_T210 => 1011,
            Model::XD430_T350 => 1001,
            Model::XD540_T150 => 1111,
            Model::XD540_T270 => 1101,
            Model::XW540_T140 => 1180,
            Model::XW540_T260 => 1170,
            Model::XW540_H260 => 1310,
            Model::PH42_020_S300_R => 2000,
            Model::PH54_100_S500_R => 2010,
            Model::PH54_200_S500_R => 2020,
            Model::PM42_010_S260_R => 2100,
            Model::PM54_040_S250_R => 2110,
            Model::PM54_060_S250_R => 2120,
            Model::YM070_210_M001_RH => 4000,
            Model::YM070_210_B001_RH => 4010,
            Model::YM070_200_R051_RH => 4020,
            Model::YM070_200_R099_RH => 4030,
            Model::YM070_210_A051_RH => 4040,
            Model::YM070_200_A099_RH => 4050,
            Model::YM080_230_M001_RH => 4120,
            Model::YM080_230_B001_RH => 4130,
            Model::YM080_230_R051_RH => 4140,
            Model::YM080_230_R099_RH => 4150,
            Model::YM080_230_A051_RH => 4160,
            Model::YM080_230_A099_RH => 4170,
        }
    }

    /// The family the model belongs to.
    pub fn model_group(&self) -> (r: ModelGroup)
        ensures
            r == self.spec_model_group(),
    {
        match self {
            Model::XL330_M077 => ModelGroup::XL330,
            Model::XL330_M288 => ModelGroup::XL330,
            Model::XC330_M181 => ModelGroup::XC330,
            Model::XC330_M288 => ModelGroup::XC330,
            Model::XC330_T181 => ModelGroup::XC330,
            Model::XC330_T288 => ModelGroup::XC330,
            Model::XC430_W150 => ModelGroup::XC430,
            Model::XC430_W240 => ModelGroup::XC430,
            Model::XL430_W250 => ModelGroup::XL430,
            Model::XM430_W210 => ModelGroup::XM430,
            Model::XM430_W350 => ModelGroup::XM430,
            Model::XM540_W150 => ModelGroup::XM540,
            Model::XM540_W270 => ModelGroup::XM540,
            Model::XH430_V210 => ModelGroup::XH430,
            Model::XH430_V350 => ModelGroup::XH430,
            Model::XH430_W210 => ModelGroup::XH430,
            Model::XH430_W350 => ModelGroup::XH430,
            Model::XH540_W150 => ModelGroup::XH540,
            Model::XH540_W270 => ModelGroup::XH540,
            Model::XH540_V150 => ModelGroup::XH540,
            Model::XH540_V270 => ModelGroup::XH540,
            Model::XD430_T210 => ModelGroup::XD430,
            Model::XD430_T350 => ModelGroup::XD430,
            Model::XD540_T150 => ModelGroup::XD540,
            Model::XD540_T270 => ModelGroup::XD540,
            Model::XW540_T140 => ModelGroup::XW540,
            Model::XW540_T260 => ModelGroup::XW540,
            Model::XW540_H260 => ModelGroup::XW540,
            Model::PH42_020_S300_R => ModelGroup::PH42,
            Model::PH54_100_S500_R => ModelGroup::PH54,
            Model::PH54_200_S500_R => ModelGroup::PH54,
            Model::PM42_010_S260_R => ModelGroup::PM42,
            Model::PM54_040_S250_R => ModelGroup::PM54,
            Model::PM54_060_S250_R => ModelGroup::PM54,
            Model::YM070_210_M001_RH => ModelGroup::YM070,
            Model::YM070_210_B001_RH => ModelGroup::YM070,
            Model::YM070_200_R051_RH => ModelGroup::YM070,
            Model::YM070_200_R099_RH => ModelGroup::YM070,
            Model::YM070_210_A051_RH => ModelGroup::YM070,
            Model::YM070_200_A099_RH => ModelGroup::YM070,
            Model::YM080_230_M001_RH => ModelGroup::YM080,
            Model::YM080_230_B001_RH => ModelGroup::YM080,
            Model::YM080_230_R051_RH => ModelGroup::YM080,
            Model::YM080_230_R099_RH => ModelGroup::YM080,
            Model::YM080_230_A051_RH => ModelGroup::YM080,
            Model::YM080_230_A099_RH => ModelGroup::YM080,
        }
    }
}

/// The first model of the registry, from position `i` on, whose number is
/// `n`.
pub open spec fn model_by_number_from(n: u16, i: nat) -> Option<Model>
    decreases MODEL_COUNT - i,
{
    if i >= MODEL_COUNT {
        None
    } else if Model::spec_at(i).spec_number() == n {
        Some(Model::spec_at(i))
    } else {
        model_by_number_from(n, i + 1)
    }
}

/// The model whose number is `n`, if the registry holds one.
pub open spec fn model_by_number(n: u16) -> Option<Model> {
    model_by_number_from(n, 0)
}

/// The first model of the registry, from position `i` on, whose name is `s`.
pub open spec fn model_by_name_from(s: Seq<char>, i: nat) -> Option<Model>
    decreases MODEL_COUNT - i,
{
    if i >= MODEL_COUNT {
        None
    } else if Model::spec_at(i).spec_name() == s {
        Some(Model::spec_at(i))
    } else {
        model_by_name_from(s, i + 1)
    }
}

/// The model whose name is `s`, if the registry holds one.
pub open spec fn model_by_name(s: Seq<char>) -> Option<Model> {
    model_by_name_from(s, 0)
}

impl Model {
    /// The model with the given number, if the registry holds one.
    pub fn from_number(n: u16) -> (r: Option<Model>)
        ensures
            r == model_by_number(n),
            r matches Some(m) ==> m.spec_number() == n,
            r is None ==> forall|m: Model| #[trigger] m.spec_number() != n,
    {
        proof {
            lemma_model_by_number(n);
        }
        let mut i: usize = 0;
        while i < MODEL_COUNT
            invariant
                i <= MODEL_COUNT,
                model_by_number(n) == model_by_number_from(n, i as nat),
            decreases MODEL_COUNT - i,
        {
            let m = Model::at(i);
            if m.number() == n {
                return Some(m);
            }
            i += 1;
        }
        None
    }

    /// The model with the given name, if the registry holds one.
    pub fn from_name(name: &Vec<char>) -> (r: Option<Model>)
        ensures
            r == model_by_name(name@),
    {
        let mut i: usize = 0;
        while i < MODEL_COUNT
            invariant
                i <= MODEL_COUNT,
                model_by_name(name@) == model_by_name_from(name@, i as nat),
            decreases MODEL_COUNT - i,
        {
            let m = Model::at(i);
            let n = chars_of(m.name());
            if same_chars(&n, name) {
                return Some(m);
            }
            i += 1;
        }
        None
    }

    /// The model with the given name; `UnknownModel` when the registry holds
    /// none.
    pub fn try_from_name(name: &str) -> (r: Result<Model, UnknownModel>)
        ensures
            match model_by_name(name@) {
                Some(m) => r == Ok::<Model, UnknownModel>(m),
                None => r == Err::<Model, UnknownModel>(UnknownModel),
            },
    {
        let chars = chars_of(name);
        match Model::from_name(&chars) {
            Some(m) => Ok(m),
            None => Err(UnknownModel),
        }
    }
}

impl TryFrom<u16> for Model {
    type Error = Error;

    /// The model with the given number; `Error::UnknownModel` when the
    /// registry holds none.
    fn try_from(n: u16) -> (r: Result<Model, Error>) {
        match Model::from_number(n) {
            Some(m) => Ok(m),
            None => Err(Error::UnknownModel),
        }
    }
}

impl vstd::std_specs::convert::TryFromSpecImpl<u16> for Model {
    open spec fn obeys_try_from_spec() -> bool {
        true
    }

    open spec fn try_from_spec(n: u16) -> Result<Model, Error> {
        match model_by_number(n) {
            Some(m) => Ok(m),
            None => Err(Error::UnknownModel),
        }
    }
}

impl PartialEq<u16> for Model {
    /// Whether `n` is the model's number.
    fn eq(&self, n: &u16) -> (r: bool) {
        self.number() == *n
    }
}

impl vstd::std_specs::cmp::PartialEqSpecImpl<u16> for Model {
    open spec fn obeys_eq_spec() -> bool {
        true
    }

    open spec fn eq_spec(&self, n: &u16) -> bool {
        self.spec_number() == *n
    }
}

impl From<Model> for ModelGroup {
    /// The family of the model.
    fn from(model: Model) -> (r: ModelGroup) {
        model.model_group()
    }
}

impl vstd::std_specs::convert::FromSpecImpl<Model> for ModelGroup {
    open spec fn obeys_from_spec() -> bool {
        true
    }

    open spec fn from_spec(model: Model) -> ModelGroup {
        model.spec_model_group()
    }
}

/// A number that resolves belongs to the model it resolves to, and one that
/// does not resolve belongs to no model.
pub proof fn lemma_model_by_number(n: u16)
    ensures
        match model_by_number(n) {
            Some(m) => m.spec_number() == n,
            None => forall|m: Model| #[trigger] m.spec_number() != n,
        },
{
    lemma_model_by_number_from(n, 0);
}

proof fn lemma_model_by_number_from(n: u16, i: nat)
    ensures
        match model_by_number_from(n, i) {
            Some(m) => m.spec_number() == n,
            None => forall|m: Model| m.spec_index() >= i ==> #[trigger] m.spec_number() != n,
        },
    decreases MODEL_COUNT - i,
{
    if i < MODEL_COUNT {
        lemma_model_by_number_from(n, i + 1);
    }
    if model_by_number_from(n, i) is None {
        assert forall|m: Model| m.spec_index() >= i implies #[trigger] m.spec_number() != n by {
            lemma_model_index_at(m);
        }
    }
}

/// Every model sits at its own position of the registry.
pub proof fn lemma_model_index_at(m: Model)
    ensures
        Model::spec_at(m.spec_index()) == m,
        m.spec_index() < MODEL_COUNT,
{
}

} // verus!
