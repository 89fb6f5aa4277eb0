use vstd::prelude::*;

use crate::args::Args;
use crate::device::{is_rm1_or_rm2, DeviceInfo};
use crate::pen::valid_rotation;
use crate::text::{chars_of, eq_str};

verus! {

/// How the pen's coordinates are turned.
#[derive(Debug, Clone, Copy, PartialEq, Eq, Structural)]
pub enum RotationMode {
    /// The rotation that shows the model in landscape.
    Landscape,
    /// Follow the tablet's rotation sensor.
    Auto,
    /// A fixed rotation, in degrees.
    Fixed(u16),
}

/// A mode that can be stored: a fixed rotation is 0, 90, 180 or 270.
pub open spec fn valid_mode(m: RotationMode) -> bool {
    match m {
        RotationMode::Fixed(d) => valid_rotation(d),
        _ => true,
    }
}

/// The number under which a mode is kept.
pub open spec fn mode_code(m: RotationMode) -> u16 {
    match m {
        RotationMode::Landscape => 0,
        RotationMode::Auto => 1,
        RotationMode::Fixed(d) => if d == 0 {
            2
        } else if d == 90 {
            3
        } else if d == 180 {
            4
        } else {
            5
        },
    }
}

/// The mode kept under a number; an unknown number means landscape.
pub open spec fn mode_of_code(v: u16) -> RotationMode {
    if v == 1 {
        RotationMode::Auto
    } else if v == 2 {
        RotationMode::Fixed(0)
    } else if v == 3 {
        RotationMode::Fixed(90)
    } else if v == 4 {
        RotationMode::Fixed(180)
    } else if v == 5 {
        RotationMode::Fixed(270)
    } else {
        RotationMode::Landscape
    }
}

/// The mode that the command line asks for.
pub open spec fn mode_of_args(auto_rotate: bool, rotate: Option<u16>) -> RotationMode {
    if auto_rotate {
        RotationMode::Auto
    } else {
        match rotate {
            Some(d) => RotationMode::Fixed(d),
            None => RotationMode::Landscape,
        }
    }
}

/// The landscape rotation of a model.
pub open spec fn landscape_of(model: Seq<char>) -> u16 {
    if is_rm1_or_rm2(model) {
        0
    } else {
        90
    }
}

/// The rotation in effect: the sensed one in automatic mode when the sensor
/// has reported (`sensed != u16::MAX`), else landscape; a fixed one as set.
pub open spec fn effective_rotation(m: RotationMode, model: Seq<char>, sensed: u16) -> u16 {
    match m {
        RotationMode::Landscape => landscape_of(model),
        RotationMode::Auto => if sensed != u16::MAX {
            sensed
        } else {
            landscape_of(model)
        },
        RotationMode::Fixed(d) => d,
    }
}

/// The name under which the panel stores a mode.
pub open spec fn mode_name(m: RotationMode) -> Seq<char> {
    match m {
        RotationMode::Landscape => "landscape"@,
        RotationMode::Auto => "auto"@,
        RotationMode::Fixed(d) => if d == 0 {
            "0"@
        } else if d == 90 {
            "90"@
        } else if d == 180 {
            "180"@
        } else {
            "270"@
        },
    }
}

/// The mode stored under a name.
pub open spec fn mode_named(v: Seq<char>) -> Option<RotationMode> {
    if v == "landscape"@ {
        Some(RotationMode::Landscape)
    } else if v == "auto"@ {
        Some(RotationMode::Auto)
    } else if v == "0"@ {
        Some(RotationMode::Fixed(0))
    } else if v == "90"@ {
        Some(RotationMode::Fixed(90))
    } else if v == "180"@ {
        Some(RotationMode::Fixed(180))
    } else if v == "270"@ {
        Some(RotationMode::Fixed(270))
    } else {
        None
    }
}

impl RotationMode {
    /// The mode that the command line asks for.
    pub fn from_args(args: &Args) -> (r: Self)
        ensures
            r == mode_of_args(args.auto_rotate, args.rotate),
    {
        if args.auto_rotate {
            RotationMode::Auto
        } else {
            match args.rotate {
                Some(degrees) => RotationMode::Fixed(degrees),
                None => RotationMode::Landscape,
            }
        }
    }

    /// The number under which the mode is kept.
    pub fn encode(self) -> (r: u16)
        requires
            valid_mode(self),
        ensures
            r == mode_code(self),
    {
        match self {
            RotationMode::Landscape => 0,
            RotationMode::Auto => 1,
            RotationMode::Fixed(d) => if d == 0 {
                2
            } else if d == 90 {
                3
            } else if d == 180 {
                4
            } else {
                5
            },
        }
    }

    /// The mode kept under `value`.
    pub fn decode(value: u16) -> (r: Self)
        ensures
            r == mode_of_code(value),
    {
        if value == 1 {
            RotationMode::Auto
        } else if value == 2 {
            RotationMode::Fixed(0)
        } else if value == 3 {
            RotationMode::Fixed(90)
        } else if value == 4 {
            RotationMode::Fixed(180)
        } else if value == 5 {
            RotationMode::Fixed(270)
        } else {
            RotationMode::Landscape
        }
    }

    /// The rotation in effect for `info`, given the sensed one (`u16::MAX`
    /// while the sensor has not reported).
    pub fn rotation(self, info: &DeviceInfo, sensed: u16) -> (r: u16)
        ensures
            r == effective_rotation(self, info.model@, sensed),
    {
        match self {
            RotationMode::Landscape => info.landscape_rotation(),
            RotationMode::Auto => if sensed != u16::MAX {
                sensed
            } else {
                info.landscape_rotation()
            },
            RotationMode::Fixed(degrees) => degrees,
        }
    }
}

/// The name under which the panel stores a mode.
pub fn format_rotation(mode: RotationMode) -> (r: &'static str)
    requires
        valid_mode(mode),
    ensures
        r@ == mode_name(mode),
{
    match mode {
        RotationMode::Landscape => "landscape",
        RotationMode::Auto => "auto",
        RotationMode::Fixed(d) => if d == 0 {
            "0"
        } else if d == 90 {
            "90"
        } else if d == 180 {
            "180"
        } else {
            "270"
        },
    }
}

/// The mode stored under `value`, if it names one.
pub fn parse_rotation(value: &str) -> (r: Option<RotationMode>)
    ensures
        r == mode_named(value@),
{
    let v = chars_of(value);
    if eq_str(&v, "landscape") {
        Some(RotationMode::Landscape)
    } else if eq_str(&v, "auto") {
        Some(RotationMode::Auto)
    } else if eq_str(&v, "0") {
        Some(RotationMode::Fixed(0))
    } else if eq_str(&v, "90") {
        Some(RotationMode::Fixed(90))
    } else if eq_str(&v, "180") {
        Some(RotationMode::Fixed(180))
    } else if eq_str(&v, "270") {
        Some(RotationMode::Fixed(270))
    } else {
        None
    }
}

} // verus!
