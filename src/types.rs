//! Pin identities and the values of each configurable electrical property.

use vstd::prelude::*;

verus! {

/// Values of the mode register field.
#[derive(Copy, Clone, Debug, PartialEq, Eq, Structural)]
pub enum PinMode {
    Input,
    Output,
    /// Alternate function, with the function index 0 to 15.
    Alt(u8),
    Analog,
}

impl PinMode {
    /// The two mode-register bits that select this mode.
    pub open spec fn moder_bits(self) -> u32 {
        match self {
            PinMode::Input => 0,
            PinMode::Output => 1,
            PinMode::Alt(_) => 2,
            PinMode::Analog => 3,
        }
    }

    /// An alternate function index must fit the four bits of its field.
    pub open spec fn is_valid(self) -> bool {
        match self {
            PinMode::Alt(f) => f <= 15,
            _ => true,
        }
    }

    pub fn val(&self) -> (r: u8)
        ensures
            r as u32 == self.moder_bits(),
    {
        match self {
            PinMode::Input => 0,
            PinMode::Output => 1,
            PinMode::Alt(_) => 2,
            PinMode::Analog => 3,
        }
    }
}

/// Values of the output type register bit.
#[derive(Copy, Clone, Debug, PartialEq, Eq, Structural)]
pub enum OutputType {
    PushPull,
    OpenDrain,
}

impl OutputType {
    pub open spec fn spec_bits(self) -> u32 {
        match self {
            OutputType::PushPull => 0,
            OutputType::OpenDrain => 1,
        }
    }

    #[verifier::when_used_as_spec(spec_bits)]
    pub fn bits(self) -> (r: u32)
        ensures
            r == self.spec_bits(),
    {
        match self {
            OutputType::PushPull => 0,
            OutputType::OpenDrain => 1,
        }
    }
}

/// Values of the output speed field. Not every family offers `Fast`; where the
/// silicon lacks it, the two-bit code selects the nearest speed of that family.
#[derive(Copy, Clone, Debug, PartialEq, Eq, Structural)]
pub enum OutputSpeed {
    Low,
    Medium,
    Fast,
    High,
}

impl OutputSpeed {
    pub open spec fn spec_bits(self) -> u32 {
        match self {
            OutputSpeed::Low => 0,
            OutputSpeed::Medium => 1,
            OutputSpeed::Fast => 2,
            OutputSpeed::High => 3,
        }
    }

    #[verifier::when_used_as_spec(spec_bits)]
    pub fn bits(self) -> (r: u32)
        ensures
            r == self.spec_bits(),
    {
        match self {
            OutputSpeed::Low => 0,
            OutputSpeed::Medium => 1,
            OutputSpeed::Fast => 2,
            OutputSpeed::High => 3,
        }
    }
}

/// Values of the pull-up / pull-down field.
#[derive(Copy, Clone, Debug, PartialEq, Eq, Structural)]
pub enum Pull {
    Floating,
    Up,
    Dn,
}

impl Pull {
    pub open spec fn spec_bits(self) -> u32 {
        match self {
            Pull::Floating => 0,
            Pull::Up => 1,
            Pull::Dn => 2,
        }
    }

    #[verifier::when_used_as_spec(spec_bits)]
    pub fn bits(self) -> (r: u32)
        ensures
            r == self.spec_bits(),
    {
        match self {
            Pull::Floating => 0,
            Pull::Up => 1,
            Pull::Dn => 2,
        }
    }
}

/// The level of a pin, as read from the input data register or driven through the
/// output data register.
#[derive(Copy, Clone, Debug, PartialEq, Eq, Structural)]
pub enum PinState {
    High,
    Low,
}

/// Values of the configuration lock bit.
#[derive(Copy, Clone, Debug, PartialEq, Eq, Structural)]
pub enum CfgLock {
    NotLocked,
    Locked,
}

impl CfgLock {
    pub open spec fn spec_bits(self) -> u32 {
        match self {
            CfgLock::NotLocked => 0,
            CfgLock::Locked => 1,
        }
    }

    #[verifier::when_used_as_spec(spec_bits)]
    pub fn bits(self) -> (r: u32)
        ensures
            r == self.spec_bits(),
    {
        match self {
            CfgLock::NotLocked => 0,
            CfgLock::Locked => 1,
        }
    }
}

/// Values of a bit of the bit-reset register.
#[derive(Copy, Clone, Debug, PartialEq, Eq, Structural)]
pub enum ResetState {
    NoAction,
    Reset,
}

/// A port letter. Which letters exist depends on the chip: code for a chip uses
/// only the letters that its silicon has.
#[derive(Copy, Clone, Debug, PartialEq, Eq, Structural)]
pub enum Port {
    A,
    B,
    C,
    D,
    E,
    F,
    G,
    H,
}

impl Port {
    /// The port's numeric code: its place in the alphabet, counted from 0. It routes
    /// an interrupt line to the port and numbers the port's register block.
    pub open spec fn code(self) -> u32 {
        match self {
            Port::A => 0,
            Port::B => 1,
            Port::C => 2,
            Port::D => 3,
            Port::E => 4,
            Port::F => 5,
            Port::G => 6,
            Port::H => 7,
        }
    }

    pub fn cr_val(&self) -> (r: u8)
        ensures
            r as u32 == self.code(),
            r <= 7,
    {
        match self {
            Port::A => 0,
            Port::B => 1,
            Port::C => 2,
            Port::D => 3,
            Port::E => 4,
            Port::F => 5,
            Port::G => 6,
            Port::H => 7,
        }
    }
}

/// The pulse edge that triggers an interrupt. The trigger hardware holds a rising
/// and a falling enable bit that could both be set; this model always selects
/// exactly one of them.
#[derive(Copy, Clone, Debug, PartialEq, Eq, Structural)]
pub enum Edge {
    Rising,
    Falling,
}

} // verus!
