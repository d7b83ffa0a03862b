//! The register block of one port, the bit-field dispatcher that says which bits of
//! which register belong to a pin, and the locator from port to register block.

use vstd::prelude::*;
use crate::field::{field_fits, field_mask, get_field, put_field, write_field};

verus! {

/// The registers of a port's block, in address order.
#[derive(Copy, Clone, Debug, PartialEq, Eq, Structural)]
pub enum GpioReg {
    Moder,
    Otyper,
    Ospeedr,
    Pupdr,
    Idr,
    Odr,
    Bsrr,
    Lckr,
    Afrl,
    Afrh,
}

impl GpioReg {
    /// Byte offset of the register from the start of the port's block.
    pub fn offset(self) -> (r: u32)
        ensures
            r % 4 == 0,
            r <= 0x24,
    {
        match self {
            GpioReg::Moder => 0x00,
            GpioReg::Otyper => 0x04,
            GpioReg::Ospeedr => 0x08,
            GpioReg::Pupdr => 0x0C,
            GpioReg::Idr => 0x10,
            GpioReg::Odr => 0x14,
            GpioReg::Bsrr => 0x18,
            GpioReg::Lckr => 0x1C,
            GpioReg::Afrl => 0x20,
            GpioReg::Afrh => 0x24,
        }
    }
}

/// A per-pin configuration property.
#[derive(Copy, Clone, Debug, PartialEq, Eq, Structural)]
pub enum Field {
    Mode,
    OutputType,
    OutputSpeed,
    Pull,
    Lock,
    /// The alternate-function index, banked over two registers.
    AltFunction,
}

impl Field {
    /// Bits per pin.
    pub open spec fn width(self) -> u32 {
        match self {
            Field::Mode | Field::OutputSpeed | Field::Pull => 2,
            Field::OutputType | Field::Lock => 1,
            Field::AltFunction => 4,
        }
    }
}

/// Where a pin's field lies: a register, the field's first bit and its width.
#[derive(Copy, Clone, Debug, PartialEq, Eq, Structural)]
pub struct FieldLoc {
    pub reg: GpioReg,
    pub shift: u32,
    pub width: u32,
}

impl FieldLoc {
    pub open spec fn fits(self) -> bool {
        field_fits(self.shift, self.width)
    }
}

/// The place of `pin`'s field. Uniform fields hold one field per pin in one register;
/// the alternate-function field is banked: pins 0 to 7 in the low register, pins 8
/// to 15 in the high one, at the pin's index modulo 8.
pub open spec fn field_loc(field: Field, pin: u8) -> FieldLoc {
    let w = field.width();
    match field {
        Field::Mode => FieldLoc { reg: GpioReg::Moder, shift: (pin * w) as u32, width: w },
        Field::OutputType => FieldLoc { reg: GpioReg::Otyper, shift: (pin * w) as u32, width: w },
        Field::OutputSpeed => FieldLoc { reg: GpioReg::Ospeedr, shift: (pin * w) as u32, width: w },
        Field::Pull => FieldLoc { reg: GpioReg::Pupdr, shift: (pin * w) as u32, width: w },
        Field::Lock => FieldLoc { reg: GpioReg::Lckr, shift: (pin * w) as u32, width: w },
        Field::AltFunction => FieldLoc {
            reg: if pin < 8 { GpioReg::Afrl } else { GpioReg::Afrh },
            shift: ((pin % 8) * w) as u32,
            width: w,
        },
    }
}

/// The bit-field dispatcher: which bits of which register hold `pin`'s `field`.
pub fn locate(field: Field, pin: u8) -> (r: FieldLoc)
    requires
        pin <= 15,
    ensures
        r == field_loc(field, pin),
        r.fits(),
{
    match field {
        Field::Mode => FieldLoc { reg: GpioReg::Moder, shift: pin as u32 * 2, width: 2 },
        Field::OutputType => FieldLoc { reg: GpioReg::Otyper, shift: pin as u32, width: 1 },
        Field::OutputSpeed => FieldLoc { reg: GpioReg::Ospeedr, shift: pin as u32 * 2, width: 2 },
        Field::Pull => FieldLoc { reg: GpioReg::Pupdr, shift: pin as u32 * 2, width: 2 },
        Field::Lock => FieldLoc { reg: GpioReg::Lckr, shift: pin as u32, width: 1 },
        Field::AltFunction => {
            let reg = if pin < 8 {
                GpioReg::Afrl
            } else {
                GpioReg::Afrh
            };
            FieldLoc { reg, shift: (pin as u32 % 8) * 4, width: 4 }
        },
    }
}

/// The contents of one port's register block. The bit set/reset register is
/// write-only and has no stored value: a write to it changes the output data
/// register. The pins of this model read back what they drive, so the input data
/// register follows the same write.
#[derive(Copy, Clone, Debug, PartialEq, Eq, Structural)]
pub struct RegisterBlock {
    pub moder: u32,
    pub otyper: u32,
    pub ospeedr: u32,
    pub pupdr: u32,
    pub idr: u32,
    pub odr: u32,
    pub lckr: u32,
    pub afrl: u32,
    pub afrh: u32,
}

/// `word` after a write of `bsrr` to the bit set/reset register: the low half sets
/// bits, the high half clears the same bits, and a set wins over a clear.
pub open spec fn set_reset(word: u32, bsrr: u32) -> u32 {
    (word & !(bsrr >> 16u32)) | (bsrr & 0xFFFFu32)
}

impl RegisterBlock {
    /// Every register zero.
    pub open spec fn new_spec() -> RegisterBlock {
        RegisterBlock { moder: 0, otyper: 0, ospeedr: 0, pupdr: 0, idr: 0, odr: 0, lckr: 0, afrl: 0, afrh: 0 }
    }

    /// A block with every register zero.
    pub fn new() -> (r: RegisterBlock)
        ensures
            r == RegisterBlock::new_spec(),
    {
        RegisterBlock { moder: 0, otyper: 0, ospeedr: 0, pupdr: 0, idr: 0, odr: 0, lckr: 0, afrl: 0, afrh: 0 }
    }

    /// What a read of `reg` returns; the write-only register reads as zero.
    pub open spec fn reg(self, reg: GpioReg) -> u32 {
        match reg {
            GpioReg::Moder => self.moder,
            GpioReg::Otyper => self.otyper,
            GpioReg::Ospeedr => self.ospeedr,
            GpioReg::Pupdr => self.pupdr,
            GpioReg::Idr => self.idr,
            GpioReg::Odr => self.odr,
            GpioReg::Bsrr => 0,
            GpioReg::Lckr => self.lckr,
            GpioReg::Afrl => self.afrl,
            GpioReg::Afrh => self.afrh,
        }
    }

    /// The block after `value` is written to `reg`. The input data register ignores
    /// writes; a write to the bit set/reset register acts on the output data.
    pub open spec fn with_reg(self, reg: GpioReg, value: u32) -> RegisterBlock {
        match reg {
            GpioReg::Moder => RegisterBlock { moder: value, ..self },
            GpioReg::Otyper => RegisterBlock { otyper: value, ..self },
            GpioReg::Ospeedr => RegisterBlock { ospeedr: value, ..self },
            GpioReg::Pupdr => RegisterBlock { pupdr: value, ..self },
            GpioReg::Idr => self,
            GpioReg::Odr => RegisterBlock { odr: value, ..self },
            GpioReg::Bsrr => RegisterBlock {
                odr: set_reset(self.odr, value),
                idr: set_reset(self.idr, value),
                ..self
            },
            GpioReg::Lckr => RegisterBlock { lckr: value, ..self },
            GpioReg::Afrl => RegisterBlock { afrl: value, ..self },
            GpioReg::Afrh => RegisterBlock { afrh: value, ..self },
        }
    }

    /// The block after a read-modify-write of one field.
    pub open spec fn with_field(self, loc: FieldLoc, value: u32) -> RegisterBlock {
        self.with_reg(loc.reg, put_field(self.reg(loc.reg), loc.shift, loc.width, value))
    }

    /// The value of one field.
    pub open spec fn field(self, loc: FieldLoc) -> u32 {
        get_field(self.reg(loc.reg), loc.shift, loc.width)
    }

    pub fn read(&self, reg: GpioReg) -> (r: u32)
        ensures
            r == self.reg(reg),
    {
        match reg {
            GpioReg::Moder => self.moder,
            GpioReg::Otyper => self.otyper,
            GpioReg::Ospeedr => self.ospeedr,
            GpioReg::Pupdr => self.pupdr,
            GpioReg::Idr => self.idr,
            GpioReg::Odr => self.odr,
            GpioReg::Bsrr => 0,
            GpioReg::Lckr => self.lckr,
            GpioReg::Afrl => self.afrl,
            GpioReg::Afrh => self.afrh,
        }
    }

    pub fn write(&mut self, reg: GpioReg, value: u32)
        ensures
            *final(self) == old(self).with_reg(reg, value),
    {
        match reg {
            GpioReg::Moder => self.moder = value,
            GpioReg::Otyper => self.otyper = value,
            GpioReg::Ospeedr => self.ospeedr = value,
            GpioReg::Pupdr => self.pupdr = value,
            GpioReg::Idr => {},
            GpioReg::Odr => self.odr = value,
            GpioReg::Bsrr => {
                self.odr = (self.odr & !(value >> 16u32)) | (value & 0xFFFFu32);
                self.idr = (self.idr & !(value >> 16u32)) | (value & 0xFFFFu32);
            },
            GpioReg::Lckr => self.lckr = value,
            GpioReg::Afrl => self.afrl = value,
            GpioReg::Afrh => self.afrh = value,
        }
    }

    /// Read-modify-write of the field at `loc`: one read and one write of its register.
    pub fn apply_field(&mut self, loc: FieldLoc, value: u32)
        requires
            loc.fits(),
            value <= field_mask(loc.width),
        ensures
            *final(self) == old(self).with_field(loc, value),
    {
        let word = self.read(loc.reg);
        let new_word = write_field(word, loc.shift, loc.width, value);
        self.write(loc.reg, new_word);
    }
}

} // verus!
