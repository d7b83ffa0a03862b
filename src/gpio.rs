//! The register blocks of all ports, the locator from port to block, and the pin
//! configuration and digital I/O operations built on the dispatcher.

use vstd::prelude::*;
use crate::clocks::PortClocks;
use crate::field::{field_mask, get_field, read_field, lemma_mask_values, lemma_put_frame, lemma_put_get};
use crate::registers::{field_loc, locate, Field, GpioReg, RegisterBlock};
use crate::types::{CfgLock, OutputSpeed, OutputType, PinMode, PinState, Port, Pull};

verus! {

/// The register blocks of ports A to H.
#[derive(Copy, Clone, Debug, PartialEq, Eq, Structural)]
pub struct Gpio {
    pub a: RegisterBlock,
    pub b: RegisterBlock,
    pub c: RegisterBlock,
    pub d: RegisterBlock,
    pub e: RegisterBlock,
    pub f: RegisterBlock,
    pub g: RegisterBlock,
    pub h: RegisterBlock,
}

impl Gpio {
    /// Every port's block as it comes out of reset.
    pub fn new() -> (r: Gpio)
        ensures
            forall|p: Port| r.block(p) == RegisterBlock::new_spec(),
    {
        let z = RegisterBlock::new();
        Gpio { a: z, b: z, c: z, d: z, e: z, f: z, g: z, h: z }
    }

    /// A copy of the register block of `port`.
    pub fn read_block(&self, port: Port) -> (r: RegisterBlock)
        ensures
            r == self.block(port),
    {
        match port {
            Port::A => self.a,
            Port::B => self.b,
            Port::C => self.c,
            Port::D => self.d,
            Port::E => self.e,
            Port::F => self.f,
            Port::G => self.g,
            Port::H => self.h,
        }
    }

    pub open spec fn block(self, port: Port) -> RegisterBlock {
        match port {
            Port::A => self.a,
            Port::B => self.b,
            Port::C => self.c,
            Port::D => self.d,
            Port::E => self.e,
            Port::F => self.f,
            Port::G => self.g,
            Port::H => self.h,
        }
    }

    /// The same ports with the block of `port` replaced.
    pub open spec fn with_block(self, port: Port, b: RegisterBlock) -> Gpio {
        match port {
            Port::A => Gpio { a: b, ..self },
            Port::B => Gpio { b: b, ..self },
            Port::C => Gpio { c: b, ..self },
            Port::D => Gpio { d: b, ..self },
            Port::E => Gpio { e: b, ..self },
            Port::F => Gpio { f: b, ..self },
            Port::G => Gpio { g: b, ..self },
            Port::H => Gpio { h: b, ..self },
        }
    }
}

/// The locator: the register block of `port`.
pub fn regs(gpio: &mut Gpio, port: Port) -> (r: &mut RegisterBlock)
    ensures
        *r == old(gpio).block(port),
        *final(gpio) == old(gpio).with_block(port, *final(r)),
{
    match port {
        Port::A => &mut gpio.a,
        Port::B => &mut gpio.b,
        Port::C => &mut gpio.c,
        Port::D => &mut gpio.d,
        Port::E => &mut gpio.e,
        Port::F => &mut gpio.f,
        Port::G => &mut gpio.g,
        Port::H => &mut gpio.h,
    }
}


/// The level of `pin` that the input data register shows: true for high.
pub open spec fn level(b: RegisterBlock, pin: u8) -> bool {
    get_field(b.idr, pin as u32, 1) == 1
}

/// The word written to the bit set/reset register to drive `pin` to `state`: bit
/// `pin` sets the pin, bit `pin + 16` resets it.
pub open spec fn bsrr_bits(pin: u8, state: PinState) -> u32 {
    match state {
        PinState::High => 1u32 << pin as u32,
        PinState::Low => 1u32 << (pin + 16) as u32,
    }
}

/// The block after a toggle of `pin`: the opposite of its level written through the
/// bit set/reset register.
pub open spec fn toggled(b: RegisterBlock, pin: u8) -> RegisterBlock {
    b.with_reg(GpioReg::Bsrr, bsrr_bits(pin, if level(b, pin) { PinState::Low } else { PinState::High }))
}

/// The block after selecting `mode` for `pin`: the mode field, and for an alternate
/// function also the function index in its bank.
pub open spec fn mode_applied(b: RegisterBlock, pin: u8, mode: PinMode) -> RegisterBlock {
    let b1 = b.with_field(field_loc(Field::Mode, pin), mode.moder_bits());
    match mode {
        PinMode::Alt(f) => b1.with_field(field_loc(Field::AltFunction, pin), f as u32),
        _ => b1,
    }
}

/// The set/reset word that drives `pin` to `state`. One write of it changes this
/// pin alone, whatever is done concurrently to the other pins of the port.
pub fn bsrr_word(pin: u8, state: PinState) -> (r: u32)
    requires
        pin <= 15,
    ensures
        r == bsrr_bits(pin, state),
{
    match state {
        PinState::High => 1u32 << pin as u32,
        PinState::Low => 1u32 << (pin as u32 + 16),
    }
}

/// Checks if a pin's input level is high, from the input data register.
pub fn is_high(gpio: &Gpio, port: Port, pin: u8) -> (r: bool)
    requires
        pin <= 15,
    ensures
        r == level(gpio.block(port), pin),
{
    let b = gpio.read_block(port);
    read_field(b.idr, pin as u32, 1) == 1
}

/// Checks if a pin's input level is low, from the input data register.
pub fn is_low(gpio: &Gpio, port: Port, pin: u8) -> (r: bool)
    requires
        pin <= 15,
    ensures
        r == !level(gpio.block(port), pin),
{
    !is_high(gpio, port, pin)
}

/// Drives a pin high with one write of the bit set/reset register.
pub fn set_high(gpio: &mut Gpio, port: Port, pin: u8)
    requires
        pin <= 15,
    ensures
        *final(gpio) == old(gpio).with_block(
            port,
            old(gpio).block(port).with_reg(GpioReg::Bsrr, bsrr_bits(pin, PinState::High)),
        ),
{
    set_state(gpio, port, pin, PinState::High);
}

/// Drives a pin low with one write of the bit set/reset register.
pub fn set_low(gpio: &mut Gpio, port: Port, pin: u8)
    requires
        pin <= 15,
    ensures
        *final(gpio) == old(gpio).with_block(
            port,
            old(gpio).block(port).with_reg(GpioReg::Bsrr, bsrr_bits(pin, PinState::Low)),
        ),
{
    set_state(gpio, port, pin, PinState::Low);
}

fn set_state(gpio: &mut Gpio, port: Port, pin: u8, value: PinState)
    requires
        pin <= 15,
    ensures
        *final(gpio) == old(gpio).with_block(
            port,
            old(gpio).block(port).with_reg(GpioReg::Bsrr, bsrr_bits(pin, value)),
        ),
{
    let word = bsrr_word(pin, value);
    let b = regs(gpio, port);
    b.write(GpioReg::Bsrr, word);
}

/// A single pin: its port and its index 0 to 15 in the port. Two values may name
/// the same physical pin; nothing here keeps them apart.
#[derive(Copy, Clone, Debug, PartialEq, Eq, Structural)]
pub struct Pin {
    /// The port letter.
    pub port: Port,
    /// The pin index, 0 to 15.
    pub pin: u8,
}

impl Pin {
    /// The register block of this pin's port.
    pub fn regs<'a>(&self, gpio: &'a mut Gpio) -> (r: &'a mut RegisterBlock)
        ensures
            *r == old(gpio).block(self.port),
            *final(gpio) == old(gpio).with_block(self.port, *final(r)),
    {
        regs(gpio, self.port)
    }

    /// Creates a pin in the given mode, first enabling its port's clock if that is
    /// still off.
    pub fn new(gpio: &mut Gpio, clocks: &mut PortClocks, port: Port, pin: u8, mode: PinMode) -> (r: Pin)
        requires
            pin <= 15,
            mode.is_valid(),
        ensures
            r == (Pin { port, pin }),
            final(clocks).is_enabled(port),
            final(clocks).enabled == old(clocks).enabled | crate::clocks::port_bit(port),
            final(clocks).reset == if old(clocks).is_enabled(port) {
                old(clocks).reset
            } else {
                old(clocks).reset & !crate::clocks::port_bit(port)
            },
            *final(gpio) == old(gpio).with_block(port, mode_applied(old(gpio).block(port), pin, mode)),
    {
        clocks.enable_port(port);
        let result = Pin { port, pin };
        result.mode(gpio, mode);
        result
    }

    /// Read-modify-write of one of this pin's fields, through the dispatcher.
    fn configure(&self, gpio: &mut Gpio, field: Field, value: u32)
        requires
            self.pin <= 15,
            value <= field_mask(field.width()),
        ensures
            *final(gpio) == old(gpio).with_block(
                self.port,
                old(gpio).block(self.port).with_field(field_loc(field, self.pin), value),
            ),
    {
        let loc = locate(field, self.pin);
        let b = self.regs(gpio);
        b.apply_field(loc, value);
    }

    /// Sets the pin mode; for an alternate function, also its function index.
    pub fn mode(&self, gpio: &mut Gpio, value: PinMode)
        requires
            self.pin <= 15,
            value.is_valid(),
        ensures
            *final(gpio) == old(gpio).with_block(
                self.port,
                mode_applied(old(gpio).block(self.port), self.pin, value),
            ),
    {
        proof {
            lemma_mask_values();
        }
        let bits = value.val();
        self.configure(gpio, Field::Mode, bits as u32);
        if let PinMode::Alt(alt) = value {
            self.alt_fn(gpio, alt);
        }
    }

    /// Writes the alternate-function index into the bank that holds this pin.
    fn alt_fn(&self, gpio: &mut Gpio, value: u8)
        requires
            self.pin <= 15,
            value <= 15,
        ensures
            *final(gpio) == old(gpio).with_block(
                self.port,
                old(gpio).block(self.port).with_field(field_loc(Field::AltFunction, self.pin), value as u32),
            ),
    {
        proof {
            lemma_mask_values();
        }
        self.configure(gpio, Field::AltFunction, value as u32);
    }

    /// Sets the output type.
    pub fn output_type(&self, gpio: &mut Gpio, value: OutputType)
        requires
            self.pin <= 15,
        ensures
            *final(gpio) == old(gpio).with_block(
                self.port,
                old(gpio).block(self.port).with_field(field_loc(Field::OutputType, self.pin), value.bits()),
            ),
    {
        proof {
            lemma_mask_values();
        }
        self.configure(gpio, Field::OutputType, value.bits());
    }

    /// Sets the output speed.
    pub fn output_speed(&self, gpio: &mut Gpio, value: OutputSpeed)
        requires
            self.pin <= 15,
        ensures
            *final(gpio) == old(gpio).with_block(
                self.port,
                old(gpio).block(self.port).with_field(field_loc(Field::OutputSpeed, self.pin), value.bits()),
            ),
    {
        proof {
            lemma_mask_values();
        }
        self.configure(gpio, Field::OutputSpeed, value.bits());
    }

    /// Sets the internal pull resistor: up, down, or floating.
    pub fn pull(&self, gpio: &mut Gpio, value: Pull)
        requires
            self.pin <= 15,
        ensures
            *final(gpio) == old(gpio).with_block(
                self.port,
                old(gpio).block(self.port).with_field(field_loc(Field::Pull, self.pin), value.bits()),
            ),
    {
        proof {
            lemma_mask_values();
        }
        self.configure(gpio, Field::Pull, value.bits());
    }

    /// Locks or unlocks the pin's configuration bit.
    pub fn cfg_lock(&self, gpio: &mut Gpio, value: CfgLock)
        requires
            self.pin <= 15,
        ensures
            *final(gpio) == old(gpio).with_block(
                self.port,
                old(gpio).block(self.port).with_field(field_loc(Field::Lock, self.pin), value.bits()),
            ),
    {
        proof {
            lemma_mask_values();
        }
        self.configure(gpio, Field::Lock, value.bits());
    }

    /// Reads the pin's level from the input data register.
    pub fn get_state(&self, gpio: &Gpio) -> (r: PinState)
        requires
            self.pin <= 15,
        ensures
            r == (if level(gpio.block(self.port), self.pin) {
                PinState::High
            } else {
                PinState::Low
            }),
    {
        if is_high(gpio, self.port, self.pin) {
            PinState::High
        } else {
            PinState::Low
        }
    }

    /// Drives the pin to `value` with one write of the bit set/reset register.
    pub fn set_state(&self, gpio: &mut Gpio, value: PinState)
        requires
            self.pin <= 15,
        ensures
            *final(gpio) == old(gpio).with_block(
                self.port,
                old(gpio).block(self.port).with_reg(GpioReg::Bsrr, bsrr_bits(self.pin, value)),
            ),
    {
        set_state(gpio, self.port, self.pin, value);
    }

    /// Checks if the pin's input level is high.
    pub fn is_high(&self, gpio: &Gpio) -> (r: bool)
        requires
            self.pin <= 15,
        ensures
            r == level(gpio.block(self.port), self.pin),
    {
        is_high(gpio, self.port, self.pin)
    }

    /// Checks if the pin's input level is low.
    pub fn is_low(&self, gpio: &Gpio) -> (r: bool)
        requires
            self.pin <= 15,
        ensures
            r == !level(gpio.block(self.port), self.pin),
    {
        !self.is_high(gpio)
    }

    /// Drives the pin high.
    pub fn set_high(&self, gpio: &mut Gpio)
        requires
            self.pin <= 15,
        ensures
            *final(gpio) == old(gpio).with_block(
                self.port,
                old(gpio).block(self.port).with_reg(GpioReg::Bsrr, bsrr_bits(self.pin, PinState::High)),
            ),
    {
        self.set_state(gpio, PinState::High);
    }

    /// Drives the pin low.
    pub fn set_low(&self, gpio: &mut Gpio)
        requires
            self.pin <= 15,
        ensures
            *final(gpio) == old(gpio).with_block(
                self.port,
                old(gpio).block(self.port).with_reg(GpioReg::Bsrr, bsrr_bits(self.pin, PinState::Low)),
            ),
    {
        self.set_state(gpio, PinState::Low);
    }

    /// Inverts the pin's output: reads its level, then drives the opposite one. The
    /// read and the write are two accesses, so a write to this pin between them
    /// (from an interrupt handler) is lost.
    pub fn toggle(&self, gpio: &mut Gpio)
        requires
            self.pin <= 15,
        ensures
            *final(gpio) == old(gpio).with_block(self.port, toggled(old(gpio).block(self.port), self.pin)),
    {
        if self.is_high(gpio) {
            self.set_low(gpio);
        } else {
            self.set_high(gpio);
        }
    }
}


/// Both mode bits and the function index of an alternate-function selection.
pub open spec fn alt_selected(b: RegisterBlock, pin: u8, f: u8) -> bool {
    &&& b.field(field_loc(Field::Mode, pin)) == PinMode::Alt(f).moder_bits()
    &&& b.field(field_loc(Field::AltFunction, pin)) == f as u32
}

/// Setting a pin's mode leaves the new mode in the pin's mode field, changes the mode
/// field of no other pin of the port, and changes no other port.
pub proof fn lemma_mode_isolation(gpio: Gpio, pin: Pin, mode: PinMode)
    requires
        pin.pin <= 15,
        mode.is_valid(),
    ensures
        ({
            let after = gpio.with_block(pin.port, mode_applied(gpio.block(pin.port), pin.pin, mode));
            &&& after.block(pin.port).field(field_loc(Field::Mode, pin.pin)) == mode.moder_bits()
            &&& forall|q: u8|
                #![trigger field_loc(Field::Mode, q)]
                q <= 15 && q != pin.pin ==> after.block(pin.port).field(field_loc(Field::Mode, q))
                    == gpio.block(pin.port).field(field_loc(Field::Mode, q))
            &&& forall|p: Port| p != pin.port ==> after.block(p) == gpio.block(p)
        }),
{
    lemma_mask_values();
    let b = gpio.block(pin.port);
    lemma_put_get(b.moder, (pin.pin * 2) as u32, 2, mode.moder_bits());
    assert forall|q: u8|
        #![trigger field_loc(Field::Mode, q)]
        q <= 15 && q != pin.pin implies mode_applied(b, pin.pin, mode).field(field_loc(Field::Mode, q))
        == b.field(field_loc(Field::Mode, q)) by {
        lemma_put_frame(b.moder, (pin.pin * 2) as u32, 2, mode.moder_bits(), (q * 2) as u32, 2);
    }
}

/// Selecting alternate function `f` leaves `f` in the pin's banked function field,
/// and changes the function field of no other pin: neither the pins of the same
/// bank nor the pin at the same place of the other bank.
pub proof fn lemma_alt_function_isolation(gpio: Gpio, pin: Pin, f: u8)
    requires
        pin.pin <= 15,
        f <= 15,
    ensures
        ({
            let before = gpio.block(pin.port);
            let after = mode_applied(before, pin.pin, PinMode::Alt(f));
            &&& after.field(field_loc(Field::AltFunction, pin.pin)) == f as u32
            &&& forall|q: u8|
                #![trigger field_loc(Field::AltFunction, q)]
                q <= 15 && q != pin.pin ==> after.field(field_loc(Field::AltFunction, q))
                    == before.field(field_loc(Field::AltFunction, q))
        }),
{
    lemma_mask_values();
    let b = gpio.block(pin.port);
    let b1 = b.with_field(field_loc(Field::Mode, pin.pin), 2);
    let loc = field_loc(Field::AltFunction, pin.pin);
    lemma_put_get(b1.reg(loc.reg), loc.shift, 4, f as u32);
    assert forall|q: u8|
        #![trigger field_loc(Field::AltFunction, q)]
        q <= 15 && q != pin.pin implies mode_applied(b, pin.pin, PinMode::Alt(f)).field(
        field_loc(Field::AltFunction, q)) == b.field(field_loc(Field::AltFunction, q)) by {
        let lq = field_loc(Field::AltFunction, q);
        if lq.reg == loc.reg {
            lemma_put_frame(b1.reg(loc.reg), loc.shift, 4, f as u32, lq.shift, 4);
        }
    }
}

/// An alternate-function selection is one step that writes both the mode bits and
/// the function index: from any state, the state after it holds both, so code that
/// runs only before or after the step (an interrupt handler kept out by a critical
/// section) never sees the mode selected with a stale function index.
pub proof fn lemma_alt_selection_whole(b: RegisterBlock, pin: u8, f: u8)
    requires
        pin <= 15,
        f <= 15,
    ensures
        alt_selected(mode_applied(b, pin, PinMode::Alt(f)), pin, f),
{
    lemma_mask_values();
    let b1 = b.with_field(field_loc(Field::Mode, pin), 2);
    let loc = field_loc(Field::AltFunction, pin);
    lemma_put_get(b.moder, (pin * 2) as u32, 2, 2);
    lemma_put_get(b1.reg(loc.reg), loc.shift, 4, f as u32);
}

proof fn lemma_set_reset_bits(w: u32, p: u32, q: u32)
    requires
        p < 16,
        q < 16,
    ensures
        get_field(crate::registers::set_reset(w, 1u32 << p), p, 1) == 1,
        get_field(crate::registers::set_reset(w, 1u32 << (p + 16) as u32), p, 1) == 0,
        q != p ==> get_field(crate::registers::set_reset(w, 1u32 << p), q, 1) == get_field(w, q, 1),
        q != p ==> get_field(crate::registers::set_reset(w, 1u32 << (p + 16) as u32), q, 1)
            == get_field(w, q, 1),
{
    assert((((w & !((1u32 << p) >> 16u32)) | ((1u32 << p) & 0xFFFFu32)) >> p) & !(0xFFFF_FFFFu32
        << 1u32) == 1u32) by (bit_vector)
        requires p < 16u32;
    assert((((w & !((1u32 << (p + 16u32)) >> 16u32)) | ((1u32 << (p + 16u32)) & 0xFFFFu32)) >> p)
        & !(0xFFFF_FFFFu32 << 1u32) == 0u32) by (bit_vector)
        requires p < 16u32;
    assert(q != p ==> (((w & !((1u32 << p) >> 16u32)) | ((1u32 << p) & 0xFFFFu32)) >> q) & !(
    0xFFFF_FFFFu32 << 1u32) == (w >> q) & !(0xFFFF_FFFFu32 << 1u32)) by (bit_vector)
        requires p < 16u32, q < 16u32;
    assert(q != p ==> (((w & !((1u32 << (p + 16u32)) >> 16u32)) | ((1u32 << (p + 16u32))
        & 0xFFFFu32)) >> q) & !(0xFFFF_FFFFu32 << 1u32) == (w >> q) & !(0xFFFF_FFFFu32 << 1u32))
        by (bit_vector)
        requires p < 16u32, q < 16u32;
}

/// Driving a pin to a state through the bit set/reset register makes the pin read
/// back that state, and leaves the level of every other pin of the port as it was.
pub proof fn lemma_write_read_state(b: RegisterBlock, pin: u8, state: PinState)
    requires
        pin <= 15,
    ensures
        ({
            let after = b.with_reg(GpioReg::Bsrr, bsrr_bits(pin, state));
            &&& (if level(after, pin) { PinState::High } else { PinState::Low }) == state
            &&& forall|q: u8| #![trigger level(after, q)] q <= 15 && q != pin ==> level(after, q) == level(b, q)
        }),
{
    lemma_set_reset_bits(b.idr, pin as u32, 0);
    let after = b.with_reg(GpioReg::Bsrr, bsrr_bits(pin, state));
    assert forall|q: u8| #![trigger level(after, q)] q <= 15 && q != pin implies level(after, q) == level(b, q) by {
        lemma_set_reset_bits(b.idr, pin as u32, q as u32);
    }
}

/// Two toggles in a row, with nothing in between, restore the level of every pin of
/// the port.
pub proof fn lemma_toggle_twice(b: RegisterBlock, pin: u8)
    requires
        pin <= 15,
    ensures
        toggled(toggled(b, pin), pin).idr == b.idr,
        level(toggled(toggled(b, pin), pin), pin) == level(b, pin),
{
    let w = b.idr;
    let p = pin as u32;
    assert(!(0xFFFF_FFFFu32 << 1u32) == 1u32) by (bit_vector);
    assert(((w >> p) & 1u32) == 1u32 ==> ((((w & !((1u32 << (p + 16u32)) >> 16u32)) | ((1u32 << (p
        + 16u32)) & 0xFFFFu32)) >> p) & 1u32) == 0u32 && ((((w & !((1u32 << (p + 16u32)) >> 16u32))
        | ((1u32 << (p + 16u32)) & 0xFFFFu32)) & !((1u32 << p) >> 16u32)) | ((1u32 << p) & 0xFFFFu32))
        == w) by (bit_vector)
        requires p < 16u32;
    assert(((w >> p) & 1u32) != 1u32 ==> ((((w & !((1u32 << p) >> 16u32)) | ((1u32 << p)
        & 0xFFFFu32)) >> p) & 1u32) == 1u32 && ((((w & !((1u32 << p) >> 16u32)) | ((1u32 << p)
        & 0xFFFFu32)) & !((1u32 << (p + 16u32)) >> 16u32)) | ((1u32 << (p + 16u32)) & 0xFFFFu32)) == w)
        by (bit_vector)
        requires p < 16u32;
}

} // verus!
