//! Routing a pin to its external interrupt line: the line's mask and edge-trigger
//! bits in the interrupt controller, and the port code in the line multiplexer.

use vstd::prelude::*;
use crate::field::{field_fits, get_field, lemma_mask_values, lemma_put_frame, lemma_put_get, put_field, write_field};
use crate::gpio::Pin;
use crate::types::Edge;

verus! {

/// The interrupt controller's mask, rising-trigger and falling-trigger registers for
/// lines 0 to 15. Bit `i` of each belongs to line `i`.
#[derive(Copy, Clone, Debug, PartialEq, Eq, Structural)]
pub struct Exti {
    pub imr: u32,
    pub rtsr: u32,
    pub ftsr: u32,
}

/// How a chip's multiplexer lays out its four control words: four fields of four
/// bits each (in the system configuration controller), or four of eight bits (in the
/// interrupt controller itself, on the families that keep it there).
#[derive(Copy, Clone, Debug, PartialEq, Eq, Structural)]
pub enum MuxLayout {
    Nibble,
    Byte,
}

impl MuxLayout {
    pub open spec fn spec_width(self) -> u32 {
        match self {
            MuxLayout::Nibble => 4,
            MuxLayout::Byte => 8,
        }
    }

    /// Bits of one routing field.
    #[verifier::when_used_as_spec(spec_width)]
    pub fn width(self) -> (r: u32)
        ensures
            r == self.spec_width(),
    {
        match self {
            MuxLayout::Nibble => 4,
            MuxLayout::Byte => 8,
        }
    }
}

/// The line multiplexer: four control words, each routing four lines.
#[derive(Copy, Clone, Debug, PartialEq, Eq, Structural)]
pub struct LineMux {
    pub layout: MuxLayout,
    pub cr1: u32,
    pub cr2: u32,
    pub cr3: u32,
    pub cr4: u32,
}

/// Where the routing field of one line lies: a control word (0 to 3), the field's
/// first bit and its width.
#[derive(Copy, Clone, Debug, PartialEq, Eq, Structural)]
pub struct RouteLoc {
    pub index: usize,
    pub shift: u32,
    pub width: u32,
}

/// Line `pin` is routed by word `pin / 4`, in sub-field `pin % 4`.
pub open spec fn route_loc(pin: u8, layout: MuxLayout) -> RouteLoc {
    RouteLoc {
        index: (pin / 4) as usize,
        shift: ((pin % 4) * layout.width()) as u32,
        width: layout.width(),
    }
}

/// Which bits of which control word route line `pin`.
pub fn locate_route(pin: u8, layout: MuxLayout) -> (r: RouteLoc)
    requires
        pin <= 15,
    ensures
        r == route_loc(pin, layout),
        r.index < 4,
        field_fits(r.shift, r.width),
{
    let w = layout.width();
    RouteLoc { index: (pin / 4) as usize, shift: (pin as u32 % 4) * w, width: w }
}

impl LineMux {
    /// A multiplexer that routes every line to port A.
    pub fn new(layout: MuxLayout) -> (r: LineMux)
        ensures
            r == (LineMux { layout, cr1: 0, cr2: 0, cr3: 0, cr4: 0 }),
    {
        LineMux { layout, cr1: 0, cr2: 0, cr3: 0, cr4: 0 }
    }

    pub open spec fn cr(self, index: usize) -> u32 {
        if index == 0 {
            self.cr1
        } else if index == 1 {
            self.cr2
        } else if index == 2 {
            self.cr3
        } else {
            self.cr4
        }
    }

    pub open spec fn with_cr(self, index: usize, value: u32) -> LineMux {
        if index == 0 {
            LineMux { cr1: value, ..self }
        } else if index == 1 {
            LineMux { cr2: value, ..self }
        } else if index == 2 {
            LineMux { cr3: value, ..self }
        } else {
            LineMux { cr4: value, ..self }
        }
    }

    /// The port code that line `pin` is routed to.
    pub open spec fn routed_code(self, pin: u8) -> u32 {
        let loc = route_loc(pin, self.layout);
        get_field(self.cr(loc.index), loc.shift, loc.width)
    }

    /// The multiplexer after routing line `pin` to the port with code `code`.
    pub open spec fn with_route(self, pin: u8, code: u32) -> LineMux {
        let loc = route_loc(pin, self.layout);
        self.with_cr(loc.index, put_field(self.cr(loc.index), loc.shift, loc.width, code))
    }

    pub fn read_cr(&self, index: usize) -> (r: u32)
        ensures
            r == self.cr(index),
    {
        if index == 0 {
            self.cr1
        } else if index == 1 {
            self.cr2
        } else if index == 2 {
            self.cr3
        } else {
            self.cr4
        }
    }

    pub fn write_cr(&mut self, index: usize, value: u32)
        ensures
            *final(self) == old(self).with_cr(index, value),
    {
        if index == 0 {
            self.cr1 = value;
        } else if index == 1 {
            self.cr2 = value;
        } else if index == 2 {
            self.cr3 = value;
        } else {
            self.cr4 = value;
        }
    }

    /// Routes line `pin` to the port with code `code`: one read-modify-write of the
    /// control word that holds the line.
    pub fn route(&mut self, pin: u8, code: u8)
        requires
            pin <= 15,
            code <= 7,
        ensures
            *final(self) == old(self).with_route(pin, code as u32),
    {
        proof {
            lemma_mask_values();
        }
        let loc = locate_route(pin, self.layout);
        let word = self.read_cr(loc.index);
        let new_word = write_field(word, loc.shift, loc.width, code as u32);
        self.write_cr(loc.index, new_word);
    }
}

/// Bit `line` of `word` set to `on`.
pub open spec fn with_line(word: u32, line: u8, on: bool) -> u32 {
    put_field(word, line as u32, 1, if on { 1 } else { 0 })
}

impl Exti {
    /// Every line masked, no trigger enabled.
    pub fn new() -> (r: Exti)
        ensures
            r == (Exti { imr: 0, rtsr: 0, ftsr: 0 }),
    {
        Exti { imr: 0, rtsr: 0, ftsr: 0 }
    }

    /// The controller after arming line `line` for `edge`: the line unmasked, the
    /// trigger bit of `edge` set and that of the other edge cleared.
    pub open spec fn armed(self, line: u8, edge: Edge) -> Exti {
        Exti {
            imr: with_line(self.imr, line, true),
            rtsr: with_line(self.rtsr, line, edge == Edge::Rising),
            ftsr: with_line(self.ftsr, line, edge == Edge::Falling),
        }
    }

    /// Arms line `line` for `edge`; see [`Exti::armed`].
    pub fn arm(&mut self, line: u8, edge: Edge)
        requires
            line <= 15,
        ensures
            *final(self) == old(self).armed(line, edge),
    {
        proof {
            lemma_mask_values();
        }
        let rising = match edge {
            Edge::Rising => true,
            Edge::Falling => false,
        };
        self.imr = write_field(self.imr, line as u32, 1, 1);
        self.rtsr = write_field(self.rtsr, line as u32, 1, if rising { 1 } else { 0 });
        self.ftsr = write_field(self.ftsr, line as u32, 1, if rising { 0 } else { 1 });
    }
}

impl Pin {
    /// Configures this pin as the source of its interrupt line, triggered on `edge`.
    /// The line is shared by the pins of the same index in every port: routing it
    /// here takes it from whichever port had it before.
    pub fn enable_interrupt(&self, exti: &mut Exti, mux: &mut LineMux, edge: Edge)
        requires
            self.pin <= 15,
        ensures
            *final(exti) == old(exti).armed(self.pin, edge),
            *final(mux) == old(mux).with_route(self.pin, self.port.code()),
    {
        exti.arm(self.pin, edge);
        mux.route(self.pin, self.port.cr_val());
    }
}


/// Arming a line for the rising edge sets its rising-trigger bit and clears its
/// falling-trigger bit; arming it for the falling edge does the exact opposite.
/// Either way the line is unmasked.
pub proof fn lemma_edge_trigger_bits(exti: Exti, line: u8, edge: Edge)
    requires
        line <= 15,
    ensures
        get_field(exti.armed(line, edge).imr, line as u32, 1) == 1,
        get_field(exti.armed(line, edge).rtsr, line as u32, 1) == (if edge == Edge::Rising { 1u32 } else { 0u32 }),
        get_field(exti.armed(line, edge).ftsr, line as u32, 1) == (if edge == Edge::Rising { 0u32 } else { 1u32 }),
{
    lemma_mask_values();
    lemma_put_get(exti.imr, line as u32, 1, 1);
    lemma_put_get(exti.rtsr, line as u32, 1, if edge == Edge::Rising { 1 } else { 0 });
    lemma_put_get(exti.ftsr, line as u32, 1, if edge == Edge::Falling { 1 } else { 0 });
}

/// Routing line `pin` to a port writes the port's code into sub-field `pin % 4` of
/// control word `pin / 4`, and leaves the other three sub-fields of that word and the
/// other control words as they were.
pub proof fn lemma_route_isolation(mux: LineMux, pin: u8, port: crate::types::Port)
    requires
        pin <= 15,
    ensures
        ({
            let after = mux.with_route(pin, port.code());
            let w = mux.layout.width();
            let i = (pin / 4) as usize;
            &&& after.routed_code(pin) == port.code()
            &&& get_field(after.cr(i), ((pin % 4) * w) as u32, w) == port.code()
            &&& forall|k: u32|
                #![trigger get_field(after.cr(i), (k * w) as u32, w)]
                k < 4 && k != (pin % 4) as u32 ==> get_field(after.cr(i), (k * w) as u32, w) == get_field(mux.cr(i), (k * w) as u32, w)
            &&& forall|j: usize| j < 4 && j != i ==> after.cr(j) == mux.cr(j)
        }),
{
    lemma_mask_values();
    let loc = route_loc(pin, mux.layout);
    let w = mux.layout.width();
    lemma_put_get(mux.cr(loc.index), loc.shift, w, port.code());
    let after = mux.with_route(pin, port.code());
    assert forall|k: u32|
        #![trigger get_field(after.cr(loc.index), (k * w) as u32, w)]
        k < 4 && k != (pin % 4) as u32 implies get_field(after.cr(loc.index), (k * w) as u32, w) == get_field(
        mux.cr(loc.index), (k * w) as u32, w) by {
        lemma_put_frame(mux.cr(loc.index), loc.shift, w, port.code(), (k * w) as u32, w);
    }
}

} // verus!
