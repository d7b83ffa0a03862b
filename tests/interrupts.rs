use stm32_gpio::{locate_route, Edge, Exti, LineMux, MuxLayout, Pin, Port, RouteLoc};

#[test]
fn rising_edge_sets_rising_clears_falling() {
    let mut e = Exti { imr: 0, rtsr: 0, ftsr: 0xFFFF };
    let mut m = LineMux::new(MuxLayout::Nibble);
    Pin { port: Port::A, pin: 5 }.enable_interrupt(&mut e, &mut m, Edge::Rising);
    assert_eq!(e.imr, 1 << 5);
    assert_eq!(e.rtsr, 1 << 5);
    assert_eq!(e.ftsr, 0xFFFF & !(1 << 5));
}

#[test]
fn falling_edge_is_the_complement() {
    let mut e = Exti { imr: 0, rtsr: 0xFFFF, ftsr: 0 };
    let mut m = LineMux::new(MuxLayout::Nibble);
    Pin { port: Port::A, pin: 15 }.enable_interrupt(&mut e, &mut m, Edge::Falling);
    assert_eq!(e.imr, 1 << 15);
    assert_eq!(e.rtsr, 0x7FFF);
    assert_eq!(e.ftsr, 1 << 15);
}

#[test]
fn routing_nibble_fields() {
    assert_eq!(locate_route(6, MuxLayout::Nibble), RouteLoc { index: 1, shift: 8, width: 4 });
    assert_eq!(locate_route(15, MuxLayout::Nibble), RouteLoc { index: 3, shift: 12, width: 4 });
    assert_eq!(locate_route(6, MuxLayout::Byte), RouteLoc { index: 1, shift: 16, width: 8 });
}

#[test]
fn routing_writes_port_code_and_keeps_neighbours() {
    let mut e = Exti::new();
    let mut m = LineMux::new(MuxLayout::Nibble);
    m.cr2 = 0x1111;
    Pin { port: Port::D, pin: 6 }.enable_interrupt(&mut e, &mut m, Edge::Rising);
    assert_eq!(m.cr2, 0x1311);
    assert_eq!(m.cr1, 0);
    assert_eq!(m.cr3, 0);
    assert_eq!(m.cr4, 0);
}

#[test]
fn routing_byte_fields() {
    let mut e = Exti::new();
    let mut m = LineMux::new(MuxLayout::Byte);
    Pin { port: Port::C, pin: 13 }.enable_interrupt(&mut e, &mut m, Edge::Falling);
    assert_eq!(m.cr4, 2 << 8);
    assert_eq!(e.ftsr, 1 << 13);
}

#[test]
fn routing_a_line_again_takes_it_over() {
    let mut e = Exti::new();
    let mut m = LineMux::new(MuxLayout::Nibble);
    Pin { port: Port::C, pin: 0 }.enable_interrupt(&mut e, &mut m, Edge::Rising);
    assert_eq!(m.cr1, 2);
    Pin { port: Port::E, pin: 0 }.enable_interrupt(&mut e, &mut m, Edge::Rising);
    assert_eq!(m.cr1, 4);
}

#[test]
fn arm_line_directly() {
    let mut e = Exti::new();
    e.arm(3, Edge::Falling);
    assert_eq!(e, Exti { imr: 8, rtsr: 0, ftsr: 8 });
    e.arm(3, Edge::Rising);
    assert_eq!(e, Exti { imr: 8, rtsr: 8, ftsr: 0 });
}

#[test]
fn route_directly() {
    let mut m = LineMux::new(MuxLayout::Nibble);
    m.route(9, 7);
    assert_eq!(m.cr3, 7 << 4);
    m.route(9, 1);
    assert_eq!(m.cr3, 1 << 4);
}
