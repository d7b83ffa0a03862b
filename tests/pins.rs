use stm32_gpio::{
    bsrr_word, is_high, is_low, locate, read_field, set_high, set_low, write_field, CfgLock, Field,
    FieldLoc, Gpio, GpioReg, OutputSpeed, OutputType, Pin, PinMode, PinState, Port, PortClocks,
    Pull, RegisterBlock,
};

#[test]
fn field_write_and_read_back() {
    assert_eq!(write_field(0xFFFF_FFFF, 4, 2, 1), 0xFFFF_FFDF);
    assert_eq!(write_field(0, 28, 4, 0xA), 0xA000_0000);
    assert_eq!(read_field(0xA000_0000, 28, 4), 0xA);
    assert_eq!(read_field(0x0000_0030, 4, 2), 3);
}

#[test]
fn dispatcher_uniform_fields() {
    assert_eq!(locate(Field::Mode, 15), FieldLoc { reg: GpioReg::Moder, shift: 30, width: 2 });
    assert_eq!(locate(Field::OutputType, 7), FieldLoc { reg: GpioReg::Otyper, shift: 7, width: 1 });
    assert_eq!(locate(Field::Pull, 3), FieldLoc { reg: GpioReg::Pupdr, shift: 6, width: 2 });
    assert_eq!(locate(Field::Lock, 12), FieldLoc { reg: GpioReg::Lckr, shift: 12, width: 1 });
}

#[test]
fn dispatcher_banked_field() {
    assert_eq!(locate(Field::AltFunction, 0), FieldLoc { reg: GpioReg::Afrl, shift: 0, width: 4 });
    assert_eq!(locate(Field::AltFunction, 7), FieldLoc { reg: GpioReg::Afrl, shift: 28, width: 4 });
    assert_eq!(locate(Field::AltFunction, 8), FieldLoc { reg: GpioReg::Afrh, shift: 0, width: 4 });
    assert_eq!(locate(Field::AltFunction, 9), FieldLoc { reg: GpioReg::Afrh, shift: 4, width: 4 });
}

#[test]
fn register_offsets() {
    assert_eq!(GpioReg::Moder.offset(), 0x00);
    assert_eq!(GpioReg::Idr.offset(), 0x10);
    assert_eq!(GpioReg::Bsrr.offset(), 0x18);
    assert_eq!(GpioReg::Afrh.offset(), 0x24);
}

#[test]
fn mode_writes_only_its_two_bits() {
    let mut g = Gpio::new();
    g.a.moder = 0xFFFF_FFFF;
    let p = Pin { port: Port::A, pin: 5 };
    p.mode(&mut g, PinMode::Output);
    assert_eq!(g.a.moder, 0xFFFF_F7FF);
    assert_eq!(g.b, RegisterBlock::new());
    p.mode(&mut g, PinMode::Input);
    assert_eq!(g.a.moder, 0xFFFF_F3FF);
    p.mode(&mut g, PinMode::Analog);
    assert_eq!(g.a.moder, 0xFFFF_FFFF);
}

#[test]
fn mode_of_every_pin_reads_back() {
    for pin in 0u8..16 {
        let mut g = Gpio::new();
        let p = Pin { port: Port::D, pin };
        p.mode(&mut g, PinMode::Analog);
        assert_eq!(g.d.moder, 3u32 << (2 * pin as u32));
        assert_eq!(g.a, RegisterBlock::new());
    }
}

#[test]
fn alt_low_bank() {
    let mut g = Gpio::new();
    let p = Pin { port: Port::B, pin: 3 };
    p.mode(&mut g, PinMode::Alt(7));
    assert_eq!(g.b.moder, 2 << 6);
    assert_eq!(g.b.afrl, 7 << 12);
    assert_eq!(g.b.afrh, 0);
}

#[test]
fn alt_high_bank() {
    let mut g = Gpio::new();
    let p = Pin { port: Port::B, pin: 11 };
    p.mode(&mut g, PinMode::Alt(5));
    assert_eq!(g.b.moder, 2 << 22);
    assert_eq!(g.b.afrh, 5 << 12);
    assert_eq!(g.b.afrl, 0);
}

#[test]
fn alt_bank_isolation() {
    let mut g = Gpio::new();
    Pin { port: Port::C, pin: 3 }.mode(&mut g, PinMode::Alt(7));
    Pin { port: Port::C, pin: 11 }.mode(&mut g, PinMode::Alt(15));
    assert_eq!(g.c.afrl, 7 << 12);
    assert_eq!(g.c.afrh, 15 << 12);
    Pin { port: Port::C, pin: 2 }.mode(&mut g, PinMode::Alt(1));
    assert_eq!(g.c.afrl, (7 << 12) | (1 << 8));
}

#[test]
fn alt_reselection_overwrites_function() {
    let mut g = Gpio::new();
    let p = Pin { port: Port::E, pin: 14 };
    p.mode(&mut g, PinMode::Alt(0xF));
    p.mode(&mut g, PinMode::Alt(2));
    assert_eq!(g.e.afrh, 2 << 24);
    assert_eq!(g.e.moder, 2 << 28);
}

#[test]
fn output_type_speed_pull_lock() {
    let mut g = Gpio::new();
    let p = Pin { port: Port::F, pin: 4 };
    p.output_type(&mut g, OutputType::OpenDrain);
    assert_eq!(g.f.otyper, 1 << 4);
    p.output_type(&mut g, OutputType::PushPull);
    assert_eq!(g.f.otyper, 0);
    p.output_speed(&mut g, OutputSpeed::High);
    assert_eq!(g.f.ospeedr, 3 << 8);
    p.output_speed(&mut g, OutputSpeed::Medium);
    assert_eq!(g.f.ospeedr, 1 << 8);
    p.output_speed(&mut g, OutputSpeed::Fast);
    assert_eq!(g.f.ospeedr, 2 << 8);
    p.pull(&mut g, Pull::Dn);
    assert_eq!(g.f.pupdr, 2 << 8);
    p.pull(&mut g, Pull::Up);
    assert_eq!(g.f.pupdr, 1 << 8);
    p.pull(&mut g, Pull::Floating);
    assert_eq!(g.f.pupdr, 0);
    p.cfg_lock(&mut g, CfgLock::Locked);
    assert_eq!(g.f.lckr, 1 << 4);
    p.cfg_lock(&mut g, CfgLock::NotLocked);
    assert_eq!(g.f.lckr, 0);
}

#[test]
fn set_reset_words() {
    assert_eq!(bsrr_word(0, PinState::High), 1);
    assert_eq!(bsrr_word(3, PinState::High), 1 << 3);
    assert_eq!(bsrr_word(3, PinState::Low), 1 << 19);
    assert_eq!(bsrr_word(15, PinState::Low), 1 << 31);
}

#[test]
fn write_state_then_read_state() {
    let mut g = Gpio::new();
    let p = Pin { port: Port::G, pin: 13 };
    p.set_state(&mut g, PinState::High);
    assert_eq!(p.get_state(&g), PinState::High);
    assert_eq!(g.g.odr, 1 << 13);
    p.set_state(&mut g, PinState::Low);
    assert_eq!(p.get_state(&g), PinState::Low);
    assert_eq!(g.g.odr, 0);
}

#[test]
fn write_state_leaves_other_pins() {
    let mut g = Gpio::new();
    g.h.idr = 0x00FF;
    g.h.odr = 0x00FF;
    let p = Pin { port: Port::H, pin: 2 };
    p.set_low(&mut g);
    assert_eq!(g.h.idr, 0x00FB);
    assert!(p.is_low(&g));
    p.set_high(&mut g);
    assert_eq!(g.h.idr, 0x00FF);
    assert!(p.is_high(&g));
    Pin { port: Port::H, pin: 9 }.set_high(&mut g);
    assert_eq!(g.h.odr, 0x02FF);
}

#[test]
fn toggle_twice_restores() {
    let mut g = Gpio::new();
    g.a.idr = 0x8001;
    let p = Pin { port: Port::A, pin: 0 };
    p.toggle(&mut g);
    assert_eq!(g.a.idr, 0x8000);
    assert_eq!(p.get_state(&g), PinState::Low);
    p.toggle(&mut g);
    assert_eq!(g.a.idr, 0x8001);
    assert_eq!(p.get_state(&g), PinState::High);
}

#[test]
fn toggle_from_low() {
    let mut g = Gpio::new();
    let p = Pin { port: Port::B, pin: 15 };
    p.toggle(&mut g);
    assert!(p.is_high(&g));
    assert_eq!(g.b.odr, 1 << 15);
}

#[test]
fn port_level_functions() {
    let mut g = Gpio::new();
    set_high(&mut g, Port::C, 7);
    assert!(is_high(&g, Port::C, 7));
    assert!(!is_low(&g, Port::C, 7));
    assert!(is_low(&g, Port::C, 6));
    set_low(&mut g, Port::C, 7);
    assert!(is_low(&g, Port::C, 7));
    assert_eq!(g.c.odr, 0);
}

#[test]
fn new_pin_enables_clock_once_and_sets_mode() {
    let mut g = Gpio::new();
    let mut clocks = PortClocks::new();
    let p = Pin::new(&mut g, &mut clocks, Port::C, 9, PinMode::Alt(4));
    assert_eq!(p, Pin { port: Port::C, pin: 9 });
    assert_eq!(clocks.enabled, 1 << 2);
    assert_eq!(clocks.reset, 0);
    assert_eq!(g.c.moder, 2 << 18);
    assert_eq!(g.c.afrh, 4 << 4);
    let q = Pin::new(&mut g, &mut clocks, Port::C, 1, PinMode::Output);
    assert_eq!(q.pin, 1);
    assert_eq!(clocks.enabled, 1 << 2);
    assert_eq!(g.c.moder, (2 << 18) | (1 << 2));
}

#[test]
fn clock_enable_pulses_only_first_time() {
    let mut clocks = PortClocks::new();
    assert!(clocks.enable_port(Port::H));
    assert!(!clocks.enable_port(Port::H));
    assert!(clocks.enable_port(Port::A));
    assert_eq!(clocks.enabled, 0x81);
    assert_eq!(clocks.reset, 0);
}

#[test]
fn port_codes() {
    assert_eq!(Port::A.cr_val(), 0);
    assert_eq!(Port::D.cr_val(), 3);
    assert_eq!(Port::H.cr_val(), 7);
    assert_eq!(PinMode::Alt(9).val(), 2);
    assert_eq!(PinMode::Analog.val(), 3);
}
