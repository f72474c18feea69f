use axhal::pl061::{
    handle, init, read_pin, write_pin, Access, Direction, EdgeMode, GpioOp, GpioReg, IrqMask,
    PinMode, Polarity, Sense, GPIO_IRQ, GPIO_REGS_END,
};

#[test]
fn register_offsets_match_layout() {
    assert_eq!(GpioReg::Data(0).offset(), 0x000);
    assert_eq!(GpioReg::Data(255).offset(), 0x3fc);
    assert_eq!(GpioReg::Dir.offset(), 0x400);
    assert_eq!(GpioReg::Ie.offset(), 0x410);
    assert_eq!(GpioReg::Ic.offset(), 0x41c);
    assert_eq!(GpioReg::Afsel.offset(), 0x420);
    assert!(GpioReg::Afsel.offset() + 4 <= GPIO_REGS_END);
}

#[test]
fn register_access_modes() {
    assert_eq!(GpioReg::Ris.access(), Access::ReadOnly);
    assert_eq!(GpioReg::Mis.access(), Access::ReadOnly);
    assert_eq!(GpioReg::Ic.access(), Access::WriteOnly);
    assert_eq!(GpioReg::Ie.access(), Access::ReadWrite);
    assert!(!GpioReg::Ic.can_read());
    assert!(GpioReg::Ic.can_write());
    assert!(GpioReg::Ris.can_read());
    assert!(!GpioReg::Ris.can_write());
    assert!(GpioReg::Data(9).can_read() && GpioReg::Data(9).can_write());
}

#[test]
fn write_pin_then_read_back_keeps_siblings() {
    let reg: u32 = 0xdead_be5a;
    for pin in 0..8u32 {
        for v in [Direction::Input, Direction::Output] {
            let w = write_pin(reg, pin, v.bit());
            assert_eq!(Direction::from_bit(read_pin(w, pin)), v);
            let mask = 1u32 << pin;
            assert_eq!(w & !mask, reg & !mask);
        }
    }
}

#[test]
fn symbolic_values_have_their_bits() {
    assert_eq!(Direction::Output.bit(), 1);
    assert_eq!(Sense::Level.bit(), 1);
    assert_eq!(Sense::Edge.bit(), 0);
    assert_eq!(EdgeMode::BothEdges.bit(), 1);
    assert_eq!(Polarity::FallingLow.bit(), 0);
    assert_eq!(IrqMask::Enabled.bit(), 1);
    assert_eq!(PinMode::Alternate.bit(), 1);
    assert_eq!(PinMode::from_bit(0), PinMode::Gpio);
    assert_eq!(Polarity::from_bit(1), Polarity::RisingHigh);
}

#[test]
fn write_pin_sets_and_clears_one_bit() {
    assert_eq!(write_pin(0, 3, IrqMask::Enabled.bit()), 0x8);
    assert_eq!(write_pin(0xff, 0, Sense::Edge.bit()), 0xfe);
    assert_eq!(write_pin(0xffff_ff00, 7, EdgeMode::BothEdges.bit()), 0xffff_ff80);
    assert_eq!(read_pin(0x80, 7), 1);
    assert_eq!(read_pin(0x80, 6), 0);
}

#[test]
fn init_enables_watched_pin() {
    assert_eq!(
        init(true),
        vec![
            GpioOp::EnableLine(GPIO_IRQ),
            GpioOp::RegisterHandler(39),
            GpioOp::Write(GpioReg::Ie, 0x8),
            GpioOp::Read(GpioReg::Ie),
        ]
    );
    assert_eq!(
        init(false),
        vec![
            GpioOp::RegisterHandler(39),
            GpioOp::Write(GpioReg::Ie, 0x8),
            GpioOp::Read(GpioReg::Ie),
        ]
    );
}

#[test]
fn handle_zero_status_does_nothing() {
    assert!(handle(0).is_empty());
}

#[test]
fn handle_acknowledges_then_shuts_down() {
    for s in [1u32, 0x8, 0x81, u32::MAX] {
        let ops = handle(s);
        assert_eq!(ops, vec![GpioOp::Write(GpioReg::Ic, s), GpioOp::Shutdown]);
        assert_eq!(ops.iter().filter(|o| **o == GpioOp::Shutdown).count(), 1);
    }
}
