//! The PL061 GPIO controller: its register map, the per-pin fields of its
//! registers with their symbolic values, and the operations that its driver
//! performs at initialization and on an interrupt.
//!
//! The driver does not touch the device itself: `init` and `handle` return
//! the operations to perform, in order, and the caller performs them on the
//! mapped register block.

use tock_registers::fields::{Field, FieldValue};
use vstd::prelude::*;

verus! {

/// Byte offset of the end of the register block.
pub const GPIO_REGS_END: usize = 0x424;

/// The interrupt line of the controller.
pub const GPIO_IRQ: usize = 39;

/// The pin whose interrupt the driver enables.
pub const GPIO_WATCHED_PIN: u32 = 3;

/// The number of pins, one bit each in the per-pin registers.
pub const GPIO_PINS: u32 = 8;

/// The direction in which a register may be accessed.
#[derive(Clone, Copy, Debug, PartialEq, Eq, Structural)]
pub enum Access {
    ReadOnly,
    WriteOnly,
    ReadWrite,
}

/// A register of the block. `Data(i)` is the `i`-th word of the data window.
#[derive(Clone, Copy, Debug, PartialEq, Eq, Structural)]
pub enum GpioReg {
    Data(u8),
    Dir,
    Is,
    Ibe,
    Iev,
    Ie,
    Ris,
    Mis,
    Ic,
    Afsel,
}

impl GpioReg {
    /// The byte offset of the register in the block.
    pub open spec fn spec_offset(self) -> nat {
        match self {
            GpioReg::Data(i) => 4 * (i as nat),
            GpioReg::Dir => 0x400,
            GpioReg::Is => 0x404,
            GpioReg::Ibe => 0x408,
            GpioReg::Iev => 0x40c,
            GpioReg::Ie => 0x410,
            GpioReg::Ris => 0x414,
            GpioReg::Mis => 0x418,
            GpioReg::Ic => 0x41c,
            GpioReg::Afsel => 0x420,
        }
    }

    /// The access mode of the register, fixed by the hardware.
    pub open spec fn spec_access(self) -> Access {
        match self {
            GpioReg::Ris | GpioReg::Mis => Access::ReadOnly,
            GpioReg::Ic => Access::WriteOnly,
            _ => Access::ReadWrite,
        }
    }

    /// The register may be read.
    pub open spec fn readable(self) -> bool {
        self.spec_access() != Access::WriteOnly
    }

    /// The register may be written.
    pub open spec fn writable(self) -> bool {
        self.spec_access() != Access::ReadOnly
    }

    /// The byte offset of the register in the block.
    pub fn offset(&self) -> (r: usize)
        ensures
            r == self.spec_offset(),
    {
        match self {
            GpioReg::Data(i) => 4 * (*i as usize),
            GpioReg::Dir => 0x400,
            GpioReg::Is => 0x404,
            GpioReg::Ibe => 0x408,
            GpioReg::Iev => 0x40c,
            GpioReg::Ie => 0x410,
            GpioReg::Ris => 0x414,
            GpioReg::Mis => 0x418,
            GpioReg::Ic => 0x41c,
            GpioReg::Afsel => 0x420,
        }
    }

    /// The access mode of the register.
    pub fn access(&self) -> (r: Access)
        ensures
            r == self.spec_access(),
    {
        match self {
            GpioReg::Ris | GpioReg::Mis => Access::ReadOnly,
            GpioReg::Ic => Access::WriteOnly,
            _ => Access::ReadWrite,
        }
    }

    /// Whether the register may be read.
    pub fn can_read(&self) -> (r: bool)
        ensures
            r == self.readable(),
    {
        self.access() != Access::WriteOnly
    }

    /// Whether the register may be written.
    pub fn can_write(&self) -> (r: bool)
        ensures
            r == self.writable(),
    {
        self.access() != Access::ReadOnly
    }
}

/// Every register is a word-aligned 32-bit word that lies inside the block.
pub proof fn lemma_register_in_block(r: GpioReg)
    ensures
        r.spec_offset() % 4 == 0,
        r.spec_offset() + 4 <= GPIO_REGS_END,
{
}

/// Two different registers never share a byte.
pub proof fn lemma_registers_disjoint(a: GpioReg, b: GpioReg)
    requires
        a != b,
    ensures
        a.spec_offset() + 4 <= b.spec_offset() || b.spec_offset() + 4 <= a.spec_offset(),
{
}

/// Relies on tock_registers' `Field::read`: the bits of `val` under
/// `mask << shift`, shifted down by `shift`.
#[verifier::external_body]
fn field_read(val: u32, mask: u32, shift: u32) -> (r: u32)
    requires
        shift < 32,
    ensures
        r == (val & (mask << shift)) >> shift,
{
    Field::<u32, ()>::new(mask, shift as usize).read(val)
}

/// Relies on tock_registers' `FieldValue::new` and `FieldValue::modify`: the
/// bits of `val` under `mask << shift` are replaced by `value & mask`, shifted
/// up by `shift`; the other bits are kept.
#[verifier::external_body]
fn field_modify(val: u32, mask: u32, shift: u32, value: u32) -> (r: u32)
    requires
        shift < 32,
    ensures
        r == (val & !(mask << shift)) | ((value & mask) << shift),
{
    FieldValue::<u32, ()>::new(mask, shift as usize, value).modify(val)
}

/// The bit of `pin` in a per-pin register value.
pub open spec fn spec_read_pin(reg: u32, pin: u32) -> u32 {
    (reg >> pin) & 1
}

/// A per-pin register value with the bit of `pin` set to `bit`.
pub open spec fn spec_write_pin(reg: u32, pin: u32, bit: u32) -> u32 {
    (reg & !(1u32 << pin)) | ((bit & 1) << pin)
}

/// Reads the one-bit field of `pin` from a per-pin register value.
pub fn read_pin(reg: u32, pin: u32) -> (r: u32)
    requires
        pin < GPIO_PINS,
    ensures
        r == spec_read_pin(reg, pin),
        r <= 1,
{
    let r = field_read(reg, 1, pin);
    assert((reg & (1u32 << pin)) >> pin == (reg >> pin) & 1 && (reg >> pin) & 1 <= 1)
        by (bit_vector)
        requires
            pin < 8,
    ;
    r
}

/// Writes `bit` into the one-bit field of `pin` of a per-pin register value,
/// keeping the other bits.
pub fn write_pin(reg: u32, pin: u32, bit: u32) -> (r: u32)
    requires
        pin < GPIO_PINS,
        bit <= 1,
    ensures
        r == spec_write_pin(reg, pin, bit),
{
    field_modify(reg, 1, pin, bit)
}

/// Writing a field and reading it back gives the value written, and every
/// other bit of the register, of a sibling pin or beyond the pins, is kept.
pub proof fn lemma_write_pin_isolated(reg: u32, pin: u32, bit: u32)
    requires
        pin < GPIO_PINS,
        bit <= 1,
    ensures
        spec_read_pin(spec_write_pin(reg, pin, bit), pin) == bit,
        forall|k: u32|
            k < 32 && k != pin ==> #[trigger] spec_read_pin(spec_write_pin(reg, pin, bit), k)
                == spec_read_pin(reg, k),
{
    assert(((((reg & !(1u32 << pin)) | ((bit & 1) << pin)) >> pin) & 1) == bit) by (bit_vector)
        requires
            pin < 8,
            bit <= 1,
    ;
    assert forall|k: u32| k < 32 && k != pin implies #[trigger] spec_read_pin(
        spec_write_pin(reg, pin, bit),
        k,
    ) == spec_read_pin(reg, k) by {
        assert(((((reg & !(1u32 << pin)) | ((bit & 1) << pin)) >> k) & 1) == ((reg >> k) & 1))
            by (bit_vector)
            requires
                pin < 8,
                k < 32,
                k != pin,
        ;
    }
}

/// The field of a pin in `DIR`: whether a pin is an input or an output.
#[derive(Clone, Copy, Debug, PartialEq, Eq, Structural)]
pub enum Direction {
    Input,
    Output,
}

impl Direction {
    /// The bit that stands for this value.
    pub open spec fn spec_bit(self) -> u32 {
        match self {
            Direction::Input => 0,
            Direction::Output => 1,
        }
    }

    /// The bit that stands for this value.
    pub fn bit(&self) -> (r: u32)
        ensures
            r == self.spec_bit(),
            r <= 1,
    {
        match self {
            Direction::Input => 0,
            Direction::Output => 1,
        }
    }

    /// The value that a bit stands for.
    pub fn from_bit(bit: u32) -> (r: Direction)
        requires
            bit <= 1,
        ensures
            r.spec_bit() == bit,
    {
        if bit == 0 {
            Direction::Input
        } else {
            Direction::Output
        }
    }
}

/// The field of a pin in `IS`: whether a pin's interrupt is triggered by an edge or a level.
#[derive(Clone, Copy, Debug, PartialEq, Eq, Structural)]
pub enum Sense {
    Edge,
    Level,
}

impl Sense {
    /// The bit that stands for this value.
    pub open spec fn spec_bit(self) -> u32 {
        match self {
            Sense::Edge => 0,
            Sense::Level => 1,
        }
    }

    /// The bit that stands for this value.
    pub fn bit(&self) -> (r: u32)
        ensures
            r == self.spec_bit(),
            r <= 1,
    {
        match self {
            Sense::Edge => 0,
            Sense::Level => 1,
        }
    }

    /// The value that a bit stands for.
    pub fn from_bit(bit: u32) -> (r: Sense)
        requires
            bit <= 1,
        ensures
            r.spec_bit() == bit,
    {
        if bit == 0 {
            Sense::Edge
        } else {
            Sense::Level
        }
    }
}

/// The field of a pin in `IBE`: whether one edge or both edges trigger a pin's interrupt.
#[derive(Clone, Copy, Debug, PartialEq, Eq, Structural)]
pub enum EdgeMode {
    SingleEdge,
    BothEdges,
}

impl EdgeMode {
    /// The bit that stands for this value.
    pub open spec fn spec_bit(self) -> u32 {
        match self {
            EdgeMode::SingleEdge => 0,
            EdgeMode::BothEdges => 1,
        }
    }

    /// The bit that stands for this value.
    pub fn bit(&self) -> (r: u32)
        ensures
            r == self.spec_bit(),
            r <= 1,
    {
        match self {
            EdgeMode::SingleEdge => 0,
            EdgeMode::BothEdges => 1,
        }
    }

    /// The value that a bit stands for.
    pub fn from_bit(bit: u32) -> (r: EdgeMode)
        requires
            bit <= 1,
        ensures
            r.spec_bit() == bit,
    {
        if bit == 0 {
            EdgeMode::SingleEdge
        } else {
            EdgeMode::BothEdges
        }
    }
}

/// The field of a pin in `IEV`: whether a falling edge or low level, or a rising edge or high level, triggers a pin's interrupt.
#[derive(Clone, Copy, Debug, PartialEq, Eq, Structural)]
pub enum Polarity {
    FallingLow,
    RisingHigh,
}

impl Polarity {
    /// The bit that stands for this value.
    pub open spec fn spec_bit(self) -> u32 {
        match self {
            Polarity::FallingLow => 0,
            Polarity::RisingHigh => 1,
        }
    }

    /// The bit that stands for this value.
    pub fn bit(&self) -> (r: u32)
        ensures
            r == self.spec_bit(),
            r <= 1,
    {
        match self {
            Polarity::FallingLow => 0,
            Polarity::RisingHigh => 1,
        }
    }

    /// The value that a bit stands for.
    pub fn from_bit(bit: u32) -> (r: Polarity)
        requires
            bit <= 1,
        ensures
            r.spec_bit() == bit,
    {
        if bit == 0 {
            Polarity::FallingLow
        } else {
            Polarity::RisingHigh
        }
    }
}

/// The field of a pin in `IE`: whether a pin's interrupt is enabled.
#[derive(Clone, Copy, Debug, PartialEq, Eq, Structural)]
pub enum IrqMask {
    Disabled,
    Enabled,
}

impl IrqMask {
    /// The bit that stands for this value.
    pub open spec fn spec_bit(self) -> u32 {
        match self {
            IrqMask::Disabled => 0,
            IrqMask::Enabled => 1,
        }
    }

    /// The bit that stands for this value.
    pub fn bit(&self) -> (r: u32)
        ensures
            r == self.spec_bit(),
            r <= 1,
    {
        match self {
            IrqMask::Disabled => 0,
            IrqMask::Enabled => 1,
        }
    }

    /// The value that a bit stands for.
    pub fn from_bit(bit: u32) -> (r: IrqMask)
        requires
            bit <= 1,
        ensures
            r.spec_bit() == bit,
    {
        if bit == 0 {
            IrqMask::Disabled
        } else {
            IrqMask::Enabled
        }
    }
}

/// The field of a pin in `AFSEL`: whether a pin is driven by the GPIO logic or by an alternate function.
#[derive(Clone, Copy, Debug, PartialEq, Eq, Structural)]
pub enum PinMode {
    Gpio,
    Alternate,
}

impl PinMode {
    /// The bit that stands for this value.
    pub open spec fn spec_bit(self) -> u32 {
        match self {
            PinMode::Gpio => 0,
            PinMode::Alternate => 1,
        }
    }

    /// The bit that stands for this value.
    pub fn bit(&self) -> (r: u32)
        ensures
            r == self.spec_bit(),
            r <= 1,
    {
        match self {
            PinMode::Gpio => 0,
            PinMode::Alternate => 1,
        }
    }

    /// The value that a bit stands for.
    pub fn from_bit(bit: u32) -> (r: PinMode)
        requires
            bit <= 1,
        ensures
            r.spec_bit() == bit,
    {
        if bit == 0 {
            PinMode::Gpio
        } else {
            PinMode::Alternate
        }
    }
}

/// One operation of the driver on the controller or on the interrupt layer.
#[derive(Clone, Copy, Debug, PartialEq, Eq, Structural)]
pub enum GpioOp {
    /// Enable the interrupt line at the interrupt controller.
    EnableLine(usize),
    /// Register the driver's handler for the interrupt line.
    RegisterHandler(usize),
    /// Write a whole register.
    Write(GpioReg, u32),
    /// Read a whole register, for diagnostics.
    Read(GpioReg),
    /// Shut the system down.
    Shutdown,
}

impl GpioOp {
    /// The operation accesses its register only in an allowed direction.
    pub open spec fn respects_access(self) -> bool {
        match self {
            GpioOp::Write(r, _) => r.writable(),
            GpioOp::Read(r) => r.readable(),
            _ => true,
        }
    }
}

/// The value written to `IE` at initialization: the watched pin enabled,
/// every other pin disabled.
pub open spec fn watched_pin_enable() -> u32 {
    spec_write_pin(0, GPIO_WATCHED_PIN, IrqMask::Enabled.spec_bit())
}

/// The operations of initialization, in order.
pub open spec fn init_ops(enable_line: bool) -> Seq<GpioOp> {
    let arm = seq![
        GpioOp::RegisterHandler(GPIO_IRQ),
        GpioOp::Write(GpioReg::Ie, watched_pin_enable()),
        GpioOp::Read(GpioReg::Ie),
    ];
    if enable_line {
        seq![GpioOp::EnableLine(GPIO_IRQ)] + arm
    } else {
        arm
    }
}

/// The operations of the interrupt handler for a status snapshot, in order.
pub open spec fn handle_ops(status: u32) -> Seq<GpioOp> {
    if status == 0 {
        seq![]
    } else {
        seq![GpioOp::Write(GpioReg::Ic, status), GpioOp::Shutdown]
    }
}

/// Initializes the controller: optionally enables its interrupt line,
/// registers the handler for it, enables the interrupt of the watched pin,
/// and reads `IE` back for diagnostics.
pub fn init(enable_line: bool) -> (r: Vec<GpioOp>)
    ensures
        r@ == init_ops(enable_line),
        forall|i: int| 0 <= i < r@.len() ==> (#[trigger] r@[i]).respects_access(),
{
    let mut ops: Vec<GpioOp> = Vec::new();
    if enable_line {
        ops.push(GpioOp::EnableLine(GPIO_IRQ));
    }
    ops.push(GpioOp::RegisterHandler(GPIO_IRQ));
    let enable = write_pin(0, GPIO_WATCHED_PIN, IrqMask::Enabled.bit());
    ops.push(GpioOp::Write(GpioReg::Ie, enable));
    ops.push(GpioOp::Read(GpioReg::Ie));
    assert(ops@ =~= init_ops(enable_line));
    ops
}

/// The interrupt handler, given the status snapshot read from `IE`. A zero
/// snapshot is a spurious call: nothing is done. Otherwise exactly the bits
/// of the snapshot are acknowledged through `IC`, and then the system is
/// shut down.
pub fn handle(status: u32) -> (r: Vec<GpioOp>)
    ensures
        r@ == handle_ops(status),
        forall|i: int| 0 <= i < r@.len() ==> (#[trigger] r@[i]).respects_access(),
{
    let mut ops: Vec<GpioOp> = Vec::new();
    if status != 0 {
        ops.push(GpioOp::Write(GpioReg::Ic, status));
        ops.push(GpioOp::Shutdown);
    }
    assert(ops@ =~= handle_ops(status));
    ops
}

/// The handler writes nothing and does not shut down on a zero snapshot; on
/// a nonzero snapshot it writes exactly that snapshot to `IC`, and then
/// shuts down, once.
pub proof fn lemma_handle_acknowledges_exactly(status: u32)
    ensures
        status == 0 ==> handle_ops(status).len() == 0,
        status != 0 ==> handle_ops(status).len() == 2 && handle_ops(status)[0] == GpioOp::Write(
            GpioReg::Ic,
            status,
        ) && handle_ops(status)[1] == GpioOp::Shutdown,
        forall|i: int, v: u32|
            0 <= i < handle_ops(status).len() && handle_ops(status)[i] == GpioOp::Write(
                GpioReg::Ic,
                v,
            ) ==> v == status,
        forall|i: int, j: int|
            0 <= i < handle_ops(status).len() && 0 <= j < handle_ops(status).len()
                && handle_ops(status)[i] == GpioOp::Shutdown && handle_ops(status)[j]
                == GpioOp::Shutdown ==> i == j,
{
}

/// The value that initialization writes to `IE` has the watched pin's bit
/// set and no other bit.
pub proof fn lemma_watched_pin_enable_value()
    ensures
        watched_pin_enable() == 8,
{
    assert((0u32 & !(1u32 << 3u32)) | ((1u32 & 1) << 3u32) == 8) by (bit_vector);
}

} // verus!
