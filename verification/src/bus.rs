//! The wire protocol: lines, bus operations, and how a byte becomes two
//! nibble writes, each latched by one enable pulse.

use vstd::prelude::*;

verus! {

/// One of the six output lines between the driver and the controller.
#[derive(Clone, Copy, Debug, PartialEq, Eq, Structural)]
pub enum Line {
    RegisterSelect,
    Enable,
    Data4,
    Data5,
    Data6,
    Data7,
}

/// One thing to do on the bus: put a line at a level, or let time pass.
#[derive(Clone, Copy, Debug, PartialEq, Eq, Structural)]
pub enum Op {
    /// Drive `line` high (`high == true`) or low.
    Drive { line: Line, high: bool },
    /// Block for at least `micros` microseconds.
    Wait { micros: u16 },
}

/// Wait on each side of the rising edge of an enable pulse, in microseconds.
pub const ENABLE_EDGE_MICROS: u16 = 1;

/// Wait after an enable pulse, while the controller latches and executes.
pub const LATCH_MICROS: u16 = 100;

/// The data line that carries bit `i` of a nibble: bit 0 on D4 up to bit 3 on D7.
pub open spec fn data_line(i: int) -> Line {
    if i == 0 {
        Line::Data4
    } else if i == 1 {
        Line::Data5
    } else if i == 2 {
        Line::Data6
    } else {
        Line::Data7
    }
}

/// Whether bit `i` of `value` is set.
pub open spec fn bit_of(value: u8, i: int) -> bool {
    (value >> (i as u8)) & 0x01 == 0x01
}

/// The enable pulse: low, 1 µs, high, 1 µs, low, 100 µs.
pub open spec fn pulse_ops() -> Seq<Op> {
    seq![
        Op::Drive { line: Line::Enable, high: false },
        Op::Wait { micros: ENABLE_EDGE_MICROS },
        Op::Drive { line: Line::Enable, high: true },
        Op::Wait { micros: ENABLE_EDGE_MICROS },
        Op::Drive { line: Line::Enable, high: false },
        Op::Wait { micros: LATCH_MICROS },
    ]
}

/// The four data lines set to the low four bits of `value`, D4 first.
pub open spec fn data_ops(value: u8) -> Seq<Op> {
    Seq::new(4, |i: int| Op::Drive { line: data_line(i), high: bit_of(value, i) })
}

/// One nibble write: the low four bits of `value` on the data lines, then
/// one enable pulse. The high four bits of `value` play no part.
pub open spec fn nibble_ops(value: u8) -> Seq<Op> {
    data_ops(value) + pulse_ops()
}

/// One byte on the bus: register select at `data` (low for an instruction,
/// high for character data), then the high nibble, then the low nibble.
pub open spec fn send_ops(value: u8, data: bool) -> Seq<Op> {
    seq![Op::Drive { line: Line::RegisterSelect, high: data }] + nibble_ops(value >> 4) + nibble_ops(
        value,
    )
}

/// The data line for bit `i` of a nibble.
fn data_line_at(i: u8) -> (line: Line)
    requires
        i < 4,
    ensures
        line == data_line(i as int),
{
    if i == 0 {
        Line::Data4
    } else if i == 1 {
        Line::Data5
    } else if i == 2 {
        Line::Data6
    } else {
        Line::Data7
    }
}

/// Appends one enable pulse to `ops`.
pub(crate) fn pulse(ops: &mut Vec<Op>)
    ensures
        final(ops)@ == old(ops)@ + pulse_ops(),
{
    let ghost before = ops@;
    ops.push(Op::Drive { line: Line::Enable, high: false });
    ops.push(Op::Wait { micros: ENABLE_EDGE_MICROS });
    ops.push(Op::Drive { line: Line::Enable, high: true });
    ops.push(Op::Wait { micros: ENABLE_EDGE_MICROS });
    ops.push(Op::Drive { line: Line::Enable, high: false });
    ops.push(Op::Wait { micros: LATCH_MICROS });
    assert(ops@ =~= before + pulse_ops());
}

/// Appends one nibble write to `ops`: bit `i` of `value` on data line `i`,
/// for the four low bits in rising order, then the enable pulse.
pub(crate) fn write_4bits(ops: &mut Vec<Op>, value: u8)
    ensures
        final(ops)@ == old(ops)@ + nibble_ops(value),
{
    let ghost before = ops@;
    let mut i: u8 = 0;
    while i < 4
        invariant
            i <= 4,
            ops@ == before + Seq::new(
                i as nat,
                |k: int| Op::Drive { line: data_line(k), high: bit_of(value, k) },
            ),
        decreases 4 - i,
    {
        let high = (value >> i) & 0x01 == 0x01;
        let line = data_line_at(i);
        ops.push(Op::Drive { line, high });
        assert(ops@ =~= before + Seq::new(
            (i + 1) as nat,
            |k: int| Op::Drive { line: data_line(k), high: bit_of(value, k) },
        ));
        i += 1;
    }
    pulse(ops);
    assert(ops@ =~= before + nibble_ops(value));
}

/// Appends one byte to `ops`: register select, high nibble, low nibble.
pub(crate) fn send(ops: &mut Vec<Op>, value: u8, data: bool)
    ensures
        final(ops)@ == old(ops)@ + send_ops(value, data),
{
    let ghost before = ops@;
    ops.push(Op::Drive { line: Line::RegisterSelect, high: data });
    write_4bits(ops, value >> 4);
    write_4bits(ops, value);
    assert(ops@ =~= before + send_ops(value, data));
}

} // verus!
