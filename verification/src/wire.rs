//! What the controller takes in: a model of the six lines and of the
//! falling edge of enable, on which the controller latches the nibble that
//! stands on the data lines.

use vstd::prelude::*;
use crate::bus::{bit_of, data_ops, nibble_ops, pulse_ops, send_ops, Line, Op};
use crate::lcd::{
    begin_ops, command_ops, handshake_ops, slow_command_ops, LCD_CLEARDISPLAY,
    LCD_DISPLAYCONTROL, LCD_ENTRYMODESET, LCD_FUNCTIONSET,
};

verus! {

/// The levels of the six lines, `true` for high.
pub struct Levels {
    pub register_select: bool,
    pub enable: bool,
    pub d4: bool,
    pub d5: bool,
    pub d6: bool,
    pub d7: bool,
}

/// One nibble as the controller takes it in: the level of register select
/// (`true` for character data) and the value on the data lines.
pub struct Latch {
    pub data: bool,
    pub nibble: u8,
}

/// The value on the data lines, D4 as bit 0 up to D7 as bit 3.
pub open spec fn nibble_on(levels: Levels) -> u8 {
    ((if levels.d4 {
        1int
    } else {
        0int
    }) + (if levels.d5 {
        2int
    } else {
        0int
    }) + (if levels.d6 {
        4int
    } else {
        0int
    }) + (if levels.d7 {
        8int
    } else {
        0int
    })) as u8
}

/// The levels once `op` is carried out. A wait changes no line.
pub open spec fn after_op(levels: Levels, op: Op) -> Levels {
    match op {
        Op::Wait { micros } => levels,
        Op::Drive { line, high } => match line {
            Line::RegisterSelect => Levels { register_select: high, ..levels },
            Line::Enable => Levels { enable: high, ..levels },
            Line::Data4 => Levels { d4: high, ..levels },
            Line::Data5 => Levels { d5: high, ..levels },
            Line::Data6 => Levels { d6: high, ..levels },
            Line::Data7 => Levels { d7: high, ..levels },
        },
    }
}

/// What `op` makes the controller take in: one nibble where it brings
/// enable from high to low, nothing otherwise.
pub open spec fn latched_by(levels: Levels, op: Op) -> Seq<Latch> {
    if levels.enable && op == (Op::Drive { line: Line::Enable, high: false }) {
        seq![Latch { data: levels.register_select, nibble: nibble_on(levels) }]
    } else {
        Seq::empty()
    }
}

/// The levels once `ops` are carried out in order, starting from `levels`.
pub open spec fn after_ops(levels: Levels, ops: Seq<Op>) -> Levels
    decreases ops.len(),
{
    if ops.len() == 0 {
        levels
    } else {
        after_op(after_ops(levels, ops.drop_last()), ops.last())
    }
}

/// Everything the controller takes in while `ops` are carried out in
/// order, starting from `levels`.
pub open spec fn latched(levels: Levels, ops: Seq<Op>) -> Seq<Latch>
    decreases ops.len(),
{
    if ops.len() == 0 {
        Seq::empty()
    } else {
        latched(levels, ops.drop_last()) + latched_by(
            after_ops(levels, ops.drop_last()),
            ops.last(),
        )
    }
}

/// The two nibbles of one byte, high nibble first.
pub open spec fn byte_latched(data: bool, value: u8) -> Seq<Latch> {
    seq![Latch { data, nibble: value >> 4 }, Latch { data, nibble: value & 0x0F }]
}

/// The four nibbles of the handshake.
pub open spec fn handshake_latched() -> Seq<Latch> {
    seq![
        Latch { data: false, nibble: 0x03 },
        Latch { data: false, nibble: 0x03 },
        Latch { data: false, nibble: 0x03 },
        Latch { data: false, nibble: 0x02 },
    ]
}

/// One more operation adds what it latches and moves the levels on.
pub proof fn lemma_step(levels: Levels, ops: Seq<Op>, op: Op)
    ensures
        after_ops(levels, ops.push(op)) == after_op(after_ops(levels, ops), op),
        latched(levels, ops.push(op)) == latched(levels, ops) + latched_by(
            after_ops(levels, ops),
            op,
        ),
{
    assert(ops.push(op).drop_last() =~= ops);
}

/// Carrying out `first` and then `second` is carrying out `second` from
/// where `first` left the lines.
pub proof fn lemma_sequence(levels: Levels, first: Seq<Op>, second: Seq<Op>)
    ensures
        after_ops(levels, first + second) == after_ops(after_ops(levels, first), second),
        latched(levels, first + second) == latched(levels, first) + latched(
            after_ops(levels, first),
            second,
        ),
    decreases second.len(),
{
    if second.len() == 0 {
        assert(first + second =~= first);
        assert(latched(levels, first) + Seq::<Latch>::empty() =~= latched(levels, first));
    } else {
        let front = second.drop_last();
        lemma_sequence(levels, first, front);
        assert(first + second =~= (first + front).push(second.last()));
        lemma_step(levels, first + front, second.last());
        let middle = after_ops(levels, first);
        assert(latched(levels, first + second) =~= latched(levels, first) + latched(
            middle,
            second,
        ));
    }
}

/// A wait alone changes nothing and latches nothing.
proof fn lemma_wait(levels: Levels, micros: u16)
    ensures
        after_ops(levels, seq![Op::Wait { micros }]) == levels,
        latched(levels, seq![Op::Wait { micros }]) == Seq::<Latch>::empty(),
{
    let none = Seq::<Op>::empty();
    lemma_step(levels, none, Op::Wait { micros });
    assert(none.push(Op::Wait { micros }) =~= seq![Op::Wait { micros }]);
    assert(latched(levels, seq![Op::Wait { micros }]) =~= Seq::<Latch>::empty());
}

/// Setting the data lines latches nothing, whatever enable is at, and
/// leaves the two control lines alone.
pub proof fn lemma_data_lines(levels: Levels, value: u8)
    ensures
        latched(levels, data_ops(value)) == Seq::<Latch>::empty(),
        after_ops(levels, data_ops(value)) == (Levels {
            d4: bit_of(value, 0),
            d5: bit_of(value, 1),
            d6: bit_of(value, 2),
            d7: bit_of(value, 3),
            ..levels
        }),
{
    let o0 = Op::Drive { line: Line::Data4, high: bit_of(value, 0) };
    let o1 = Op::Drive { line: Line::Data5, high: bit_of(value, 1) };
    let o2 = Op::Drive { line: Line::Data6, high: bit_of(value, 2) };
    let o3 = Op::Drive { line: Line::Data7, high: bit_of(value, 3) };
    let s0 = Seq::<Op>::empty();
    let s1 = s0.push(o0);
    let s2 = s1.push(o1);
    let s3 = s2.push(o2);
    let s4 = s3.push(o3);
    lemma_step(levels, s0, o0);
    lemma_step(levels, s1, o1);
    lemma_step(levels, s2, o2);
    lemma_step(levels, s3, o3);
    assert(s4 =~= data_ops(value));
    assert(latched(levels, s4) =~= Seq::<Latch>::empty());
}

/// With enable low, one enable pulse makes the controller take in exactly
/// the nibble on the data lines, and leaves all six lines as they were.
pub proof fn lemma_pulse(levels: Levels)
    requires
        !levels.enable,
    ensures
        latched(levels, pulse_ops()) == seq![
            Latch { data: levels.register_select, nibble: nibble_on(levels) },
        ],
        after_ops(levels, pulse_ops()) == levels,
{
    let fall = Op::Drive { line: Line::Enable, high: false };
    let rise = Op::Drive { line: Line::Enable, high: true };
    let edge = Op::Wait { micros: 1 };
    let hold = Op::Wait { micros: 100 };
    let s0 = Seq::<Op>::empty();
    let s1 = s0.push(fall);
    let s2 = s1.push(edge);
    let s3 = s2.push(rise);
    let s4 = s3.push(edge);
    let s5 = s4.push(fall);
    let s6 = s5.push(hold);
    lemma_step(levels, s0, fall);
    lemma_step(levels, s1, edge);
    lemma_step(levels, s2, rise);
    lemma_step(levels, s3, edge);
    lemma_step(levels, s4, fall);
    lemma_step(levels, s5, hold);
    assert(s6 =~= pulse_ops());
    assert(after_ops(levels, s4) == Levels { enable: true, ..levels });
    assert(nibble_on(Levels { enable: true, ..levels }) == nibble_on(levels));
    assert(latched(levels, s6) =~= seq![
        Latch { data: levels.register_select, nibble: nibble_on(levels) },
    ]);
}

/// The value that four data lines at the low bits of `value` stand for.
proof fn lemma_nibble_value(levels: Levels, value: u8)
    requires
        levels.d4 == bit_of(value, 0),
        levels.d5 == bit_of(value, 1),
        levels.d6 == bit_of(value, 2),
        levels.d7 == bit_of(value, 3),
    ensures
        nibble_on(levels) == value & 0x0F,
{
    let b0: u8 = if (value >> 0u8) & 0x01 == 0x01 { 1u8 } else { 0u8 };
    let b1: u8 = if (value >> 1u8) & 0x01 == 0x01 { 2u8 } else { 0u8 };
    let b2: u8 = if (value >> 2u8) & 0x01 == 0x01 { 4u8 } else { 0u8 };
    let b3: u8 = if (value >> 3u8) & 0x01 == 0x01 { 8u8 } else { 0u8 };
    assert(b0 + b1 + b2 + b3 == (value & 0x0F)) by (bit_vector)
        requires
            b0 == if (value >> 0u8) & 0x01 == 0x01 { 1u8 } else { 0u8 },
            b1 == if (value >> 1u8) & 0x01 == 0x01 { 2u8 } else { 0u8 },
            b2 == if (value >> 2u8) & 0x01 == 0x01 { 4u8 } else { 0u8 },
            b3 == if (value >> 3u8) & 0x01 == 0x01 { 8u8 } else { 0u8 },
    ;
}

/// With enable low, a nibble write makes the controller take in exactly
/// one nibble: the low four bits of `value`, under the register select
/// that stands. Enable is low again afterwards and register select as it
/// was.
pub proof fn law_nibble_latched(levels: Levels, value: u8)
    requires
        !levels.enable,
    ensures
        latched(levels, nibble_ops(value)) == seq![
            Latch { data: levels.register_select, nibble: value & 0x0F },
        ],
        !after_ops(levels, nibble_ops(value)).enable,
        after_ops(levels, nibble_ops(value)).register_select == levels.register_select,
{
    lemma_data_lines(levels, value);
    let set = after_ops(levels, data_ops(value));
    lemma_pulse(set);
    lemma_nibble_value(set, value);
    lemma_sequence(levels, data_ops(value), pulse_ops());
    assert(latched(levels, nibble_ops(value)) =~= seq![
        Latch { data: levels.register_select, nibble: value & 0x0F },
    ]);
}

/// With enable low, a byte sent makes the controller take in exactly two
/// nibbles under the register select asked for: the high four bits of the
/// byte, then the low four. Enable is low again afterwards.
pub proof fn law_send_latched(levels: Levels, value: u8, data: bool)
    requires
        !levels.enable,
    ensures
        latched(levels, send_ops(value, data)) == byte_latched(data, value),
        !after_ops(levels, send_ops(value, data)).enable,
        after_ops(levels, send_ops(value, data)).register_select == data,
{
    let select = Op::Drive { line: Line::RegisterSelect, high: data };
    let none = Seq::<Op>::empty();
    lemma_step(levels, none, select);
    assert(none.push(select) =~= seq![select]);
    let selected = after_ops(levels, seq![select]);
    law_nibble_latched(selected, value >> 4);
    let halfway = after_ops(selected, nibble_ops(value >> 4));
    law_nibble_latched(halfway, value);
    lemma_sequence(levels, seq![select], nibble_ops(value >> 4));
    lemma_sequence(levels, seq![select] + nibble_ops(value >> 4), nibble_ops(value));
    assert((value >> 4) & 0x0F == value >> 4) by (bit_vector);
    assert(latched(levels, send_ops(value, data)) =~= byte_latched(data, value));
}

/// From whatever levels the lines are at, the handshake makes the
/// controller take in `0x03`, `0x03`, `0x03`, `0x02` as instructions.
/// Where enable stood high, one stray nibble goes before them, taken in
/// as enable is first driven low. Enable and register select are low
/// afterwards.
pub proof fn law_handshake_latched(levels: Levels)
    ensures
        latched(levels, handshake_ops()) == (if levels.enable {
            seq![Latch { data: false, nibble: nibble_on(levels) }]
        } else {
            Seq::<Latch>::empty()
        }) + handshake_latched(),
        !after_ops(levels, handshake_ops()).enable,
        !after_ops(levels, handshake_ops()).register_select,
{
    let settle = Op::Wait { micros: 50000 };
    let select = Op::Drive { line: Line::RegisterSelect, high: false };
    let fall = Op::Drive { line: Line::Enable, high: false };
    let s0 = Seq::<Op>::empty();
    let s1 = s0.push(settle);
    let s2 = s1.push(select);
    let s3 = s2.push(fall);
    lemma_step(levels, s0, settle);
    lemma_step(levels, s1, select);
    lemma_step(levels, s2, fall);
    let opening = seq![settle, select, fall];
    assert(s3 =~= opening);
    let stray = if levels.enable {
        seq![Latch { data: false, nibble: nibble_on(levels) }]
    } else {
        Seq::<Latch>::empty()
    };
    assert(nibble_on(Levels { register_select: false, ..levels }) == nibble_on(levels));
    assert(latched(levels, opening) =~= stray);

    let long = seq![Op::Wait { micros: 4500 }];
    let short = seq![Op::Wait { micros: 150 }];
    let stage1 = opening + nibble_ops(0x03);
    let stage2 = stage1 + long;
    let stage3 = stage2 + nibble_ops(0x03);
    let stage4 = stage3 + long;
    let stage5 = stage4 + nibble_ops(0x03);
    let stage6 = stage5 + short;
    let stage7 = stage6 + nibble_ops(0x02);
    assert(stage7 == handshake_ops());

    law_nibble_latched(after_ops(levels, opening), 0x03);
    lemma_sequence(levels, opening, nibble_ops(0x03));
    lemma_wait(after_ops(levels, stage1), 4500);
    lemma_sequence(levels, stage1, long);
    law_nibble_latched(after_ops(levels, stage2), 0x03);
    lemma_sequence(levels, stage2, nibble_ops(0x03));
    lemma_wait(after_ops(levels, stage3), 4500);
    lemma_sequence(levels, stage3, long);
    law_nibble_latched(after_ops(levels, stage4), 0x03);
    lemma_sequence(levels, stage4, nibble_ops(0x03));
    lemma_wait(after_ops(levels, stage5), 150);
    lemma_sequence(levels, stage5, short);
    law_nibble_latched(after_ops(levels, stage6), 0x02);
    lemma_sequence(levels, stage6, nibble_ops(0x02));
    assert(0x03u8 & 0x0F == 0x03u8) by (bit_vector);
    assert(0x02u8 & 0x0F == 0x02u8) by (bit_vector);
    assert(latched(levels, stage7) =~= stray + handshake_latched());
}

/// From whatever levels the lines are at, an initialisation makes the
/// controller take in the handshake and then four instructions, each as
/// two nibbles: function set, display control, clear display, entry mode.
/// Where enable stood high, one stray nibble goes before all of them.
pub proof fn law_begin_latched(levels: Levels, function: u8, control: u8, mode: u8)
    ensures
        latched(levels, begin_ops(function, control, mode)) == (if levels.enable {
            seq![Latch { data: false, nibble: nibble_on(levels) }]
        } else {
            Seq::<Latch>::empty()
        }) + handshake_latched() + byte_latched(false, LCD_FUNCTIONSET | function)
            + byte_latched(false, LCD_DISPLAYCONTROL | control) + byte_latched(
            false,
            LCD_CLEARDISPLAY,
        ) + byte_latched(false, LCD_ENTRYMODESET | mode),
{
    let command1 = command_ops(LCD_FUNCTIONSET | function);
    let command2 = command_ops(LCD_DISPLAYCONTROL | control);
    let command3 = command_ops(LCD_CLEARDISPLAY);
    let rest = seq![Op::Wait { micros: 2000 }];
    let command4 = command_ops(LCD_ENTRYMODESET | mode);
    let stage0 = handshake_ops();
    let stage1 = stage0 + command1;
    let stage2 = stage1 + command2;
    let slow = command3 + rest;
    let stage3 = stage2 + slow;
    let stage4 = stage3 + command4;
    assert(slow == slow_command_ops(LCD_CLEARDISPLAY));
    assert(stage4 == begin_ops(function, control, mode));

    law_handshake_latched(levels);
    law_send_latched(after_ops(levels, stage0), LCD_FUNCTIONSET | function, false);
    lemma_sequence(levels, stage0, command1);
    law_send_latched(after_ops(levels, stage1), LCD_DISPLAYCONTROL | control, false);
    lemma_sequence(levels, stage1, command2);
    let cleared_from = after_ops(levels, stage2);
    law_send_latched(cleared_from, LCD_CLEARDISPLAY, false);
    lemma_wait(after_ops(cleared_from, command3), 2000);
    lemma_sequence(cleared_from, command3, rest);
    lemma_sequence(levels, stage2, slow);
    assert(latched(cleared_from, slow) =~= byte_latched(false, LCD_CLEARDISPLAY));
    law_send_latched(after_ops(levels, stage3), LCD_ENTRYMODESET | mode, false);
    lemma_sequence(levels, stage3, command4);
}

} // verus!
