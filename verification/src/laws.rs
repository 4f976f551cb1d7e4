//! Laws of the driver, stated over the models that its contracts use.

use vstd::prelude::*;
use crate::bus::{bit_of, data_line, data_ops, nibble_ops, send_ops, Line, Op};
use crate::lcd::{
    begin_ops, clamped_row, command_ops, function_for, handshake_ops, row_offsets_for, set_flag,
    slow_command_ops, Shadow, BEGIN_DISPLAY_AT, BEGIN_ENTRY_AT, BEGIN_LEN, HANDSHAKE_LEN,
    LCD_BLINKON, LCD_CLEARDISPLAY, LCD_CURSORON, LCD_DISPLAYCONTROL, LCD_DISPLAYON,
    LCD_2LINE, LCD_5X10DOTS, LCD_ENTRYMODESET, LCD_FUNCTIONSET, LCD_RETURNHOME, MAX_COLUMNS,
    MAX_LINES,
};

verus! {

/// The row table of a display `columns` wide is `[0x00, 0x40, columns,
/// columns + 0x40]`: odd rows start in the second bank, rows 2 and 3
/// `columns` cells into their bank. An initialisation stores this table
/// whatever the number of lines and however far it gets on the bus.
pub proof fn law_row_offsets(before: Shadow, columns: u8, lines: u8, dotsize: u8, done: nat)
    requires
        columns <= MAX_COLUMNS,
    ensures
        before.begun(columns, lines, dotsize, done).row_offsets == row_offsets_for(columns),
        row_offsets_for(columns).len() == 4,
        row_offsets_for(columns)[0] == 0x00,
        row_offsets_for(columns)[1] == 0x40,
        row_offsets_for(columns)[2] == columns,
        row_offsets_for(columns)[3] == columns + 0x40,
        forall|i: int|
            0 <= i < 4 ==> #[trigger] row_offsets_for(columns)[i] == 0x40 * (i % 2) + columns * (i
                / 2),
        before.begun(columns, lines, dotsize, done).wf(),
{
}

/// An initialisation sets the two-line bit of the function byte exactly
/// when there is more than one line, and the tall-font bit exactly when
/// a font other than 5x8 is asked for on one line. It clears no bit: one
/// that was set stays set, and every other bit is as it was. Starting
/// from a blank function byte, the two bits are never set together.
pub proof fn law_function_bits(function: u8, lines: u8, dotsize: u8)
    ensures
        function_for(function, lines, dotsize) & LCD_2LINE == if lines > 1 {
            LCD_2LINE
        } else {
            function & LCD_2LINE
        },
        function_for(function, lines, dotsize) & LCD_5X10DOTS == if dotsize != 0 && lines == 1 {
            LCD_5X10DOTS
        } else {
            function & LCD_5X10DOTS
        },
        function_for(function, lines, dotsize) & !(LCD_2LINE | LCD_5X10DOTS) == function & !(
        LCD_2LINE | LCD_5X10DOTS),
        function_for(0, lines, dotsize) == if lines > 1 {
            LCD_2LINE
        } else if dotsize != 0 && lines == 1 {
            LCD_5X10DOTS
        } else {
            0
        },
{
    let f = function;
    assert((f | 0x08u8) & 0x08u8 == 0x08u8) by (bit_vector);
    assert((f | 0x04u8) & 0x04u8 == 0x04u8) by (bit_vector);
    assert((f | 0x08u8) & 0x04u8 == f & 0x04u8) by (bit_vector);
    assert((f | 0x04u8) & 0x08u8 == f & 0x08u8) by (bit_vector);
    assert((f | 0x08u8) & !(0x08u8 | 0x04u8) == f & !(0x08u8 | 0x04u8)) by (bit_vector);
    assert((f | 0x04u8) & !(0x08u8 | 0x04u8) == f & !(0x08u8 | 0x04u8)) by (bit_vector);
    assert(0u8 | 0x08u8 == 0x08u8) by (bit_vector);
    assert(0u8 | 0x04u8 == 0x04u8) by (bit_vector);
}

/// On a display with at least one line, the row addressed is never past
/// the display nor past the table; a row inside both is taken as asked,
/// any other becomes the last one, `min(lines, 4) - 1`.
pub proof fn law_row_clamped(row: u8, lines: u8)
    requires
        lines >= 1,
    ensures
        0 <= clamped_row(row, lines) < lines,
        clamped_row(row, lines) < MAX_LINES,
        row < lines && row < MAX_LINES ==> clamped_row(row, lines) == row,
        row >= lines || row >= MAX_LINES ==> clamped_row(row, lines) == (if lines < MAX_LINES {
            lines
        } else {
            MAX_LINES
        }) - 1,
{
}

/// The cursor address is the column, unchecked, added to the start of
/// the clamped row.
pub proof fn law_cursor_address(state: Shadow, column: u8, row: u8)
    requires
        state.wf(),
        state.addressable(column, row),
    ensures
        state.ddram_address(column, row) == column + state.row_offsets[clamped_row(
            row,
            state.lines,
        )],
        state.row_offsets == row_offsets_for(state.columns),
{
}

/// Every initialisation opens with the handshake: the settle wait, both
/// control lines low, then the nibbles `0x03`, `0x03`, `0x03`, `0x02`
/// with waits of 4500, 4500 and 150 µs between them. The first command
/// byte, the function set, comes only after it.
pub proof fn law_handshake_first(function: u8, control: u8, mode: u8)
    ensures
        handshake_ops().len() == HANDSHAKE_LEN,
        begin_ops(function, control, mode).subrange(0, HANDSHAKE_LEN as int) == handshake_ops(),
        begin_ops(function, control, mode).subrange(
            HANDSHAKE_LEN as int,
            BEGIN_DISPLAY_AT as int,
        ) == command_ops(LCD_FUNCTIONSET | function),
        handshake_ops()[0] == (Op::Wait { micros: 50000 }),
        handshake_ops()[1] == (Op::Drive { line: Line::RegisterSelect, high: false }),
        handshake_ops()[2] == (Op::Drive { line: Line::Enable, high: false }),
        handshake_ops().subrange(3, 13) == nibble_ops(0x03),
        handshake_ops()[13] == (Op::Wait { micros: 4500 }),
        handshake_ops().subrange(14, 24) == nibble_ops(0x03),
        handshake_ops()[24] == (Op::Wait { micros: 4500 }),
        handshake_ops().subrange(25, 35) == nibble_ops(0x03),
        handshake_ops()[35] == (Op::Wait { micros: 150 }),
        handshake_ops().subrange(36, 46) == nibble_ops(0x02),
{
    let all = begin_ops(function, control, mode);
    assert(all.subrange(0, HANDSHAKE_LEN as int) =~= handshake_ops());
    assert(all.subrange(HANDSHAKE_LEN as int, BEGIN_DISPLAY_AT as int) =~= command_ops(
        LCD_FUNCTIONSET | function,
    ));
    assert(handshake_ops().subrange(3, 13) =~= nibble_ops(0x03));
    assert(handshake_ops().subrange(14, 24) =~= nibble_ops(0x03));
    assert(handshake_ops().subrange(25, 35) =~= nibble_ops(0x03));
    assert(handshake_ops().subrange(36, 46) =~= nibble_ops(0x02));
}

/// An initialisation falls into three parts at the points where the
/// shadow state changes: up to the function set nothing depends on the
/// control or the entry-mode byte; display control and clear do not depend
/// on the entry mode; the entry-mode command ends it.
pub proof fn law_begin_phases(function: u8, control: u8, mode: u8)
    ensures
        begin_ops(function, control, mode).len() == BEGIN_LEN,
        begin_ops(function, control, mode).subrange(0, BEGIN_DISPLAY_AT as int) == handshake_ops()
            + command_ops(LCD_FUNCTIONSET | function),
        begin_ops(function, control, mode).subrange(BEGIN_DISPLAY_AT as int, BEGIN_ENTRY_AT as int)
            == command_ops(LCD_DISPLAYCONTROL | control) + slow_command_ops(LCD_CLEARDISPLAY),
        begin_ops(function, control, mode).subrange(BEGIN_ENTRY_AT as int, BEGIN_LEN as int)
            == command_ops(LCD_ENTRYMODESET | mode),
{
    let all = begin_ops(function, control, mode);
    assert(all.subrange(0, BEGIN_DISPLAY_AT as int) =~= handshake_ops() + command_ops(
        LCD_FUNCTIONSET | function,
    ));
    assert(all.subrange(BEGIN_DISPLAY_AT as int, BEGIN_ENTRY_AT as int) =~= command_ops(
        LCD_DISPLAYCONTROL | control,
    ) + slow_command_ops(LCD_CLEARDISPLAY));
    assert(all.subrange(BEGIN_ENTRY_AT as int, BEGIN_LEN as int) =~= command_ops(
        LCD_ENTRYMODESET | mode,
    ));
}

/// An initialisation that is carried out to its last operation leaves the
/// state of a completed one, and one that fails on its first operation
/// has stored geometry, row table and function byte and nothing else.
pub proof fn law_begin_interrupted(before: Shadow, columns: u8, lines: u8, dotsize: u8, done: nat)
    ensures
        done >= BEGIN_LEN ==> before.begun(columns, lines, dotsize, done) == before.begun(
            columns,
            lines,
            dotsize,
            BEGIN_LEN as nat,
        ),
        done < BEGIN_DISPLAY_AT ==> before.begun(columns, lines, dotsize, done).control
            == before.control,
        done < BEGIN_ENTRY_AT ==> before.begun(columns, lines, dotsize, done).mode == before.mode,
        before.begun(columns, lines, dotsize, done).function == before.begun(
            columns,
            lines,
            dotsize,
            0,
        ).function,
{
}

/// The high four bits of a value play no part in a nibble write.
pub proof fn law_nibble_low_bits(value: u8)
    ensures
        nibble_ops(value) == nibble_ops(value & 0x0F),
        data_ops(value) == data_ops(value & 0x0F),
{
    let low = value & 0x0F;
    assert((value >> 0u8) & 0x01 == ((value & 0x0F) >> 0u8) & 0x01) by (bit_vector);
    assert((value >> 1u8) & 0x01 == ((value & 0x0F) >> 1u8) & 0x01) by (bit_vector);
    assert((value >> 2u8) & 0x01 == ((value & 0x0F) >> 2u8) & 0x01) by (bit_vector);
    assert((value >> 3u8) & 0x01 == ((value & 0x0F) >> 3u8) & 0x01) by (bit_vector);
    assert forall|i: int| 0 <= i < 4 implies bit_of(value, i) == bit_of(low, i) by {
        if i == 0 {
        } else if i == 1 {
        } else if i == 2 {
        } else {
            assert(i == 3);
        }
    }
    assert(data_ops(value) =~= data_ops(low));
}

/// A byte goes over the bus as register select followed by exactly two
/// nibble writes, `byte >> 4` and then `byte & 0x0F`. Each nibble write is
/// the four data lines, bit 0 on D4 up to bit 3 on D7, and one enable
/// pulse: low, 1 µs, high, 1 µs, low, 100 µs.
pub proof fn law_send_two_nibbles(byte: u8, data: bool)
    ensures
        send_ops(byte, data) == seq![Op::Drive { line: Line::RegisterSelect, high: data }]
            + nibble_ops(byte >> 4) + nibble_ops(byte & 0x0F),
        send_ops(byte, data).len() == 21,
        forall|nibble: u8|
            #![trigger nibble_ops(nibble)]
            nibble_ops(nibble) == seq![
                Op::Drive { line: Line::Data4, high: nibble & 0x01 == 0x01 },
                Op::Drive { line: Line::Data5, high: nibble & 0x02 == 0x02 },
                Op::Drive { line: Line::Data6, high: nibble & 0x04 == 0x04 },
                Op::Drive { line: Line::Data7, high: nibble & 0x08 == 0x08 },
                Op::Drive { line: Line::Enable, high: false },
                Op::Wait { micros: 1 },
                Op::Drive { line: Line::Enable, high: true },
                Op::Wait { micros: 1 },
                Op::Drive { line: Line::Enable, high: false },
                Op::Wait { micros: 100 },
            ],
{
    law_nibble_low_bits(byte);
    assert forall|nibble: u8| #![trigger nibble_ops(nibble)] nibble_ops(nibble) == seq![
        Op::Drive { line: Line::Data4, high: nibble & 0x01 == 0x01 },
        Op::Drive { line: Line::Data5, high: nibble & 0x02 == 0x02 },
        Op::Drive { line: Line::Data6, high: nibble & 0x04 == 0x04 },
        Op::Drive { line: Line::Data7, high: nibble & 0x08 == 0x08 },
        Op::Drive { line: Line::Enable, high: false },
        Op::Wait { micros: 1 },
        Op::Drive { line: Line::Enable, high: true },
        Op::Wait { micros: 1 },
        Op::Drive { line: Line::Enable, high: false },
        Op::Wait { micros: 100 },
    ] by {
        assert(((nibble >> 0u8) & 0x01 == 0x01) == (nibble & 0x01 == 0x01)) by (bit_vector);
        assert(((nibble >> 1u8) & 0x01 == 0x01) == (nibble & 0x02 == 0x02)) by (bit_vector);
        assert(((nibble >> 2u8) & 0x01 == 0x01) == (nibble & 0x04 == 0x04)) by (bit_vector);
        assert(((nibble >> 3u8) & 0x01 == 0x01) == (nibble & 0x08 == 0x08)) by (bit_vector);
        assert(bit_of(nibble, 0) == (nibble & 0x01 == 0x01));
        assert(bit_of(nibble, 1) == (nibble & 0x02 == 0x02));
        assert(bit_of(nibble, 2) == (nibble & 0x04 == 0x04));
        assert(bit_of(nibble, 3) == (nibble & 0x08 == 0x08));
        assert(data_line(0) == Line::Data4 && data_line(3) == Line::Data7);
        assert(nibble_ops(nibble) =~= seq![
            Op::Drive { line: Line::Data4, high: nibble & 0x01 == 0x01 },
            Op::Drive { line: Line::Data5, high: nibble & 0x02 == 0x02 },
            Op::Drive { line: Line::Data6, high: nibble & 0x04 == 0x04 },
            Op::Drive { line: Line::Data7, high: nibble & 0x08 == 0x08 },
            Op::Drive { line: Line::Enable, high: false },
            Op::Wait { micros: 1 },
            Op::Drive { line: Line::Enable, high: true },
            Op::Wait { micros: 1 },
            Op::Drive { line: Line::Enable, high: false },
            Op::Wait { micros: 100 },
        ]);
    }
}

/// Setting or clearing a flag leaves every bit outside the flag as it
/// was, and the display-control command carries the whole byte.
pub proof fn law_flag_keeps_other_bits(byte: u8, flag: u8, on: bool)
    ensures
        set_flag(byte, flag, on) & !flag == byte & !flag,
        set_flag(byte, flag, on) & flag == if on {
            flag
        } else {
            0
        },
{
    assert((byte | flag) & !flag == byte & !flag) by (bit_vector);
    assert((byte & !flag) & !flag == byte & !flag) by (bit_vector);
    assert((byte | flag) & flag == flag) by (bit_vector);
    assert((byte & !flag) & flag == 0) by (bit_vector);
}

/// Blink switched on and then the cursor switched off: the control byte
/// of the command that goes out has the display-on bit as it was before
/// the two calls, the blink bit set and the cursor bit clear, and nothing
/// but the control byte has changed in the shadow state.
pub proof fn law_blink_then_cursor_off(before: Shadow)
    ensures
        ({
            let blinking = before.with_control(set_flag(before.control, LCD_BLINKON, true));
            let after = blinking.with_control(set_flag(blinking.control, LCD_CURSORON, false));
            let sent = LCD_DISPLAYCONTROL | after.control;
            &&& sent & LCD_DISPLAYON == before.control & LCD_DISPLAYON
            &&& sent & LCD_BLINKON == LCD_BLINKON
            &&& sent & LCD_CURSORON == 0
            &&& sent & LCD_DISPLAYCONTROL == LCD_DISPLAYCONTROL
            &&& after == before.with_control(after.control)
        }),
{
    let c = before.control;
    assert((0x08u8 | ((c | 0x01u8) & !0x02u8)) & 0x04u8 == c & 0x04u8) by (bit_vector);
    assert((0x08u8 | ((c | 0x01u8) & !0x02u8)) & 0x01u8 == 0x01u8) by (bit_vector);
    assert((0x08u8 | ((c | 0x01u8) & !0x02u8)) & 0x02u8 == 0u8) by (bit_vector);
    assert((0x08u8 | ((c | 0x01u8) & !0x02u8)) & 0x08u8 == 0x08u8) by (bit_vector);
}

/// Clear-display and return-home are each the command followed by a wait
/// of 2000 µs, on top of the 100 µs that end every nibble write.
pub proof fn law_slow_commands_wait()
    ensures
        slow_command_ops(LCD_CLEARDISPLAY).len() == 22,
        slow_command_ops(LCD_CLEARDISPLAY).subrange(0, 21) == command_ops(LCD_CLEARDISPLAY),
        slow_command_ops(LCD_CLEARDISPLAY)[20] == (Op::Wait { micros: 100 }),
        slow_command_ops(LCD_CLEARDISPLAY)[21] == (Op::Wait { micros: 2000 }),
        slow_command_ops(LCD_RETURNHOME).len() == 22,
        slow_command_ops(LCD_RETURNHOME).subrange(0, 21) == command_ops(LCD_RETURNHOME),
        slow_command_ops(LCD_RETURNHOME)[20] == (Op::Wait { micros: 100 }),
        slow_command_ops(LCD_RETURNHOME)[21] == (Op::Wait { micros: 2000 }),
{
    assert(slow_command_ops(LCD_CLEARDISPLAY).subrange(0, 21) =~= command_ops(LCD_CLEARDISPLAY));
    assert(slow_command_ops(LCD_RETURNHOME).subrange(0, 21) =~= command_ops(LCD_RETURNHOME));
}

} // verus!
