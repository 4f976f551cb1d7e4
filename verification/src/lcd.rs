//! The display driver: shadow registers, geometry, and the bus operations
//! of every display command.

use vstd::prelude::*;
use crate::bus::{nibble_ops, send, send_ops, write_4bits, Line, Op};

verus! {

// Instructions.
pub const LCD_CLEARDISPLAY: u8 = 0x01;
pub const LCD_RETURNHOME: u8 = 0x02;
pub const LCD_ENTRYMODESET: u8 = 0x04;
pub const LCD_DISPLAYCONTROL: u8 = 0x08;
pub const LCD_FUNCTIONSET: u8 = 0x20;
pub const LCD_SETDDRAMADDR: u8 = 0x80;

// Flags of the entry mode.
pub const LCD_ENTRYLEFT: u8 = 0x02;
pub const LCD_ENTRYSHIFTDECREMENT: u8 = 0x00;

// Flags of the display control.
pub const LCD_DISPLAYON: u8 = 0x04;
pub const LCD_CURSORON: u8 = 0x02;
pub const LCD_BLINKON: u8 = 0x01;

// Flags of the function set.
pub const LCD_4BITMODE: u8 = 0x00;
pub const LCD_2LINE: u8 = 0x08;
pub const LCD_1LINE: u8 = 0x00;
pub const LCD_5X10DOTS: u8 = 0x04;
pub const LCD_5X8DOTS: u8 = 0x00;

/// Start of the second bank of display data RAM, where rows 1 and 3 live.
pub const SECOND_BANK: u8 = 0x40;

/// Number of rows the offset table has room for.
pub const MAX_LINES: u8 = 4;

/// Widest display whose fourth row still starts at an address that fits a byte.
pub const MAX_COLUMNS: u8 = 0xBF;

/// Settle time after power-on before the first nibble, in microseconds.
pub const POWER_ON_MICROS: u16 = 50000;

/// Wait after the first and after the second wake-up nibble.
pub const WAKE_LONG_MICROS: u16 = 4500;

/// Wait after the third wake-up nibble.
pub const WAKE_SHORT_MICROS: u16 = 150;

/// Execution time of clear-display and return-home.
pub const SLOW_COMMAND_MICROS: u16 = 2000;

/// Number of bus operations of the handshake that forces 4-bit mode.
pub const HANDSHAKE_LEN: usize = 46;

/// Number of bus operations of an initialisation that precede the
/// display-control command: the handshake and the function set.
pub const BEGIN_DISPLAY_AT: usize = 67;

/// Number of bus operations of an initialisation that precede the
/// entry-mode command.
pub const BEGIN_ENTRY_AT: usize = 110;

/// Number of bus operations of a whole initialisation.
pub const BEGIN_LEN: usize = 131;

/// `byte` with the bits of `flag` set (`on`) or cleared, all others kept.
pub open spec fn set_flag(byte: u8, flag: u8, on: bool) -> u8 {
    if on {
        byte | flag
    } else {
        byte & !flag
    }
}

/// Start addresses of the four rows of a display `columns` wide: rows 0 and
/// 1 open the two banks, rows 2 and 3 continue them after `columns` cells.
pub open spec fn row_offsets_for(columns: u8) -> Seq<u8> {
    seq![0x00u8, SECOND_BANK, columns, (columns + SECOND_BANK) as u8]
}

/// The function byte after an initialisation for `lines` rows and the font
/// `dotsize` (zero for 5x8): bits are only ever added. The tall font is
/// taken on one-line displays alone.
pub open spec fn function_for(function: u8, lines: u8, dotsize: u8) -> u8 {
    let with_lines = if lines > 1 {
        function | LCD_2LINE
    } else {
        function
    };
    if dotsize != LCD_5X8DOTS && lines == 1 {
        with_lines | LCD_5X10DOTS
    } else {
        with_lines
    }
}

/// The row that is addressed when `row` is asked for on a display of
/// `lines` rows (at least one): `row` itself, or the last row that both the
/// display and the offset table have.
pub open spec fn clamped_row(row: u8, lines: u8) -> int {
    let last = if lines < MAX_LINES {
        lines - 1
    } else {
        MAX_LINES - 1
    };
    if row < last {
        row as int
    } else {
        last
    }
}

/// An instruction byte on the bus: register select low.
pub open spec fn command_ops(value: u8) -> Seq<Op> {
    send_ops(value, false)
}

/// A character byte on the bus: register select high.
pub open spec fn write_ops(value: u8) -> Seq<Op> {
    send_ops(value, true)
}

/// An instruction that the controller takes about two milliseconds over:
/// the command, then the wait.
pub open spec fn slow_command_ops(value: u8) -> Seq<Op> {
    command_ops(value) + seq![Op::Wait { micros: SLOW_COMMAND_MICROS }]
}

/// The handshake that brings a controller in an unknown state into 4-bit
/// mode: settle, register select and enable low, `0x03` three times with
/// waits of 4500, 4500 and 150 µs behind them, then `0x02`.
pub open spec fn handshake_ops() -> Seq<Op> {
    seq![
        Op::Wait { micros: POWER_ON_MICROS },
        Op::Drive { line: Line::RegisterSelect, high: false },
        Op::Drive { line: Line::Enable, high: false },
    ] + nibble_ops(0x03) + seq![Op::Wait { micros: WAKE_LONG_MICROS }] + nibble_ops(0x03)
        + seq![Op::Wait { micros: WAKE_LONG_MICROS }] + nibble_ops(0x03) + seq![
        Op::Wait { micros: WAKE_SHORT_MICROS },
    ] + nibble_ops(0x02)
}

/// A whole initialisation, given the three shadow bytes it ends with: the
/// handshake, function set, display control, clear, entry mode.
pub open spec fn begin_ops(function: u8, control: u8, mode: u8) -> Seq<Op> {
    handshake_ops() + command_ops(LCD_FUNCTIONSET | function) + command_ops(
        LCD_DISPLAYCONTROL | control,
    ) + slow_command_ops(LCD_CLEARDISPLAY) + command_ops(LCD_ENTRYMODESET | mode)
}

/// What the driver knows of the display: its geometry, the row table, and
/// the copies of the controller's three write-only registers.
pub struct Shadow {
    pub columns: u8,
    pub lines: u8,
    pub function: u8,
    pub control: u8,
    pub mode: u8,
    pub row_offsets: Seq<u8>,
}

impl Shadow {
    /// The state of a driver that was never initialised: no geometry, a
    /// blank row table, and no bit set in any register (which for the
    /// function byte reads 4-bit bus, one line, 5x8 font).
    pub open spec fn fresh() -> Shadow {
        Shadow {
            columns: 0,
            lines: 0,
            function: 0,
            control: 0,
            mode: 0,
            row_offsets: seq![0u8, 0u8, 0u8, 0u8],
        }
    }

    /// The row table is the blank one of a driver never initialised, or
    /// the one that belongs to `columns`.
    pub open spec fn wf(self) -> bool {
        ||| (self.columns == 0 && self.lines == 0 && self.row_offsets == seq![0u8, 0u8, 0u8, 0u8])
        ||| (self.columns <= MAX_COLUMNS && self.row_offsets == row_offsets_for(self.columns))
    }

    /// The state in which an initialisation leaves the driver once `done`
    /// of its bus operations have been carried out. Geometry, row table
    /// and function byte are stored before the first operation; the
    /// display-on bit is stored when the display-control command is due,
    /// the entry mode (left to right, no shift) when the entry-mode
    /// command is due.
    pub open spec fn begun(self, columns: u8, lines: u8, dotsize: u8, done: nat) -> Shadow {
        Shadow {
            columns,
            lines,
            function: function_for(self.function, lines, dotsize),
            control: if done >= BEGIN_DISPLAY_AT {
                self.control | LCD_DISPLAYON
            } else {
                self.control
            },
            mode: if done >= BEGIN_ENTRY_AT {
                LCD_ENTRYLEFT
            } else {
                self.mode
            },
            row_offsets: row_offsets_for(columns),
        }
    }

    /// The state with the control byte replaced.
    pub open spec fn with_control(self, control: u8) -> Shadow {
        Shadow { control, ..self }
    }

    /// Whether a cursor position can be addressed: the display has a row,
    /// and the address fits a byte.
    pub open spec fn addressable(self, column: u8, row: u8) -> bool {
        self.lines >= 1 && column + self.row_offsets[clamped_row(row, self.lines)] <= u8::MAX
    }

    /// The display data RAM address of a cursor position: the column added
    /// to the start of the clamped row. The column is taken as it is.
    pub open spec fn ddram_address(self, column: u8, row: u8) -> u8 {
        (column + self.row_offsets[clamped_row(row, self.lines)]) as u8
    }
}

/// Driver for one display. It holds no pins: each operation updates the
/// shadow registers and returns the bus operations that carry it out.
#[derive(Clone, Copy, Debug)]
pub struct LiquidCrystal {
    columns: u8,
    lines: u8,
    function: u8,
    control: u8,
    mode: u8,
    row_offsets: [u8; 4],
}

impl View for LiquidCrystal {
    type V = Shadow;

    closed spec fn view(&self) -> Shadow {
        Shadow {
            columns: self.columns,
            lines: self.lines,
            function: self.function,
            control: self.control,
            mode: self.mode,
            row_offsets: self.row_offsets@,
        }
    }
}

impl LiquidCrystal {
    /// Creates a driver that knows nothing of its display yet.
    pub fn new() -> (lcd: Self)
        ensures
            lcd@ == Shadow::fresh(),
            lcd@.wf(),
    {
        let lcd = Self {
            columns: 0,
            lines: 0,
            function: LCD_4BITMODE | LCD_1LINE | LCD_5X8DOTS,
            control: 0,
            mode: 0,
            row_offsets: [0, 0, 0, 0],
        };
        assert(lcd.row_offsets@ =~= seq![0u8, 0u8, 0u8, 0u8]);
        assert(0x00u8 | 0x00u8 | 0x00u8 == 0x00u8) by (bit_vector);
        lcd
    }

    /// Stores geometry, row table and function byte, as an initialisation
    /// does before it touches the bus.
    fn configure(&mut self, columns: u8, lines: u8, dotsize: u8)
        requires
            columns <= MAX_COLUMNS,
        ensures
            final(self)@ == old(self)@.begun(columns, lines, dotsize, 0),
    {
        self.columns = columns;
        self.lines = lines;
        if lines > 1 {
            self.function = self.function | LCD_2LINE;
        }
        self.row_offsets = [0x00, SECOND_BANK, columns, columns + SECOND_BANK];
        if dotsize != LCD_5X8DOTS && lines == 1 {
            self.function = self.function | LCD_5X10DOTS;
        }
        assert(self.row_offsets@ =~= row_offsets_for(columns));
    }

    /// Initialises the display for `columns` by `lines` cells; `dotsize`
    /// other than zero asks for the tall font.
    pub fn begin(&mut self, columns: u8, lines: u8, dotsize: u8) -> (ops: Vec<Op>)
        requires
            columns <= MAX_COLUMNS,
        ensures
            final(self)@ == old(self)@.begun(columns, lines, dotsize, BEGIN_LEN as nat),
            final(self)@.wf(),
            ops@ == begin_ops(final(self)@.function, final(self)@.control, final(self)@.mode),
            ops@.len() == BEGIN_LEN,
    {
        self.configure(columns, lines, dotsize);

        let mut ops: Vec<Op> = Vec::new();
        ops.push(Op::Wait { micros: POWER_ON_MICROS });
        ops.push(Op::Drive { line: Line::RegisterSelect, high: false });
        ops.push(Op::Drive { line: Line::Enable, high: false });

        write_4bits(&mut ops, 0x03);
        ops.push(Op::Wait { micros: WAKE_LONG_MICROS });
        write_4bits(&mut ops, 0x03);
        ops.push(Op::Wait { micros: WAKE_LONG_MICROS });
        write_4bits(&mut ops, 0x03);
        ops.push(Op::Wait { micros: WAKE_SHORT_MICROS });
        write_4bits(&mut ops, 0x02);
        assert(ops@ =~= handshake_ops());

        send(&mut ops, LCD_FUNCTIONSET | self.function, false);
        let mut display_on = self.display(true);
        ops.append(&mut display_on);
        let mut cleared = self.clear();
        ops.append(&mut cleared);

        self.mode = LCD_ENTRYLEFT | LCD_ENTRYSHIFTDECREMENT;
        assert(0x02u8 | 0x00u8 == 0x02u8) by (bit_vector);
        send(&mut ops, LCD_ENTRYMODESET | self.mode, false);
        ops
    }

    /// Brings the shadow state to what an initialisation leaves behind
    /// when the bus fails after `completed` of its operations: what was
    /// stored before the failing operation stays, the rest is untouched.
    pub fn begin_interrupted(&mut self, columns: u8, lines: u8, dotsize: u8, completed: usize)
        requires
            columns <= MAX_COLUMNS,
        ensures
            final(self)@ == old(self)@.begun(columns, lines, dotsize, completed as nat),
            final(self)@.wf(),
    {
        self.configure(columns, lines, dotsize);
        if completed >= BEGIN_DISPLAY_AT {
            self.control = self.control | LCD_DISPLAYON;
        }
        if completed >= BEGIN_ENTRY_AT {
            self.mode = LCD_ENTRYLEFT | LCD_ENTRYSHIFTDECREMENT;
            assert(0x02u8 | 0x00u8 == 0x02u8) by (bit_vector);
        }
    }

    /// Enables or disables the display.
    pub fn display(&mut self, on: bool) -> (ops: Vec<Op>)
        ensures
            final(self)@ == old(self)@.with_control(set_flag(old(self)@.control, LCD_DISPLAYON, on)),
            old(self)@.wf() ==> final(self)@.wf(),
            ops@ == command_ops(LCD_DISPLAYCONTROL | final(self)@.control),
    {
        if on {
            self.control = self.control | LCD_DISPLAYON;
        } else {
            self.control = self.control & !LCD_DISPLAYON;
        }
        self.command(LCD_DISPLAYCONTROL | self.control)
    }

    /// Enables or disables the underline cursor.
    pub fn cursor(&mut self, on: bool) -> (ops: Vec<Op>)
        ensures
            final(self)@ == old(self)@.with_control(set_flag(old(self)@.control, LCD_CURSORON, on)),
            old(self)@.wf() ==> final(self)@.wf(),
            ops@ == command_ops(LCD_DISPLAYCONTROL | final(self)@.control),
    {
        if on {
            self.control = self.control | LCD_CURSORON;
        } else {
            self.control = self.control & !LCD_CURSORON;
        }
        self.command(LCD_DISPLAYCONTROL | self.control)
    }

    /// Enables or disables the blinking cursor.
    pub fn blink(&mut self, on: bool) -> (ops: Vec<Op>)
        ensures
            final(self)@ == old(self)@.with_control(set_flag(old(self)@.control, LCD_BLINKON, on)),
            old(self)@.wf() ==> final(self)@.wf(),
            ops@ == command_ops(LCD_DISPLAYCONTROL | final(self)@.control),
    {
        if on {
            self.control = self.control | LCD_BLINKON;
        } else {
            self.control = self.control & !LCD_BLINKON;
        }
        self.command(LCD_DISPLAYCONTROL | self.control)
    }

    /// Clears the display.
    pub fn clear(&mut self) -> (ops: Vec<Op>)
        ensures
            final(self)@ == old(self)@,
            ops@ == slow_command_ops(LCD_CLEARDISPLAY),
    {
        let mut ops = self.command(LCD_CLEARDISPLAY);
        ops.push(Op::Wait { micros: SLOW_COMMAND_MICROS });
        ops
    }

    /// Returns the cursor to the home position.
    pub fn home(&mut self) -> (ops: Vec<Op>)
        ensures
            final(self)@ == old(self)@,
            ops@ == slow_command_ops(LCD_RETURNHOME),
    {
        let mut ops = self.command(LCD_RETURNHOME);
        ops.push(Op::Wait { micros: SLOW_COMMAND_MICROS });
        ops
    }

    /// The row that is addressed when `row` is asked for: first held to the
    /// rows of the table, then to the lines of the display.
    fn clamp_row(&self, row: u8) -> (clamped: u8)
        requires
            self@.lines >= 1,
        ensures
            clamped == clamped_row(row, self@.lines),
    {
        let mut row = row;
        let max_lines: u8 = MAX_LINES;
        if row >= max_lines {
            row = max_lines - 1;
        }
        if row >= self.lines {
            row = self.lines - 1;
        }
        row
    }

    /// The address that `set_cursor` would send for this position, or
    /// `None` where the position cannot be addressed.
    pub fn cursor_address(&self, column: u8, row: u8) -> (address: Option<u8>)
        ensures
            address == if self@.addressable(column, row) {
                Some(self@.ddram_address(column, row))
            } else {
                None
            },
    {
        if self.lines < 1 {
            return None;
        }
        let row = self.clamp_row(row);
        let offset: u8 = self.row_offsets[row as usize];
        if column > u8::MAX - offset {
            return None;
        }
        Some(column + offset)
    }

    /// Sets the cursor position. `column` and `row` count from zero. A row
    /// past the last one means the last one.
    pub fn set_cursor(&mut self, column: u8, row: u8) -> (ops: Vec<Op>)
        requires
            old(self)@.addressable(column, row),
        ensures
            final(self)@ == old(self)@,
            ops@ == command_ops(LCD_SETDDRAMADDR | old(self)@.ddram_address(column, row)),
    {
        let row = self.clamp_row(row);
        let addr: u8 = column + self.row_offsets[row as usize];
        self.command(LCD_SETDDRAMADDR | addr)
    }

    /// Sends `value` as an instruction.
    pub fn command(&mut self, value: u8) -> (ops: Vec<Op>)
        ensures
            final(self)@ == old(self)@,
            ops@ == command_ops(value),
    {
        let mut ops: Vec<Op> = Vec::new();
        send(&mut ops, value, false);
        ops
    }

    /// Sends `value` as character data.
    pub fn write(&mut self, value: u8) -> (ops: Vec<Op>)
        ensures
            final(self)@ == old(self)@,
            ops@ == write_ops(value),
    {
        let mut ops: Vec<Op> = Vec::new();
        send(&mut ops, value, true);
        ops
    }

    /// Width of the display in cells, as last initialised.
    pub fn columns(&self) -> (columns: u8)
        ensures
            columns == self@.columns,
    {
        self.columns
    }

    /// Number of rows of the display, as last initialised.
    pub fn lines(&self) -> (lines: u8)
        ensures
            lines == self@.lines,
    {
        self.lines
    }

    /// Shadow of the function register.
    pub fn function(&self) -> (function: u8)
        ensures
            function == self@.function,
    {
        self.function
    }

    /// Shadow of the display-control register.
    pub fn control(&self) -> (control: u8)
        ensures
            control == self@.control,
    {
        self.control
    }

    /// Shadow of the entry-mode register.
    pub fn mode(&self) -> (mode: u8)
        ensures
            mode == self@.mode,
    {
        self.mode
    }

    /// Start addresses of the four rows.
    pub fn row_offsets(&self) -> (offsets: [u8; 4])
        ensures
            offsets@ == self@.row_offsets,
    {
        self.row_offsets
    }
}

} // verus!
