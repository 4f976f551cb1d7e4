use liquid_crystal::{Line, LiquidCrystal, Op};

fn expect_command(value: u8) -> Vec<Op> {
    let mut ops = vec![Op::Drive { line: Line::RegisterSelect, high: false }];
    for half in [value >> 4, value & 0x0F] {
        ops.push(Op::Drive { line: Line::Data4, high: half & 1 != 0 });
        ops.push(Op::Drive { line: Line::Data5, high: half & 2 != 0 });
        ops.push(Op::Drive { line: Line::Data6, high: half & 4 != 0 });
        ops.push(Op::Drive { line: Line::Data7, high: half & 8 != 0 });
        ops.push(Op::Drive { line: Line::Enable, high: false });
        ops.push(Op::Wait { micros: 1 });
        ops.push(Op::Drive { line: Line::Enable, high: true });
        ops.push(Op::Wait { micros: 1 });
        ops.push(Op::Drive { line: Line::Enable, high: false });
        ops.push(Op::Wait { micros: 100 });
    }
    ops
}

fn ready(columns: u8, lines: u8) -> LiquidCrystal {
    let mut lcd = LiquidCrystal::new();
    lcd.begin(columns, lines, 0);
    lcd
}

#[test]
fn set_cursor_past_the_last_row() {
    let mut lcd = ready(16, 2);
    assert_eq!(lcd.cursor_address(20, 5), Some(84));
    let ops = lcd.set_cursor(20, 5);
    assert_eq!(ops, expect_command(0x80 | 84));
    assert_eq!(ops, expect_command(0xD4));
}

#[test]
fn set_cursor_inside_the_display() {
    let mut lcd = ready(20, 4);
    assert_eq!(lcd.set_cursor(0, 0), expect_command(0x80));
    assert_eq!(lcd.set_cursor(3, 1), expect_command(0x80 | 0x43));
    assert_eq!(lcd.set_cursor(5, 2), expect_command(0x80 | 25));
    assert_eq!(lcd.set_cursor(19, 3), expect_command(0x80 | 103));
}

#[test]
fn set_cursor_clamps_to_the_last_row() {
    let mut four = ready(20, 4);
    assert_eq!(four.set_cursor(1, 4), expect_command(0x80 | 85));
    assert_eq!(four.set_cursor(1, 255), expect_command(0x80 | 85));

    let mut three = ready(20, 3);
    assert_eq!(three.set_cursor(1, 3), expect_command(0x80 | 21));

    let mut one = ready(16, 1);
    assert_eq!(one.set_cursor(7, 1), expect_command(0x80 | 7));
    assert_eq!(one.set_cursor(7, 9), expect_command(0x80 | 7));

    // more lines than the table has rows: the table's last row
    let mut tall = ready(20, 9);
    assert_eq!(tall.set_cursor(0, 8), expect_command(0x80 | 84));
}

#[test]
fn set_cursor_takes_the_column_as_it_is() {
    let mut lcd = ready(16, 2);
    assert_eq!(lcd.cursor_address(100, 0), Some(100));
    assert_eq!(lcd.set_cursor(100, 0), expect_command(0x80 | 100));
    assert_eq!(lcd.set_cursor(255, 0), expect_command(0xFF));
}

#[test]
fn cursor_address_where_none_exists() {
    let blank = LiquidCrystal::new();
    assert_eq!(blank.cursor_address(0, 0), None);

    let no_lines = ready(16, 0);
    assert_eq!(no_lines.cursor_address(0, 0), None);

    let lcd = ready(16, 2);
    assert_eq!(lcd.cursor_address(191, 1), Some(255));
    assert_eq!(lcd.cursor_address(192, 1), None);
    assert_eq!(lcd.cursor_address(250, 5), None);
}

#[test]
fn set_cursor_leaves_the_state() {
    let mut lcd = ready(16, 2);
    lcd.set_cursor(3, 1);
    assert_eq!(lcd.columns(), 16);
    assert_eq!(lcd.lines(), 2);
    assert_eq!(lcd.function(), 0x08);
    assert_eq!(lcd.control(), 0x04);
    assert_eq!(lcd.mode(), 0x02);
    assert_eq!(lcd.row_offsets(), [0, 64, 16, 80]);
}

#[test]
fn blink_on_then_cursor_off() {
    let mut lcd = ready(16, 2);
    lcd.cursor(true);
    assert_eq!(lcd.control(), 0x06);
    let ops = lcd.blink(true);
    assert_eq!(ops, expect_command(0x08 | 0x07));
    let ops = lcd.cursor(false);
    assert_eq!(lcd.control(), 0x05);
    assert_eq!(ops, expect_command(0x0D));
}

#[test]
fn blink_on_then_cursor_off_display_off() {
    let mut lcd = LiquidCrystal::new();
    lcd.blink(true);
    let ops = lcd.cursor(false);
    assert_eq!(lcd.control(), 0x01);
    assert_eq!(ops, expect_command(0x09));
}

#[test]
fn display_toggles_one_bit() {
    let mut lcd = ready(16, 2);
    lcd.blink(true);
    let ops = lcd.display(false);
    assert_eq!(lcd.control(), 0x01);
    assert_eq!(ops, expect_command(0x09));
    let ops = lcd.display(true);
    assert_eq!(lcd.control(), 0x05);
    assert_eq!(ops, expect_command(0x0D));
    let ops = lcd.display(true);
    assert_eq!(lcd.control(), 0x05);
    assert_eq!(ops, expect_command(0x0D));
}

#[test]
fn cursor_and_blink_toggle_one_bit() {
    let mut lcd = ready(16, 2);
    assert_eq!(lcd.cursor(true), expect_command(0x0E));
    assert_eq!(lcd.blink(true), expect_command(0x0F));
    assert_eq!(lcd.blink(false), expect_command(0x0E));
    assert_eq!(lcd.cursor(false), expect_command(0x0C));
    assert_eq!(lcd.blink(false), expect_command(0x0C));
    assert_eq!(lcd.control(), 0x04);
    assert_eq!(lcd.function(), 0x08);
    assert_eq!(lcd.mode(), 0x02);
}

#[test]
fn clear_waits_two_milliseconds() {
    let mut lcd = ready(16, 2);
    let ops = lcd.clear();
    let mut expected = expect_command(0x01);
    expected.push(Op::Wait { micros: 2000 });
    assert_eq!(ops, expected);
    assert_eq!(ops.len(), 22);
    assert_eq!(ops[20], Op::Wait { micros: 100 });
    assert_eq!(ops[21], Op::Wait { micros: 2000 });
}

#[test]
fn home_waits_two_milliseconds() {
    let mut lcd = ready(16, 2);
    let ops = lcd.home();
    let mut expected = expect_command(0x02);
    expected.push(Op::Wait { micros: 2000 });
    assert_eq!(ops, expected);
    assert_eq!(ops[21], Op::Wait { micros: 2000 });
}

#[test]
fn interrupted_before_the_display_command() {
    for completed in [0usize, 1, 45, 66] {
        let mut lcd = LiquidCrystal::new();
        lcd.begin_interrupted(16, 2, 0, completed);
        assert_eq!(lcd.columns(), 16);
        assert_eq!(lcd.lines(), 2);
        assert_eq!(lcd.function(), 0x08);
        assert_eq!(lcd.row_offsets(), [0, 64, 16, 80]);
        assert_eq!(lcd.control(), 0x00);
        assert_eq!(lcd.mode(), 0x00);
    }
}

#[test]
fn interrupted_before_the_entry_mode() {
    for completed in [67usize, 88, 109] {
        let mut lcd = LiquidCrystal::new();
        lcd.begin_interrupted(16, 2, 0, completed);
        assert_eq!(lcd.function(), 0x08);
        assert_eq!(lcd.control(), 0x04);
        assert_eq!(lcd.mode(), 0x00);
    }
}

#[test]
fn interrupted_in_the_entry_mode() {
    for completed in [110usize, 130, 131, 1000] {
        let mut lcd = LiquidCrystal::new();
        lcd.begin_interrupted(16, 2, 0, completed);
        assert_eq!(lcd.control(), 0x04);
        assert_eq!(lcd.mode(), 0x02);
    }
    let mut whole = LiquidCrystal::new();
    whole.begin(16, 2, 0);
    let mut stopped = LiquidCrystal::new();
    stopped.begin_interrupted(16, 2, 0, 131);
    assert_eq!(whole.control(), stopped.control());
    assert_eq!(whole.mode(), stopped.mode());
    assert_eq!(whole.function(), stopped.function());
    assert_eq!(whole.row_offsets(), stopped.row_offsets());
}
