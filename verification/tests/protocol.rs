use liquid_crystal::{Line, LiquidCrystal, Op};

fn low(line: Line) -> Op {
    Op::Drive { line, high: false }
}

fn high(line: Line) -> Op {
    Op::Drive { line, high: true }
}

fn wait(micros: u16) -> Op {
    Op::Wait { micros }
}

fn pulse() -> Vec<Op> {
    vec![low(Line::Enable), wait(1), high(Line::Enable), wait(1), low(Line::Enable), wait(100)]
}

fn nibble(d4: bool, d5: bool, d6: bool, d7: bool) -> Vec<Op> {
    let mut ops = vec![
        Op::Drive { line: Line::Data4, high: d4 },
        Op::Drive { line: Line::Data5, high: d5 },
        Op::Drive { line: Line::Data6, high: d6 },
        Op::Drive { line: Line::Data7, high: d7 },
    ];
    ops.extend(pulse());
    ops
}

fn nibble_of(value: u8) -> Vec<Op> {
    nibble(value & 1 != 0, value & 2 != 0, value & 4 != 0, value & 8 != 0)
}

fn byte(value: u8, select: bool) -> Vec<Op> {
    let mut ops = vec![Op::Drive { line: Line::RegisterSelect, high: select }];
    ops.extend(nibble_of(value / 16));
    ops.extend(nibble_of(value % 16));
    ops
}

fn handshake() -> Vec<Op> {
    let mut ops = vec![wait(50000), low(Line::RegisterSelect), low(Line::Enable)];
    ops.extend(nibble(true, true, false, false));
    ops.push(wait(4500));
    ops.extend(nibble(true, true, false, false));
    ops.push(wait(4500));
    ops.extend(nibble(true, true, false, false));
    ops.push(wait(150));
    ops.extend(nibble(false, true, false, false));
    ops
}

#[test]
fn command_is_two_nibbles_high_first() {
    let mut lcd = LiquidCrystal::new();
    let ops = lcd.command(0xA5);
    let mut expected = vec![low(Line::RegisterSelect)];
    // 0xA = 1010: D5 and D7 high
    expected.extend(nibble(false, true, false, true));
    // 0x5 = 0101: D4 and D6 high
    expected.extend(nibble(true, false, true, false));
    assert_eq!(ops, expected);
    assert_eq!(ops.len(), 21);
}

#[test]
fn command_written_out_in_full() {
    let mut lcd = LiquidCrystal::new();
    let ops = lcd.command(0x28);
    let expected = vec![
        low(Line::RegisterSelect),
        low(Line::Data4),
        high(Line::Data5),
        low(Line::Data6),
        low(Line::Data7),
        low(Line::Enable),
        wait(1),
        high(Line::Enable),
        wait(1),
        low(Line::Enable),
        wait(100),
        low(Line::Data4),
        low(Line::Data5),
        low(Line::Data6),
        high(Line::Data7),
        low(Line::Enable),
        wait(1),
        high(Line::Enable),
        wait(1),
        low(Line::Enable),
        wait(100),
    ];
    assert_eq!(ops, expected);
}

#[test]
fn write_selects_the_data_register() {
    let mut lcd = LiquidCrystal::new();
    let ops = lcd.write(b'A');
    let mut expected = vec![high(Line::RegisterSelect)];
    expected.extend(nibble(false, false, true, false));
    expected.extend(nibble(true, false, false, false));
    assert_eq!(ops, expected);
    assert_eq!(lcd.control(), 0);
}

#[test]
fn every_byte_splits_the_same_way() {
    let mut lcd = LiquidCrystal::new();
    for value in 0..=255u8 {
        assert_eq!(lcd.command(value), byte(value, false));
        assert_eq!(lcd.write(value), byte(value, true));
    }
}

#[test]
fn data_lines_in_bit_order() {
    let mut lcd = LiquidCrystal::new();
    // one bit at a time in the low nibble
    assert_eq!(lcd.command(0x01)[11..15].to_vec(), nibble(true, false, false, false)[..4].to_vec());
    assert_eq!(lcd.command(0x02)[11..15].to_vec(), nibble(false, true, false, false)[..4].to_vec());
    assert_eq!(lcd.command(0x04)[11..15].to_vec(), nibble(false, false, true, false)[..4].to_vec());
    assert_eq!(lcd.command(0x08)[11..15].to_vec(), nibble(false, false, false, true)[..4].to_vec());
    // and in the high nibble
    assert_eq!(lcd.command(0x10)[1..5].to_vec(), nibble(true, false, false, false)[..4].to_vec());
    assert_eq!(lcd.command(0x80)[1..5].to_vec(), nibble(false, false, false, true)[..4].to_vec());
}

#[test]
fn begin_opens_with_the_handshake() {
    let mut lcd = LiquidCrystal::new();
    let ops = lcd.begin(16, 2, 0);
    assert_eq!(ops[..46].to_vec(), handshake());
    // the first command byte follows the handshake: function set, two lines
    assert_eq!(ops[46..67].to_vec(), byte(0x28, false));
    let waits: Vec<u16> = ops[..46]
        .iter()
        .filter_map(|op| match op {
            Op::Wait { micros } if *micros > 100 => Some(*micros),
            _ => None,
        })
        .collect();
    assert_eq!(waits, vec![50000, 4500, 4500, 150]);
}

#[test]
fn begin_16_by_2() {
    let mut lcd = LiquidCrystal::new();
    let ops = lcd.begin(16, 2, 0);
    assert_eq!(lcd.function() & 0x08, 0x08);
    assert_eq!(lcd.function() & 0x04, 0x00);
    assert_eq!(lcd.row_offsets(), [0, 64, 16, 80]);
    assert_eq!(lcd.columns(), 16);
    assert_eq!(lcd.lines(), 2);
    assert_eq!(lcd.control(), 0x04);
    assert_eq!(lcd.mode(), 0x02);
    assert_eq!(ops.len(), 131);
    assert_eq!(ops[110..].to_vec(), byte(0x04 | 0x02, false));

    let mut expected = handshake();
    expected.extend(byte(0x28, false));
    expected.extend(byte(0x0C, false));
    expected.extend(byte(0x01, false));
    expected.push(wait(2000));
    expected.extend(byte(0x06, false));
    assert_eq!(ops, expected);
}

#[test]
fn new_is_blank() {
    let lcd = LiquidCrystal::new();
    assert_eq!(lcd.columns(), 0);
    assert_eq!(lcd.lines(), 0);
    assert_eq!(lcd.function(), 0);
    assert_eq!(lcd.control(), 0);
    assert_eq!(lcd.mode(), 0);
    assert_eq!(lcd.row_offsets(), [0, 0, 0, 0]);
}

#[test]
fn row_offsets_do_not_depend_on_lines() {
    for lines in 1..=4u8 {
        for columns in [0u8, 8, 16, 20, 40, 191] {
            let mut lcd = LiquidCrystal::new();
            lcd.begin(columns, lines, 0);
            assert_eq!(lcd.row_offsets(), [0x00, 0x40, columns, columns + 0x40]);
        }
    }
}

#[test]
fn widest_display() {
    let mut lcd = LiquidCrystal::new();
    lcd.begin(191, 4, 0);
    assert_eq!(lcd.row_offsets(), [0, 64, 191, 255]);
    assert_eq!(lcd.cursor_address(0, 3), Some(255));
    assert_eq!(lcd.cursor_address(1, 3), None);
}

#[test]
fn tall_font_only_on_one_line() {
    let mut one = LiquidCrystal::new();
    let ops = one.begin(16, 1, 1);
    assert_eq!(one.function(), 0x04);
    assert_eq!(ops[46..67].to_vec(), byte(0x24, false));

    let mut two = LiquidCrystal::new();
    let ops = two.begin(16, 2, 1);
    assert_eq!(two.function(), 0x08);
    assert_eq!(ops[46..67].to_vec(), byte(0x28, false));

    let mut plain = LiquidCrystal::new();
    let ops = plain.begin(16, 1, 0);
    assert_eq!(plain.function(), 0x00);
    assert_eq!(ops[46..67].to_vec(), byte(0x20, false));

    let mut none = LiquidCrystal::new();
    none.begin(16, 0, 7);
    assert_eq!(none.function(), 0x00);
    assert_eq!(none.lines(), 0);
}

#[test]
fn function_bits_accumulate() {
    let mut lcd = LiquidCrystal::new();
    lcd.begin(16, 2, 0);
    assert_eq!(lcd.function(), 0x08);
    let ops = lcd.begin(16, 1, 1);
    assert_eq!(lcd.function(), 0x0C);
    assert_eq!(ops[46..67].to_vec(), byte(0x2C, false));
}

#[test]
fn begin_keeps_control_bits() {
    let mut lcd = LiquidCrystal::new();
    lcd.blink(true);
    lcd.cursor(true);
    let ops = lcd.begin(20, 4, 0);
    assert_eq!(lcd.control(), 0x07);
    assert_eq!(ops[67..88].to_vec(), byte(0x0F, false));
    assert_eq!(ops[88..109].to_vec(), byte(0x01, false));
    assert_eq!(ops[109], wait(2000));
}
