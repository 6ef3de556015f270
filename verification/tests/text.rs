use lib::text::{format_num, CellWrite, InvalidBase, Text};

fn cells(s: &[u8], row_start: usize, fg: u8, bg: u8) -> Vec<CellWrite> {
    s.iter()
        .enumerate()
        .map(|(i, b)| CellWrite {
            offset: row_start + i,
            value: u16::from(*b) | (u16::from(fg & 0xf | bg << 4) << 8),
        })
        .collect()
}

#[test]
fn new_starts_top_left() {
    assert_eq!(Text::new().cursor(), (0, 0));
}

#[test]
fn cell_values() {
    assert_eq!(Text::cell(b'A', 0xf, 0x0), 0x0f41);
    assert_eq!(Text::cell(b'z', 0x12, 0x34), 0x427a);
    assert_eq!(Text::cell(0xff, 0xff, 0xff), 0xffff);
}

#[test]
fn write_str_writes_cells_in_order() {
    let mut t = Text::new();
    let w = t.write_str(b"hi", 0xf, 0x1);
    assert_eq!(w, vec![CellWrite { offset: 0, value: 0x1f68 }, CellWrite { offset: 1, value: 0x1f69 }]);
    assert_eq!(t.cursor(), (0, 2));
}

#[test]
fn newline_moves_to_next_row() {
    let mut t = Text::new();
    let w = t.write_str(b"a\nb", 0x7, 0x0);
    assert_eq!(w, vec![CellWrite { offset: 0, value: 0x0761 }, CellWrite { offset: 80, value: 0x0762 }]);
    assert_eq!(t.cursor(), (1, 1));
}

#[test]
fn long_line_wraps_and_bottom_wraps_to_top() {
    let mut t = Text::new();
    let line = [b'x'; 80];
    let w = t.write_str(&line, 1, 2);
    assert_eq!(w.len(), 80);
    assert_eq!(w[79].offset, 79);
    assert_eq!(t.cursor(), (1, 0));
    let newlines = [b'\n'; 22];
    assert!(t.write_str(&newlines, 1, 2).is_empty());
    assert_eq!(t.cursor(), (23, 0));
    let w = t.write_str(&line, 1, 2);
    assert_eq!(w[0].offset, 23 * 80);
    assert_eq!(w[79].offset, 23 * 80 + 79);
    assert_eq!(t.cursor(), (0, 0));
    t.write_str(b"\n", 1, 2);
    assert_eq!(t.cursor(), (1, 0));
}

#[test]
fn write_str_concatenates() {
    let mut a = Text::new();
    let mut w1 = a.write_str(b"abc\nde", 3, 4);
    w1.extend(a.write_str(b"fg\nh", 3, 4));
    let mut b = Text::new();
    let w2 = b.write_str(b"abc\ndefg\nh", 3, 4);
    assert_eq!(w1, w2);
    assert_eq!(a.cursor(), b.cursor());
}

#[test]
fn format_numbers() {
    assert_eq!(format_num(0, 10), b"0".to_vec());
    assert_eq!(format_num(255, 16), b"ff".to_vec());
    assert_eq!(format_num(-10, 10), b"-10".to_vec());
    assert_eq!(format_num(35, 36), b"z".to_vec());
    assert_eq!(format_num(5, 2), b"101".to_vec());
    assert_eq!(format_num(i128::MIN, 10), b"-170141183460469231731687303715884105728".to_vec());
    assert_eq!(format_num(i128::MAX, 2), vec![b'1'; 127]);
}

#[test]
fn write_num_prints_digits() {
    let mut t = Text::new();
    let w = t.write_num(-42, 10, 0xf, 0x0).unwrap();
    assert_eq!(w, cells(b"-42", 0, 0xf, 0x0));
    assert_eq!(t.cursor(), (0, 3));
    let w = t.write_num(0xbeef, 16, 0xf, 0x0).unwrap();
    assert_eq!(w, cells(b"beef", 3, 0xf, 0x0));
    let w = t.write_num(i128::MIN + 1, 2, 0xf, 0x0).unwrap();
    assert_eq!(w.len(), 128);
}

#[test]
fn write_num_rejects_bad_base() {
    let mut t = Text::new();
    t.write_str(b"ab", 1, 1);
    assert_eq!(t.write_num(5, 1, 1, 1), Err(InvalidBase));
    assert_eq!(t.write_num(5, 0, 1, 1), Err(InvalidBase));
    assert_eq!(t.write_num(5, 36, 1, 1), Err(InvalidBase));
    assert_eq!(t.write_num(5, 200, 1, 1), Err(InvalidBase));
    assert_eq!(t.cursor(), (0, 2));
    assert!(t.write_num(5, 35, 1, 1).is_ok());
}

#[test]
fn put_byte_single_steps() {
    let mut t = Text::new();
    assert_eq!(t.put_byte(b'A', 0xf, 0x0), Some(CellWrite { offset: 0, value: 0x0f41 }));
    assert_eq!(t.cursor(), (0, 1));
    assert_eq!(t.put_byte(b'\n', 0xf, 0x0), None);
    assert_eq!(t.cursor(), (1, 0));
    for _ in 0..22 {
        t.put_byte(b'\n', 0, 0);
    }
    assert_eq!(t.cursor(), (23, 0));
    for _ in 0..79 {
        t.put_byte(b'.', 0, 0);
    }
    assert_eq!(t.put_byte(b'!', 0, 0).unwrap().offset, 1919);
    assert_eq!(t.cursor(), (0, 0));
}
