use vga_writer::Color;
use vga_writer::ColorCode;
use vga_writer::Writer;

#[test]
fn color_code_packs_nibbles() {
    assert_eq!(ColorCode::new(Color::Yellow, Color::Black).0, 0x0e);
    assert_eq!(ColorCode::new(Color::White, Color::Blue).0, 0x1f);
    assert_eq!(ColorCode::new(Color::Black, Color::Black).0, 0x00);
    assert_eq!(ColorCode::new(Color::White, Color::White).0, 0xff);
}

#[test]
fn fresh_writer_is_blank() {
    let w = Writer::new();
    assert_eq!(w.row(), 1);
    assert_eq!(w.col(), 1);
    assert!(!w.has_overflowed());
    for r in 0..25 {
        for c in 0..80 {
            let sc = w.char_at(r, c);
            assert_eq!(sc.ascii, b' ');
            assert_eq!(sc.color_code.0, 0x0e);
        }
    }
}

#[test]
fn printable_pass_through() {
    let mut w = Writer::new();
    w.write_string(b"A");
    let sc = w.char_at(1, 1);
    assert_eq!(sc.ascii, b'A');
    assert_eq!(sc.color_code.0, 0x0e);
    assert_eq!(w.row(), 1);
    assert_eq!(w.col(), 2);
    // boundary bytes of the printable range pass through too
    w.write_string(&[0x20, 0x7e]);
    assert_eq!(w.char_at(1, 2).ascii, 0x20);
    assert_eq!(w.char_at(1, 3).ascii, 0x7e);
}

#[test]
fn replacement_substitution() {
    let mut w = Writer::new();
    w.write_string(&[0x01]);
    assert_eq!(w.char_at(1, 1).ascii, 0xfe);
    assert_eq!(w.col(), 2);
    w.write_string(&[0x1f, 0x7f, 0x80, 0xff]);
    for c in 2..6 {
        assert_eq!(w.char_at(1, c).ascii, 0xfe);
        assert_eq!(w.char_at(1, c).color_code.0, 0x0e);
    }
    assert_eq!(w.col(), 6);
    assert_eq!(w.row(), 1);
}

#[test]
fn no_drops_advances_col_by_len() {
    let mut w = Writer::new();
    let text = b"hello world";
    w.write_string(text);
    assert_eq!(w.row(), 1);
    assert_eq!(w.col(), 1 + text.len());
    for (i, &b) in text.iter().enumerate() {
        assert_eq!(w.char_at(1, 1 + i).ascii, b);
    }
    // the cell after the run is untouched
    assert_eq!(w.char_at(1, 1 + text.len()).ascii, b' ');
}

#[test]
fn wrap_trigger() {
    let mut w = Writer::new();
    // the writable region of a row holds 78 glyphs: columns 1..=78
    let line = [b'x'; 78];
    w.write_string(&line);
    assert_eq!(w.row(), 1);
    assert_eq!(w.col(), 79);
    // one more printable byte breaks the line first, then lands at
    // the left padding boundary of the new row
    w.write_byte(b'y');
    assert_eq!(w.row(), 2);
    assert_eq!(w.col(), 2);
    assert_eq!(w.char_at(2, 1).ascii, b'y');
    assert_eq!(w.char_at(1, 78).ascii, b'x');
    assert!(!w.has_overflowed());
}

#[test]
fn newline_moves_cursor() {
    let mut w = Writer::new();
    w.write_string(b"a\nb");
    assert_eq!(w.row(), 2);
    assert_eq!(w.col(), 2);
    assert_eq!(w.char_at(1, 1).ascii, b'a');
    assert_eq!(w.char_at(2, 1).ascii, b'b');
}

#[test]
fn scroll_shifts_rows_up() {
    let mut w = Writer::new();
    // label rows 1..=23 with 'A'..='W'
    for i in 0..23u8 {
        w.write_byte(b'A' + i);
        if i < 22 {
            w.write_byte(b'\n');
        }
    }
    assert_eq!(w.row(), 23);
    assert!(!w.has_overflowed());
    w.write_byte(b'\n');
    assert!(w.has_overflowed());
    assert_eq!(w.row(), 23);
    assert_eq!(w.col(), 1);
    // every writable row now holds what the row below it held
    for r in 1..23 {
        assert_eq!(w.char_at(r, 1).ascii, b'A' + r as u8);
    }
    // the last writable row is blank under the current attribute
    for c in 0..80 {
        let sc = w.char_at(23, c);
        assert_eq!(sc.ascii, b' ');
        assert_eq!(sc.color_code.0, 0x0e);
    }
    // the border rows are untouched
    for c in 0..80 {
        assert_eq!(w.char_at(0, c).ascii, b' ');
        assert_eq!(w.char_at(24, c).ascii, b' ');
    }
}

#[test]
fn wrap_at_bottom_scrolls() {
    let mut w = Writer::new();
    // fill the whole writable region: 23 rows of 78 glyphs
    let block = [b'z'; 78 * 23];
    w.write_string(&block);
    assert_eq!(w.row(), 23);
    assert_eq!(w.col(), 79);
    assert!(!w.has_overflowed());
    // the next glyph wraps at the bottom row, which scrolls
    w.write_byte(b'q');
    assert!(w.has_overflowed());
    assert_eq!(w.row(), 23);
    assert_eq!(w.col(), 2);
    assert_eq!(w.char_at(23, 1).ascii, b'q');
    // the rest of the bottom row was blanked by the scroll
    assert_eq!(w.char_at(23, 2).ascii, b' ');
    // the rows above still hold the block
    assert_eq!(w.char_at(1, 1).ascii, b'z');
    assert_eq!(w.char_at(22, 78).ascii, b'z');
}

#[test]
fn idempotent_attribute() {
    let mut w = Writer::new();
    w.write_string(b"ab");
    w.write_string(b"ab");
    // both passes wrote under the same attribute
    for c in 1..5 {
        assert_eq!(w.char_at(1, c).color_code.0, 0x0e);
    }
    assert_eq!(w.char_at(1, 1).ascii, b'a');
    assert_eq!(w.char_at(1, 2).ascii, b'b');
    assert_eq!(w.char_at(1, 3).ascii, b'a');
    assert_eq!(w.char_at(1, 4).ascii, b'b');
    // a new attribute touches only newly written cells
    w.set_color(Color::White, Color::Blue);
    w.write_string(b"cd");
    assert_eq!(w.char_at(1, 5).ascii, b'c');
    assert_eq!(w.char_at(1, 5).color_code.0, 0x1f);
    assert_eq!(w.char_at(1, 6).ascii, b'd');
    assert_eq!(w.char_at(1, 6).color_code.0, 0x1f);
    for c in 1..5 {
        assert_eq!(w.char_at(1, c).color_code.0, 0x0e);
    }
}

#[test]
fn hello_scenario() {
    let mut w = Writer::new();
    w.write_byte(b'H');
    w.write_string(b"ello! ");
    let expect = b"Hello! ";
    for (i, &b) in expect.iter().enumerate() {
        let sc = w.char_at(1, 1 + i);
        assert_eq!(sc.ascii, b);
        assert_eq!(sc.color_code.0, 0x0e);
    }
    assert_eq!(w.row(), 1);
    assert_eq!(w.col(), 8);
    assert!(!w.has_overflowed());
}

#[test]
fn scroll_scenario_first_line_gone() {
    let mut w = Writer::new();
    w.write_string(b"AAAA");
    assert_eq!(w.char_at(1, 1).ascii, b'A');
    let mut transitions: usize = 0;
    let mut prev = w.has_overflowed();
    for _ in 0..23 {
        w.write_string(b"\nBBBB");
        let now = w.has_overflowed();
        if now && !prev {
            transitions += 1;
        }
        prev = now;
    }
    assert!(w.has_overflowed());
    // the flag became true exactly once
    assert_eq!(transitions, 1);
    // the first line written has scrolled off: no cell holds its glyph
    for r in 0..25 {
        for c in 0..80 {
            assert_ne!(w.char_at(r, c).ascii, b'A');
        }
    }
}
