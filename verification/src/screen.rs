//! The mathematical model of the display: a grid of glyph/attribute
//! pairs together with the cursor state, and the transition functions
//! that say exactly what each write operation does to it.

use vstd::prelude::*;

verus! {

/// Number of columns of the grid.
pub const VGA_BUFFER_COLS: usize = 80;
/// Number of rows of the grid.
pub const VGA_BUFFER_ROWS: usize = 25;
/// Columns reserved as a border on the left and on the right.
pub const H_PADDING: usize = 1;
/// Rows reserved as a border at the top and at the bottom.
pub const V_PADDING: usize = 1;

/// The line-break control byte.
pub const NEWLINE_BYTE: u8 = 0x0a;
/// The glyph substituted for a byte outside the printable range.
pub const REPLACEMENT_GLYPH: u8 = 0xfe;
/// The glyph of a blank cell.
pub const BLANK_GLYPH: u8 = 0x20;

/// The last row of the writable region.
pub open spec fn last_row() -> int {
    VGA_BUFFER_ROWS as int - 1 - V_PADDING as int
}

/// One past the last column a glyph may occupy; the cursor column
/// never exceeds this value.
pub open spec fn col_limit() -> int {
    VGA_BUFFER_COLS as int - H_PADDING as int
}

/// The whole state the writer maintains: the grid contents as
/// (glyph, attribute) pairs, the cursor, the overflow flag and the
/// attribute applied to new glyphs.
#[verifier::ext_equal]
pub ghost struct Screen {
    pub cells: Seq<Seq<(u8, u8)>>,
    pub row: int,
    pub col: int,
    pub has_overflowed: bool,
    pub attr: u8,
}

/// Cursor and grid dimensions are within the writable region.
pub open spec fn screen_wf(s: Screen) -> bool {
    &&& s.cells.len() == VGA_BUFFER_ROWS as int
    &&& (forall|r: int|
        0 <= r < s.cells.len() ==> (#[trigger] s.cells[r]).len() == VGA_BUFFER_COLS as int)
    &&& V_PADDING as int <= s.row <= last_row()
    &&& H_PADDING as int <= s.col <= col_limit()
}

/// A blank cell: a space glyph under the given attribute.
pub open spec fn blank_cell(attr: u8) -> (u8, u8) {
    (BLANK_GLYPH, attr)
}

/// A full row of blank cells.
pub open spec fn blank_row(attr: u8) -> Seq<(u8, u8)> {
    Seq::new(VGA_BUFFER_COLS as nat, |c: int| blank_cell(attr))
}

/// A grid of blank cells.
pub open spec fn blank_grid(attr: u8) -> Seq<Seq<(u8, u8)>> {
    Seq::new(VGA_BUFFER_ROWS as nat, |r: int| blank_row(attr))
}

/// Every writable row except the last takes the contents of the row
/// below it; the border rows and the last writable row are unchanged.
pub open spec fn shift_up(cells: Seq<Seq<(u8, u8)>>) -> Seq<Seq<(u8, u8)>> {
    Seq::new(
        cells.len(),
        |r: int|
            if V_PADDING as int <= r && r < last_row() {
                cells[r + 1]
            } else {
                cells[r]
            },
    )
}

/// A line break: drop the cursor one row and reset the column to the
/// left padding boundary; at the bottom of the writable region clamp
/// the row and record the overflow; once overflowed, scroll the
/// writable region up and blank the cursor's row.
pub open spec fn new_line_spec(s: Screen) -> Screen {
    let bumped = s.row + 1;
    let hit_bottom = bumped + V_PADDING as int >= VGA_BUFFER_ROWS as int;
    let row2 = if hit_bottom {
        last_row()
    } else {
        bumped
    };
    let over2 = s.has_overflowed || hit_bottom;
    let cells2 = if over2 {
        shift_up(s.cells).update(row2, blank_row(s.attr))
    } else {
        s.cells
    };
    Screen { cells: cells2, row: row2, col: H_PADDING as int, has_overflowed: over2, attr: s.attr }
}

/// Place one glyph at the cursor under the current attribute and
/// advance the column.
pub open spec fn put_glyph(s: Screen, glyph: u8) -> Screen {
    Screen {
        cells: s.cells.update(s.row, s.cells[s.row].update(s.col, (glyph, s.attr))),
        col: s.col + 1,
        ..s
    }
}

/// One byte written: a newline breaks the line; any other byte is
/// placed as a glyph, after a line break if the row is full.
pub open spec fn write_byte_spec(s: Screen, byte: u8) -> Screen {
    if byte == NEWLINE_BYTE {
        new_line_spec(s)
    } else {
        let s1 = if s.col + H_PADDING as int >= VGA_BUFFER_COLS as int {
            new_line_spec(s)
        } else {
            s
        };
        put_glyph(s1, byte)
    }
}

/// Whether a byte is rendered as itself: printable ASCII or newline.
pub open spec fn is_passed_through(b: u8) -> bool {
    (0x20 <= b && b <= 0x7e) || b == NEWLINE_BYTE
}

/// The byte actually handed to the byte writer: printable ASCII and
/// newline pass through, everything else becomes the replacement glyph.
pub open spec fn normalize_byte(b: u8) -> u8 {
    if is_passed_through(b) {
        b
    } else {
        REPLACEMENT_GLYPH
    }
}

/// A whole sequence written, byte by byte, each normalized first.
pub open spec fn write_string_spec(s: Screen, bytes: Seq<u8>) -> Screen
    decreases bytes.len(),
{
    if bytes.len() == 0 {
        s
    } else {
        write_string_spec(
            write_byte_spec(s, normalize_byte(bytes[0])),
            bytes.subrange(1, bytes.len() as int),
        )
    }
}

/// A line break leaves a well-formed screen well-formed.
pub proof fn lemma_new_line_wf(s: Screen)
    requires
        screen_wf(s),
    ensures
        screen_wf(new_line_spec(s)),
{
    let t = new_line_spec(s);
    assert(t.cells.len() == VGA_BUFFER_ROWS as int);
    assert forall|r: int| 0 <= r < t.cells.len() implies (#[trigger] t.cells[r]).len()
        == VGA_BUFFER_COLS as int by {
        if t.cells != s.cells {
            if r != t.row {
                assert(t.cells[r] == shift_up(s.cells)[r]);
            }
        }
    }
}

/// Writing one byte leaves a well-formed screen well-formed.
pub proof fn lemma_write_byte_wf(s: Screen, byte: u8)
    requires
        screen_wf(s),
    ensures
        screen_wf(write_byte_spec(s, byte)),
{
    lemma_new_line_wf(s);
}

/// Writing a sequence leaves a well-formed screen well-formed.
pub proof fn lemma_write_string_wf(s: Screen, bytes: Seq<u8>)
    requires
        screen_wf(s),
    ensures
        screen_wf(write_string_spec(s, bytes)),
    decreases bytes.len(),
{
    if bytes.len() > 0 {
        lemma_write_byte_wf(s, normalize_byte(bytes[0]));
        lemma_write_string_wf(
            write_byte_spec(s, normalize_byte(bytes[0])),
            bytes.subrange(1, bytes.len() as int),
        );
    }
}

/// Writing a sequence and then one more byte is writing the extended
/// sequence.
pub proof fn lemma_write_string_snoc(s: Screen, bytes: Seq<u8>, b: u8)
    ensures
        write_string_spec(s, bytes.push(b)) == write_byte_spec(
            write_string_spec(s, bytes),
            normalize_byte(b),
        ),
    decreases bytes.len(),
{
    reveal_with_fuel(write_string_spec, 3);
    if bytes.len() == 0 {
        assert(bytes.push(b)[0] == b);
        assert(bytes.push(b).subrange(1, 1) =~= Seq::<u8>::empty());
        assert(write_string_spec(s, bytes.push(b)) == write_string_spec(
            write_byte_spec(s, normalize_byte(b)),
            Seq::<u8>::empty(),
        ));
    } else {
        assert(bytes.push(b)[0] == bytes[0]);
        assert(bytes.push(b).subrange(1, bytes.len() as int + 1) =~= bytes.subrange(
            1,
            bytes.len() as int,
        ).push(b));
        lemma_write_string_snoc(
            write_byte_spec(s, normalize_byte(bytes[0])),
            bytes.subrange(1, bytes.len() as int),
            b,
        );
    }
}

} // verus!
