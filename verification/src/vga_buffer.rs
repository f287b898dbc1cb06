//! The character grid held in volatile cells, and the writer that
//! renders a byte stream into it.

use vstd::prelude::*;
use volatile::Volatile;
use crate::color::Color;
use crate::color::ColorCode;
use crate::color::attr_of;
use crate::screen::Screen;
use crate::screen::screen_wf;
use crate::screen::blank_grid;
use crate::screen::blank_row;
use crate::screen::blank_cell;
use crate::screen::shift_up;
use crate::screen::new_line_spec;
use crate::screen::write_byte_spec;
use crate::screen::write_string_spec;
use crate::screen::lemma_write_string_snoc;
use crate::screen::REPLACEMENT_GLYPH;
use crate::screen::VGA_BUFFER_COLS;
use crate::screen::VGA_BUFFER_ROWS;
use crate::screen::H_PADDING;
use crate::screen::V_PADDING;
use crate::screen::BLANK_GLYPH;

verus! {

/// One grid cell: a glyph byte and its attribute byte.
#[derive(Debug, Clone, Copy, PartialEq, Eq, Structural)]
pub struct ScreenChar {
    pub ascii: u8,
    pub color_code: ColorCode,
}

impl ScreenChar {
    /// The cell as the (glyph, attribute) pair the model speaks of.
    pub open spec fn pair(self) -> (u8, u8) {
        (self.ascii, self.color_code.0)
    }
}

#[verifier::external_type_specification]
#[verifier::external_body]
#[verifier::reject_recursive_types(T)]
pub struct ExVolatile<T: Copy>(Volatile<T>);

/// The value a volatile cell currently holds, as a (glyph, attribute)
/// pair.
pub uninterp spec fn vol_value(v: Volatile<ScreenChar>) -> (u8, u8);

/// Relies on volatile::Volatile::new: the returned cell holds the
/// given value.
#[verifier::external_body]
fn vol_new(c: ScreenChar) -> (v: Volatile<ScreenChar>)
    ensures
        vol_value(v) == c.pair(),
{
    Volatile::new(c)
}

/// Relies on volatile::Volatile::read: a volatile load that returns
/// the held value.
#[verifier::external_body]
fn vol_read(v: &Volatile<ScreenChar>) -> (c: ScreenChar)
    ensures
        c.pair() == vol_value(*v),
{
    v.read()
}

/// Relies on volatile::Volatile::write: a volatile store that replaces
/// the held value.
#[verifier::external_body]
fn vol_write(v: &mut Volatile<ScreenChar>, c: ScreenChar)
    ensures
        vol_value(*final(v)) == c.pair(),
{
    v.write(c)
}

/// The character grid: rows of volatile cells.
pub struct VgaBuffer {
    chars: Vec<Vec<Volatile<ScreenChar>>>,
}

/// The grid contents as the model sees them.
pub closed spec fn buffer_cells(b: VgaBuffer) -> Seq<Seq<(u8, u8)>> {
    b.chars@.map_values(|row: Vec<Volatile<ScreenChar>>| row@.map_values(|v| vol_value(v)))
}

impl VgaBuffer {
    /// A fresh grid with every cell holding the given value.
    fn filled(blank: ScreenChar) -> (b: VgaBuffer)
        requires
            blank.ascii == BLANK_GLYPH,
        ensures
            buffer_cells(b) == blank_grid(blank.color_code.0),
            b.chars@.len() == VGA_BUFFER_ROWS,
            forall|r: int| 0 <= r < VGA_BUFFER_ROWS ==> (#[trigger] b.chars@[r])@.len()
                == VGA_BUFFER_COLS,
    {
        let mut chars: Vec<Vec<Volatile<ScreenChar>>> = Vec::new();
        while chars.len() < VGA_BUFFER_ROWS
            invariant
                blank.ascii == BLANK_GLYPH,
                chars@.len() <= VGA_BUFFER_ROWS,
                forall|r: int|
                    0 <= r < chars@.len() ==> (#[trigger] chars@[r])@.map_values(|v| vol_value(v))
                        == crate::screen::blank_row(blank.color_code.0),
                forall|r: int| 0 <= r < chars@.len() ==> (#[trigger] chars@[r])@.len()
                    == VGA_BUFFER_COLS,
            decreases VGA_BUFFER_ROWS - chars.len(),
        {
            let mut row: Vec<Volatile<ScreenChar>> = Vec::new();
            while row.len() < VGA_BUFFER_COLS
                invariant
                    row@.len() <= VGA_BUFFER_COLS,
                    forall|c: int| 0 <= c < row@.len() ==> vol_value(#[trigger] row@[c])
                        == blank.pair(),
                decreases VGA_BUFFER_COLS - row.len(),
            {
                row.push(vol_new(blank));
            }
            proof {
                assert(row@.map_values(|v| vol_value(v)) =~= crate::screen::blank_row(
                    blank.color_code.0,
                ));
            }
            chars.push(row);
        }
        let b = VgaBuffer { chars };
        proof {
            assert(buffer_cells(b) =~= blank_grid(blank.color_code.0));
        }
        b
    }

    /// Reads the cell at the given position with a volatile load.
    fn read_cell(&self, row: usize, col: usize) -> (c: ScreenChar)
        requires
            row < self.chars@.len(),
            col < self.chars@[row as int]@.len(),
        ensures
            c.pair() == buffer_cells(*self)[row as int][col as int],
    {
        vol_read(&self.chars[row][col])
    }

    /// Overwrites the cell at the given position with a volatile store.
    fn write_cell(&mut self, row: usize, col: usize, c: ScreenChar)
        requires
            row < old(self).chars@.len(),
            col < old(self).chars@[row as int]@.len(),
        ensures
            buffer_cells(*final(self)) == buffer_cells(*old(self)).update(
                row as int,
                buffer_cells(*old(self))[row as int].update(col as int, c.pair()),
            ),
            final(self).chars@.len() == old(self).chars@.len(),
            forall|r: int|
                0 <= r < old(self).chars@.len() ==> #[trigger] (final(self).chars@[r])@.len()
                    == old(self).chars@[r]@.len(),
    {
        let row_ref = &mut self.chars[row];
        let cell_ref = &mut row_ref[col];
        vol_write(cell_ref, c);
        proof {
            assert(buffer_cells(*self)[row as int] =~= buffer_cells(*old(self))[row as int].update(
                col as int,
                c.pair(),
            ));
            assert(buffer_cells(*self) =~= buffer_cells(*old(self)).update(
                row as int,
                buffer_cells(*old(self))[row as int].update(col as int, c.pair()),
            ));
        }
    }
}

/// The screen state a freshly constructed writer is in: a blank grid,
/// the cursor at the top-left writable cell, yellow on black.
pub open spec fn initial_screen() -> Screen {
    Screen {
        cells: blank_grid(attr_of(Color::Yellow, Color::Black)),
        row: V_PADDING as int,
        col: H_PADDING as int,
        has_overflowed: false,
        attr: attr_of(Color::Yellow, Color::Black),
    }
}

/// The text-buffer writer: owns the cursor position, the current
/// attribute, the overflow flag and the character grid, and performs
/// every read and write of the grid through its volatile cells.
pub struct Writer {
    cur_col: usize,
    cur_row: usize,
    has_overflowen: bool,
    current_color_code: ColorCode,
    buffer: VgaBuffer,
}

impl View for Writer {
    type V = Screen;

    closed spec fn view(&self) -> Screen {
        Screen {
            cells: buffer_cells(self.buffer),
            row: self.cur_row as int,
            col: self.cur_col as int,
            has_overflowed: self.has_overflowen,
            attr: self.current_color_code.0,
        }
    }
}

impl Writer {
    /// The stored grid has exactly the configured number of rows and
    /// columns.
    spec fn shape_ok(self) -> bool {
        &&& self.buffer.chars@.len() == VGA_BUFFER_ROWS
        &&& forall|r: int|
            0 <= r < VGA_BUFFER_ROWS ==> (#[trigger] self.buffer.chars@[r])@.len()
                == VGA_BUFFER_COLS
    }

    /// The writer's invariant: the stored grid has the configured
    /// shape and the modeled screen is well-formed.
    pub closed spec fn wf(self) -> bool {
        &&& screen_wf(self@)
        &&& self.shape_ok()
    }

    /// A fresh writer: blank grid, cursor at the top-left writable
    /// cell, yellow on black, no overflow yet.
    pub fn new() -> (w: Writer)
        ensures
            w.wf(),
            w@ == initial_screen(),
    {
        let color_code = ColorCode::new(Color::Yellow, Color::Black);
        let w = Writer {
            cur_col: H_PADDING,
            cur_row: V_PADDING,
            has_overflowen: false,
            current_color_code: color_code,
            buffer: VgaBuffer::filled(ScreenChar { ascii: BLANK_GLYPH, color_code }),
        };
        proof {
            assert forall|r: int| 0 <= r < w@.cells.len() implies (#[trigger] w@.cells[r]).len()
                == VGA_BUFFER_COLS as int by {
                assert(w@.cells[r] == blank_row(color_code.0));
            }
            assert(w@ =~~= initial_screen());
        }
        w
    }

    /// Fills every column of the given row with a blank cell under the
    /// current attribute.
    fn clear_row(&mut self, row: usize)
        requires
            old(self).shape_ok(),
            row < VGA_BUFFER_ROWS,
        ensures
            final(self).shape_ok(),
            buffer_cells(final(self).buffer) == buffer_cells(old(self).buffer).update(
                row as int,
                blank_row(old(self).current_color_code.0),
            ),
            final(self).cur_col == old(self).cur_col,
            final(self).cur_row == old(self).cur_row,
            final(self).has_overflowen == old(self).has_overflowen,
            final(self).current_color_code == old(self).current_color_code,
    {
        let ghost orig = buffer_cells(self.buffer);
        let ghost snap = *self;
        let blank = ScreenChar { ascii: BLANK_GLYPH, color_code: self.current_color_code };
        let mut col: usize = 0;
        while col < VGA_BUFFER_COLS
            invariant
                col <= VGA_BUFFER_COLS,
                row < VGA_BUFFER_ROWS,
                self.shape_ok(),
                blank == (ScreenChar { ascii: BLANK_GLYPH, color_code: snap.current_color_code }),
                self.cur_col == snap.cur_col,
                self.cur_row == snap.cur_row,
                self.has_overflowen == snap.has_overflowen,
                self.current_color_code == snap.current_color_code,
                orig == buffer_cells(snap.buffer),
                snap.shape_ok(),
                forall|c: int|
                    0 <= c < col ==> buffer_cells(self.buffer)[row as int][c] == blank_cell(
                        snap.current_color_code.0,
                    ),
                forall|c: int|
                    col <= c < VGA_BUFFER_COLS ==> buffer_cells(self.buffer)[row as int][c]
                        == orig[row as int][c],
                forall|r: int|
                    0 <= r < VGA_BUFFER_ROWS && r != row ==> buffer_cells(self.buffer)[r]
                        == orig[r],
                buffer_cells(self.buffer).len() == orig.len(),
            decreases VGA_BUFFER_COLS - col,
        {
            self.buffer.write_cell(row, col, blank);
            col = col + 1;
        }
        proof {
            assert(buffer_cells(self.buffer)[row as int] =~= blank_row(
                snap.current_color_code.0,
            ));
            assert(buffer_cells(self.buffer) =~= orig.update(
                row as int,
                blank_row(snap.current_color_code.0),
            ));
        }
    }

    /// A line break: advance the cursor to the next row's left padding
    /// boundary; at the bottom of the writable region clamp the row,
    /// record the overflow, and from then on shift every writable row
    /// up by one and blank the cursor's row.
    fn new_line(&mut self)
        requires
            old(self).wf(),
        ensures
            final(self).wf(),
            final(self)@ == new_line_spec(old(self)@),
    {
        let ghost s0 = self@;
        self.cur_row = self.cur_row + 1;
        self.cur_col = H_PADDING;

        if self.cur_row + V_PADDING >= VGA_BUFFER_ROWS {
            self.has_overflowen = true;
            self.cur_row = VGA_BUFFER_ROWS - 1 - V_PADDING;
        }

        if self.has_overflowen {
            let ghost snap = *self;
            let ghost orig = buffer_cells(self.buffer);
            let mut row: usize = V_PADDING + 1;
            while row < VGA_BUFFER_ROWS - V_PADDING
                invariant
                    V_PADDING + 1 <= row <= VGA_BUFFER_ROWS - V_PADDING,
                    self.shape_ok(),
                    snap.shape_ok(),
                    self.cur_col == snap.cur_col,
                    self.cur_row == snap.cur_row,
                    self.has_overflowen == snap.has_overflowen,
                    self.current_color_code == snap.current_color_code,
                    orig == buffer_cells(snap.buffer),
                    orig.len() == VGA_BUFFER_ROWS,
                    buffer_cells(self.buffer).len() == VGA_BUFFER_ROWS,
                    forall|i: int|
                        V_PADDING <= i < row - 1 ==> buffer_cells(self.buffer)[i] == orig[i + 1],
                    forall|i: int|
                        (0 <= i < V_PADDING || row - 1 <= i < VGA_BUFFER_ROWS) ==> buffer_cells(
                            self.buffer,
                        )[i] == orig[i],
                decreases VGA_BUFFER_ROWS - V_PADDING - row,
            {
                let dst = row - 1;
                let mut col: usize = 0;
                while col < VGA_BUFFER_COLS
                    invariant
                        V_PADDING + 1 <= row < VGA_BUFFER_ROWS - V_PADDING,
                        dst == row - 1,
                        col <= VGA_BUFFER_COLS,
                        self.shape_ok(),
                        snap.shape_ok(),
                        self.cur_col == snap.cur_col,
                        self.cur_row == snap.cur_row,
                        self.has_overflowen == snap.has_overflowen,
                        self.current_color_code == snap.current_color_code,
                        orig == buffer_cells(snap.buffer),
                        orig.len() == VGA_BUFFER_ROWS,
                        buffer_cells(self.buffer).len() == VGA_BUFFER_ROWS,
                        forall|i: int|
                            V_PADDING <= i < row - 1 ==> buffer_cells(self.buffer)[i] == orig[i
                                + 1],
                        forall|i: int|
                            (0 <= i < V_PADDING || row <= i < VGA_BUFFER_ROWS) ==> buffer_cells(
                                self.buffer,
                            )[i] == orig[i],
                        forall|c: int|
                            0 <= c < col ==> #[trigger] buffer_cells(self.buffer)[dst as int][c]
                                == orig[row as int][c],
                        forall|c: int|
                            col <= c < VGA_BUFFER_COLS ==> #[trigger] buffer_cells(
                                self.buffer,
                            )[dst as int][c] == orig[dst as int][c],
                    decreases VGA_BUFFER_COLS - col,
                {
                    let sc = self.buffer.read_cell(row, col);
                    self.buffer.write_cell(dst, col, sc);
                    col = col + 1;
                }
                proof {
                    assert(buffer_cells(self.buffer)[row - 1] =~= orig[row as int]);
                }
                row = row + 1;
            }
            proof {
                assert(buffer_cells(self.buffer) =~= shift_up(orig));
            }
            let r = self.cur_row;
            self.clear_row(r);
        }
        proof {
            assert(self@ =~~= new_line_spec(s0));
        }
    }

    /// Writes one byte: a newline breaks the line, any other byte is
    /// placed at the cursor as a glyph under the current attribute,
    /// after a line break if the row is already full.
    pub fn write_byte(&mut self, byte: u8)
        requires
            old(self).wf(),
        ensures
            final(self).wf(),
            final(self)@ == write_byte_spec(old(self)@, byte),
    {
        let ghost s0 = self@;
        match byte {
            0x0a => self.new_line(),
            byte => {
                if self.cur_col + H_PADDING >= VGA_BUFFER_COLS {
                    self.new_line();
                }
                let sc = ScreenChar { ascii: byte, color_code: self.current_color_code };
                let row = self.cur_row;
                let col = self.cur_col;
                self.buffer.write_cell(row, col, sc);
                self.cur_col = self.cur_col + 1;
                proof {
                    assert(self@ =~~= write_byte_spec(s0, byte));
                }
            },
        }
    }

    /// Writes a run of bytes: printable ASCII and newline pass to the
    /// byte writer unchanged, every other byte is substituted by the
    /// replacement glyph, so one cell is produced per input byte.
    pub fn write_string(&mut self, s: &[u8])
        requires
            old(self).wf(),
        ensures
            final(self).wf(),
            final(self)@ == write_string_spec(old(self)@, s@),
    {
        let ghost s0 = self@;
        let mut i: usize = 0;
        while i < s.len()
            invariant
                i <= s@.len(),
                self.wf(),
                self@ == write_string_spec(s0, s@.take(i as int)),
            decreases s@.len() - i,
        {
            let byte = s[i];
            match byte {
                // printable ASCII byte or newline
                0x20..=0x7e | 0x0a => self.write_byte(byte),
                // not part of printable ASCII range
                _ => self.write_byte(REPLACEMENT_GLYPH),
            }
            proof {
                lemma_write_string_snoc(s0, s@.take(i as int), s@[i as int]);
                assert(s@.take(i + 1) =~= s@.take(i as int).push(s@[i as int]));
            }
            i = i + 1;
        }
        proof {
            assert(s@.take(s@.len() as int) =~= s@);
        }
    }

    /// Replaces the attribute applied to subsequently written glyphs;
    /// cells already on the grid keep theirs.
    pub fn set_color(&mut self, foreground: Color, background: Color)
        ensures
            final(self)@ == (Screen { attr: attr_of(foreground, background), ..old(self)@ }),
            old(self).wf() ==> final(self).wf(),
    {
        self.current_color_code = ColorCode::new(foreground, background);
        proof {
            assert(final(self)@ =~~= (Screen { attr: attr_of(foreground, background), ..old(self)@ }));
        }
    }

    /// The cursor's row.
    pub fn row(&self) -> (r: usize)
        ensures
            r as int == self@.row,
    {
        self.cur_row
    }

    /// The cursor's column.
    pub fn col(&self) -> (c: usize)
        ensures
            c as int == self@.col,
    {
        self.cur_col
    }

    /// Whether the writable region has scrolled at least once.
    pub fn has_overflowed(&self) -> (b: bool)
        ensures
            b == self@.has_overflowed,
    {
        self.has_overflowen
    }

    /// Reads the cell at the given position back from the grid.
    pub fn char_at(&self, row: usize, col: usize) -> (sc: ScreenChar)
        requires
            self.wf(),
            row < VGA_BUFFER_ROWS,
            col < VGA_BUFFER_COLS,
        ensures
            sc.pair() == self@.cells[row as int][col as int],
    {
        self.buffer.read_cell(row, col)
    }
}

} // verus!
