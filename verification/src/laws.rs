//! Laws of the write operations, stated and proved over the screen
//! model.

use vstd::prelude::*;
use crate::screen::Screen;
use crate::screen::screen_wf;
use crate::screen::blank_row;
use crate::screen::new_line_spec;
use crate::screen::put_glyph;
use crate::screen::write_byte_spec;
use crate::screen::write_string_spec;
use crate::screen::normalize_byte;
use crate::screen::is_passed_through;
use crate::screen::last_row;
use crate::screen::col_limit;
use crate::screen::lemma_new_line_wf;
use crate::screen::NEWLINE_BYTE;
use crate::screen::REPLACEMENT_GLYPH;
use crate::screen::VGA_BUFFER_COLS;
use crate::screen::H_PADDING;
use crate::screen::V_PADDING;

verus! {

/// Where a non-newline byte written in state `s` lands: at the cursor,
/// after a line break first if the row is already full.
pub open spec fn landing_state(s: Screen) -> Screen {
    if s.col + H_PADDING as int >= VGA_BUFFER_COLS as int {
        new_line_spec(s)
    } else {
        s
    }
}

/// Law: a byte in the printable range, or the newline byte, passes
/// through `write_string` unchanged — it is never substituted — and a
/// printable byte is placed as exactly one cell holding that byte
/// under the current attribute.
pub proof fn lemma_printable_pass_through(s: Screen, b: u8)
    requires
        screen_wf(s),
        is_passed_through(b),
    ensures
        write_string_spec(s, seq![b]) == write_byte_spec(s, b),
        b != NEWLINE_BYTE ==> ({
            let placed = landing_state(s);
            let t = write_string_spec(s, seq![b]);
            &&& t == put_glyph(placed, b)
            &&& t.cells[placed.row][placed.col] == (b, s.attr)
            &&& t.row == placed.row
            &&& t.col == placed.col + 1
        }),
{
    assert(seq![b][0] == b);
    assert(seq![b].subrange(1, 1) =~= Seq::<u8>::empty());
    reveal_with_fuel(write_string_spec, 2);
    if b != NEWLINE_BYTE {
        lemma_new_line_wf(s);
    }
}

/// Law: a byte outside the printable range that is not the newline
/// byte is written as exactly one cell holding the replacement glyph,
/// and the cursor advances exactly as for a printable glyph.
pub proof fn lemma_replacement_substitution(s: Screen, b: u8)
    requires
        screen_wf(s),
        !is_passed_through(b),
    ensures
        write_string_spec(s, seq![b]) == write_byte_spec(s, REPLACEMENT_GLYPH),
        ({
            let placed = landing_state(s);
            let t = write_string_spec(s, seq![b]);
            &&& t == put_glyph(placed, REPLACEMENT_GLYPH)
            &&& t.cells[placed.row][placed.col] == (REPLACEMENT_GLYPH, s.attr)
            &&& t.row == placed.row
            &&& t.col == placed.col + 1
        }),
{
    assert(seq![b][0] == b);
    assert(seq![b].subrange(1, 1) =~= Seq::<u8>::empty());
    reveal_with_fuel(write_string_spec, 2);
    lemma_new_line_wf(s);
}

/// Law: a run with no newline byte that fits in the remaining
/// capacity of the current row drops nothing: it writes exactly one
/// cell per input byte, in order and under the current attribute,
/// advances the column by exactly the run's length, and touches no
/// other cell.
pub proof fn lemma_no_drops(s: Screen, bytes: Seq<u8>)
    requires
        screen_wf(s),
        forall|i: int| 0 <= i < bytes.len() ==> bytes[i] != NEWLINE_BYTE,
        s.col + bytes.len() <= col_limit(),
    ensures
        ({
            let t = write_string_spec(s, bytes);
            &&& t.row == s.row
            &&& t.col == s.col + bytes.len()
            &&& t.has_overflowed == s.has_overflowed
            &&& t.attr == s.attr
            &&& t.cells.len() == s.cells.len()
            &&& forall|r: int|
                0 <= r < s.cells.len() ==> (#[trigger] t.cells[r]).len() == s.cells[r].len()
            &&& forall|j: int|
                0 <= j < bytes.len() ==> t.cells[s.row][s.col + j] == (
                    normalize_byte(#[trigger] bytes[j]),
                    s.attr,
                )
            &&& forall|r: int, c: int|
                0 <= r < s.cells.len() && 0 <= c < s.cells[r].len() && !(r == s.row && s.col <= c
                    < s.col + bytes.len()) ==> #[trigger] t.cells[r][c] == s.cells[r][c]
        }),
    decreases bytes.len(),
{
    if bytes.len() > 0 {
        let b0 = normalize_byte(bytes[0]);
        assert(b0 != NEWLINE_BYTE);
        let s1 = write_byte_spec(s, b0);
        assert(s1 == put_glyph(s, b0));
        let rest = bytes.subrange(1, bytes.len() as int);
        assert(forall|i: int| 0 <= i < rest.len() ==> rest[i] == bytes[i + 1]);
        assert(screen_wf(s1));
        lemma_no_drops(s1, rest);
        let t = write_string_spec(s, bytes);
        assert(t == write_string_spec(s1, rest));
        assert forall|j: int| 0 <= j < bytes.len() implies t.cells[s.row][s.col + j] == (
            normalize_byte(#[trigger] bytes[j]),
            s.attr,
        ) by {
            if j == 0 {
                assert(s1.cells[s.row][s.col] == (b0, s.attr));
                assert(t.cells[s.row][s.col] == s1.cells[s.row][s.col]);
            } else {
                assert(rest[j - 1] == bytes[j]);
                assert(t.cells[s1.row][s1.col + (j - 1)] == (
                    normalize_byte(rest[j - 1]),
                    s1.attr,
                ));
            }
        }
        assert forall|r: int, c: int|
            0 <= r < s.cells.len() && 0 <= c < s.cells[r].len() && !(r == s.row && s.col <= c
                < s.col + bytes.len()) implies #[trigger] t.cells[r][c] == s.cells[r][c] by {
            assert(s1.cells[r][c] == s.cells[r][c]);
            assert(t.cells[r][c] == s1.cells[r][c]);
        }
    }
}

/// Law: with the current row full, writing one more printable byte
/// causes exactly one line break first, and the byte lands in the
/// column at the left padding boundary of the new row.
pub proof fn lemma_wrap_trigger(s: Screen, b: u8)
    requires
        screen_wf(s),
        0x20 <= b <= 0x7e,
        s.col == col_limit(),
    ensures
        ({
            let broken = new_line_spec(s);
            let t = write_byte_spec(s, b);
            &&& t == put_glyph(broken, b)
            &&& t.cells[broken.row][H_PADDING as int] == (b, s.attr)
            &&& t.row == broken.row
            &&& t.col == H_PADDING as int + 1
        }),
{
    lemma_new_line_wf(s);
}

/// Law: a line break taken at the last writable row (the first such
/// break records the overflow; later ones find it recorded) shifts
/// every writable row's contents up by exactly one row and fills the
/// last writable row with blank cells under the current attribute;
/// the border rows are untouched.
pub proof fn lemma_scroll_correctness(s: Screen)
    requires
        screen_wf(s),
        s.row == last_row(),
    ensures
        ({
            let t = new_line_spec(s);
            &&& t.has_overflowed
            &&& t.row == last_row()
            &&& t.col == H_PADDING as int
            &&& t.cells.len() == s.cells.len()
            &&& forall|r: int|
                V_PADDING as int <= r < last_row() ==> #[trigger] t.cells[r] == s.cells[r + 1]
            &&& t.cells[last_row()] == blank_row(s.attr)
            &&& forall|r: int|
                (0 <= r < V_PADDING as int || last_row() < r < s.cells.len())
                    ==> #[trigger] t.cells[r] == s.cells[r]
        }),
{
}

/// Law: writing the same run twice under one attribute writes every
/// cell of both passes with that same attribute byte, and the second
/// pass leaves the first pass's cells untouched.
pub proof fn lemma_idempotent_attribute(s: Screen, bytes: Seq<u8>)
    requires
        screen_wf(s),
        forall|i: int| 0 <= i < bytes.len() ==> bytes[i] != NEWLINE_BYTE,
        s.col + 2 * bytes.len() <= col_limit(),
    ensures
        ({
            let t1 = write_string_spec(s, bytes);
            let t2 = write_string_spec(t1, bytes);
            &&& forall|j: int|
                0 <= j < bytes.len() ==> t1.cells[s.row][s.col + j] == (
                    normalize_byte(#[trigger] bytes[j]),
                    s.attr,
                )
            &&& forall|j: int|
                0 <= j < bytes.len() ==> t2.cells[s.row][t1.col + j] == (
                    normalize_byte(#[trigger] bytes[j]),
                    s.attr,
                )
            &&& forall|j: int|
                0 <= j < bytes.len() ==> t2.cells[s.row][s.col + j] == (
                    normalize_byte(#[trigger] bytes[j]),
                    s.attr,
                )
        }),
{
    lemma_no_drops(s, bytes);
    let t1 = write_string_spec(s, bytes);
    assert(screen_wf(t1));
    lemma_no_drops(t1, bytes);
}

/// Law: after the attribute changes, a further run changes only the
/// newly written cells — they carry the new attribute — while every
/// cell already on the grid keeps its glyph and its attribute.
pub proof fn lemma_recolor_touches_only_new_cells(s: Screen, bytes: Seq<u8>, attr2: u8)
    requires
        screen_wf(s),
        forall|i: int| 0 <= i < bytes.len() ==> bytes[i] != NEWLINE_BYTE,
        s.col + 2 * bytes.len() <= col_limit(),
    ensures
        ({
            let t1 = write_string_spec(s, bytes);
            let s2 = Screen { attr: attr2, ..t1 };
            let t2 = write_string_spec(s2, bytes);
            &&& forall|j: int|
                0 <= j < bytes.len() ==> t2.cells[s.row][t1.col + j] == (
                    normalize_byte(#[trigger] bytes[j]),
                    attr2,
                )
            &&& forall|r: int, c: int|
                0 <= r < t1.cells.len() && 0 <= c < t1.cells[r].len() && !(r == s.row && t1.col
                    <= c < t1.col + bytes.len()) ==> #[trigger] t2.cells[r][c] == t1.cells[r][c]
        }),
{
    lemma_no_drops(s, bytes);
    let t1 = write_string_spec(s, bytes);
    let s2 = Screen { attr: attr2, ..t1 };
    assert(screen_wf(s2));
    lemma_no_drops(s2, bytes);
    let t2 = write_string_spec(s2, bytes);
    assert forall|r: int, c: int|
        0 <= r < t1.cells.len() && 0 <= c < t1.cells[r].len() && !(r == s.row && t1.col <= c
            < t1.col + bytes.len()) implies #[trigger] t2.cells[r][c] == t1.cells[r][c] by {
        assert(s2.cells == t1.cells);
        assert(t2.cells[r][c] == s2.cells[r][c]);
    }
}

} // verus!

