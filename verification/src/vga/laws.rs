//! What holds of the display driver, proved over its model.
//!
//! The laws speak of [`ScreenState`] and of the device image, that is of the
//! functions in which the driver states what it does.

use super::{
    blank_cell, blank_row, cell_offset, grid_of, grid_wf, image_of, printable, text_row, Color16,
    ScreenCharacter, ScreenState, TextModeColor, BUFFER_HEIGHT, BUFFER_WIDTH, FRAME_BYTES,
    LINE_FEED, SUBSTITUTE,
};
use vstd::prelude::*;

verus! {

/// A color is the one that its palette index names.
pub proof fn lemma_code_round_trip(color: Color16)
    ensures
        color.spec_code() < 16,
        Color16::spec_from_code(color.spec_code()) == color,
{
}

/// Every palette index below 16 is the index of the color that it names.
pub proof fn lemma_palette_round_trip(code: u8)
    ensures
        Color16::spec_from_code(code).spec_code() == code % 16,
{
}

/// Packing colors into an attribute byte and unpacking it gives the colors
/// back.
pub proof fn lemma_attribute_round_trip(color: TextModeColor)
    ensures
        TextModeColor::spec_from_attribute(color.spec_attribute()) == color,
{
    lemma_code_round_trip(color.foreground);
    lemma_code_round_trip(color.background);
}

/// Every byte is the attribute of the colors that it unpacks to.
pub proof fn lemma_colors_round_trip(attribute: u8)
    ensures
        TextModeColor::spec_from_attribute(attribute).spec_attribute() == attribute,
{
    lemma_palette_round_trip(attribute % 16);
    lemma_palette_round_trip(attribute / 16);
}

/// Writing leaves the dimensions of the grid and the colors as they are.
pub proof fn lemma_write_keeps_shape(state: ScreenState, bytes: Seq<u8>)
    requires
        state.wf(),
    ensures
        state.write(bytes).wf(),
        state.write(bytes).color == state.color,
    decreases bytes.len(),
{
    if bytes.len() > 0 {
        lemma_write_keeps_shape(state, bytes.drop_last());
    }
}

/// Writing two texts one after the other is writing their concatenation.
pub proof fn lemma_write_concat(state: ScreenState, first: Seq<u8>, second: Seq<u8>)
    ensures
        state.write(first + second) == state.write(first).write(second),
    decreases second.len(),
{
    if second.len() > 0 {
        lemma_write_concat(state, first, second.drop_last());
        assert((first + second).drop_last() =~= first + second.drop_last());
    }
}

/// A text of one byte has the effect of that byte.
pub proof fn lemma_write_one(state: ScreenState, byte: u8)
    ensures
        state.write(seq![byte]) == state.feed(byte),
{
    assert(state.write(seq![byte].drop_last()) == state);
}

/// `row` with `text` put on it from `column` on, in the given colors.
pub open spec fn overwritten(
    row: Seq<ScreenCharacter>,
    column: int,
    text: Seq<u8>,
    color: TextModeColor,
) -> Seq<ScreenCharacter> {
    Seq::new(
        BUFFER_WIDTH as nat,
        |k: int|
            if column <= k < column + text.len() {
                ScreenCharacter { character: text[k - column], color }
            } else {
                row[k]
            },
    )
}

/// Printable text that fits behind the cursor lands on the bottom row, cell
/// by cell from the cursor on; no other cell changes and nothing scrolls.
pub proof fn lemma_write_in_row(state: ScreenState, text: Seq<u8>)
    requires
        state.wf(),
        state.column + text.len() <= BUFFER_WIDTH,
        forall|i: int| 0 <= i < text.len() ==> printable(#[trigger] text[i]),
    ensures
        state.write(text).column == state.column + text.len(),
        state.write(text).color == state.color,
        state.write(text).wf(),
        forall|r: int|
            0 <= r < BUFFER_HEIGHT - 1 ==> #[trigger] state.write(text).grid[r] == state.grid[r],
        state.write(text).active_line() == overwritten(
            state.active_line(),
            state.column,
            text,
            state.color,
        ),
    decreases text.len(),
{
    if text.len() > 0 {
        lemma_write_in_row(state, text.drop_last());
    }
    assert(state.write(text).active_line() =~= overwritten(
        state.active_line(),
        state.column,
        text,
        state.color,
    ));
}

/// On a fresh line, printable text of at most one row shows left-aligned on
/// the bottom row, with empty cells in the current colors behind it.
pub proof fn lemma_write_on_fresh_line(state: ScreenState, text: Seq<u8>)
    requires
        state.wf(),
        state.column == 0,
        state.active_line() == blank_row(state.color),
        text.len() <= BUFFER_WIDTH,
        forall|i: int| 0 <= i < text.len() ==> printable(#[trigger] text[i]),
    ensures
        state.write(text).active_line() == text_row(text, state.color),
        state.write(text).column == text.len(),
        forall|r: int|
            0 <= r < BUFFER_HEIGHT - 1 ==> #[trigger] state.write(text).grid[r] == state.grid[r],
{
    lemma_write_in_row(state, text);
}

/// A line feed always opens a fresh line: whatever was written before,
/// printable text of at most one row that follows a line feed shows
/// left-aligned on the bottom row, and the rows above are the former
/// rows, each moved up by one.
pub proof fn lemma_write_after_line_feed(state: ScreenState, text: Seq<u8>)
    requires
        state.wf(),
        text.len() <= BUFFER_WIDTH,
        forall|i: int| 0 <= i < text.len() ==> printable(#[trigger] text[i]),
    ensures
        state.write(seq![LINE_FEED] + text).wf(),
        state.write(seq![LINE_FEED] + text).color == state.color,
        state.write(seq![LINE_FEED] + text).column == text.len(),
        state.write(seq![LINE_FEED] + text).active_line() == text_row(text, state.color),
        forall|r: int|
            0 <= r < BUFFER_HEIGHT - 1 ==> #[trigger] state.write(seq![LINE_FEED] + text).grid[r]
                == state.grid[r + 1],
{
    lemma_write_concat(state, seq![LINE_FEED], text);
    lemma_write_one(state, LINE_FEED);
    lemma_write_on_fresh_line(state.new_line(), text);
    lemma_write_in_row(state.new_line(), text);
}

/// Whether `line` is printable text of at most one row.
pub open spec fn line_fits(line: Seq<u8>) -> bool {
    &&& line.len() <= BUFFER_WIDTH
    &&& forall|i: int| 0 <= i < line.len() ==> printable(#[trigger] line[i])
}

/// The text that prints each of `lines` on a line of its own: a line feed,
/// then the line.
pub open spec fn lines_after_feeds(lines: Seq<Seq<u8>>) -> Seq<u8>
    decreases lines.len(),
{
    if lines.len() == 0 {
        Seq::empty()
    } else {
        lines_after_feeds(lines.drop_last()) + (seq![LINE_FEED] + lines.last())
    }
}

/// Printing lines scrolls by exactly one row per line. After `n` lines the
/// bottom `n` rows show the lines, the newest at the bottom, and the rows
/// above them are the former rows moved up by `n`. From a full grid's worth
/// of lines on, nothing but the most recent lines is left.
pub proof fn lemma_recent_lines_visible(state: ScreenState, lines: Seq<Seq<u8>>)
    requires
        state.wf(),
        forall|j: int| 0 <= j < lines.len() ==> line_fits(#[trigger] lines[j]),
    ensures
        state.write(lines_after_feeds(lines)).wf(),
        state.write(lines_after_feeds(lines)).color == state.color,
        forall|r: int|
            0 <= r < BUFFER_HEIGHT ==> #[trigger] state.write(lines_after_feeds(lines)).grid[r] == if r
                + lines.len() >= BUFFER_HEIGHT {
                text_row(lines[r + lines.len() - BUFFER_HEIGHT], state.color)
            } else {
                state.grid[r + lines.len()]
            },
        lines.len() >= BUFFER_HEIGHT ==> forall|r: int|
            0 <= r < BUFFER_HEIGHT ==> #[trigger] state.write(lines_after_feeds(lines)).grid[r]
                == text_row(lines[r + lines.len() - BUFFER_HEIGHT], state.color),
    decreases lines.len(),
{
    if lines.len() > 0 {
        let earlier = lines.drop_last();
        let newest = lines.last();
        lemma_recent_lines_visible(state, earlier);
        let before = state.write(lines_after_feeds(earlier));
        lemma_write_concat(state, lines_after_feeds(earlier), seq![LINE_FEED] + newest);
        lemma_write_after_line_feed(before, newest);
    }
}

/// The text that prints each of `lines` and ends it with a line feed.
pub open spec fn lines_before_feeds(lines: Seq<Seq<u8>>) -> Seq<u8>
    decreases lines.len(),
{
    if lines.len() == 0 {
        Seq::empty()
    } else {
        lines_before_feeds(lines.drop_last()) + (lines.last() + seq![LINE_FEED])
    }
}

/// Whether the cursor stands at the start of an empty bottom row.
pub open spec fn fresh_line(state: ScreenState) -> bool {
    state.column == 0 && state.active_line() == blank_row(state.color)
}

/// Lines that are printed from a fresh line on, each ended by a line feed,
/// stack up above an empty bottom row: after `n` lines the `n` rows above
/// the bottom row show the lines, the newest lowest, and the rows above
/// them are the former rows moved up by `n`.
pub proof fn lemma_printed_lines_visible(state: ScreenState, lines: Seq<Seq<u8>>)
    requires
        state.wf(),
        fresh_line(state),
        forall|j: int| 0 <= j < lines.len() ==> line_fits(#[trigger] lines[j]),
    ensures
        state.write(lines_before_feeds(lines)).wf(),
        state.write(lines_before_feeds(lines)).color == state.color,
        fresh_line(state.write(lines_before_feeds(lines))),
        forall|r: int|
            0 <= r < BUFFER_HEIGHT - 1 ==> #[trigger] state.write(lines_before_feeds(lines)).grid[r]
                == if r + lines.len() >= BUFFER_HEIGHT - 1 {
                text_row(lines[r + lines.len() - (BUFFER_HEIGHT - 1)], state.color)
            } else {
                state.grid[r + lines.len()]
            },
    decreases lines.len(),
{
    if lines.len() > 0 {
        let earlier = lines.drop_last();
        let newest = lines.last();
        lemma_printed_lines_visible(state, earlier);
        let before = state.write(lines_before_feeds(earlier));
        lemma_write_concat(state, lines_before_feeds(earlier), newest + seq![LINE_FEED]);
        lemma_write_concat(before, newest, seq![LINE_FEED]);
        lemma_write_one(before.write(newest), LINE_FEED);
        lemma_write_on_fresh_line(before, newest);
        lemma_write_keeps_shape(before, newest);
    }
}

/// Whether a cell shows a printable character or the substitution glyph.
pub open spec fn displayable(cell: ScreenCharacter) -> bool {
    printable(cell.character) || cell.character == SUBSTITUTE
}

/// Whether every cell of `grid` is displayable.
pub open spec fn grid_displayable(grid: Seq<Seq<ScreenCharacter>>) -> bool {
    forall|r: int, k: int|
        0 <= r < BUFFER_HEIGHT && 0 <= k < BUFFER_WIDTH ==> displayable(#[trigger] grid[r][k])
}

/// A byte without a glyph of its own is shown as the substitution glyph, in
/// the cell at the cursor.
pub proof fn lemma_unprintable_byte_is_substituted(state: ScreenState, byte: u8)
    requires
        state.wf(),
        !printable(byte),
        byte != LINE_FEED,
    ensures
        state.feed(byte) == state.put(SUBSTITUTE),
        state.feed(byte).active_line()[state.feed(byte).column - 1] == (ScreenCharacter {
            character: SUBSTITUTE,
            color: state.color,
        }),
{
}

/// Whatever bytes are written, the grid never shows anything but printable
/// characters and the substitution glyph.
pub proof fn lemma_write_shows_glyphs(state: ScreenState, bytes: Seq<u8>)
    requires
        state.wf(),
        grid_displayable(state.grid),
    ensures
        grid_displayable(state.write(bytes).grid),
    decreases bytes.len(),
{
    if bytes.len() > 0 {
        lemma_write_shows_glyphs(state, bytes.drop_last());
        lemma_write_keeps_shape(state, bytes.drop_last());
    }
}

/// The device is handed nothing but printable characters and the
/// substitution glyph: every character byte of the image of a displayable
/// grid is one of them.
pub proof fn lemma_image_shows_glyphs(grid: Seq<Seq<ScreenCharacter>>, row: int, column: int)
    requires
        grid_wf(grid),
        grid_displayable(grid),
        0 <= row < BUFFER_HEIGHT,
        0 <= column < BUFFER_WIDTH,
    ensures
        printable(image_of(grid)[cell_offset(row, column)]) || image_of(grid)[cell_offset(
            row,
            column,
        )] == SUBSTITUTE,
{
}

/// The grid of a driver that has written nothing shows only empty cells.
pub proof fn lemma_initial_shows_glyphs()
    ensures
        ScreenState::initial().wf(),
        grid_displayable(ScreenState::initial().grid),
{
}

/// Copying a grid to the device and reading it back gives the same grid,
/// characters and colors alike.
pub proof fn lemma_flush_load_round_trip(grid: Seq<Seq<ScreenCharacter>>)
    requires
        grid_wf(grid),
    ensures
        grid_of(image_of(grid)) == grid,
{
    let back = grid_of(image_of(grid));
    assert forall|r: int| 0 <= r < BUFFER_HEIGHT implies #[trigger] back[r] =~= grid[r] by {
        assert forall|k: int| 0 <= k < BUFFER_WIDTH implies back[r][k] == grid[r][k] by {
            lemma_attribute_round_trip(grid[r][k].color);
        }
    }
}

/// Reading a device image and copying the grid back gives the same bytes.
pub proof fn lemma_load_flush_round_trip(image: Seq<u8>)
    requires
        image.len() == FRAME_BYTES,
    ensures
        image_of(grid_of(image)) == image,
{
    let back = image_of(grid_of(image));
    assert forall|i: int| 0 <= i < FRAME_BYTES implies back[i] == image[i] by {
        let r = (i / 2) / (BUFFER_WIDTH as int);
        let k = (i / 2) % (BUFFER_WIDTH as int);
        lemma_colors_round_trip(image[cell_offset(r, k) + 1]);
    }
}

} // verus!
