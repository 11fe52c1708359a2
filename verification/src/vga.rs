//! Text-mode display driver.
//!
//! The driver keeps a shadow copy of the character grid and the column of the
//! cursor on the bottom row. Text is appended to the bottom row; a line feed,
//! or a byte that no longer fits, scrolls every row up by one. After each
//! write the whole shadow grid is copied to the image of the memory-mapped
//! device.
//!
//! [`ScreenState`] is the mathematical model of the driver; every executable
//! function states its effect as a function on that model.

use self::laws::lemma_write_concat;
use vstd::prelude::*;
use vstd::string::*;

pub mod laws;

verus! {

/// Number of cells in a row of the grid.
pub const BUFFER_WIDTH: usize = 80;

/// Number of rows of the grid.
pub const BUFFER_HEIGHT: usize = 25;

/// Number of bytes of the device image: two per cell.
pub const FRAME_BYTES: usize = 4000;

/// Character of an empty cell.
pub const BLANK: u8 = 0x20;

/// Glyph shown in place of a byte that has no printable form.
pub const SUBSTITUTE: u8 = 0xfe;

/// Byte that ends the current line.
pub const LINE_FEED: u8 = 0x0a;

/// The sixteen colors of the text mode palette.
#[derive(Clone, Copy, Debug, PartialEq, Eq, Structural)]
pub enum Color16 {
    Black,
    Blue,
    Green,
    Cyan,
    Red,
    Magenta,
    Brown,
    LightGrey,
    DarkGrey,
    LightBlue,
    LightGreen,
    LightCyan,
    LightRed,
    Pink,
    Yellow,
    White,
}

impl Color16 {
    /// The palette index of the color, between 0 and 15.
    pub open spec fn spec_code(self) -> u8 {
        match self {
            Color16::Black => 0x0,
            Color16::Blue => 0x1,
            Color16::Green => 0x2,
            Color16::Cyan => 0x3,
            Color16::Red => 0x4,
            Color16::Magenta => 0x5,
            Color16::Brown => 0x6,
            Color16::LightGrey => 0x7,
            Color16::DarkGrey => 0x8,
            Color16::LightBlue => 0x9,
            Color16::LightGreen => 0xa,
            Color16::LightCyan => 0xb,
            Color16::LightRed => 0xc,
            Color16::Pink => 0xd,
            Color16::Yellow => 0xe,
            Color16::White => 0xf,
        }
    }

    /// The color at palette index `code`, taken modulo 16.
    pub open spec fn spec_from_code(code: u8) -> Color16 {
        match code % 16 {
            0x0 => Color16::Black,
            0x1 => Color16::Blue,
            0x2 => Color16::Green,
            0x3 => Color16::Cyan,
            0x4 => Color16::Red,
            0x5 => Color16::Magenta,
            0x6 => Color16::Brown,
            0x7 => Color16::LightGrey,
            0x8 => Color16::DarkGrey,
            0x9 => Color16::LightBlue,
            0xa => Color16::LightGreen,
            0xb => Color16::LightCyan,
            0xc => Color16::LightRed,
            0xd => Color16::Pink,
            0xe => Color16::Yellow,
            _ => Color16::White,
        }
    }

    #[verifier::when_used_as_spec(spec_code)]
    pub fn code(self) -> (code: u8)
        ensures
            code == self.spec_code(),
            code < 16,
    {
        match self {
            Color16::Black => 0x0,
            Color16::Blue => 0x1,
            Color16::Green => 0x2,
            Color16::Cyan => 0x3,
            Color16::Red => 0x4,
            Color16::Magenta => 0x5,
            Color16::Brown => 0x6,
            Color16::LightGrey => 0x7,
            Color16::DarkGrey => 0x8,
            Color16::LightBlue => 0x9,
            Color16::LightGreen => 0xa,
            Color16::LightCyan => 0xb,
            Color16::LightRed => 0xc,
            Color16::Pink => 0xd,
            Color16::Yellow => 0xe,
            Color16::White => 0xf,
        }
    }

    /// The color with palette index `code % 16`.
    #[verifier::when_used_as_spec(spec_from_code)]
    pub fn from_code(code: u8) -> (color: Color16)
        ensures
            color == Color16::spec_from_code(code),
            color.spec_code() == code % 16,
    {
        match code % 16 {
            0x0 => Color16::Black,
            0x1 => Color16::Blue,
            0x2 => Color16::Green,
            0x3 => Color16::Cyan,
            0x4 => Color16::Red,
            0x5 => Color16::Magenta,
            0x6 => Color16::Brown,
            0x7 => Color16::LightGrey,
            0x8 => Color16::DarkGrey,
            0x9 => Color16::LightBlue,
            0xa => Color16::LightGreen,
            0xb => Color16::LightCyan,
            0xc => Color16::LightRed,
            0xd => Color16::Pink,
            0xe => Color16::Yellow,
            _ => Color16::White,
        }
    }
}

/// Foreground and background color of a cell.
#[derive(Clone, Copy, Debug, PartialEq, Eq, Structural)]
pub struct TextModeColor {
    pub foreground: Color16,
    pub background: Color16,
}

impl TextModeColor {
    /// The attribute byte of the device: background in the high four bits,
    /// foreground in the low four.
    pub open spec fn spec_attribute(self) -> u8 {
        (16 * self.background.spec_code() + self.foreground.spec_code()) as u8
    }

    /// The colors that the attribute byte `attribute` stands for.
    pub open spec fn spec_from_attribute(attribute: u8) -> TextModeColor {
        TextModeColor {
            foreground: Color16::spec_from_code(attribute % 16),
            background: Color16::spec_from_code(attribute / 16),
        }
    }

    pub fn new(foreground: Color16, background: Color16) -> (color: TextModeColor)
        ensures
            color == (TextModeColor { foreground, background }),
    {
        TextModeColor { foreground, background }
    }

    #[verifier::when_used_as_spec(spec_attribute)]
    pub fn attribute(self) -> (attribute: u8)
        ensures
            attribute == self.spec_attribute(),
            TextModeColor::spec_from_attribute(attribute) == self,
    {
        let background: u8 = self.background.code();
        let foreground: u8 = self.foreground.code();
        assert((background << 4) | foreground == 16 * background + foreground) by (bit_vector)
            requires
                background < 16,
                foreground < 16,
        ;
        (background << 4) | foreground
    }

    #[verifier::when_used_as_spec(spec_from_attribute)]
    pub fn from_attribute(attribute: u8) -> (color: TextModeColor)
        ensures
            color == TextModeColor::spec_from_attribute(attribute),
            color.spec_attribute() == attribute,
    {
        assert(attribute & 0x0f == attribute % 16) by (bit_vector);
        assert(attribute >> 4 == attribute / 16) by (bit_vector);
        TextModeColor {
            foreground: Color16::from_code(attribute & 0x0f),
            background: Color16::from_code(attribute >> 4),
        }
    }
}

/// One cell of the grid: a character and its colors.
#[derive(Clone, Copy, Debug, PartialEq, Eq, Structural)]
pub struct ScreenCharacter {
    pub character: u8,
    pub color: TextModeColor,
}

impl ScreenCharacter {
    pub fn new(character: u8, color: TextModeColor) -> (cell: ScreenCharacter)
        ensures
            cell == (ScreenCharacter { character, color }),
    {
        ScreenCharacter { character, color }
    }
}

/// Whether `byte` has a glyph of its own: the printable 7-bit characters.
pub open spec fn printable(byte: u8) -> bool {
    0x20 <= byte <= 0x7e
}

/// The character that is shown for `byte`.
pub open spec fn glyph(byte: u8) -> u8 {
    if printable(byte) {
        byte
    } else {
        SUBSTITUTE
    }
}

/// An empty cell in the given colors.
pub open spec fn blank_cell(color: TextModeColor) -> ScreenCharacter {
    ScreenCharacter { character: BLANK, color }
}

/// A row of empty cells.
pub open spec fn blank_row(color: TextModeColor) -> Seq<ScreenCharacter> {
    Seq::new(BUFFER_WIDTH as nat, |k: int| blank_cell(color))
}

/// A row that shows `text` from its left edge and is empty behind it.
pub open spec fn text_row(text: Seq<u8>, color: TextModeColor) -> Seq<ScreenCharacter> {
    Seq::new(
        BUFFER_WIDTH as nat,
        |k: int|
            if k < text.len() {
                ScreenCharacter { character: text[k], color }
            } else {
                blank_cell(color)
            },
    )
}

/// Whether `grid` has the dimensions of the device.
pub open spec fn grid_wf(grid: Seq<Seq<ScreenCharacter>>) -> bool {
    &&& grid.len() == BUFFER_HEIGHT
    &&& forall|r: int| 0 <= r < BUFFER_HEIGHT ==> (#[trigger] grid[r]).len() == BUFFER_WIDTH
}

/// Mathematical model of the driver: the cursor's column on the bottom row,
/// the colors of the cells still to be written, and the grid, top row first.
pub struct ScreenState {
    pub column: int,
    pub color: TextModeColor,
    pub grid: Seq<Seq<ScreenCharacter>>,
}

impl ScreenState {
    /// The cursor may stand one past the last cell: the row is then full and
    /// the next character opens a new line.
    pub open spec fn wf(self) -> bool {
        &&& 0 <= self.column <= BUFFER_WIDTH
        &&& grid_wf(self.grid)
    }

    /// The state of a driver that has written nothing yet.
    pub open spec fn initial() -> ScreenState {
        let color = TextModeColor { foreground: Color16::Yellow, background: Color16::Black };
        ScreenState {
            column: 0,
            color,
            grid: Seq::new(BUFFER_HEIGHT as nat, |r: int| blank_row(color)),
        }
    }

    /// The row that text is appended to.
    pub open spec fn active_line(self) -> Seq<ScreenCharacter> {
        self.grid[BUFFER_HEIGHT - 1]
    }

    pub open spec fn with_color(self, color: TextModeColor) -> ScreenState {
        ScreenState { color, ..self }
    }

    /// Every row moves up by one, the top row is lost, and the bottom row is
    /// empty in the current colors.
    pub open spec fn new_line(self) -> ScreenState {
        ScreenState {
            column: 0,
            color: self.color,
            grid: self.grid.drop_first().push(blank_row(self.color)),
        }
    }

    /// Puts `character` at the cursor, after a line advance if the row is
    /// full.
    pub open spec fn put(self, character: u8) -> ScreenState {
        let start = if self.column >= BUFFER_WIDTH {
            self.new_line()
        } else {
            self
        };
        let cell = ScreenCharacter { character, color: self.color };
        ScreenState {
            column: start.column + 1,
            color: self.color,
            grid: start.grid.update(
                BUFFER_HEIGHT - 1,
                start.active_line().update(start.column, cell),
            ),
        }
    }

    /// Effect of one byte of text.
    pub open spec fn feed(self, byte: u8) -> ScreenState {
        if byte == LINE_FEED {
            self.new_line()
        } else {
            self.put(glyph(byte))
        }
    }

    /// Effect of a text, byte by byte.
    pub open spec fn write(self, bytes: Seq<u8>) -> ScreenState
        decreases bytes.len(),
    {
        if bytes.len() == 0 {
            self
        } else {
            self.write(bytes.drop_last()).feed(bytes.last())
        }
    }
}

/// Offset of the character byte of the cell at `row`, `column` in the device
/// image. The attribute byte follows it.
pub open spec fn cell_offset(row: int, column: int) -> int {
    2 * (BUFFER_WIDTH * row + column)
}

/// The bytes that the device holds when it shows `grid`: for each cell, row
/// by row, the character and then the attribute.
pub open spec fn image_of(grid: Seq<Seq<ScreenCharacter>>) -> Seq<u8> {
    Seq::new(
        FRAME_BYTES as nat,
        |i: int|
            {
                let cell = grid[(i / 2) / (BUFFER_WIDTH as int)][(i / 2) % (BUFFER_WIDTH as int)];
                if i % 2 == 0 {
                    cell.character
                } else {
                    cell.color.spec_attribute()
                }
            },
    )
}

/// The grid that a device with the bytes `image` shows.
pub open spec fn grid_of(image: Seq<u8>) -> Seq<Seq<ScreenCharacter>> {
    Seq::new(
        BUFFER_HEIGHT as nat,
        |r: int|
            Seq::new(
                BUFFER_WIDTH as nat,
                |k: int|
                    ScreenCharacter {
                        character: image[cell_offset(r, k)],
                        color: TextModeColor::spec_from_attribute(image[cell_offset(r, k) + 1]),
                    },
            ),
    )
}

/// Image of the memory-mapped text device, two bytes per cell, as it is
/// staged for the bulk write to the device.
pub struct FrameBuffer {
    pub bytes: [u8; FRAME_BYTES],
    /// Whether the image was renewed since it last went to the device.
    pub dirty: bool,
}

impl View for FrameBuffer {
    type V = Seq<u8>;

    open spec fn view(&self) -> Seq<u8> {
        self.bytes@
    }
}

impl FrameBuffer {
    /// Whether the image shows `grid` and waits to go to the device.
    pub open spec fn holds(self, grid: Seq<Seq<ScreenCharacter>>) -> bool {
        self@ == image_of(grid) && self.dirty
    }

    /// An image with every byte zero that has nothing to go to the device.
    pub fn new() -> (device: FrameBuffer)
        ensures
            device@ == Seq::new(FRAME_BYTES as nat, |i: int| 0u8),
            !device.dirty,
    {
        FrameBuffer { bytes: [0u8; FRAME_BYTES], dirty: false }
    }
}

/// How a transition leaves the device image: where it flushed, the image
/// shows `grid` and waits to go to the device; where it did not, the image
/// is as it was.
pub open spec fn flushed_to(
    after: FrameBuffer,
    before: FrameBuffer,
    flushed: bool,
    grid: Seq<Seq<ScreenCharacter>>,
) -> bool {
    if flushed {
        after.holds(grid)
    } else {
        after == before
    }
}

/// The grid of the driver as it is held in memory.
pub type Buffer = [[ScreenCharacter; BUFFER_WIDTH]; BUFFER_HEIGHT];

/// The display driver: the shadow grid, the cursor and the current colors.
pub struct VgaWriter {
    column: usize,
    color_code: TextModeColor,
    buffer: Buffer,
}

impl View for VgaWriter {
    type V = ScreenState;

    closed spec fn view(&self) -> ScreenState {
        ScreenState {
            column: self.column as int,
            color: self.color_code,
            grid: Seq::new(BUFFER_HEIGHT as nat, |r: int| self.buffer@[r]@),
        }
    }
}

impl VgaWriter {
    #[verifier::type_invariant]
    spec fn column_in_row(self) -> bool {
        self.column <= BUFFER_WIDTH
    }

    /// A driver with an empty grid, yellow on black.
    pub fn new() -> (writer: VgaWriter)
        ensures
            writer@ == ScreenState::initial(),
            writer@.wf(),
    {
        let color_code = TextModeColor::new(Color16::Yellow, Color16::Black);
        let writer = VgaWriter {
            column: 0,
            color_code,
            buffer: [[ScreenCharacter::new(BLANK, color_code); BUFFER_WIDTH]; BUFFER_HEIGHT],
        };
        assert(writer@.grid =~~= ScreenState::initial().grid);
        writer
    }

    /// The colors of the cells still to be written.
    pub fn color_code(&self) -> (color: TextModeColor)
        ensures
            color == self@.color,
            self@.wf(),
    {
        proof {
            use_type_invariant(self);
        }
        self.color_code
    }

    /// Sets the colors of the cells still to be written; the cells already
    /// on the grid keep theirs.
    pub fn set_color_code(&mut self, color: TextModeColor)
        ensures
            final(self)@ == old(self)@.with_color(color),
            final(self)@.wf(),
    {
        proof {
            use_type_invariant(&*self);
        }
        self.color_code = color;
    }

    /// The cursor's column on the bottom row.
    pub fn column(&self) -> (column: usize)
        ensures
            column == self@.column,
            self@.wf(),
    {
        proof {
            use_type_invariant(self);
        }
        self.column
    }

    /// The cell at `row`, `column` of the shadow grid, if the grid has such
    /// a cell.
    pub fn cell(&self, row: usize, column: usize) -> (cell: Option<ScreenCharacter>)
        ensures
            cell == if row < BUFFER_HEIGHT && column < BUFFER_WIDTH {
                Some(self@.grid[row as int][column as int])
            } else {
                None
            },
            self@.wf(),
    {
        proof {
            use_type_invariant(self);
        }
        if row < BUFFER_HEIGHT && column < BUFFER_WIDTH {
            Some(self.buffer[row][column])
        } else {
            None
        }
    }

    /// Scrolls the grid up by one row and puts the cursor at the start of
    /// the empty bottom row.
    pub fn new_line(&mut self)
        ensures
            final(self)@ == old(self)@.new_line(),
            final(self)@.wf(),
    {
        proof {
            use_type_invariant(&*self);
        }
        let mut row: usize = 1;
        while row < BUFFER_HEIGHT
            invariant
                1 <= row <= BUFFER_HEIGHT,
                self.column == old(self).column,
                self.column <= BUFFER_WIDTH,
                self.color_code == old(self).color_code,
                forall|r: int| 0 <= r < row - 1 ==> self.buffer@[r] == old(self).buffer@[r + 1],
                forall|r: int| row - 1 <= r < BUFFER_HEIGHT ==> self.buffer@[r] == old(self).buffer@[r],
            decreases BUFFER_HEIGHT - row,
        {
            self.buffer[row - 1] = self.buffer[row];
            row += 1;
        }
        self.buffer[BUFFER_HEIGHT - 1] = [ScreenCharacter::new(BLANK, self.color_code); BUFFER_WIDTH];
        self.column = 0;
        assert(self@.grid =~~= old(self)@.new_line().grid);
    }

    /// Puts `byte` as it is at the cursor and moves the cursor on, after
    /// a line advance if the row is full.
    pub fn write_byte(&mut self, byte: u8)
        ensures
            final(self)@ == old(self)@.put(byte),
            final(self)@.wf(),
    {
        proof {
            use_type_invariant(&*self);
        }
        if self.column >= BUFFER_WIDTH {
            self.new_line();
        }
        self.buffer[BUFFER_HEIGHT - 1][self.column] = ScreenCharacter::new(byte, self.color_code);
        self.column += 1;
        assert(self@.grid =~~= old(self)@.put(byte).grid);
    }

    /// Copies the whole shadow grid to the device image and marks the image
    /// for the device.
    pub fn flush(&self, device: &mut FrameBuffer)
        ensures
            final(device).holds(self@.grid),
    {
        let mut row: usize = 0;
        while row < BUFFER_HEIGHT
            invariant
                row <= BUFFER_HEIGHT,
                forall|r: int, k: int|
                    0 <= r < row && 0 <= k < BUFFER_WIDTH ==> {
                        &&& device.bytes@[#[trigger] cell_offset(r, k)] == self.buffer@[r]@[k].character
                        &&& device.bytes@[cell_offset(r, k) + 1]
                            == self.buffer@[r]@[k].color.spec_attribute()
                    },
            decreases BUFFER_HEIGHT - row,
        {
            let mut column: usize = 0;
            while column < BUFFER_WIDTH
                invariant
                    row < BUFFER_HEIGHT,
                    column <= BUFFER_WIDTH,
                    forall|r: int, k: int|
                        (0 <= r < row && 0 <= k < BUFFER_WIDTH) || (r == row && 0 <= k < column) ==> {
                            &&& device.bytes@[#[trigger] cell_offset(r, k)]
                                == self.buffer@[r]@[k].character
                            &&& device.bytes@[cell_offset(r, k) + 1]
                                == self.buffer@[r]@[k].color.spec_attribute()
                        },
                decreases BUFFER_WIDTH - column,
            {
                let cell = self.buffer[row][column];
                let offset: usize = 2 * (row * BUFFER_WIDTH + column);
                device.bytes[offset] = cell.character;
                device.bytes[offset + 1] = cell.color.attribute();
                column += 1;
            }
            row += 1;
        }
        assert forall|i: int| 0 <= i < FRAME_BYTES implies device@[i] == image_of(self@.grid)[i] by {
            let r = (i / 2) / (BUFFER_WIDTH as int);
            let k = (i / 2) % (BUFFER_WIDTH as int);
            assert(cell_offset(r, k) == i - i % 2);
        }
        assert(device@ =~= image_of(self@.grid));
        device.dirty = true;
    }

    /// Replaces the shadow grid by what the device image shows. Cursor and
    /// colors stay.
    pub fn load(&mut self, device: &FrameBuffer)
        ensures
            final(self)@ == (ScreenState { grid: grid_of(device@), ..old(self)@ }),
            final(self)@.wf(),
    {
        proof {
            use_type_invariant(&*self);
        }
        let mut row: usize = 0;
        while row < BUFFER_HEIGHT
            invariant
                row <= BUFFER_HEIGHT,
                self.column == old(self).column,
                self.column <= BUFFER_WIDTH,
                self.color_code == old(self).color_code,
                forall|r: int, k: int|
                    0 <= r < row && 0 <= k < BUFFER_WIDTH ==> #[trigger] self.buffer@[r]@[k]
                        == grid_of(device@)[r][k],
            decreases BUFFER_HEIGHT - row,
        {
            let mut column: usize = 0;
            while column < BUFFER_WIDTH
                invariant
                    row < BUFFER_HEIGHT,
                    column <= BUFFER_WIDTH,
                    self.column == old(self).column,
                    self.column <= BUFFER_WIDTH,
                    self.color_code == old(self).color_code,
                    forall|r: int, k: int|
                        (0 <= r < row && 0 <= k < BUFFER_WIDTH) || (r == row && 0 <= k < column)
                            ==> #[trigger] self.buffer@[r]@[k] == grid_of(device@)[r][k],
                decreases BUFFER_WIDTH - column,
            {
                let offset: usize = 2 * (row * BUFFER_WIDTH + column);
                let character: u8 = device.bytes[offset];
                let color = TextModeColor::from_attribute(device.bytes[offset + 1]);
                self.buffer[row][column] = ScreenCharacter::new(character, color);
                column += 1;
            }
            row += 1;
        }
        assert(self@.grid =~~= grid_of(device@));
    }

    /// Appends `s` to the bottom row and copies the grid to the device
    /// image, whatever `s` holds. A line feed opens a new line; a byte that
    /// is not printable 7-bit text shows as [`SUBSTITUTE`].
    pub fn write_str(&mut self, device: &mut FrameBuffer, s: &str)
        ensures
            final(self)@ == old(self)@.write(s.spec_bytes()),
            final(self)@.wf(),
            final(device).holds(final(self)@.grid),
    {
        proof {
            use_type_invariant(&*self);
        }
        let bytes = s.as_bytes();
        let mut i: usize = 0;
        while i < bytes.len()
            invariant
                i <= bytes.len(),
                bytes@ == s.spec_bytes(),
                self@ == old(self)@.write(bytes@.take(i as int)),
                self@.wf(),
            decreases bytes.len() - i,
        {
            let byte: u8 = bytes[i];
            assert(bytes@.take(i + 1).drop_last() =~= bytes@.take(i as int));
            if byte == LINE_FEED {
                self.new_line();
            } else if 0x20 <= byte && byte <= 0x7e {
                self.write_byte(byte);
            } else {
                self.write_byte(SUBSTITUTE);
            }
            i += 1;
        }
        assert(bytes@.take(i as int) =~= bytes@);
        self.flush(device);
    }
}

/// Appends `text` to the screen and copies the grid to the device image,
/// as [`VgaWriter::write_str`] does.
pub fn _print(writer: &mut VgaWriter, device: &mut FrameBuffer, text: &str)
    ensures
        final(writer)@ == old(writer)@.write(text.spec_bytes()),
        final(writer)@.wf(),
        final(device).holds(final(writer)@.grid),
{
    writer.write_str(device, text);
}

/// Appends `text` and a line feed to the screen and copies the grid to the
/// device image.
pub fn print_line(writer: &mut VgaWriter, device: &mut FrameBuffer, text: &str)
    ensures
        final(writer)@ == old(writer)@.write(text.spec_bytes() + seq![LINE_FEED]),
        final(writer)@.wf(),
        final(device).holds(final(writer)@.grid),
{
    _print(writer, device, text);
    _print(writer, device, "\n");
    proof {
        reveal_strlit("\n");
        is_ascii_spec_bytes("\n");
        lemma_write_concat(old(writer)@, text.spec_bytes(), seq![LINE_FEED]);
    }
}

} // verus!
