use vstd::prelude::*;

verus! {

/// The display is a square grid with this many rows and columns.
pub const DISPLAY_SIZE: i8 = 5;

/// 5x5 grid of booleans.
pub type BoolGrid = [[bool; 5]; 5];

/// How long to display each row, before switching to the next row. Call the
/// `Display::update` method this often, in microseconds.
//
// A cycle time of 250 Hz (= 4 ms) is a common choice for dimming a single LED:
// every 4 ms, the LED first turns on (e.g. for 3 ms) and then off (e.g. for 1
// ms).
//
// So, we cycle through all 5 rows once every 4 ms. This means spending 800 us
// on each row.
pub const DISPLAY_TIMER_US: u32 = 800;

/// Whether `(row, col)` is a cell of the display.
pub open spec fn on_board(row: int, col: int) -> bool {
    0 <= row < DISPLAY_SIZE && 0 <= col < DISPLAY_SIZE
}

/// The cells of `grid` that are set, each as `(row, col)`.
pub open spec fn lit_cells(grid: BoolGrid) -> Set<(int, int)> {
    Set::new(|cell: (int, int)| on_board(cell.0, cell.1) && grid[cell.0][cell.1])
}

/// The level that a pin is driven to.
#[derive(Debug, Clone, Copy, PartialEq, Eq, Structural)]
pub enum PinLevel {
    Low,
    High,
}

/// What one refresh asks of the ten pins of the LED matrix, in the order in
/// which it is to be done.
#[derive(Debug, Clone, Copy)]
pub struct RowStrobe {
    /// The row that was lit until now: drive it low.
    pub previous_row: usize,
    /// The level of each column pin. A pixel of the current row is on where
    /// its column is low.
    pub columns: [PinLevel; 5],
    /// The row to light: drive it high.
    pub current_row: usize,
}

/// The 5x5 LED display has only 10 pins -- one for each row and column. To turn
/// on a specific LED ("pixel"), we must set the corresponding row *high* and
/// corresponding column *low*. In particular, this means we can't display an
/// arbitrary pattern of 25 pixels at a single instant in time.
///
/// We're expected to "strobe" the rows, so that only one row is actually lit at
/// a time. But it happens so fast, that the human eye sees them all
/// continuously illuminated.
pub struct Display {
    display_buffer: BoolGrid,
    curr_row: i8,
}

/// What the display holds: the pixels that are on in its buffer, and the row
/// that is lit.
pub struct DisplayView {
    pub buffer: Set<(int, int)>,
    pub curr_row: int,
}

impl DisplayView {
    /// The row that is lit is one of the five.
    pub open spec fn wf(self) -> bool {
        0 <= self.curr_row < DISPLAY_SIZE
    }

    /// The row that the next refresh lights.
    pub open spec fn next_row(self) -> int {
        (self.curr_row + 1) % 5
    }

    /// Whether the next refresh starts a new cycle through the rows, and so
    /// fetches a new picture.
    pub open spec fn buffer_is_due(self) -> bool {
        self.next_row() == 0
    }
}

impl View for Display {
    type V = DisplayView;

    closed spec fn view(&self) -> DisplayView {
        DisplayView { buffer: lit_cells(self.display_buffer), curr_row: self.curr_row as int }
    }
}

impl Display {
    /// A blank display whose first refresh lights the top row.
    pub fn new() -> (display: Self)
        ensures
            display@.wf(),
            display@.buffer == Set::<(int, int)>::empty(),
            display@.curr_row == DISPLAY_SIZE - 1,
    {
        let display = Self { display_buffer: [[false; 5]; 5], curr_row: DISPLAY_SIZE - 1 };
        assert(display@.buffer =~= Set::<(int, int)>::empty());
        display
    }

    /// The row that is lit.
    pub fn curr_row(&self) -> (row: usize)
        requires
            self@.wf(),
        ensures
            row == self@.curr_row,
    {
        self.curr_row as usize
    }

    /// You must call this method every `DISPLAY_TIMER_US` microseconds in order
    /// for it to work correctly.
    ///
    /// The `update_display_buffer` function only gets called during every fifth
    /// update.
    pub fn update<F>(&mut self, update_display_buffer: F) -> (strobe: RowStrobe) where
        F: FnOnce(&mut BoolGrid),

        requires
            old(self)@.wf(),
            old(self)@.buffer_is_due() ==> forall|buffer: &mut BoolGrid|
                lit_cells(*buffer) == old(self)@.buffer ==> call_requires(
                    update_display_buffer,
                    (buffer,),
                ),
        ensures
            final(self)@.wf(),
            final(self)@.curr_row == old(self)@.next_row(),
            !old(self)@.buffer_is_due() ==> final(self)@.buffer == old(self)@.buffer,
            old(self)@.buffer_is_due() ==> exists|buffer: &mut BoolGrid|
                {
                    &&& lit_cells(*buffer) == old(self)@.buffer
                    &&& lit_cells(*final(buffer)) == final(self)@.buffer
                    &&& call_ensures(update_display_buffer, (buffer,), ())
                },
            strobe.previous_row == old(self)@.curr_row,
            strobe.current_row == final(self)@.curr_row,
            forall|col: int|
                0 <= col < DISPLAY_SIZE ==> (#[trigger] strobe.columns[col] == PinLevel::Low
                    <==> final(self)@.buffer.contains((final(self)@.curr_row, col))),
    {
        // Clear the previous row.
        let previous_row = self.curr_row as usize;

        self.curr_row += 1;
        if self.curr_row == DISPLAY_SIZE {
            self.curr_row = 0;
        }

        if self.curr_row == 0 {
            update_display_buffer(&mut self.display_buffer);
        }

        let mut columns = [PinLevel::High; 5];
        for col in 0..DISPLAY_SIZE
            invariant
                0 <= self.curr_row < DISPLAY_SIZE,
                forall|c: int|
                    0 <= c < col ==> (#[trigger] columns[c] == PinLevel::Low
                        <==> self.display_buffer[self.curr_row as int][c]),
        {
            let state = if self.display_buffer[self.curr_row as usize][col as usize] {
                PinLevel::Low  // on
            } else {
                PinLevel::High  // off
            };
            columns[col as usize] = state;
        }

        // Display the current row.
        RowStrobe { previous_row, columns, current_row: self.curr_row as usize }
    }
}

/// The row that is lit after `n` refreshes.
pub open spec fn row_after(start: DisplayView, n: int) -> int {
    (start.curr_row + n) % 5
}

/// How many refreshes it takes until `row` is lit again: between one and
/// five.
pub open spec fn refreshes_until(start: DisplayView, row: int) -> int {
    if row > start.curr_row {
        row - start.curr_row
    } else {
        row - start.curr_row + DISPLAY_SIZE
    }
}

/// Every cycle of five refreshes lights each row once, and so fetches a new
/// picture once: from any row, each row is the one lit after exactly one of
/// the next five refreshes.
pub proof fn lemma_cycle_lights_each_row_once(start: DisplayView, row: int)
    requires
        start.wf(),
        0 <= row < DISPLAY_SIZE,
    ensures
        1 <= refreshes_until(start, row) <= DISPLAY_SIZE,
        forall|n: int|
            1 <= n <= DISPLAY_SIZE ==> (#[trigger] row_after(start, n) == row <==> n
                == refreshes_until(start, row)),
{
}

} // verus!
