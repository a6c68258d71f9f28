use super::next_view;
use super::playing::Playing;
use super::playing::PlayingView;
use super::start_animation::StartAnimation;
use super::start_animation::StartAnimationView;
use super::Phase;
use super::PhaseView;
use crate::display::lit_cells;
use crate::display::on_board;
use crate::display::BoolGrid;
use crate::display::DISPLAY_SIZE;
use vstd::prelude::*;

verus! {

/// The animation after a won game: a pause, four diagonal sweeps, then a
/// blank screen.
pub struct WinAnimation {
    game_state: Playing,
    num_updates: u32,
}

/// What the win animation remembers.
pub struct WinAnimationView {
    /// The game as it stood when it was won.
    pub snapshot: PlayingView,
    /// How many updates the animation has had.
    pub ticks: nat,
}

impl WinAnimationView {
    /// Whether the animation still shows the game at this tick.
    pub open spec fn shows_game(self) -> bool {
        self.ticks < 10
    }

    /// The diagonal "sweep" effect: two pixels wide, it moves one diagonal
    /// further with each tick and starts again every 10 ticks.
    pub open spec fn sweep(self) -> Set<(int, int)> {
        Set::new(
            |cell: (int, int)|
                on_board(cell.0, cell.1) && (cell.0 + cell.1 == self.ticks % 10 || cell.0 + cell.1
                    + 1 == self.ticks % 10),
        )
    }

    /// The pixels that are on.
    pub open spec fn frame(self) -> Set<(int, int)> {
        if self.shows_game() {
            self.snapshot.frame()
        } else if self.ticks >= 50 {
            Set::empty()
        } else {
            self.sweep()
        }
    }

    /// The won game can be shown for as long as the animation shows it.
    pub open spec fn can_display(self) -> bool {
        self.shows_game() ==> self.snapshot.can_display()
    }

    /// The tick can be counted.
    pub open spec fn can_tick(self) -> bool {
        self.ticks < u32::MAX
    }

    /// The animation one tick later.
    pub open spec fn tick(self) -> WinAnimationView {
        WinAnimationView { ticks: self.ticks + 1, ..self }
    }

    /// The phase that follows once the animation has run its 70 ticks.
    pub open spec fn next(self) -> Option<PhaseView> {
        if self.ticks < 70 {
            None
        } else {
            Some(PhaseView::StartAnimation(StartAnimationView { ticks: 0 }))
        }
    }
}

impl View for WinAnimation {
    type V = WinAnimationView;

    closed spec fn view(&self) -> WinAnimationView {
        WinAnimationView { snapshot: self.game_state@, ticks: self.num_updates as nat }
    }
}

impl WinAnimation {
    /// The animation at its beginning, for the game as it was won.
    pub fn new(game_state: Playing) -> (animation: Self)
        ensures
            animation@ == (WinAnimationView { snapshot: game_state@, ticks: 0 }),
    {
        Self { game_state, num_updates: 0 }
    }

    /// Draw the animation's frame into the whole of `display_buffer`.
    pub fn display(&self, display_buffer: &mut BoolGrid)
        requires
            self@.can_display(),
        ensures
            lit_cells(*final(display_buffer)) == self@.frame(),
    {
        // For a brief moment, show the state of the game when the last enemy
        // was destroyed. Otherwise, it'd be kinda jarring.
        if self.num_updates < 10 {
            self.game_state.display(display_buffer);
            return ;
        }
        // After 4 "sweep" effects, clear the screen for a moment.

        if self.num_updates >= 50 {
            *display_buffer = [[false; 5]; 5];
            assert(lit_cells(*display_buffer) =~= self@.frame());
            return ;
        }
        let tick = self.num_updates as usize % 10;

        for row in 0..DISPLAY_SIZE as usize
            invariant
                tick == self.num_updates % 10,
                forall|r: int, c: int|
                    0 <= r < row && 0 <= c < 5 ==> display_buffer[r][c] == (r + c == tick || r + c
                        + 1 == tick),
        {
            for col in 0..DISPLAY_SIZE as usize
                invariant
                    row < 5,
                    tick == self.num_updates % 10,
                    forall|r: int, c: int|
                        0 <= r < 5 && 0 <= c < 5 && (r < row || (r == row && c < col))
                            ==> display_buffer[r][c] == (r + c == tick || r + c + 1 == tick),
            {
                let sum = row + col;

                // The diagonal "sweep" effect is two pixels wide.
                let leading_edge = sum == tick;
                let trailing_edge = sum + 1 == tick;

                display_buffer[row][col] = leading_edge || trailing_edge;
            }
        }
        assert(lit_cells(*display_buffer) =~= self@.frame());
    }

    /// How often to call `update`, in milliseconds.
    pub fn update_timer_ms(&self) -> (period: u32)
        ensures
            period == 50,
    {
        50
    }

    /// Advance the animation by one tick. Hands back the start animation once
    /// this one is over.
    pub fn update(&mut self) -> (next: Option<Phase>)
        requires
            old(self)@.can_tick(),
        ensures
            final(self)@ == old(self)@.tick(),
            next_view(next) == final(self)@.next(),
    {
        self.num_updates += 1;

        if self.num_updates < 70 {
            None
        } else {
            Some(Phase::StartAnimation(StartAnimation::new()))
        }
    }
}

} // verus!
