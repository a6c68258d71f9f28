use super::blink_on;
use super::next_view;
use super::playing::Playing;
use super::playing::PlayingView;
use super::Phase;
use super::PhaseView;
use crate::display::lit_cells;
use crate::display::BoolGrid;
use crate::display::DISPLAY_SIZE;
use vstd::prelude::*;

verus! {

/// The animation before a game: the player blinks into place, then the
/// enemies do.
pub struct StartAnimation {
    num_updates: u32,
}

/// What the start animation remembers.
pub struct StartAnimationView {
    /// How many updates the animation has had.
    pub ticks: nat,
}

impl StartAnimationView {
    /// Whether the player is shown at this tick.
    pub open spec fn shows_player(self) -> bool {
        blink_on(self.ticks, 4)
    }

    /// Whether the row of enemies is shown at this tick.
    pub open spec fn shows_enemies(self) -> bool {
        self.ticks >= 8 && blink_on(self.ticks, 12)
    }

    /// The pixels that are on: the player in the middle of the bottom row, and
    /// four enemies at the left of the top row.
    pub open spec fn frame(self) -> Set<(int, int)> {
        Set::new(
            |cell: (int, int)|
                (self.shows_player() && cell == (4int, 2int)) || (self.shows_enemies() && cell.0
                    == 0 && 0 <= cell.1 < 4),
        )
    }

    /// The tick can be counted.
    pub open spec fn can_tick(self) -> bool {
        self.ticks < u32::MAX
    }

    /// The animation one tick later.
    pub open spec fn tick(self) -> StartAnimationView {
        StartAnimationView { ticks: self.ticks + 1 }
    }

    /// The phase that follows once the animation has run its 16 ticks.
    pub open spec fn next(self) -> Option<PhaseView> {
        if self.ticks < 16 {
            None
        } else {
            Some(PhaseView::Playing(PlayingView::fresh()))
        }
    }
}

impl View for StartAnimation {
    type V = StartAnimationView;

    closed spec fn view(&self) -> StartAnimationView {
        StartAnimationView { ticks: self.num_updates as nat }
    }
}

impl StartAnimation {
    /// The animation at its beginning.
    pub fn new() -> (animation: Self)
        ensures
            animation@.ticks == 0,
    {
        Self { num_updates: 0 }
    }

    /// Draw the animation's frame into the whole of `display_buffer`.
    pub fn display(&self, display_buffer: &mut BoolGrid)
        ensures
            lit_cells(*final(display_buffer)) == self@.frame(),
    {
        *display_buffer = [[false; 5]; 5];

        // Blink player.
        if self.num_updates % 2 == 0 || self.num_updates >= 4 {
            let row = DISPLAY_SIZE - 1;
            let col = DISPLAY_SIZE / 2;
            display_buffer[row as usize][col as usize] = true;
        }
        let ghost with_player = *display_buffer;

        if self.num_updates >= 8 {
            // Blink enemies.
            if self.num_updates % 2 == 0 || self.num_updates >= 12 {
                // 4 enemies.
                for col in 0..DISPLAY_SIZE - 1
                    invariant
                        forall|r: int, c: int|
                            0 <= r < 5 && 0 <= c < 5 ==> #[trigger] display_buffer[r][c] == (with_player[r][c]
                                || (r == 0 && c < col)),
                {
                    display_buffer[0][col as usize] = true;
                }
            }
        }
        assert(lit_cells(*display_buffer) =~= self@.frame());
    }

    /// How often to call `update`, in milliseconds.
    pub fn update_timer_ms(&self) -> (period: u32)
        ensures
            period == 250,
    {
        250
    }

    /// Advance the animation by one tick. Hands back a new game once the
    /// animation is over.
    pub fn update(&mut self) -> (next: Option<Phase>)
        requires
            old(self)@.can_tick(),
        ensures
            final(self)@ == old(self)@.tick(),
            next_view(next) == final(self)@.next(),
    {
        self.num_updates += 1;

        if self.num_updates < 16 {
            None
        } else {
            Some(Phase::Playing(Playing::new()))
        }
    }
}

} // verus!
