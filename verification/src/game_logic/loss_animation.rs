use super::blink_on;
use super::next_view;
use super::playing::Playing;
use super::playing::PlayingView;
use super::start_animation::StartAnimation;
use super::start_animation::StartAnimationView;
use super::Phase;
use super::PhaseView;
use crate::display::lit_cells;
use crate::display::BoolGrid;
use crate::display::DISPLAY_SIZE;
use vstd::prelude::*;

verus! {

/// The animation after a lost game: the enemies that reached the bottom row
/// blink, then the screen goes blank.
pub struct LossAnimation {
    game_state: Playing,
    num_updates: u32,
}

/// What the loss animation remembers.
pub struct LossAnimationView {
    /// The game as it stood when it was lost.
    pub snapshot: PlayingView,
    /// How many updates the animation has had.
    pub ticks: nat,
}

impl LossAnimationView {
    /// Whether the animation still shows the game at this tick.
    pub open spec fn shows_game(self) -> bool {
        self.ticks < 6
    }

    /// The enemies in the bottom row.
    pub open spec fn landed(self) -> Set<(int, int)> {
        Set::new(|cell: (int, int)| cell.0 == DISPLAY_SIZE - 1 && self.snapshot.enemies.contains(cell))
    }

    /// The pixels that are on: the lost game, without the enemies of the
    /// bottom row while they blink off, and nothing at the end.
    pub open spec fn frame(self) -> Set<(int, int)> {
        if !self.shows_game() {
            Set::empty()
        } else if blink_on(self.ticks, 4) {
            self.snapshot.frame()
        } else {
            self.snapshot.frame().difference(self.landed())
        }
    }

    /// The lost game can be shown for as long as the animation shows it.
    pub open spec fn can_display(self) -> bool {
        self.shows_game() ==> self.snapshot.can_display()
    }

    /// The tick can be counted.
    pub open spec fn can_tick(self) -> bool {
        self.ticks < u32::MAX
    }

    /// The animation one tick later.
    pub open spec fn tick(self) -> LossAnimationView {
        LossAnimationView { ticks: self.ticks + 1, ..self }
    }

    /// The phase that follows once the animation has run its 7 ticks.
    pub open spec fn next(self) -> Option<PhaseView> {
        if self.ticks < 7 {
            None
        } else {
            Some(PhaseView::StartAnimation(StartAnimationView { ticks: 0 }))
        }
    }
}

impl View for LossAnimation {
    type V = LossAnimationView;

    closed spec fn view(&self) -> LossAnimationView {
        LossAnimationView { snapshot: self.game_state@, ticks: self.num_updates as nat }
    }
}

impl LossAnimation {
    /// The animation at its beginning, for the game as it was lost.
    pub fn new(game_state: Playing) -> (animation: Self)
        ensures
            animation@ == (LossAnimationView { snapshot: game_state@, ticks: 0 }),
    {
        Self { game_state, num_updates: 0 }
    }

    /// Draw the animation's frame into the whole of `display_buffer`.
    pub fn display(&self, display_buffer: &mut BoolGrid)
        requires
            self@.can_display(),
        ensures
            lit_cells(*final(display_buffer)) == self@.frame(),
    {
        *display_buffer = [[false; 5]; 5];

        // Blank screen briefly before restarting.
        if self.num_updates >= 6 {
            assert(lit_cells(*display_buffer) =~= self@.frame());
            return ;
        }
        self.game_state.display(display_buffer);
        let ghost game = *display_buffer;

        // Blink enemies in the bottom row.
        let show = self.num_updates % 2 == 0 || self.num_updates >= 4;
        for col in 0..DISPLAY_SIZE as usize
            invariant
                lit_cells(game) == self.game_state@.frame(),
                forall|r: int, c: int|
                    0 <= r < 5 && 0 <= c < 5 ==> #[trigger] display_buffer[r][c] == (if r == 4 && c < col
                        && self.game_state@.enemies.contains((r, c)) {
                        show
                    } else {
                        game[r][c]
                    }),
        {
            let row = DISPLAY_SIZE as usize - 1;
            if self.game_state.enemy_at(row, col) {
                display_buffer[row][col] = show;
            }
        }
        proof {
            let frame = self.game_state@.frame();
            assert forall|cell: (int, int)|
                lit_cells(*display_buffer).contains(cell) == self@.frame().contains(cell) by {
                assert(lit_cells(game).contains(cell) == frame.contains(cell));
                if self.game_state@.enemies.contains(cell) {
                    assert(frame.contains(cell));
                }
            }
            assert(lit_cells(*display_buffer) =~= self@.frame());
        }
    }

    /// How often to call `update`, in milliseconds.
    pub fn update_timer_ms(&self) -> (period: u32)
        ensures
            period == 500,
    {
        500
    }

    /// Advance the animation by one tick. Hands back the start animation once
    /// this one is over.
    pub fn update(&mut self) -> (next: Option<Phase>)
        requires
            old(self)@.can_tick(),
        ensures
            final(self)@ == old(self)@.tick(),
            next_view(next) == final(self)@.next(),
    {
        self.num_updates += 1;

        if self.num_updates < 7 {
            None
        } else {
            Some(Phase::StartAnimation(StartAnimation::new()))
        }
    }
}

} // verus!
