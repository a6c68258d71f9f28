use crate::buttons::ButtonAction;
use crate::display::BoolGrid;
use crate::display::lit_cells;
use loss_animation::LossAnimation;
use loss_animation::LossAnimationView;
use playing::Playing;
use playing::PlayingView;
use start_animation::StartAnimation;
use start_animation::StartAnimationView;
use vstd::prelude::*;
use win_animation::WinAnimation;
use win_animation::WinAnimationView;

pub mod loss_animation;
pub mod playing;
pub mod start_animation;
pub mod win_animation;

verus! {

/// How often to call Game::update, in microseconds.
//
// The code below depends on this being 1 millisecond.
pub const GAME_UPDATE_TIMER_US: u32 = 1_000;

/// The blinking that the animations share: on at every even tick, and
/// steadily on from the tick `steady_from`.
pub open spec fn blink_on(ticks: nat, steady_from: nat) -> bool {
    ticks % 2 == 0 || ticks >= steady_from
}

/// The phases of the game. Exactly one is live at a time.
pub enum Phase {
    StartAnimation(StartAnimation),
    Playing(Playing),
    LossAnimation(LossAnimation),
    WinAnimation(WinAnimation),
}

/// The phase that is live, with what it remembers.
pub enum PhaseView {
    StartAnimation(StartAnimationView),
    Playing(PlayingView),
    LossAnimation(LossAnimationView),
    WinAnimation(WinAnimationView),
}

impl View for Phase {
    type V = PhaseView;

    open spec fn view(&self) -> PhaseView {
        match self {
            Phase::StartAnimation(s) => PhaseView::StartAnimation(s@),
            Phase::Playing(p) => PhaseView::Playing(p@),
            Phase::LossAnimation(l) => PhaseView::LossAnimation(l@),
            Phase::WinAnimation(w) => PhaseView::WinAnimation(w@),
        }
    }
}

/// The view of the phase that an update hands back, if it hands one back.
pub open spec fn next_view(next: Option<Phase>) -> Option<PhaseView> {
    match next {
        Some(phase) => Some(phase@),
        None => None,
    }
}

impl PhaseView {
    /// The pixels that the phase shows.
    pub open spec fn frame(self) -> Set<(int, int)> {
        match self {
            PhaseView::StartAnimation(s) => s.frame(),
            PhaseView::Playing(p) => p.frame(),
            PhaseView::LossAnimation(l) => l.frame(),
            PhaseView::WinAnimation(w) => w.frame(),
        }
    }

    /// How often the phase is updated, in milliseconds.
    pub open spec fn period_ms(self) -> nat {
        match self {
            PhaseView::StartAnimation(_) => 250,
            PhaseView::Playing(_) => 500,
            PhaseView::LossAnimation(_) => 500,
            PhaseView::WinAnimation(_) => 50,
        }
    }

    /// Whether the phase can be shown.
    pub open spec fn can_display(self) -> bool {
        match self {
            PhaseView::StartAnimation(_) => true,
            PhaseView::Playing(p) => p.can_display(),
            PhaseView::LossAnimation(l) => l.can_display(),
            PhaseView::WinAnimation(w) => w.can_display(),
        }
    }

    /// Whether the phase can take its next tick.
    pub open spec fn can_tick(self) -> bool {
        match self {
            PhaseView::StartAnimation(s) => s.can_tick(),
            PhaseView::Playing(p) => p.can_tick(),
            PhaseView::LossAnimation(l) => l.can_tick(),
            PhaseView::WinAnimation(w) => w.can_tick(),
        }
    }

    /// The phase one tick later.
    pub open spec fn tick(self) -> PhaseView {
        match self {
            PhaseView::StartAnimation(s) => PhaseView::StartAnimation(s.tick()),
            PhaseView::Playing(p) => PhaseView::Playing(p.tick()),
            PhaseView::LossAnimation(l) => PhaseView::LossAnimation(l.tick()),
            PhaseView::WinAnimation(w) => PhaseView::WinAnimation(w.tick()),
        }
    }

    /// The phase that follows this one, if this one is over.
    pub open spec fn next(self) -> Option<PhaseView> {
        match self {
            PhaseView::StartAnimation(s) => s.next(),
            PhaseView::Playing(p) => p.next(),
            PhaseView::LossAnimation(l) => l.next(),
            PhaseView::WinAnimation(w) => w.next(),
        }
    }

    /// How many updates the phase has had.
    pub open spec fn ticks(self) -> nat {
        match self {
            PhaseView::StartAnimation(s) => s.ticks,
            PhaseView::Playing(p) => p.ticks,
            PhaseView::LossAnimation(l) => l.ticks,
            PhaseView::WinAnimation(w) => w.ticks,
        }
    }

    /// What holds of the phase of a running game: the phase is not over yet,
    /// and it can be shown and updated.
    pub open spec fn wf(self) -> bool {
        match self {
            PhaseView::StartAnimation(s) => s.ticks < 16,
            PhaseView::Playing(p) => p.wf(),
            PhaseView::LossAnimation(l) => l.ticks < 7 && l.snapshot.can_display(),
            PhaseView::WinAnimation(w) => w.ticks < 70 && w.snapshot.can_display(),
        }
    }
}

impl Phase {
    /// Draw the phase that is live into the whole of `display_buffer`.
    pub fn display(&self, display_buffer: &mut BoolGrid)
        requires
            self@.can_display(),
        ensures
            lit_cells(*final(display_buffer)) == self@.frame(),
    {
        match self {
            Phase::StartAnimation(s) => s.display(display_buffer),
            Phase::Playing(p) => p.display(display_buffer),
            Phase::LossAnimation(l) => l.display(display_buffer),
            Phase::WinAnimation(w) => w.display(display_buffer),
        }
    }

    /// How often to call `update`, in milliseconds. Never zero.
    pub fn update_timer_ms(&self) -> (period: u32)
        ensures
            period == self@.period_ms(),
            period > 0,
    {
        match self {
            Phase::StartAnimation(s) => s.update_timer_ms(),
            Phase::Playing(p) => p.update_timer_ms(),
            Phase::LossAnimation(l) => l.update_timer_ms(),
            Phase::WinAnimation(w) => w.update_timer_ms(),
        }
    }

    /// Advance the phase by one tick, and hand back the phase that follows
    /// where this one is over.
    pub fn update(&mut self) -> (next: Option<Phase>)
        requires
            old(self)@.can_tick(),
        ensures
            final(self)@ == old(self)@.tick(),
            next_view(next) == final(self)@.next(),
    {
        match self {
            Phase::StartAnimation(s) => s.update(),
            Phase::Playing(p) => p.update(),
            Phase::LossAnimation(l) => l.update(),
            Phase::WinAnimation(w) => w.update(),
        }
    }
}

/// The game: the phase that is live, and a count of the base ticks from which
/// each phase takes its own pace.
pub struct Game {
    phase: Phase,
    num_updates: u32,
}

/// The game: its phase, and the base ticks counted for it.
pub struct GameView {
    pub phase: PhaseView,
    /// The base ticks counted since the phase began.
    pub num_updates: nat,
}

impl GameView {
    /// The game as it begins: at the beginning of the start animation.
    pub open spec fn initial() -> GameView {
        GameView { phase: PhaseView::StartAnimation(StartAnimationView { ticks: 0 }), num_updates: 0 }
    }

    /// What holds of a running game: its phase is not over, and the count of
    /// base ticks has not run past the phase's next update.
    pub open spec fn wf(self) -> bool {
        &&& self.phase.wf()
        &&& match self.phase {
            PhaseView::StartAnimation(s) => self.num_updates <= 250 * (s.ticks + 1),
            PhaseView::Playing(p) => self.num_updates <= 500 * (p.ticks + 1),
            PhaseView::LossAnimation(l) => self.num_updates <= 500 * (l.ticks + 1),
            PhaseView::WinAnimation(w) => self.num_updates <= 50 * (w.ticks + 1),
        }
    }

    /// Whether the phase is updated at this base tick: at every multiple of
    /// its period.
    pub open spec fn update_is_due(self) -> bool {
        self.num_updates % self.phase.period_ms() == 0
    }

    /// The game one base tick later. Where the phase's update is due and ends
    /// the phase, the next phase takes its place and the count starts again.
    pub open spec fn step(self) -> GameView {
        if !self.update_is_due() {
            GameView { num_updates: self.num_updates + 1, ..self }
        } else {
            match self.phase.tick().next() {
                Some(next) => GameView { phase: next, num_updates: 1 },
                None => GameView { phase: self.phase.tick(), num_updates: self.num_updates + 1 },
            }
        }
    }

    /// The game after the player's action: only a game in play takes it.
    pub open spec fn act(self, action: ButtonAction) -> GameView {
        match self.phase {
            PhaseView::Playing(p) => GameView { phase: PhaseView::Playing(p.act(action)), ..self },
            _ => self,
        }
    }
}

impl View for Game {
    type V = GameView;

    closed spec fn view(&self) -> GameView {
        GameView { phase: self.phase@, num_updates: self.num_updates as nat }
    }
}

impl Game {
    /// A game at the beginning of its start animation.
    pub fn new() -> (game: Self)
        ensures
            game@ == GameView::initial(),
            game@.wf(),
    {
        Self { phase: Phase::StartAnimation(StartAnimation::new()), num_updates: 0 }
    }

    /// Draw the phase that is live into the whole of `display_buffer`.
    pub fn display(&self, display_buffer: &mut BoolGrid)
        requires
            self@.wf(),
        ensures
            lit_cells(*final(display_buffer)) == self@.phase.frame(),
    {
        self.phase.display(display_buffer);
    }

    /// Hand the player's action to the game in play. During an animation the
    /// action is dropped.
    pub fn player_action(&mut self, action: ButtonAction)
        requires
            old(self)@.wf(),
        ensures
            final(self)@ == old(self)@.act(action),
            final(self)@.wf(),
    {
        if let Phase::Playing(p) = &mut self.phase {
            proof {
                playing::lemma_act_keeps_wf(p@, action);
            }
            p.player_action(action);
        }
    }

    /// Count one base tick. You must call this every `GAME_UPDATE_TIMER_US`
    /// microseconds. The phase is updated at every multiple of its own period,
    /// and replaced where that update ends it.
    pub fn update(&mut self)
        requires
            old(self)@.wf(),
        ensures
            final(self)@ == old(self)@.step(),
            final(self)@.wf(),
    {
        proof {
            lemma_step_keeps_wf(self@);
        }
        if self.num_updates % self.phase.update_timer_ms() == 0 {
            if let Some(new_phase) = self.phase.update() {
                self.phase = new_phase;
                self.num_updates = 0;
            }
        }
        self.num_updates += 1;
    }
}

/// The start animation hands over to a new game at its tick 16, and not
/// before.
pub proof fn lemma_start_animation_ends_at_tick_16(animation: StartAnimationView)
    ensures
        animation.ticks + 1 < 16 ==> animation.tick().next() is None,
        animation.ticks + 1 >= 16 ==> animation.tick().next() == Some(
            PhaseView::Playing(PlayingView::fresh()),
        ),
{
}

/// A game with no enemy left is won at its next tick: the win animation
/// follows, and starts from the game as the tick left it.
pub proof fn lemma_no_enemies_left_wins(game: PlayingView)
    requires
        game.enemies == Set::<(int, int)>::empty(),
    ensures
        game.tick().next() == Some(
            PhaseView::WinAnimation(WinAnimationView { snapshot: game.tick(), ticks: 0 }),
        ),
{
    let after = game.tick();
    if game.enemies_move() {
        assert(playing::shifted(game.enemies, game.enemy_step().0, game.enemy_step().1)
            =~= Set::<(int, int)>::empty());
    }
    assert(after.enemies =~= Set::<(int, int)>::empty());
}

/// An enemy in the bottom row loses the game, whatever else is left.
pub proof fn lemma_landed_enemy_loses(game: PlayingView, col: int)
    requires
        0 <= col < 5,
        game.enemies.contains((4, col)),
    ensures
        game.next() == Some(
            PhaseView::LossAnimation(LossAnimationView { snapshot: game, ticks: 0 }),
        ),
{
    assert(game.enemies.contains((crate::display::DISPLAY_SIZE - 1, col)));
}

/// The loss animation hands back to the start animation at its tick 7, the
/// win animation at its tick 70, and neither before.
pub proof fn lemma_end_animations_hand_back(loss: LossAnimationView, win: WinAnimationView)
    ensures
        loss.tick().next() is Some <==> loss.ticks + 1 >= 7,
        win.tick().next() is Some <==> win.ticks + 1 >= 70,
        loss.tick().next() is Some ==> loss.tick().next() == Some(
            PhaseView::StartAnimation(StartAnimationView { ticks: 0 }),
        ),
        win.tick().next() is Some ==> win.tick().next() == Some(
            PhaseView::StartAnimation(StartAnimationView { ticks: 0 }),
        ),
{
}

/// A running game can take its next base tick, and is a running game after
/// it: no phase outlives its length, and no enemy ever leaves the display.
pub proof fn lemma_step_keeps_wf(game: GameView)
    requires
        game.wf(),
    ensures
        game.update_is_due() ==> game.phase.can_tick(),
        game.step().wf(),
{
    match game.phase {
        PhaseView::Playing(p) => {
            playing::lemma_formation_can_tick(p);
            playing::lemma_tick_keeps_formation(p);
        },
        _ => {},
    }
    if game.update_is_due() && game.phase.tick().next() is Some {
        playing::lemma_initial_tick();
    }
}

/// The player's actions keep a running game running.
pub proof fn lemma_act_keeps_wf(game: GameView, action: ButtonAction)
    requires
        game.wf(),
    ensures
        game.act(action).wf(),
{
    match game.phase {
        PhaseView::Playing(p) => {
            playing::lemma_act_keeps_wf(p, action);
        },
        _ => {},
    }
}

} // verus!
