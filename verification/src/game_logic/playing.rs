use super::loss_animation::LossAnimation;
use super::loss_animation::LossAnimationView;
use super::next_view;
use super::win_animation::WinAnimation;
use super::win_animation::WinAnimationView;
use super::Phase;
use super::PhaseView;
use crate::buttons::ButtonAction;
use crate::display::lit_cells;
use crate::display::on_board;
use crate::display::BoolGrid;
use crate::display::DISPLAY_SIZE;
use vstd::prelude::*;

verus! {

/// The game while it is played.
#[derive(Debug, Clone, Copy)]
pub struct Playing {
    pub player_x: i8,
    pub bullets: BoolGrid,
    pub enemies: BoolGrid,
    num_updates: u32,
}

/// The game while it is played: the player's column in the bottom row, the
/// cells that hold a bullet, the cells that hold an enemy, and how many
/// updates the game has had.
pub struct PlayingView {
    pub player_x: int,
    pub bullets: Set<(int, int)>,
    pub enemies: Set<(int, int)>,
    pub ticks: nat,
}

/// `cells`, each moved by `drow` rows and `dcol` columns.
pub open spec fn shifted(cells: Set<(int, int)>, drow: int, dcol: int) -> Set<(int, int)> {
    Set::new(|cell: (int, int)| cells.contains((cell.0 - drow, cell.1 - dcol)))
}

/// `cells`, each moved up one row; those that leave the top row are gone.
pub open spec fn risen(cells: Set<(int, int)>) -> Set<(int, int)> {
    Set::new(|cell: (int, int)| on_board(cell.0, cell.1) && cells.contains((cell.0 + 1, cell.1)))
}

/// The column nearest to `col` that the display has.
pub open spec fn clamp_column(col: int) -> int {
    if col < 0 {
        0
    } else if col > DISPLAY_SIZE - 1 {
        DISPLAY_SIZE - 1
    } else {
        col
    }
}

/// The row from which the player fires: the one above the player.
pub open spec fn firing_row() -> int {
    DISPLAY_SIZE - 2
}

impl PlayingView {
    /// The game before its first update: the player in the middle, no
    /// bullets, and four enemies at the left of the top row.
    pub open spec fn initial() -> PlayingView {
        PlayingView {
            player_x: 2,
            bullets: Set::empty(),
            enemies: Set::new(|cell: (int, int)| cell.0 == 0 && 0 <= cell.1 < 4),
            ticks: 0,
        }
    }

    /// The game as it begins, after its first update: the enemies have moved
    /// to the right of the top row.
    pub open spec fn fresh() -> PlayingView {
        PlayingView {
            player_x: 2,
            bullets: Set::empty(),
            enemies: Set::new(|cell: (int, int)| cell.0 == 0 && 1 <= cell.1 < 5),
            ticks: 1,
        }
    }

    /// The pixels that are on: the bullets, the enemies, and the player in
    /// the bottom row.
    pub open spec fn frame(self) -> Set<(int, int)> {
        self.bullets.union(self.enemies).insert((DISPLAY_SIZE - 1, self.player_x))
    }

    /// The player stands in one of the display's columns.
    pub open spec fn can_display(self) -> bool {
        0 <= self.player_x < DISPLAY_SIZE
    }

    /// The game after the player's action. Firing at an enemy right above the
    /// player destroys it at once; otherwise a bullet appears there.
    pub open spec fn act(self, action: ButtonAction) -> PlayingView {
        match action {
            ButtonAction::Fire => {
                let target = (firing_row(), self.player_x);
                if self.enemies.contains(target) {
                    PlayingView { enemies: self.enemies.remove(target), ..self }
                } else {
                    PlayingView { bullets: self.bullets.insert(target), ..self }
                }
            },
            ButtonAction::Left => PlayingView { player_x: clamp_column(self.player_x - 1), ..self },
            ButtonAction::Right => PlayingView {
                player_x: clamp_column(self.player_x + 1),
                ..self
            },
        }
    }

    /// Enemies move every other tick.
    pub open spec fn enemies_move(self) -> bool {
        self.ticks % 2 == 0
    }

    /// By how many rows and columns the enemies move at this tick, where they
    /// move: right, down, down, left, and so on.
    pub open spec fn enemy_step(self) -> (int, int) {
        let cycle = (self.ticks / 2) % 4;
        if cycle == 0 {
            (0, 1)
        } else if cycle == 3 {
            (0, -1)
        } else {
            (1, 0)
        }
    }

    /// No enemy leaves the display at this tick, and the tick can be counted.
    pub open spec fn can_tick(self) -> bool {
        &&& self.ticks < u32::MAX
        &&& self.enemies_move() ==> forall|cell: (int, int)| #[trigger]
            self.enemies.contains(cell) ==> on_board(
                cell.0 + self.enemy_step().0,
                cell.1 + self.enemy_step().1,
            )
    }

    /// Where a bullet and an enemy share a cell, both are destroyed.
    pub open spec fn after_collisions(self) -> PlayingView {
        PlayingView {
            bullets: self.bullets.difference(self.enemies),
            enemies: self.enemies.difference(self.bullets),
            ..self
        }
    }

    /// The first part of a tick: the enemies move, if it is their turn, and
    /// collide with the bullets.
    pub open spec fn after_enemy_move(self) -> PlayingView {
        if self.enemies_move() {
            PlayingView {
                enemies: shifted(self.enemies, self.enemy_step().0, self.enemy_step().1),
                ..self
            }.after_collisions()
        } else {
            self
        }
    }

    /// The second part of a tick: the bullets move up and collide with the
    /// enemies.
    pub open spec fn after_bullet_move(self) -> PlayingView {
        PlayingView { bullets: risen(self.bullets), ..self }.after_collisions()
    }

    /// The game one tick later.
    pub open spec fn tick(self) -> PlayingView {
        let moved = self.after_enemy_move().after_bullet_move();
        PlayingView { ticks: self.ticks + 1, ..moved }
    }

    /// An enemy has reached the bottom row.
    pub open spec fn lost(self) -> bool {
        exists|col: int| 0 <= col < DISPLAY_SIZE && #[trigger] self.enemies.contains((DISPLAY_SIZE - 1, col))
    }

    /// No enemy is left.
    pub open spec fn won(self) -> bool {
        self.enemies == Set::<(int, int)>::empty()
    }

    /// The phase that follows, if the game is over: the loss animation where
    /// an enemy has reached the bottom row, else the win animation where no
    /// enemy is left. Either one starts from the game as it stands.
    pub open spec fn next(self) -> Option<PhaseView> {
        if self.lost() {
            Some(PhaseView::LossAnimation(LossAnimationView { snapshot: self, ticks: 0 }))
        } else if self.won() {
            Some(PhaseView::WinAnimation(WinAnimationView { snapshot: self, ticks: 0 }))
        } else {
            None
        }
    }

    /// How many moves the enemies have made.
    pub open spec fn enemy_moves(self) -> int {
        (self.ticks as int + 1) / 2
    }

    /// The row that the enemies are in: of every four moves, the second and
    /// the third go down.
    pub open spec fn formation_row(self) -> int {
        let moves = self.enemy_moves();
        2 * (moves / 4) + if moves % 4 == 2 {
            1int
        } else if moves % 4 == 3 {
            2int
        } else {
            0int
        }
    }

    /// The leftmost column that the enemies can be in: of every four moves,
    /// the first goes right and the fourth goes back left.
    pub open spec fn formation_left(self) -> int {
        if self.enemy_moves() % 4 == 0 {
            0
        } else {
            1
        }
    }

    /// The enemies that are left stand where the four enemies of the
    /// beginning have moved to.
    pub open spec fn in_formation(self) -> bool {
        forall|cell: (int, int)| #[trigger]
            self.enemies.contains(cell) ==> cell.0 == self.formation_row() && self.formation_left()
                <= cell.1 < self.formation_left() + 4
    }

    /// What holds of a game in play: the player stands in one of the
    /// display's columns, the bullets are on the display, and the enemies are
    /// in formation above the bottom row.
    pub open spec fn wf(self) -> bool {
        &&& self.can_display()
        &&& self.ticks <= 12
        &&& self.in_formation()
        &&& forall|cell: (int, int)| #[trigger] self.bullets.contains(cell) ==> on_board(cell.0, cell.1)
    }
}

impl View for Playing {
    type V = PlayingView;

    closed spec fn view(&self) -> PlayingView {
        PlayingView {
            player_x: self.player_x as int,
            bullets: lit_cells(self.bullets),
            enemies: lit_cells(self.enemies),
            ticks: self.num_updates as nat,
        }
    }
}

impl Playing {
    /// A game as it begins: its first update has been made.
    pub fn new() -> (playing: Self)
        ensures
            playing@ == PlayingView::fresh(),
            playing@ == PlayingView::initial().tick(),
            playing@.wf(),
    {
        let mut this = Self {
            player_x: DISPLAY_SIZE / 2,
            bullets: [[false; 5]; 5],
            enemies: [
                [true, true, true, true, false],  // 4 enemies
                [false, false, false, false, false],
                [false, false, false, false, false],
                [false, false, false, false, false],
                [false, false, false, false, false],
            ],
            num_updates: 0,
        };
        proof {
            assert(this@.bullets =~= PlayingView::initial().bullets);
            assert(this@.enemies =~= PlayingView::initial().enemies);
            lemma_initial_tick();
        }

        // Move the enemies immediately when the game starts. This gives the
        // player a visual cue that they can now act.
        let outcome = this.update();
        assert(outcome is None);

        this
    }

    /// Whether an enemy stands in the cell.
    pub fn enemy_at(&self, row: usize, col: usize) -> (present: bool)
        requires
            on_board(row as int, col as int),
        ensures
            present == self@.enemies.contains((row as int, col as int)),
    {
        self.enemies[row][col]
    }

    /// Perform an action in response to player input.
    pub fn player_action(&mut self, action: ButtonAction)
        requires
            old(self)@.can_display(),
        ensures
            final(self)@ == old(self)@.act(action),
    {
        match action {
            ButtonAction::Fire => {
                let row = DISPLAY_SIZE as usize - 2;
                let col = self.player_x as usize;

                if self.enemies[row][col] {
                    // Edge-case: the bullet immediately hits an enemy.
                    self.enemies[row][col] = false;
                } else {
                    // Fire a bullet.
                    self.bullets[row][col] = true;
                }
            },
            ButtonAction::Left => {
                self.player_x -= 1;
            },
            ButtonAction::Right => {
                self.player_x += 1;
            },
        }
        if self.player_x < 0 {
            self.player_x = 0;
        } else if self.player_x > DISPLAY_SIZE - 1 {
            self.player_x = DISPLAY_SIZE - 1;
        }
        assert(self@.bullets =~= old(self)@.act(action).bullets);
        assert(self@.enemies =~= old(self)@.act(action).enemies);
    }

    /// Draw the game into the whole of `display_buffer`.
    pub fn display(&self, display_buffer: &mut BoolGrid)
        requires
            self@.can_display(),
        ensures
            lit_cells(*final(display_buffer)) == self@.frame(),
    {
        *display_buffer = [[false; 5]; 5];

        for row in 0..DISPLAY_SIZE as usize
            invariant
                forall|r: int, c: int|
                    0 <= r < 5 && 0 <= c < 5 ==> display_buffer[r][c] == (r < row && (
                    self.bullets[r][c] || self.enemies[r][c])),
        {
            for col in 0..DISPLAY_SIZE as usize
                invariant
                    row < 5,
                    forall|r: int, c: int|
                        0 <= r < 5 && 0 <= c < 5 ==> display_buffer[r][c] == ((r < row || (r == row
                            && c < col)) && (self.bullets[r][c] || self.enemies[r][c])),
            {
                if self.bullets[row][col] || self.enemies[row][col] {
                    display_buffer[row][col] = true;
                }
            }
        }

        display_buffer[DISPLAY_SIZE as usize - 1][self.player_x as usize] = true;
        assert(lit_cells(*display_buffer) =~= self@.frame());
    }

    /// How often to call `update`, in milliseconds.
    pub fn update_timer_ms(&self) -> (period: u32)
        ensures
            period == 500,
    {
        500
    }

    /// Advance the game by one tick: the enemies move, at every other tick,
    /// then the bullets. Hands back the animation that follows where the game
    /// is over.
    pub fn update(&mut self) -> (next: Option<Phase>)
        requires
            old(self)@.can_tick(),
        ensures
            final(self)@ == old(self)@.tick(),
            next_view(next) == final(self)@.next(),
    {
        self.move_enemies();
        self.move_bullets();
        self.num_updates += 1;
        self.check_gameover()
    }

    fn move_enemies(&mut self)
        requires
            old(self)@.can_tick(),
        ensures
            final(self)@ == old(self)@.after_enemy_move(),
    {
        // Enemies move every other tick.
        if self.num_updates % 2 != 0 {
            return ;
        }
        let cycle = self.num_updates / 2;
        let step: (i8, i8) = match cycle % 4 {
            0 => (0, 1),  // right
            3 => (0, -1),  // left
            _ => (1, 0),  // down
        };
        let drow: i8 = step.0;
        let dcol: i8 = step.1;

        let mut out: BoolGrid = [[false; 5]; 5];
        for row in 0..DISPLAY_SIZE
            invariant
                *self == *old(self),
                self@.can_tick(),
                self@.enemies_move(),
                (drow as int, dcol as int) == self@.enemy_step(),
                forall|r: int, c: int|
                    0 <= r < 5 && 0 <= c < 5 ==> out[r][c] == (on_board(r - drow, c - dcol) && r
                        - drow < row && self.enemies[r - drow][c - dcol]),
        {
            for col in 0..DISPLAY_SIZE
                invariant
                    0 <= row < 5,
                    *self == *old(self),
                    self@.can_tick(),
                    self@.enemies_move(),
                    (drow as int, dcol as int) == self@.enemy_step(),
                    forall|r: int, c: int|
                        0 <= r < 5 && 0 <= c < 5 ==> out[r][c] == (on_board(r - drow, c - dcol) && (
                        r - drow < row || (r - drow == row && c - dcol < col))
                            && self.enemies[r - drow][c - dcol]),
            {
                if self.enemies[row as usize][col as usize] {
                    assert(self@.enemies.contains((row as int, col as int)));
                    let r = row + drow;
                    let c = col + dcol;
                    assert(on_board(r as int, c as int));
                    out[r as usize][c as usize] = true;
                }
            }
        }
        self.enemies = out;
        assert(self@.enemies =~= shifted(old(self)@.enemies, drow as int, dcol as int));

        self.check_collision();
    }

    fn move_bullets(&mut self)
        ensures
            final(self)@ == old(self)@.after_bullet_move(),
    {
        // Bullets in the top row simply disappear.
        for col in 0..DISPLAY_SIZE as usize
            invariant
                self.player_x == old(self).player_x,
                self.enemies == old(self).enemies,
                self.num_updates == old(self).num_updates,
                forall|r: int, c: int|
                    0 <= r < 5 && 0 <= c < 5 ==> self.bullets[r][c] == (old(self).bullets[r][c] && !(
                    r == 0 && c < col)),
        {
            self.bullets[0][col] = false;
        }

        for row in 1..DISPLAY_SIZE as usize
            invariant
                self.player_x == old(self).player_x,
                self.enemies == old(self).enemies,
                self.num_updates == old(self).num_updates,
                forall|r: int, c: int|
                    0 <= r < 5 && 0 <= c < 5 ==> #[trigger] self.bullets[r][c] == partly_risen(
                        old(self).bullets,
                        row as int,
                        0,
                        r,
                        c,
                    ),
        {
            for col in 0..DISPLAY_SIZE as usize
                invariant
                    1 <= row < 5,
                    self.player_x == old(self).player_x,
                    self.enemies == old(self).enemies,
                    self.num_updates == old(self).num_updates,
                    forall|r: int, c: int|
                        0 <= r < 5 && 0 <= c < 5 ==> #[trigger] self.bullets[r][c] == partly_risen(
                            old(self).bullets,
                            row as int,
                            col as int,
                            r,
                            c,
                        ),
            {
                if self.bullets[row][col] {
                    self.bullets[row][col] = false;
                    self.bullets[row - 1][col] = true;
                }
            }
        }
        assert(self@.bullets =~= risen(old(self)@.bullets));

        self.check_collision();
    }

    /// If a bullet overlaps an enemy, both are destroyed.
    fn check_collision(&mut self)
        ensures
            final(self)@ == old(self)@.after_collisions(),
    {
        for row in 0..DISPLAY_SIZE as usize
            invariant
                self.player_x == old(self).player_x,
                self.num_updates == old(self).num_updates,
                forall|r: int, c: int|
                    0 <= r < 5 && 0 <= c < 5 ==> self.bullets[r][c] == (old(self).bullets[r][c] && !(
                    r < row && old(self).enemies[r][c])) && self.enemies[r][c] == (
                    old(self).enemies[r][c] && !(r < row && old(self).bullets[r][c])),
        {
            for col in 0..DISPLAY_SIZE as usize
                invariant
                    row < 5,
                    self.player_x == old(self).player_x,
                    self.num_updates == old(self).num_updates,
                    forall|r: int, c: int|
                        0 <= r < 5 && 0 <= c < 5 ==> self.bullets[r][c] == (old(self).bullets[r][c]
                            && !((r < row || (r == row && c < col)) && old(self).enemies[r][c]))
                            && self.enemies[r][c] == (old(self).enemies[r][c] && !((r < row || (r
                            == row && c < col)) && old(self).bullets[r][c])),
            {
                if self.bullets[row][col] && self.enemies[row][col] {
                    self.bullets[row][col] = false;
                    self.enemies[row][col] = false;
                }
            }
        }
        assert(self@.bullets =~= old(self)@.after_collisions().bullets);
        assert(self@.enemies =~= old(self)@.after_collisions().enemies);
    }

    fn check_gameover(&self) -> (next: Option<Phase>)
        ensures
            next_view(next) == self@.next(),
    {
        // Did the enemies reach the bottom?
        for col in 0..DISPLAY_SIZE as usize
            invariant
                forall|c: int| 0 <= c < col ==> !self.enemies[4][c],
        {
            if self.enemies[DISPLAY_SIZE as usize - 1][col] {
                assert(self@.enemies.contains((DISPLAY_SIZE - 1, col as int)));
                return Some(Phase::LossAnimation(LossAnimation::new(*self)));
            }
        }
        assert(!self@.lost());

        // Are there any enemies remaining?
        for row in 0..DISPLAY_SIZE as usize
            invariant
                !self@.lost(),
                forall|r: int, c: int| 0 <= r < row && 0 <= c < 5 ==> !self.enemies[r][c],
        {
            for col in 0..DISPLAY_SIZE as usize
                invariant
                    row < 5,
                    !self@.lost(),
                    forall|r: int, c: int|
                        0 <= r < 5 && 0 <= c < 5 && (r < row || (r == row && c < col))
                            ==> !self.enemies[r][c],
            {
                if self.enemies[row][col] {
                    assert(self@.enemies.contains((row as int, col as int)));
                    return None;
                }
            }
        }
        assert(self@.enemies =~= Set::<(int, int)>::empty());

        Some(Phase::WinAnimation(WinAnimation::new(*self)))
    }
}

/// The bullets while they are moved up, row by row from the top: the rows
/// above `row` hold what stood below them, the cells of `row` before `col`
/// have been moved up into the row above, and the rest stands as it stood.
spec fn partly_risen(bullets: BoolGrid, row: int, col: int, r: int, c: int) -> bool {
    if r + 1 < row {
        bullets[r + 1][c]
    } else if r + 1 == row {
        c < col && bullets[row][c]
    } else if r == row {
        c >= col && bullets[r][c]
    } else {
        bullets[r][c]
    }
}

/// Whether `(row, col)` is a cell of the display.
pub fn in_bounds(row: i8, col: i8) -> (inside: bool)
    ensures
        inside == on_board(row as int, col as int),
{
    let row = 0 <= row && row < DISPLAY_SIZE;
    let col = 0 <= col && col < DISPLAY_SIZE;
    row && col
}

/// The first update of a game moves the enemies to the right and leaves the
/// game in play.
pub proof fn lemma_initial_tick()
    ensures
        PlayingView::initial().can_tick(),
        PlayingView::initial().tick() == PlayingView::fresh(),
        PlayingView::fresh().next() is None,
        PlayingView::fresh().wf(),
{
    let start = PlayingView::initial();
    let fresh = PlayingView::fresh();
    assert(start.enemy_step() == (0int, 1int));
    assert(start.tick().enemies =~= fresh.enemies);
    assert(start.tick().bullets =~= fresh.bullets);
    assert(fresh.enemies.contains((0, 1)));
    assert(fresh.formation_row() == 0);
}

/// Firing where no enemy stands right above the player puts a bullet there,
/// and only there.
pub proof fn lemma_fire_spawns_bullet(game: PlayingView)
    requires
        !game.enemies.contains((firing_row(), game.player_x)),
    ensures
        game.act(ButtonAction::Fire).bullets == game.bullets.insert((firing_row(), game.player_x)),
        game.act(ButtonAction::Fire).enemies == game.enemies,
{
}

/// A tick moves a bullet up one row, unless it meets an enemy: for a bullet
/// below the top row that no enemy has just moved onto, the cell above it
/// holds the bullet after the tick where no enemy stood there once the
/// enemies had moved, and neither a bullet nor an enemy where one did.
pub proof fn lemma_bullet_rises_or_collides(game: PlayingView, row: int, col: int)
    requires
        on_board(row, col),
        row >= 1,
        game.after_enemy_move().bullets.contains((row, col)),
    ensures
        game.tick().bullets.contains((row - 1, col)) == !game.after_enemy_move().enemies.contains(
            (row - 1, col),
        ),
        !game.tick().enemies.contains((row - 1, col)),
{
}

/// A game in play can take its next tick: the formation keeps the enemies
/// on the display.
pub proof fn lemma_formation_can_tick(game: PlayingView)
    requires
        game.wf(),
    ensures
        game.can_tick(),
{
}

/// A tick keeps the enemies in formation. Where the game is not over after
/// it, the game is in play as before; where it is over, it can still be
/// shown.
pub proof fn lemma_tick_keeps_formation(game: PlayingView)
    requires
        game.wf(),
    ensures
        game.tick().in_formation(),
        game.tick().can_display(),
        game.tick().next() is None ==> game.tick().wf(),
{
    let after = game.tick();
    assert forall|cell: (int, int)| #[trigger] after.enemies.contains(cell) implies cell.0
        == after.formation_row() && after.formation_left() <= cell.1 < after.formation_left()
        + 4 by {
        if game.enemies_move() {
            let from = (cell.0 - game.enemy_step().0, cell.1 - game.enemy_step().1);
            assert(game.enemies.contains(from));
        } else {
            assert(game.enemies.contains(cell));
        }
    }
    if after.next() is None {
        assert(!after.won());
        if forall|cell: (int, int)| !after.enemies.contains(cell) {
            assert(after.enemies =~= Set::<(int, int)>::empty());
        }
        let cell = choose|cell: (int, int)| after.enemies.contains(cell);
        assert(after.enemies.contains(cell));
        assert(!after.enemies.contains((DISPLAY_SIZE - 1, cell.1)));
    }
}

/// The player's actions keep a game in play: the player stays in one of the
/// display's columns, a bullet appears on the display only, and no enemy
/// leaves the formation.
pub proof fn lemma_act_keeps_wf(game: PlayingView, action: ButtonAction)
    requires
        game.wf(),
    ensures
        game.act(action).wf(),
{
}

} // verus!
