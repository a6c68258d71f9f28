use invaders_core::buttons::ButtonAction;
use invaders_core::display::BoolGrid;
use invaders_core::game_logic::loss_animation::LossAnimation;
use invaders_core::game_logic::playing::in_bounds;
use invaders_core::game_logic::playing::Playing;
use invaders_core::game_logic::start_animation::StartAnimation;
use invaders_core::game_logic::win_animation::WinAnimation;
use invaders_core::game_logic::Game;
use invaders_core::game_logic::Phase;
use invaders_core::game_logic::GAME_UPDATE_TIMER_US;

const BLANK: BoolGrid = [[false; 5]; 5];

/// The grid in which exactly `cells` are set, each given as (row, column).
fn grid(cells: &[(usize, usize)]) -> BoolGrid {
    let mut grid = BLANK;
    for &(row, col) in cells {
        grid[row][col] = true;
    }
    grid
}

/// A buffer that holds something else than any frame of the game.
fn scribbled() -> BoolGrid {
    [[true; 5]; 5]
}

fn shown_by_game(game: &Game) -> BoolGrid {
    let mut buffer = scribbled();
    game.display(&mut buffer);
    buffer
}

fn shown_by_playing(playing: &Playing) -> BoolGrid {
    let mut buffer = scribbled();
    playing.display(&mut buffer);
    buffer
}

/// A game in play that has had `updates` updates since it began.
fn playing_after(updates: u32) -> Playing {
    let mut playing = Playing::new();
    for _ in 0..updates {
        assert!(playing.update().is_none());
    }
    playing
}

fn run(game: &mut Game, updates: u32) {
    for _ in 0..updates {
        game.update();
    }
}

#[test]
fn game_tick_is_a_millisecond() {
    assert_eq!(GAME_UPDATE_TIMER_US, 1_000);
}

#[test]
fn in_bounds_is_the_display() {
    assert!(in_bounds(0, 0));
    assert!(in_bounds(4, 4));
    assert!(in_bounds(2, 3));
    assert!(!in_bounds(-1, 0));
    assert!(!in_bounds(0, -1));
    assert!(!in_bounds(5, 0));
    assert!(!in_bounds(0, 5));
    assert!(!in_bounds(i8::MIN, i8::MAX));
}

#[test]
fn update_periods_of_the_phases() {
    let playing = Playing::new();
    assert_eq!(StartAnimation::new().update_timer_ms(), 250);
    assert_eq!(playing.update_timer_ms(), 500);
    assert_eq!(LossAnimation::new(playing).update_timer_ms(), 500);
    assert_eq!(WinAnimation::new(playing).update_timer_ms(), 50);
    assert_eq!(Phase::StartAnimation(StartAnimation::new()).update_timer_ms(), 250);
    assert_eq!(Phase::Playing(playing).update_timer_ms(), 500);
    assert_eq!(Phase::LossAnimation(LossAnimation::new(playing)).update_timer_ms(), 500);
    assert_eq!(Phase::WinAnimation(WinAnimation::new(playing)).update_timer_ms(), 50);
}

#[test]
fn start_animation_blinks_player_then_enemies() {
    let player = (4, 2);
    let enemies = [(0, 0), (0, 1), (0, 2), (0, 3)];
    let mut animation = StartAnimation::new();
    for tick in 0..16 {
        let mut expected = BLANK;
        if tick % 2 == 0 || tick >= 4 {
            expected[player.0][player.1] = true;
        }
        if tick >= 8 && (tick % 2 == 0 || tick >= 12) {
            for (row, col) in enemies {
                expected[row][col] = true;
            }
        }
        let mut buffer = scribbled();
        animation.display(&mut buffer);
        assert_eq!(buffer, expected, "at tick {}", tick);
        let next = animation.update();
        assert_eq!(next.is_some(), tick == 15);
    }
}

#[test]
fn start_animation_frames_by_hand() {
    let mut animation = StartAnimation::new();
    let mut frames = Vec::new();
    for _ in 0..13 {
        let mut buffer = scribbled();
        animation.display(&mut buffer);
        frames.push(buffer);
        animation.update();
    }
    assert_eq!(frames[0], grid(&[(4, 2)]));
    assert_eq!(frames[1], BLANK);
    assert_eq!(frames[3], BLANK);
    assert_eq!(frames[5], grid(&[(4, 2)]));
    assert_eq!(frames[8], grid(&[(4, 2), (0, 0), (0, 1), (0, 2), (0, 3)]));
    assert_eq!(frames[9], grid(&[(4, 2)]));
    assert_eq!(frames[11], grid(&[(4, 2)]));
    assert_eq!(frames[12], grid(&[(4, 2), (0, 0), (0, 1), (0, 2), (0, 3)]));
}

#[test]
fn start_animation_hands_over_to_playing_at_tick_16() {
    let mut animation = StartAnimation::new();
    for _ in 0..15 {
        assert!(animation.update().is_none());
    }
    match animation.update() {
        Some(Phase::Playing(playing)) => {
            assert_eq!(playing.player_x, 2);
            assert_eq!(playing.enemies, grid(&[(0, 1), (0, 2), (0, 3), (0, 4)]));
            assert_eq!(playing.bullets, BLANK);
        }
        _ => panic!("the start animation did not hand over to the game"),
    }
}

#[test]
fn new_game_has_its_enemies_moved_right() {
    let playing = Playing::new();
    assert_eq!(playing.player_x, 2);
    assert_eq!(playing.bullets, BLANK);
    assert_eq!(playing.enemies, grid(&[(0, 1), (0, 2), (0, 3), (0, 4)]));
    assert_eq!(shown_by_playing(&playing), grid(&[(0, 1), (0, 2), (0, 3), (0, 4), (4, 2)]));
    assert!(playing.enemy_at(0, 4));
    assert!(!playing.enemy_at(0, 0));
}

#[test]
fn firing_spawns_a_bullet_that_rises() {
    let mut playing = Playing::new();
    playing.player_action(ButtonAction::Fire);
    assert_eq!(playing.bullets, grid(&[(3, 2)]));
    assert_eq!(playing.enemies, grid(&[(0, 1), (0, 2), (0, 3), (0, 4)]));
    assert_eq!(
        shown_by_playing(&playing),
        grid(&[(0, 1), (0, 2), (0, 3), (0, 4), (3, 2), (4, 2)])
    );
    assert!(playing.update().is_none());
    assert_eq!(playing.bullets, grid(&[(2, 2)]));
    assert_eq!(playing.enemies, grid(&[(0, 1), (0, 2), (0, 3), (0, 4)]));
}

#[test]
fn bullet_and_enemy_in_one_cell_both_vanish() {
    let mut playing = playing_after(3);
    assert_eq!(playing.enemies, grid(&[(1, 1), (1, 2), (1, 3), (1, 4)]));
    playing.player_action(ButtonAction::Fire);
    assert_eq!(playing.bullets, grid(&[(3, 2)]));
    // The enemies come down to row 2, and the bullet rises into them.
    assert!(playing.update().is_none());
    assert_eq!(playing.enemies, grid(&[(2, 1), (2, 3), (2, 4)]));
    assert_eq!(playing.bullets, BLANK);
}

#[test]
fn bullet_that_rises_into_a_resting_enemy_vanishes_with_it() {
    let mut playing = playing_after(4);
    assert_eq!(playing.enemies, grid(&[(2, 1), (2, 2), (2, 3), (2, 4)]));
    playing.player_action(ButtonAction::Right);
    playing.player_action(ButtonAction::Fire);
    assert_eq!(playing.bullets, grid(&[(3, 3)]));
    // The enemies stay where they are at this update.
    assert!(playing.update().is_none());
    assert_eq!(playing.enemies, grid(&[(2, 1), (2, 2), (2, 4)]));
    assert_eq!(playing.bullets, BLANK);
}

#[test]
fn fourth_update_brings_the_enemies_to_row_2() {
    let mut playing = Playing::new();
    for _ in 0..3 {
        assert!(playing.update().is_none());
    }
    assert_eq!(playing.enemies, grid(&[(1, 1), (1, 2), (1, 3), (1, 4)]));
    assert!(playing.update().is_none());
    let expected = [
        [false; 5],
        [false; 5],
        [false, true, true, true, true],
        [false; 5],
        [false; 5],
    ];
    assert_eq!(playing.enemies, expected);
}

#[test]
fn enemy_that_moves_onto_a_bullet_vanishes_with_it() {
    let mut playing = playing_after(9);
    assert_eq!(playing.enemies, grid(&[(2, 1), (2, 2), (2, 3), (2, 4)]));
    playing.player_action(ButtonAction::Fire);
    // The enemies come down onto the bullet in row 3.
    assert!(playing.update().is_none());
    assert_eq!(playing.enemies, grid(&[(3, 1), (3, 3), (3, 4)]));
    assert_eq!(playing.bullets, BLANK);
}

#[test]
fn enemies_go_right_down_down_left() {
    // The first move, to the right, is made when the game begins. The moves
    // that follow, one at every other update: down, down, left, right, down,
    // down.
    let rows_and_lefts =
        [(0, 1), (0, 1), (1, 1), (1, 1), (2, 1), (2, 1), (2, 0), (2, 0), (2, 1), (2, 1), (3, 1), (3, 1)];
    let mut playing = Playing::new();
    for (updates, (row, left)) in rows_and_lefts.into_iter().enumerate() {
        let expected = grid(&[(row, left), (row, left + 1), (row, left + 2), (row, left + 3)]);
        assert_eq!(playing.enemies, expected, "after {} updates", updates);
        let next = playing.update();
        assert_eq!(next.is_some(), updates == 11);
    }
    assert_eq!(playing.enemies, grid(&[(4, 1), (4, 2), (4, 3), (4, 4)]));
}

#[test]
fn firing_at_an_enemy_right_above_destroys_it() {
    let mut playing = playing_after(10);
    assert_eq!(playing.enemies, grid(&[(3, 1), (3, 2), (3, 3), (3, 4)]));
    playing.player_action(ButtonAction::Fire);
    assert_eq!(playing.enemies, grid(&[(3, 1), (3, 3), (3, 4)]));
    assert_eq!(playing.bullets, BLANK);
    // With the enemy gone, the next shot is a bullet.
    playing.player_action(ButtonAction::Fire);
    assert_eq!(playing.enemies, grid(&[(3, 1), (3, 3), (3, 4)]));
    assert_eq!(playing.bullets, grid(&[(3, 2)]));
}

#[test]
fn player_stays_on_the_display() {
    let mut playing = Playing::new();
    playing.player_action(ButtonAction::Left);
    assert_eq!(playing.player_x, 1);
    playing.player_action(ButtonAction::Left);
    assert_eq!(playing.player_x, 0);
    playing.player_action(ButtonAction::Left);
    assert_eq!(playing.player_x, 0);
    for expected in [1, 2, 3, 4, 4, 4] {
        playing.player_action(ButtonAction::Right);
        assert_eq!(playing.player_x, expected);
    }
    assert_eq!(shown_by_playing(&playing), grid(&[(0, 1), (0, 2), (0, 3), (0, 4), (4, 4)]));
    playing.player_action(ButtonAction::Fire);
    assert_eq!(playing.player_x, 4);
    assert_eq!(playing.bullets, grid(&[(3, 4)]));
}

#[test]
fn bullet_leaves_through_the_top() {
    let mut playing = Playing::new();
    playing.player_action(ButtonAction::Left);
    playing.player_action(ButtonAction::Left);
    playing.player_action(ButtonAction::Fire);
    assert_eq!(playing.bullets, grid(&[(3, 0)]));
    for row in [2, 1, 0] {
        assert!(playing.update().is_none());
        assert_eq!(playing.bullets, grid(&[(row, 0)]));
    }
    assert!(playing.update().is_none());
    assert_eq!(playing.bullets, BLANK);
    assert_eq!(playing.enemies, grid(&[(2, 1), (2, 2), (2, 3), (2, 4)]));
}

#[test]
fn enemies_in_the_bottom_row_lose_the_game() {
    let mut playing = playing_after(11);
    assert_eq!(playing.enemies, grid(&[(3, 1), (3, 2), (3, 3), (3, 4)]));
    match playing.update() {
        Some(Phase::LossAnimation(animation)) => {
            let mut buffer = scribbled();
            animation.display(&mut buffer);
            assert_eq!(buffer, grid(&[(4, 1), (4, 2), (4, 3), (4, 4)]));
        }
        _ => panic!("the game was not lost"),
    }
    assert_eq!(playing.enemies, grid(&[(4, 1), (4, 2), (4, 3), (4, 4)]));
}

#[test]
fn no_enemies_left_wins_the_game() {
    let mut playing = playing_after(10);
    for action in [
        ButtonAction::Left,
        ButtonAction::Fire,
        ButtonAction::Right,
        ButtonAction::Fire,
        ButtonAction::Right,
        ButtonAction::Fire,
        ButtonAction::Right,
        ButtonAction::Fire,
    ] {
        playing.player_action(action);
    }
    assert_eq!(playing.enemies, BLANK);
    assert_eq!(playing.bullets, BLANK);
    match playing.update() {
        Some(Phase::WinAnimation(animation)) => {
            let mut buffer = scribbled();
            animation.display(&mut buffer);
            assert_eq!(buffer, grid(&[(4, 4)]));
        }
        _ => panic!("the game was not won"),
    }
}

#[test]
fn game_without_enemies_is_won_at_once() {
    let mut playing = Playing::new();
    playing.enemies = BLANK;
    assert!(matches!(playing.update(), Some(Phase::WinAnimation(_))));
}

#[test]
fn last_enemy_in_the_bottom_row_loses_the_game() {
    let mut playing = playing_after(11);
    playing.player_action(ButtonAction::Fire);
    playing.player_action(ButtonAction::Left);
    playing.player_action(ButtonAction::Fire);
    playing.player_action(ButtonAction::Right);
    playing.player_action(ButtonAction::Right);
    playing.player_action(ButtonAction::Fire);
    assert_eq!(playing.enemies, grid(&[(3, 4)]));
    assert_eq!(playing.bullets, BLANK);
    assert!(matches!(playing.update(), Some(Phase::LossAnimation(_))));
    assert_eq!(playing.enemies, grid(&[(4, 4)]));
}

#[test]
fn loss_animation_blinks_the_enemies_that_landed() {
    let mut playing = playing_after(11);
    playing.player_action(ButtonAction::Left);
    playing.player_action(ButtonAction::Left);
    playing.player_action(ButtonAction::Fire);
    assert!(playing.update().is_some());
    assert_eq!(playing.enemies, grid(&[(4, 1), (4, 2), (4, 3), (4, 4)]));
    assert_eq!(playing.bullets, grid(&[(2, 0)]));
    assert_eq!(playing.player_x, 0);

    let game = grid(&[(4, 0), (4, 1), (4, 2), (4, 3), (4, 4), (2, 0)]);
    let without_enemies = grid(&[(4, 0), (2, 0)]);
    let expected =
        [game, without_enemies, game, without_enemies, game, game, BLANK, BLANK];
    let mut animation = LossAnimation::new(playing);
    for (tick, frame) in expected.into_iter().enumerate() {
        let mut buffer = scribbled();
        animation.display(&mut buffer);
        assert_eq!(buffer, frame, "at tick {}", tick);
        if tick < 7 {
            let next = animation.update();
            assert_eq!(next.is_some(), tick == 6);
        }
    }
}

#[test]
fn loss_animation_hides_the_player_under_an_enemy() {
    let mut playing = playing_after(11);
    assert!(playing.update().is_some());
    assert_eq!(playing.player_x, 2);
    let mut animation = LossAnimation::new(playing);
    assert!(animation.update().is_none());
    let mut buffer = scribbled();
    animation.display(&mut buffer);
    assert_eq!(buffer, BLANK);
    playing.player_action(ButtonAction::Left);
    playing.player_action(ButtonAction::Left);
    let mut animation = LossAnimation::new(playing);
    assert!(animation.update().is_none());
    animation.display(&mut buffer);
    assert_eq!(buffer, grid(&[(4, 0)]));
}

#[test]
fn loss_animation_hands_over_to_the_start_animation_at_tick_7() {
    let mut animation = LossAnimation::new(Playing::new());
    for _ in 0..6 {
        assert!(animation.update().is_none());
    }
    match animation.update() {
        Some(Phase::StartAnimation(start)) => {
            let mut buffer = scribbled();
            start.display(&mut buffer);
            assert_eq!(buffer, grid(&[(4, 2)]));
        }
        _ => panic!("the loss animation did not hand over to the start animation"),
    }
}

#[test]
fn win_animation_pauses_sweeps_and_blanks() {
    let mut playing = Playing::new();
    playing.player_action(ButtonAction::Fire);
    let game = grid(&[(0, 1), (0, 2), (0, 3), (0, 4), (3, 2), (4, 2)]);
    let mut animation = WinAnimation::new(playing);
    for tick in 0..70 {
        let mut expected = BLANK;
        if tick < 10 {
            expected = game;
        } else if tick < 50 {
            for row in 0..5 {
                for col in 0..5 {
                    expected[row][col] = row + col == tick % 10 || row + col + 1 == tick % 10;
                }
            }
        }
        let mut buffer = scribbled();
        animation.display(&mut buffer);
        assert_eq!(buffer, expected, "at tick {}", tick);
        let next = animation.update();
        assert_eq!(next.is_some(), tick == 69);
    }
}

#[test]
fn win_animation_sweep_by_hand() {
    let mut animation = WinAnimation::new(Playing::new());
    let mut frames = Vec::new();
    for _ in 0..50 {
        let mut buffer = scribbled();
        animation.display(&mut buffer);
        frames.push(buffer);
        animation.update();
    }
    assert_eq!(frames[10], grid(&[(0, 0)]));
    assert_eq!(frames[11], grid(&[(0, 0), (0, 1), (1, 0)]));
    assert_eq!(
        frames[24],
        grid(&[(0, 4), (1, 3), (2, 2), (3, 1), (4, 0), (0, 3), (1, 2), (2, 1), (3, 0)])
    );
    assert_eq!(frames[38], grid(&[(4, 4), (3, 4), (4, 3)]));
    assert_eq!(frames[49], grid(&[(4, 4)]));
    assert_eq!(frames[20], frames[10]);
}

#[test]
fn win_animation_hands_over_to_the_start_animation_at_tick_70() {
    let mut animation = WinAnimation::new(Playing::new());
    for _ in 0..69 {
        assert!(animation.update().is_none());
    }
    assert!(matches!(animation.update(), Some(Phase::StartAnimation(_))));
}

#[test]
fn phase_dispatches_to_its_variant() {
    let mut phase = Phase::StartAnimation(StartAnimation::new());
    let mut buffer = scribbled();
    phase.display(&mut buffer);
    assert_eq!(buffer, grid(&[(4, 2)]));
    for _ in 0..15 {
        assert!(phase.update().is_none());
    }
    let mut phase = phase.update().expect("the start animation is over");
    phase.display(&mut buffer);
    assert_eq!(buffer, grid(&[(0, 1), (0, 2), (0, 3), (0, 4), (4, 2)]));
    for _ in 0..11 {
        assert!(phase.update().is_none());
    }
    let mut phase = phase.update().expect("the game is lost");
    assert!(matches!(phase, Phase::LossAnimation(_)));
    for _ in 0..6 {
        assert!(phase.update().is_none());
    }
    assert!(matches!(phase.update(), Some(Phase::StartAnimation(_))));
}

#[test]
fn game_begins_with_the_start_animation() {
    let mut game = Game::new();
    assert_eq!(shown_by_game(&game), grid(&[(4, 2)]));
    // The first base tick is the animation's first tick.
    game.update();
    assert_eq!(shown_by_game(&game), BLANK);
    run(&mut game, 249);
    assert_eq!(shown_by_game(&game), BLANK);
    game.update();
    assert_eq!(shown_by_game(&game), grid(&[(4, 2)]));
}

#[test]
fn game_discards_actions_during_an_animation() {
    let mut game = Game::new();
    game.player_action(ButtonAction::Left);
    game.player_action(ButtonAction::Fire);
    assert_eq!(shown_by_game(&game), grid(&[(4, 2)]));
    run(&mut game, 3750);
    game.player_action(ButtonAction::Left);
    game.player_action(ButtonAction::Fire);
    assert_eq!(shown_by_game(&game), grid(&[(0, 0), (0, 1), (0, 2), (0, 3), (4, 2)]));
    game.update();
    assert_eq!(shown_by_game(&game), grid(&[(0, 1), (0, 2), (0, 3), (0, 4), (4, 2)]));
    game.player_action(ButtonAction::Left);
    game.player_action(ButtonAction::Fire);
    assert_eq!(shown_by_game(&game), grid(&[(0, 1), (0, 2), (0, 3), (0, 4), (3, 1), (4, 1)]));
}

#[test]
fn game_runs_from_start_to_loss_and_back() {
    let mut game = Game::new();
    // The start animation ends with its 16th tick, at base tick 3750.
    run(&mut game, 3751);
    assert_eq!(shown_by_game(&game), grid(&[(0, 1), (0, 2), (0, 3), (0, 4), (4, 2)]));
    // The game is updated every 500 base ticks from then on.
    run(&mut game, 499);
    assert_eq!(shown_by_game(&game), grid(&[(0, 1), (0, 2), (0, 3), (0, 4), (4, 2)]));
    run(&mut game, 500);
    assert_eq!(shown_by_game(&game), grid(&[(0, 1), (0, 2), (0, 3), (0, 4), (4, 2)]));
    game.update();
    assert_eq!(shown_by_game(&game), grid(&[(1, 1), (1, 2), (1, 3), (1, 4), (4, 2)]));
    run(&mut game, 500);
    assert_eq!(shown_by_game(&game), grid(&[(1, 1), (1, 2), (1, 3), (1, 4), (4, 2)]));
    run(&mut game, 500);
    assert_eq!(shown_by_game(&game), grid(&[(2, 1), (2, 2), (2, 3), (2, 4), (4, 2)]));
    run(&mut game, 500 * 2);
    assert_eq!(shown_by_game(&game), grid(&[(2, 0), (2, 1), (2, 2), (2, 3), (4, 2)]));
    // Its 12th update loses it.
    run(&mut game, 500 * 6 - 1);
    assert_eq!(shown_by_game(&game), grid(&[(3, 1), (3, 2), (3, 3), (3, 4), (4, 2)]));
    game.update();
    assert_eq!(shown_by_game(&game), grid(&[(4, 1), (4, 2), (4, 3), (4, 4)]));
    // The loss animation: hidden at its tick 1, blank from its tick 6.
    run(&mut game, 499);
    assert_eq!(shown_by_game(&game), grid(&[(4, 1), (4, 2), (4, 3), (4, 4)]));
    game.update();
    assert_eq!(shown_by_game(&game), BLANK);
    run(&mut game, 500);
    assert_eq!(shown_by_game(&game), grid(&[(4, 1), (4, 2), (4, 3), (4, 4)]));
    run(&mut game, 500 * 4);
    assert_eq!(shown_by_game(&game), BLANK);
    run(&mut game, 499);
    assert_eq!(shown_by_game(&game), BLANK);
    // Its 7th tick begins the start animation again.
    game.update();
    assert_eq!(shown_by_game(&game), grid(&[(4, 2)]));
    // This time the animation's first tick comes a full period later.
    run(&mut game, 249);
    assert_eq!(shown_by_game(&game), grid(&[(4, 2)]));
    game.update();
    assert_eq!(shown_by_game(&game), BLANK);
    run(&mut game, 250 * 15 - 1);
    assert_eq!(shown_by_game(&game), grid(&[(0, 0), (0, 1), (0, 2), (0, 3), (4, 2)]));
    game.update();
    assert_eq!(shown_by_game(&game), grid(&[(0, 1), (0, 2), (0, 3), (0, 4), (4, 2)]));
}

#[test]
fn game_runs_from_start_to_win_and_back() {
    let mut game = Game::new();
    run(&mut game, 3751);
    // Ten updates bring the enemies down to the row above the player.
    run(&mut game, 500 * 10);
    assert_eq!(shown_by_game(&game), grid(&[(3, 1), (3, 2), (3, 3), (3, 4), (4, 2)]));
    game.player_action(ButtonAction::Left);
    game.player_action(ButtonAction::Fire);
    assert_eq!(shown_by_game(&game), grid(&[(3, 2), (3, 3), (3, 4), (4, 1)]));
    for _ in 0..3 {
        game.player_action(ButtonAction::Right);
        game.player_action(ButtonAction::Fire);
    }
    assert_eq!(shown_by_game(&game), grid(&[(4, 4)]));
    // The game is won at its next update; the animation pauses for 10 of
    // its ticks, which are 50 base ticks each.
    run(&mut game, 500);
    assert_eq!(shown_by_game(&game), grid(&[(4, 4)]));
    game.player_action(ButtonAction::Left);
    assert_eq!(shown_by_game(&game), grid(&[(4, 4)]));
    run(&mut game, 499);
    assert_eq!(shown_by_game(&game), grid(&[(4, 4)]));
    game.update();
    assert_eq!(shown_by_game(&game), grid(&[(0, 0)]));
    run(&mut game, 50);
    assert_eq!(shown_by_game(&game), grid(&[(0, 0), (0, 1), (1, 0)]));
    // Blank from tick 50, and over at tick 70.
    run(&mut game, 50 * 39);
    assert_eq!(shown_by_game(&game), BLANK);
    run(&mut game, 50 * 20 - 1);
    assert_eq!(shown_by_game(&game), BLANK);
    game.update();
    assert_eq!(shown_by_game(&game), grid(&[(4, 2)]));
}
