use dodger::consts::{LEVEL_DURATION_MILLIS, LIVES, PX, WINDOW_HEIGHT, WINDOW_WIDTH};
use dodger::errors::DodgerError;
use dodger::gamestate::GameState;
use dodger::input::{FrameInput, Key, Mouse};
use dodger::modes::GameMode;
use dodger::objects::GoodObjectValue;
use dodger::random::{roll_spawn, SpawnRoll};
use dodger::resources::{Image, ImageKind, LevelImages};
use dodger::sound::{AudioManager, Sound};
use dodger::utils::Point;

fn image(kind: ImageKind, width: u32, height: u32) -> Image {
    Image { kind, width, height }
}

fn level_images() -> LevelImages {
    LevelImages {
        player_image: image(ImageKind::Player, 100, 120),
        background_image: image(ImageKind::Background, 1000, 800),
        menu_background_image: image(ImageKind::MenuBackground, 1000, 800),
        bad_object_image: image(ImageKind::BadObject, 100, 100),
        good_object_high_image: image(ImageKind::GoodObjectHigh, 100, 100),
        good_object_medium_image: image(ImageKind::GoodObjectMedium, 100, 100),
        good_object_low_image: image(ImageKind::GoodObjectLow, 100, 100),
        pause_button_image: image(ImageKind::PauseButton, 160, 120),
    }
}

fn audio() -> AudioManager {
    AudioManager::new(image(ImageKind::Speaker, 200, 200), image(ImageKind::SpeakerMuted, 200, 200))
}

fn new_game(now: u64) -> GameState {
    match GameState::new(vec![level_images(); 4], 0, audio(), now) {
        Ok(state) => state,
        Err(e) => panic!("no game: {:?}", e),
    }
}

fn idle(now: u64) -> FrameInput {
    FrameInput { now, mouse: Mouse { left_pressed: false, position: Point { x: 0, y: 0 } } }
}

fn click(x_px: i64, y_px: i64, now: u64) -> FrameInput {
    FrameInput {
        now,
        mouse: Mouse { left_pressed: true, position: Point { x: x_px * PX, y: y_px * PX } },
    }
}

/// A roll that puts the object far to the left of the player.
fn far() -> SpawnRoll {
    SpawnRoll { x: 30 * PX, bucket: 9 }
}

/// A roll that puts the object right above the player.
fn above_player(bucket: i64) -> SpawnRoll {
    SpawnRoll { x: 510 * PX, bucket }
}

const START: (i64, i64) = (500, 325);
const SELECT_LEVEL: (i64, i64) = (500, 385);
const HOW_TO_PLAY: (i64, i64) = (500, 445);
const EXIT: (i64, i64) = (500, 505);
const CORNER: (i64, i64) = (900, 30);
const CENTER: (i64, i64) = (500, 400);

fn started_game() -> GameState {
    let mut state = new_game(0);
    state.update_with_roll(&click(START.0, START.1, 0), far()).unwrap();
    assert_eq!(state.game_mode(), GameMode::Playing);
    state
}

/// Runs one frame per millisecond from `from` up to and including `to`. Bad
/// objects are put above the player if `catch_bad`, good ones if `catch_good`.
fn run(state: &mut GameState, from: u64, to: u64, catch_bad: bool, catch_good: bool) -> Vec<Sound> {
    let mut sounds = Vec::new();
    let mut now = from;
    while now <= to {
        let next_is_bad = state.spawn_count() % 5 == 0;
        let roll = if (next_is_bad && catch_bad) || (!next_is_bad && catch_good) {
            above_player(0)
        } else {
            far()
        };
        let out = state.update_with_roll(&idle(now), roll).unwrap();
        sounds.extend(out.sounds);
        now += 1;
    }
    sounds
}

#[test]
fn a_new_game_shows_the_menu() {
    let state = new_game(17);
    assert_eq!(state.game_mode(), GameMode::Menu);
    assert_eq!(state.lives(), LIVES);
    assert_eq!(state.lives(), 5);
    assert_eq!(state.level_score(), 0);
    assert_eq!(state.total_score(), 0);
    assert_eq!(state.current_level(), 0);
    assert_eq!(state.level_start_time(), 17);
    assert_eq!(state.last_update(), 17);
    assert_eq!(state.paused_time(), None);
    assert!(!state.game_started());
    assert!(!state.is_paused());
    assert!(state.falling_objects().is_empty());
    assert_eq!(state.player().coords, Point { x: 500 * PX, y: 625 * PX });
    assert_eq!(state.player().size.w, 40 * PX);
    assert_eq!(state.player().size.h, 40 * PX);
}

#[test]
fn a_game_needs_the_pictures_of_every_level() {
    assert!(matches!(
        GameState::new(vec![level_images(); 3], 0, audio(), 0),
        Err(DodgerError::Unexpected)
    ));
    assert!(matches!(
        GameState::new(vec![level_images(); 4], 4, audio(), 0),
        Err(DodgerError::Unexpected)
    ));
    assert!(GameState::new(vec![level_images(); 4], 3, audio(), 0).is_ok());
}

#[test]
fn menu_buttons_lead_to_their_screens() {
    let mut state = new_game(0);
    let out = state.update_with_roll(&idle(5), far()).unwrap();
    assert_eq!(state.game_mode(), GameMode::Menu);
    assert!(!out.quit);
    assert!(out.sounds.is_empty());

    state.update_with_roll(&click(HOW_TO_PLAY.0, HOW_TO_PLAY.1, 6), far()).unwrap();
    assert_eq!(state.game_mode(), GameMode::HowToPlay);
    state.update_with_roll(&click(500, 500, 7), far()).unwrap();
    assert_eq!(state.game_mode(), GameMode::HowToPlay);
    state.update_with_roll(&click(CORNER.0, CORNER.1, 8), far()).unwrap();
    assert_eq!(state.game_mode(), GameMode::Menu);

    let out = state.update_with_roll(&click(EXIT.0, EXIT.1, 9), far()).unwrap();
    assert!(out.quit);
    assert_eq!(state.game_mode(), GameMode::Menu);

    state.update_with_roll(&click(SELECT_LEVEL.0, SELECT_LEVEL.1, 10), far()).unwrap();
    assert_eq!(state.game_mode(), GameMode::LevelSelection);
}

#[test]
fn a_click_without_the_button_down_is_no_click() {
    let mut state = new_game(0);
    let mut input = click(START.0, START.1, 1);
    input.mouse.left_pressed = false;
    state.update_with_roll(&input, far()).unwrap();
    assert_eq!(state.game_mode(), GameMode::Menu);
}

#[test]
fn selecting_a_level_starts_it() {
    let mut state = new_game(0);
    state.update_with_roll(&click(SELECT_LEVEL.0, SELECT_LEVEL.1, 10), far()).unwrap();
    // The third level button: 100 + 2 * 60 = 220 .. 270 pixels down.
    state.update_with_roll(&click(500, 240, 20), far()).unwrap();
    assert_eq!(state.game_mode(), GameMode::Playing);
    assert_eq!(state.current_level(), 2);
    assert_eq!(state.resources().level.fall_speed, 350);
    assert_eq!(state.level_start_time(), 20);
    assert_eq!(state.total_score(), 0);
    assert_eq!(state.lives(), LIVES);
}

#[test]
fn start_to_next_level() {
    let mut state = new_game(0);
    state.update_with_roll(&click(START.0, START.1, 100), far()).unwrap();
    assert_eq!(state.game_mode(), GameMode::Playing);
    assert_eq!(state.level_start_time(), 100);

    // Catch the second object of the level, a good one of high value.
    let sounds = run(&mut state, 101, 100 + 2399, false, true);
    assert_eq!(state.level_score(), 30);
    assert_eq!(sounds, vec![Sound::GoodCollisionHigh]);
    assert_eq!(state.lives(), LIVES);

    let out = state.update_with_roll(&idle(100 + LEVEL_DURATION_MILLIS), far()).unwrap();
    assert_eq!(state.game_mode(), GameMode::NextLevel);
    assert!(out.sounds.is_empty());
    let prior = state.level_score();

    let out = state.update_with_roll(&idle(100 + LEVEL_DURATION_MILLIS + 1), far()).unwrap();
    assert_eq!(out.sounds, vec![Sound::LevelCompleted]);
    let out = state.update_with_roll(&idle(100 + LEVEL_DURATION_MILLIS + 2), far()).unwrap();
    assert!(out.sounds.is_empty());

    state
        .update_with_roll(&click(CENTER.0, CENTER.1, 100 + LEVEL_DURATION_MILLIS + 3), far())
        .unwrap();
    assert_eq!(state.current_level(), 1);
    assert_eq!(state.level_score(), 0);
    assert_eq!(state.total_score(), prior);
    assert_eq!(state.total_score(), 30);
    assert_eq!(state.game_mode(), GameMode::Playing);
    assert_eq!(state.lives(), LIVES);
    assert_eq!(state.level_start_time(), 100 + LEVEL_DURATION_MILLIS + 3);
    assert!(state.falling_objects().is_empty());
    assert_eq!(state.spawn_count(), 0);
}

#[test]
fn the_last_life_ends_the_game_in_the_same_frame() {
    let mut state = started_game();
    // The bad objects of the level are the 1st, 6th, 11th, 16th and 21st.
    let mut now = 1;
    while state.lives() > 1 {
        run(&mut state, now, now, true, false);
        now += 1;
        assert!(now < 30_000);
    }
    assert_eq!(state.lives(), 1);
    assert_eq!(state.game_mode(), GameMode::Playing);
    assert_eq!(state.level_score(), 0);
    loop {
        let roll = if state.spawn_count() % 5 == 0 { above_player(0) } else { far() };
        let out = state.update_with_roll(&idle(now), roll).unwrap();
        if state.lives() == 0 {
            assert_eq!(state.game_mode(), GameMode::GameOver);
            assert_eq!(out.sounds, vec![Sound::BadCollision]);
            break;
        }
        assert_eq!(state.game_mode(), GameMode::Playing);
        now += 1;
        assert!(now < 39_000);
    }
    assert_eq!(state.level_score(), 0);

    let out = state.update_with_roll(&idle(now + 1), far()).unwrap();
    assert_eq!(out.sounds, vec![Sound::GameOver]);
    state.update_with_roll(&click(CENTER.0, CENTER.1, now + 2), far()).unwrap();
    assert_eq!(state.game_mode(), GameMode::Playing);
    assert_eq!(state.current_level(), 0);
    assert_eq!(state.lives(), LIVES);
    assert_eq!(state.total_score(), 0);
}

#[test]
fn a_bad_object_costs_one_life_and_no_points() {
    let mut state = started_game();
    let sounds = run(&mut state, 1, 1200, true, false);
    assert_eq!(sounds, vec![Sound::BadCollision]);
    assert_eq!(state.lives(), LIVES - 1);
    assert_eq!(state.level_score(), 0);
    assert!(state.player().blink_timer.is_some());
    // The struck object lingers, marked and blinking.
    let struck = state.falling_objects()[0];
    assert!(!struck.is_good);
    assert!(struck.remove_timer.is_some());
    assert_eq!(struck.remove_timer, struck.blink_timer);
    let hit_at = struck.remove_timer.unwrap();
    assert_eq!(state.player().blink_timer, Some(hit_at));
    assert_eq!(struck.coords.y, state.falling_objects()[0].coords.y);

    run(&mut state, 1201, hit_at + 999, false, false);
    assert!(state.falling_objects().iter().any(|o| !o.is_good));
    assert!(state.player().blink_timer.is_some());
    run(&mut state, hit_at + 1000, hit_at + 1000, false, false);
    assert!(state.falling_objects().iter().all(|o| o.is_good));
    assert_eq!(state.player().blink_timer, None);
    assert_eq!(state.player().alpha, 1000);
}

#[test]
fn good_objects_earn_their_value_and_leave_at_once() {
    for &(bucket, value, points, sound) in &[
        (0, GoodObjectValue::High, 30, Sound::GoodCollisionHigh),
        (1, GoodObjectValue::Medium, 15, Sound::GoodCollision),
        (3, GoodObjectValue::Medium, 15, Sound::GoodCollision),
        (5, GoodObjectValue::Medium, 15, Sound::GoodCollision),
        (2, GoodObjectValue::Low, 5, Sound::GoodCollision),
        (9, GoodObjectValue::Low, 5, Sound::GoodCollision),
    ] {
        let mut state = started_game();
        run(&mut state, 1, 1599, false, false);
        assert_eq!(state.falling_objects().len(), 1);
        let out = state.update_with_roll(&idle(1600), above_player(bucket)).unwrap();
        assert!(out.sounds.is_empty());
        assert_eq!(state.falling_objects().len(), 2);
        assert_eq!(state.falling_objects()[1].good_object_value, Some(value));
        assert!(state.falling_objects()[1].is_good);
        let sounds = run(&mut state, 1601, 2300, false, false);
        assert_eq!(sounds, vec![sound]);
        assert_eq!(state.level_score(), points);
        assert_eq!(state.lives(), LIVES);
        assert_eq!(state.falling_objects().len(), 1);
        assert_eq!(state.player().blink_timer, None);
    }
}

#[test]
fn every_fifth_spawn_is_bad() {
    let mut state = started_game();
    run(&mut state, 1, 800 * 10, false, false);
    let objects = state.falling_objects();
    assert_eq!(objects.len(), 10);
    assert_eq!(state.spawn_count(), 10);
    for (i, object) in objects.iter().enumerate() {
        assert_eq!(object.is_good, i % 5 != 0);
        assert_eq!(object.good_object_value.is_some(), object.is_good);
    }
    assert_eq!(objects.iter().filter(|o| !o.is_good).count(), 2);
}

#[test]
fn objects_spawn_once_per_interval_and_fall_by_the_speed() {
    let mut state = started_game();
    run(&mut state, 1, 799, false, false);
    assert!(state.falling_objects().is_empty());
    run(&mut state, 800, 800, false, false);
    assert_eq!(state.falling_objects().len(), 1);
    assert_eq!(state.last_update(), 800);
    let object = state.falling_objects()[0];
    // Spawned at the top and moved once in the frame of its spawn.
    assert_eq!(object.coords, Point { x: 30 * PX, y: 250 });
    assert_eq!(object.size.w, 8 * PX);
    assert_eq!(object.size.h, 8 * PX);
    run(&mut state, 801, 803, false, false);
    assert_eq!(state.falling_objects()[0].coords.y, 1000);
    assert_eq!(state.falling_objects().len(), 1);
}

#[test]
fn high_value_objects_pulse() {
    let mut state = started_game();
    run(&mut state, 1, 1599, false, false);
    state.update_with_roll(&idle(1600), SpawnRoll { x: 30 * PX, bucket: 0 }).unwrap();
    assert_eq!(state.falling_objects()[1].pulse_time, 100_000);
    assert_eq!(state.falling_objects()[0].pulse_time, 0);
    run(&mut state, 1601, 1662, false, false);
    // 63 steps of 100000 are 6300000, one period of 6283185 less.
    assert_eq!(state.falling_objects()[1].pulse_time, 6_300_000 - 6_283_185);
}

#[test]
fn a_roll_beyond_the_field_fails_the_spawn() {
    let mut state = started_game();
    let bad_roll = SpawnRoll { x: WINDOW_WIDTH + 1, bucket: 0 };
    assert_eq!(state.update_with_roll(&idle(799), bad_roll), Ok(dodger::gamestate::FrameOutput {
        sounds: vec![],
        quit: false,
    }));
    assert_eq!(
        state.update_with_roll(&idle(800), bad_roll),
        Err(DodgerError::InvalidCoordinates(WINDOW_WIDTH + 1, 0, WINDOW_WIDTH, WINDOW_HEIGHT))
    );
    assert!(state.falling_objects().is_empty());
    assert_eq!(state.last_update(), 800);
    assert_eq!(state.spawn_count(), 0);
}

#[test]
fn update_draws_rolls_that_fit_the_field() {
    let mut state = started_game();
    let mut now = 1;
    while now <= 8001 {
        assert!(state.update(&idle(now)).is_ok());
        now += 100;
    }
    assert_eq!(state.spawn_count(), 10);
    for object in state.falling_objects().iter() {
        assert!(object.coords.x >= 25 * PX && object.coords.x < WINDOW_WIDTH - 25 * PX);
    }
}

#[test]
fn rolls_lie_in_their_ranges_and_vary() {
    let rolls: Vec<SpawnRoll> = (0..200).map(|_| roll_spawn()).collect();
    for roll in &rolls {
        assert!(roll.x >= 25 * PX && roll.x < WINDOW_WIDTH - 25 * PX);
        assert!(roll.bucket >= 0 && roll.bucket < 10);
    }
    assert!(rolls.iter().any(|roll| roll.x != 25 * PX));
    assert!(rolls.iter().any(|roll| roll.bucket != 0));
    assert!(rolls.iter().any(|roll| roll.x != rolls[0].x));
}

#[test]
fn the_level_ends_in_victory_after_the_last_level() {
    let mut state = match GameState::new(vec![level_images(); 4], 3, audio(), 0) {
        Ok(state) => state,
        Err(e) => panic!("no game: {:?}", e),
    };
    state.update_with_roll(&click(START.0, START.1, 0), far()).unwrap();
    state.update_with_roll(&idle(39_999), far()).unwrap();
    assert_eq!(state.game_mode(), GameMode::Playing);
    state.update_with_roll(&idle(40_000), far()).unwrap();
    assert_eq!(state.game_mode(), GameMode::Victory);
    let out = state.update_with_roll(&idle(40_001), far()).unwrap();
    assert_eq!(out.sounds, vec![Sound::Victory]);
    let out = state.update_with_roll(&idle(40_002), far()).unwrap();
    assert!(out.sounds.is_empty());
    state.update_with_roll(&click(CENTER.0, CENTER.1, 40_003), far()).unwrap();
    assert_eq!(state.game_mode(), GameMode::Playing);
    assert_eq!(state.current_level(), 0);
    assert_eq!(state.total_score(), 0);
}

#[test]
fn remaining_time_counts_down_in_whole_seconds() {
    let mut state = new_game(0);
    state.update_with_roll(&click(START.0, START.1, 1000), far()).unwrap();
    assert_eq!(state.get_remaining_time(1000), 40);
    assert_eq!(state.get_remaining_time(1001), 39);
    assert_eq!(state.get_remaining_time(2000), 39);
    assert_eq!(state.get_remaining_time(40_999), 0);
    assert_eq!(state.get_remaining_time(41_000), 0);
    assert_eq!(state.get_remaining_time(1_000_000), 0);
    // Time does not run backwards.
    assert_eq!(state.get_remaining_time(0), 40);
}

#[test]
fn pause_and_resume_keep_the_remaining_time() {
    let mut state = started_game();
    run(&mut state, 1, 5000, false, false);
    let before = state.get_remaining_time(5000);
    assert_eq!(before, 35);
    state.key_down_event(Key::Space, 5000);
    assert!(state.is_paused());
    assert_eq!(state.paused_time(), Some(5000));
    state.key_down_event(Key::Space, 5000);
    assert!(!state.is_paused());
    assert_eq!(state.paused_time(), None);
    assert_eq!(state.get_remaining_time(5000), before);

    // A pause of a minute moves the level's start by a minute.
    state.key_down_event(Key::Space, 5000);
    let objects_before = state.falling_objects().clone();
    run(&mut state, 5001, 5100, true, true);
    assert_eq!(state.falling_objects(), &objects_before);
    state.key_down_event(Key::Space, 65_000);
    assert_eq!(state.level_start_time(), 60_000);
    assert_eq!(state.last_update(), 4800 + 60_000);
    assert_eq!(state.get_remaining_time(65_000), before);
    assert_eq!(state.game_mode(), GameMode::Playing);
}

#[test]
fn pausing_needs_a_running_game() {
    let mut state = new_game(0);
    state.key_down_event(Key::Space, 10);
    assert!(!state.is_paused());
    assert_eq!(state.paused_time(), None);
}

#[test]
fn the_menu_halts_the_game_and_resume_makes_up_for_it() {
    let mut state = started_game();
    run(&mut state, 1, 3000, false, false);
    state.update_with_roll(&click(CORNER.0, CORNER.1, 3001), far()).unwrap();
    assert_eq!(state.game_mode(), GameMode::Menu);
    assert_eq!(state.paused_time(), Some(3001));
    assert!(state.game_started());
    state.update_with_roll(&idle(10_000), far()).unwrap();
    state.update_with_roll(&click(START.0, START.1, 13_001), far()).unwrap();
    assert_eq!(state.game_mode(), GameMode::Playing);
    assert_eq!(state.paused_time(), None);
    assert_eq!(state.level_start_time(), 10_000);
    assert_eq!(state.last_update(), 2400 + 10_000);
    assert_eq!(state.get_remaining_time(13_001), 36);
}

#[test]
fn the_speaker_button_toggles_the_sound() {
    let mut state = started_game();
    assert!(!state.audio().is_muted);
    // The speaker icon: 200 pixels at 15 percent, from (915, 60).
    state.update_with_roll(&click(930, 75, 1), far()).unwrap();
    assert!(state.audio().is_muted);
    assert_eq!(state.audio().play_sound("victory".to_string()), Ok(None));
    state.update_with_roll(&click(946, 75, 2), far()).unwrap();
    assert!(state.audio().is_muted);
    state.update_with_roll(&click(945, 90, 3), far()).unwrap();
    assert!(!state.audio().is_muted);
}

#[test]
fn arrow_keys_move_the_player() {
    let mut state = started_game();
    state.key_down_event(Key::Left, 1);
    assert_eq!(state.player().coords.x, 480 * PX);
    state.key_down_event(Key::Right, 2);
    state.key_down_event(Key::Right, 3);
    assert_eq!(state.player().coords.x, 520 * PX);
    state.key_down_event(Key::Other, 4);
    assert_eq!(state.player().coords.x, 520 * PX);
    for _ in 0..100 {
        state.key_down_event(Key::Right, 5);
    }
    // The last step is taken from just left of the border.
    assert_eq!(state.player().coords.x, 960 * PX);
    for _ in 0..100 {
        state.key_down_event(Key::Left, 6);
    }
    assert_eq!(state.player().coords.x, 0);
    assert_eq!(state.player().coords.y, 625 * PX);
}

#[test]
fn resets_restore_lives_and_level_score() {
    let mut state = started_game();
    run(&mut state, 1, 2500, true, true);
    assert!(state.lives() < LIVES);
    assert!(state.level_score() > 0);
    let mut now = 2501;
    for _ in 0..3 {
        // Lose the game, then restart it.
        while state.game_mode() == GameMode::Playing {
            run(&mut state, now, now, true, false);
            now += 1;
        }
        assert_eq!(state.game_mode(), GameMode::GameOver);
        state.update_with_roll(&click(CENTER.0, CENTER.1, now), far()).unwrap();
        assert_eq!(state.lives(), LIVES);
        assert_eq!(state.level_score(), 0);
        assert_eq!(state.game_mode(), GameMode::Playing);
        now += 1;
    }
}
