//! Every transition of the game keeps its state well-formed.

use vstd::prelude::*;
use crate::collisions::{active_count, lemma_active_count_map, lemma_active_count_push,
    lemma_round_is_paid_for, max_object_points};
use crate::consts::PULSE_STEP;
use crate::input::{FrameInput, Key, Mouse};
use crate::levels::LEVEL_COUNT;
use crate::model::{max_level_score, GameModel};
use crate::modes::GameMode;
use crate::objects::FallingObject;
use crate::random::SpawnRoll;

verus! {

/// A look at the clock keeps the state well-formed, and the clock then
/// shows no earlier time than the one looked at.
pub proof fn lemma_observe_preserves_wf(m: GameModel, now: u64)
    requires
        m.wf(),
    ensures
        m.observe(now).wf(),
        m.observe(now).clock >= now,
        m.observe(now).clock >= m.clock,
{
}

/// The level `target_level` may be started from the state: the level exists,
/// and on the way to the next level the points so far are those of the
/// levels before it.
pub open spec fn may_reset(m: GameModel, target_level: nat) -> bool {
    &&& m.wf()
    &&& target_level < LEVEL_COUNT
    &&& (m.game_mode == GameMode::GameOver || m.game_mode == GameMode::Victory || m.game_mode
        == GameMode::LevelSelection || m.total_score + m.level_score <= max_level_score()
        * target_level)
}

/// The start of a level keeps the state well-formed.
pub proof fn lemma_reset_preserves_wf(m: GameModel, target_level: nat)
    requires
        may_reset(m, target_level),
    ensures
        m.reset(target_level).wf(),
{
    assert(active_count(Seq::<FallingObject>::empty()) == 0);
}

/// No level earns more than `max_level_score`.
pub proof fn lemma_level_score_bounded(m: GameModel)
    requires
        m.wf(),
    ensures
        0 <= m.level_score <= max_level_score(),
{
    assert(m.level_score <= max_object_points() * m.spawn_count);
    assert(max_object_points() * m.spawn_count <= max_level_score()) by (nonlinear_arith)
        requires
            m.spawn_count <= 50,
            max_object_points() == 30,
            max_level_score() == 1500,
    ;
}

/// The levels before the current one have earned no more than
/// `max_level_score` each.
pub proof fn lemma_total_score_bounded(m: GameModel)
    requires
        m.wf(),
    ensures
        0 <= m.total_score <= max_level_score() * (LEVEL_COUNT - 1),
{
    assert(max_level_score() * m.current_level <= max_level_score() * (LEVEL_COUNT - 1))
        by (nonlinear_arith)
        requires
            m.current_level <= LEVEL_COUNT - 1,
            max_level_score() == 1500,
    ;
}

/// A key press keeps the state well-formed.
pub proof fn lemma_key_down_preserves_wf(m: GameModel, key: Key)
    requires
        m.wf(),
    ensures
        m.key_down(key).wf(),
{
}

/// A frame of the menu keeps the state well-formed.
pub proof fn lemma_update_menu_preserves_wf(m: GameModel, mouse: Mouse)
    requires
        m.wf(),
        m.game_mode == GameMode::Menu,
    ensures
        m.update_menu(mouse).state.wf(),
{
}

/// A frame of the instructions keeps the state well-formed.
pub proof fn lemma_update_how_to_play_preserves_wf(m: GameModel, mouse: Mouse)
    requires
        m.wf(),
        m.game_mode == GameMode::HowToPlay,
    ensures
        m.update_how_to_play(mouse).state.wf(),
{
}

/// The level that a click selects exists.
pub proof fn lemma_clicked_level_exists(mouse: Mouse, n: nat)
    ensures
        GameModel::clicked_level(mouse, n) matches Some(level) ==> level < n,
    decreases n,
{
    if n > 0 {
        lemma_clicked_level_exists(mouse, (n - 1) as nat);
    }
}

/// A frame of the level selection keeps the state well-formed.
pub proof fn lemma_update_select_level_preserves_wf(m: GameModel, mouse: Mouse)
    requires
        m.wf(),
        m.game_mode == GameMode::LevelSelection,
    ensures
        m.update_select_level(mouse).state.wf(),
{
    lemma_clicked_level_exists(mouse, LEVEL_COUNT as nat);
    match GameModel::clicked_level(mouse, LEVEL_COUNT as nat) {
        Some(level) => {
            lemma_reset_preserves_wf(m, level);
        },
        None => {},
    }
}

/// A frame of the screen between two levels keeps the state well-formed.
pub proof fn lemma_update_next_level_preserves_wf(m: GameModel, mouse: Mouse)
    requires
        m.wf(),
        m.game_mode == GameMode::NextLevel,
    ensures
        m.update_next_level(mouse).state.wf(),
{
    let announced = GameModel { level_complete_sound_played: true, ..m };
    lemma_level_score_bounded(m);
    assert(max_level_score() * m.current_level + max_level_score() == max_level_score() * (
    m.current_level + 1)) by (nonlinear_arith);
    lemma_reset_preserves_wf(announced, m.current_level + 1);
}

/// A frame of the screen after a lost game keeps the state well-formed.
pub proof fn lemma_update_game_over_preserves_wf(m: GameModel, mouse: Mouse)
    requires
        m.wf(),
        m.game_mode == GameMode::GameOver,
    ensures
        m.update_game_over(mouse).state.wf(),
{
    lemma_reset_preserves_wf(GameModel { game_over_sound_played: true, ..m }, 0);
}

/// A frame of the screen after a won game keeps the state well-formed.
pub proof fn lemma_update_victory_preserves_wf(m: GameModel, mouse: Mouse)
    requires
        m.wf(),
        m.game_mode == GameMode::Victory,
    ensures
        m.update_victory(mouse).state.wf(),
{
    lemma_reset_preserves_wf(GameModel { victory_sound_played: true, ..m }, 0);
}

/// What holds of the state of a running game in the middle of a frame of
/// play: it is well-formed, the game has started and is not paused.
pub open spec fn wf_in_play(m: GameModel) -> bool {
    &&& m.game_started
    &&& !m.is_paused
    &&& m.wf()
}

/// The move of the objects keeps the state well-formed.
pub proof fn lemma_advance_preserves_wf(m: GameModel)
    requires
        wf_in_play(m),
    ensures
        wf_in_play(m.advance()),
{
    let change = |object: FallingObject|
        if object.is_active() {
            object.updated(m.resources, PULSE_STEP)
        } else {
            object
        };
    lemma_active_count_map(m.falling_objects, change);
}

/// The rest of a frame of play keeps the state well-formed.
pub proof fn lemma_play_preserves_wf(m: GameModel)
    requires
        wf_in_play(m),
    ensures
        wf_in_play(m.play().state),
{
    lemma_advance_preserves_wf(m);
    lemma_round_is_paid_for(
        m.advance().falling_objects,
        m.advance().player.rect_spec(),
        m.clock as u64,
    );
}

/// A frame of play keeps the state well-formed.
pub proof fn lemma_update_playing_preserves_wf(m: GameModel, mouse: Mouse, roll: SpawnRoll)
    requires
        m.wf(),
        m.game_mode == GameMode::Playing,
    ensures
        m.update_playing(mouse, roll).state.wf(),
{
    let looked = m.playing_buttons(mouse);
    assert(looked.wf());
    if !looked.is_paused {
        let checked = looked.level_check();
        assert(checked.wf());
        if checked.spawn_due() {
            let due = GameModel { last_update: m.clock, ..checked };
            lemma_active_count_push(due.falling_objects, due.spawned_object(roll));
            assert(due.wf());
            if crate::utils::valid_coordinates(crate::utils::Point { x: roll.x, y: 0 }) {
                assert(wf_in_play(due.spawn(roll)));
                lemma_play_preserves_wf(due.spawn(roll));
            }
        } else {
            lemma_play_preserves_wf(checked);
        }
    }
}

/// A frame keeps the state well-formed, whatever the mode.
pub proof fn lemma_frame_preserves_wf(m: GameModel, mouse: Mouse, roll: SpawnRoll)
    requires
        m.wf(),
    ensures
        m.frame(mouse, roll).state.wf(),
{
    match m.game_mode {
        GameMode::Menu => lemma_update_menu_preserves_wf(m, mouse),
        GameMode::Playing => lemma_update_playing_preserves_wf(m, mouse, roll),
        GameMode::GameOver => lemma_update_game_over_preserves_wf(m, mouse),
        GameMode::NextLevel => lemma_update_next_level_preserves_wf(m, mouse),
        GameMode::Victory => lemma_update_victory_preserves_wf(m, mouse),
        GameMode::LevelSelection => lemma_update_select_level_preserves_wf(m, mouse),
        GameMode::HowToPlay => lemma_update_how_to_play_preserves_wf(m, mouse),
    }
}

/// An update keeps the state well-formed.
pub proof fn lemma_update_preserves_wf(m: GameModel, input: FrameInput, roll: SpawnRoll)
    requires
        m.wf(),
    ensures
        m.update(input, roll).state.wf(),
{
    lemma_observe_preserves_wf(m, input.now);
    lemma_frame_preserves_wf(m.observe(input.now), input.mouse, roll);
}

} // verus!
