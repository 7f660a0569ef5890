//! What holds of the game whatever the player does.

use vstd::prelude::*;
use crate::collisions::{bad_strikes, is_struck, score_gain, strike_lives, strike_points};
use crate::consts::LIVES;
use crate::input::{FrameInput, Key};
use crate::model::GameModel;
use crate::modes::GameMode;
use crate::objects::FallingObject;
use crate::random::SpawnRoll;
use crate::utils::Rect;

verus! {

/// The mode `to` may follow the mode `from` in one frame: the game stays in
/// its mode, or takes one of the ways that the screens offer.
pub open spec fn may_follow(from: GameMode, to: GameMode) -> bool {
    to == from || match from {
        GameMode::Menu => to == GameMode::Playing || to == GameMode::LevelSelection || to
            == GameMode::HowToPlay,
        GameMode::LevelSelection => to == GameMode::Playing,
        GameMode::HowToPlay => to == GameMode::Menu,
        GameMode::Playing => to == GameMode::Menu || to == GameMode::NextLevel || to
            == GameMode::Victory || to == GameMode::GameOver,
        GameMode::NextLevel => to == GameMode::Playing,
        GameMode::GameOver => to == GameMode::Playing,
        GameMode::Victory => to == GameMode::Playing,
    }
}

/// A frame changes the mode only along the ways that the screens offer, a
/// key press not at all.
pub proof fn lemma_modes_follow_the_screens(
    m: GameModel,
    input: FrameInput,
    roll: SpawnRoll,
    key: Key,
)
    ensures
        may_follow(m.game_mode, m.update(input, roll).state.game_mode),
        m.observe(input.now).key_down(key).game_mode == m.game_mode,
{
}

/// The level that follows a level is the next one of the table, and the
/// game offers it only where the table has one: after a frame of the screen
/// between two levels the game is at the same level or, once the player has
/// asked for it, at the start of the next, with the points of the level
/// added to the total.
pub proof fn lemma_next_level_takes_up_the_score(m: GameModel, input: FrameInput, roll: SpawnRoll)
    requires
        m.wf(),
        m.game_mode == GameMode::NextLevel,
    ensures
        m.update(input, roll).state.game_mode == GameMode::Playing ==> {
            &&& m.update(input, roll).state.current_level == m.current_level + 1
            &&& m.update(input, roll).state.current_level < crate::levels::LEVEL_COUNT
            &&& m.update(input, roll).state.total_score == m.total_score + m.level_score
            &&& m.update(input, roll).state.level_score == 0
            &&& m.update(input, roll).state.lives == LIVES
        },
        m.update(input, roll).state.game_mode == GameMode::NextLevel ==> m.update(
            input,
            roll,
        ).state.current_level == m.current_level,
{
}

/// The state after the levels of `targets` were started one after the other.
pub open spec fn after_resets(m: GameModel, targets: Seq<nat>) -> GameModel
    decreases targets.len(),
{
    if targets.len() == 0 {
        m
    } else {
        after_resets(m, targets.drop_last()).reset(targets.last())
    }
}

/// After any sequence of level starts, all lives are there and the level's
/// score is zero.
pub proof fn lemma_resets_restore_lives_and_score(m: GameModel, targets: Seq<nat>)
    requires
        targets.len() > 0,
    ensures
        after_resets(m, targets).lives == LIVES,
        after_resets(m, targets).level_score == 0,
        after_resets(m, targets).game_mode == GameMode::Playing,
{
}

/// Starting a level twice is starting it once, as far as lives and the
/// level's score go.
pub proof fn lemma_reset_is_idempotent(m: GameModel, target_level: nat)
    ensures
        m.reset(target_level).reset(target_level).lives == m.reset(target_level).lives,
        m.reset(target_level).reset(target_level).level_score == m.reset(
            target_level,
        ).level_score,
{
}

/// A pause that is resumed keeps the remaining time: what is left of the
/// level when a running game is paused at `paused_at` is what is left of it
/// when the game is resumed at `resumed_at`, however long the pause.
pub proof fn lemma_pause_keeps_remaining_time(m: GameModel, paused_at: u64, resumed_at: u64)
    requires
        m.wf(),
        m.game_mode == GameMode::Playing,
        !m.is_paused,
        paused_at <= resumed_at,
    ensures
        m.observe(paused_at).pause().observe(resumed_at).resume().remaining_time(resumed_at)
            == m.remaining_time(paused_at),
{
}

/// A pause that is resumed in the same instant changes nothing of the
/// remaining time, in whatever mode the game is.
pub proof fn lemma_instant_pause_keeps_remaining_time(m: GameModel, now: u64)
    requires
        m.wf(),
        !m.is_paused,
    ensures
        m.observe(now).pause().observe(now).resume().remaining_time(now) == m.remaining_time(
            now,
        ),
{
}

/// Striking a good object earns points and costs no life; striking a bad
/// object costs exactly one life and earns nothing; an object that is not
/// struck does neither.
pub proof fn lemma_strike_effects(object: FallingObject, player_rect: Rect)
    ensures
        is_struck(object, player_rect) && object.is_good ==> strike_points(object, player_rect)
            > 0 && strike_lives(object, player_rect) == 0,
        is_struck(object, player_rect) && !object.is_good ==> strike_points(object, player_rect)
            == 0 && strike_lives(object, player_rect) == 1,
        !is_struck(object, player_rect) ==> strike_points(object, player_rect) == 0
            && strike_lives(object, player_rect) == 0,
{
}

/// A round earns points exactly when it strikes a good object, and costs
/// lives exactly when it strikes a bad one.
pub proof fn lemma_round_effects(objects: Seq<FallingObject>, player_rect: Rect)
    ensures
        0 <= score_gain(objects, player_rect),
        score_gain(objects, player_rect) > 0 <==> exists|i: int|
            0 <= i < objects.len() && is_struck(#[trigger] objects[i], player_rect)
                && objects[i].is_good,
        bad_strikes(objects, player_rect) > 0 <==> exists|i: int|
            0 <= i < objects.len() && is_struck(#[trigger] objects[i], player_rect)
                && !objects[i].is_good,
    decreases objects.len(),
{
    if objects.len() > 0 {
        let init = objects.drop_last();
        lemma_round_effects(init, player_rect);
        lemma_strike_effects(objects.last(), player_rect);
        if score_gain(init, player_rect) > 0 {
            let i = choose|i: int|
                0 <= i < init.len() && is_struck(#[trigger] init[i], player_rect)
                    && init[i].is_good;
            assert(objects[i] == init[i]);
        }
        if bad_strikes(init, player_rect) > 0 {
            let i = choose|i: int|
                0 <= i < init.len() && is_struck(#[trigger] init[i], player_rect)
                    && !init[i].is_good;
            assert(objects[i] == init[i]);
        }
        if is_struck(objects.last(), player_rect) {
            assert(objects[objects.len() - 1] == objects.last());
        }
        assert forall|i: int|
            0 <= i < objects.len() && is_struck(#[trigger] objects[i], player_rect)
                && objects[i].is_good implies score_gain(objects, player_rect) > 0 by {
            if i < init.len() {
                assert(init[i] == objects[i]);
            }
        }
        assert forall|i: int|
            0 <= i < objects.len() && is_struck(#[trigger] objects[i], player_rect)
                && !objects[i].is_good implies bad_strikes(objects, player_rect) > 0 by {
            if i < init.len() {
                assert(init[i] == objects[i]);
            }
        }
    }
}

/// A round in which the player strikes a good object and no bad one raises
/// the level's score and leaves lives and mode as they are.
pub proof fn lemma_good_collision(m: GameModel, i: int)
    requires
        0 <= i < m.falling_objects.len(),
        is_struck(m.falling_objects[i], m.player.rect_spec()),
        m.falling_objects[i].is_good,
        bad_strikes(m.falling_objects, m.player.rect_spec()) == 0,
    ensures
        m.collide().level_score > m.level_score,
        m.collide().lives == m.lives,
        m.collide().game_mode == m.game_mode,
{
    lemma_round_effects(m.falling_objects, m.player.rect_spec());
}

/// A round in which the player strikes bad objects and no good one leaves
/// the level's score as it is and takes one life for each bad object, as
/// long as there are lives to take.
pub proof fn lemma_bad_collision(m: GameModel)
    requires
        score_gain(m.falling_objects, m.player.rect_spec()) == 0,
        bad_strikes(m.falling_objects, m.player.rect_spec()) <= m.lives,
    ensures
        m.collide().level_score == m.level_score,
        m.collide().lives == m.lives - bad_strikes(m.falling_objects, m.player.rect_spec()),
{
}

/// One more struck bad object on the field costs exactly one life more and
/// earns nothing; one more struck good object earns points and costs no life.
pub proof fn lemma_one_more_collision(
    objects: Seq<FallingObject>,
    object: FallingObject,
    player_rect: Rect,
)
    requires
        is_struck(object, player_rect),
    ensures
        object.is_good ==> score_gain(objects.push(object), player_rect) > score_gain(
            objects,
            player_rect,
        ) && bad_strikes(objects.push(object), player_rect) == bad_strikes(objects, player_rect),
        !object.is_good ==> score_gain(objects.push(object), player_rect) == score_gain(
            objects,
            player_rect,
        ) && bad_strikes(objects.push(object), player_rect) == bad_strikes(objects, player_rect)
            + 1,
{
    assert(objects.push(object).drop_last() =~= objects);
}

/// Lives never rise in a round and never fall below zero, and the game is
/// lost in the very round that takes the last life: the mode is `GameOver`
/// after a round exactly if it was before, or if the round struck a bad
/// object and left no life.
pub proof fn lemma_last_life_ends_the_game(m: GameModel)
    ensures
        0 <= m.collide().lives <= m.lives,
        m.lives > 0 && m.collide().lives == 0 ==> m.collide().game_mode == GameMode::GameOver,
        m.collide().game_mode == GameMode::GameOver <==> (m.game_mode == GameMode::GameOver || (
        bad_strikes(m.falling_objects, m.player.rect_spec()) > 0 && m.collide().lives == 0)),
{
}

/// Of five spawns in a row that begin at a spawn count divisible by five,
/// the first is a bad object and the other four are good ones.
pub proof fn lemma_spawn_pattern(group: nat)
    ensures
        !GameModel::spawns_good(5 * group),
        GameModel::spawns_good(5 * group + 1),
        GameModel::spawns_good(5 * group + 2),
        GameModel::spawns_good(5 * group + 3),
        GameModel::spawns_good(5 * group + 4),
{
}

/// A spawn puts one object on the field, good or bad as the spawn count
/// says, and raises the spawn count by one.
pub proof fn lemma_spawn_follows_pattern(m: GameModel, roll: SpawnRoll)
    ensures
        m.spawn(roll).spawn_count == m.spawn_count + 1,
        m.spawn(roll).falling_objects.len() == m.falling_objects.len() + 1,
        m.spawn(roll).falling_objects.last().is_good == GameModel::spawns_good(m.spawn_count),
        m.spawn(roll).falling_objects.last().is_active(),
{
}

/// A round of collisions takes no points away: the level's score does not
/// fall, and the total score stays as it is.
pub proof fn lemma_score_never_falls(m: GameModel)
    ensures
        m.collide().level_score >= m.level_score,
        m.collide().total_score == m.total_score,
{
    lemma_round_effects(m.falling_objects, m.player.rect_spec());
}

} // verus!
