use vstd::prelude::*;
use vstd::string::StringExecFns;
use crate::buttons::{Color, IconButton, TextButton};
use crate::collisions::{active_count, lemma_round_is_paid_for, purge, resolve};
use crate::consts::{BUTTON_TEXT_SIZE, FALLING_OBJECT_UPDATE_MILLIS, LEVEL_DURATION_MILLIS,
    LINGER_MILLIS, LIVES, PULSE_STEP, PX, WINDOW_HEIGHT, WINDOW_WIDTH};
use crate::errors::DodgerError;
use crate::input::{FrameInput, Key, Mouse};
use crate::levels::{get_levels, level_table, Level, LEVEL_COUNT};
use crate::model::{corner_button_point, menu_column_top, pause_button_point, GameModel, Step};
use crate::modes::GameMode;
use crate::objects::FallingObject;
use crate::player::Player;
use crate::random::{bucket_value, is_spawn_roll, roll_spawn, SpawnRoll};
use crate::resources::{LevelImages, Resources};
use crate::sound::{sound_table, AudioManager, Sound};
use crate::upkeep::{lemma_advance_preserves_wf, lemma_clicked_level_exists,
    lemma_key_down_preserves_wf, lemma_level_score_bounded, lemma_observe_preserves_wf,
    lemma_reset_preserves_wf, lemma_total_score_bounded, lemma_update_game_over_preserves_wf,
    lemma_update_how_to_play_preserves_wf, lemma_update_menu_preserves_wf,
    lemma_update_next_level_preserves_wf, lemma_update_victory_preserves_wf, may_reset,
    wf_in_play};
use crate::utils::{button_in_set_point, centered_button_point, get_level_button, half_scaling,
    icon_button_rect, is_button_clicked, object_scaling, player_scaling,
    start_point_of_button_in_set, start_point_of_centered_button, text_button_rect,
    text_button_rectsize, text_button_size, Point, RectSize, Scaling};

mod draw;

verus! {

/// What one update asks the embedding program to do.
#[derive(Clone, PartialEq, Eq, Debug)]
pub struct FrameOutput {
    /// The sounds to play, in order.
    pub sounds: Vec<Sound>,
    /// The player asked to leave the game.
    pub quit: bool,
}

/// The result of an update reports the step: its error where it failed,
/// else what it asks for.
pub open spec fn reports(r: Result<FrameOutput, DodgerError>, step: Step) -> bool {
    match r {
        Ok(out) => step.error is None && out.sounds@ == step.sounds && out.quit == step.quit,
        Err(e) => step.error == Some(e),
    }
}

/// The button is a white text button with black text in the button font,
/// with the given corner, size and label.
pub open spec fn is_text_button(
    button: TextButton,
    coords: Point,
    size: RectSize,
    label: Seq<char>,
) -> bool {
    &&& button.coords == coords
    &&& button.button_color == Color::White
    &&& button.button_size == size
    &&& button.text.line@ == label
    &&& button.text.font@ == "button_font"@
    &&& button.text.scale == BUTTON_TEXT_SIZE
    &&& button.text.color == Color::Black
}

/// The size in which the "Menu" and "Back" buttons are drawn.
pub open spec fn corner_button_size() -> RectSize {
    RectSize { w: (100 * PX) as i64, h: (40 * PX) as i64 }
}

/// **Represents the state of the game, including all game objects, UI elements, and game logic.**
///
/// ## Fields
/// * `total_score`: the player's total score across all levels.
/// * `level_score`: the player's score for the current level.
/// * `current_level`: the index of the current level being played.
/// * `levels`: a list of all available levels.
/// * `level_images`: the pictures of every level.
/// * `resources`: the resources of the current level.
/// * `player`: the player object.
/// * `falling_objects`: a list of objects currently falling in the game.
/// * `spawn_count`: the number of objects spawned since the level started.
/// * `clock`: the latest time that the game has seen.
/// * `last_update`: the timestamp of the last spawn.
/// * `level_start_time`: the timestamp when the current level started.
/// * `paused_time`: the timestamp when the game was halted, if applicable.
/// * `audio`: the audio manager.
/// * the buttons of the screens.
/// * `lives`: the number of lives the player has remaining.
/// * `game_mode`: the current mode of the game (e.g., Menu, Playing, GameOver).
/// * `level_complete_sound_played`: whether the level complete sound has been played.
/// * `victory_sound_played`: whether the victory sound has been played.
/// * `game_over_sound_played`: whether the game over sound has been played.
/// * `game_started`: whether the game has started.
/// * `is_paused`: whether the game is currently paused.
pub struct GameState {
    total_score: i32,
    level_score: i32,
    current_level: usize,
    levels: Vec<Level>,
    level_images: Vec<LevelImages>,
    resources: Resources,
    player: Player,
    falling_objects: Vec<FallingObject>,
    spawn_count: u32,
    clock: u64,
    last_update: u64,
    level_start_time: u64,
    paused_time: Option<u64>,
    audio: AudioManager,
    audio_button: IconButton,
    start_button: TextButton,
    exit_button: TextButton,
    resume_button: TextButton,
    menu_button: TextButton,
    back_to_menu_button: TextButton,
    pause_button: IconButton,
    next_level_button: TextButton,
    restart_button: TextButton,
    select_level_button: TextButton,
    howtoplay_button: TextButton,
    lives: u8,
    game_mode: GameMode,
    level_complete_sound_played: bool,
    victory_sound_played: bool,
    game_over_sound_played: bool,
    game_started: bool,
    is_paused: bool,
}

impl View for GameState {
    type V = GameModel;

    closed spec fn view(&self) -> GameModel {
        GameModel {
            total_score: self.total_score as int,
            level_score: self.level_score as int,
            current_level: self.current_level as nat,
            level_images: self.level_images@,
            resources: self.resources,
            player: self.player,
            falling_objects: self.falling_objects@,
            spawn_count: self.spawn_count as nat,
            clock: self.clock as nat,
            last_update: self.last_update as nat,
            level_start_time: self.level_start_time as nat,
            paused_time: match self.paused_time {
                Some(paused) => Some(paused as nat),
                None => None,
            },
            is_muted: self.audio.is_muted,
            speaker_icon: self.audio.speaker_icon,
            speaker_muted_icon: self.audio.speaker_muted_icon,
            audio_button: self.audio_button,
            lives: self.lives as nat,
            game_mode: self.game_mode,
            level_complete_sound_played: self.level_complete_sound_played,
            victory_sound_played: self.victory_sound_played,
            game_over_sound_played: self.game_over_sound_played,
            game_started: self.game_started,
            is_paused: self.is_paused,
        }
    }
}

impl GameState {
    /// The state is one that the game can reach: its model is well-formed,
    /// the level table and the sound registry are the game's own, and every
    /// button is where the screens show it.
    pub closed spec fn wf(&self) -> bool {
        &&& self@.wf()
        &&& self.levels@ == level_table()
        &&& self.audio.registry() == sound_table()
        &&& is_text_button(
            self.start_button,
            button_in_set_point(0, menu_column_top()),
            text_button_size(),
            "Start"@,
        )
        &&& is_text_button(
            self.resume_button,
            button_in_set_point(0, menu_column_top()),
            text_button_size(),
            "Resume"@,
        )
        &&& is_text_button(
            self.select_level_button,
            button_in_set_point(1, menu_column_top()),
            text_button_size(),
            "Select Level"@,
        )
        &&& is_text_button(
            self.howtoplay_button,
            button_in_set_point(2, menu_column_top()),
            text_button_size(),
            "How to Play"@,
        )
        &&& is_text_button(
            self.exit_button,
            button_in_set_point(3, menu_column_top()),
            text_button_size(),
            "Exit"@,
        )
        &&& is_text_button(
            self.menu_button,
            corner_button_point(),
            corner_button_size(),
            "Menu"@,
        )
        &&& is_text_button(
            self.back_to_menu_button,
            corner_button_point(),
            corner_button_size(),
            "Back"@,
        )
        &&& is_text_button(
            self.next_level_button,
            centered_button_point(),
            text_button_size(),
            "Next Level"@,
        )
        &&& is_text_button(
            self.restart_button,
            centered_button_point(),
            text_button_size(),
            "Restart"@,
        )
        &&& self.pause_button == (IconButton {
            coords: pause_button_point(),
            scaling: Scaling { x: 50, y: 50 },
            icon: self.resources.pause_button_image,
        })
    }

    /// A state that the game can reach has a well-formed model: the scores,
    /// the lives, the level and the timers are within their bounds.
    pub proof fn lemma_wf_model(&self)
        requires
            self.wf(),
        ensures
            self@.wf(),
    {
    }

    /// Makes a white text button with black text in the button font.
    fn text_button(coords: Point, size: RectSize, label: &str) -> (r: Result<
        TextButton,
        DodgerError,
    >)
        ensures
            crate::utils::valid_coordinates(coords) ==> (r matches Ok(button) && is_text_button(
                button,
                coords,
                size,
                label@,
            )),
            !crate::utils::valid_coordinates(coords) ==> r is Err,
    {
        TextButton::new(
            coords,
            Color::White,
            size,
            String::from_str(label),
            Color::Black,
            BUTTON_TEXT_SIZE,
            String::from_str("button_font"),
        )
    }

    /// **Initializes a new `GameState` with default values and resources.**
    ///
    /// ## Parameters
    /// * `level_images`: the pictures of every level, in the order of the levels.
    /// * `current_level`: index of the starting level.
    /// * `audio_manager`: the audio manager, for its speaker icons.
    /// * `now`: the time on the game's clock.
    ///
    /// ## Returns
    /// The initialized `GameState`, or `DodgerError::Unexpected` if the pictures
    /// are not those of the game's levels or the starting level is none of them.
    ///
    /// ## Behavior
    /// * Initializes the player, buttons, and other game objects.
    /// * Sets up the initial game state (e.g., score, lives, game mode).
    pub fn new(
        level_images: Vec<LevelImages>,
        current_level: usize,
        audio_manager: AudioManager,
        now: u64,
    ) -> (r: Result<Self, DodgerError>)
        ensures
            level_images@.len() == LEVEL_COUNT && current_level < LEVEL_COUNT ==> (r matches Ok(
                state,
            ) && state.wf() && state@ == GameModel::initial(
                level_images@,
                current_level as nat,
                audio_manager.speaker_icon,
                audio_manager.speaker_muted_icon,
                now,
            )),
            !(level_images@.len() == LEVEL_COUNT && current_level < LEVEL_COUNT) ==> r == Err::<
                GameState,
                DodgerError,
            >(DodgerError::Unexpected),
    {
        let levels = get_levels();
        if level_images.len() != levels.len() || current_level >= levels.len() {
            return Err(DodgerError::Unexpected);
        }
        let resources = match Resources::load_level(
            current_level,
            levels.as_slice(),
            &level_images[current_level],
        ) {
            Ok(resources) => resources,
            Err(e) => { return Err(e); },
        };
        let player = Player::new(
            Point { x: WINDOW_WIDTH / 2, y: WINDOW_HEIGHT - 175 * PX },
            player_scaling(),
            &resources.player_image,
        )?;
        let default_text_button_size = text_button_rectsize();
        let restart_button = Self::text_button(
            start_point_of_centered_button(),
            default_text_button_size,
            "Restart",
        )?;

        let audio_button = IconButton::new(
            Point { x: WINDOW_WIDTH - 85 * PX, y: 60 * PX },
            Scaling { x: 15, y: 15 },
            audio_manager.speaker_icon,
        )?;

        let pause_button = IconButton::new(
            Point { x: WINDOW_WIDTH / 2 - 40 * PX, y: WINDOW_HEIGHT / 2 - 30 * PX },
            half_scaling(),
            resources.pause_button_image,
        )?;

        let next_level_button = Self::text_button(
            start_point_of_centered_button(),
            default_text_button_size,
            "Next Level",
        )?;

        let start_button = Self::text_button(
            start_point_of_button_in_set(0, 300 * PX),
            default_text_button_size,
            "Start",
        )?;

        let resume_button = Self::text_button(
            start_point_of_button_in_set(0, 300 * PX),
            default_text_button_size,
            "Resume",
        )?;

        let select_level_button = Self::text_button(
            start_point_of_button_in_set(1, 300 * PX),
            default_text_button_size,
            "Select Level",
        )?;

        let howtoplay_button = Self::text_button(
            start_point_of_button_in_set(2, 300 * PX),
            default_text_button_size,
            "How to Play",
        )?;

        let exit_button = Self::text_button(
            start_point_of_button_in_set(3, 300 * PX),
            default_text_button_size,
            "Exit",
        )?;

        let menu_button = Self::text_button(
            Point { x: WINDOW_WIDTH - 200 * PX, y: 10 * PX },
            RectSize { w: 100 * PX, h: 40 * PX },
            "Menu",
        )?;

        let back_to_menu_button = Self::text_button(
            Point { x: WINDOW_WIDTH - 200 * PX, y: 10 * PX },
            RectSize { w: 100 * PX, h: 40 * PX },
            "Back",
        )?;

        let audio = AudioManager::new(
            audio_manager.speaker_icon,
            audio_manager.speaker_muted_icon,
        );

        let game = GameState {
            total_score: 0,
            level_score: 0,
            player,
            current_level,
            levels,
            level_images,
            resources,
            falling_objects: Vec::new(),
            spawn_count: 0,
            clock: now,
            last_update: now,
            level_start_time: now,
            paused_time: None,
            audio,
            audio_button,
            start_button,
            resume_button,
            exit_button,
            menu_button,
            back_to_menu_button,
            pause_button,
            next_level_button,
            restart_button,
            select_level_button,
            howtoplay_button,
            lives: LIVES,
            game_mode: GameMode::Menu,
            level_complete_sound_played: false,
            victory_sound_played: false,
            game_over_sound_played: false,
            game_started: false,
            is_paused: false,
        };
        proof {
            assert(active_count(game.falling_objects@) == 0);
        }
        Ok(game)
    }

    /// The player's total score across the completed levels.
    pub fn total_score(&self) -> (r: i32)
        ensures
            r == self@.total_score,
    {
        self.total_score
    }

    /// The player's score for the current level.
    pub fn level_score(&self) -> (r: i32)
        ensures
            r == self@.level_score,
    {
        self.level_score
    }

    /// The index of the current level.
    pub fn current_level(&self) -> (r: usize)
        ensures
            r == self@.current_level,
    {
        self.current_level
    }

    /// The number of lives the player has remaining.
    pub fn lives(&self) -> (r: u8)
        ensures
            r == self@.lives,
    {
        self.lives
    }

    /// The current mode of the game.
    pub fn game_mode(&self) -> (r: GameMode)
        ensures
            r == self@.game_mode,
    {
        self.game_mode
    }

    /// Whether the game is paused.
    pub fn is_paused(&self) -> (r: bool)
        ensures
            r == self@.is_paused,
    {
        self.is_paused
    }

    /// Whether a game has started.
    pub fn game_started(&self) -> (r: bool)
        ensures
            r == self@.game_started,
    {
        self.game_started
    }

    /// The number of objects spawned since the level started.
    pub fn spawn_count(&self) -> (r: u32)
        ensures
            r == self@.spawn_count,
    {
        self.spawn_count
    }

    /// The latest time that the game has seen.
    pub fn clock(&self) -> (r: u64)
        ensures
            r == self@.clock,
    {
        self.clock
    }

    /// When the current level started.
    pub fn level_start_time(&self) -> (r: u64)
        ensures
            r == self@.level_start_time,
    {
        self.level_start_time
    }

    /// When the last object was spawned.
    pub fn last_update(&self) -> (r: u64)
        ensures
            r == self@.last_update,
    {
        self.last_update
    }

    /// When the game was last halted, until the halt has been made up for.
    pub fn paused_time(&self) -> (r: Option<u64>)
        ensures
            r is Some <==> self@.paused_time is Some,
            r matches Some(paused) ==> self@.paused_time == Some(paused as nat),
    {
        self.paused_time
    }

    /// The player.
    pub fn player(&self) -> (r: Player)
        ensures
            r == self@.player,
    {
        self.player
    }

    /// The objects on the field, in the order in which they were spawned.
    pub fn falling_objects(&self) -> (r: &Vec<FallingObject>)
        ensures
            r@ == self@.falling_objects,
    {
        &self.falling_objects
    }

    /// The resources of the current level.
    pub fn resources(&self) -> (r: Resources)
        ensures
            r == self@.resources,
    {
        self.resources
    }

    /// The audio manager: the mute flag and the registry of sounds.
    pub fn audio(&self) -> (r: &AudioManager)
        requires
            self.wf(),
        ensures
            r.is_muted == self@.is_muted,
            r.speaker_icon == self@.speaker_icon,
            r.speaker_muted_icon == self@.speaker_muted_icon,
            r.registry() == sound_table(),
    {
        &self.audio
    }

    /// Looks at the clock and returns the time that it shows. Time does not
    /// run backwards: a time before the latest one seen is read as that one.
    fn observe(&mut self, now: u64) -> (time: u64)
        requires
            old(self).wf(),
        ensures
            final(self).wf(),
            final(self)@ == old(self)@.observe(now),
            time == final(self)@.clock,
    {
        proof {
            lemma_observe_preserves_wf(self@, now);
        }
        if now > self.clock {
            self.clock = now;
        }
        self.clock
    }

    /// **Resets the game state for a new level or restart.**
    ///
    /// ## Parameters
    /// `target_level`: the level to start.
    ///
    /// ## Behavior
    /// * Resets the score, lives, and timers.
    /// * Clears the list of falling objects.
    /// * Takes up the resources of the level.
    /// * Sets the game mode to `Playing`.
    fn reset(&mut self, target_level: usize) -> (r: Result<(), DodgerError>)
        requires
            old(self).wf(),
            may_reset(old(self)@, target_level as nat),
        ensures
            r is Ok,
            final(self).wf(),
            final(self)@ == old(self)@.reset(target_level as nat),
            final(self)@.lives == LIVES,
            final(self)@.level_score == 0,
    {
        proof {
            lemma_reset_preserves_wf(self@, target_level as nat);
            lemma_level_score_bounded(self@);
            lemma_total_score_bounded(self@);
        }
        if self.game_mode == GameMode::GameOver || self.game_mode == GameMode::Victory
            || self.game_mode == GameMode::LevelSelection {
            self.total_score = 0;
        } else {
            self.total_score += self.level_score;
        }
        self.current_level = target_level;
        self.falling_objects.clear();
        self.spawn_count = 0;
        self.level_score = 0;
        self.lives = LIVES;
        self.level_start_time = self.clock;
        self.last_update = self.clock;
        self.level_complete_sound_played = false;
        self.victory_sound_played = false;
        self.game_over_sound_played = false;
        self.is_paused = false;
        let resources = Resources::load_level(
            self.current_level,
            self.levels.as_slice(),
            &self.level_images[target_level],
        )?;
        self.resources = resources;
        self.pause_button.icon = resources.pause_button_image;

        let player = Player::new(
            Point { x: WINDOW_WIDTH / 2, y: WINDOW_HEIGHT - 175 * PX },
            player_scaling(),
            &resources.player_image,
        )?;
        self.player = player;

        self.game_mode = GameMode::Playing;
        assert(self.falling_objects@ =~= Seq::<FallingObject>::empty());

        Ok(())
    }

    /// **Pauses the game.**
    ///
    /// ## Behavior
    /// * Records the current time as the pause start time.
    /// * Sets `is_paused` to `true`.
    fn pause(&mut self)
        requires
            old(self).wf(),
        ensures
            final(self).wf(),
            final(self)@ == old(self)@.pause(),
    {
        proof {
            lemma_key_down_preserves_wf(self@, Key::Space);
        }
        if self.game_mode == GameMode::Playing {
            self.paused_time = Some(self.clock);
            self.is_paused = true;
        }
    }

    /// Makes up for a halt: moves the level's start and the last spawn
    /// forward by the time since the game was halted.
    fn catch_up(&mut self)
        requires
            old(self).wf(),
            old(self)@.is_paused || old(self)@.resting(),
        ensures
            final(self)@ == old(self)@.caught_up(),
            final(self).wf(),
    {
        if let Some(paused_time) = self.paused_time {
            let pause_duration = self.clock - paused_time;
            self.level_start_time += pause_duration;
            self.last_update += pause_duration;
        }
        self.paused_time = None;
    }

    /// **Resumes the game from pause.**
    ///
    /// ## Behavior
    /// * Calculates the duration of the pause.
    /// * Adjusts the game timers to account for the pause duration.
    /// * Sets `is_paused` to `false`.
    fn resume(&mut self)
        requires
            old(self).wf(),
        ensures
            final(self).wf(),
            final(self)@ == old(self)@.resume(),
    {
        if self.is_paused {
            self.catch_up();
            self.is_paused = false;
        }
    }

    /// **Calculates the remaining time for the current level.**
    ///
    /// ## Returns
    /// The remaining time in seconds at the time `now`.
    ///
    /// ## Behavior
    /// * If the game is paused, the remaining time is that at the last spawn.
    /// * If the game is not paused, calculates the remaining time based on the current time.
    pub fn get_remaining_time(&self, now: u64) -> (r: u64)
        requires
            self.wf(),
        ensures
            r == self@.remaining_time(now),
            r <= crate::consts::LEVEL_DURATION_SECS,
    {
        let now = if now > self.clock {
            now
        } else {
            self.clock
        };
        let elapsed = if self.is_paused {
            self.last_update - self.level_start_time
        } else {
            now - self.level_start_time
        };
        if elapsed >= LEVEL_DURATION_MILLIS {
            0
        } else {
            (LEVEL_DURATION_MILLIS - elapsed) / 1000
        }
    }

    /// **Handles a key press.**
    ///
    /// ## Behavior
    /// * Space pauses a running game and resumes a paused one.
    /// * The left and right arrows move the player by one step, as long as
    ///   the player has not reached the border of the field.
    pub fn key_down_event(&mut self, key: Key, now: u64)
        requires
            old(self).wf(),
        ensures
            final(self).wf(),
            final(self)@ == old(self)@.observe(now).key_down(key),
    {
        self.observe(now);
        proof {
            lemma_key_down_preserves_wf(self@, key);
        }
        match key {
            Key::Space => {
                if self.is_paused {
                    self.resume()
                } else {
                    self.pause()
                }
            },
            Key::Left => {
                if self.player.coords.x > 0 {
                    self.player.move_left();
                }
            },
            Key::Right => {
                if (self.player.coords.x as i128) < WINDOW_WIDTH as i128
                    - self.player.size.w as i128 {
                    self.player.move_right();
                }
            },
            Key::Other => (),
        }
    }

    /// **Updates the game state when in the main menu.**
    ///
    /// ## Behavior
    /// Handles button clicks for starting/resuming the game, selecting levels, opening the "How to Play" screen, and exiting the game.
    fn update_menu(&mut self, mouse: &Mouse) -> (r: Result<FrameOutput, DodgerError>)
        requires
            old(self).wf(),
            old(self)@.game_mode == GameMode::Menu,
        ensures
            final(self).wf(),
            final(self)@ == old(self)@.update_menu(*mouse).state,
            r matches Ok(out) && out.sounds@ == old(self)@.update_menu(*mouse).sounds && out.quit
                == old(self)@.update_menu(*mouse).quit,
    {
        proof {
            lemma_update_menu_preserves_wf(self@, *mouse);
        }
        if !self.game_started {
            if is_button_clicked(mouse, text_button_rect(&self.start_button)?) {
                self.level_start_time = self.clock;
                self.last_update = self.clock;
                self.game_mode = GameMode::Playing;
            }
        } else if is_button_clicked(mouse, text_button_rect(&self.resume_button)?) {
            self.catch_up();
            self.game_mode = GameMode::Playing;
        }

        if is_button_clicked(mouse, text_button_rect(&self.select_level_button)?) {
            self.game_mode = GameMode::LevelSelection;
        }

        if is_button_clicked(mouse, text_button_rect(&self.howtoplay_button)?) {
            self.game_mode = GameMode::HowToPlay;
        }

        let quit = is_button_clicked(mouse, text_button_rect(&self.exit_button)?);
        Ok(FrameOutput { sounds: Vec::new(), quit })
    }

    /// **Updates the game state when in "How to Play" screen.**
    fn update_how_to_play(&mut self, mouse: &Mouse) -> (r: Result<FrameOutput, DodgerError>)
        requires
            old(self).wf(),
            old(self)@.game_mode == GameMode::HowToPlay,
        ensures
            final(self).wf(),
            final(self)@ == old(self)@.update_how_to_play(*mouse).state,
            r matches Ok(out) && out.sounds@ == old(self)@.update_how_to_play(*mouse).sounds
                && out.quit == old(self)@.update_how_to_play(*mouse).quit,
    {
        proof {
            lemma_update_how_to_play_preserves_wf(self@, *mouse);
        }
        if is_button_clicked(mouse, text_button_rect(&self.back_to_menu_button)?) {
            self.game_mode = GameMode::Menu;
        }
        Ok(FrameOutput { sounds: Vec::new(), quit: false })
    }

    /// **Updates the game state when in the "Next Level" mode.**
    ///
    /// ## Behavior
    /// * Asks for the "level completed" sound, once.
    /// * Handles button clicks for proceeding to the next level.
    fn update_next_level(&mut self, mouse: &Mouse) -> (r: Result<FrameOutput, DodgerError>)
        requires
            old(self).wf(),
            old(self)@.game_mode == GameMode::NextLevel,
        ensures
            final(self).wf(),
            final(self)@ == old(self)@.update_next_level(*mouse).state,
            r matches Ok(out) && out.sounds@ == old(self)@.update_next_level(*mouse).sounds
                && out.quit == old(self)@.update_next_level(*mouse).quit,
    {
        proof {
            lemma_update_next_level_preserves_wf(self@, *mouse);
            lemma_level_score_bounded(self@);
        }
        let mut sounds: Vec<Sound> = Vec::new();
        if !self.level_complete_sound_played {
            sounds.push(Sound::LevelCompleted);
            self.level_complete_sound_played = true;
        }
        assert(sounds@ =~= old(self)@.update_next_level(*mouse).sounds);

        if is_button_clicked(mouse, text_button_rect(&self.next_level_button)?) {
            assert(crate::model::max_level_score() * self@.current_level
                + crate::model::max_level_score() == crate::model::max_level_score() * (
            self@.current_level + 1)) by (nonlinear_arith);
            self.reset(self.current_level + 1)?;
        }

        Ok(FrameOutput { sounds, quit: false })
    }

    /// **Updates the game state when in "Game Over" mode.**
    ///
    /// ## Behavior
    /// * Asks for the "game over" sound, once.
    /// * Handles button clicks for restarting the game.
    fn update_game_over(&mut self, mouse: &Mouse) -> (r: Result<FrameOutput, DodgerError>)
        requires
            old(self).wf(),
            old(self)@.game_mode == GameMode::GameOver,
        ensures
            final(self).wf(),
            final(self)@ == old(self)@.update_game_over(*mouse).state,
            r matches Ok(out) && out.sounds@ == old(self)@.update_game_over(*mouse).sounds
                && out.quit == old(self)@.update_game_over(*mouse).quit,
    {
        proof {
            lemma_update_game_over_preserves_wf(self@, *mouse);
        }
        let mut sounds: Vec<Sound> = Vec::new();
        if !self.game_over_sound_played {
            sounds.push(Sound::GameOver);
            self.game_over_sound_played = true;
        }
        assert(sounds@ =~= old(self)@.update_game_over(*mouse).sounds);
        if is_button_clicked(mouse, text_button_rect(&self.restart_button)?) {
            self.reset(0)?;
        }
        Ok(FrameOutput { sounds, quit: false })
    }

    /// **Updates the game state when in "Victory" mode.**
    ///
    /// ## Behavior
    /// * Asks for the "victory" sound, once.
    /// * Handles button clicks for restarting the game.
    fn update_victory(&mut self, mouse: &Mouse) -> (r: Result<FrameOutput, DodgerError>)
        requires
            old(self).wf(),
            old(self)@.game_mode == GameMode::Victory,
        ensures
            final(self).wf(),
            final(self)@ == old(self)@.update_victory(*mouse).state,
            r matches Ok(out) && out.sounds@ == old(self)@.update_victory(*mouse).sounds
                && out.quit == old(self)@.update_victory(*mouse).quit,
    {
        proof {
            lemma_update_victory_preserves_wf(self@, *mouse);
        }
        let mut sounds: Vec<Sound> = Vec::new();
        if !self.victory_sound_played {
            sounds.push(Sound::Victory);
            self.victory_sound_played = true;
        }
        assert(sounds@ =~= old(self)@.update_victory(*mouse).sounds);
        if is_button_clicked(mouse, text_button_rect(&self.restart_button)?) {
            self.reset(0)?;
        }
        Ok(FrameOutput { sounds, quit: false })
    }

    /// **Updates the game state when in "Level Selection" mode.**
    ///
    /// ## Behavior
    /// * Handles button clicks for selecting a level.
    /// * Resets the game state to start the selected level.
    fn update_select_level(&mut self, mouse: &Mouse) -> (r: Result<FrameOutput, DodgerError>)
        requires
            old(self).wf(),
            old(self)@.game_mode == GameMode::LevelSelection,
        ensures
            final(self).wf(),
            final(self)@ == old(self)@.update_select_level(*mouse).state,
            r matches Ok(out) && out.sounds@ == old(self)@.update_select_level(*mouse).sounds
                && out.quit == old(self)@.update_select_level(*mouse).quit,
    {
        let n = self.levels.len();
        let mut i: usize = 0;
        while i < n
            invariant
                i <= n,
                n == LEVEL_COUNT,
                self.wf(),
                old(self)@.game_mode == GameMode::LevelSelection,
                self@ == (match GameModel::clicked_level(*mouse, i as nat) {
                    Some(level) => old(self)@.reset(level),
                    None => old(self)@,
                }),
            decreases n - i,
        {
            let level_button = get_level_button(i, 100 * PX, String::from_str("button_font"))?;

            if is_button_clicked(mouse, text_button_rect(&level_button)?) {
                proof {
                    lemma_clicked_level_exists(*mouse, i as nat);
                }
                self.reset(i)?;
            }
            i += 1;
        }

        Ok(FrameOutput { sounds: Vec::new(), quit: false })
    }

    /// **Creates a new falling object and adds it to the game.**
    ///
    /// ## Parameters
    /// `roll`: the position and the value bucket that were drawn for the object.
    ///
    /// ## Returns
    /// `Ok(())` if the object is created successfully, or a `DodgerError` if creation fails.
    ///
    /// ## Behavior
    /// * Determines if the object is "good" or "bad".
    /// * Assigns a value to "good" objects (`High`, `Medium`, `Low`).
    /// * Adds the object to the `falling_objects` list.
    fn create_falling_object(&mut self, roll: SpawnRoll) -> (r: Result<(), DodgerError>)
        requires
            old(self).wf(),
            old(self)@.spawn(roll).wf(),
        ensures
            final(self).wf(),
            crate::utils::valid_coordinates(Point { x: roll.x, y: 0 }) ==> r is Ok && final(self)@
                == old(self)@.spawn(roll),
            !crate::utils::valid_coordinates(Point { x: roll.x, y: 0 }) ==> final(self)@ == old(self)@
                && r == Err::<(), DodgerError>(
                DodgerError::InvalidCoordinates(roll.x, 0, WINDOW_WIDTH, WINDOW_HEIGHT),
            ),
    {
        let is_good = self.spawn_count % 5 != 0;
        let good_object_value = if is_good {
            Some(bucket_value(roll.bucket))
        } else {
            None
        };

        let object = FallingObject::new(
            Point { x: roll.x, y: 0 },
            object_scaling(),
            is_good,
            good_object_value,
            &self.resources,
        )?;

        self.falling_objects.push(object);
        self.spawn_count += 1;

        Ok(())
    }

    /// Moves every falling object on by one update; objects that were struck
    /// stand still.
    fn advance_objects(&mut self)
        requires
            old(self).wf(),
            wf_in_play(old(self)@),
        ensures
            final(self).wf(),
            final(self)@ == old(self)@.advance(),
    {
        proof {
            lemma_advance_preserves_wf(self@);
        }
        let ghost before = self.falling_objects@;
        let n = self.falling_objects.len();
        let mut i: usize = 0;
        while i < n
            invariant
                i <= n,
                n == before.len(),
                self.falling_objects@.len() == n,
                forall|j: int|
                    0 <= j < i ==> self.falling_objects@[j] == (if before[j].is_active() {
                        before[j].updated(self.resources, PULSE_STEP)
                    } else {
                        before[j]
                    }),
                forall|j: int| i <= j < n ==> self.falling_objects@[j] == before[j],
                *self == (GameState { falling_objects: self.falling_objects, ..*old(self) }),
            decreases n - i,
        {
            let mut object = self.falling_objects[i];
            if object.remove_timer.is_none() {
                object.update(&self.resources, PULSE_STEP);
                self.falling_objects.set(i, object);
            }
            i += 1;
        }
        assert(self.falling_objects@ =~= old(self)@.advance().falling_objects);
    }

    ///**Handles collisions between the player and falling objects.**
    ///
    /// ## Returns
    /// The sounds of the collisions, in their order.
    ///
    /// ## Behavior
    /// * Checks for collisions between the player and each falling object.
    /// * Updates the score if the player catches a "good" object.
    /// * Reduces lives if the player collides with a "bad" object.
    /// * Removes objects that have been caught or have expired.
    fn handle_collisions(&mut self) -> (sounds: Vec<Sound>)
        requires
            old(self).wf(),
            wf_in_play(old(self)@),
        ensures
            final(self).wf(),
            wf_in_play(final(self)@),
            final(self)@ == old(self)@.collide(),
            sounds@ == old(self)@.collision_sounds(),
    {
        let player_rect = self.player.rect();
        let now = self.clock;
        proof {
            lemma_round_is_paid_for(self.falling_objects@, player_rect, now);
            lemma_play_step(self@);
        }
        let outcome = resolve(player_rect, &mut self.falling_objects, now);
        self.level_score += outcome.score_delta;
        if outcome.lives_lost > 0 {
            if outcome.lives_lost >= self.lives as usize {
                self.lives = 0;
            } else {
                self.lives -= outcome.lives_lost as u8;
            }
            if self.lives == 0 {
                self.game_mode = GameMode::GameOver;
            }
            self.player.blink_timer = Some(now);
        }
        purge(&mut self.falling_objects, now);
        outcome.sounds
    }

    /// Looks at the buttons of the playing screen: a click on the speaker
    /// turns the sound off or on, a click on "Menu" halts the game and shows
    /// the menu.
    fn playing_buttons(&mut self, mouse: &Mouse) -> (r: Result<(), DodgerError>)
        requires
            old(self).wf(),
            old(self)@.game_mode == GameMode::Playing,
        ensures
            r is Ok,
            final(self).wf(),
            in_frame(final(self)@),
            final(self)@ == old(self)@.playing_buttons(*mouse),
    {
        proof {
            lemma_playing_buttons_preserves_wf(self@, *mouse);
        }
        if !self.game_started {
            self.game_started = true;
        }

        if is_button_clicked(mouse, icon_button_rect(&self.audio_button)?) {
            self.audio.is_muted = !self.audio.is_muted;
        }

        if is_button_clicked(mouse, text_button_rect(&self.menu_button)?) {
            self.game_mode = GameMode::Menu;
            self.paused_time = Some(self.clock);
        }
        Ok(())
    }

    /// Looks at the level's time: once it is up, the level is complete, and
    /// the game is won if it was the last level.
    fn check_level_time(&mut self)
        requires
            old(self).wf(),
            in_frame(old(self)@),
        ensures
            final(self).wf(),
            in_frame(final(self)@),
            time_checked(final(self)@),
            final(self)@ == old(self)@.level_check(),
    {
        proof {
            lemma_level_check_preserves_wf(self@);
        }
        if self.clock - self.level_start_time >= LEVEL_DURATION_MILLIS {
            if self.current_level + 1 < self.levels.len() {
                self.game_mode = GameMode::NextLevel;
            } else {
                self.game_mode = GameMode::Victory;
            }
        }
    }

    /// Ends the player's blinking once it has lasted for `LINGER_MILLIS`.
    fn recover_player(&mut self)
        requires
            old(self).wf(),
            wf_in_play(old(self)@),
        ensures
            final(self).wf(),
            final(self)@ == old(self)@.recover(),
    {
        let now = self.clock;
        if let Some(timer) = self.player.blink_timer {
            if now >= timer && now - timer >= LINGER_MILLIS {
                self.player.blink_timer = None;
                self.player.alpha = 1000;
            }
        }
    }

    /// The rest of a frame of play, once the frame's spawn is done: moves
    /// the objects, resolves the collisions and looks after the player's
    /// blinking.
    fn play(&mut self) -> (sounds: Vec<Sound>)
        requires
            old(self).wf(),
            wf_in_play(old(self)@),
        ensures
            final(self).wf(),
            final(self)@ == old(self)@.play().state,
            sounds@ == old(self)@.play().sounds,
    {
        self.advance_objects();
        let sounds = self.handle_collisions();
        self.recover_player();
        sounds
    }

    /// Spawns an object if one spawn interval has passed since the last spawn.
    fn spawn_if_due(&mut self, roll: SpawnRoll) -> (r: Result<(), DodgerError>)
        requires
            old(self).wf(),
            in_frame(old(self)@),
            time_checked(old(self)@),
            !old(self)@.is_paused,
        ensures
            final(self).wf(),
            !old(self)@.spawn_due() ==> r is Ok && final(self)@ == old(self)@,
            old(self)@.spawn_due() && crate::utils::valid_coordinates(Point { x: roll.x, y: 0 })
                ==> r is Ok && wf_in_play(final(self)@) && final(self)@ == (GameModel {
                last_update: old(self)@.clock,
                ..old(self)@
            }).spawn(roll),
            old(self)@.spawn_due() && !crate::utils::valid_coordinates(Point { x: roll.x, y: 0 })
                ==> final(self)@ == (GameModel { last_update: old(self)@.clock, ..old(self)@ })
                && r == Err::<(), DodgerError>(
                DodgerError::InvalidCoordinates(roll.x, 0, WINDOW_WIDTH, WINDOW_HEIGHT),
            ),
    {
        if self.clock - self.last_update >= FALLING_OBJECT_UPDATE_MILLIS {
            proof {
                lemma_spawn_step(self@, roll);
            }
            self.last_update = self.clock;
            self.create_falling_object(roll)?;
        }
        Ok(())
    }

    /// **Updates the game state when in the playing mode.**
    ///
    /// ## Parameters
    /// * `mouse`: the state of the mouse.
    /// * `roll`: what was drawn for the object that the frame may spawn.
    ///
    /// ## Returns
    /// What the frame asks for, or a `DodgerError` if object creation fails.
    ///
    /// ## Behavior
    /// * Handles button clicks for toggling audio and returning to the menu.
    /// * Updates falling objects and checks for collisions.
    /// * Advances to the next level or victory screen if the level is complete.
    fn update_playing(&mut self, mouse: &Mouse, roll: SpawnRoll) -> (r: Result<
        FrameOutput,
        DodgerError,
    >)
        requires
            old(self).wf(),
            old(self)@.game_mode == GameMode::Playing,
        ensures
            final(self).wf(),
            final(self)@ == old(self)@.update_playing(*mouse, roll).state,
            reports(r, old(self)@.update_playing(*mouse, roll)),
    {
        self.playing_buttons(mouse)?;

        if self.is_paused {
            return Ok(FrameOutput { sounds: Vec::new(), quit: false });
        }
        self.check_level_time();
        self.spawn_if_due(roll)?;
        let sounds = self.play();
        Ok(FrameOutput { sounds, quit: false })
    }

    /// **Updates the game by one frame, with a given roll of the spawner.**
    ///
    /// Looks at the clock, then does what the current mode asks for.
    ///
    /// ## Parameters
    /// * `input`: the time and the state of the mouse.
    /// * `roll`: what was drawn for the object that the frame may spawn.
    ///
    /// ## Returns
    /// What the frame asks for, or `DodgerError::InvalidCoordinates` if the
    /// frame spawns an object and the roll places it beyond the field.
    pub fn update_with_roll(&mut self, input: &FrameInput, roll: SpawnRoll) -> (r: Result<
        FrameOutput,
        DodgerError,
    >)
        requires
            old(self).wf(),
        ensures
            final(self).wf(),
            final(self)@ == old(self)@.update(*input, roll).state,
            reports(r, old(self)@.update(*input, roll)),
    {
        self.observe(input.now);
        match self.game_mode {
            GameMode::Menu => self.update_menu(&input.mouse),
            GameMode::Playing => self.update_playing(&input.mouse, roll),
            GameMode::GameOver => self.update_game_over(&input.mouse),
            GameMode::NextLevel => self.update_next_level(&input.mouse),
            GameMode::Victory => self.update_victory(&input.mouse),
            GameMode::LevelSelection => self.update_select_level(&input.mouse),
            GameMode::HowToPlay => self.update_how_to_play(&input.mouse),
        }
    }

    /// **Updates the game by one frame.**
    ///
    /// Draws a roll for the spawner, looks at the clock, then does what the
    /// current mode asks for.
    ///
    /// ## Returns
    /// What the frame asks for. The frame is that of `update_with_roll` for
    /// some roll that the spawner can draw, and so it never fails.
    pub fn update(&mut self, input: &FrameInput) -> (r: Result<FrameOutput, DodgerError>)
        requires
            old(self).wf(),
        ensures
            final(self).wf(),
            r is Ok,
            exists|roll: SpawnRoll|
                is_spawn_roll(roll) && final(self)@ == (#[trigger] old(self)@.update(
                    *input,
                    roll,
                )).state && reports(r, old(self)@.update(*input, roll)),
    {
        let roll = roll_spawn();
        proof {
            lemma_drawn_roll_never_fails(self@, *input, roll);
        }
        self.update_with_roll(input, roll)
    }
}

/// In a frame of play, a round of collisions earns no more than an `i32` holds.
proof fn lemma_play_step(m: GameModel)
    requires
        wf_in_play(m),
    ensures
        m.level_score + crate::collisions::score_gain(m.falling_objects, m.player.rect_spec())
            <= i32::MAX,
        crate::collisions::score_gain(m.falling_objects, m.player.rect_spec()) <= i32::MAX,
        wf_in_play(m.collide()),
{
    lemma_round_is_paid_for(m.falling_objects, m.player.rect_spec(), m.clock as u64);
    assert(crate::collisions::max_object_points() * m.spawn_count <= 1500) by (nonlinear_arith)
        requires
            m.spawn_count <= 50,
            crate::collisions::max_object_points() == 30,
    ;
    assert(crate::collisions::max_object_points() * active_count(
        crate::collisions::purged(
            crate::collisions::marked(m.falling_objects, m.player.rect_spec(), m.clock as u64),
            m.clock as u64,
        ),
    ) >= 0) by (nonlinear_arith)
        requires
            crate::collisions::max_object_points() == 30,
    ;
}

/// What holds of the state of a frame of play once its buttons were
/// looked at: the game has started, a halt that shows the menu began in this
/// very frame, and the last spawn lies within the level's duration.
pub open spec fn in_frame(m: GameModel) -> bool {
    &&& m.wf()
    &&& m.game_started
    &&& m.resting() ==> m.paused_time == Some(m.clock)
    &&& m.last_update - m.level_start_time < LEVEL_DURATION_MILLIS
}

/// The level's time was looked at: the level is under way only while its
/// time is not up.
pub open spec fn time_checked(m: GameModel) -> bool {
    m.level_under_way() ==> m.level_elapsed() < LEVEL_DURATION_MILLIS
}

/// A spawn that is due in a frame of play keeps the state well-formed,
/// before the object is made and after.
proof fn lemma_spawn_step(m: GameModel, roll: SpawnRoll)
    requires
        in_frame(m),
        time_checked(m),
        !m.is_paused,
        m.spawn_due(),
    ensures
        (GameModel { last_update: m.clock, ..m }).wf(),
        wf_in_play((GameModel { last_update: m.clock, ..m }).spawn(roll)),
{
    let due = GameModel { last_update: m.clock, ..m };
    crate::collisions::lemma_active_count_push(due.falling_objects, due.spawned_object(roll));
}

/// The look at the buttons of the playing screen keeps the state well-formed.
proof fn lemma_playing_buttons_preserves_wf(m: GameModel, mouse: Mouse)
    requires
        m.wf(),
        m.game_mode == GameMode::Playing,
    ensures
        in_frame(m.playing_buttons(mouse)),
{
}

/// The look at the level's time keeps the state well-formed.
proof fn lemma_level_check_preserves_wf(m: GameModel)
    requires
        in_frame(m),
    ensures
        in_frame(m.level_check()),
        time_checked(m.level_check()),
{
}

/// A frame with a roll that the spawner can draw does not fail.
proof fn lemma_drawn_roll_never_fails(m: GameModel, input: FrameInput, roll: SpawnRoll)
    requires
        is_spawn_roll(roll),
    ensures
        m.update(input, roll).error is None,
{
}

} // verus!
