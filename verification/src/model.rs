//! The game as a mathematical state machine: the state as plain values, and
//! each transition as a function from state and input to the next state.
//! The executable game state refines this model step by step.

use vstd::prelude::*;
use crate::buttons::IconButton;
use crate::collisions::{active_count, bad_strikes, marked, max_object_points, purged, score_gain,
    strike_sounds};
use crate::consts::{FALLING_OBJECT_UPDATE_MILLIS, LEVEL_DURATION_MILLIS, LINGER_MILLIS, LIVES,
    OBJECT_SCALING, PLAYER_SCALING, PULSE_STEP, PX, WINDOW_HEIGHT, WINDOW_WIDTH};
use crate::errors::DodgerError;
use crate::input::{FrameInput, Key, Mouse};
use crate::levels::{level_table, LEVEL_COUNT};
use crate::modes::GameMode;
use crate::objects::FallingObject;
use crate::player::Player;
use crate::random::{value_of_bucket, SpawnRoll};
use crate::resources::{Image, LevelImages, Resources};
use crate::sound::Sound;
use crate::utils::{button_in_set_point, centered_button_point, clicked, icon_rect, text_rect,
    valid_coordinates, Point, Rect, Scaling};

verus! {

/// Where the player stands at the start of a level.
pub open spec fn player_start() -> Point {
    Point { x: (WINDOW_WIDTH / 2) as i64, y: (WINDOW_HEIGHT - 175 * PX) as i64 }
}

/// Where the column of menu buttons starts.
pub open spec fn menu_column_top() -> i64 {
    (300 * PX) as i64
}

/// Where the column of level buttons starts.
pub open spec fn level_column_top() -> i64 {
    (100 * PX) as i64
}

/// Corner of the "Menu" button of the playing screen and of the "Back"
/// button of the instructions.
pub open spec fn corner_button_point() -> Point {
    Point { x: (WINDOW_WIDTH - 200 * PX) as i64, y: (10 * PX) as i64 }
}

/// Corner of the speaker icon.
pub open spec fn audio_button_point() -> Point {
    Point { x: (WINDOW_WIDTH - 85 * PX) as i64, y: (60 * PX) as i64 }
}

/// Corner of the pause icon.
pub open spec fn pause_button_point() -> Point {
    Point { x: (WINDOW_WIDTH / 2 - 40 * PX) as i64, y: (WINDOW_HEIGHT / 2 - 30 * PX) as i64 }
}

/// The "Start" button of the menu; "Resume" takes its place once a game has begun.
pub open spec fn start_button_rect() -> Rect {
    text_rect(button_in_set_point(0, menu_column_top()))
}

pub open spec fn select_level_button_rect() -> Rect {
    text_rect(button_in_set_point(1, menu_column_top()))
}

pub open spec fn howtoplay_button_rect() -> Rect {
    text_rect(button_in_set_point(2, menu_column_top()))
}

pub open spec fn exit_button_rect() -> Rect {
    text_rect(button_in_set_point(3, menu_column_top()))
}

/// The "Menu" button of the playing screen and the "Back" button of the instructions.
pub open spec fn corner_button_rect() -> Rect {
    text_rect(corner_button_point())
}

/// The "Next Level" and "Restart" buttons.
pub open spec fn centered_button_rect() -> Rect {
    text_rect(centered_button_point())
}

/// The button that selects the level of the given index.
pub open spec fn level_button_rect(level: nat) -> Rect {
    text_rect(button_in_set_point(level as usize, level_column_top()))
}

/// The most spawns that fit into one level: one at the end of every spawn
/// interval of the level, and one more in the frame that ends it.
pub open spec fn max_spawns() -> nat {
    (LEVEL_DURATION_MILLIS / FALLING_OBJECT_UPDATE_MILLIS) as nat
}

/// The most points that one level can earn.
pub open spec fn max_level_score() -> int {
    max_object_points() * max_spawns()
}

/// The state of a game session.
pub struct GameModel {
    /// Points of the completed levels.
    pub total_score: int,
    /// Points of the current level.
    pub level_score: int,
    pub current_level: nat,
    /// The pictures of every level.
    pub level_images: Seq<LevelImages>,
    /// The resources of the current level.
    pub resources: Resources,
    pub player: Player,
    pub falling_objects: Seq<FallingObject>,
    /// Objects spawned since the level started.
    pub spawn_count: nat,
    /// The latest time that the game has seen.
    pub clock: nat,
    /// When the last object was spawned.
    pub last_update: nat,
    pub level_start_time: nat,
    /// When the game was last halted, until the halt has been made up for.
    pub paused_time: Option<nat>,
    pub is_muted: bool,
    pub speaker_icon: Image,
    pub speaker_muted_icon: Image,
    pub audio_button: IconButton,
    pub lives: nat,
    pub game_mode: GameMode,
    pub level_complete_sound_played: bool,
    pub victory_sound_played: bool,
    pub game_over_sound_played: bool,
    pub game_started: bool,
    pub is_paused: bool,
}

/// What one transition yields.
pub struct Step {
    /// The state after the transition.
    pub state: GameModel,
    /// The sounds that it asks for, in order.
    pub sounds: Seq<Sound>,
    /// It asks to end the program.
    pub quit: bool,
    /// It failed with this error.
    pub error: Option<DodgerError>,
}

impl Step {
    /// A transition that asks for nothing.
    pub open spec fn quiet(state: GameModel) -> Step {
        Step { state, sounds: Seq::empty(), quit: false, error: None }
    }
}

impl GameModel {
    /// The mode is one in which a level is under way: it has neither been
    /// completed nor lost.
    pub open spec fn level_under_way(self) -> bool {
        self.game_mode == GameMode::Menu || self.game_mode == GameMode::LevelSelection
            || self.game_mode == GameMode::HowToPlay || self.game_mode == GameMode::Playing
    }

    /// The mode is one that a halted game rests in.
    pub open spec fn resting(self) -> bool {
        self.game_mode == GameMode::Menu || self.game_mode == GameMode::LevelSelection
            || self.game_mode == GameMode::HowToPlay
    }

    /// What holds of every state that the game can reach.
    pub open spec fn wf(self) -> bool {
        // Time never runs ahead of the clock, and the level started before its last spawn.
        &&& self.clock <= u64::MAX
        &&& self.level_start_time <= self.last_update <= self.clock
        &&& (self.paused_time matches Some(paused) ==> paused <= self.clock)
        // A halt that has not been made up for began after the last spawn.
        &&& (self.is_paused || self.resting()) ==> (self.paused_time matches Some(paused)
            ==> self.last_update <= paused)
        &&& (!self.game_started && self.game_mode != GameMode::Playing) ==> (self.paused_time
            is None && !self.is_paused)
        // Spawns lie one interval apart, all but the last within the level's duration.
        &&& !self.game_started ==> self.spawn_count == 0
        &&& self.spawn_count * FALLING_OBJECT_UPDATE_MILLIS <= self.last_update
            - self.level_start_time
        &&& self.level_under_way() ==> self.last_update - self.level_start_time
            < LEVEL_DURATION_MILLIS
        &&& self.spawn_count <= max_spawns()
        // Every point of the level was earned by a spawned object that is gone.
        &&& 0 <= self.level_score
        &&& self.level_score + max_object_points() * active_count(self.falling_objects)
            <= max_object_points() * self.spawn_count
        &&& 0 <= self.total_score <= max_level_score() * self.current_level
        // The level exists, and so does the next one where the game offers it.
        &&& self.current_level < LEVEL_COUNT
        &&& self.game_mode == GameMode::NextLevel ==> self.current_level + 1 < LEVEL_COUNT
        &&& self.level_images.len() == LEVEL_COUNT
        &&& self.resources == Resources::of_level(
            level_table()[self.current_level as int],
            self.level_images[self.current_level as int],
        )
        &&& self.lives <= LIVES
        &&& self.audio_button.coords == audio_button_point()
    }

    /// The state in which a session starts: the menu is shown, nothing has
    /// been scored, and all lives are there.
    pub open spec fn initial(
        level_images: Seq<LevelImages>,
        current_level: nat,
        speaker_icon: Image,
        speaker_muted_icon: Image,
        now: u64,
    ) -> GameModel {
        let resources = Resources::of_level(
            level_table()[current_level as int],
            level_images[current_level as int],
        );
        GameModel {
            total_score: 0,
            level_score: 0,
            current_level,
            level_images,
            resources,
            player: Player::created(
                player_start(),
                Scaling { x: PLAYER_SCALING, y: PLAYER_SCALING },
                resources.player_image,
            ),
            falling_objects: Seq::empty(),
            spawn_count: 0,
            clock: now as nat,
            last_update: now as nat,
            level_start_time: now as nat,
            paused_time: None,
            is_muted: false,
            speaker_icon,
            speaker_muted_icon,
            audio_button: IconButton {
                coords: audio_button_point(),
                scaling: Scaling { x: 15, y: 15 },
                icon: speaker_icon,
            },
            lives: LIVES as nat,
            game_mode: GameMode::Menu,
            level_complete_sound_played: false,
            victory_sound_played: false,
            game_over_sound_played: false,
            game_started: false,
            is_paused: false,
        }
    }

    /// The state after the game has looked at the clock. Time does not run
    /// backwards: a time before the latest one seen is read as that one.
    pub open spec fn observe(self, now: u64) -> GameModel {
        GameModel { clock: if now > self.clock { now as nat } else { self.clock }, ..self }
    }

    /// The time since the level started, without the halts.
    pub open spec fn level_elapsed(self) -> int {
        self.clock - self.level_start_time
    }

    /// The whole seconds that are left of the level at time `now`. While
    /// the game is paused the time stands at that of the last spawn.
    pub open spec fn remaining_time(self, now: u64) -> nat {
        let elapsed = if self.is_paused {
            self.last_update - self.level_start_time
        } else {
            self.observe(now).level_elapsed()
        };
        if elapsed >= LEVEL_DURATION_MILLIS {
            0
        } else {
            ((LEVEL_DURATION_MILLIS - elapsed) / 1000) as nat
        }
    }

    /// The state at the start of the level `target_level`. The total score
    /// starts anew after a lost or won game and after a choice of level; on
    /// the way to the next level it takes up the points of the level.
    pub open spec fn reset(self, target_level: nat) -> GameModel {
        let resources = Resources::of_level(
            level_table()[target_level as int],
            self.level_images[target_level as int],
        );
        GameModel {
            total_score: if self.game_mode == GameMode::GameOver || self.game_mode
                == GameMode::Victory || self.game_mode == GameMode::LevelSelection {
                0
            } else {
                self.total_score + self.level_score
            },
            level_score: 0,
            current_level: target_level,
            falling_objects: Seq::empty(),
            spawn_count: 0,
            lives: LIVES as nat,
            level_start_time: self.clock,
            last_update: self.clock,
            level_complete_sound_played: false,
            victory_sound_played: false,
            game_over_sound_played: false,
            is_paused: false,
            resources,
            player: Player::created(
                player_start(),
                Scaling { x: PLAYER_SCALING, y: PLAYER_SCALING },
                resources.player_image,
            ),
            game_mode: GameMode::Playing,
            ..self
        }
    }

    /// The state after a request to pause: a running game is halted.
    pub open spec fn pause(self) -> GameModel {
        if self.game_mode == GameMode::Playing {
            GameModel { paused_time: Some(self.clock), is_paused: true, ..self }
        } else {
            self
        }
    }

    /// The time since the game was halted.
    pub open spec fn halt_duration(self) -> nat {
        match self.paused_time {
            Some(paused) => if self.clock >= paused {
                (self.clock - paused) as nat
            } else {
                0
            },
            None => 0,
        }
    }

    /// The state with the halt made up for: the level's start and the last
    /// spawn are moved forward by the time that the game was halted.
    pub open spec fn caught_up(self) -> GameModel {
        GameModel {
            level_start_time: self.level_start_time + self.halt_duration(),
            last_update: self.last_update + self.halt_duration(),
            paused_time: None,
            ..self
        }
    }

    /// The state after a request to resume: a paused game goes on.
    pub open spec fn resume(self) -> GameModel {
        if self.is_paused {
            GameModel { is_paused: false, ..self.caught_up() }
        } else {
            self
        }
    }

    /// The state after a key was pressed.
    pub open spec fn key_down(self, key: Key) -> GameModel {
        match key {
            Key::Space => if self.is_paused {
                self.resume()
            } else {
                self.pause()
            },
            Key::Left => if self.player.coords.x > 0 {
                GameModel {
                    player: Player {
                        coords: Point {
                            x: self.player.x_after_move_left(),
                            y: self.player.coords.y,
                        },
                        ..self.player
                    },
                    ..self
                }
            } else {
                self
            },
            Key::Right => if self.player.coords.x < WINDOW_WIDTH - self.player.size.w {
                GameModel {
                    player: Player {
                        coords: Point {
                            x: self.player.x_after_move_right(),
                            y: self.player.coords.y,
                        },
                        ..self.player
                    },
                    ..self
                }
            } else {
                self
            },
            Key::Other => self,
        }
    }

    /// One frame of the menu.
    pub open spec fn update_menu(self, mouse: Mouse) -> Step {
        let begun = if !self.game_started {
            if clicked(mouse, start_button_rect()) {
                GameModel {
                    level_start_time: self.clock,
                    last_update: self.clock,
                    game_mode: GameMode::Playing,
                    ..self
                }
            } else {
                self
            }
        } else if clicked(mouse, start_button_rect()) {
            GameModel { game_mode: GameMode::Playing, ..self.caught_up() }
        } else {
            self
        };
        let selecting = if clicked(mouse, select_level_button_rect()) {
            GameModel { game_mode: GameMode::LevelSelection, ..begun }
        } else {
            begun
        };
        let reading = if clicked(mouse, howtoplay_button_rect()) {
            GameModel { game_mode: GameMode::HowToPlay, ..selecting }
        } else {
            selecting
        };
        Step {
            state: reading,
            sounds: Seq::empty(),
            quit: clicked(mouse, exit_button_rect()),
            error: None,
        }
    }

    /// One frame of the instructions.
    pub open spec fn update_how_to_play(self, mouse: Mouse) -> Step {
        Step::quiet(
            if clicked(mouse, corner_button_rect()) {
                GameModel { game_mode: GameMode::Menu, ..self }
            } else {
                self
            },
        )
    }

    /// The level whose button is clicked among the first `n` level buttons;
    /// the last of them where several are.
    pub open spec fn clicked_level(mouse: Mouse, n: nat) -> Option<nat>
        decreases n,
    {
        if n == 0 {
            None
        } else if clicked(mouse, level_button_rect((n - 1) as nat)) {
            Some((n - 1) as nat)
        } else {
            Self::clicked_level(mouse, (n - 1) as nat)
        }
    }

    /// One frame of the level selection.
    pub open spec fn update_select_level(self, mouse: Mouse) -> Step {
        Step::quiet(
            match Self::clicked_level(mouse, LEVEL_COUNT as nat) {
                Some(level) => self.reset(level),
                None => self,
            },
        )
    }

    /// One frame of the screen between two levels.
    pub open spec fn update_next_level(self, mouse: Mouse) -> Step {
        let announced = GameModel { level_complete_sound_played: true, ..self };
        Step {
            state: if clicked(mouse, centered_button_rect()) {
                announced.reset(self.current_level + 1)
            } else {
                announced
            },
            sounds: if self.level_complete_sound_played {
                Seq::empty()
            } else {
                seq![Sound::LevelCompleted]
            },
            quit: false,
            error: None,
        }
    }

    /// One frame of the screen after a lost game.
    pub open spec fn update_game_over(self, mouse: Mouse) -> Step {
        let announced = GameModel { game_over_sound_played: true, ..self };
        Step {
            state: if clicked(mouse, centered_button_rect()) {
                announced.reset(0)
            } else {
                announced
            },
            sounds: if self.game_over_sound_played {
                Seq::empty()
            } else {
                seq![Sound::GameOver]
            },
            quit: false,
            error: None,
        }
    }

    /// One frame of the screen after a won game.
    pub open spec fn update_victory(self, mouse: Mouse) -> Step {
        let announced = GameModel { victory_sound_played: true, ..self };
        Step {
            state: if clicked(mouse, centered_button_rect()) {
                announced.reset(0)
            } else {
                announced
            },
            sounds: if self.victory_sound_played {
                Seq::empty()
            } else {
                seq![Sound::Victory]
            },
            quit: false,
            error: None,
        }
    }

    /// The next object to spawn is a good one: every fifth object, counted
    /// from the first of the level, is bad.
    pub open spec fn spawns_good(spawn_count: nat) -> bool {
        spawn_count % 5 != 0
    }

    /// The object that a roll spawns at the top of the field.
    pub open spec fn spawned_object(self, roll: SpawnRoll) -> FallingObject {
        let is_good = Self::spawns_good(self.spawn_count);
        FallingObject::created(
            Point { x: roll.x, y: 0 },
            Scaling { x: OBJECT_SCALING, y: OBJECT_SCALING },
            is_good,
            if is_good {
                Some(value_of_bucket(roll.bucket))
            } else {
                None
            },
            self.resources,
        )
    }

    /// The state after an object was spawned.
    pub open spec fn spawn(self, roll: SpawnRoll) -> GameModel {
        GameModel {
            falling_objects: self.falling_objects.push(self.spawned_object(roll)),
            spawn_count: self.spawn_count + 1,
            ..self
        }
    }

    /// The state after every falling object has moved on by one update;
    /// objects that were struck stand still.
    pub open spec fn advance(self) -> GameModel {
        GameModel {
            falling_objects: self.falling_objects.map_values(
                |object: FallingObject|
                    if object.is_active() {
                        object.updated(self.resources, PULSE_STEP)
                    } else {
                        object
                    },
            ),
            ..self
        }
    }

    /// The state after the collisions between the player and the falling
    /// objects were resolved: the points of the caught objects are added
    /// to the level's score, each struck bad object costs a life as long as
    /// there is one, the game is lost when a bad object is struck and no
    /// life is left after it, the player blinks after a bad strike, and the
    /// objects whose time is over leave the field.
    pub open spec fn collide(self) -> GameModel {
        let rect = self.player.rect_spec();
        let now = self.clock as u64;
        let lost = bad_strikes(self.falling_objects, rect);
        GameModel {
            level_score: self.level_score + score_gain(self.falling_objects, rect),
            lives: if lost >= self.lives {
                0
            } else {
                (self.lives - lost) as nat
            },
            game_mode: if lost > 0 && lost >= self.lives {
                GameMode::GameOver
            } else {
                self.game_mode
            },
            player: if lost > 0 {
                Player { blink_timer: Some(now), ..self.player }
            } else {
                self.player
            },
            falling_objects: purged(marked(self.falling_objects, rect, now), now),
            ..self
        }
    }

    /// The sounds of the collisions between the player and the falling objects.
    pub open spec fn collision_sounds(self) -> Seq<Sound> {
        strike_sounds(self.falling_objects, self.player.rect_spec())
    }

    /// The state after the player's blinking was looked after: it ends
    /// once it has lasted for `LINGER_MILLIS`.
    pub open spec fn recover(self) -> GameModel {
        match self.player.blink_timer {
            Some(timer) => if self.clock - timer >= LINGER_MILLIS {
                GameModel {
                    player: Player { blink_timer: None, alpha: 1000, ..self.player },
                    ..self
                }
            } else {
                self
            },
            None => self,
        }
    }

    /// The rest of a frame of play, once the frame's spawn is done.
    pub open spec fn play(self) -> Step {
        Step {
            state: self.advance().collide().recover(),
            sounds: self.advance().collision_sounds(),
            quit: false,
            error: None,
        }
    }

    /// The state of a frame of play after its buttons were looked at: a
    /// click on the speaker turns the sound off or on, a click on "Menu"
    /// halts the game and shows the menu.
    pub open spec fn playing_buttons(self, mouse: Mouse) -> GameModel {
        let started = GameModel { game_started: true, ..self };
        let toggled = if clicked(mouse, icon_rect(self.audio_button)) {
            GameModel { is_muted: !self.is_muted, ..started }
        } else {
            started
        };
        if clicked(mouse, corner_button_rect()) {
            GameModel {
                game_mode: GameMode::Menu,
                paused_time: Some(self.clock),
                ..toggled
            }
        } else {
            toggled
        }
    }

    /// The state after the level's time was looked at: once it is up, the
    /// level is complete, and the game is won if it was the last one.
    pub open spec fn level_check(self) -> GameModel {
        if self.level_elapsed() >= LEVEL_DURATION_MILLIS {
            GameModel {
                game_mode: if self.current_level + 1 < LEVEL_COUNT {
                    GameMode::NextLevel
                } else {
                    GameMode::Victory
                },
                ..self
            }
        } else {
            self
        }
    }

    /// A spawn is due: one spawn interval has passed since the last spawn.
    pub open spec fn spawn_due(self) -> bool {
        self.clock - self.last_update >= FALLING_OBJECT_UPDATE_MILLIS
    }

    /// One frame of play. A paused game only looks at its buttons. A
    /// running game checks the level's time, spawns an object where one is
    /// due, moves the objects, resolves the collisions and looks after the
    /// player's blinking. A roll whose position lies beyond the field makes
    /// the spawn fail, and the frame ends there.
    pub open spec fn update_playing(self, mouse: Mouse, roll: SpawnRoll) -> Step {
        let looked = self.playing_buttons(mouse);
        if looked.is_paused {
            Step::quiet(looked)
        } else {
            let checked = looked.level_check();
            if checked.spawn_due() {
                let due = GameModel { last_update: self.clock, ..checked };
                if valid_coordinates(Point { x: roll.x, y: 0 }) {
                    due.spawn(roll).play()
                } else {
                    Step {
                        state: due,
                        sounds: Seq::empty(),
                        quit: false,
                        error: Some(
                            DodgerError::InvalidCoordinates(roll.x, 0, WINDOW_WIDTH, WINDOW_HEIGHT),
                        ),
                    }
                }
            } else {
                checked.play()
            }
        }
    }

    /// One frame of the game in the mode that it is in, at the time that the
    /// clock shows.
    pub open spec fn frame(self, mouse: Mouse, roll: SpawnRoll) -> Step {
        match self.game_mode {
            GameMode::Menu => self.update_menu(mouse),
            GameMode::Playing => self.update_playing(mouse, roll),
            GameMode::GameOver => self.update_game_over(mouse),
            GameMode::NextLevel => self.update_next_level(mouse),
            GameMode::Victory => self.update_victory(mouse),
            GameMode::LevelSelection => self.update_select_level(mouse),
            GameMode::HowToPlay => self.update_how_to_play(mouse),
        }
    }

    /// One frame of the game: it looks at the clock, then does what its mode asks for.
    pub open spec fn update(self, input: FrameInput, roll: SpawnRoll) -> Step {
        self.observe(input.now).frame(input.mouse, roll)
    }
}

} // verus!
