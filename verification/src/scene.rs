//! What each screen of the game shows, as a list of things to draw.

use vstd::prelude::*;
use crate::buttons::{Color, IconButton, TextView};
use crate::consts::{BUTTON_TEXT_SIZE, PX, TEXT_SIZE, TITLE_TEXT_SIZE, WINDOW_HEIGHT,
    WINDOW_WIDTH};
use crate::levels::LEVEL_COUNT;
use crate::model::{corner_button_point, level_column_top, menu_column_top, pause_button_point,
    GameModel};
use crate::modes::GameMode;
use crate::objects::FallingObject;
use crate::text::{decimal, labelled};
use crate::ui::{button_scene, icon_picture, timer_scene, DrawCommandView};
use crate::utils::{button_in_set_point, centered_button_point, Point, Scaling};

verus! {

/// A line of white text in the text font.
pub open spec fn white_label(dest: Point, line: Seq<char>, scale: u32) -> DrawCommandView {
    DrawCommandView::Label {
        dest,
        text: TextView { line, font: "text_font"@, scale, color: Color::White },
    }
}

/// A white button with a black label in the button font.
pub open spec fn white_button(coords: Point, label: Seq<char>) -> Seq<DrawCommandView> {
    button_scene(
        coords,
        Color::White,
        TextView { line: label, font: "button_font"@, scale: BUTTON_TEXT_SIZE, color: Color::Black },
    )
}

/// The lines of the instructions.
pub open spec fn instruction_lines() -> Seq<Seq<char>> {
    seq![
        "Use Left/Right arrows to move the player."@,
        "Press Space to pause the game."@,
        "Catch good objects to earn points:"@,
        "  - High value: 30 points"@,
        "  - Medium value: 15 points"@,
        "  - Low value: 5 points"@,
        "Avoid bad objects! They reduce your lives."@,
        "Each level lasts 40 seconds."@,
    ]
}

/// Where a line of the instructions stands.
pub open spec fn instruction_point(index: int) -> Point {
    Point { x: (150 * PX) as i64, y: (250 * PX + index * 50 * PX) as i64 }
}

/// The first `n` lines of the instructions.
pub open spec fn instruction_labels(n: nat) -> Seq<DrawCommandView> {
    Seq::new(n, |i: int| white_label(instruction_point(i), instruction_lines()[i], TEXT_SIZE))
}

/// The buttons of the first `n` levels.
pub open spec fn level_buttons(n: nat) -> Seq<DrawCommandView>
    decreases n,
{
    if n == 0 {
        Seq::empty()
    } else {
        level_buttons((n - 1) as nat) + white_button(
            button_in_set_point((n - 1) as usize, level_column_top()),
            labelled("Level "@, n),
        )
    }
}

/// The pictures of the objects, in their order.
pub open spec fn object_pictures(objects: Seq<FallingObject>, now: u64) -> Seq<DrawCommandView> {
    objects.map_values(|object: FallingObject| object.picture(now))
}

impl GameModel {
    /// The icon that the speaker button shows: the muted speaker while the
    /// sound is off.
    pub open spec fn speaker(self) -> IconButton {
        IconButton {
            icon: if self.is_muted {
                self.speaker_muted_icon
            } else {
                self.speaker_icon
            },
            ..self.audio_button
        }
    }

    /// The pause icon.
    pub open spec fn pause_icon(self) -> IconButton {
        IconButton {
            coords: pause_button_point(),
            scaling: Scaling { x: 50, y: 50 },
            icon: self.resources.pause_button_image,
        }
    }

    /// The state after the screen was drawn: the playing screen gives the
    /// speaker button the icon that goes with the sound being on or off;
    /// nothing else changes.
    pub open spec fn drawn(self) -> GameModel {
        if self.game_mode == GameMode::Playing {
            GameModel { audio_button: self.speaker(), ..self }
        } else {
            self
        }
    }

    /// The menu: "Start" before the first game and "Resume" after, and the
    /// buttons to leave, to select a level and to read the instructions.
    pub open spec fn menu_scene(self) -> Seq<DrawCommandView> {
        seq![DrawCommandView::Background { image: self.resources.menu_background_image }]
            + white_button(
            button_in_set_point(0, menu_column_top()),
            if self.game_started {
                "Resume"@
            } else {
                "Start"@
            },
        ) + white_button(button_in_set_point(3, menu_column_top()), "Exit"@) + white_button(
            button_in_set_point(1, menu_column_top()),
            "Select Level"@,
        ) + white_button(button_in_set_point(2, menu_column_top()), "How to Play"@)
    }

    /// The playing screen up to the falling objects: the background, the
    /// player, the "Menu" button, the level's number and the speaker.
    pub open spec fn field_scene(self, now: u64) -> Seq<DrawCommandView> {
        seq![
            DrawCommandView::Background { image: self.resources.background_image },
            self.player.picture(now),
        ] + white_button(corner_button_point(), "Menu"@) + seq![
            white_label(
                Point { x: (525 * PX) as i64, y: (10 * PX) as i64 },
                labelled("Level "@, self.current_level + 1),
                TEXT_SIZE,
            ),
            icon_picture(self.speaker()),
        ]
    }

    /// The head-up display: the level's score, the timer, the total score
    /// and the lives, and the pause icon while the game is paused.
    pub open spec fn hud_scene(self, now: u64) -> Seq<DrawCommandView> {
        seq![
            white_label(
                Point { x: (10 * PX) as i64, y: (10 * PX) as i64 },
                "Level Score: "@ + decimal(self.level_score as nat),
                TEXT_SIZE,
            ),
        ] + timer_scene(self.remaining_time(now) as u64) + seq![
            white_label(
                Point { x: (10 * PX) as i64, y: (50 * PX) as i64 },
                "Total Score: "@ + decimal((self.level_score + self.total_score) as nat),
                TEXT_SIZE,
            ),
            white_label(
                Point { x: (530 * PX) as i64, y: (60 * PX) as i64 },
                "Lives: "@ + decimal(self.lives),
                TEXT_SIZE,
            ),
        ] + if self.is_paused {
            seq![icon_picture(self.pause_icon())]
        } else {
            Seq::empty()
        }
    }

    /// The playing screen: the field, the falling objects and the head-up display.
    pub open spec fn playing_scene(self, now: u64) -> Seq<DrawCommandView> {
        self.field_scene(now) + object_pictures(self.falling_objects, now) + self.hud_scene(now)
    }

    /// The screen between two levels.
    pub open spec fn next_level_scene(self) -> Seq<DrawCommandView> {
        seq![
            DrawCommandView::Background { image: self.resources.background_image },
            white_label(
                Point {
                    x: (WINDOW_WIDTH / 2 - 160 * PX) as i64,
                    y: (WINDOW_HEIGHT / 2 - 100 * PX) as i64,
                },
                "Level Complete!"@,
                TITLE_TEXT_SIZE,
            ),
        ] + white_button(centered_button_point(), "Next Level"@)
    }

    /// The instructions.
    pub open spec fn how_to_play_scene(self) -> Seq<DrawCommandView> {
        seq![
            DrawCommandView::Background { image: self.resources.menu_background_image },
            white_label(
                Point { x: (WINDOW_WIDTH / 2 - 150 * PX) as i64, y: (150 * PX) as i64 },
                "How to Play"@,
                TITLE_TEXT_SIZE,
            ),
        ] + instruction_labels(8) + white_button(corner_button_point(), "Back"@)
    }

    /// The screen after a lost game.
    pub open spec fn game_over_scene(self) -> Seq<DrawCommandView> {
        seq![
            DrawCommandView::Background { image: self.resources.background_image },
            white_label(
                Point {
                    x: (WINDOW_WIDTH / 2 - 95 * PX) as i64,
                    y: (WINDOW_HEIGHT / 2 - 75 * PX) as i64,
                },
                "Game Over"@,
                TITLE_TEXT_SIZE,
            ),
        ] + white_button(centered_button_point(), "Restart"@)
    }

    /// The screen after a won game, with the final score.
    pub open spec fn victory_scene(self) -> Seq<DrawCommandView> {
        seq![
            DrawCommandView::Background { image: self.resources.background_image },
            white_label(
                Point {
                    x: (WINDOW_WIDTH / 2 - 185 * PX) as i64,
                    y: (WINDOW_HEIGHT / 2 - 125 * PX) as i64,
                },
                "You Win! Game Over"@,
                TITLE_TEXT_SIZE,
            ),
            white_label(
                Point {
                    x: (WINDOW_WIDTH / 2 - 110 * PX) as i64,
                    y: (WINDOW_HEIGHT / 2 - 75 * PX) as i64,
                },
                "Final Score: "@ + decimal((self.total_score + self.level_score) as nat),
                TEXT_SIZE,
            ),
        ] + white_button(centered_button_point(), "Restart"@)
    }

    /// The level selection: one button for each level.
    pub open spec fn select_level_scene(self) -> Seq<DrawCommandView> {
        seq![DrawCommandView::Background { image: self.resources.menu_background_image }]
            + level_buttons(LEVEL_COUNT as nat)
    }

    /// What the game shows at the time `now`.
    pub open spec fn scene(self, now: u64) -> Seq<DrawCommandView> {
        match self.game_mode {
            GameMode::Menu => self.menu_scene(),
            GameMode::Playing => self.playing_scene(now),
            GameMode::GameOver => self.game_over_scene(),
            GameMode::NextLevel => self.next_level_scene(),
            GameMode::Victory => self.victory_scene(),
            GameMode::LevelSelection => self.select_level_scene(),
            GameMode::HowToPlay => self.how_to_play_scene(),
        }
    }
}

} // verus!
