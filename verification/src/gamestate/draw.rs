use vstd::prelude::*;
use vstd::string::StringExecFns;
use crate::buttons::{Color, DrawText};
use crate::consts::{PX, TEXT_SIZE, TITLE_TEXT_SIZE, WINDOW_HEIGHT, WINDOW_WIDTH};
use crate::errors::DodgerError;
use crate::gamestate::GameState;
use crate::levels::LEVEL_COUNT;
use crate::modes::GameMode;
use crate::scene::{instruction_labels, instruction_lines, level_buttons, object_pictures,
    white_label};
use crate::text::label_number;
use crate::ui::{draw_background, draw_button_with_text, draw_icon, draw_score, draw_text,
    draw_timer, Canvas};
use crate::upkeep::{lemma_level_score_bounded, lemma_total_score_bounded};
use crate::utils::{get_level_button, valid_coordinates, Point};

verus! {

/// Draws a line of white text in the text font.
fn draw_white_text(canvas: &mut Canvas, dest: Point, line: String, scale: u32) -> (r: Result<
    (),
    DodgerError,
>)
    requires
        valid_coordinates(dest),
    ensures
        r is Ok,
        final(canvas)@ == old(canvas)@.push(white_label(dest, line@, scale)),
{
    let text = DrawText::new(dest, line, String::from_str("text_font"), scale, Color::White)?;
    draw_text(canvas, text)
}

/// Draws a score in white, in the text font.
fn draw_white_score(canvas: &mut Canvas, dest: Point, line: String) -> (r: Result<
    (),
    DodgerError,
>)
    requires
        valid_coordinates(dest),
    ensures
        r is Ok,
        final(canvas)@ == old(canvas)@.push(white_label(dest, line@, TEXT_SIZE)),
{
    let text = DrawText::new(dest, line, String::from_str("text_font"), TEXT_SIZE, Color::White)?;
    draw_score(canvas, text)
}

/// The lines of the instructions.
fn instructions() -> (lines: Vec<&'static str>)
    ensures
        lines@.len() == 8,
        forall|i: int| 0 <= i < 8 ==> (#[trigger] lines@[i])@ == instruction_lines()[i],
{
    vec![
        "Use Left/Right arrows to move the player.",
        "Press Space to pause the game.",
        "Catch good objects to earn points:",
        "  - High value: 30 points",
        "  - Medium value: 15 points",
        "  - Low value: 5 points",
        "Avoid bad objects! They reduce your lives.",
        "Each level lasts 40 seconds.",
    ]
}

impl GameState {
    /// **Draws the main menu on the canvas.**
    fn draw_menu(&self, canvas: &mut Canvas) -> (r: Result<(), DodgerError>)
        requires
            self.wf(),
        ensures
            r is Ok,
            final(canvas)@ == old(canvas)@ + self@.menu_scene(),
    {
        draw_background(canvas, &self.resources.menu_background_image);
        if !self.game_started {
            draw_button_with_text(canvas, &self.start_button)?;
        } else {
            draw_button_with_text(canvas, &self.resume_button)?;
        }
        draw_button_with_text(canvas, &self.exit_button)?;
        draw_button_with_text(canvas, &self.select_level_button)?;
        draw_button_with_text(canvas, &self.howtoplay_button)?;
        assert(canvas@ =~= old(canvas)@ + self@.menu_scene());
        Ok(())
    }

    /// Draws the playing screen up to the falling objects.
    fn draw_field(&mut self, canvas: &mut Canvas, now: u64) -> (r: Result<(), DodgerError>)
        requires
            old(self).wf(),
            old(self)@.game_mode == GameMode::Playing,
        ensures
            r is Ok,
            final(self).wf(),
            final(self)@ == old(self)@.drawn(),
            final(canvas)@ == old(canvas)@ + old(self)@.field_scene(now),
    {
        draw_background(canvas, &self.resources.background_image);
        self.player.draw(canvas, now);
        draw_button_with_text(canvas, &self.menu_button)?;

        let text = label_number("Level ", self.current_level as u128 + 1);
        draw_white_text(canvas, Point { x: 525 * PX, y: 10 * PX }, text, TEXT_SIZE)?;
        if self.audio.is_muted {
            self.audio_button.icon = self.audio.speaker_muted_icon;
        } else {
            self.audio_button.icon = self.audio.speaker_icon;
        };
        draw_icon(canvas, &self.audio_button)?;
        assert(canvas@ =~= old(canvas)@ + old(self)@.field_scene(now));
        Ok(())
    }

    /// Draws the falling objects.
    fn draw_objects(&self, canvas: &mut Canvas, now: u64)
        ensures
            final(canvas)@ == old(canvas)@ + object_pictures(self@.falling_objects, now),
    {
        let n = self.falling_objects.len();
        let mut i: usize = 0;
        assert(canvas@ =~= old(canvas)@ + object_pictures(self.falling_objects@.take(0), now));
        while i < n
            invariant
                i <= n,
                n == self.falling_objects@.len(),
                canvas@ == old(canvas)@ + object_pictures(
                    self.falling_objects@.take(i as int),
                    now,
                ),
            decreases n - i,
        {
            self.falling_objects[i].draw(canvas, now);
            assert(canvas@ =~= old(canvas)@ + object_pictures(
                self.falling_objects@.take(i + 1),
                now,
            ));
            i += 1;
        }
        assert(self.falling_objects@.take(n as int) =~= self.falling_objects@);
    }

    /// Draws the head-up display.
    fn draw_hud(&self, canvas: &mut Canvas, now: u64) -> (r: Result<(), DodgerError>)
        requires
            self.wf(),
        ensures
            r is Ok,
            final(canvas)@ == old(canvas)@ + self@.hud_scene(now),
    {
        proof {
            lemma_level_score_bounded(self@);
            lemma_total_score_bounded(self@);
        }
        let level_score_text = label_number("Level Score: ", self.level_score as u128);
        draw_white_score(canvas, Point { x: 10 * PX, y: 10 * PX }, level_score_text)?;

        draw_timer(canvas, self.get_remaining_time(now))?;

        let total_score_text = label_number(
            "Total Score: ",
            (self.level_score + self.total_score) as u128,
        );
        draw_white_score(canvas, Point { x: 10 * PX, y: 50 * PX }, total_score_text)?;

        draw_white_text(
            canvas,
            Point { x: 530 * PX, y: 60 * PX },
            label_number("Lives: ", self.lives as u128),
            TEXT_SIZE,
        )?;

        if self.is_paused {
            draw_icon(canvas, &self.pause_button)?;
        }
        assert(canvas@ =~= old(canvas)@ + self@.hud_scene(now));
        Ok(())
    }

    /// **Draws the game state when in the playing mode.**
    ///
    /// ## Behavior
    /// Draws the background, player, falling objects, and UI elements (score, timer, lives).
    fn draw_playing(&mut self, canvas: &mut Canvas, now: u64) -> (r: Result<(), DodgerError>)
        requires
            old(self).wf(),
            old(self)@.game_mode == GameMode::Playing,
        ensures
            r is Ok,
            final(self).wf(),
            final(self)@ == old(self)@.drawn(),
            final(canvas)@ == old(canvas)@ + old(self)@.playing_scene(now),
    {
        self.draw_field(canvas, now)?;
        self.draw_objects(canvas, now);
        self.draw_hud(canvas, now)?;
        assert(canvas@ =~= old(canvas)@ + old(self)@.playing_scene(now));
        Ok(())
    }

    /// **Draws the "Next Level" screen on the canvas.**
    ///
    /// ## Behavior
    /// Draws the background, "Level Complete" text, and a button to proceed to the next level.
    fn draw_next_level(&self, canvas: &mut Canvas) -> (r: Result<(), DodgerError>)
        requires
            self.wf(),
        ensures
            r is Ok,
            final(canvas)@ == old(canvas)@ + self@.next_level_scene(),
    {
        draw_background(canvas, &self.resources.background_image);
        draw_white_text(
            canvas,
            Point { x: WINDOW_WIDTH / 2 - 160 * PX, y: WINDOW_HEIGHT / 2 - 100 * PX },
            String::from_str("Level Complete!"),
            TITLE_TEXT_SIZE,
        )?;
        draw_button_with_text(canvas, &self.next_level_button)?;
        assert(canvas@ =~= old(canvas)@ + self@.next_level_scene());
        Ok(())
    }

    /// **Draws the "How to Play" screen on the canvas.**
    ///
    /// ## Behavior
    /// Draws the background, title, instructions, and a button to return to the main menu.
    fn draw_how_to_play(&self, canvas: &mut Canvas) -> (r: Result<(), DodgerError>)
        requires
            self.wf(),
        ensures
            r is Ok,
            final(canvas)@ == old(canvas)@ + self@.how_to_play_scene(),
    {
        draw_background(canvas, &self.resources.menu_background_image);

        draw_white_text(
            canvas,
            Point { x: WINDOW_WIDTH / 2 - 150 * PX, y: 150 * PX },
            String::from_str("How to Play"),
            TITLE_TEXT_SIZE,
        )?;
        let ghost titled = canvas@;

        let instructions = instructions();

        let mut y_offset: i64 = 250 * PX;
        let mut i: usize = 0;
        assert(canvas@ =~= titled + instruction_labels(0));
        while i < instructions.len()
            invariant
                i <= 8,
                instructions@.len() == 8,
                forall|k: int| 0 <= k < 8 ==> (#[trigger] instructions@[k])@ == instruction_lines()[k],
                y_offset == 250 * PX + i * 50 * PX,
                canvas@ == titled + instruction_labels(i as nat),
            decreases 8 - i,
        {
            draw_white_text(
                canvas,
                Point { x: 150 * PX, y: y_offset },
                String::from_str(instructions[i]),
                TEXT_SIZE,
            )?;
            assert(canvas@ =~= titled + instruction_labels((i + 1) as nat));
            y_offset += 50 * PX;
            i += 1;
        }

        draw_button_with_text(canvas, &self.back_to_menu_button)?;
        assert(canvas@ =~= old(canvas)@ + self@.how_to_play_scene());

        Ok(())
    }

    /// **Draws the "Game Over" screen on the canvas.**
    ///
    /// ## Behavior
    /// Draws the background, "Game Over" text, and a restart button.
    fn draw_game_over(&self, canvas: &mut Canvas) -> (r: Result<(), DodgerError>)
        requires
            self.wf(),
        ensures
            r is Ok,
            final(canvas)@ == old(canvas)@ + self@.game_over_scene(),
    {
        draw_background(canvas, &self.resources.background_image);
        draw_white_text(
            canvas,
            Point { x: WINDOW_WIDTH / 2 - 95 * PX, y: WINDOW_HEIGHT / 2 - 75 * PX },
            String::from_str("Game Over"),
            TITLE_TEXT_SIZE,
        )?;

        draw_button_with_text(canvas, &self.restart_button)?;
        assert(canvas@ =~= old(canvas)@ + self@.game_over_scene());
        Ok(())
    }

    /// **Draws the "Victory" screen on the canvas.**
    ///
    /// ## Behavior
    /// Draws the background, victory text, final score, and a restart button.
    fn draw_victory(&self, canvas: &mut Canvas) -> (r: Result<(), DodgerError>)
        requires
            self.wf(),
        ensures
            r is Ok,
            final(canvas)@ == old(canvas)@ + self@.victory_scene(),
    {
        proof {
            lemma_level_score_bounded(self@);
            lemma_total_score_bounded(self@);
        }
        draw_background(canvas, &self.resources.background_image);
        draw_white_text(
            canvas,
            Point { x: WINDOW_WIDTH / 2 - 185 * PX, y: WINDOW_HEIGHT / 2 - 125 * PX },
            String::from_str("You Win! Game Over"),
            TITLE_TEXT_SIZE,
        )?;

        let final_score_text = label_number(
            "Final Score: ",
            (self.total_score + self.level_score) as u128,
        );
        draw_white_text(
            canvas,
            Point { x: WINDOW_WIDTH / 2 - 110 * PX, y: WINDOW_HEIGHT / 2 - 75 * PX },
            final_score_text,
            TEXT_SIZE,
        )?;
        draw_button_with_text(canvas, &self.restart_button)?;
        assert(canvas@ =~= old(canvas)@ + self@.victory_scene());
        Ok(())
    }

    /// **Draws the "Level Selection" screen on the canvas.**
    ///
    /// ## Behavior
    /// Draws the background and buttons for each available level.
    fn draw_select_level(&self, canvas: &mut Canvas) -> (r: Result<(), DodgerError>)
        requires
            self.wf(),
        ensures
            r is Ok,
            final(canvas)@ == old(canvas)@ + self@.select_level_scene(),
    {
        draw_background(canvas, &self.resources.menu_background_image);
        let ghost base = canvas@;
        let n = self.levels.len();
        let mut i: usize = 0;
        assert(canvas@ =~= base + level_buttons(0));
        while i < n
            invariant
                i <= n,
                n == LEVEL_COUNT,
                canvas@ == base + level_buttons(i as nat),
            decreases n - i,
        {
            let level_button = get_level_button(i, 100 * PX, String::from_str("button_font"))?;

            draw_button_with_text(canvas, &level_button)?;
            assert(canvas@ =~= base + level_buttons((i + 1) as nat));
            i += 1;
        }
        assert(canvas@ =~= old(canvas)@ + self@.select_level_scene());

        Ok(())
    }

    /// **Draws the screen of the current mode.**
    ///
    /// ## Parameters
    /// `now`: the time on the game's clock.
    ///
    /// ## Returns
    /// The canvas with everything that the screen shows, in the order in
    /// which it is to be painted.
    ///
    /// ## Behavior
    /// Drawing leaves the game as it is, but for the icon of the speaker
    /// button, which the playing screen sets to the muted or the sounding
    /// speaker.
    pub fn draw(&mut self, now: u64) -> (r: Result<Canvas, DodgerError>)
        requires
            old(self).wf(),
        ensures
            final(self).wf(),
            final(self)@ == old(self)@.drawn(),
            r matches Ok(canvas) && canvas@ == old(self)@.scene(now),
    {
        let mut canvas = Canvas::new();

        match self.game_mode {
            GameMode::Menu => self.draw_menu(&mut canvas),
            GameMode::Playing => self.draw_playing(&mut canvas, now),
            GameMode::GameOver => self.draw_game_over(&mut canvas),
            GameMode::NextLevel => self.draw_next_level(&mut canvas),
            GameMode::Victory => self.draw_victory(&mut canvas),
            GameMode::LevelSelection => self.draw_select_level(&mut canvas),
            GameMode::HowToPlay => self.draw_how_to_play(&mut canvas),
        }?;
        assert(canvas@ =~= old(self)@.scene(now));

        Ok(canvas)
    }
}

} // verus!
