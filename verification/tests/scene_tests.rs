use dodger::buttons::{Color, Text};
use dodger::consts::PX;
use dodger::gamestate::GameState;
use dodger::input::{FrameInput, Key, Mouse};
use dodger::modes::GameMode;
use dodger::random::SpawnRoll;
use dodger::resources::{Image, ImageKind, LevelImages};
use dodger::sound::AudioManager;
use dodger::ui::DrawCommand;
use dodger::utils::{Point, Rect, Scaling};

fn picture(kind: ImageKind, width: u32, height: u32) -> Image {
    Image { kind, width, height }
}

fn pictures() -> LevelImages {
    LevelImages {
        player_image: picture(ImageKind::Player, 100, 120),
        background_image: picture(ImageKind::Background, 1000, 800),
        menu_background_image: picture(ImageKind::MenuBackground, 500, 400),
        bad_object_image: picture(ImageKind::BadObject, 100, 100),
        good_object_high_image: picture(ImageKind::GoodObjectHigh, 100, 100),
        good_object_medium_image: picture(ImageKind::GoodObjectMedium, 100, 100),
        good_object_low_image: picture(ImageKind::GoodObjectLow, 100, 100),
        pause_button_image: picture(ImageKind::PauseButton, 160, 120),
    }
}

fn game() -> GameState {
    let audio = AudioManager::new(
        picture(ImageKind::Speaker, 200, 200),
        picture(ImageKind::SpeakerMuted, 220, 220),
    );
    match GameState::new(vec![pictures(); 4], 0, audio, 0) {
        Ok(state) => state,
        Err(e) => panic!("no game: {:?}", e),
    }
}

fn press(x_px: i64, y_px: i64, now: u64) -> FrameInput {
    FrameInput {
        now,
        mouse: Mouse { left_pressed: true, position: Point { x: x_px * PX, y: y_px * PX } },
    }
}

fn wait(now: u64) -> FrameInput {
    FrameInput { now, mouse: Mouse { left_pressed: false, position: Point { x: 0, y: 0 } } }
}

fn aside() -> SpawnRoll {
    SpawnRoll { x: 30 * PX, bucket: 0 }
}

fn button(x_px: i64, y_px: i64, label: &str) -> Vec<DrawCommand> {
    let rect = Rect::new(x_px * PX, y_px * PX, 200 * PX, 50 * PX);
    vec![
        DrawCommand::Rectangle { rect, color: Color::White },
        DrawCommand::LabelInside {
            rect,
            text: Text {
                line: label.to_string(),
                font: "button_font".to_string(),
                scale: 26,
                color: Color::Black,
            },
        },
    ]
}

fn label(x_px: i64, y_px: i64, line: &str, scale: u32) -> DrawCommand {
    DrawCommand::Label {
        dest: Point { x: x_px * PX, y: y_px * PX },
        text: Text {
            line: line.to_string(),
            font: "text_font".to_string(),
            scale,
            color: Color::White,
        },
    }
}

fn plain(image: Image, x: i64, y: i64, scaling: u16) -> DrawCommand {
    DrawCommand::Picture {
        image,
        dest: Point { x, y },
        scaling: Scaling { x: scaling, y: scaling },
        blink_elapsed: None,
        pulse_time: None,
    }
}

#[test]
fn the_menu_scene() {
    let mut state = game();
    let mut expected = vec![DrawCommand::Background { image: pictures().menu_background_image }];
    expected.extend(button(400, 300, "Start"));
    expected.extend(button(400, 480, "Exit"));
    expected.extend(button(400, 360, "Select Level"));
    expected.extend(button(400, 420, "How to Play"));
    assert_eq!(state.draw(5).unwrap().commands, expected);

    // Once a game has begun the first button resumes it.
    state.update_with_roll(&press(500, 325, 10), aside()).unwrap();
    state.update_with_roll(&press(900, 30, 11), aside()).unwrap();
    assert_eq!(state.game_mode(), GameMode::Menu);
    let commands = state.draw(12).unwrap().commands;
    assert_eq!(commands[1..3], button(400, 300, "Resume")[..]);
    assert_eq!(commands.len(), 9);
}

#[test]
fn the_playing_scene() {
    let mut state = game();
    state.update_with_roll(&press(500, 325, 0), aside()).unwrap();
    state.update_with_roll(&wait(800), aside()).unwrap();
    state.update_with_roll(&wait(1600), aside()).unwrap();
    state.update_with_roll(&wait(1700), aside()).unwrap();
    let images = pictures();
    let mut expected = vec![
        DrawCommand::Background { image: images.background_image },
        plain(images.player_image, 500 * PX, 625 * PX, 40),
    ];
    expected.extend(button(800, 10, "Menu"));
    expected.push(label(525, 10, "Level 1", 34));
    expected.push(plain(picture(ImageKind::Speaker, 200, 200), 915 * PX, 60 * PX, 15));
    expected.push(plain(images.bad_object_image, 30 * PX, 750, 8));
    expected.push(DrawCommand::Picture {
        image: images.good_object_high_image,
        dest: Point { x: 30 * PX, y: 500 },
        scaling: Scaling { x: 8, y: 8 },
        blink_elapsed: None,
        pulse_time: Some(200_000),
    });
    expected.push(label(10, 10, "Level Score: 0", 34));
    expected.push(DrawCommand::Ellipse {
        center: Point { x: 360 * PX, y: 30 * PX },
        radius_x: 50 * PX,
        radius_y: 25 * PX,
        color: Color::Yellow,
    });
    expected.push(DrawCommand::LabelAround {
        center: Point { x: 360 * PX, y: 30 * PX },
        text: Text {
            line: "00:38".to_string(),
            font: "text_font".to_string(),
            scale: 34,
            color: Color::Black,
        },
    });
    expected.push(label(10, 50, "Total Score: 0", 34));
    expected.push(label(530, 60, "Lives: 5", 34));
    assert_eq!(state.draw(1700).unwrap().commands, expected);

    // Muted and paused: the speaker changes its icon, the pause icon shows.
    state.update_with_roll(&press(930, 75, 1701), aside()).unwrap();
    state.key_down_event(Key::Space, 1702);
    let commands = state.draw(1703).unwrap().commands;
    assert_eq!(commands[5], plain(picture(ImageKind::SpeakerMuted, 220, 220), 915 * PX, 60 * PX, 15));
    assert_eq!(commands.len(), expected.len() + 1);
    assert_eq!(commands[commands.len() - 1], plain(images.pause_button_image, 460 * PX, 370 * PX, 50));
    // The speaker now takes clicks in the size of the muted icon: 33 pixels.
    state.key_down_event(Key::Space, 1704);
    state.update_with_roll(&press(947, 92, 1705), aside()).unwrap();
    assert!(!state.audio().is_muted);
}

#[test]
fn the_instructions_scene() {
    let mut state = game();
    state.update_with_roll(&press(500, 445, 1), aside()).unwrap();
    assert_eq!(state.game_mode(), GameMode::HowToPlay);
    let mut expected = vec![
        DrawCommand::Background { image: pictures().menu_background_image },
        label(350, 150, "How to Play", 48),
        label(150, 250, "Use Left/Right arrows to move the player.", 34),
        label(150, 300, "Press Space to pause the game.", 34),
        label(150, 350, "Catch good objects to earn points:", 34),
        label(150, 400, "  - High value: 30 points", 34),
        label(150, 450, "  - Medium value: 15 points", 34),
        label(150, 500, "  - Low value: 5 points", 34),
        label(150, 550, "Avoid bad objects! They reduce your lives.", 34),
        label(150, 600, "Each level lasts 40 seconds.", 34),
    ];
    expected.extend(button(800, 10, "Back"));
    assert_eq!(state.draw(2).unwrap().commands, expected);
}

#[test]
fn the_level_selection_scene() {
    let mut state = game();
    state.update_with_roll(&press(500, 385, 1), aside()).unwrap();
    assert_eq!(state.game_mode(), GameMode::LevelSelection);
    let mut expected = vec![DrawCommand::Background { image: pictures().menu_background_image }];
    expected.extend(button(400, 100, "Level 1"));
    expected.extend(button(400, 160, "Level 2"));
    expected.extend(button(400, 220, "Level 3"));
    expected.extend(button(400, 280, "Level 4"));
    assert_eq!(state.draw(2).unwrap().commands, expected);
}

#[test]
fn the_scenes_after_a_level() {
    let mut state = game();
    state.update_with_roll(&press(500, 325, 0), aside()).unwrap();
    state.update_with_roll(&wait(40_000), aside()).unwrap();
    assert_eq!(state.game_mode(), GameMode::NextLevel);
    let mut expected = vec![
        DrawCommand::Background { image: pictures().background_image },
        label(340, 300, "Level Complete!", 48),
    ];
    expected.extend(button(400, 375, "Next Level"));
    assert_eq!(state.draw(40_001).unwrap().commands, expected);

    // On to the last level, and through it.
    let mut now = 40_001;
    for _ in 0..3 {
        state.update_with_roll(&press(500, 400, now), aside()).unwrap();
        assert_eq!(state.game_mode(), GameMode::Playing);
        now += 40_000;
        state.update_with_roll(&wait(now), aside()).unwrap();
        now += 1;
    }
    assert_eq!(state.game_mode(), GameMode::Victory);
    assert_eq!(state.current_level(), 3);
    let mut expected = vec![
        DrawCommand::Background { image: pictures().background_image },
        label(315, 275, "You Win! Game Over", 48),
        label(390, 325, "Final Score: 0", 34),
    ];
    expected.extend(button(400, 375, "Restart"));
    assert_eq!(state.draw(now).unwrap().commands, expected);
}

#[test]
fn the_scene_after_a_lost_game() {
    let mut state = game();
    state.update_with_roll(&press(500, 325, 0), aside()).unwrap();
    let mut now = 1;
    while state.game_mode() == GameMode::Playing {
        let roll = if state.spawn_count() % 5 == 0 {
            SpawnRoll { x: 510 * PX, bucket: 0 }
        } else {
            aside()
        };
        state.update_with_roll(&wait(now), roll).unwrap();
        now += 1;
    }
    assert_eq!(state.game_mode(), GameMode::GameOver);
    let mut expected = vec![
        DrawCommand::Background { image: pictures().background_image },
        label(405, 325, "Game Over", 48),
    ];
    expected.extend(button(400, 375, "Restart"));
    assert_eq!(state.draw(now).unwrap().commands, expected);
}
