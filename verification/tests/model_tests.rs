use dodger::buttons::{Color, DrawText, IconButton, Text, TextButton};
use dodger::collisions::{purge, resolve};
use dodger::consts::{PX, WINDOW_HEIGHT, WINDOW_WIDTH};
use dodger::errors::DodgerError;
use dodger::input::Mouse;
use dodger::levels::get_levels;
use dodger::objects::{FallingObject, GoodObjectValue};
use dodger::player::Player;
use dodger::records::{restore_objects, save_objects, ObjectRecord};
use dodger::resources::{level_image_kinds, Image, ImageKind, LevelImages, Resources};
use dodger::sound::{AudioManager, Sound};
use dodger::text::{decimal_string, label_number};
use dodger::ui::{
    draw_background, draw_button_with_text, draw_ellipse_with_text, draw_icon, draw_score,
    draw_text, draw_timer, text_origin_around, text_origin_inside, Canvas, DrawCommand,
};
use dodger::utils::{
    get_level_button, half_of, half_scaling, icon_button_rect, icon_button_size,
    is_button_clicked, object_scaling, offset_coordinate, player_scaling, scale_length,
    start_point_of_button_in_set, text_button_rectsize, Point, Rect, RectSize, Scaling,
};

fn image(kind: ImageKind, width: u32, height: u32) -> Image {
    Image { kind, width, height }
}

fn resources() -> Resources {
    let images = LevelImages {
        player_image: image(ImageKind::Player, 100, 120),
        background_image: image(ImageKind::Background, 1000, 800),
        menu_background_image: image(ImageKind::MenuBackground, 1000, 800),
        bad_object_image: image(ImageKind::BadObject, 50, 60),
        good_object_high_image: image(ImageKind::GoodObjectHigh, 100, 100),
        good_object_medium_image: image(ImageKind::GoodObjectMedium, 110, 100),
        good_object_low_image: image(ImageKind::GoodObjectLow, 120, 100),
        pause_button_image: image(ImageKind::PauseButton, 160, 120),
    };
    Resources::load_level(1, &get_levels(), &images).unwrap()
}

fn object_at(x: i64, y: i64, is_good: bool, value: Option<GoodObjectValue>) -> FallingObject {
    let mut object =
        FallingObject::new(Point { x: 0, y: 0 }, object_scaling(), is_good, value, &resources())
            .unwrap();
    object.coords = Point { x, y };
    object
}

#[test]
fn scores_of_the_values() {
    assert_eq!(GoodObjectValue::High.score(), 30);
    assert_eq!(GoodObjectValue::Medium.score(), 15);
    assert_eq!(GoodObjectValue::Low.score(), 5);
}

#[test]
fn the_level_table() {
    let levels = get_levels();
    assert_eq!(levels.len(), 4);
    let speeds: Vec<i64> = levels.iter().map(|level| level.fall_speed).collect();
    assert_eq!(speeds, vec![250, 300, 350, 400]);
    assert_eq!(levels[0].image_template, "/Level1");
    assert_eq!(levels[3].image_template, "/Level4");
}

#[test]
fn resources_of_a_level() {
    let resources = resources();
    assert_eq!(resources.level.fall_speed, 300);
    assert_eq!(resources.level.image_template, "/Level2");
    assert_eq!(resources.bad_object_image, image(ImageKind::BadObject, 50, 60));
    let images = LevelImages {
        player_image: resources.player_image,
        background_image: resources.background_image,
        menu_background_image: resources.menu_background_image,
        bad_object_image: resources.bad_object_image,
        good_object_high_image: resources.good_object_high_image,
        good_object_medium_image: resources.good_object_medium_image,
        good_object_low_image: resources.good_object_low_image,
        pause_button_image: resources.pause_button_image,
    };
    assert!(matches!(
        Resources::load_level(4, &get_levels(), &images),
        Err(DodgerError::Unexpected)
    ));
}

#[test]
fn image_paths() {
    let levels = get_levels();
    assert_eq!(Resources::formatted_image_path("/Level1", "player.png"), "/Level1/player.png");
    assert_eq!(Resources::image_path(&levels[2], ImageKind::Player), "/Level3/player.png");
    assert_eq!(Resources::image_path(&levels[0], ImageKind::Background), "/Level1/background.png");
    assert_eq!(Resources::image_path(&levels[0], ImageKind::BadObject), "/Level1/bad_object.png");
    assert_eq!(
        Resources::image_path(&levels[1], ImageKind::GoodObjectHigh),
        "/Level2//Good_Objects/high.png"
    );
    assert_eq!(
        Resources::image_path(&levels[1], ImageKind::GoodObjectMedium),
        "/Level2//Good_Objects/medium.png"
    );
    assert_eq!(
        Resources::image_path(&levels[1], ImageKind::GoodObjectLow),
        "/Level2//Good_Objects/low.png"
    );
    assert_eq!(Resources::image_path(&levels[3], ImageKind::MenuBackground), "/menu_background.png");
    assert_eq!(Resources::image_path(&levels[3], ImageKind::PauseButton), "/pause_resume.png");
    assert_eq!(Resources::image_path(&levels[3], ImageKind::Speaker), "/Sounds/speaker.png");
    assert_eq!(
        Resources::image_path(&levels[3], ImageKind::SpeakerMuted),
        "/Sounds/speaker_muted.png"
    );
    assert_eq!(level_image_kinds().len(), 8);
    assert_eq!(level_image_kinds()[0], ImageKind::Player);
    assert_eq!(level_image_kinds()[7], ImageKind::PauseButton);
}

#[test]
fn lengths_scale_exactly() {
    assert_eq!(scale_length(100, 40), 40 * PX);
    assert_eq!(scale_length(100, 8), 8 * PX);
    assert_eq!(scale_length(333, 15), 4995);
    assert_eq!(scale_length(0, 50), 0);
    assert_eq!(scale_length(u32::MAX, u16::MAX), 4_294_967_295 * 65_535);
    assert_eq!(player_scaling(), Scaling { x: 40, y: 40 });
    assert_eq!(object_scaling(), Scaling { x: 8, y: 8 });
    assert_eq!(half_scaling(), Scaling { x: 50, y: 50 });
    assert_eq!(text_button_rectsize(), RectSize { w: 200 * PX, h: 50 * PX });
    assert_eq!(RectSize::from((3, 4)), RectSize { w: 3, h: 4 });
}

#[test]
fn coordinates_stay_at_the_ends_of_their_range() {
    assert_eq!(offset_coordinate(5, 7), 12);
    assert_eq!(offset_coordinate(i64::MAX - 1, 400), i64::MAX);
    assert_eq!(offset_coordinate(i64::MIN + 1, -400), i64::MIN);
    assert_eq!(half_of(7), 3);
    assert_eq!(half_of(-7), -3);
    assert_eq!(half_of(i64::MIN), i64::MIN / 2);
}

#[test]
fn rectangles_that_touch_overlap() {
    let a = Rect::new(0, 0, 10, 10);
    assert!(a.overlaps(&Rect::new(10, 10, 5, 5)));
    assert!(a.overlaps(&Rect::new(-5, -5, 5, 5)));
    assert!(a.overlaps(&Rect::new(3, 3, 2, 2)));
    assert!(!a.overlaps(&Rect::new(11, 0, 5, 5)));
    assert!(!a.overlaps(&Rect::new(0, 11, 5, 5)));
    assert!(!a.overlaps(&Rect::new(-6, 0, 5, 5)));
    assert!(a.contains(Point { x: 0, y: 0 }));
    assert!(a.contains(Point { x: 10, y: 10 }));
    assert!(!a.contains(Point { x: 11, y: 10 }));
    assert!(!a.contains(Point { x: 5, y: -1 }));
    let far = Rect::new(i64::MAX, i64::MAX, i64::MAX, i64::MAX);
    assert!(far.overlaps(&far));
    assert!(!far.overlaps(&a));
}

#[test]
fn buttons_in_a_set() {
    assert_eq!(start_point_of_button_in_set(0, 300 * PX), Point { x: 400 * PX, y: 300 * PX });
    assert_eq!(start_point_of_button_in_set(3, 300 * PX), Point { x: 400 * PX, y: 480 * PX });
    assert_eq!(start_point_of_button_in_set(usize::MAX, 0).y, i64::MAX);
    let button = get_level_button(2, 100 * PX, "button_font".to_string()).unwrap();
    assert_eq!(button.coords, Point { x: 400 * PX, y: 220 * PX });
    assert_eq!(button.text.line, "Level 3");
    assert_eq!(button.text.font, "button_font");
    assert_eq!(button.text.scale, 26);
    assert_eq!(button.text.color, Color::Black);
    assert_eq!(button.button_color, Color::White);
    assert_eq!(
        get_level_button(12, 100 * PX, "button_font".to_string()),
        Err(DodgerError::InvalidCoordinates(400 * PX, 820 * PX, WINDOW_WIDTH, WINDOW_HEIGHT))
    );
}

#[test]
fn icon_buttons() {
    let icon = image(ImageKind::Speaker, 200, 100);
    let button =
        IconButton::new(Point { x: 915 * PX, y: 60 * PX }, Scaling { x: 15, y: 15 }, icon).unwrap();
    assert_eq!(icon_button_size(&button), (30 * PX, 15 * PX));
    assert_eq!(icon_button_rect(&button), Ok(Rect::new(915 * PX, 60 * PX, 30 * PX, 15 * PX)));
    assert!(IconButton::new(Point { x: -1, y: 0 }, Scaling { x: 15, y: 15 }, icon).is_err());
    let moved = IconButton { coords: Point { x: 0, y: WINDOW_HEIGHT + 1 }, ..button };
    assert_eq!(
        icon_button_rect(&moved),
        Err(DodgerError::InvalidCoordinates(0, WINDOW_HEIGHT + 1, WINDOW_WIDTH, WINDOW_HEIGHT))
    );
    let mouse = Mouse { left_pressed: true, position: Point { x: 920 * PX, y: 70 * PX } };
    let rect = icon_button_rect(&button).unwrap();
    assert!(is_button_clicked(&mouse, rect));
    assert!(!is_button_clicked(&Mouse { left_pressed: false, ..mouse }, rect));
    assert!(!is_button_clicked(&Mouse { position: Point { x: 0, y: 0 }, ..mouse }, rect));
}

#[test]
fn texts_and_buttons_validate_their_coordinates() {
    let invalid = Point { x: WINDOW_WIDTH + 1, y: 0 };
    let error = DodgerError::InvalidCoordinates(WINDOW_WIDTH + 1, 0, WINDOW_WIDTH, WINDOW_HEIGHT);
    assert_eq!(
        DrawText::new(invalid, "a".to_string(), "text_font".to_string(), 34, Color::White),
        Err(error.clone())
    );
    assert_eq!(
        TextButton::new(
            invalid,
            Color::White,
            text_button_rectsize(),
            "a".to_string(),
            Color::Black,
            26,
            "button_font".to_string()
        ),
        Err(error.clone())
    );
    let text = DrawText::new(
        Point { x: 1, y: 2 },
        "a".to_string(),
        "text_font".to_string(),
        34,
        Color::White,
    )
    .unwrap();
    assert_eq!(text.coords, Point { x: 1, y: 2 });
    assert_eq!(text.text.line, "a");
    assert_eq!(text.text.scale, 34);
}

#[test]
fn a_new_object_takes_its_picture_and_size() {
    let resources = resources();
    let start = Point { x: 30 * PX, y: 0 };
    let high =
        FallingObject::new(start, object_scaling(), true, Some(GoodObjectValue::High), &resources)
            .unwrap();
    assert_eq!(high.image.kind, ImageKind::GoodObjectHigh);
    assert_eq!(high.size, RectSize { w: 800, h: 800 });
    assert_eq!(high.coords, start);
    assert_eq!(high.remove_timer, None);
    assert_eq!(high.blink_timer, None);
    assert_eq!(high.pulse_time, 0);
    let medium =
        FallingObject::new(start, object_scaling(), true, Some(GoodObjectValue::Medium), &resources)
            .unwrap();
    assert_eq!(medium.image.kind, ImageKind::GoodObjectMedium);
    assert_eq!(medium.size, RectSize { w: 880, h: 800 });
    let low =
        FallingObject::new(start, object_scaling(), true, Some(GoodObjectValue::Low), &resources)
            .unwrap();
    assert_eq!(low.image.kind, ImageKind::GoodObjectLow);
    let plain = FallingObject::new(start, object_scaling(), true, None, &resources).unwrap();
    assert_eq!(plain.image.kind, ImageKind::GoodObjectLow);
    let bad = FallingObject::new(start, object_scaling(), false, None, &resources).unwrap();
    assert_eq!(bad.image.kind, ImageKind::BadObject);
    assert_eq!(bad.size, RectSize { w: 400, h: 480 });
    assert_eq!(bad.rect(), Rect::new(30 * PX, 0, 400, 480));
    assert_eq!(
        FallingObject::new(Point { x: 0, y: -1 }, object_scaling(), false, None, &resources),
        Err(DodgerError::InvalidCoordinates(0, -1, WINDOW_WIDTH, WINDOW_HEIGHT))
    );
}

#[test]
fn an_object_falls_by_the_speed_of_the_level() {
    let resources = resources();
    let mut low = object_at(100, 200, true, Some(GoodObjectValue::Low));
    low.update(&resources, 100_000);
    assert_eq!(low.coords, Point { x: 100, y: 500 });
    assert_eq!(low.pulse_time, 0);
    let mut high = object_at(100, i64::MAX - 10, true, Some(GoodObjectValue::High));
    high.pulse_time = 6_283_185;
    high.update(&resources, 100_000);
    assert_eq!(high.coords.y, i64::MAX);
    assert_eq!(high.pulse_time, 100_000);
    high.pulse_time = 6_183_185;
    high.update(&resources, 100_000);
    assert_eq!(high.pulse_time, 6_283_185);
}

#[test]
fn the_player_is_a_square() {
    let picture = image(ImageKind::Player, 100, 120);
    let mut player =
        Player::new(Point { x: 500 * PX, y: 625 * PX }, player_scaling(), &picture).unwrap();
    assert_eq!(player.size, RectSize { w: 40 * PX, h: 40 * PX });
    assert_eq!(player.rect(), Rect::new(500 * PX, 625 * PX, 40 * PX, 40 * PX));
    assert_eq!(player.blink_timer, None);
    player.move_left();
    assert_eq!(player.coords, Point { x: 480 * PX, y: 625 * PX });
    player.move_right();
    player.move_right();
    assert_eq!(player.coords.x, 520 * PX);
    player.coords.x = 5;
    player.move_left();
    assert_eq!(player.coords.x, 5 - 20 * PX);
    // A player wider than the field leaves less room than a step.
    player.size.w = WINDOW_WIDTH - 7;
    player.coords.x = 0;
    player.move_right();
    assert_eq!(player.coords.x, 7);
    assert!(Player::new(Point { x: 0, y: WINDOW_HEIGHT + 1 }, player_scaling(), &picture).is_err());
}

#[test]
fn collisions_are_resolved_object_by_object() {
    let player = Rect::new(500 * PX, 625 * PX, 40 * PX, 40 * PX);
    let mut struck_before = object_at(510 * PX, 630 * PX, false, None);
    struck_before.remove_timer = Some(3);
    let mut objects = vec![
        object_at(510 * PX, 630 * PX, true, Some(GoodObjectValue::High)),
        object_at(10 * PX, 630 * PX, true, Some(GoodObjectValue::High)),
        object_at(540 * PX, 665 * PX, false, None),
        struck_before,
        object_at(500 * PX, 625 * PX - 800, true, None),
        object_at(500 * PX, 640 * PX, true, Some(GoodObjectValue::Medium)),
        object_at(500 * PX, 640 * PX, true, Some(GoodObjectValue::Low)),
        object_at(500 * PX, 640 * PX, false, None),
    ];
    let outcome = resolve(player, &mut objects, 77);
    assert_eq!(outcome.score_delta, 30 + 10 + 15 + 5);
    assert_eq!(outcome.lives_lost, 2);
    assert_eq!(
        outcome.sounds,
        vec![
            Sound::GoodCollisionHigh,
            Sound::BadCollision,
            Sound::GoodCollision,
            Sound::GoodCollision,
            Sound::GoodCollision,
            Sound::BadCollision,
        ]
    );
    let removes: Vec<Option<u64>> = objects.iter().map(|o| o.remove_timer).collect();
    assert_eq!(
        removes,
        vec![Some(77), None, Some(77), Some(3), Some(77), Some(77), Some(77), Some(77)]
    );
    let blinks: Vec<Option<u64>> = objects.iter().map(|o| o.blink_timer).collect();
    assert_eq!(blinks, vec![None, None, Some(77), None, None, None, None, Some(77)]);

    // A second round strikes nothing anew.
    let again = resolve(player, &mut objects, 78);
    assert_eq!(again.score_delta, 0);
    assert_eq!(again.lives_lost, 0);
    assert!(again.sounds.is_empty());

    purge(&mut objects, 1002);
    let left: Vec<(bool, Option<u64>)> =
        objects.iter().map(|o| (o.is_good, o.remove_timer)).collect();
    assert_eq!(left, vec![(true, None), (false, Some(77)), (false, Some(3)), (false, Some(77))]);
    purge(&mut objects, 1003);
    assert_eq!(objects.len(), 3);
    purge(&mut objects, 1077);
    assert_eq!(objects.len(), 1);
    assert_eq!(objects[0].coords.x, 10 * PX);
}

#[test]
fn recorded_objects_collide_like_the_objects() {
    let player = Rect::new(500 * PX, 625 * PX, 40 * PX, 40 * PX);
    let mut lingering = object_at(520 * PX, 630 * PX, false, None);
    lingering.remove_timer = Some(40);
    lingering.blink_timer = Some(40);
    let mut pulsing = object_at(510 * PX, 630 * PX, true, Some(GoodObjectValue::High));
    pulsing.pulse_time = 12345;
    pulsing.alpha = 500;
    let mut objects = vec![
        pulsing,
        object_at(10 * PX, 630 * PX, true, Some(GoodObjectValue::Low)),
        object_at(540 * PX, 665 * PX, false, None),
        lingering,
        object_at(500 * PX, 640 * PX, true, None),
    ];
    let records = save_objects(&objects);
    assert_eq!(records.len(), 5);
    assert_eq!(
        records[3],
        ObjectRecord {
            coords: Point { x: 520 * PX, y: 630 * PX },
            size: RectSize { w: 400, h: 480 },
            is_good: false,
            good_object_value: None,
            remove_timer: Some(40),
            blink_timer: Some(40),
        }
    );
    let mut restored = restore_objects(&records, &resources());
    assert_eq!(save_objects(&restored), records);
    assert_eq!(restored[0].pulse_time, 0);
    assert_eq!(restored[0].image, objects[0].image);
    assert_eq!(restored[1..], objects[1..]);

    let outcome = resolve(player, &mut objects, 1000);
    let outcome_restored = resolve(player, &mut restored, 1000);
    assert_eq!(outcome, outcome_restored);
    assert_eq!(outcome.score_delta, 40);
    assert_eq!(outcome.lives_lost, 1);
    purge(&mut objects, 1040);
    purge(&mut restored, 1040);
    assert_eq!(save_objects(&objects), save_objects(&restored));
    assert_eq!(objects.len(), 2);
}

#[test]
fn the_registry_of_sounds() {
    let mut audio = AudioManager::new(
        image(ImageKind::Speaker, 200, 200),
        image(ImageKind::SpeakerMuted, 200, 200),
    );
    assert!(!audio.is_muted);
    assert_eq!(audio.sounds.len(), 6);
    let expected = [
        (Sound::GoodCollision, "good_collision", "/Sounds/success.ogg"),
        (Sound::GoodCollisionHigh, "good_collision_high", "/Sounds/treasure.ogg"),
        (Sound::BadCollision, "bad_collision", "/Sounds/failure-alert.ogg"),
        (Sound::GameOver, "game_over", "/Sounds/fail-trombone.ogg"),
        (Sound::LevelCompleted, "level_completed", "/Sounds/level-completed.ogg"),
        (Sound::Victory, "victory", "/Sounds/fanfare.ogg"),
    ];
    for &(sound, key, path) in &expected {
        assert_eq!(sound.key(), key);
        assert_eq!(audio.play_sound(key.to_string()), Ok(Some(path.to_string())));
    }
    assert_eq!(
        audio.play_sound("applause".to_string()),
        Err(DodgerError::InvalidSoundKey("applause".to_string()))
    );
    audio.toggle_mute();
    assert!(audio.is_muted);
    assert_eq!(audio.play_sound("victory".to_string()), Ok(None));
    assert_eq!(audio.play_sound("applause".to_string()), Ok(None));
    audio.toggle_mute();
    assert!(!audio.is_muted);
    assert_eq!(audio.play_sound("victory".to_string()), Ok(Some("/Sounds/fanfare.ogg".to_string())));
}

#[test]
fn numbers_in_decimal() {
    assert_eq!(decimal_string(0), "0");
    assert_eq!(decimal_string(9), "9");
    assert_eq!(decimal_string(10), "10");
    assert_eq!(decimal_string(1234567890), "1234567890");
    assert_eq!(decimal_string(u128::MAX), u128::MAX.to_string());
    assert_eq!(label_number("Level ", 3), "Level 3");
    assert_eq!(label_number("", 0), "0");
}

fn text(line: &str, font: &str, scale: u32, color: Color) -> Text {
    Text { line: line.to_string(), font: font.to_string(), scale, color }
}

#[test]
fn drawing_primitives_record_what_they_draw() {
    let mut canvas = Canvas::new();
    let background = image(ImageKind::Background, 1000, 800);
    draw_background(&mut canvas, &background);
    let label = DrawText::new(
        Point { x: 10 * PX, y: 10 * PX },
        "Level Score: 5".to_string(),
        "text_font".to_string(),
        34,
        Color::White,
    )
    .unwrap();
    draw_text(&mut canvas, label.clone()).unwrap();
    draw_score(&mut canvas, label.clone()).unwrap();
    let icon = IconButton {
        coords: Point { x: 915 * PX, y: 60 * PX },
        scaling: Scaling { x: 15, y: 15 },
        icon: image(ImageKind::Speaker, 200, 200),
    };
    draw_icon(&mut canvas, &icon).unwrap();
    let button = TextButton::new(
        Point { x: 800 * PX, y: 10 * PX },
        Color::White,
        RectSize { w: 100 * PX, h: 40 * PX },
        "Menu".to_string(),
        Color::Black,
        26,
        "button_font".to_string(),
    )
    .unwrap();
    draw_button_with_text(&mut canvas, &button).unwrap();
    draw_ellipse_with_text(&mut canvas, &button);
    let label_text = text("Level Score: 5", "text_font", 34, Color::White);
    let menu_text = text("Menu", "button_font", 26, Color::Black);
    assert_eq!(
        canvas.commands,
        vec![
            DrawCommand::Background { image: background },
            DrawCommand::Label { dest: Point { x: 10 * PX, y: 10 * PX }, text: label_text.clone() },
            DrawCommand::Label { dest: Point { x: 10 * PX, y: 10 * PX }, text: label_text },
            DrawCommand::Picture {
                image: icon.icon,
                dest: icon.coords,
                scaling: icon.scaling,
                blink_elapsed: None,
                pulse_time: None,
            },
            DrawCommand::Rectangle {
                rect: Rect::new(800 * PX, 10 * PX, 200 * PX, 50 * PX),
                color: Color::White,
            },
            DrawCommand::LabelInside {
                rect: Rect::new(800 * PX, 10 * PX, 200 * PX, 50 * PX),
                text: menu_text.clone(),
            },
            DrawCommand::Ellipse {
                center: Point { x: 800 * PX, y: 10 * PX },
                radius_x: 50 * PX,
                radius_y: 20 * PX,
                color: Color::White,
            },
            DrawCommand::LabelAround { center: Point { x: 800 * PX, y: 10 * PX }, text: menu_text },
        ]
    );

    let before = canvas.commands.len();
    let off_field = DrawText { coords: Point { x: -1, y: 0 }, text: label.text.clone() };
    assert_eq!(
        draw_text(&mut canvas, off_field.clone()),
        Err(DodgerError::InvalidCoordinates(-1, 0, WINDOW_WIDTH, WINDOW_HEIGHT))
    );
    assert!(draw_score(&mut canvas, off_field).is_err());
    assert!(draw_icon(&mut canvas, &IconButton { coords: Point { x: -1, y: 0 }, ..icon }).is_err());
    assert!(draw_button_with_text(
        &mut canvas,
        &TextButton { coords: Point { x: -1, y: 0 }, ..button }
    )
    .is_err());
    assert_eq!(canvas.commands.len(), before);
}

#[test]
fn the_timer_shows_two_digits() {
    for &(seconds, line) in &[(0, "00:00"), (7, "00:07"), (10, "00:10"), (40, "00:40")] {
        let mut canvas = Canvas::new();
        draw_timer(&mut canvas, seconds).unwrap();
        assert_eq!(
            canvas.commands,
            vec![
                DrawCommand::Ellipse {
                    center: Point { x: 360 * PX, y: 30 * PX },
                    radius_x: 50 * PX,
                    radius_y: 25 * PX,
                    color: Color::Yellow,
                },
                DrawCommand::LabelAround {
                    center: Point { x: 360 * PX, y: 30 * PX },
                    text: text(line, "text_font", 34, Color::Black),
                },
            ]
        );
    }
}

#[test]
fn texts_are_centred() {
    let rect = Rect::new(800 * PX, 10 * PX, 200 * PX, 50 * PX);
    assert_eq!(
        text_origin_inside(rect, RectSize { w: 60 * PX, h: 20 * PX }),
        Point { x: 870 * PX, y: 25 * PX }
    );
    assert_eq!(text_origin_inside(rect, RectSize { w: 20_003, h: 5_001 }), Point { x: 79_999, y: 1_000 });
    assert_eq!(
        text_origin_around(Point { x: 360 * PX, y: 30 * PX }, RectSize { w: 80 * PX, h: 30 * PX }),
        Point { x: 320 * PX, y: 15 * PX }
    );
}

#[test]
fn objects_and_players_draw_their_effects() {
    let mut canvas = Canvas::new();
    let mut high = object_at(100, 200, true, Some(GoodObjectValue::High));
    high.pulse_time = 42;
    high.draw(&mut canvas, 1000);
    let mut bad = object_at(300, 400, false, None);
    bad.blink_timer = Some(900);
    bad.pulse_time = 7;
    bad.draw(&mut canvas, 1000);
    bad.draw(&mut canvas, 800);
    let picture = image(ImageKind::Player, 100, 120);
    let mut player =
        Player::new(Point { x: 500 * PX, y: 625 * PX }, player_scaling(), &picture).unwrap();
    player.draw(&mut canvas, 1000);
    player.blink_timer = Some(400);
    player.draw(&mut canvas, 1000);
    let effects: Vec<(Option<u64>, Option<u64>)> = canvas
        .commands
        .iter()
        .map(|command| match command {
            DrawCommand::Picture { blink_elapsed, pulse_time, .. } => (*blink_elapsed, *pulse_time),
            other => panic!("no picture: {:?}", other),
        })
        .collect();
    assert_eq!(
        effects,
        vec![(None, Some(42)), (Some(100), None), (Some(0), None), (None, None), (Some(600), None)]
    );
    assert_eq!(
        canvas.commands[0],
        DrawCommand::Picture {
            image: high.image,
            dest: Point { x: 100, y: 200 },
            scaling: object_scaling(),
            blink_elapsed: None,
            pulse_time: Some(42),
        }
    );
}
