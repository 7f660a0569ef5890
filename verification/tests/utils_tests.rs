use dodger::buttons::{Color, TextButton};
use dodger::consts::{PX, TEXT_BUTTON_HEIGHT, TEXT_BUTTON_WIDTH, WINDOW_HEIGHT, WINDOW_WIDTH};
use dodger::errors::DodgerError;
use dodger::utils::{
    start_point_of_centered_button, text_button_rect, text_button_rectsize, validate_coordinates,
    Point, Rect,
};

#[test]
fn test_validate_coordinates_valid() {
    let coords = Point { x: 100 * PX, y: 100 * PX };
    assert!(validate_coordinates(coords).is_ok());
}

#[test]
fn test_validate_coordinates_invalid_x() {
    let coords = Point { x: -10 * PX, y: 100 * PX };
    assert!(validate_coordinates(coords).is_err());

    let coords = Point { x: WINDOW_WIDTH + 10 * PX, y: 100 * PX };
    assert!(validate_coordinates(coords).is_err());
}

#[test]
fn test_validate_coordinates_invalid_y() {
    let coords = Point { x: 100 * PX, y: -10 * PX };
    assert!(validate_coordinates(coords).is_err());

    let coords = Point { x: 100 * PX, y: WINDOW_HEIGHT + 10 * PX };
    assert!(validate_coordinates(coords).is_err());
}

#[test]
fn test_start_point_of_centered_button() {
    let centered_point = start_point_of_centered_button();
    assert_eq!(
        centered_point,
        Point {
            x: (WINDOW_WIDTH / 2) - (TEXT_BUTTON_WIDTH / 2),
            y: (WINDOW_HEIGHT / 2) - (TEXT_BUTTON_HEIGHT / 2),
        }
    );
}

#[test]
fn test_text_button_rect() {
    let text_button = TextButton::new(
        start_point_of_centered_button(),
        Color::White,
        text_button_rectsize(),
        "Test Button".to_string(),
        Color::Black,
        48,
        "text_font".to_string(),
    )
    .unwrap();
    match text_button_rect(&text_button) {
        Ok(rect) => assert_eq!(
            rect,
            Rect::new(400 * PX, 375 * PX, TEXT_BUTTON_WIDTH, TEXT_BUTTON_HEIGHT)
        ),
        Err(e) => panic!("Unexpected error: {:?}", e),
    }
}

#[test]
fn validated_coordinates_come_back_unchanged() {
    for &(x, y) in &[(0, 0), (WINDOW_WIDTH, WINDOW_HEIGHT), (0, WINDOW_HEIGHT), (12_345, 67_890)] {
        assert_eq!(validate_coordinates(Point { x, y }), Ok(Point { x, y }));
    }
}

#[test]
fn invalid_coordinates_are_reported_with_the_bounds() {
    assert_eq!(
        validate_coordinates(Point { x: WINDOW_WIDTH + 1, y: 5 }),
        Err(DodgerError::InvalidCoordinates(WINDOW_WIDTH + 1, 5, WINDOW_WIDTH, WINDOW_HEIGHT))
    );
    assert_eq!(
        validate_coordinates(Point { x: 7, y: -1 }),
        Err(DodgerError::InvalidCoordinates(7, -1, WINDOW_WIDTH, WINDOW_HEIGHT))
    );
}
