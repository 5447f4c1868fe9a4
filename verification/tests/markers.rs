use corner_markers::coordinates_2d::{setup, TITLE};
use corner_markers::geometry::{Offset, WindowSize};
use corner_markers::marker::{Anchor, Color, MarkerBundle, MARKER_SIDE_LENGTH};
use corner_markers::placement::{offset, Placement};

fn at(x_halves: i64, y_halves: i64) -> Offset {
    Offset { x_halves, y_halves, depth: 0 }
}

/// Left, right, bottom and top edge of the square of a marker that hangs by
/// its top-left corner, in half units.
fn square(marker: &MarkerBundle) -> (i64, i64, i64, i64) {
    assert_eq!(marker.anchor, Anchor::TopLeft);
    let side = 2 * marker.side as i64;
    (
        marker.position.x_halves,
        marker.position.x_halves + side,
        marker.position.y_halves - side,
        marker.position.y_halves,
    )
}

#[test]
fn layout_window_has_its_title() {
    assert_eq!(TITLE, "Coordinate Example");
}

#[test]
fn marker_side_length_is_ten() {
    assert_eq!(MARKER_SIDE_LENGTH, 10);
}

#[test]
fn new_marker_hangs_by_its_top_left_corner() {
    let marker = MarkerBundle::new(at(-400, 400), Color::Green);
    assert_eq!(
        marker,
        MarkerBundle { position: at(-400, 400), color: Color::Green, side: 10, anchor: Anchor::TopLeft }
    );
}

#[test]
fn new_marker_keeps_position_and_color() {
    let position = Offset { x_halves: 7, y_halves: -9, depth: 3 };
    let marker = MarkerBundle::new(position, Color::Maroon);
    assert_eq!(marker.position, position);
    assert_eq!(marker.color, Color::Maroon);
    assert_ne!(MarkerBundle::new(position, Color::Red), marker);
}

#[test]
fn layout_of_the_initial_window() {
    let markers = setup(WindowSize::initial());
    let expected = vec![
        MarkerBundle { position: at(0, 0), color: Color::Blue, side: 10, anchor: Anchor::TopLeft },
        MarkerBundle { position: at(-400, 400), color: Color::Green, side: 10, anchor: Anchor::TopLeft },
        MarkerBundle { position: at(-400, -380), color: Color::Red, side: 10, anchor: Anchor::TopLeft },
        MarkerBundle { position: at(380, 400), color: Color::Orange, side: 10, anchor: Anchor::TopLeft },
        MarkerBundle { position: at(380, -380), color: Color::Purple, side: 10, anchor: Anchor::TopLeft },
    ];
    assert_eq!(markers, expected);
}

#[test]
fn layout_follows_the_window() {
    let window = WindowSize { width: 301, height: 200 };
    let markers = setup(window);
    let places = [
        Placement::Center,
        Placement::TopLeft,
        Placement::BottomLeft,
        Placement::TopRight,
        Placement::BottomRight,
    ];
    assert_eq!(markers.len(), places.len());
    for (marker, place) in markers.iter().zip(places) {
        assert_eq!(marker.position, offset(place, window, MARKER_SIDE_LENGTH));
        assert_eq!(marker.side, MARKER_SIDE_LENGTH);
        assert_eq!(marker.anchor, Anchor::TopLeft);
    }
    assert_eq!(markers[4].position, at(281, -180));
}

#[test]
fn layout_of_an_empty_window() {
    let markers = setup(WindowSize { width: 0, height: 0 });
    let positions: Vec<Offset> = markers.iter().map(|marker| marker.position).collect();
    assert_eq!(positions, vec![at(0, 0), at(0, 0), at(0, 20), at(-20, 0), at(-20, 20)]);
}

#[test]
fn corner_markers_touch_their_edges_and_stay_inside() {
    for (width, height) in [(400, 400), (301, 200), (10, 10), (11, 4000)] {
        let markers = setup(WindowSize { width, height });
        let (width, height) = (width as i64, height as i64);
        let (left, _, _, top) = square(&markers[1]);
        assert_eq!((left, top), (-width, height));
        let (left, _, bottom, _) = square(&markers[2]);
        assert_eq!((left, bottom), (-width, -height));
        let (_, right, _, top) = square(&markers[3]);
        assert_eq!((right, top), (width, height));
        let (_, right, bottom, _) = square(&markers[4]);
        assert_eq!((right, bottom), (width, -height));
        for marker in &markers[1..] {
            let (left, right, bottom, top) = square(marker);
            assert!(-width <= left && right <= width);
            assert!(-height <= bottom && top <= height);
        }
    }
}
