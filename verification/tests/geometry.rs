use squares::edge::{Alignment, Edge};
use squares::game::spawn_world;
use squares::geometry::{locate_cursor, BoardCoord, PixelPos, Point, Ratio, WindowSize};
use squares::input::{ElementState, MouseButton, MouseButtonInput};

fn coord(x_num: i64, x_den: i64, y_num: i64, y_den: i64) -> BoardCoord {
    BoardCoord { x: Ratio::new(x_num, x_den).unwrap(), y: Ratio::new(y_num, y_den).unwrap() }
}

fn equals(r: &Ratio, num: i64, den: i64) -> bool {
    (r.num() as i128) * (den as i128) == (num as i128) * (r.den() as i128)
}

#[test]
fn ratio_needs_a_positive_denominator() {
    assert!(Ratio::new(1, 2).is_some());
    assert!(Ratio::new(-7, 1).is_some());
    assert!(Ratio::new(1, 0).is_none());
    assert!(Ratio::new(1, -2).is_none());
    assert!(Ratio::new(0, i64::MIN).is_none());
    let r = Ratio::new(3, 4).unwrap();
    assert_eq!((r.num(), r.den()), (3, 4));
}

#[test]
fn ratio_compares_with_tenths() {
    let half = Ratio::new(1, 2).unwrap();
    assert!(half.gt_tenths(4));
    assert!(!half.gt_tenths(5));
    assert!(!half.lt_tenths(5));
    assert!(half.lt_tenths(6));
    let minus = Ratio::new(-1, 20).unwrap();
    assert!(minus.gt_tenths(-1));
    assert!(minus.lt_tenths(0));
    assert!(!minus.gt_tenths(0));
}

#[test]
fn ratio_compares_without_overflow() {
    let big = Ratio::new(i64::MAX, 1).unwrap();
    assert!(big.gt_tenths(i64::MAX));
    assert!(!big.lt_tenths(i64::MAX));
    let small = Ratio::new(i64::MIN, i64::MAX).unwrap();
    assert!(small.lt_tenths(-10));
    assert!(small.gt_tenths(-11));
    assert!(small.gt_tenths(i64::MIN));
}

#[test]
fn cursor_in_the_middle_of_a_710_pixel_window() {
    let window = WindowSize { width: 710, height: 710 };
    let b = locate_cursor(PixelPos { x: 355, y: 355 }, &window).unwrap();
    // 355 / 710 * 7 * 0.9 - 0.1 = 3.05
    assert!(equals(&b.x, 305, 100));
    assert!(equals(&b.y, 305, 100));
}

#[test]
fn cursor_at_the_corners_of_the_window() {
    let window = WindowSize { width: 710, height: 500 };
    let low = locate_cursor(PixelPos { x: 0, y: 0 }, &window).unwrap();
    assert!(equals(&low.x, -1, 10));
    assert!(equals(&low.y, -1, 10));
    let high = locate_cursor(PixelPos { x: 710, y: 500 }, &window).unwrap();
    assert!(equals(&high.x, 62, 10));
    assert!(equals(&high.y, 62, 10));
}

#[test]
fn cursor_axes_are_mapped_independently() {
    let window = WindowSize { width: 630, height: 1260 };
    let b = locate_cursor(PixelPos { x: 60, y: 20 }, &window).unwrap();
    assert!(equals(&b.x, 1, 2));
    assert!(equals(&b.y, 0, 1));
}

#[test]
fn cursor_outside_the_window_is_still_mapped() {
    let window = WindowSize { width: 630, height: 630 };
    let b = locate_cursor(PixelPos { x: -630, y: 1260 }, &window).unwrap();
    assert!(equals(&b.x, -64, 10));
    assert!(equals(&b.y, 125, 10));
    let far = locate_cursor(PixelPos { x: i32::MIN, y: i32::MAX }, &WindowSize { width: u32::MAX, height: 1 });
    assert!(far.is_some());
}

#[test]
fn cursor_unit_does_not_matter() {
    let coarse = locate_cursor(PixelPos { x: 123, y: 45 }, &WindowSize { width: 710, height: 710 }).unwrap();
    let fine =
        locate_cursor(PixelPos { x: 123 * 64, y: 45 * 64 }, &WindowSize { width: 710 * 64, height: 710 * 64 })
            .unwrap();
    assert!(equals(&fine.x, coarse.x.num(), coarse.x.den()));
    assert!(equals(&fine.y, coarse.y.num(), coarse.y.den()));
}

#[test]
fn window_without_extent_shows_no_board() {
    assert!(locate_cursor(PixelPos { x: 5, y: 5 }, &WindowSize { width: 0, height: 710 }).is_none());
    assert!(locate_cursor(PixelPos { x: 5, y: 5 }, &WindowSize { width: 710, height: 0 }).is_none());
    assert!(locate_cursor(PixelPos { x: 0, y: 0 }, &WindowSize { width: 0, height: 0 }).is_none());
}

#[test]
fn horizontal_edge_is_hit_in_its_band() {
    let edge = Edge::new(Point { x: 0, y: 0 }, Alignment::Horizontal);
    assert!(edge.is_hit_by(&coord(1, 2, 0, 1)));
    assert!(edge.is_hit_by(&coord(1, 2, 1, 20)));
    assert!(edge.is_hit_by(&coord(11, 100, 9, 100)));
    assert!(edge.is_hit_by(&coord(89, 100, -9, 100)));
}

#[test]
fn horizontal_hit_region_is_open() {
    let edge = Edge::new(Point { x: 2, y: 3 }, Alignment::Horizontal);
    assert!(edge.is_hit_by(&coord(25, 10, 3, 1)));
    assert!(!edge.is_hit_by(&coord(21, 10, 3, 1)));
    assert!(!edge.is_hit_by(&coord(29, 10, 3, 1)));
    assert!(!edge.is_hit_by(&coord(25, 10, 31, 10)));
    assert!(!edge.is_hit_by(&coord(25, 10, 29, 10)));
    assert!(edge.is_hit_by(&coord(2101, 1000, 3099, 1000)));
    assert!(edge.is_hit_by(&coord(2899, 1000, 2901, 1000)));
}

#[test]
fn vertical_edge_is_hit_in_its_band() {
    let edge = Edge::new(Point { x: 0, y: 0 }, Alignment::Vertical);
    assert!(edge.is_hit_by(&coord(0, 1, 1, 2)));
    assert!(edge.is_hit_by(&coord(-9, 100, 11, 100)));
    assert!(edge.is_hit_by(&coord(9, 100, 89, 100)));
    assert!(!edge.is_hit_by(&coord(1, 2, 0, 1)));
}

#[test]
fn vertical_hit_region_is_open() {
    let edge = Edge::new(Point { x: 6, y: 5 }, Alignment::Vertical);
    assert!(edge.is_hit_by(&coord(6, 1, 55, 10)));
    assert!(!edge.is_hit_by(&coord(59, 10, 55, 10)));
    assert!(!edge.is_hit_by(&coord(61, 10, 55, 10)));
    assert!(!edge.is_hit_by(&coord(6, 1, 51, 10)));
    assert!(!edge.is_hit_by(&coord(6, 1, 59, 10)));
}

#[test]
fn marks_do_not_move_the_hit_region() {
    let mut edge = Edge::new(Point { x: 1, y: 1 }, Alignment::Horizontal);
    edge.activated = true;
    edge.highlighted = true;
    assert!(edge.is_hit_by(&coord(3, 2, 1, 1)));
    assert!(!edge.is_hit_by(&coord(1, 1, 1, 1)));
}

#[test]
fn far_edges_are_tested_without_overflow() {
    let edge = Edge::new(Point { x: u32::MAX, y: u32::MAX }, Alignment::Horizontal);
    assert!(!edge.is_hit_by(&coord(i64::MAX, 1, i64::MIN, 1)));
    assert!(edge.is_hit_by(&coord(2 * (u32::MAX as i64) + 1, 2, u32::MAX as i64, 1)));
}

#[test]
fn hit_regions_of_the_board_never_overlap() {
    let game = spawn_world();
    // every position on a grid of step 1/20 from -0.5 to 6.5
    for xs in -10..=130 {
        for ys in -10..=130 {
            let p = coord(xs, 20, ys, 20);
            let hits = game.edges().iter().filter(|e| e.is_hit_by(&p)).count();
            assert!(hits <= 1);
        }
    }
}

#[test]
fn edges_that_meet_at_a_point_do_not_share_positions() {
    let horizontal = Edge::new(Point { x: 3, y: 3 }, Alignment::Horizontal);
    let vertical = Edge::new(Point { x: 3, y: 3 }, Alignment::Vertical);
    let before = Edge::new(Point { x: 2, y: 3 }, Alignment::Horizontal);
    let below = Edge::new(Point { x: 3, y: 2 }, Alignment::Vertical);
    for xs in 280..=320 {
        for ys in 280..=320 {
            let p = coord(xs, 100, ys, 100);
            let hits = [horizontal, vertical, before, below].iter().filter(|e| e.is_hit_by(&p)).count();
            assert!(hits <= 1);
        }
    }
    // the lattice point itself and its surroundings are dead
    assert!(!horizontal.is_hit_by(&coord(3, 1, 3, 1)));
    assert!(!vertical.is_hit_by(&coord(3, 1, 3, 1)));
    assert!(!horizontal.is_hit_by(&coord(305, 100, 305, 100)));
    assert!(!vertical.is_hit_by(&coord(305, 100, 305, 100)));
}

#[test]
fn hit_test_finds_the_edge_under_the_pointer() {
    let game = spawn_world();
    assert_eq!(game.hit_test(&coord(1, 2, 0, 1)), Some(0));
    assert_eq!(game.hit_test(&coord(11, 2, 6, 1)), Some(41));
    assert_eq!(game.hit_test(&coord(0, 1, 1, 2)), Some(42));
    assert_eq!(game.hit_test(&coord(6, 1, 11, 2)), Some(83));
    assert_eq!(game.hit_test(&coord(3, 1, 5, 2)), Some(42 + 7 * 2 + 3));
}

#[test]
fn hit_test_finds_nothing_off_the_edges() {
    let game = spawn_world();
    assert_eq!(game.hit_test(&coord(1, 20, 1, 20)), None);
    assert_eq!(game.hit_test(&coord(1, 2, 1, 2)), None);
    assert_eq!(game.hit_test(&coord(0, 1, 0, 1)), None);
    assert_eq!(game.hit_test(&coord(13, 2, 0, 1)), None);
    assert_eq!(game.hit_test(&coord(-1, 2, 3, 1)), None);
    assert_eq!(game.hit_test(&coord(1, 2, 13, 2)), None);
}

#[test]
fn an_edge_is_drawn_when_claimed_or_highlighted() {
    let mut edge = Edge::new(Point { x: 0, y: 0 }, Alignment::Vertical);
    assert!(!edge.is_visible());
    edge.highlighted = true;
    assert!(edge.is_visible());
    edge.highlighted = false;
    edge.activated = true;
    assert!(edge.is_visible());
}

#[test]
fn only_a_left_press_claims() {
    let event = |button, state| MouseButtonInput { button, state };
    assert!(event(MouseButton::Left, ElementState::Pressed).is_left_press());
    assert!(!event(MouseButton::Left, ElementState::Released).is_left_press());
    assert!(!event(MouseButton::Right, ElementState::Pressed).is_left_press());
    assert!(!event(MouseButton::Middle, ElementState::Pressed).is_left_press());
    assert!(!event(MouseButton::Other(0), ElementState::Pressed).is_left_press());
}

#[test]
fn board_position_truncates_to_a_lattice_point() {
    assert_eq!(Point::from(coord(1, 2, 7, 2)), Point { x: 0, y: 3 });
    assert_eq!(Point::from(coord(6, 1, 599, 100)), Point { x: 6, y: 5 });
    assert_eq!(Point::from(coord(-3, 2, -1, 100)), Point { x: 0, y: 0 });
    assert_eq!(Point::from(coord(0, 5, 99, 100)), Point { x: 0, y: 0 });
    assert_eq!(Point::from(coord(1, 1, 2, 1)), Point { x: 1, y: 2 });
}

#[test]
fn truncation_stays_within_the_lattice_coordinates() {
    let max = u32::MAX as i64;
    assert_eq!(Ratio::new(max, 1).unwrap().truncate(), u32::MAX);
    assert_eq!(Ratio::new(max + 1, 1).unwrap().truncate(), u32::MAX);
    assert_eq!(Ratio::new(i64::MAX, 1).unwrap().truncate(), u32::MAX);
    assert_eq!(Ratio::new(i64::MAX, i64::MAX).unwrap().truncate(), 1);
    assert_eq!(Ratio::new(2 * max - 1, 2).unwrap().truncate(), u32::MAX - 1);
    assert_eq!(Ratio::new(i64::MIN, 1).unwrap().truncate(), 0);
    assert_eq!(Ratio::new(i64::MIN, i64::MAX).unwrap().truncate(), 0);
}

#[test]
fn every_edge_is_hit_at_its_midpoint() {
    let game = spawn_world();
    for (i, edge) in game.edges().iter().enumerate() {
        let (x, y) = (edge.origin.x as i64, edge.origin.y as i64);
        let middle = match edge.alignment {
            Alignment::Horizontal => coord(2 * x + 1, 2, y, 1),
            Alignment::Vertical => coord(x, 1, 2 * y + 1, 2),
        };
        assert!(edge.is_hit_by(&middle));
        assert_eq!(game.hit_test(&middle), Some(i));
    }
}
