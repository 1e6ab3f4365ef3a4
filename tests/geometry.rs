use midday_desktop::{
    center_on_monitor, locate_monitor, monitor_contains, place_overlay, Monitor, Placement, Point,
    Size, VERTICAL_OFFSET,
};

fn two_monitors() -> Vec<Monitor> {
    vec![
        Monitor { x: 0, y: 0, width: 1920, height: 1080 },
        Monitor { x: 1920, y: -200, width: 2560, height: 1440 },
    ]
}

#[test]
fn locate_picks_monitor_under_cursor() {
    let ms = two_monitors();
    assert_eq!(locate_monitor(Point { x: 10, y: 10 }, &ms), Some(ms[0]));
    assert_eq!(locate_monitor(Point { x: 2000, y: -100 }, &ms), Some(ms[1]));
}

#[test]
fn locate_uses_half_open_edges() {
    let ms = two_monitors();
    // The right edge of the first monitor is the left edge of the second.
    assert_eq!(locate_monitor(Point { x: 1920, y: 0 }, &ms), Some(ms[1]));
    assert_eq!(locate_monitor(Point { x: 1919, y: 1079 }, &ms), Some(ms[0]));
    assert!(monitor_contains(&ms[0], Point { x: 0, y: 0 }));
    assert!(!monitor_contains(&ms[0], Point { x: 0, y: 1080 }));
}

#[test]
fn locate_returns_first_of_overlapping_monitors() {
    let ms = vec![
        Monitor { x: 0, y: 0, width: 100, height: 100 },
        Monitor { x: 50, y: 50, width: 100, height: 100 },
    ];
    assert_eq!(locate_monitor(Point { x: 60, y: 60 }, &ms), Some(ms[0]));
}

#[test]
fn locate_finds_nothing_in_gaps_or_without_monitors() {
    let ms = two_monitors();
    assert_eq!(locate_monitor(Point { x: 100, y: 1200 }, &ms), None);
    assert_eq!(locate_monitor(Point { x: -1, y: 0 }, &ms), None);
    assert_eq!(locate_monitor(Point { x: 0, y: 0 }, &Vec::new()), None);
}

#[test]
fn center_formula_exact_values() {
    let m = Monitor { x: 0, y: 0, width: 1920, height: 1080 };
    assert_eq!(center_on_monitor(&m, Size { width: 720, height: 450 }), Point { x: 600, y: 330 });
    let m2 = Monitor { x: 1920, y: -200, width: 2560, height: 1440 };
    assert_eq!(center_on_monitor(&m2, Size { width: 721, height: 451 }), Point { x: 2840, y: 310 });
}

#[test]
fn center_lies_near_monitor_center_with_offset() {
    let m = Monitor { x: -1001, y: 7, width: 1367, height: 769 };
    let s = Size { width: 333, height: 201 };
    let p = center_on_monitor(&m, s);
    let dx = (2 * p.x + s.width as i64) - (2 * m.x as i64 + m.width as i64);
    let dy = (2 * (p.y - VERTICAL_OFFSET) + s.height as i64) - (2 * m.y as i64 + m.height as i64);
    assert!(dx.abs() <= 1);
    assert!(dy.abs() <= 1);
}

#[test]
fn center_handles_extreme_sizes() {
    let m = Monitor { x: i32::MIN, y: i32::MAX, width: u32::MAX, height: u32::MAX };
    let p = center_on_monitor(&m, Size { width: 0, height: u32::MAX });
    assert_eq!(p.x, i32::MIN as i64 + (u32::MAX / 2) as i64);
    assert_eq!(p.y, i32::MAX as i64 + 15);
}

#[test]
fn place_overlay_centres_on_monitor_under_cursor() {
    let ms = two_monitors();
    let placed = place_overlay(Some(Point { x: 2000, y: 0 }), &ms, Some(Size { width: 800, height: 500 }));
    assert_eq!(placed, Placement::At(Point { x: 2800, y: 285 }));
}

#[test]
fn place_overlay_uses_nominal_size_when_size_unknown() {
    let ms = two_monitors();
    let placed = place_overlay(Some(Point { x: 5, y: 5 }), &ms, None);
    assert_eq!(placed, Placement::At(Point { x: 600, y: 330 }));
}

#[test]
fn place_overlay_falls_back_to_platform_centre() {
    let ms = two_monitors();
    assert_eq!(place_overlay(None, &ms, None), Placement::PlatformCenter);
    assert_eq!(
        place_overlay(Some(Point { x: 0, y: 5000 }), &ms, Some(Size { width: 1, height: 1 })),
        Placement::PlatformCenter
    );
    assert_eq!(place_overlay(Some(Point { x: 0, y: 0 }), &Vec::new(), None), Placement::PlatformCenter);
}
