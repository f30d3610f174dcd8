use amv::dialog::{poll_dialog, PollEvent};
use amv::drag::{
    apply_drag, aspect_fix, drag_anchor, first_hit, highlighted_handles, hover_drag_mode,
    move_edges, press_edit_mode, DragMode, DragTargets, EditMode, HandleHits, Point, Rect,
};

const NONE: HandleHits = HandleHits {
    left_top: false,
    left_bottom: false,
    right_top: false,
    right_bottom: false,
    top: false,
    bottom: false,
    left: false,
    right: false,
};

fn rect(a: i32, b: i32, c: i32, d: i32) -> Rect<i32> {
    Rect { min: Point { x: a, y: b }, max: Point { x: c, y: d } }
}

fn same(r: Rect<i32>, s: Rect<i32>) -> bool {
    r.min.x == s.min.x && r.min.y == s.min.y && r.max.x == s.max.x && r.max.y == s.max.y
}

const MODES: [DragMode; 9] = [
    DragMode::Image,
    DragMode::CropTop,
    DragMode::CropBottom,
    DragMode::CropLeft,
    DragMode::CropRight,
    DragMode::CropLeftTop,
    DragMode::CropRightTop,
    DragMode::CropLeftBottom,
    DragMode::CropRightBottom,
];

#[test]
fn corners_win_over_edges() {
    let hits = HandleHits { left_top: true, top: true, left: true, ..NONE };
    assert_eq!(hover_drag_mode(hits), DragMode::CropLeftTop);
    let hits = HandleHits { right_bottom: true, bottom: true, ..NONE };
    assert_eq!(hover_drag_mode(hits), DragMode::CropRightBottom);
    let hits = HandleHits { top: true, left: true, ..NONE };
    assert_eq!(hover_drag_mode(hits), DragMode::CropTop);
    assert_eq!(hover_drag_mode(NONE), DragMode::Image);
}

#[test]
fn highlighted_handle_selects_its_mode() {
    for mode in MODES {
        assert_eq!(hover_drag_mode(highlighted_handles(mode)), mode);
    }
}

#[test]
fn shift_crops_only_a_selection() {
    assert_eq!(press_edit_mode(true, true), EditMode::Crop);
    assert_eq!(press_edit_mode(true, false), EditMode::Scale);
    assert_eq!(press_edit_mode(false, true), EditMode::Scale);
}

#[test]
fn anchors_are_the_grabbed_corners() {
    let r = rect(1, 2, 3, 4);
    let o = Point { x: 9, y: 9 };
    let p = drag_anchor(DragMode::CropLeftBottom, r, o);
    assert_eq!((p.x, p.y), (1, 4));
    let p = drag_anchor(DragMode::CropRightTop, r, o);
    assert_eq!((p.x, p.y), (3, 2));
    let p = drag_anchor(DragMode::CropBottom, r, o);
    assert_eq!((p.x, p.y), (3, 4));
    let p = drag_anchor(DragMode::Image, r, o);
    assert_eq!((p.x, p.y), (9, 9));
}

#[test]
fn edges_move_only_what_they_grab() {
    let r = rect(0, 0, 10, 10);
    let p = Point { x: 3, y: 7 };
    assert!(same(move_edges(r, DragMode::CropTop, p), rect(0, 7, 10, 10)));
    assert!(same(move_edges(r, DragMode::CropRight, p), rect(0, 0, 3, 10)));
    assert!(same(move_edges(r, DragMode::CropRightTop, p), rect(0, 7, 3, 10)));
    assert!(same(move_edges(r, DragMode::CropLeftBottom, p), rect(3, 0, 10, 7)));
    assert!(same(move_edges(r, DragMode::Image, p), r));
}

#[test]
fn corner_drag_equals_two_edge_drags() {
    let r = rect(0, 0, 10, 10);
    let p = Point { x: 4, y: 6 };
    let both = move_edges(move_edges(r, DragMode::CropLeft, p), DragMode::CropTop, p);
    assert!(same(move_edges(r, DragMode::CropLeftTop, p), both));
}

#[test]
fn press_without_movement_changes_nothing() {
    let r = rect(2, 3, 8, 9);
    let o = Point { x: 0, y: 0 };
    for mode in MODES {
        let anchor = drag_anchor(mode, r, o);
        assert!(same(move_edges(r, mode, anchor), r));
    }
}

#[test]
fn drag_targets_follow_mode_and_selection() {
    let t = DragTargets { placement: rect(0, 0, 10, 10), cropping: rect(0, 0, 1, 1) };
    let p = Point { x: 5, y: 5 };
    let moved = rect(20, 20, 30, 30);
    let r = apply_drag(t, DragMode::Image, EditMode::Crop, true, p, moved);
    assert!(same(r.placement, moved) && same(r.cropping, t.cropping));
    let r = apply_drag(t, DragMode::CropRight, EditMode::Scale, true, p, moved);
    assert!(same(r.placement, rect(0, 0, 5, 10)) && same(r.cropping, t.cropping));
    let r = apply_drag(t, DragMode::CropRight, EditMode::Crop, true, p, moved);
    assert!(same(r.placement, t.placement) && same(r.cropping, rect(0, 0, 5, 1)));
    let r = apply_drag(t, DragMode::CropRight, EditMode::Scale, false, p, moved);
    assert!(same(r.placement, t.placement) && same(r.cropping, rect(0, 0, 5, 1)));
}

#[test]
fn aspect_fix_only_for_locked_scaled_corners() {
    assert_eq!(aspect_fix(DragMode::CropRightTop, EditMode::Scale, true, true), Some((true, false)));
    assert_eq!(aspect_fix(DragMode::CropLeftBottom, EditMode::Scale, true, true), Some((false, true)));
    assert_eq!(aspect_fix(DragMode::CropTop, EditMode::Scale, true, true), None);
    assert_eq!(aspect_fix(DragMode::CropLeftTop, EditMode::Crop, true, true), None);
    assert_eq!(aspect_fix(DragMode::CropLeftTop, EditMode::Scale, true, false), None);
}

#[test]
fn first_hit_picks_lowest_index() {
    assert_eq!(first_hit(&vec![false, true, true]), Some(1));
    assert_eq!(first_hit(&vec![false, false]), None);
    assert_eq!(first_hit(&vec![]), None);
}

#[test]
fn dialog_poll_outcomes() {
    let (pending, out) = poll_dialog::<u8>(None);
    assert!(!pending && out.is_none());
    let (pending, out) = poll_dialog::<u8>(Some(PollEvent::Empty));
    assert!(pending && out.is_none());
    let (pending, out) = poll_dialog::<u8>(Some(PollEvent::Received(Ok(7))));
    assert!(!pending && out == Some(Ok(7)));
    let (pending, out) = poll_dialog::<u8>(Some(PollEvent::Disconnected));
    assert!(!pending);
    assert_eq!(out, Some(Err("SVG file dialog task disconnected before completing".to_string())));
}
