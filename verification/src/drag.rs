use vstd::prelude::*;

verus! {

/// What a pointer press grabs: the whole image, one edge or one corner.
#[derive(Debug, Clone, Copy, PartialEq, Eq, Structural)]
pub enum DragMode {
    Image,
    CropTop,
    CropBottom,
    CropLeft,
    CropRight,
    CropLeftTop,
    CropRightTop,
    CropLeftBottom,
    CropRightBottom,
}

/// Whether dragging an edge of a selected layer resizes it or crops it.
#[derive(Debug, Clone, Copy, PartialEq, Eq, Structural)]
pub enum EditMode {
    Scale,
    Crop,
}

/// A point of any coordinate type.
#[derive(Debug, Clone, Copy)]
pub struct Point<T> {
    pub x: T,
    pub y: T,
}

/// An axis-aligned rectangle given by its top-left and bottom-right corners.
#[derive(Debug, Clone, Copy)]
pub struct Rect<T> {
    pub min: Point<T>,
    pub max: Point<T>,
}

/// Which handles of the active rectangle the pointer is over.
#[derive(Debug, Clone, Copy)]
pub struct HandleHits {
    pub left_top: bool,
    pub left_bottom: bool,
    pub right_top: bool,
    pub right_bottom: bool,
    pub top: bool,
    pub bottom: bool,
    pub left: bool,
    pub right: bool,
}

/// Picks the drag mode for the handles under the pointer: corners win over
/// edges, and when nothing is hit the whole image is dragged.
pub fn hover_drag_mode(hits: HandleHits) -> (mode: DragMode)
    ensures
        mode == mode_for_hits(hits),
        hits.left_top ==> mode == DragMode::CropLeftTop,
        !hits.left_top && hits.left_bottom ==> mode == DragMode::CropLeftBottom,
        !hits.left_top && !hits.left_bottom && hits.right_top ==> mode == DragMode::CropRightTop,
        !hits.left_top && !hits.left_bottom && !hits.right_top && hits.right_bottom ==> mode
            == DragMode::CropRightBottom,
        !hits.left_top && !hits.left_bottom && !hits.right_top && !hits.right_bottom && hits.top
            ==> mode == DragMode::CropTop,
        !hits.left_top && !hits.left_bottom && !hits.right_top && !hits.right_bottom && !hits.top
            && hits.bottom ==> mode == DragMode::CropBottom,
        !hits.left_top && !hits.left_bottom && !hits.right_top && !hits.right_bottom && !hits.top
            && !hits.bottom && hits.left ==> mode == DragMode::CropLeft,
        !hits.left_top && !hits.left_bottom && !hits.right_top && !hits.right_bottom && !hits.top
            && !hits.bottom && !hits.left && hits.right ==> mode == DragMode::CropRight,
        !hits.left_top && !hits.left_bottom && !hits.right_top && !hits.right_bottom && !hits.top
            && !hits.bottom && !hits.left && !hits.right ==> mode == DragMode::Image,
{
    if hits.left_top {
        return DragMode::CropLeftTop;
    }
    if hits.left_bottom {
        return DragMode::CropLeftBottom;
    }
    if hits.right_top {
        return DragMode::CropRightTop;
    }
    if hits.right_bottom {
        return DragMode::CropRightBottom;
    }
    if hits.top {
        return DragMode::CropTop;
    }
    if hits.bottom {
        return DragMode::CropBottom;
    }
    if hits.left {
        return DragMode::CropLeft;
    }
    if hits.right {
        return DragMode::CropRight;
    }
    DragMode::Image
}

/// A press crops the selected layer when shift is held, otherwise it scales.
pub fn press_edit_mode(has_selection: bool, shift_down: bool) -> (mode: EditMode)
    ensures
        mode == (if has_selection && shift_down {
            EditMode::Crop
        } else {
            EditMode::Scale
        }),
{
    if has_selection && shift_down {
        EditMode::Crop
    } else {
        EditMode::Scale
    }
}

/// The corners of a rectangle named by the drag modes.
pub open spec fn left_top<T>(r: Rect<T>) -> Point<T> {
    r.min
}

pub open spec fn right_bottom<T>(r: Rect<T>) -> Point<T> {
    r.max
}

pub open spec fn left_bottom<T>(r: Rect<T>) -> Point<T> {
    Point { x: r.min.x, y: r.max.y }
}

pub open spec fn right_top<T>(r: Rect<T>) -> Point<T> {
    Point { x: r.max.x, y: r.min.y }
}

/// The point that a drag in `mode` follows: the image origin when the whole
/// image is dragged, otherwise the corner of `rect` that the handle belongs to.
pub open spec fn anchor_of<T>(mode: DragMode, rect: Rect<T>, image_origin: Point<T>) -> Point<T> {
    match mode {
        DragMode::Image => image_origin,
        DragMode::CropTop => left_top(rect),
        DragMode::CropBottom => right_bottom(rect),
        DragMode::CropLeft => left_top(rect),
        DragMode::CropRight => right_bottom(rect),
        DragMode::CropLeftTop => left_top(rect),
        DragMode::CropLeftBottom => left_bottom(rect),
        DragMode::CropRightTop => right_top(rect),
        DragMode::CropRightBottom => right_bottom(rect),
    }
}

/// Records, at the press, the point that the drag will move.
pub fn drag_anchor<T: Copy>(mode: DragMode, rect: Rect<T>, image_origin: Point<T>) -> (p: Point<
    T,
>)
    ensures
        p == anchor_of(mode, rect, image_origin),
{
    match mode {
        DragMode::Image => image_origin,
        DragMode::CropTop => rect.min,
        DragMode::CropBottom => rect.max,
        DragMode::CropLeft => rect.min,
        DragMode::CropRight => rect.max,
        DragMode::CropLeftTop => rect.min,
        DragMode::CropLeftBottom => Point { x: rect.min.x, y: rect.max.y },
        DragMode::CropRightTop => Point { x: rect.max.x, y: rect.min.y },
        DragMode::CropRightBottom => rect.max,
    }
}

/// `rect` with the edges grabbed by `mode` moved to `pos`; every other
/// coordinate is kept. Dragging the whole image leaves the edges alone.
pub open spec fn edges_moved<T>(rect: Rect<T>, mode: DragMode, pos: Point<T>) -> Rect<T> {
    match mode {
        DragMode::Image => rect,
        DragMode::CropTop => Rect { min: Point { x: rect.min.x, y: pos.y }, max: rect.max },
        DragMode::CropBottom => Rect { min: rect.min, max: Point { x: rect.max.x, y: pos.y } },
        DragMode::CropLeft => Rect { min: Point { x: pos.x, y: rect.min.y }, max: rect.max },
        DragMode::CropRight => Rect { min: rect.min, max: Point { x: pos.x, y: rect.max.y } },
        DragMode::CropLeftTop => Rect { min: pos, max: rect.max },
        DragMode::CropRightTop => Rect {
            min: Point { x: rect.min.x, y: pos.y },
            max: Point { x: pos.x, y: rect.max.y },
        },
        DragMode::CropLeftBottom => Rect {
            min: Point { x: pos.x, y: rect.min.y },
            max: Point { x: rect.max.x, y: pos.y },
        },
        DragMode::CropRightBottom => Rect { min: rect.min, max: pos },
    }
}

/// Moves the edges of `rect` that `mode` grabs to `pos`.
pub fn move_edges<T: Copy>(rect: Rect<T>, mode: DragMode, pos: Point<T>) -> (r: Rect<T>)
    ensures
        r == edges_moved(rect, mode, pos),
{
    match mode {
        DragMode::Image => rect,
        DragMode::CropTop => Rect { min: Point { x: rect.min.x, y: pos.y }, max: rect.max },
        DragMode::CropBottom => Rect { min: rect.min, max: Point { x: rect.max.x, y: pos.y } },
        DragMode::CropLeft => Rect { min: Point { x: pos.x, y: rect.min.y }, max: rect.max },
        DragMode::CropRight => Rect { min: rect.min, max: Point { x: pos.x, y: rect.max.y } },
        DragMode::CropLeftTop => Rect { min: pos, max: rect.max },
        DragMode::CropRightTop => Rect {
            min: Point { x: rect.min.x, y: pos.y },
            max: Point { x: pos.x, y: rect.max.y },
        },
        DragMode::CropLeftBottom => Rect {
            min: Point { x: pos.x, y: rect.min.y },
            max: Point { x: rect.max.x, y: pos.y },
        },
        DragMode::CropRightBottom => Rect { min: rect.min, max: pos },
    }
}

/// The two rectangles a drag can change: where a layer is placed and which
/// part of it is kept.
#[derive(Debug, Clone, Copy)]
pub struct DragTargets<T> {
    pub placement: Rect<T>,
    pub cropping: Rect<T>,
}

/// Whether a drag changes the placement rectangle (rather than the cropping):
/// dragging the whole image always moves it; edges of a selected layer in
/// scale mode resize it.
pub open spec fn drags_placement(mode: DragMode, edit: EditMode, selected: bool) -> bool {
    mode == DragMode::Image || (selected && edit == EditMode::Scale)
}

/// One step of a drag: the whole image follows to `moved`; an edge or corner
/// moves to `edge_pos` on the placement (scaling a selected layer) or on the
/// cropping (cropping a layer, or the background image).
pub fn apply_drag<T: Copy>(
    targets: DragTargets<T>,
    mode: DragMode,
    edit: EditMode,
    selected: bool,
    edge_pos: Point<T>,
    moved: Rect<T>,
) -> (r: DragTargets<T>)
    ensures
        mode == DragMode::Image ==> r == (DragTargets { placement: moved, ..targets }),
        mode != DragMode::Image && drags_placement(mode, edit, selected) ==> r == (DragTargets {
            placement: edges_moved(targets.placement, mode, edge_pos),
            ..targets
        }),
        !drags_placement(mode, edit, selected) ==> r == (DragTargets {
            cropping: edges_moved(targets.cropping, mode, edge_pos),
            ..targets
        }),
{
    if mode == DragMode::Image {
        DragTargets { placement: moved, cropping: targets.cropping }
    } else if selected && edit == EditMode::Scale {
        DragTargets {
            placement: move_edges(targets.placement, mode, edge_pos),
            cropping: targets.cropping,
        }
    } else {
        DragTargets {
            placement: targets.placement,
            cropping: move_edges(targets.cropping, mode, edge_pos),
        }
    }
}

/// After a corner drag that scales a layer with a locked aspect ratio, which
/// sides the ratio fix keeps in place: `(keep left edge, keep top edge)`.
pub open spec fn aspect_fix_of(mode: DragMode) -> Option<(bool, bool)> {
    match mode {
        DragMode::CropLeftTop => Some((false, false)),
        DragMode::CropRightTop => Some((true, false)),
        DragMode::CropLeftBottom => Some((false, true)),
        DragMode::CropRightBottom => Some((true, true)),
        _ => None,
    }
}

/// Whether and how the aspect ratio is restored after a drag step.
pub fn aspect_fix(mode: DragMode, edit: EditMode, selected: bool, lock_aspectratio: bool) -> (r:
    Option<(bool, bool)>)
    ensures
        r == (if selected && edit == EditMode::Scale && lock_aspectratio {
            aspect_fix_of(mode)
        } else {
            None
        }),
{
    if selected && edit == EditMode::Scale && lock_aspectratio {
        match mode {
            DragMode::CropLeftTop => Some((false, false)),
            DragMode::CropRightTop => Some((true, false)),
            DragMode::CropLeftBottom => Some((false, true)),
            DragMode::CropRightBottom => Some((true, true)),
            _ => None,
        }
    } else {
        None
    }
}

/// Which handle is drawn highlighted while dragging in `mode`: exactly the
/// one the mode grabs, none when the whole image is dragged.
pub open spec fn handles_of(mode: DragMode) -> HandleHits {
    HandleHits {
        left_top: mode == DragMode::CropLeftTop,
        left_bottom: mode == DragMode::CropLeftBottom,
        right_top: mode == DragMode::CropRightTop,
        right_bottom: mode == DragMode::CropRightBottom,
        top: mode == DragMode::CropTop,
        bottom: mode == DragMode::CropBottom,
        left: mode == DragMode::CropLeft,
        right: mode == DragMode::CropRight,
    }
}

/// The handles to draw highlighted for a drag mode.
pub fn highlighted_handles(mode: DragMode) -> (hits: HandleHits)
    ensures
        hits == handles_of(mode),
{
    HandleHits {
        left_top: mode == DragMode::CropLeftTop,
        left_bottom: mode == DragMode::CropLeftBottom,
        right_top: mode == DragMode::CropRightTop,
        right_bottom: mode == DragMode::CropRightBottom,
        top: mode == DragMode::CropTop,
        bottom: mode == DragMode::CropBottom,
        left: mode == DragMode::CropLeft,
        right: mode == DragMode::CropRight,
    }
}

/// The drag mode chosen for the handles under the pointer, as a function.
pub open spec fn mode_for_hits(hits: HandleHits) -> DragMode {
    if hits.left_top {
        DragMode::CropLeftTop
    } else if hits.left_bottom {
        DragMode::CropLeftBottom
    } else if hits.right_top {
        DragMode::CropRightTop
    } else if hits.right_bottom {
        DragMode::CropRightBottom
    } else if hits.top {
        DragMode::CropTop
    } else if hits.bottom {
        DragMode::CropBottom
    } else if hits.left {
        DragMode::CropLeft
    } else if hits.right {
        DragMode::CropRight
    } else {
        DragMode::Image
    }
}

/// The handle highlighted for a drag mode is the one that selects that mode
/// when the pointer is over it alone.
pub proof fn highlight_selects_its_mode(mode: DragMode)
    ensures
        mode_for_hits(handles_of(mode)) == mode,
{
}

/// The first layer whose handle area is under the pointer.
pub fn first_hit(hits: &Vec<bool>) -> (r: Option<usize>)
    ensures
        match r {
            Some(i) => i < hits@.len() && hits@[i as int] && forall|k: int|
                0 <= k < i ==> !hits@[k],
            None => forall|k: int| 0 <= k < hits@.len() ==> !hits@[k],
        },
{
    let mut i: usize = 0;
    while i < hits.len()
        invariant
            i <= hits@.len(),
            forall|k: int| 0 <= k < i ==> !hits@[k],
        decreases hits@.len() - i,
    {
        if hits[i] {
            return Some(i);
        }
        i = i + 1;
    }
    None
}

/// Dragging a corner moves the two edges that meet there.
pub proof fn corner_is_two_edges<T>(rect: Rect<T>, pos: Point<T>)
    ensures
        edges_moved(rect, DragMode::CropLeftTop, pos) == edges_moved(
            edges_moved(rect, DragMode::CropLeft, pos),
            DragMode::CropTop,
            pos,
        ),
        edges_moved(rect, DragMode::CropRightTop, pos) == edges_moved(
            edges_moved(rect, DragMode::CropRight, pos),
            DragMode::CropTop,
            pos,
        ),
        edges_moved(rect, DragMode::CropLeftBottom, pos) == edges_moved(
            edges_moved(rect, DragMode::CropLeft, pos),
            DragMode::CropBottom,
            pos,
        ),
        edges_moved(rect, DragMode::CropRightBottom, pos) == edges_moved(
            edges_moved(rect, DragMode::CropRight, pos),
            DragMode::CropBottom,
            pos,
        ),
{
}

/// Moving the grabbed edges to the point recorded at the press leaves the
/// rectangle as it was: a press without pointer movement changes nothing.
pub proof fn anchor_drag_is_identity<T>(mode: DragMode, rect: Rect<T>, image_origin: Point<T>)
    requires
        mode != DragMode::Image,
    ensures
        edges_moved(rect, mode, anchor_of(mode, rect, image_origin)) == rect,
{
}

/// Moving the same edges twice is the same as moving them once to the last
/// point: only the latest pointer position counts.
pub proof fn edges_moved_last_wins<T>(rect: Rect<T>, mode: DragMode, p: Point<T>, q: Point<T>)
    ensures
        edges_moved(edges_moved(rect, mode, p), mode, q) == edges_moved(rect, mode, q),
{
}


/// The aspect-ratio fix after a corner drag keeps in place the edges that meet
/// at the opposite, untouched corner: it keeps the left edge exactly when the
/// drag left the left edge where it was and moved the right one to the
/// pointer, and keeps the top edge exactly when the drag left the top edge and
/// moved the bottom one. Drags that do not move both an x edge and a y edge
/// (the whole image, a single edge) get no fix.
pub proof fn aspect_fix_keeps_opposite_corner<T>(mode: DragMode, rect: Rect<T>, pos: Point<T>)
    ensures
        match aspect_fix_of(mode) {
            Some((keep_left, keep_top)) => {
                let r = edges_moved(rect, mode, pos);
                &&& keep_left ==> r.min.x == rect.min.x && r.max.x == pos.x
                &&& !keep_left ==> r.min.x == pos.x && r.max.x == rect.max.x
                &&& keep_top ==> r.min.y == rect.min.y && r.max.y == pos.y
                &&& !keep_top ==> r.min.y == pos.y && r.max.y == rect.max.y
            },
            None => {
                let r = edges_moved(rect, mode, pos);
                ||| r.min.x == rect.min.x && r.max.x == rect.max.x
                ||| r.min.y == rect.min.y && r.max.y == rect.max.y
            },
        },
{
}

} // verus!
