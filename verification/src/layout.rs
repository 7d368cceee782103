//! Screen geometry of the caret indicator, the tray hint, the tray menu and
//! the settings window.
use vstd::prelude::*;

use crate::arith::{div_i32, div_trunc, sat, sat_add, sat_mul, sat_sub};
use crate::config::IndicatorPosition;
use crate::editability::CaretAnchor;
use crate::win::{POINT, RECT};

verus! {

pub const CARET_INDICATOR_WIDTH: i32 = 15;

pub const CARET_INDICATOR_HEIGHT: i32 = 15;

pub const CARET_INDICATOR_FONT_HEIGHT: i32 = 11;

pub const CARET_INDICATOR_X_GAP: i32 = 4;

pub const CARET_INDICATOR_VERTICAL_GAP: i32 = 2;

pub const DEFAULT_DPI: u32 = 96;

pub const SHELL_OVERLAY_EDGE_GAP: i32 = 0;

/// `value` kept within `minimum..=maximum`; when the range is empty the
/// minimum wins.
pub open spec fn clamp_spec(value: i32, minimum: i32, maximum: i32) -> i32 {
    if maximum < minimum {
        minimum
    } else if value < minimum {
        minimum
    } else if value > maximum {
        maximum
    } else {
        value
    }
}

/// `value` kept within `minimum..=maximum`; when the range is empty the
/// minimum wins.
pub fn clamp_coordinate(value: i32, minimum: i32, maximum: i32) -> (r: i32)
    ensures
        r == clamp_spec(value, minimum, maximum),
{
    if maximum < minimum {
        minimum
    } else if value < minimum {
        minimum
    } else if value > maximum {
        maximum
    } else {
        value
    }
}

/// A clamped coordinate lies in the range whenever the range is not empty.
pub proof fn lemma_clamp_in_range(value: i32, minimum: i32, maximum: i32)
    requires
        minimum <= maximum,
    ensures
        minimum <= clamp_spec(value, minimum, maximum) <= maximum,
        minimum <= value <= maximum ==> clamp_spec(value, minimum, maximum) == value,
{
}

/// Whether a rectangle has positive width and height.
pub open spec fn rect_valid_spec(rect: RECT) -> bool {
    rect.right > rect.left && rect.bottom > rect.top
}

/// Whether a rectangle has positive width and height.
pub fn rect_is_valid(rect: RECT) -> (r: bool)
    ensures
        r == rect_valid_spec(rect),
{
    rect.right > rect.left && rect.bottom > rect.top
}

/// Whether the width and height of `rect` fit in `i32`, so that its centre
/// can be computed.
pub open spec fn rect_extent_fits(rect: RECT) -> bool {
    i32::MIN <= rect.right - rect.left <= i32::MAX && i32::MIN <= rect.bottom - rect.top
        <= i32::MAX
}

/// The centre of a rectangle, halves rounded toward the left and top edge.
pub open spec fn rect_center_spec(rect: RECT) -> POINT {
    POINT {
        x: (rect.left + div_trunc(rect.right - rect.left, 2)) as i32,
        y: (rect.top + div_trunc(rect.bottom - rect.top, 2)) as i32,
    }
}

/// The centre of a rectangle, halves rounded toward the left and top edge.
pub fn rect_center(rect: RECT) -> (p: POINT)
    requires
        rect_extent_fits(rect),
    ensures
        p == rect_center_spec(rect),
{
    let w = rect.right - rect.left;
    let h = rect.bottom - rect.top;
    let hw = div_i32(w, 2);
    let hh = div_i32(h, 2);
    proof {
        crate::arith::lemma_div_trunc_bounds(w as int, 2);
        crate::arith::lemma_div_trunc_bounds(h as int, 2);
    }
    POINT { x: rect.left + hw, y: rect.top + hh }
}

/// The one-pixel rectangle at `point`.
pub fn point_as_rect(point: POINT) -> (rect: RECT)
    ensures
        rect == (RECT {
            left: point.x,
            top: point.y,
            right: sat(point.x + 1),
            bottom: sat(point.y + 1),
        }),
{
    RECT { left: point.x, top: point.y, right: sat_add(point.x, 1), bottom: sat_add(point.y, 1) }
}

/// Whether two rectangles share an interior point.
pub open spec fn overlap_spec(a: RECT, b: RECT) -> bool {
    a.left < b.right && a.right > b.left && a.top < b.bottom && a.bottom > b.top
}

/// Whether two rectangles share an interior point.
pub fn rectangles_overlap(left: RECT, right: RECT) -> (r: bool)
    ensures
        r == overlap_spec(left, right),
{
    left.left < right.right && left.right > right.left && left.top < right.bottom && left.bottom
        > right.top
}

/// A metric of the indicator scaled from its base size to `extent`, rounded
/// to nearest.
pub open spec fn proportional_metric_spec(base: i32, extent: i32, base_extent: i32) -> i32 {
    div_trunc(
        sat(sat(base * extent) + div_trunc(base_extent as int, 2)) as int,
        if base_extent < 1 {
            1
        } else {
            base_extent as int
        },
    ) as i32
}

/// A metric of the indicator scaled from its base size to `extent`, rounded
/// to nearest.
pub fn proportional_indicator_metric(base: i32, extent: i32, base_extent: i32) -> (r: i32)
    ensures
        r == proportional_metric_spec(base, extent, base_extent),
{
    let divisor = if base_extent < 1 {
        1
    } else {
        base_extent
    };
    let half = div_i32(base_extent, 2);
    div_i32(sat_add(sat_mul(base, extent), half), divisor)
}

/// The DPI used for scaling: at least 1, read as `i32` as `dpi as i32` does.
pub open spec fn dpi_factor(dpi: u32) -> i32 {
    (if dpi < 1 {
        1u32
    } else {
        dpi
    }) as i32
}

/// `value`, given at 96 DPI, scaled to `dpi` and rounded to nearest.
pub open spec fn scale_for_dpi_spec(value: i32, dpi: u32) -> i32 {
    div_trunc(sat(sat(value * dpi_factor(dpi)) + 48) as int, 96) as i32
}

/// `value`, given at 96 DPI, scaled to `dpi` and rounded to nearest.
pub fn scale_for_dpi(value: i32, dpi: u32) -> (r: i32)
    ensures
        r == scale_for_dpi_spec(value, dpi),
{
    let factor: u32 = if dpi < 1 {
        1
    } else {
        dpi
    };
    let f = factor as i32;
    div_i32(sat_add(sat_mul(value, f), 48), 96)
}

} // verus!

verus! {

/// Where the indicator of size `width` x `height` stands for the caret
/// `anchor` inside `bounds`: beside the caret as `position` asks, moved to
/// the left of the caret when it would leave the right edge, otherwise
/// flipped below or above when it would leave the top or bottom edge, then
/// clamped into `bounds`.
pub open spec fn indicator_position_spec(
    anchor: CaretAnchor,
    width: i32,
    height: i32,
    bounds: RECT,
    position: IndicatorPosition,
) -> (i32, i32) {
    let max_x = sat(bounds.right - width);
    let max_y = sat(bounds.bottom - height);
    let x_gap = proportional_metric_spec(CARET_INDICATOR_X_GAP, width, CARET_INDICATOR_WIDTH);
    let v_gap = proportional_metric_spec(
        CARET_INDICATOR_VERTICAL_GAP,
        height,
        CARET_INDICATOR_HEIGHT,
    );
    let x0 = sat(anchor.x + x_gap);
    let y0 = match position {
        IndicatorPosition::Right => sat(anchor.bottom - height),
        IndicatorPosition::Above => sat(sat(anchor.top - v_gap) - height),
        IndicatorPosition::Below => sat(anchor.bottom + v_gap),
    };
    let (x, y) = if sat(x0 + width) > bounds.right {
        (sat(sat(anchor.x - x_gap) - width), y0)
    } else if position == IndicatorPosition::Above && y0 < bounds.top {
        (x0, sat(anchor.bottom + v_gap))
    } else if position == IndicatorPosition::Below && sat(y0 + height) > bounds.bottom {
        (x0, sat(sat(anchor.top - v_gap) - height))
    } else {
        (x0, y0)
    };
    (clamp_spec(x, bounds.left, max_x), clamp_spec(y, bounds.top, max_y))
}

/// Where the indicator stands for the caret `anchor` inside `bounds`.
pub fn caret_indicator_position_in_bounds(
    anchor: CaretAnchor,
    width: i32,
    height: i32,
    bounds: RECT,
    position: IndicatorPosition,
) -> (r: (i32, i32))
    ensures
        r == indicator_position_spec(anchor, width, height, bounds, position),
{
    let max_x = sat_sub(bounds.right, width);
    let max_y = sat_sub(bounds.bottom, height);
    let x_gap = proportional_indicator_metric(CARET_INDICATOR_X_GAP, width, CARET_INDICATOR_WIDTH);
    let vertical_gap = proportional_indicator_metric(
        CARET_INDICATOR_VERTICAL_GAP,
        height,
        CARET_INDICATOR_HEIGHT,
    );
    let mut x = sat_add(anchor.x, x_gap);
    let mut y = match position {
        IndicatorPosition::Right => sat_sub(anchor.bottom, height),
        IndicatorPosition::Above => sat_sub(sat_sub(anchor.top, vertical_gap), height),
        IndicatorPosition::Below => sat_add(anchor.bottom, vertical_gap),
    };
    if sat_add(x, width) > bounds.right {
        x = sat_sub(sat_sub(anchor.x, x_gap), width);
    } else {
        match position {
            IndicatorPosition::Above => {
                if y < bounds.top {
                    y = sat_add(anchor.bottom, vertical_gap);
                }
            },
            IndicatorPosition::Below => {
                if sat_add(y, height) > bounds.bottom {
                    y = sat_sub(sat_sub(anchor.top, vertical_gap), height);
                }
            },
            IndicatorPosition::Right => {},
        }
    }
    (clamp_coordinate(x, bounds.left, max_x), clamp_coordinate(y, bounds.top, max_y))
}

/// The indicator never covers the caret when there is room for it: with
/// the badge fitting to the right of the caret, placed below (or above) the
/// caret as asked when there is room there, and flipped to the other side
/// when there is not but the other side has room. Below the caret means the
/// badge starts at or under the caret's bottom; above means it ends at or
/// over the caret's top. (`x_gap` and `v_gap` are the gaps scaled to the
/// badge's size; coordinates are far inside `i32`.)
pub proof fn lemma_indicator_clears_caret(
    anchor: CaretAnchor,
    width: i32,
    height: i32,
    bounds: RECT,
    position: IndicatorPosition,
)
    requires
        0 < width <= 0x1000,
        0 < height <= 0x1000,
        -0x1000_0000 <= anchor.x <= 0x1000_0000,
        -0x1000_0000 <= anchor.top <= anchor.bottom <= 0x1000_0000,
        -0x1000_0000 <= bounds.left <= 0x1000_0000,
        -0x1000_0000 <= bounds.top <= 0x1000_0000,
        -0x1000_0000 <= bounds.right <= 0x1000_0000,
        -0x1000_0000 <= bounds.bottom <= 0x1000_0000,
        bounds.left <= bounds.right - width,
        bounds.top <= bounds.bottom - height,
        anchor.x + proportional_metric_spec(CARET_INDICATOR_X_GAP, width, CARET_INDICATOR_WIDTH)
            + width <= bounds.right,
    ensures
        ({
            let (x, y) = indicator_position_spec(anchor, width, height, bounds, position);
            let v_gap = proportional_metric_spec(
                CARET_INDICATOR_VERTICAL_GAP,
                height,
                CARET_INDICATOR_HEIGHT,
            );
            let room_below = anchor.bottom + v_gap + height <= bounds.bottom;
            let room_above = anchor.top - v_gap - height >= bounds.top;
            &&& position == IndicatorPosition::Below && room_below ==> y >= anchor.bottom
            &&& position == IndicatorPosition::Below && !room_below && room_above ==> y + height
                <= anchor.top
            &&& position == IndicatorPosition::Above && room_above ==> y + height <= anchor.top
            &&& position == IndicatorPosition::Above && !room_above && room_below ==> y
                >= anchor.bottom
        }),
{
    let v_gap = proportional_metric_spec(CARET_INDICATOR_VERTICAL_GAP, height, CARET_INDICATOR_HEIGHT);
    let x_gap = proportional_metric_spec(CARET_INDICATOR_X_GAP, width, CARET_INDICATOR_WIDTH);
    assert(0 <= v_gap <= height);
    assert(0 <= x_gap <= width);
}

/// The indicator always stands inside the screen bounds when it fits there.
pub proof fn lemma_indicator_inside_bounds(
    anchor: CaretAnchor,
    width: i32,
    height: i32,
    bounds: RECT,
    position: IndicatorPosition,
)
    requires
        bounds.left <= bounds.right - width <= i32::MAX,
        bounds.top <= bounds.bottom - height <= i32::MAX,
    ensures
        ({
            let (x, y) = indicator_position_spec(anchor, width, height, bounds, position);
            &&& bounds.left <= x && x + width <= bounds.right
            &&& bounds.top <= y && y + height <= bounds.bottom
        }),
{
}

/// The four places next to an occluding rectangle that the indicator may
/// move to: above it, left of it, right of it and below it.
pub open spec fn avoiding_candidates(
    natural: (i32, i32),
    width: i32,
    height: i32,
    occluder: RECT,
) -> Seq<(i32, i32)> {
    seq![
        (natural.0, sat(sat(occluder.top - SHELL_OVERLAY_EDGE_GAP) - height)),
        (sat(sat(occluder.left - SHELL_OVERLAY_EDGE_GAP) - width), natural.1),
        (sat(occluder.right + SHELL_OVERLAY_EDGE_GAP), natural.1),
        (natural.0, sat(occluder.bottom + SHELL_OVERLAY_EDGE_GAP)),
    ]
}

/// Whether the indicator at `c` stays inside `bounds`.
pub open spec fn fits_in_bounds(c: (i32, i32), width: i32, height: i32, bounds: RECT) -> bool {
    c.0 >= bounds.left && c.1 >= bounds.top && sat(c.0 + width) <= bounds.right && sat(
        c.1 + height,
    ) <= bounds.bottom
}

/// How far `c` is from `natural`, horizontally plus vertically, with the
/// differences saturated to `i32` first.
pub open spec fn move_distance(c: (i32, i32), natural: (i32, i32)) -> int {
    let dx = sat(c.0 - natural.0) as int;
    let dy = sat(c.1 - natural.1) as int;
    (if dx < 0 {
        -dx
    } else {
        dx
    }) + (if dy < 0 {
        -dy
    } else {
        dy
    })
}

/// The first of `cands[i..]` that fits in `bounds` and is nearest to
/// `natural`, given the best so far.
pub open spec fn nearest_fitting(
    cands: Seq<(i32, i32)>,
    i: int,
    best: Option<(i32, i32)>,
    natural: (i32, i32),
    width: i32,
    height: i32,
    bounds: RECT,
) -> Option<(i32, i32)>
    decreases cands.len() - i,
{
    if i < 0 || i >= cands.len() {
        best
    } else {
        let c = cands[i];
        let next = if fits_in_bounds(c, width, height, bounds) && (best is None || move_distance(
            c,
            natural,
        ) < move_distance(best->0, natural)) {
            Some(c)
        } else {
            best
        };
        nearest_fitting(cands, i + 1, next, natural, width, height, bounds)
    }
}

/// Whether the distance of every candidate that fits can be computed: its
/// saturated differences from `natural` are above `i32::MIN`, whose absolute
/// value does not fit in `i32`.
pub open spec fn distances_defined(
    cands: Seq<(i32, i32)>,
    natural: (i32, i32),
    width: i32,
    height: i32,
    bounds: RECT,
) -> bool {
    forall|i: int|
        0 <= i < cands.len() && fits_in_bounds(#[trigger] cands[i], width, height, bounds) ==> sat(
            cands[i].0 - natural.0,
        ) > i32::MIN && sat(cands[i].1 - natural.1) > i32::MIN
}

/// The badge rectangle of the indicator at `c`.
pub open spec fn badge_rect(c: (i32, i32), width: i32, height: i32) -> RECT {
    RECT { left: c.0, top: c.1, right: sat(c.0 + width), bottom: sat(c.1 + height) }
}

/// Where the indicator stands when `occluding_rect` (a shell overlay) may
/// cover its natural place: if it does, the nearest of the places just above,
/// left of, right of or below the overlay that stays inside `bounds`, the
/// first such place on ties; otherwise the natural place.
pub open spec fn avoiding_position_spec(
    anchor: CaretAnchor,
    width: i32,
    height: i32,
    bounds: RECT,
    position: IndicatorPosition,
    occluding_rect: Option<RECT>,
) -> (i32, i32) {
    let natural = indicator_position_spec(anchor, width, height, bounds, position);
    match occluding_rect {
        Some(occluder) => if rect_valid_spec(occluder) && overlap_spec(
            badge_rect(natural, width, height),
            occluder,
        ) {
            match nearest_fitting(
                avoiding_candidates(natural, width, height, occluder),
                0,
                None,
                natural,
                width,
                height,
                bounds,
            ) {
                Some(c) => c,
                None => natural,
            }
        } else {
            natural
        },
        None => natural,
    }
}

fn distance(c: (i32, i32), natural: (i32, i32)) -> (d: i64)
    requires
        sat(c.0 - natural.0) > i32::MIN,
        sat(c.1 - natural.1) > i32::MIN,
    ensures
        d == move_distance(c, natural),
{
    let dx = sat_sub(c.0, natural.0);
    let dy = sat_sub(c.1, natural.1);
    let ax: i64 = if dx < 0 {
        -(dx as i64)
    } else {
        dx as i64
    };
    let ay: i64 = if dy < 0 {
        -(dy as i64)
    } else {
        dy as i64
    };
    ax + ay
}

/// Where the indicator stands when a shell overlay may cover its natural
/// place.
pub fn caret_indicator_position_avoiding_rect_in_bounds(
    anchor: CaretAnchor,
    width: i32,
    height: i32,
    bounds: RECT,
    position: IndicatorPosition,
    occluding_rect: Option<RECT>,
) -> (r: (i32, i32))
    requires
        occluding_rect matches Some(o) ==> distances_defined(
            avoiding_candidates(
                indicator_position_spec(anchor, width, height, bounds, position),
                width,
                height,
                o,
            ),
            indicator_position_spec(anchor, width, height, bounds, position),
            width,
            height,
            bounds,
        ),
    ensures
        r == avoiding_position_spec(anchor, width, height, bounds, position, occluding_rect),
{
    let natural = caret_indicator_position_in_bounds(anchor, width, height, bounds, position);
    let occluder = match occluding_rect {
        Some(rect) => {
            if !rect_is_valid(rect) {
                return natural;
            }
            rect
        },
        None => {
            return natural;
        },
    };
    let badge = RECT {
        left: natural.0,
        top: natural.1,
        right: sat_add(natural.0, width),
        bottom: sat_add(natural.1, height),
    };
    if !rectangles_overlap(badge, occluder) {
        return natural;
    }
    let gap = SHELL_OVERLAY_EDGE_GAP;
    let candidates = [
        (natural.0, sat_sub(sat_sub(occluder.top, gap), height)),
        (sat_sub(sat_sub(occluder.left, gap), width), natural.1),
        (sat_add(occluder.right, gap), natural.1),
        (natural.0, sat_add(occluder.bottom, gap)),
    ];
    let ghost cands = avoiding_candidates(natural, width, height, occluder);
    assert(candidates@ == cands);
    let mut best: Option<(i32, i32)> = None;
    let mut best_distance: i64 = 0;
    let mut i: usize = 0;
    while i < 4
        invariant
            i <= 4,
            candidates@ == cands,
            cands.len() == 4,
            distances_defined(cands, natural, width, height, bounds),
            best matches Some(b) ==> best_distance == move_distance(b, natural),
            nearest_fitting(cands, 0, None, natural, width, height, bounds) == nearest_fitting(
                cands,
                i as int,
                best,
                natural,
                width,
                height,
                bounds,
            ),
        decreases 4 - i,
    {
        let c = candidates[i];
        let fits = c.0 >= bounds.left && c.1 >= bounds.top && sat_add(c.0, width) <= bounds.right
            && sat_add(c.1, height) <= bounds.bottom;
        if fits {
            assert(fits_in_bounds(cands[i as int], width, height, bounds));
            let d = distance(c, natural);
            match best {
                None => {
                    best = Some(c);
                    best_distance = d;
                },
                Some(_) => {
                    if d < best_distance {
                        best = Some(c);
                        best_distance = d;
                    }
                },
            }
        }
        i = i + 1;
    }
    match best {
        Some(c) => c,
        None => natural,
    }
}

} // verus!

verus! {

proof fn lemma_nearest_fitting_member(
    cands: Seq<(i32, i32)>,
    i: int,
    best: Option<(i32, i32)>,
    natural: (i32, i32),
    width: i32,
    height: i32,
    bounds: RECT,
)
    requires
        0 <= i <= cands.len(),
    ensures
        ({
            let r = nearest_fitting(cands, i, best, natural, width, height, bounds);
            r == best || (r is Some && fits_in_bounds(r->0, width, height, bounds) && exists|j: int|
                i <= j < cands.len() && cands[j] == r->0)
        }),
    decreases cands.len() - i,
{
    if i < cands.len() {
        let c = cands[i];
        let next = if fits_in_bounds(c, width, height, bounds) && (best is None || move_distance(
            c,
            natural,
        ) < move_distance(best->0, natural)) {
            Some(c)
        } else {
            best
        };
        lemma_nearest_fitting_member(cands, i + 1, next, natural, width, height, bounds);
        let r = nearest_fitting(cands, i, best, natural, width, height, bounds);
        if r != best && r != next {
            let j = choose|j: int| i + 1 <= j < cands.len() && cands[j] == r->0;
            assert(i <= j < cands.len() && cands[j] == r->0);
        } else if r == next && next != best {
            assert(cands[i] == r->0);
        }
    }
}

/// When the indicator moves away from a shell overlay that covers its
/// natural place, its new place stays inside the screen bounds and no longer
/// overlaps the overlay (for coordinates far enough from the ends of `i32`
/// that moving next to the overlay does not saturate).
pub proof fn lemma_avoiding_clears_overlay(
    anchor: CaretAnchor,
    width: i32,
    height: i32,
    bounds: RECT,
    position: IndicatorPosition,
    occluder: RECT,
)
    requires
        width > 0,
        height > 0,
        occluder.top - height >= i32::MIN,
        occluder.left - width >= i32::MIN,
        occluder.right + width <= i32::MAX,
        occluder.bottom + height <= i32::MAX,
    ensures
        ({
            let natural = indicator_position_spec(anchor, width, height, bounds, position);
            let r = avoiding_position_spec(
                anchor,
                width,
                height,
                bounds,
                position,
                Some(occluder),
            );
            r == natural || (fits_in_bounds(r, width, height, bounds) && !overlap_spec(
                badge_rect(r, width, height),
                occluder,
            ))
        }),
{
    let natural = indicator_position_spec(anchor, width, height, bounds, position);
    let cands = avoiding_candidates(natural, width, height, occluder);
    lemma_nearest_fitting_member(cands, 0, None, natural, width, height, bounds);
}

} // verus!

verus! {

pub const TRAY_HINT_DISPLAY_MS: u32 = 2_000;

pub const TRAY_HINT_MIN_WIDTH: i32 = 245;

pub const TRAY_HINT_MIN_HEIGHT: i32 = 28;

pub const TRAY_HINT_HORIZONTAL_PADDING: i32 = 32;

pub const TRAY_HINT_VERTICAL_PADDING: i32 = 12;

pub const TRAY_HINT_GAP: i32 = 4;

/// Whether the window position centred in `bounds` can be computed: the free
/// space, once the width or height is taken away, fits in `i32`.
pub open spec fn centering_defined(width: i32, height: i32, bounds: RECT) -> bool {
    i32::MIN <= sat(bounds.right - bounds.left) - width <= i32::MAX && i32::MIN <= sat(
        bounds.bottom - bounds.top,
    ) - height <= i32::MAX
}

/// The top-left corner of a `width` x `height` window centred in `bounds`.
pub open spec fn centered_spec(width: i32, height: i32, bounds: RECT) -> (i32, i32) {
    (
        sat(bounds.left + div_trunc(sat(bounds.right - bounds.left) - width, 2)),
        sat(bounds.top + div_trunc(sat(bounds.bottom - bounds.top) - height, 2)),
    )
}

/// The top-left corner of a `width` x `height` window centred in `bounds`.
pub fn centered_window_position(width: i32, height: i32, bounds: RECT) -> (r: (i32, i32))
    requires
        centering_defined(width, height, bounds),
    ensures
        r == centered_spec(width, height, bounds),
{
    let free_x = sat_sub(bounds.right, bounds.left) - width;
    let free_y = sat_sub(bounds.bottom, bounds.top) - height;
    (sat_add(bounds.left, div_i32(free_x, 2)), sat_add(bounds.top, div_i32(free_y, 2)))
}

/// A centred window leaves the same margin on both sides, up to one pixel
/// when the free space is odd.
pub proof fn lemma_centered_margins(width: i32, height: i32, bounds: RECT)
    requires
        width >= 0,
        height >= 0,
        width <= bounds.right - bounds.left <= i32::MAX,
        height <= bounds.bottom - bounds.top <= i32::MAX,
    ensures
        ({
            let (x, y) = centered_spec(width, height, bounds);
            let left = x - bounds.left;
            let right = bounds.right - (x + width);
            let top = y - bounds.top;
            let bottom = bounds.bottom - (y + height);
            &&& 0 <= left <= right <= left + 1
            &&& 0 <= top <= bottom <= top + 1
        }),
{
}

/// The top-left corner of the tray click hint of size `width` x `height`:
/// centred above the tray icon, below it when there is no room above, then
/// clamped into `bounds`.
pub open spec fn tray_hint_position_spec(icon: RECT, width: i32, height: i32, bounds: RECT) -> (
    i32,
    i32,
) {
    let max_x = sat(bounds.right - width);
    let max_y = sat(bounds.bottom - height);
    let icon_center = sat(icon.left + div_trunc(sat(icon.right - icon.left) as int, 2));
    let x = sat(icon_center - div_trunc(width as int, 2));
    let above = sat(sat(icon.top - TRAY_HINT_GAP) - height);
    let y = if above >= bounds.top {
        above
    } else {
        sat(icon.bottom + TRAY_HINT_GAP)
    };
    (clamp_spec(x, bounds.left, max_x), clamp_spec(y, bounds.top, max_y))
}

/// The top-left corner of the tray click hint.
pub fn tray_hint_position(icon: RECT, width: i32, height: i32, bounds: RECT) -> (r: (i32, i32))
    ensures
        r == tray_hint_position_spec(icon, width, height, bounds),
{
    let max_x = sat_sub(bounds.right, width);
    let max_y = sat_sub(bounds.bottom, height);
    let icon_center = sat_add(icon.left, div_i32(sat_sub(icon.right, icon.left), 2));
    let x = sat_sub(icon_center, div_i32(width, 2));
    let above = sat_sub(sat_sub(icon.top, TRAY_HINT_GAP), height);
    let y = if above >= bounds.top {
        above
    } else {
        sat_add(icon.bottom, TRAY_HINT_GAP)
    };
    (clamp_coordinate(x, bounds.left, max_x), clamp_coordinate(y, bounds.top, max_y))
}

/// The tray hint stays inside the bounds whenever it fits there.
pub proof fn lemma_tray_hint_inside_bounds(icon: RECT, width: i32, height: i32, bounds: RECT)
    requires
        bounds.left <= bounds.right - width <= i32::MAX,
        bounds.top <= bounds.bottom - height <= i32::MAX,
    ensures
        ({
            let (x, y) = tray_hint_position_spec(icon, width, height, bounds);
            &&& bounds.left <= x && x + width <= bounds.right
            &&& bounds.top <= y && y + height <= bounds.bottom
        }),
{
}

/// The size of the tray hint for the measured text rectangle: the text plus
/// padding, never below the minimum size; the minimum size when the text
/// could not be measured.
pub fn tray_hint_size_for_text(text_rect: Option<RECT>) -> (r: (i32, i32))
    ensures
        r == (match text_rect {
            None => (TRAY_HINT_MIN_WIDTH, TRAY_HINT_MIN_HEIGHT),
            Some(t) => {
                let w = sat(sat(t.right - t.left) + TRAY_HINT_HORIZONTAL_PADDING);
                let h = sat(sat(t.bottom - t.top) + TRAY_HINT_VERTICAL_PADDING);
                (
                    if w < TRAY_HINT_MIN_WIDTH {
                        TRAY_HINT_MIN_WIDTH
                    } else {
                        w
                    },
                    if h < TRAY_HINT_MIN_HEIGHT {
                        TRAY_HINT_MIN_HEIGHT
                    } else {
                        h
                    },
                )
            },
        }),
{
    match text_rect {
        None => (TRAY_HINT_MIN_WIDTH, TRAY_HINT_MIN_HEIGHT),
        Some(t) => {
            let w = sat_add(sat_sub(t.right, t.left), TRAY_HINT_HORIZONTAL_PADDING);
            let h = sat_add(sat_sub(t.bottom, t.top), TRAY_HINT_VERTICAL_PADDING);
            (
                if w < TRAY_HINT_MIN_WIDTH {
                    TRAY_HINT_MIN_WIDTH
                } else {
                    w
                },
                if h < TRAY_HINT_MIN_HEIGHT {
                    TRAY_HINT_MIN_HEIGHT
                } else {
                    h
                },
            )
        },
    }
}

} // verus!

verus! {

/// An edge of the screen.
#[derive(Clone, Copy, Debug, PartialEq, Eq, Structural)]
pub enum ScreenEdge {
    Left,
    Top,
    Right,
    Bottom,
}

/// Where the tray menu opens: its anchor point, the `TrackPopupMenuEx`
/// alignment flags, and the area it must not cover.
#[derive(Clone, Copy, Debug, PartialEq, Eq, Structural)]
pub struct TrayMenuPlacement {
    pub anchor: POINT,
    pub flags: u32,
    pub exclude: Option<RECT>,
}

pub open spec fn abs_int(v: int) -> int {
    if v < 0 {
        -v
    } else {
        v
    }
}

/// The edge of `monitor` nearest to `point`; the bottom edge wins ties, then
/// the top, the left and the right edge.
pub open spec fn nearest_edge_spec(point: POINT, monitor: RECT) -> ScreenEdge {
    let left = abs_int(point.x - monitor.left);
    let top = abs_int(point.y - monitor.top);
    let right = abs_int(monitor.right - point.x);
    let bottom = abs_int(monitor.bottom - point.y);
    let b1 = if top < bottom {
        (ScreenEdge::Top, top)
    } else {
        (ScreenEdge::Bottom, bottom)
    };
    let b2 = if left < b1.1 {
        (ScreenEdge::Left, left)
    } else {
        b1
    };
    let b3 = if right < b2.1 {
        (ScreenEdge::Right, right)
    } else {
        b2
    };
    b3.0
}

fn abs_i64(v: i64) -> (r: i64)
    requires
        v > i64::MIN,
    ensures
        r == abs_int(v as int),
{
    if v < 0 {
        -v
    } else {
        v
    }
}

/// The edge of `monitor` nearest to `point`.
pub fn nearest_screen_edge(point: POINT, monitor: RECT) -> (edge: ScreenEdge)
    ensures
        edge == nearest_edge_spec(point, monitor),
{
    let left = abs_i64(point.x as i64 - monitor.left as i64);
    let top = abs_i64(point.y as i64 - monitor.top as i64);
    let right = abs_i64(monitor.right as i64 - point.x as i64);
    let bottom = abs_i64(monitor.bottom as i64 - point.y as i64);
    let mut best = (ScreenEdge::Bottom, bottom);
    if top < best.1 {
        best = (ScreenEdge::Top, top);
    }
    if left < best.1 {
        best = (ScreenEdge::Left, left);
    }
    if right < best.1 {
        best = (ScreenEdge::Right, right);
    }
    best.0
}

/// The screen edge that holds the taskbar near `reference`: the edge where
/// the work area leaves room for a taskbar that holds the point, else the
/// nearest edge of the monitor.
pub open spec fn tray_edge_spec(reference: POINT, monitor: RECT, work: RECT) -> ScreenEdge {
    if work.bottom < monitor.bottom && reference.y >= work.bottom {
        ScreenEdge::Bottom
    } else if work.top > monitor.top && reference.y < work.top {
        ScreenEdge::Top
    } else if work.left > monitor.left && reference.x < work.left {
        ScreenEdge::Left
    } else if work.right < monitor.right && reference.x >= work.right {
        ScreenEdge::Right
    } else {
        nearest_edge_spec(reference, monitor)
    }
}

/// The screen edge that holds the taskbar near `reference`.
pub fn tray_screen_edge(reference: POINT, monitor: RECT, work: RECT) -> (edge: ScreenEdge)
    ensures
        edge == tray_edge_spec(reference, monitor, work),
{
    if work.bottom < monitor.bottom && reference.y >= work.bottom {
        ScreenEdge::Bottom
    } else if work.top > monitor.top && reference.y < work.top {
        ScreenEdge::Top
    } else if work.left > monitor.left && reference.x < work.left {
        ScreenEdge::Left
    } else if work.right < monitor.right && reference.x >= work.right {
        ScreenEdge::Right
    } else {
        nearest_screen_edge(reference, monitor)
    }
}

/// The area the tray menu must leave uncovered: the taskbar strip along
/// `edge` when the icon's centre lies in it, else the icon itself.
pub open spec fn exclusion_spec(edge: ScreenEdge, icon: RECT, monitor: RECT, work: RECT) -> RECT {
    let center = rect_center_spec(icon);
    match edge {
        ScreenEdge::Bottom => if work.bottom < monitor.bottom && center.y >= work.bottom {
            RECT {
                left: monitor.left,
                top: work.bottom,
                right: monitor.right,
                bottom: monitor.bottom,
            }
        } else {
            icon
        },
        ScreenEdge::Top => if work.top > monitor.top && center.y < work.top {
            RECT { left: monitor.left, top: monitor.top, right: monitor.right, bottom: work.top }
        } else {
            icon
        },
        ScreenEdge::Left => if work.left > monitor.left && center.x < work.left {
            RECT { left: monitor.left, top: monitor.top, right: work.left, bottom: monitor.bottom }
        } else {
            icon
        },
        ScreenEdge::Right => if work.right < monitor.right && center.x >= work.right {
            RECT {
                left: work.right,
                top: monitor.top,
                right: monitor.right,
                bottom: monitor.bottom,
            }
        } else {
            icon
        },
    }
}

/// The area the tray menu must leave uncovered.
pub fn taskbar_or_icon_exclusion(edge: ScreenEdge, icon: RECT, monitor: RECT, work: RECT) -> (r:
    RECT)
    requires
        rect_extent_fits(icon),
    ensures
        r == exclusion_spec(edge, icon, monitor, work),
{
    let center = rect_center(icon);
    match edge {
        ScreenEdge::Bottom => {
            if work.bottom < monitor.bottom && center.y >= work.bottom {
                RECT {
                    left: monitor.left,
                    top: work.bottom,
                    right: monitor.right,
                    bottom: monitor.bottom,
                }
            } else {
                icon
            }
        },
        ScreenEdge::Top => {
            if work.top > monitor.top && center.y < work.top {
                RECT {
                    left: monitor.left,
                    top: monitor.top,
                    right: monitor.right,
                    bottom: work.top,
                }
            } else {
                icon
            }
        },
        ScreenEdge::Left => {
            if work.left > monitor.left && center.x < work.left {
                RECT {
                    left: monitor.left,
                    top: monitor.top,
                    right: work.left,
                    bottom: monitor.bottom,
                }
            } else {
                icon
            }
        },
        ScreenEdge::Right => {
            if work.right < monitor.right && center.x >= work.right {
                RECT {
                    left: work.right,
                    top: monitor.top,
                    right: monitor.right,
                    bottom: monitor.bottom,
                }
            } else {
                icon
            }
        },
    }
}

/// The `TrackPopupMenuEx` alignment flags: right or left alignment and bottom
/// or top alignment.
pub open spec fn menu_flags(align_right: bool, align_bottom: bool) -> u32 {
    ((if align_right {
        crate::win::TPM_RIGHTALIGN
    } else {
        crate::win::TPM_LEFTALIGN
    }) + (if align_bottom {
        crate::win::TPM_BOTTOMALIGN
    } else {
        crate::win::TPM_TOPALIGN
    })) as u32
}

fn menu_flags_exec(align_right: bool, align_bottom: bool) -> (f: u32)
    ensures
        f == menu_flags(align_right, align_bottom),
{
    let h = if align_right {
        crate::win::TPM_RIGHTALIGN
    } else {
        crate::win::TPM_LEFTALIGN
    };
    let v = if align_bottom {
        crate::win::TPM_BOTTOMALIGN
    } else {
        crate::win::TPM_TOPALIGN
    };
    h + v
}

/// The work area the tray menu uses: the given one when it is a valid
/// rectangle, else the whole monitor.
pub open spec fn menu_work_area(monitor: RECT, work: RECT) -> RECT {
    if rect_valid_spec(work) {
        work
    } else {
        monitor
    }
}

/// Whether the tray menu placement can be computed: the icon's and the work
/// area's width and height fit in `i32`.
pub open spec fn tray_menu_defined(icon_rect: Option<RECT>, monitor: RECT, work: RECT) -> bool {
    &&& icon_rect matches Some(icon) ==> rect_extent_fits(icon)
    &&& rect_extent_fits(menu_work_area(monitor, work))
}

/// Where the tray menu opens. Along a bottom or top taskbar the menu opens
/// above or below the icon (or the fallback point), aligned to the icon's
/// right edge on the right half of the work area and to its left edge
/// otherwise; along a side taskbar it opens beside the icon, aligned to its
/// bottom on the lower half and to its top otherwise. The anchor is kept in
/// the work area, and the taskbar strip (or the icon) is excluded.
pub open spec fn tray_menu_spec(
    icon_rect: Option<RECT>,
    fallback: POINT,
    monitor: RECT,
    work0: RECT,
) -> TrayMenuPlacement {
    let work = menu_work_area(monitor, work0);
    let reference = match icon_rect {
        Some(icon) => rect_center_spec(icon),
        None => fallback,
    };
    let edge = tray_edge_spec(reference, monitor, work);
    let middle_x = work.left + div_trunc(work.right - work.left, 2);
    let middle_y = work.top + div_trunc(work.bottom - work.top, 2);
    let align_right = reference.x >= middle_x;
    let align_bottom = reference.y >= middle_y;
    let horizontal_x = match icon_rect {
        Some(icon) => clamp_spec(
            if align_right {
                icon.right
            } else {
                icon.left
            },
            work.left,
            work.right,
        ),
        None => clamp_spec(reference.x, work.left, work.right),
    };
    let vertical_y = match icon_rect {
        Some(icon) => clamp_spec(
            if align_bottom {
                icon.bottom
            } else {
                icon.top
            },
            work.top,
            work.bottom,
        ),
        None => clamp_spec(reference.y, work.top, work.bottom),
    };
    let (anchor, flags) = match edge {
        ScreenEdge::Bottom => {
            let y = match icon_rect {
                Some(icon) => if icon.top < work.bottom {
                    icon.top
                } else {
                    work.bottom
                },
                None => work.bottom,
            };
            (
                POINT { x: horizontal_x, y: clamp_spec(y, work.top, work.bottom) },
                menu_flags(align_right, true),
            )
        },
        ScreenEdge::Top => {
            let y = match icon_rect {
                Some(icon) => if icon.bottom > work.top {
                    icon.bottom
                } else {
                    work.top
                },
                None => work.top,
            };
            (
                POINT { x: horizontal_x, y: clamp_spec(y, work.top, work.bottom) },
                menu_flags(align_right, false),
            )
        },
        ScreenEdge::Right => {
            let x = match icon_rect {
                Some(icon) => if icon.left < work.right {
                    icon.left
                } else {
                    work.right
                },
                None => work.right,
            };
            (
                POINT { x: clamp_spec(x, work.left, work.right), y: vertical_y },
                menu_flags(true, align_bottom),
            )
        },
        ScreenEdge::Left => {
            let x = match icon_rect {
                Some(icon) => if icon.right > work.left {
                    icon.right
                } else {
                    work.left
                },
                None => work.left,
            };
            (
                POINT { x: clamp_spec(x, work.left, work.right), y: vertical_y },
                menu_flags(false, align_bottom),
            )
        },
    };
    TrayMenuPlacement {
        anchor,
        flags,
        exclude: match icon_rect {
            Some(icon) => Some(exclusion_spec(edge, icon, monitor, work)),
            None => None,
        },
    }
}

/// Where the tray menu opens.
pub fn calculate_tray_menu_placement(
    icon_rect: Option<RECT>,
    fallback: POINT,
    monitor: RECT,
    work: RECT,
) -> (p: TrayMenuPlacement)
    requires
        tray_menu_defined(icon_rect, monitor, work),
    ensures
        p == tray_menu_spec(icon_rect, fallback, monitor, work),
{
    let work = if rect_is_valid(work) {
        work
    } else {
        monitor
    };
    let reference = match icon_rect {
        Some(icon) => rect_center(icon),
        None => fallback,
    };
    let edge = tray_screen_edge(reference, monitor, work);
    let middle_x = work.left + div_i32(work.right - work.left, 2);
    let middle_y = work.top + div_i32(work.bottom - work.top, 2);
    proof {
        crate::arith::lemma_div_trunc_bounds(work.right - work.left, 2);
        crate::arith::lemma_div_trunc_bounds(work.bottom - work.top, 2);
    }
    let (anchor, flags) = match edge {
        ScreenEdge::Bottom => {
            let align_right = reference.x >= middle_x;
            let x = match icon_rect {
                Some(icon) => {
                    if align_right {
                        clamp_coordinate(icon.right, work.left, work.right)
                    } else {
                        clamp_coordinate(icon.left, work.left, work.right)
                    }
                },
                None => clamp_coordinate(reference.x, work.left, work.right),
            };
            let y = match icon_rect {
                Some(icon) => {
                    if icon.top < work.bottom {
                        icon.top
                    } else {
                        work.bottom
                    }
                },
                None => work.bottom,
            };
            (
                POINT { x, y: clamp_coordinate(y, work.top, work.bottom) },
                menu_flags_exec(align_right, true),
            )
        },
        ScreenEdge::Top => {
            let align_right = reference.x >= middle_x;
            let x = match icon_rect {
                Some(icon) => {
                    if align_right {
                        clamp_coordinate(icon.right, work.left, work.right)
                    } else {
                        clamp_coordinate(icon.left, work.left, work.right)
                    }
                },
                None => clamp_coordinate(reference.x, work.left, work.right),
            };
            let y = match icon_rect {
                Some(icon) => {
                    if icon.bottom > work.top {
                        icon.bottom
                    } else {
                        work.top
                    }
                },
                None => work.top,
            };
            (
                POINT { x, y: clamp_coordinate(y, work.top, work.bottom) },
                menu_flags_exec(align_right, false),
            )
        },
        ScreenEdge::Right => {
            let align_bottom = reference.y >= middle_y;
            let x = match icon_rect {
                Some(icon) => {
                    if icon.left < work.right {
                        icon.left
                    } else {
                        work.right
                    }
                },
                None => work.right,
            };
            let y = match icon_rect {
                Some(icon) => {
                    if align_bottom {
                        clamp_coordinate(icon.bottom, work.top, work.bottom)
                    } else {
                        clamp_coordinate(icon.top, work.top, work.bottom)
                    }
                },
                None => clamp_coordinate(reference.y, work.top, work.bottom),
            };
            (
                POINT { x: clamp_coordinate(x, work.left, work.right), y },
                menu_flags_exec(true, align_bottom),
            )
        },
        ScreenEdge::Left => {
            let align_bottom = reference.y >= middle_y;
            let x = match icon_rect {
                Some(icon) => {
                    if icon.right > work.left {
                        icon.right
                    } else {
                        work.left
                    }
                },
                None => work.left,
            };
            let y = match icon_rect {
                Some(icon) => {
                    if align_bottom {
                        clamp_coordinate(icon.bottom, work.top, work.bottom)
                    } else {
                        clamp_coordinate(icon.top, work.top, work.bottom)
                    }
                },
                None => clamp_coordinate(reference.y, work.top, work.bottom),
            };
            (
                POINT { x: clamp_coordinate(x, work.left, work.right), y },
                menu_flags_exec(false, align_bottom),
            )
        },
    };
    let exclude = match icon_rect {
        Some(icon) => Some(taskbar_or_icon_exclusion(edge, icon, monitor, work)),
        None => None,
    };
    TrayMenuPlacement { anchor, flags, exclude }
}

/// The tray menu's anchor always lies in the work area it uses (the given
/// work area, or the monitor when that is not a valid rectangle), and an
/// area is excluded exactly when the icon's rectangle is known.
pub proof fn lemma_tray_menu_anchor_in_work_area(
    icon_rect: Option<RECT>,
    fallback: POINT,
    monitor: RECT,
    work: RECT,
)
    requires
        rect_valid_spec(work) || rect_valid_spec(monitor),
    ensures
        ({
            let p = tray_menu_spec(icon_rect, fallback, monitor, work);
            let w = menu_work_area(monitor, work);
            &&& w.left <= p.anchor.x <= w.right
            &&& w.top <= p.anchor.y <= w.bottom
            &&& (p.exclude is Some <==> icon_rect is Some)
        }),
{
}

} // verus!

verus! {

pub const SETTINGS_CLIENT_WIDTH: i32 = 414;

pub const SETTINGS_CLIENT_HEIGHT: i32 = 402;

pub const SETTINGS_HORIZONTAL_MARGIN: i32 = 18;

pub const SETTINGS_TOP_MARGIN: i32 = 14;

pub const SETTINGS_BOTTOM_MARGIN: i32 = 18;

pub const SETTINGS_BUTTON_WIDTH: i32 = 78;

pub const SETTINGS_BUTTON_HEIGHT: i32 = 28;

pub const SETTINGS_BUTTON_GAP: i32 = 10;

pub const SETTINGS_GROUP_BUTTON_GAP: i32 = 14;

pub const SETTINGS_CONTENT_INSET: i32 = 16;

pub const SETTINGS_CONTENT_VERTICAL_MARGIN: i32 = 30;

pub const SETTINGS_GROUP_CAPTION_VISUAL_INSET: i32 = 9;

pub const SETTINGS_POSITION_CONTROL_GAP: i32 = 8;

pub const SETTINGS_POSITION_COMBO_WIDTH: i32 = 176;

pub const SETTINGS_COLOR_EDIT_WIDTH: i32 = 176;

pub const SETTINGS_ROW_HEIGHT: i32 = 22;

pub const SETTINGS_ROW_STEP: i32 = 29;

/// The frame of the settings window: the group box, the content column
/// inside it, and the OK and Cancel buttons.
#[derive(Clone, Copy, Debug, PartialEq, Eq, Structural)]
pub struct SettingsLayout {
    pub group: RECT,
    pub content_left: i32,
    pub content_width: i32,
    pub ok_button: RECT,
    pub cancel_button: RECT,
}

/// One labelled field of the settings window: its label and its control.
#[derive(Clone, Copy, Debug, PartialEq, Eq, Structural)]
pub struct SettingsFieldLayout {
    pub label: RECT,
    pub control: RECT,
}

pub open spec fn max_i32(a: i32, b: i32) -> i32 {
    if a < b {
        b
    } else {
        a
    }
}

pub open spec fn min_i32(a: i32, b: i32) -> i32 {
    if a < b {
        a
    } else {
        b
    }
}

/// Whether the settings frame can be computed for this client size: taking
/// the margins off it does not overflow.
pub open spec fn settings_layout_defined(client_width: i32, client_height: i32) -> bool {
    client_width - SETTINGS_HORIZONTAL_MARGIN >= i32::MIN && client_height - SETTINGS_BOTTOM_MARGIN
        >= i32::MIN
}

/// The frame of the settings window for a client area of the given size:
/// buttons in the bottom-right corner inside the margins, the group box
/// above them, the content inset inside the group box.
pub open spec fn settings_layout_spec(client_width: i32, client_height: i32) -> SettingsLayout {
    let button_bottom = max_i32(
        (client_height - SETTINGS_BOTTOM_MARGIN) as i32,
        SETTINGS_BUTTON_HEIGHT,
    );
    let button_top = button_bottom - SETTINGS_BUTTON_HEIGHT;
    let cancel_right = max_i32(
        (client_width - SETTINGS_HORIZONTAL_MARGIN) as i32,
        SETTINGS_BUTTON_WIDTH,
    );
    let cancel_left = cancel_right - SETTINGS_BUTTON_WIDTH;
    let ok_right = cancel_left - SETTINGS_BUTTON_GAP;
    let ok_left = ok_right - SETTINGS_BUTTON_WIDTH;
    let group_right = max_i32(
        (client_width - SETTINGS_HORIZONTAL_MARGIN) as i32,
        (SETTINGS_HORIZONTAL_MARGIN + 1) as i32,
    );
    let group_bottom = max_i32(
        (button_top - SETTINGS_GROUP_BUTTON_GAP) as i32,
        (SETTINGS_TOP_MARGIN + 1) as i32,
    );
    SettingsLayout {
        group: RECT {
            left: SETTINGS_HORIZONTAL_MARGIN,
            top: SETTINGS_TOP_MARGIN,
            right: group_right,
            bottom: group_bottom,
        },
        content_left: (SETTINGS_HORIZONTAL_MARGIN + SETTINGS_CONTENT_INSET) as i32,
        content_width: max_i32(
            (group_right - SETTINGS_HORIZONTAL_MARGIN - SETTINGS_CONTENT_INSET * 2) as i32,
            1,
        ),
        ok_button: RECT {
            left: ok_left as i32,
            top: button_top as i32,
            right: ok_right as i32,
            bottom: button_bottom,
        },
        cancel_button: RECT {
            left: cancel_left as i32,
            top: button_top as i32,
            right: cancel_right,
            bottom: button_bottom,
        },
    }
}

fn max_i32_exec(a: i32, b: i32) -> (r: i32)
    ensures
        r == max_i32(a, b),
{
    if a < b {
        b
    } else {
        a
    }
}

/// The frame of the settings window for a client area of the given size.
pub fn settings_layout(client_width: i32, client_height: i32) -> (layout: SettingsLayout)
    requires
        settings_layout_defined(client_width, client_height),
    ensures
        layout == settings_layout_spec(client_width, client_height),
{
    let button_bottom = max_i32_exec(
        client_height - SETTINGS_BOTTOM_MARGIN,
        SETTINGS_BUTTON_HEIGHT,
    );
    let button_top = button_bottom - SETTINGS_BUTTON_HEIGHT;
    let cancel_right = max_i32_exec(
        client_width - SETTINGS_HORIZONTAL_MARGIN,
        SETTINGS_BUTTON_WIDTH,
    );
    let cancel_left = cancel_right - SETTINGS_BUTTON_WIDTH;
    let ok_right = cancel_left - SETTINGS_BUTTON_GAP;
    let ok_left = ok_right - SETTINGS_BUTTON_WIDTH;
    let group_right = max_i32_exec(
        client_width - SETTINGS_HORIZONTAL_MARGIN,
        SETTINGS_HORIZONTAL_MARGIN + 1,
    );
    let group_bottom = max_i32_exec(
        button_top - SETTINGS_GROUP_BUTTON_GAP,
        SETTINGS_TOP_MARGIN + 1,
    );
    let content_left = SETTINGS_HORIZONTAL_MARGIN + SETTINGS_CONTENT_INSET;
    let content_width = max_i32_exec(
        group_right - SETTINGS_HORIZONTAL_MARGIN - SETTINGS_CONTENT_INSET * 2,
        1,
    );
    SettingsLayout {
        group: RECT {
            left: SETTINGS_HORIZONTAL_MARGIN,
            top: SETTINGS_TOP_MARGIN,
            right: group_right,
            bottom: group_bottom,
        },
        content_left,
        content_width,
        ok_button: RECT { left: ok_left, top: button_top, right: ok_right, bottom: button_bottom },
        cancel_button: RECT {
            left: cancel_left,
            top: button_top,
            right: cancel_right,
            bottom: button_bottom,
        },
    }
}

/// The label and control of a field at row `y`: the control right-aligned
/// in the content column, at most `control_width` wide and leaving room for
/// the gap, the label filling the rest of the row.
pub open spec fn settings_field_spec(layout: SettingsLayout, y: i32, control_width: i32) -> SettingsFieldLayout {
    let content_right = sat(layout.content_left + layout.content_width);
    let width = min_i32(
        control_width,
        sat(layout.content_width - (SETTINGS_POSITION_CONTROL_GAP + 1)),
    );
    let control_left = sat(content_right - width);
    SettingsFieldLayout {
        label: RECT {
            left: layout.content_left,
            top: y,
            right: sat(control_left - SETTINGS_POSITION_CONTROL_GAP),
            bottom: sat(y + SETTINGS_ROW_HEIGHT),
        },
        control: RECT {
            left: control_left,
            top: sat(y - 3),
            right: content_right,
            bottom: sat(y + SETTINGS_ROW_HEIGHT),
        },
    }
}

/// The label and control of a field at row `y`.
pub fn settings_field_layout(layout: SettingsLayout, y: i32, control_width: i32) -> (field:
    SettingsFieldLayout)
    ensures
        field == settings_field_spec(layout, y, control_width),
{
    let content_right = sat_add(layout.content_left, layout.content_width);
    let limit = sat_sub(layout.content_width, SETTINGS_POSITION_CONTROL_GAP + 1);
    let width = if control_width < limit {
        control_width
    } else {
        limit
    };
    let control_left = sat_sub(content_right, width);
    SettingsFieldLayout {
        label: RECT {
            left: layout.content_left,
            top: y,
            right: sat_sub(control_left, SETTINGS_POSITION_CONTROL_GAP),
            bottom: sat_add(y, SETTINGS_ROW_HEIGHT),
        },
        control: RECT {
            left: control_left,
            top: sat_sub(y, 3),
            right: content_right,
            bottom: sat_add(y, SETTINGS_ROW_HEIGHT),
        },
    }
}

/// For every client area large enough to hold the buttons, the settings frame
/// keeps equal margins: the group box and the Cancel button stand the
/// horizontal margin away from the sides, the buttons the bottom margin away
/// from the bottom, the buttons one gap apart, the group box one gap above
/// the buttons, and the content inset inside the group box.
pub proof fn lemma_settings_layout_margins(client_width: i32, client_height: i32)
    requires
        client_width >= SETTINGS_HORIZONTAL_MARGIN + SETTINGS_BUTTON_WIDTH,
        client_height >= SETTINGS_BOTTOM_MARGIN + SETTINGS_BUTTON_HEIGHT + SETTINGS_GROUP_BUTTON_GAP
            + SETTINGS_TOP_MARGIN + 1,
        client_width >= SETTINGS_HORIZONTAL_MARGIN * 2 + SETTINGS_CONTENT_INSET * 2 + 1,
    ensures
        ({
            let l = settings_layout_spec(client_width, client_height);
            &&& l.group.left == SETTINGS_HORIZONTAL_MARGIN
            &&& client_width - l.group.right == SETTINGS_HORIZONTAL_MARGIN
            &&& client_width - l.cancel_button.right == SETTINGS_HORIZONTAL_MARGIN
            &&& client_height - l.cancel_button.bottom == SETTINGS_BOTTOM_MARGIN
            &&& l.cancel_button.left - l.ok_button.right == SETTINGS_BUTTON_GAP
            &&& l.ok_button.top - l.group.bottom == SETTINGS_GROUP_BUTTON_GAP
            &&& l.content_left - l.group.left == SETTINGS_CONTENT_INSET
            &&& l.group.right - (l.content_left + l.content_width) == SETTINGS_CONTENT_INSET
        }),
{
}

} // verus!

verus! {

/// A control's position and size in the settings window.
#[derive(Clone, Copy, Debug, PartialEq, Eq, Structural)]
pub struct ControlBox {
    pub x: i32,
    pub y: i32,
    pub width: i32,
    pub height: i32,
}

/// Where every control of the settings window stands: the group box, the
/// four sound check boxes (all sounds, English, Japanese, Korean), the
/// indicator-position label and combo box, the four colour labels and edits
/// (text, English, Japanese, Korean background), and the OK and Cancel
/// buttons.
#[derive(Clone, Copy, Debug)]
pub struct SettingsControlsLayout {
    pub group: ControlBox,
    pub checkboxes: [ControlBox; 4],
    pub position_label: ControlBox,
    pub position_combo: ControlBox,
    pub color_labels: [ControlBox; 4],
    pub color_edits: [ControlBox; 4],
    pub ok_button: ControlBox,
    pub cancel_button: ControlBox,
}

/// The box of a rectangle.
pub open spec fn rect_box(r: RECT) -> ControlBox {
    ControlBox {
        x: r.left,
        y: r.top,
        width: (r.right - r.left) as i32,
        height: (r.bottom - r.top) as i32,
    }
}

/// The first row of the settings content: below the group caption and the
/// content margin.
pub open spec fn first_row_y() -> i32 {
    (SETTINGS_TOP_MARGIN + SETTINGS_GROUP_CAPTION_VISUAL_INSET + SETTINGS_CONTENT_VERTICAL_MARGIN) as i32
}

/// The row of the indicator-position field: below the four check boxes and
/// a small extra gap.
pub open spec fn position_row_y() -> i32 {
    (first_row_y() + 4 * SETTINGS_ROW_STEP + 5) as i32
}

/// The row of the `k`-th colour field.
pub open spec fn color_row_y(k: int) -> i32 {
    (position_row_y() + SETTINGS_ROW_STEP * (k + 1)) as i32
}

/// Where every control of the settings window stands for a client area of
/// the given size.
pub open spec fn settings_controls_spec(client_width: i32, client_height: i32) -> SettingsControlsLayout {
    let l = settings_layout_spec(client_width, client_height);
    let position = settings_field_spec(l, position_row_y(), SETTINGS_POSITION_COMBO_WIDTH);
    let colors = Seq::new(
        4,
        |k: int| settings_field_spec(l, color_row_y(k), SETTINGS_COLOR_EDIT_WIDTH),
    );
    SettingsControlsLayout {
        group: rect_box(l.group),
        checkboxes: [
            ControlBox { x: l.content_left, y: first_row_y(), width: l.content_width, height: 22 },
            ControlBox {
                x: l.content_left,
                y: (first_row_y() + SETTINGS_ROW_STEP) as i32,
                width: l.content_width,
                height: 22,
            },
            ControlBox {
                x: l.content_left,
                y: (first_row_y() + 2 * SETTINGS_ROW_STEP) as i32,
                width: l.content_width,
                height: 22,
            },
            ControlBox {
                x: l.content_left,
                y: (first_row_y() + 3 * SETTINGS_ROW_STEP) as i32,
                width: l.content_width,
                height: 22,
            },
        ],
        position_label: rect_box(position.label),
        position_combo: ControlBox {
            x: position.control.left,
            y: position.control.top,
            width: (position.control.right - position.control.left) as i32,
            height: 120,
        },
        color_labels: [
            rect_box(colors[0].label),
            rect_box(colors[1].label),
            rect_box(colors[2].label),
            rect_box(colors[3].label),
        ],
        color_edits: [
            rect_box(colors[0].control),
            rect_box(colors[1].control),
            rect_box(colors[2].control),
            rect_box(colors[3].control),
        ],
        ok_button: rect_box(l.ok_button),
        cancel_button: rect_box(l.cancel_button),
    }
}

proof fn lemma_field_extents(l: SettingsLayout, y: i32, control_width: i32)
    requires
        l.content_left == SETTINGS_HORIZONTAL_MARGIN + SETTINGS_CONTENT_INSET,
        l.content_width >= 1,
        0 <= y <= 1000,
        control_width == 176,
    ensures
        ({
            let f = settings_field_spec(l, y, control_width);
            &&& rect_extent_fits(f.label)
            &&& rect_extent_fits(f.control)
        }),
{
}

fn field_box(r: RECT) -> (b: ControlBox)
    requires
        rect_extent_fits(r),
    ensures
        b == rect_box(r),
{
    ControlBox { x: r.left, y: r.top, width: r.right - r.left, height: r.bottom - r.top }
}

/// Where every control of the settings window stands for a client area of
/// the given size.
pub fn settings_controls_layout(client_width: i32, client_height: i32) -> (c:
    SettingsControlsLayout)
    requires
        settings_layout_defined(client_width, client_height),
    ensures
        c == settings_controls_spec(client_width, client_height),
{
    let l = settings_layout(client_width, client_height);
    let mut y = l.group.top + SETTINGS_GROUP_CAPTION_VISUAL_INSET + SETTINGS_CONTENT_VERTICAL_MARGIN;
    let c0 = ControlBox { x: l.content_left, y, width: l.content_width, height: 22 };
    y = y + SETTINGS_ROW_STEP;
    let c1 = ControlBox { x: l.content_left, y, width: l.content_width, height: 22 };
    y = y + SETTINGS_ROW_STEP;
    let c2 = ControlBox { x: l.content_left, y, width: l.content_width, height: 22 };
    y = y + SETTINGS_ROW_STEP;
    let c3 = ControlBox { x: l.content_left, y, width: l.content_width, height: 22 };
    y = y + SETTINGS_ROW_STEP;
    y = y + 5;
    let position = settings_field_layout(l, y, SETTINGS_POSITION_COMBO_WIDTH);
    proof {
        lemma_field_extents(l, y, SETTINGS_POSITION_COMBO_WIDTH);
    }
    let position_label = field_box(position.label);
    let position_combo = ControlBox {
        x: position.control.left,
        y: position.control.top,
        width: position.control.right - position.control.left,
        height: 120,
    };
    y = y + SETTINGS_ROW_STEP;
    let f0 = settings_field_layout(l, y, SETTINGS_COLOR_EDIT_WIDTH);
    proof {
        lemma_field_extents(l, y, SETTINGS_COLOR_EDIT_WIDTH);
    }
    y = y + SETTINGS_ROW_STEP;
    let f1 = settings_field_layout(l, y, SETTINGS_COLOR_EDIT_WIDTH);
    proof {
        lemma_field_extents(l, y, SETTINGS_COLOR_EDIT_WIDTH);
    }
    y = y + SETTINGS_ROW_STEP;
    let f2 = settings_field_layout(l, y, SETTINGS_COLOR_EDIT_WIDTH);
    proof {
        lemma_field_extents(l, y, SETTINGS_COLOR_EDIT_WIDTH);
    }
    y = y + SETTINGS_ROW_STEP;
    let f3 = settings_field_layout(l, y, SETTINGS_COLOR_EDIT_WIDTH);
    proof {
        lemma_field_extents(l, y, SETTINGS_COLOR_EDIT_WIDTH);
    }
    let r = SettingsControlsLayout {
        group: field_box(l.group),
        checkboxes: [c0, c1, c2, c3],
        position_label,
        position_combo,
        color_labels: [field_box(f0.label), field_box(f1.label), field_box(f2.label), field_box(f3.label)],
        color_edits: [
            field_box(f0.control),
            field_box(f1.control),
            field_box(f2.control),
            field_box(f3.control),
        ],
        ok_button: field_box(l.ok_button),
        cancel_button: field_box(l.cancel_button),
    };
    let ghost s = settings_controls_spec(client_width, client_height);
    assert(r.checkboxes@ =~= s.checkboxes@);
    assert(r.color_labels@ =~= s.color_labels@);
    assert(r.color_edits@ =~= s.color_edits@);
    r
}

} // verus!

verus! {

/// The settings window's outer size: the client area adjusted for the frame
/// when the adjustment succeeded, else a fixed fallback of 430 by 451.
pub open spec fn settings_window_size_spec(adjusted: Option<RECT>) -> (i32, i32) {
    match adjusted {
        Some(rect) => (sat(rect.right - rect.left), sat(rect.bottom - rect.top)),
        None => (430, 451),
    }
}

/// The settings window's outer size from the frame-adjusted client
/// rectangle, `None` when the adjustment failed.
pub fn settings_window_size(adjusted: Option<RECT>) -> (r: (i32, i32))
    ensures
        r == settings_window_size_spec(adjusted),
{
    match adjusted {
        Some(rect) => (sat_sub(rect.right, rect.left), sat_sub(rect.bottom, rect.top)),
        None => (430, 451),
    }
}

} // verus!

verus! {

/// At the default DPI a size stays what it is.
pub proof fn lemma_default_dpi_keeps_sizes(value: i32)
    requires
        0 <= value,
        value * 96 + 48 <= i32::MAX,
    ensures
        scale_for_dpi_spec(value, DEFAULT_DPI) == value,
{
    assert(dpi_factor(96) == 96);
    let v = value as int;
    assert((v * 96 + 48) / 96 == v) by (nonlinear_arith)
        requires
            0 <= v,
    ;
}

/// A metric scaled to its own base extent stays the base metric.
pub proof fn lemma_base_extent_keeps_metric(base: i32, extent: i32)
    requires
        0 <= base,
        1 <= extent,
        base * extent + extent / 2 <= i32::MAX,
    ensures
        proportional_metric_spec(base, extent, extent) == base,
{
    assert(0 <= base * extent) by (nonlinear_arith)
        requires
            0 <= base,
            1 <= extent,
    ;
    let b = base as int;
    let e = extent as int;
    assert((b * e + e / 2) / e == b) by (nonlinear_arith)
        requires
            0 <= b,
            1 <= e,
    ;
}

} // verus!
