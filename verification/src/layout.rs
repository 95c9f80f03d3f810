//! Shared joint constants and the closed-form layout arithmetic.
//!
//! Every generator derives its slot and tap positions from the constants
//! below; keeping them in this single definition is what makes separately
//! generated panels interlock without fitting.  All measurements are in
//! whole millimetres.

use vstd::prelude::*;

verus! {

/// Distance from the front edge of a box to the leading edge of the first
/// wing tooth (and of the first side-panel hole).
pub const SIDE_WING_SLOT_FROM_FRONT: usize = 20;

/// Width of one wing tooth and of the matching side-panel hole.
pub const SIDE_WING_SLOT_WIDTH: usize = 20;

/// Gap between the first and the second wing tooth.
pub const SIDE_WING_SLOT_SPACING: usize = 15;

/// Gap inserted between independently cut shapes so they never overlap.
pub const CLEARANCE_BETWEEN_PATHS: usize = 3;

/// Distance from a cover's front edge to its tap notch.
pub const SIDE_TAP_FROM_FRONT: usize = 30;

/// Width of a cover tap notch and of the matching cover tap hole.
pub const SIDE_TAP_WIDTH: usize = 30;

/// Extra width a column gets beyond the container itself, so the container
/// slides in freely.
pub const CLEARANCE_FOR_CONTAINER_WIDTH: usize = 4;

/// Smallest container depth on which every slot and tap position derived
/// below stays non-negative.
pub const MIN_DEPTH: usize = 90;

/// Leading edge of the first wing tooth, measured from the front of a box.
pub open spec fn spec_first_tap_position() -> int {
    SIDE_WING_SLOT_FROM_FRONT as int
}

/// Leading edge of the second wing tooth, measured from the front of a box.
pub open spec fn spec_second_tap_position() -> int {
    SIDE_WING_SLOT_FROM_FRONT + SIDE_WING_SLOT_WIDTH + SIDE_WING_SLOT_SPACING
}

/// Leading edge of the third wing tooth: the second pair of teeth mirrors
/// the first pair from the back of the box.
pub open spec fn spec_third_tap_position(box_depth: int) -> int {
    box_depth - (SIDE_WING_SLOT_FROM_FRONT + SIDE_WING_SLOT_WIDTH + SIDE_WING_SLOT_SPACING
        + SIDE_WING_SLOT_WIDTH)
}

/// Leading edge of the fourth wing tooth, measured from the front of a box.
pub open spec fn spec_fourth_tap_position(box_depth: int) -> int {
    box_depth - (SIDE_WING_SLOT_FROM_FRONT + SIDE_WING_SLOT_WIDTH)
}

pub fn second_side_wing_tap_position_from_front() -> (pos: usize)
    ensures
        pos == spec_second_tap_position(),
{
    SIDE_WING_SLOT_FROM_FRONT + SIDE_WING_SLOT_WIDTH + SIDE_WING_SLOT_SPACING
}

pub fn third_side_wing_tap_position_from_front(box_depth: usize) -> (pos: usize)
    requires
        box_depth >= SIDE_WING_SLOT_FROM_FRONT + SIDE_WING_SLOT_WIDTH + SIDE_WING_SLOT_SPACING
            + SIDE_WING_SLOT_WIDTH,
    ensures
        pos == spec_third_tap_position(box_depth as int),
{
    box_depth
        - (SIDE_WING_SLOT_FROM_FRONT + SIDE_WING_SLOT_WIDTH + SIDE_WING_SLOT_SPACING
            + SIDE_WING_SLOT_WIDTH)
}

pub fn fourth_side_wing_tap_position_from_front(box_depth: usize) -> (pos: usize)
    requires
        box_depth >= SIDE_WING_SLOT_FROM_FRONT + SIDE_WING_SLOT_WIDTH,
    ensures
        pos == spec_fourth_tap_position(box_depth as int),
{
    box_depth - (SIDE_WING_SLOT_FROM_FRONT + SIDE_WING_SLOT_WIDTH)
}

/// Width taken by one container column: the container plus its clearance.
pub open spec fn spec_column_width(container_width: int) -> int {
    container_width + CLEARANCE_FOR_CONTAINER_WIDTH
}

/// Height taken by one mating pair of side wings: two wing strips, the
/// clearance between them, and one tooth depth.
pub open spec fn spec_height_of_two_side_wings(side_wing_width: int, material_thickness: int) -> int {
    2 * side_wing_width + CLEARANCE_BETWEEN_PATHS + material_thickness
}

/// Vertical distance between consecutive wing pairs in the wing stack.
pub open spec fn spec_wing_stride(side_wing_width: int, material_thickness: int) -> int {
    spec_height_of_two_side_wings(side_wing_width, material_thickness) + CLEARANCE_BETWEEN_PATHS
}

/// Width of a cover panel: one column per grid column, walled on both sides.
pub open spec fn spec_top_width(column_width: int, columns: int, material_thickness: int) -> int {
    material_thickness + column_width * columns + material_thickness
}

pub fn height_of_two_side_wings(side_wing_width: usize, material_thickness: usize) -> (height: usize)
    requires
        spec_height_of_two_side_wings(side_wing_width as int, material_thickness as int)
            <= usize::MAX,
    ensures
        height == spec_height_of_two_side_wings(side_wing_width as int, material_thickness as int),
{
    side_wing_width * 2 + CLEARANCE_BETWEEN_PATHS + material_thickness
}

pub fn top_width(column_width: usize, columns: usize, material_thickness: usize) -> (width: usize)
    requires
        spec_top_width(column_width as int, columns as int, material_thickness as int)
            <= usize::MAX,
    ensures
        width == spec_top_width(column_width as int, columns as int, material_thickness as int),
{
    proof {
        assert(column_width as int * columns as int >= 0) by (nonlinear_arith);
    }
    material_thickness + column_width * columns + material_thickness
}

/// X origin of the cover-pair region: the wing stack takes the box depth,
/// then one clearance.
pub open spec fn spec_cover_region_x(depth: int) -> int {
    depth + CLEARANCE_BETWEEN_PATHS
}

/// X origin of the side-panel row: past the cover pair and one clearance.
pub open spec fn spec_panel_region_x(columns: int, material_thickness: int, container_width: int, depth: int) -> int {
    spec_cover_region_x(depth)
        + spec_top_width(spec_column_width(container_width), columns, material_thickness)
        + CLEARANCE_BETWEEN_PATHS
}

/// Overall canvas width: the three regions side by side, plus the slack the
/// layout leaves after the side panels.
pub open spec fn spec_total_width(rows: int, columns: int, material_thickness: int, container_width: int, depth: int, height: int) -> int {
    depth + 3 * CLEARANCE_BETWEEN_PATHS
        + spec_top_width(spec_column_width(container_width), columns, material_thickness)
        + height * rows
        + 2 * material_thickness
}

/// Height of the wing-stack region: one stride per box.
pub open spec fn spec_wing_region_height(rows: int, columns: int, side_wing_width: int, material_thickness: int) -> int {
    rows * columns * spec_wing_stride(side_wing_width, material_thickness)
}

/// Height of the cover-pair region: two covers and the clearance between.
pub open spec fn spec_cover_region_height(depth: int) -> int {
    2 * depth + CLEARANCE_BETWEEN_PATHS
}

/// Height of the side-panel row: `columns + 1` panels, each with clearance.
pub open spec fn spec_panel_region_height(columns: int, depth: int) -> int {
    (columns + 1) * (depth + CLEARANCE_BETWEEN_PATHS)
}

pub open spec fn spec_max(a: int, b: int) -> int {
    if a >= b {
        a
    } else {
        b
    }
}

/// Overall canvas height: the three regions stand side by side along X, so
/// the canvas only needs the tallest of them.
pub open spec fn spec_total_height(rows: int, columns: int, material_thickness: int, depth: int, side_wing_width: int) -> int {
    spec_max(
        spec_wing_region_height(rows, columns, side_wing_width, material_thickness),
        spec_max(spec_cover_region_height(depth), spec_panel_region_height(columns, depth)),
    )
}

} // verus!
