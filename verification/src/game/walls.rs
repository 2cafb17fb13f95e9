//! The three walls that close the arena on the left, on the right and at
//! the top. The bottom stays open.

use crate::fixed::{Point, Vec2};
use crate::viewport::WindowViewport;
use vstd::prelude::*;

verus! {

/// Thickness of a wall in the default setup.
pub const WALL_THICKNESS: i32 = 10_000;

/// An axis-aligned rectangle, as the contracts see it.
pub struct WallModel {
    pub center: Point,
    pub half_extents: Point,
}

/// A fixed rectangular collider, given by its centre and its half-extents.
#[derive(Clone, Copy, Debug, PartialEq, Eq)]
pub struct Wall {
    pub center: Vec2,
    pub half_extents: Vec2,
}

impl View for Wall {
    type V = WallModel;

    open spec fn view(&self) -> WallModel {
        WallModel { center: self.center@, half_extents: self.half_extents@ }
    }
}

/// The walls of one arena.
#[derive(Clone, Copy, Debug, PartialEq, Eq)]
pub struct Walls {
    pub left: Wall,
    pub right: Wall,
    pub top: Wall,
}

/// The wall whose inner face is the left edge of the arena.
pub open spec fn left_wall(half_width: int, half_height: int, thickness: int) -> WallModel {
    WallModel {
        center: Point { x: -half_width - thickness / 2, y: 0 },
        half_extents: Point { x: thickness / 2, y: half_height },
    }
}

/// The wall whose inner face is the right edge of the arena.
pub open spec fn right_wall(half_width: int, half_height: int, thickness: int) -> WallModel {
    WallModel {
        center: Point { x: half_width + thickness / 2, y: 0 },
        half_extents: Point { x: thickness / 2, y: half_height },
    }
}

/// The wall whose inner face is the top edge of the arena.
pub open spec fn top_wall(half_width: int, half_height: int, thickness: int) -> WallModel {
    WallModel {
        center: Point { x: 0, y: half_height + thickness / 2 },
        half_extents: Point { x: half_width, y: thickness / 2 },
    }
}

/// Lays out the left, right and top walls around the arena of `viewport`.
/// Each wall lies outside the arena, and its centre is half its thickness
/// away from the edge.
pub fn create_walls(viewport: &WindowViewport, thickness: i32) -> (walls: Walls)
    requires
        viewport.half_width >= 0,
        viewport.half_height >= 0,
        thickness >= 0,
        viewport.half_width + thickness / 2 <= i32::MAX,
        viewport.half_height + thickness / 2 <= i32::MAX,
    ensures
        walls.left@ == left_wall(
            viewport.half_width as int,
            viewport.half_height as int,
            thickness as int,
        ),
        walls.right@ == right_wall(
            viewport.half_width as int,
            viewport.half_height as int,
            thickness as int,
        ),
        walls.top@ == top_wall(
            viewport.half_width as int,
            viewport.half_height as int,
            thickness as int,
        ),
{
    let half_width = viewport.half_width;
    let half_height = viewport.half_height;
    let half_thickness = thickness / 2;
    Walls {
        left: Wall {
            center: Vec2 { x: -half_width - half_thickness, y: 0 },
            half_extents: Vec2 { x: half_thickness, y: half_height },
        },
        right: Wall {
            center: Vec2 { x: half_width + half_thickness, y: 0 },
            half_extents: Vec2 { x: half_thickness, y: half_height },
        },
        top: Wall {
            center: Vec2 { x: 0, y: half_height + half_thickness },
            half_extents: Vec2 { x: half_width, y: half_thickness },
        },
    }
}

/// The inner face of every wall lies exactly on the edge of the arena, and
/// the side walls are as tall, the top wall as wide, as the arena.
pub proof fn lemma_walls_touch_the_arena(half_width: int, half_height: int, thickness: int)
    ensures
        ({
            let left = left_wall(half_width, half_height, thickness);
            let right = right_wall(half_width, half_height, thickness);
            let top = top_wall(half_width, half_height, thickness);
            &&& left.center.x + left.half_extents.x == -half_width
            &&& right.center.x - right.half_extents.x == half_width
            &&& top.center.y - top.half_extents.y == half_height
            &&& left.half_extents.y == half_height
            &&& right.half_extents.y == half_height
            &&& top.half_extents.x == half_width
        }),
{
}

} // verus!
