use vstd::prelude::*;
use std::collections::HashSet;

use crate::grid::{Direction, GridPos};

verus! {

/// What a single map tile is.
#[derive(Debug, Clone, Copy, PartialEq, Eq, Structural)]
pub enum TileKind {
    Grass,
    Path,
    HouseWall,
    DoorClosed,
    DoorBen,
    SignPost,
    Floor,
    Wall,
    ExitDoor,
    FurnitureCouch,
    FurnitureTv,
    FurnitureTable,
    FurnitureCounter,
    FurnitureBed,
    FurnitureBedGun,
}

impl TileKind {
    /// Only open ground (grass, paths and floor) can be walked on.
    pub open spec fn blocks(self) -> bool {
        !(self == TileKind::Grass || self == TileKind::Path || self == TileKind::Floor)
    }

    /// True for every tile an entity cannot stand on.
    pub fn is_blocking(self) -> (r: bool)
        ensures
            r == self.blocks(),
    {
        match self {
            TileKind::HouseWall
            | TileKind::DoorClosed
            | TileKind::DoorBen
            | TileKind::SignPost
            | TileKind::Wall
            | TileKind::ExitDoor
            | TileKind::FurnitureCouch
            | TileKind::FurnitureTv
            | TileKind::FurnitureTable
            | TileKind::FurnitureCounter
            | TileKind::FurnitureBed
            | TileKind::FurnitureBedGun => true,
            TileKind::Grass | TileKind::Path | TileKind::Floor => false,
        }
    }
}

/// A rectangular map stored row by row; `(x, y)` lives at `y * width + x`.
pub struct TileGrid {
    pub width: i32,
    pub height: i32,
    tiles: Vec<TileKind>,
}

/// Row-major indices of the cells of a `w`-wide grid are in range.
proof fn lemma_index_in_range(w: int, h: int, x: int, y: int)
    by (nonlinear_arith)
    requires
        0 <= x < w,
        0 <= y < h,
    ensures
        0 <= y * w + x < w * h,
{
}

/// Different cells of a `w`-wide grid have different row-major indices.
proof fn lemma_index_unique(w: int, x1: int, y1: int, x2: int, y2: int)
    by (nonlinear_arith)
    requires
        0 <= x1 < w,
        0 <= x2 < w,
        0 <= y1,
        0 <= y2,
        y1 * w + x1 == y2 * w + x2,
    ensures
        x1 == x2,
        y1 == y2,
{
}

impl TileGrid {
    /// Number of columns.
    pub closed spec fn grid_width(self) -> int {
        self.width as int
    }

    /// Number of rows.
    pub closed spec fn grid_height(self) -> int {
        self.height as int
    }

    /// `(x, y)` is a cell of the grid.
    pub closed spec fn in_bounds(self, x: int, y: int) -> bool {
        0 <= x < self.width && 0 <= y < self.height
    }

    /// The grid holds exactly one tile per cell.
    pub closed spec fn wf(self) -> bool {
        &&& self.width * self.height == self.tiles@.len()
        &&& self.width * self.height <= i32::MAX
    }

    /// The tile at `(x, y)`; everything outside the grid reads as a wall.
    pub closed spec fn tile_at(self, x: int, y: int) -> TileKind {
        if self.in_bounds(x, y) {
            self.tiles@[y * self.width + x]
        } else {
            TileKind::Wall
        }
    }

    /// What the closed accessors mean for callers: the cells of the grid
    /// are exactly the `(x, y)` with `0 <= x < width` and `0 <= y < height`,
    /// and everything else reads as a wall.
    pub proof fn lemma_cells(self, x: int, y: int)
        ensures
            self.in_bounds(x, y) <==> (0 <= x < self.grid_width() && 0 <= y < self.grid_height()),
            !self.in_bounds(x, y) ==> self.tile_at(x, y) == TileKind::Wall,
    {
    }

    /// A `width` by `height` grid with every cell set to `fill`.
    pub fn filled(width: i32, height: i32, fill: TileKind) -> (g: TileGrid)
        requires
            0 <= width * height <= i32::MAX,
        ensures
            g.wf(),
            g.grid_width() == width,
            g.grid_height() == height,
            forall|x: int, y: int| #[trigger]
                g.tile_at(x, y) == if g.in_bounds(x, y) {
                    fill
                } else {
                    TileKind::Wall
                },
    {
        let n = (width * height) as usize;
        let mut tiles: Vec<TileKind> = Vec::new();
        let mut i: usize = 0;
        while i < n
            invariant
                tiles.len() == i,
                i <= n,
                forall|k: int| 0 <= k < i ==> tiles@[k] == fill,
            decreases n - i,
        {
            tiles.push(fill);
            i = i + 1;
        }
        let g = TileGrid { width, height, tiles };
        assert forall|x: int, y: int| #[trigger]
            g.tile_at(x, y) == if g.in_bounds(x, y) {
                fill
            } else {
                TileKind::Wall
            } by {
            if g.in_bounds(x, y) {
                lemma_index_in_range(width as int, height as int, x, y);
            }
        }
        g
    }

    /// Row-major index of `(x, y)`, or `None` outside the grid.
    fn index(&self, x: i32, y: i32) -> (r: Option<usize>)
        requires
            self.wf(),
        ensures
            r == if self.in_bounds(x as int, y as int) {
                Some((y * self.width + x) as usize)
            } else {
                None::<usize>
            },
            r matches Some(i) ==> i < self.tiles@.len(),
    {
        if x < 0 || y < 0 || x >= self.width || y >= self.height {
            None
        } else {
            proof {
                lemma_index_in_range(self.width as int, self.height as int, x as int, y as int);
            }
            Some((y * self.width + x) as usize)
        }
    }

    /// The tile at `(x, y)`, or a wall outside the grid.
    pub fn get(&self, x: i32, y: i32) -> (r: TileKind)
        requires
            self.wf(),
        ensures
            r == self.tile_at(x as int, y as int),
    {
        proof {
            if self.in_bounds(x as int, y as int) {
                lemma_index_in_range(self.width as int, self.height as int, x as int, y as int);
            }
        }
        match self.index(x, y) {
            Some(i) => self.tiles[i],
            None => TileKind::Wall,
        }
    }

    /// Overwrites the tile at `(x, y)`; does nothing outside the grid.
    pub fn set(&mut self, x: i32, y: i32, kind: TileKind)
        requires
            old(self).wf(),
        ensures
            final(self).wf(),
            final(self).grid_width() == old(self).grid_width(),
            final(self).grid_height() == old(self).grid_height(),
            forall|a: int, b: int| #[trigger]
                final(self).tile_at(a, b) == if a == x && b == y && old(self).in_bounds(a, b) {
                    kind
                } else {
                    old(self).tile_at(a, b)
                },
    {
        let ghost g0 = *self;
        proof {
            if self.in_bounds(x as int, y as int) {
                lemma_index_in_range(self.width as int, self.height as int, x as int, y as int);
            }
        }
        if let Some(i) = self.index(x, y) {
            self.tiles.set(i, kind);
        }
        assert forall|a: int, b: int| #[trigger]
            self.tile_at(a, b) == if a == x && b == y && g0.in_bounds(a, b) {
                kind
            } else {
                g0.tile_at(a, b)
            } by {
            if g0.in_bounds(a, b) {
                lemma_index_in_range(g0.width as int, g0.height as int, a, b);
                if g0.in_bounds(x as int, y as int) && !(a == x && b == y) {
                    if b * g0.width + a == y * g0.width + x {
                        lemma_index_unique(g0.width as int, a, b, x as int, y as int);
                    }
                }
            }
        }
    }

    /// Sets every cell `(x, y)` with `x0 <= x <= x1` and `y0 <= y <= y1`
    /// to `kind`; the parts of the rectangle outside the grid are ignored.
    pub fn fill_rect(&mut self, x0: i32, y0: i32, x1: i32, y1: i32, kind: TileKind)
        requires
            old(self).wf(),
        ensures
            final(self).wf(),
            final(self).grid_width() == old(self).grid_width(),
            final(self).grid_height() == old(self).grid_height(),
            forall|a: int, b: int| #[trigger]
                final(self).tile_at(a, b) == if old(self).in_bounds(a, b) && x0 <= a <= x1 && y0
                    <= b <= y1 {
                    kind
                } else {
                    old(self).tile_at(a, b)
                },
    {
        let ghost g0 = *self;
        let ylo: i64 = if y0 < 0 {
            0
        } else {
            y0 as i64
        };
        let yhi: i64 = if (y1 as i64) < (self.height as i64) - 1 {
            y1 as i64
        } else {
            (self.height as i64) - 1
        };
        let xlo: i64 = if x0 < 0 {
            0
        } else {
            x0 as i64
        };
        let xhi: i64 = if (x1 as i64) < (self.width as i64) - 1 {
            x1 as i64
        } else {
            (self.width as i64) - 1
        };
        let mut y: i64 = ylo;
        while y <= yhi
            invariant
                self.wf(),
                self.width == g0.width,
                self.height == g0.height,
                ylo <= y,
                ylo == (if y0 < 0 { 0 } else { y0 as int }),
                yhi == (if y1 < g0.height - 1 { y1 as int } else { g0.height - 1 }),
                xlo == (if x0 < 0 { 0 } else { x0 as int }),
                xhi == (if x1 < g0.width - 1 { x1 as int } else { g0.width - 1 }),
                forall|a: int, b: int| #[trigger]
                    self.tile_at(a, b) == if g0.in_bounds(a, b) && x0 <= a <= x1 && y0 <= b <= y1
                        && b < y {
                        kind
                    } else {
                        g0.tile_at(a, b)
                    },
            decreases yhi + 1 - y,
        {
            let mut x: i64 = xlo;
            while x <= xhi
                invariant
                    self.wf(),
                    self.width == g0.width,
                    self.height == g0.height,
                    ylo <= y <= yhi,
                    xlo <= x,
                    ylo == (if y0 < 0 { 0 } else { y0 as int }),
                    yhi == (if y1 < g0.height - 1 { y1 as int } else { g0.height - 1 }),
                    xlo == (if x0 < 0 { 0 } else { x0 as int }),
                    xhi == (if x1 < g0.width - 1 { x1 as int } else { g0.width - 1 }),
                    forall|a: int, b: int| #[trigger]
                        self.tile_at(a, b) == if g0.in_bounds(a, b) && x0 <= a <= x1 && y0 <= b
                            <= y1 && (b < y || (b == y && a < x)) {
                            kind
                        } else {
                            g0.tile_at(a, b)
                        },
                decreases xhi + 1 - x,
            {
                self.set(x as i32, y as i32, kind);
                x = x + 1;
            }
            y = y + 1;
        }
    }

    /// True if `(x, y)` cannot be walked on (walls, furniture, off-map).
    pub fn is_blocked(&self, x: i32, y: i32) -> (r: bool)
        requires
            self.wf(),
        ensures
            r == self.tile_at(x as int, y as int).blocks(),
    {
        self.get(x, y).is_blocking()
    }
}

// ---------------------------------------------------------------------
// Outdoor map
// ---------------------------------------------------------------------

pub const OUTDOOR_WIDTH: i32 = 17;
pub const OUTDOOR_HEIGHT: i32 = 7;
pub const OUTDOOR_PATH_Y: i32 = 2;
pub const OUTDOOR_DOOR_Y: i32 = 4;
pub const OUTDOOR_ROOF_Y: i32 = 5;

pub const NEIGHBOR1_X: i32 = 2;
pub const NEIGHBOR2_X: i32 = 7;
pub const BEN_HOUSE_X: i32 = 12;

/// The door of Ben's house on the outdoor map.
#[verifier::allow_in_spec]
pub fn ben_door_pos() -> GridPos
    returns
        (GridPos { x: (BEN_HOUSE_X + 1) as i32, y: OUTDOOR_DOOR_Y }),
{
    GridPos { x: BEN_HOUSE_X + 1, y: OUTDOOR_DOOR_Y }
}

/// Where the player starts the game.
#[verifier::allow_in_spec]
pub fn outdoor_spawn() -> GridPos
    returns
        (GridPos { x: 1, y: OUTDOOR_PATH_Y }),
{
    GridPos { x: 1, y: OUTDOOR_PATH_Y }
}

pub const OUTDOOR_SPAWN_FACING: Direction = Direction::Up;

/// Where the player lands after walking back out of the house.
#[verifier::allow_in_spec]
pub fn outdoor_return_pos() -> GridPos
    returns
        (GridPos { x: (BEN_HOUSE_X + 1) as i32, y: (OUTDOOR_DOOR_Y - 1) as i32 }),
{
    GridPos { x: BEN_HOUSE_X + 1, y: OUTDOOR_DOOR_Y - 1 }
}

pub const OUTDOOR_RETURN_FACING: Direction = Direction::Down;

/// The part of a house with its left wall at column `base_x` that covers
/// `(x, y)`, if any: a three-tile roof row, and below it a wall, the door
/// and another wall.
pub open spec fn house_part(base_x: int, door_kind: TileKind, x: int, y: int) -> Option<TileKind> {
    if y == OUTDOOR_ROOF_Y && base_x <= x <= base_x + 2 {
        Some(TileKind::HouseWall)
    } else if y == OUTDOOR_DOOR_Y && x == base_x + 1 {
        Some(door_kind)
    } else if y == OUTDOOR_DOOR_Y && (x == base_x || x == base_x + 2) {
        Some(TileKind::HouseWall)
    } else {
        None
    }
}

/// The outdoor map: a grass field crossed by a path, three houses (only
/// Ben's has a usable door) and a sign post in front of each neighbour's
/// house.
pub open spec fn outdoor_tile(x: int, y: int) -> TileKind {
    if !(0 <= x < OUTDOOR_WIDTH && 0 <= y < OUTDOOR_HEIGHT) {
        TileKind::Wall
    } else if y == 1 && (x == NEIGHBOR1_X + 1 || x == NEIGHBOR2_X + 1) {
        TileKind::SignPost
    } else if house_part(BEN_HOUSE_X as int, TileKind::DoorBen, x, y) is Some {
        house_part(BEN_HOUSE_X as int, TileKind::DoorBen, x, y)->0
    } else if house_part(NEIGHBOR2_X as int, TileKind::DoorClosed, x, y) is Some {
        house_part(NEIGHBOR2_X as int, TileKind::DoorClosed, x, y)->0
    } else if house_part(NEIGHBOR1_X as int, TileKind::DoorClosed, x, y) is Some {
        house_part(NEIGHBOR1_X as int, TileKind::DoorClosed, x, y)->0
    } else if y == OUTDOOR_PATH_Y {
        TileKind::Path
    } else {
        TileKind::Grass
    }
}

/// Draws a house with its left wall at column `base_x`.
fn place_house(grid: &mut TileGrid, base_x: i32, door_kind: TileKind)
    requires
        old(grid).wf(),
        base_x <= i32::MAX - 2,
    ensures
        final(grid).wf(),
        final(grid).grid_width() == old(grid).grid_width(),
        final(grid).grid_height() == old(grid).grid_height(),
        forall|a: int, b: int| #[trigger]
            final(grid).tile_at(a, b) == if old(grid).in_bounds(a, b) && house_part(
                base_x as int,
                door_kind,
                a,
                b,
            ) is Some {
                house_part(base_x as int, door_kind, a, b)->0
            } else {
                old(grid).tile_at(a, b)
            },
{
    grid.fill_rect(base_x, OUTDOOR_ROOF_Y, base_x + 2, OUTDOOR_ROOF_Y, TileKind::HouseWall);
    grid.set(base_x, OUTDOOR_DOOR_Y, TileKind::HouseWall);
    grid.set(base_x + 1, OUTDOOR_DOOR_Y, door_kind);
    grid.set(base_x + 2, OUTDOOR_DOOR_Y, TileKind::HouseWall);
}

/// Builds the outdoor map.
pub fn build_outdoor_grid() -> (g: TileGrid)
    ensures
        g.wf(),
        g.grid_width() == OUTDOOR_WIDTH,
        g.grid_height() == OUTDOOR_HEIGHT,
        forall|x: int, y: int| #[trigger] g.tile_at(x, y) == outdoor_tile(x, y),
{
    let mut grid = TileGrid::filled(OUTDOOR_WIDTH, OUTDOOR_HEIGHT, TileKind::Grass);
    grid.fill_rect(0, OUTDOOR_PATH_Y, OUTDOOR_WIDTH - 1, OUTDOOR_PATH_Y, TileKind::Path);

    place_house(&mut grid, NEIGHBOR1_X, TileKind::DoorClosed);
    place_house(&mut grid, NEIGHBOR2_X, TileKind::DoorClosed);
    place_house(&mut grid, BEN_HOUSE_X, TileKind::DoorBen);

    grid.set(NEIGHBOR1_X + 1, 1, TileKind::SignPost);
    grid.set(NEIGHBOR2_X + 1, 1, TileKind::SignPost);

    grid
}

/// The two signs in front of the neighbours' houses and what they say.
pub fn outdoor_signs() -> (r: [(GridPos, &'static str); 2])
    ensures
        r@[0].0 == (GridPos { x: (NEIGHBOR1_X + 1) as i32, y: 1 }),
        r@[0].1@ == "A weathered sign: \"The Johnsons\""@,
        r@[1].0 == (GridPos { x: (NEIGHBOR2_X + 1) as i32, y: 1 }),
        r@[1].1@ == "A weathered sign: \"The Millers\""@,
{
    [
        (GridPos { x: NEIGHBOR1_X + 1, y: 1 }, "A weathered sign: \"The Johnsons\""),
        (GridPos { x: NEIGHBOR2_X + 1, y: 1 }, "A weathered sign: \"The Millers\""),
    ]
}

// ---------------------------------------------------------------------
// House interior map
// ---------------------------------------------------------------------

pub const INTERIOR_WIDTH: i32 = 21;
pub const INTERIOR_HEIGHT: i32 = 15;

/// The door leading back outside.
#[verifier::allow_in_spec]
pub fn exit_door_pos() -> GridPos
    returns
        (GridPos { x: 10, y: 0 }),
{
    GridPos { x: 10, y: 0 }
}

/// Where the player appears after entering the house.
#[verifier::allow_in_spec]
pub fn interior_spawn() -> GridPos
    returns
        (GridPos { x: 10, y: 1 }),
{
    GridPos { x: 10, y: 1 }
}

pub const INTERIOR_SPAWN_FACING: Direction = Direction::Up;

#[verifier::allow_in_spec]
pub fn mom_pos() -> GridPos
    returns
        (GridPos { x: 5, y: 4 }),
{
    GridPos { x: 5, y: 4 }
}

#[verifier::allow_in_spec]
pub fn dad_pos() -> GridPos
    returns
        (GridPos { x: 15, y: 4 }),
{
    GridPos { x: 15, y: 4 }
}

#[verifier::allow_in_spec]
pub fn older_brother_pos() -> GridPos
    returns
        (GridPos { x: 3, y: 11 }),
{
    GridPos { x: 3, y: 11 }
}

#[verifier::allow_in_spec]
pub fn younger_brother_pos() -> GridPos
    returns
        (GridPos { x: 10, y: 11 }),
{
    GridPos { x: 10, y: 11 }
}

/// Ben's bed - the gun hiding spot. Player must stand just south of it,
/// facing north, to interact with it (see `interact_key_system`).
#[verifier::allow_in_spec]
pub fn gun_spot_pos() -> GridPos
    returns
        (GridPos { x: 17, y: 11 }),
{
    GridPos { x: 17, y: 11 }
}

/// Where Ben is placed at the start of the ambush cutscene, and the tile
/// he walks to (the gun spot itself) during it.
#[verifier::allow_in_spec]
pub fn ben_ambush_entry_pos() -> GridPos
    returns
        (GridPos { x: 19, y: 10 }),
{
    GridPos { x: 19, y: 10 }
}

/// The house interior: outer walls with the exit door in the bottom wall,
/// a living room and a kitchen in the lower half, three bedrooms in the
/// upper half, doorless gaps between the rooms, and furniture.
pub open spec fn interior_tile(x: int, y: int) -> TileKind {
    if !(0 <= x < INTERIOR_WIDTH && 0 <= y < INTERIOR_HEIGHT) {
        TileKind::Wall
    } else if x == gun_spot_pos().x && y == gun_spot_pos().y {
        TileKind::FurnitureBedGun
    } else if (x == 2 || x == 12) && y == 12 {
        TileKind::FurnitureBed
    } else if x == 13 && y == 5 {
        TileKind::FurnitureTable
    } else if x == 17 && y == 3 {
        TileKind::FurnitureCounter
    } else if x == 7 && y == 5 {
        TileKind::FurnitureTv
    } else if x == 3 && y == 3 {
        TileKind::FurnitureCouch
    } else if (x == 7 || x == 14) && y == 10 {
        TileKind::Floor
    } else if (x == 7 || x == 14) && 8 <= y <= 13 {
        TileKind::Wall
    } else if x == 10 && y == 3 {
        TileKind::Floor
    } else if x == 10 && 2 <= y <= 6 {
        TileKind::Wall
    } else if y == 7 && (x == 5 || x == 10 || x == 15) {
        TileKind::Floor
    } else if y == 7 && 1 <= x <= INTERIOR_WIDTH - 2 {
        TileKind::Wall
    } else if x == exit_door_pos().x && y == exit_door_pos().y {
        TileKind::ExitDoor
    } else if x == 0 || y == 0 || x == INTERIOR_WIDTH - 1 || y == INTERIOR_HEIGHT - 1 {
        TileKind::Wall
    } else {
        TileKind::Floor
    }
}

/// Builds the house interior map.
pub fn build_interior_grid() -> (g: TileGrid)
    ensures
        g.wf(),
        g.grid_width() == INTERIOR_WIDTH,
        g.grid_height() == INTERIOR_HEIGHT,
        forall|x: int, y: int| #[trigger] g.tile_at(x, y) == interior_tile(x, y),
{
    let mut grid = TileGrid::filled(INTERIOR_WIDTH, INTERIOR_HEIGHT, TileKind::Floor);

    // Outer walls.
    grid.fill_rect(0, 0, INTERIOR_WIDTH - 1, 0, TileKind::Wall);
    grid.fill_rect(0, INTERIOR_HEIGHT - 1, INTERIOR_WIDTH - 1, INTERIOR_HEIGHT - 1, TileKind::Wall);
    grid.fill_rect(0, 0, 0, INTERIOR_HEIGHT - 1, TileKind::Wall);
    grid.fill_rect(INTERIOR_WIDTH - 1, 0, INTERIOR_WIDTH - 1, INTERIOR_HEIGHT - 1, TileKind::Wall);
    let exit = exit_door_pos();
    grid.set(exit.x, exit.y, TileKind::ExitDoor);

    // Horizontal partition between the lower rooms (living room, kitchen)
    // and the upper rooms (the three bedrooms), with doorless gaps.
    grid.fill_rect(1, 7, INTERIOR_WIDTH - 2, 7, TileKind::Wall);
    let gaps: [i32; 3] = [5, 10, 15];
    let mut i: usize = 0;
    while i < 3
        invariant
            i <= 3,
            gaps@ == seq![5i32, 10i32, 15i32],
            grid.wf(),
            grid.grid_width() == INTERIOR_WIDTH,
            grid.grid_height() == INTERIOR_HEIGHT,
            forall|x: int, y: int| #[trigger]
                grid.tile_at(x, y) == if y == 7 && ((i > 0 && x == 5) || (i > 1 && x == 10) || (i
                    > 2 && x == 15)) {
                    TileKind::Floor
                } else if !(0 <= x < INTERIOR_WIDTH && 0 <= y < INTERIOR_HEIGHT) {
                    TileKind::Wall
                } else if y == 7 && 1 <= x <= INTERIOR_WIDTH - 2 {
                    TileKind::Wall
                } else if x == exit_door_pos().x && y == exit_door_pos().y {
                    TileKind::ExitDoor
                } else if x == 0 || y == 0 || x == INTERIOR_WIDTH - 1 || y == INTERIOR_HEIGHT
                    - 1 {
                    TileKind::Wall
                } else {
                    TileKind::Floor
                },
        decreases 3 - i,
    {
        grid.set(gaps[i], 7, TileKind::Floor);
        i = i + 1;
    }

    // Vertical partition separating the living room from the kitchen. It
    // starts at y = 2 (not y = 1) so the entrance row stays clear;
    // otherwise it would wall off the tile the player spawns on right
    // after walking in.
    grid.fill_rect(10, 2, 10, 6, TileKind::Wall);
    grid.set(10, 3, TileKind::Floor);

    // Vertical partitions separating the three upper rooms.
    grid.fill_rect(7, 8, 7, 13, TileKind::Wall);
    grid.set(7, 10, TileKind::Floor);
    grid.fill_rect(14, 8, 14, 13, TileKind::Wall);
    grid.set(14, 10, TileKind::Floor);

    // Furniture.
    grid.set(3, 3, TileKind::FurnitureCouch);
    grid.set(7, 5, TileKind::FurnitureTv);
    grid.set(17, 3, TileKind::FurnitureCounter);
    grid.set(13, 5, TileKind::FurnitureTable);
    grid.set(2, 12, TileKind::FurnitureBed);
    grid.set(12, 12, TileKind::FurnitureBed);
    let gun = gun_spot_pos();
    grid.set(gun.x, gun.y, TileKind::FurnitureBedGun);

    grid
}

// ---------------------------------------------------------------------
// Collision
// ---------------------------------------------------------------------

/// The key under which cell `(x, y)` is stored in [`ActiveCollision`]:
/// column in the upper 32 bits, row in the lower 32 bits.
pub open spec fn cell_key(x: int, y: int) -> int {
    x * 0x1_0000_0000 + y
}

/// The blocked cells of the map the player is currently on.
pub struct ActiveCollision {
    pub grid_width: i32,
    pub grid_height: i32,
    /// [`cell_key`]s of the blocked cells inside the map.
    pub blocked: HashSet<u64>,
}

impl Default for ActiveCollision {
    /// An empty, zero-sized map: every cell is blocked.
    fn default() -> (r: ActiveCollision)
        ensures
            r.grid_width == 0,
            r.grid_height == 0,
            r.blocked@ == Set::<u64>::empty(),
    {
        ActiveCollision { grid_width: 0, grid_height: 0, blocked: HashSet::new() }
    }
}

impl ActiveCollision {
    /// `(x, y)` is off the map or one of its blocked cells.
    pub open spec fn blocked_at(self, x: int, y: int) -> bool {
        if x < 0 || y < 0 || x >= self.grid_width || y >= self.grid_height {
            true
        } else {
            self.blocked@.contains(cell_key(x, y) as u64)
        }
    }

    /// Records which cells of `grid` are blocked.
    pub fn from_grid(grid: &TileGrid) -> (r: ActiveCollision)
        requires
            grid.wf(),
        ensures
            r.grid_width == grid.grid_width(),
            r.grid_height == grid.grid_height(),
            forall|x: int, y: int| #[trigger] r.blocked_at(x, y) == grid.tile_at(x, y).blocks(),
            forall|k: u64|
                #![trigger r.blocked@.contains(k)]
                r.blocked@.contains(k) ==> exists|x: int, y: int|
                    0 <= x < grid.grid_width() && 0 <= y < grid.grid_height() && k == cell_key(x, y)
                        && #[trigger] grid.tile_at(x, y).blocks(),
    {
        let mut blocked: HashSet<u64> = HashSet::new();
        let mut y: i32 = 0;
        while y < grid.height
            invariant
                grid.wf(),
                0 <= y,
                y <= grid.height || grid.height < 0,
                forall|a: int, b: int|
                    0 <= a < grid.width && 0 <= b < grid.height ==> (#[trigger] blocked@.contains(
                        cell_key(a, b) as u64,
                    ) <==> (b < y && grid.tile_at(a, b).blocks())),
                forall|k: u64|
                    #![trigger blocked@.contains(k)]
                    blocked@.contains(k) ==> exists|a: int, b: int|
                        0 <= a < grid.width && 0 <= b < grid.height && k == cell_key(a, b)
                            && #[trigger] grid.tile_at(a, b).blocks(),
            decreases grid.height - y,
        {
            let mut x: i32 = 0;
            while x < grid.width
                invariant
                    grid.wf(),
                    0 <= y < grid.height,
                    0 <= x,
                    x <= grid.width || grid.width < 0,
                    forall|a: int, b: int|
                        0 <= a < grid.width && 0 <= b < grid.height ==> (
                        #[trigger] blocked@.contains(cell_key(a, b) as u64) <==> ((b < y || (b == y
                            && a < x)) && grid.tile_at(a, b).blocks())),
                    forall|k: u64|
                        #![trigger blocked@.contains(k)]
                        blocked@.contains(k) ==> exists|a: int, b: int|
                            0 <= a < grid.width && 0 <= b < grid.height && k == cell_key(a, b)
                                && #[trigger] grid.tile_at(a, b).blocks(),
                decreases grid.width - x,
            {
                if grid.is_blocked(x, y) {
                    let key = (x as u64) * 0x1_0000_0000u64 + (y as u64);
                    assert(key == cell_key(x as int, y as int));
                    assert(grid.tile_at(x as int, y as int).blocks());
                    blocked.insert(key);
                }
                x = x + 1;
            }
            y = y + 1;
        }
        let r = ActiveCollision { grid_width: grid.width, grid_height: grid.height, blocked };
        assert forall|x: int, y: int| #[trigger] r.blocked_at(x, y) == grid.tile_at(x, y).blocks() by {
        }
        r
    }

    /// True if `(x, y)` is off the map or blocked.
    pub fn is_blocked(&self, x: i32, y: i32) -> (r: bool)
        ensures
            r == self.blocked_at(x as int, y as int),
    {
        if x < 0 || y < 0 || x >= self.grid_width || y >= self.grid_height {
            return true;
        }
        self.blocked.contains(&((x as u64) * 0x1_0000_0000u64 + (y as u64)))
    }
}

// ---------------------------------------------------------------------
// Walking the maps
// ---------------------------------------------------------------------

/// Walking from `start` by `moves[i..]` crosses only tiles that are open
/// ground in `tile` and not in `occupied`.
pub open spec fn walk_is_free(
    tile: spec_fn(int, int) -> TileKind,
    occupied: Seq<GridPos>,
    start: GridPos,
    moves: Seq<Direction>,
    i: int,
) -> bool
    decreases moves.len() - i,
{
    if i < 0 || i >= moves.len() {
        true
    } else {
        let next = start.step(moves[i]);
        &&& !tile(next.x as int, next.y as int).blocks()
        &&& !occupied.contains(next)
        &&& walk_is_free(tile, occupied, next, moves, i + 1)
    }
}

/// Where walking from `start` by `moves[i..]` ends.
pub open spec fn walk_end(start: GridPos, moves: Seq<Direction>, i: int) -> GridPos
    decreases moves.len() - i,
{
    if i < 0 || i >= moves.len() {
        start
    } else {
        walk_end(start.step(moves[i]), moves, i + 1)
    }
}

/// `n` copies of `dir`.
pub open spec fn repeat(dir: Direction, n: nat) -> Seq<Direction> {
    Seq::new(n, |i: int| dir)
}

/// Outdoors, the player can walk from the spawn along the path to the
/// tile in front of Ben's door, which then is the tile above them.
pub proof fn lemma_ben_door_reachable()
    ensures
        ({
            let moves = repeat(Direction::Right, 12) + repeat(Direction::Up, 1);
            &&& walk_is_free(|x: int, y: int| outdoor_tile(x, y), Seq::empty(), outdoor_spawn(), moves, 0)
            &&& walk_end(outdoor_spawn(), moves, 0) == outdoor_return_pos()
            &&& outdoor_return_pos().step(Direction::Up) == ben_door_pos()
            &&& outdoor_tile(ben_door_pos().x as int, ben_door_pos().y as int) == TileKind::DoorBen
        }),
{
    let moves = repeat(Direction::Right, 12) + repeat(Direction::Up, 1);
    reveal_with_fuel(walk_is_free, 14);
    reveal_with_fuel(walk_end, 14);
    assert(moves.len() == 13);
    assert(forall|i: int| 0 <= i < 12 ==> moves[i] == Direction::Right);
    assert(moves[12] == Direction::Up);
}

/// Where the family stands in the house.
pub open spec fn family_positions() -> Seq<GridPos> {
    seq![mom_pos(), dad_pos(), older_brother_pos(), younger_brother_pos()]
}

/// The walls of the house, stated cell by cell: the outer wall is solid
/// except for the exit door at (10, 0); the wall at y = 7 between the
/// lower rooms and the bedrooms runs from x = 1 to 19 with doorless gaps
/// at x = 5, 10 and 15; the wall at x = 10 between living room and kitchen
/// runs from y = 2 to 6 with a gap at y = 3; and the walls at x = 7 and
/// x = 14 between the bedrooms run from y = 8 to 13 with a doorway at
/// y = 10. Off the map everything is wall.
pub proof fn lemma_interior_walls()
    ensures
        forall|x: int, y: int|
            !(0 <= x < 21 && 0 <= y < 15) ==> #[trigger] interior_tile(x, y) == TileKind::Wall,
        forall|x: int| 0 <= x < 21 && x != 10 ==> #[trigger] interior_tile(x, 0) == TileKind::Wall,
        interior_tile(10, 0) == TileKind::ExitDoor,
        forall|x: int| 0 <= x < 21 ==> #[trigger] interior_tile(x, 14) == TileKind::Wall,
        forall|y: int| 0 <= y < 15 ==> #[trigger] interior_tile(0, y) == TileKind::Wall,
        forall|y: int| 0 <= y < 15 ==> #[trigger] interior_tile(20, y) == TileKind::Wall,
        forall|x: int|
            1 <= x <= 19 && x != 5 && x != 10 && x != 15 ==> #[trigger] interior_tile(x, 7)
                == TileKind::Wall,
        interior_tile(5, 7) == TileKind::Floor,
        interior_tile(10, 7) == TileKind::Floor,
        interior_tile(15, 7) == TileKind::Floor,
        forall|y: int| 2 <= y <= 6 && y != 3 ==> #[trigger] interior_tile(10, y) == TileKind::Wall,
        interior_tile(10, 3) == TileKind::Floor,
        interior_tile(10, 1) == TileKind::Floor,
        forall|y: int|
            8 <= y <= 13 && y != 10 ==> #[trigger] interior_tile(7, y) == TileKind::Wall
                && interior_tile(14, y) == TileKind::Wall,
        interior_tile(7, 10) == TileKind::Floor,
        interior_tile(14, 10) == TileKind::Floor,
{
}

/// The furniture of the house, and that the rest of each room is open
/// floor: couch (3, 3), TV (7, 5), counter (17, 3), table (13, 5), beds
/// (2, 12) and (12, 12), and Ben's bed with the gun at (17, 11).
pub proof fn lemma_interior_furniture_and_floor()
    ensures
        interior_tile(3, 3) == TileKind::FurnitureCouch,
        interior_tile(7, 5) == TileKind::FurnitureTv,
        interior_tile(17, 3) == TileKind::FurnitureCounter,
        interior_tile(13, 5) == TileKind::FurnitureTable,
        interior_tile(2, 12) == TileKind::FurnitureBed,
        interior_tile(12, 12) == TileKind::FurnitureBed,
        interior_tile(17, 11) == TileKind::FurnitureBedGun,
        forall|x: int, y: int|
            1 <= x <= 19 && 1 <= y <= 13 && y != 7 && !(x == 10 && 2 <= y <= 6) && !((x == 7
                || x == 14) && 8 <= y <= 13) && !(x == 3 && y == 3) && !(x == 7 && y == 5) && !(x
                == 17 && y == 3) && !(x == 13 && y == 5) && !((x == 2 || x == 12) && y == 12) && !(x
                == 17 && y == 11) ==> #[trigger] interior_tile(x, y) == TileKind::Floor,
{
}

/// The outdoor map, stated cell by cell: the path at y = 2 crosses the
/// whole map; each house has a roof row at y = 5 and a door row at y = 4
/// (wall, door, wall) over three columns starting at x = 2, 7 and 12, where
/// only Ben's door at (13, 4) is usable; sign posts stand at (3, 1) and
/// (8, 1); everything else on the map is grass, and off the map is wall.
pub proof fn lemma_outdoor_layout()
    ensures
        forall|x: int, y: int|
            !(0 <= x < 17 && 0 <= y < 7) ==> #[trigger] outdoor_tile(x, y) == TileKind::Wall,
        forall|x: int| 0 <= x < 17 ==> #[trigger] outdoor_tile(x, 2) == TileKind::Path,
        forall|x: int|
            (2 <= x <= 4 || 7 <= x <= 9 || 12 <= x <= 14) ==> #[trigger] outdoor_tile(x, 5)
                == TileKind::HouseWall,
        forall|x: int|
            (x == 2 || x == 4 || x == 7 || x == 9 || x == 12 || x == 14) ==> #[trigger] outdoor_tile(
                x,
                4,
            ) == TileKind::HouseWall,
        outdoor_tile(3, 4) == TileKind::DoorClosed,
        outdoor_tile(8, 4) == TileKind::DoorClosed,
        outdoor_tile(13, 4) == TileKind::DoorBen,
        outdoor_tile(3, 1) == TileKind::SignPost,
        outdoor_tile(8, 1) == TileKind::SignPost,
        forall|x: int, y: int|
            0 <= x < 17 && 0 <= y < 7 && y != 2 && !((y == 4 || y == 5) && (2 <= x <= 4 || 7 <= x
                <= 9 || 12 <= x <= 14)) && !(y == 1 && (x == 3 || x == 8)) ==> #[trigger] outdoor_tile(
                x,
                y,
            ) == TileKind::Grass,
{
}

/// Inside the house, a walk from the spawn that steps only on open floor
/// and around the family ends on `goal`, from where stepping `face`
/// reaches `target`.
pub open spec fn reachable_in_house(
    moves: Seq<Direction>,
    goal: GridPos,
    face: Direction,
    target: GridPos,
) -> bool {
    &&& walk_is_free(
        |x: int, y: int| interior_tile(x, y),
        family_positions(),
        interior_spawn(),
        moves,
        0,
    )
    &&& walk_end(interior_spawn(), moves, 0) == goal
    &&& goal.step(face) == target
}

/// The entrance row is clear: the player spawns on open floor, right
/// above the exit door.
pub proof fn lemma_interior_spawn_is_clear()
    ensures
        !interior_tile(interior_spawn().x as int, interior_spawn().y as int).blocks(),
        interior_spawn().step(Direction::Down) == exit_door_pos(),
        interior_tile(exit_door_pos().x as int, exit_door_pos().y as int) == TileKind::ExitDoor,
        !outdoor_tile(outdoor_spawn().x as int, outdoor_spawn().y as int).blocks(),
        !outdoor_tile(outdoor_return_pos().x as int, outdoor_return_pos().y as int).blocks(),
{
}

/// The signs stand on the sign posts of the outdoor map, and the family
/// and Ben (at the start of the ambush) stand on open floor.
pub proof fn lemma_actors_and_signs_are_placed_on_the_map()
    ensures
        outdoor_tile(NEIGHBOR1_X + 1, 1) == TileKind::SignPost,
        outdoor_tile(NEIGHBOR2_X + 1, 1) == TileKind::SignPost,
        forall|i: int|
            0 <= i < family_positions().len() ==> !interior_tile(
                #[trigger] family_positions()[i].x as int,
                family_positions()[i].y as int,
            ).blocks(),
        !interior_tile(ben_ambush_entry_pos().x as int, ben_ambush_entry_pos().y as int).blocks(),
{
    assert(!interior_tile(mom_pos().x as int, mom_pos().y as int).blocks());
    assert(!interior_tile(dad_pos().x as int, dad_pos().y as int).blocks());
    assert(!interior_tile(older_brother_pos().x as int, older_brother_pos().y as int).blocks());
    assert(!interior_tile(younger_brother_pos().x as int, younger_brother_pos().y as int).blocks());
}

/// The gun spot can be reached: from the spawn the player can walk,
/// around the family, to the tile just south of Ben's bed and face north
/// onto it.
pub proof fn lemma_gun_spot_reachable()
    ensures
        reachable_in_house(
            repeat(Direction::Right, 6) + repeat(Direction::Up, 5) + repeat(Direction::Left, 1)
                + repeat(Direction::Up, 2) + repeat(Direction::Right, 1) + repeat(Direction::Up, 2)
                + repeat(Direction::Right, 1),
            GridPos { x: 17, y: 10 },
            Direction::Up,
            gun_spot_pos(),
        ),
        interior_tile(gun_spot_pos().x as int, gun_spot_pos().y as int) == TileKind::FurnitureBedGun,
{
    let moves = repeat(Direction::Right, 6) + repeat(Direction::Up, 5) + repeat(Direction::Left, 1)
        + repeat(Direction::Up, 2) + repeat(Direction::Right, 1) + repeat(Direction::Up, 2)
        + repeat(Direction::Right, 1);
    assert(moves =~= seq![
        Direction::Right, Direction::Right, Direction::Right, Direction::Right, Direction::Right,
        Direction::Right, Direction::Up, Direction::Up, Direction::Up, Direction::Up, Direction::Up,
        Direction::Left, Direction::Up, Direction::Up, Direction::Right, Direction::Up,
        Direction::Up, Direction::Right,
    ]);
    reveal_with_fuel(walk_is_free, 19);
    reveal_with_fuel(walk_end, 19);
}

/// Every family member can be talked to: from the spawn the player can
/// walk to a tile next to each of them (Mom, Dad, the older and the
/// younger brother) and face them.
pub proof fn lemma_family_reachable()
    ensures
        reachable_in_house(
            repeat(Direction::Left, 6) + repeat(Direction::Up, 3),
            GridPos { x: 4, y: 4 },
            Direction::Right,
            mom_pos(),
        ),
        reachable_in_house(
            repeat(Direction::Right, 6) + repeat(Direction::Up, 3),
            GridPos { x: 16, y: 4 },
            Direction::Left,
            dad_pos(),
        ),
        reachable_in_house(
            repeat(Direction::Left, 6) + repeat(Direction::Up, 5) + repeat(Direction::Right, 1)
                + repeat(Direction::Up, 4) + repeat(Direction::Left, 1) + repeat(Direction::Up, 1),
            GridPos { x: 4, y: 11 },
            Direction::Left,
            older_brother_pos(),
        ),
        reachable_in_house(
            repeat(Direction::Left, 6) + repeat(Direction::Up, 5) + repeat(Direction::Right, 1)
                + repeat(Direction::Up, 4) + repeat(Direction::Right, 5),
            GridPos { x: 10, y: 10 },
            Direction::Up,
            younger_brother_pos(),
        ),
{
    let m1 = repeat(Direction::Left, 6) + repeat(Direction::Up, 3);
    assert(m1 =~= seq![
        Direction::Left, Direction::Left, Direction::Left, Direction::Left, Direction::Left,
        Direction::Left, Direction::Up, Direction::Up, Direction::Up,
    ]);
    let m2 = repeat(Direction::Right, 6) + repeat(Direction::Up, 3);
    assert(m2 =~= seq![
        Direction::Right, Direction::Right, Direction::Right, Direction::Right, Direction::Right,
        Direction::Right, Direction::Up, Direction::Up, Direction::Up,
    ]);
    let m3 = repeat(Direction::Left, 6) + repeat(Direction::Up, 5) + repeat(Direction::Right, 1)
        + repeat(Direction::Up, 4) + repeat(Direction::Left, 1) + repeat(Direction::Up, 1);
    assert(m3 =~= seq![
        Direction::Left, Direction::Left, Direction::Left, Direction::Left, Direction::Left,
        Direction::Left, Direction::Up, Direction::Up, Direction::Up, Direction::Up, Direction::Up,
        Direction::Right, Direction::Up, Direction::Up, Direction::Up, Direction::Up,
        Direction::Left, Direction::Up,
    ]);
    let m4 = repeat(Direction::Left, 6) + repeat(Direction::Up, 5) + repeat(Direction::Right, 1)
        + repeat(Direction::Up, 4) + repeat(Direction::Right, 5);
    assert(m4 =~= seq![
        Direction::Left, Direction::Left, Direction::Left, Direction::Left, Direction::Left,
        Direction::Left, Direction::Up, Direction::Up, Direction::Up, Direction::Up, Direction::Up,
        Direction::Right, Direction::Up, Direction::Up, Direction::Up, Direction::Up,
        Direction::Right, Direction::Right, Direction::Right, Direction::Right, Direction::Right,
    ]);
    reveal_with_fuel(walk_is_free, 22);
    reveal_with_fuel(walk_end, 22);
}

} // verus!
