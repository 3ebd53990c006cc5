//! The four bounding-box walls and their geometry sync.
//!
//! Each wall carries an explicit identity tag, so geometry updates never
//! re-derive which wall is which from its current position.  The sync is
//! edge-triggered: it stores the configuration snapshot the geometry was
//! last computed from and recomputes only when the snapshot differs.
//!
//! Convention: left/right walls sit on the horizontal axis, top/bottom
//! walls on the vertical axis.

use vstd::prelude::*;
use crate::config::Configuration;
use crate::math::Vec2;

verus! {

/// Wall thickness, in milli-units: 5 world units.
pub const BOUNDING_BOX_THICKNESS: i64 = 5_000;

/// Which of the four walls a piece of geometry is, fixed at creation.
#[derive(Clone, Copy, Debug, PartialEq, Eq, Structural)]
pub enum BoundingBoxLocation {
    Left,
    Right,
    Bottom,
    Top,
}

/// Center position (milli-units) of a wall under `config`, as
/// `(x, y)`.  Side walls sit at a quarter of the box width from the center,
/// top and bottom walls at a quarter of its height.
pub open spec fn wall_position(loc: BoundingBoxLocation, config: Configuration) -> (int, int) {
    match loc {
        BoundingBoxLocation::Left => (-(config.bounding_half_extents.x / 2), 0),
        BoundingBoxLocation::Right => (config.bounding_half_extents.x / 2, 0),
        BoundingBoxLocation::Bottom => (0, -(config.bounding_half_extents.y / 2)),
        BoundingBoxLocation::Top => (0, config.bounding_half_extents.y / 2),
    }
}

/// Size (milli-units) of a wall under `config`, as `(width, height)`:
/// side walls span the box height plus the thickness, top and bottom walls
/// the box width plus the thickness.
pub open spec fn wall_size(loc: BoundingBoxLocation, config: Configuration) -> (int, int) {
    match loc {
        BoundingBoxLocation::Left | BoundingBoxLocation::Right => (
            BOUNDING_BOX_THICKNESS as int,
            2 * config.bounding_half_extents.y + BOUNDING_BOX_THICKNESS,
        ),
        BoundingBoxLocation::Bottom | BoundingBoxLocation::Top => (
            2 * config.bounding_half_extents.x + BOUNDING_BOX_THICKNESS,
            BOUNDING_BOX_THICKNESS as int,
        ),
    }
}

impl BoundingBoxLocation {
    /// Computes [`wall_position`] on machine integers.
    pub fn position(&self, config: &Configuration) -> (r: Vec2)
        requires
            config.wf(),
        ensures
            r.x == wall_position(*self, *config).0,
            r.y == wall_position(*self, *config).1,
    {
        match self {
            BoundingBoxLocation::Left => Vec2 { x: -(config.bounding_half_extents.x / 2), y: 0 },
            BoundingBoxLocation::Right => Vec2 { x: config.bounding_half_extents.x / 2, y: 0 },
            BoundingBoxLocation::Bottom => Vec2 { x: 0, y: -(config.bounding_half_extents.y / 2) },
            BoundingBoxLocation::Top => Vec2 { x: 0, y: config.bounding_half_extents.y / 2 },
        }
    }

    /// Computes [`wall_size`] on machine integers.
    pub fn size(&self, config: &Configuration) -> (r: Vec2)
        requires
            config.wf(),
        ensures
            r.x == wall_size(*self, *config).0,
            r.y == wall_size(*self, *config).1,
    {
        match self {
            BoundingBoxLocation::Left | BoundingBoxLocation::Right => Vec2 {
                x: BOUNDING_BOX_THICKNESS,
                y: 2 * config.bounding_half_extents.y + BOUNDING_BOX_THICKNESS,
            },
            BoundingBoxLocation::Bottom | BoundingBoxLocation::Top => Vec2 {
                x: 2 * config.bounding_half_extents.x + BOUNDING_BOX_THICKNESS,
                y: BOUNDING_BOX_THICKNESS,
            },
        }
    }
}

/// One wall: its identity tag, and its derived position and size, which
/// are recomputed from the configuration and never independently
/// authoritative.
#[derive(Clone, Copy, Debug, PartialEq, Eq, Structural)]
pub struct Wall {
    pub location: BoundingBoxLocation,
    pub position: Vec2,
    pub size: Vec2,
}

/// The wall's geometry equals what its tag derives from `config`.
pub open spec fn wall_matches(w: Wall, config: Configuration) -> bool {
    &&& w.position.x == wall_position(w.location, config).0
    &&& w.position.y == wall_position(w.location, config).1
    &&& w.size.x == wall_size(w.location, config).0
    &&& w.size.y == wall_size(w.location, config).1
}

impl Wall {
    /// Builds one wall with geometry derived from `config`.
    pub fn new(location: BoundingBoxLocation, config: &Configuration) -> (w: Wall)
        requires
            config.wf(),
        ensures
            w.location == location,
            wall_matches(w, *config),
    {
        Wall { location, position: location.position(config), size: location.size(config) }
    }
}

/// The four walls, plus the configuration snapshot their geometry was last
/// computed from.  The snapshot is the explicit change-detection state of
/// the geometry sync.
#[derive(Clone, Copy, Debug, PartialEq, Eq, Structural)]
pub struct BoundingBox {
    pub left: Wall,
    pub right: Wall,
    pub bottom: Wall,
    pub top: Wall,
    /// The snapshot the current geometry was derived from.
    pub applied: Configuration,
}

impl BoundingBox {
    /// Each wall carries its own tag and geometry derived from the stored
    /// snapshot, and the snapshot is in range.
    pub open spec fn wf(self) -> bool {
        &&& self.applied.wf()
        &&& self.left.location == BoundingBoxLocation::Left
        &&& self.right.location == BoundingBoxLocation::Right
        &&& self.bottom.location == BoundingBoxLocation::Bottom
        &&& self.top.location == BoundingBoxLocation::Top
        &&& wall_matches(self.left, self.applied)
        &&& wall_matches(self.right, self.applied)
        &&& wall_matches(self.bottom, self.applied)
        &&& wall_matches(self.top, self.applied)
    }

    /// Builds the four walls once at startup from the initial configuration.
    pub fn new(config: &Configuration) -> (b: BoundingBox)
        requires
            config.wf(),
        ensures
            b.wf(),
            b.applied == *config,
    {
        BoundingBox {
            left: Wall::new(BoundingBoxLocation::Left, config),
            right: Wall::new(BoundingBoxLocation::Right, config),
            bottom: Wall::new(BoundingBoxLocation::Bottom, config),
            top: Wall::new(BoundingBoxLocation::Top, config),
            applied: *config,
        }
    }

    /// Boundary geometry sync: recomputes every wall's position and size,
    /// but only when the configuration differs from the stored snapshot.
    /// A call under an unchanged configuration leaves the state bit-for-bit
    /// as it was.
    pub fn update_bounding_box_dimensions(&mut self, config: &Configuration)
        requires
            old(self).wf(),
            config.wf(),
        ensures
            final(self).wf(),
            final(self).applied == *config,
            old(self).applied == *config ==> *final(self) == *old(self),
    {
        if self.applied == *config {
            return ;
        }
        self.left = Wall::new(BoundingBoxLocation::Left, config);
        self.right = Wall::new(BoundingBoxLocation::Right, config);
        self.bottom = Wall::new(BoundingBoxLocation::Bottom, config);
        self.top = Wall::new(BoundingBoxLocation::Top, config);
        self.applied = *config;
    }
}

/// Geometry sync is idempotent: its contract pins every field of the
/// resulting state, so any two well-formed states synced to the same
/// configuration are equal — in particular, a second sync under an
/// unchanged configuration can change nothing.
pub proof fn lemma_sync_deterministic(a: BoundingBox, b: BoundingBox, config: Configuration)
    requires
        a.wf(),
        b.wf(),
        a.applied == config,
        b.applied == config,
    ensures
        a == b,
{
    assert(a.left == b.left);
    assert(a.right == b.right);
    assert(a.bottom == b.bottom);
    assert(a.top == b.top);
}

} // verus!
