use vstd::prelude::*;

verus! {

/// Milli-units in one field unit.
pub const UNIT: i64 = 1000;

/// Height of the play field.
pub const FIELD_HEIGHT: i64 = 640_000;

/// Half of the play field's height.
pub const HALF_FIELD_HEIGHT: i64 = 320_000;

/// Width of the play field.
pub const FIELD_WIDTH: i64 = 480_000;

/// Height of the ground strip along the bottom edge.
pub const GROUND_HEIGHT: i64 = 40_000;

/// Vertical center of the ground strip: half its height above the bottom edge.
pub const GROUND_Y: i64 = -300_000;

/// An axis-aligned box that the player is tested against: the ground, or one
/// half of an obstacle pair. It is given by its center and its size.
#[derive(Clone, Copy, Debug, PartialEq, Eq, Structural)]
pub struct Collider {
    pub x: i64,
    pub y: i64,
    pub width: i64,
    pub height: i64,
}

impl Collider {
    /// A box has no negative extent.
    pub open spec fn wf(self) -> bool {
        self.width >= 0 && self.height >= 0
    }
}

/// The two boxes overlap on both axes, with the edges compared strictly
/// (boxes that only touch do not collide). Doubled coordinates keep the
/// half sizes exact.
pub open spec fn overlaps(a: Collider, b: Collider) -> bool {
    &&& 2 * a.x - a.width < 2 * b.x + b.width
    &&& 2 * a.x + a.width > 2 * b.x - b.width
    &&& 2 * a.y - a.height < 2 * b.y + b.height
    &&& 2 * a.y + a.height > 2 * b.y - b.height
}

/// Whether the two boxes overlap.
pub fn collide(a: &Collider, b: &Collider) -> (r: bool)
    ensures
        r == overlaps(*a, *b),
{
    let ax = 2 * (a.x as i128);
    let ay = 2 * (a.y as i128);
    let bx = 2 * (b.x as i128);
    let by = 2 * (b.y as i128);
    let aw = a.width as i128;
    let ah = a.height as i128;
    let bw = b.width as i128;
    let bh = b.height as i128;
    ax - aw < bx + bw && ax + aw > bx - bw && ay - ah < by + bh && ay + ah > by - bh
}

/// The ground's box: a strip as wide as the field along its bottom edge.
pub open spec fn ground_box() -> Collider {
    Collider { x: 0, y: GROUND_Y, width: FIELD_WIDTH, height: GROUND_HEIGHT }
}

/// The ground: a strip as wide as the field along its bottom edge.
pub fn ground() -> (g: Collider)
    ensures
        g == ground_box(),
        g.wf(),
{
    Collider { x: 0, y: GROUND_Y, width: FIELD_WIDTH, height: GROUND_HEIGHT }
}

} // verus!
