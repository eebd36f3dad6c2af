//! What one frame of keyboard input asks of the viewer: quit, move the
//! camera or the cube by whole steps, or zoom by one degree.
use vstd::prelude::*;

verus! {

/// Narrowest vertical field of view, in degrees.
pub const FOV_MIN: u32 = 45;

/// Widest vertical field of view, in degrees.
pub const FOV_MAX: u32 = 120;

/// Field of view that the viewer starts with, in degrees.
pub const FOV_START: u32 = 90;

/// The keys held down (or, for `escape`, pressed) during one frame.
#[derive(Clone, Copy, Debug, PartialEq, Eq, Structural)]
pub struct Keys {
    pub escape: bool,
    /// Camera left.
    pub a: bool,
    /// Camera right.
    pub d: bool,
    /// Camera up.
    pub w: bool,
    /// Camera down.
    pub s: bool,
    /// Camera forward.
    pub q: bool,
    /// Camera backward.
    pub e: bool,
    /// Zoom in: narrow the field of view.
    pub z: bool,
    /// Zoom out: widen the field of view.
    pub x: bool,
    /// Camera forward, like `q`.
    pub r: bool,
    /// Camera backward, like `e`.
    pub f: bool,
    /// Cube left.
    pub left: bool,
    /// Cube right.
    pub right: bool,
    /// Cube up.
    pub up: bool,
    /// Cube down.
    pub down: bool,
}

/// The steps that one frame applies: each `camera_*` and `cube_*` field
/// counts signed steps of the camera's or the cube's speed along that axis.
#[derive(Clone, Copy, Debug, PartialEq, Eq, Structural)]
pub struct Motion {
    pub camera_x: i8,
    pub camera_y: i8,
    pub camera_z: i8,
    pub cube_x: i8,
    pub cube_y: i8,
    /// The field of view after this frame, in degrees.
    pub fov: u32,
}

/// 1 for a key that is down, 0 otherwise.
pub open spec fn held(k: bool) -> int {
    if k { 1 } else { 0 }
}

/// The field of view after one frame: zooming in takes a degree off, down
/// to `FOV_MIN`; zooming out then adds one, up to `FOV_MAX`.
pub open spec fn zoom_spec(fov: int, zoom_in: bool, zoom_out: bool) -> int {
    let narrowed = if zoom_in {
        if fov - 1 < FOV_MIN { FOV_MIN as int } else { fov - 1 }
    } else {
        fov
    };
    if zoom_out {
        if narrowed + 1 > FOV_MAX { FOV_MAX as int } else { narrowed + 1 }
    } else {
        narrowed
    }
}

/// The field of view after one frame with the zoom keys as given.
pub fn zoom(fov: u32, zoom_in: bool, zoom_out: bool) -> (r: u32)
    requires
        FOV_MIN <= fov <= FOV_MAX,
    ensures
        r == zoom_spec(fov as int, zoom_in, zoom_out),
        FOV_MIN <= r <= FOV_MAX,
{
    let mut f = fov;
    if zoom_in {
        f = f - 1;
        if f < FOV_MIN {
            f = FOV_MIN;
        }
    }
    if zoom_out {
        f = f + 1;
        if f > FOV_MAX {
            f = FOV_MAX;
        }
    }
    f
}

fn axis_steps(plus: bool, minus: bool) -> (r: i8)
    ensures
        r == held(plus) - held(minus),
{
    let mut r: i8 = 0;
    if plus {
        r = r + 1;
    }
    if minus {
        r = r - 1;
    }
    r
}

/// What a frame with `keys` does from a field of view of `fov` degrees:
/// `None` when escape asks to quit, in which case nothing else happens;
/// otherwise the steps that the held keys ask for and the new field of view.
pub fn react(keys: &Keys, fov: u32) -> (r: Option<Motion>)
    requires
        FOV_MIN <= fov <= FOV_MAX,
    ensures
        r is None <==> keys.escape,
        r matches Some(m) ==> {
            &&& m.camera_x == held(keys.d) - held(keys.a)
            &&& m.camera_y == held(keys.w) - held(keys.s)
            &&& m.camera_z == held(keys.q) + held(keys.r) - held(keys.e) - held(keys.f)
            &&& m.cube_x == held(keys.right) - held(keys.left)
            &&& m.cube_y == held(keys.up) - held(keys.down)
            &&& m.fov == zoom_spec(fov as int, keys.z, keys.x)
            &&& FOV_MIN <= m.fov <= FOV_MAX
        },
{
    if keys.escape {
        return None;
    }
    let forward = axis_steps(keys.q, keys.e);
    let forward_again = axis_steps(keys.r, keys.f);
    Some(
        Motion {
            camera_x: axis_steps(keys.d, keys.a),
            camera_y: axis_steps(keys.w, keys.s),
            camera_z: forward + forward_again,
            cube_x: axis_steps(keys.right, keys.left),
            cube_y: axis_steps(keys.up, keys.down),
            fov: zoom(fov, keys.z, keys.x),
        },
    )
}

} // verus!
