use crate::motion::Vector3;
use vstd::prelude::*;

verus! {

/// How the camera follows the player.
#[derive(Clone, Copy, Debug, PartialEq, Eq, Default, Structural)]
pub enum CameraMode {
    #[default]
    Fixed,
    Free,
    Follow,
}

impl CameraMode {
    /// One mode up: every mode goes to `Free`.
    pub fn shift_up(&self) -> (r: CameraMode)
        ensures
            r == CameraMode::Free,
    {
        match self {
            CameraMode::Fixed => CameraMode::Free,
            CameraMode::Free => CameraMode::Free,
            CameraMode::Follow => CameraMode::Free,
        }
    }

    /// One mode down: every mode goes to `Follow`.
    pub fn shift_down(&self) -> (r: CameraMode)
        ensures
            r == CameraMode::Follow,
    {
        match self {
            CameraMode::Fixed => CameraMode::Follow,
            CameraMode::Free => CameraMode::Follow,
            CameraMode::Follow => CameraMode::Follow,
        }
    }
}

/// Rust's `%` on integers: the remainder takes the sign of the dividend.
pub open spec fn rem_toward_zero(a: int, d: int) -> int {
    if a >= 0 { a % d } else { -((-a) % d) }
}

/// Fixed-mode angle snapping, in whole degrees: a remainder of at most 22
/// degrees past a multiple of 45 (negative remainders included) is dropped,
/// a larger one rounds up to the next multiple.
pub open spec fn snapped_angle(angle: int) -> int {
    let d = rem_toward_zero(angle, 45);
    if d <= 22 { angle - d } else { angle + (45 - d) }
}

pub fn snap_fixed_angle(angle: i16) -> (r: i16)
    ensures
        r == snapped_angle(angle as int),
{
    let d: i16 = if angle >= 0 { angle % 45 } else { -(((-(angle as i32)) % 45) as i16) };
    if d <= 22 {
        angle - d
    } else {
        angle + (45 - d)
    }
}

/// Rust's `/` on integers: the quotient is rounded toward zero.
pub open spec fn div_toward_zero(a: int, d: int) -> int {
    if a >= 0 { a / d } else { -((-a) / d) }
}

fn div_thousand(a: i64) -> (r: i64)
    requires
        -4_000_000_000 <= a <= 4_000_000_000,
    ensures
        r == div_toward_zero(a as int, 1000),
        -4_000_000 <= r <= 4_000_000,
{
    if a >= 0 { a / 1000 } else { -((-a) / 1000) }
}

/// A horizontal direction from camera-relative stick axes: `x` along the
/// camera's right, `z` along its forward, both flattened onto the ground.
/// Axes and basis components are in thousandths.
pub open spec fn camera_space_direction(forward: Vector3, right: Vector3, x: int, z: int) -> Vector3 {
    Vector3 {
        x: div_toward_zero(x * right.x + z * forward.x, 1000) as i32,
        y: 0,
        z: div_toward_zero(x * right.z + z * forward.z, 1000) as i32,
    }
}

pub open spec fn unit_bounded(v: Vector3) -> bool {
    -1000 <= v.x <= 1000 && -1000 <= v.y <= 1000 && -1000 <= v.z <= 1000
}

/// What the player's movement needs from the camera: its position and its
/// forward and right directions, components in thousandths.
#[derive(Clone, Copy, Debug)]
pub struct CameraData {
    pub camera_position: Vector3,
    pub forward: Vector3,
    pub right: Vector3,
    pub camera_id: Option<u64>,
}

impl CameraData {
    pub fn translate_direction_in_camera_space(&self, x: i32, z: i32) -> (r: Vector3)
        requires
            unit_bounded(self.forward),
            unit_bounded(self.right),
            -1000 <= x <= 1000,
            -1000 <= z <= 1000,
        ensures
            r == camera_space_direction(self.forward, self.right, x as int, z as int),
    {
        let (x, z, fx, fz, rx, rz) = (x as i64, z as i64, self.forward.x as i64, self.forward.z as i64, self.right.x as i64, self.right.z as i64);
        assert(-1_000_000 <= x * rx <= 1_000_000) by (nonlinear_arith)
            requires -1000 <= x <= 1000, -1000 <= rx <= 1000;
        assert(-1_000_000 <= z * fx <= 1_000_000) by (nonlinear_arith)
            requires -1000 <= z <= 1000, -1000 <= fx <= 1000;
        assert(-1_000_000 <= x * rz <= 1_000_000) by (nonlinear_arith)
            requires -1000 <= x <= 1000, -1000 <= rz <= 1000;
        assert(-1_000_000 <= z * fz <= 1_000_000) by (nonlinear_arith)
            requires -1000 <= z <= 1000, -1000 <= fz <= 1000;
        let dx = div_thousand(x * rx + z * fx);
        let dz = div_thousand(x * rz + z * fz);
        Vector3 { x: dx as i32, y: 0, z: dz as i32 }
    }
}

} // verus!
