use vstd::prelude::*;

verus! {

/// A unit sign: -1 or 1.
pub open spec fn is_sign(s: i8) -> bool {
    s == -1 || s == 1
}

/// The normal of an axis-aligned box at a hit point, from which faces the
/// point lies on (`on_x`: within ε of the half-extent on x, and so on) and the
/// sign of the point's offset from the center on each axis. The x face wins
/// over y, and y over z; on none of them the normal is zero.
pub open spec fn box_normal_of(
    on_x: bool,
    on_y: bool,
    on_z: bool,
    sign_x: i8,
    sign_y: i8,
    sign_z: i8,
) -> (i8, i8, i8) {
    if on_x {
        (sign_x, 0i8, 0i8)
    } else if on_y {
        (0i8, sign_y, 0i8)
    } else if on_z {
        (0i8, 0i8, sign_z)
    } else {
        (0i8, 0i8, 0i8)
    }
}

/// The normal of an axis-aligned box at a hit point; see `box_normal_of`.
pub fn box_normal(on_x: bool, on_y: bool, on_z: bool, sign_x: i8, sign_y: i8, sign_z: i8) -> (n: (
    i8,
    i8,
    i8,
))
    ensures
        n == box_normal_of(on_x, on_y, on_z, sign_x, sign_y, sign_z),
{
    if on_x {
        (sign_x, 0, 0)
    } else if on_y {
        (0, sign_y, 0)
    } else if on_z {
        (0, 0, sign_z)
    } else {
        (0, 0, 0)
    }
}

/// A box normal is either zero or a unit vector along one axis.
pub proof fn lemma_box_normal_unit_or_zero(
    on_x: bool,
    on_y: bool,
    on_z: bool,
    sign_x: i8,
    sign_y: i8,
    sign_z: i8,
)
    requires
        is_sign(sign_x),
        is_sign(sign_y),
        is_sign(sign_z),
    ensures
        ({
            let n = box_normal_of(on_x, on_y, on_z, sign_x, sign_y, sign_z);
            n.0 * n.0 + n.1 * n.1 + n.2 * n.2 == if on_x || on_y || on_z {
                1int
            } else {
                0int
            }
        }),
{
    assert(sign_x * sign_x == 1 && sign_y * sign_y == 1 && sign_z * sign_z == 1) by (nonlinear_arith)
        requires
            is_sign(sign_x),
            is_sign(sign_y),
            is_sign(sign_z),
    ;
}

/// Which ray parameter of a box's slab interval is the hit.
#[derive(Clone, Copy, Debug, PartialEq, Eq, Structural)]
pub enum BoxHit {
    /// The ray misses the box.
    Miss,
    /// The ray hits where it enters the box (the interval's lower end).
    Entry,
    /// The ray starts inside the box and hits where it leaves (the upper end).
    Exit,
}

/// The hit on a box, from the slab interval `[t_min, t_max]`: `empty` when
/// `t_min > t_max`, `behind` when `t_max < 0`, `inside` when `t_min < 0`.
pub open spec fn box_hit_of(empty: bool, behind: bool, inside: bool) -> BoxHit {
    if empty || behind {
        BoxHit::Miss
    } else if inside {
        BoxHit::Exit
    } else {
        BoxHit::Entry
    }
}

/// The hit on a box; see `box_hit_of`.
pub fn box_hit(empty: bool, behind: bool, inside: bool) -> (h: BoxHit)
    ensures
        h == box_hit_of(empty, behind, inside),
{
    if empty || behind {
        BoxHit::Miss
    } else if inside {
        BoxHit::Exit
    } else {
        BoxHit::Entry
    }
}

/// Which root of a sphere's quadratic is the hit.
#[derive(Clone, Copy, Debug, PartialEq, Eq, Structural)]
pub enum SphereRoot {
    /// The nearer root, `tca - thc`.
    Near,
    /// The farther root, `tca + thc`.
    Far,
}

/// The hit on a sphere: none where the ray's closest approach to the center
/// exceeds the radius (`reaches` false); else the nearer root where it lies
/// past ε along the ray, else the farther one where it does, else none.
pub open spec fn sphere_root_of(reaches: bool, near_ahead: bool, far_ahead: bool) -> Option<
    SphereRoot,
> {
    if !reaches {
        None
    } else if near_ahead {
        Some(SphereRoot::Near)
    } else if far_ahead {
        Some(SphereRoot::Far)
    } else {
        None
    }
}

/// The hit on a sphere; see `sphere_root_of`.
pub fn sphere_root(reaches: bool, near_ahead: bool, far_ahead: bool) -> (r: Option<SphereRoot>)
    ensures
        r == sphere_root_of(reaches, near_ahead, far_ahead),
{
    if !reaches {
        None
    } else if near_ahead {
        Some(SphereRoot::Near)
    } else if far_ahead {
        Some(SphereRoot::Far)
    } else {
        None
    }
}

/// Whether a ray hits a triangle (Möller–Trumbore): the ray is not parallel to
/// the plane (`parallel`: the determinant's magnitude is under ε), the
/// barycentric coordinates satisfy `0 <= u <= 1`, `v >= 0` and `u + v <= 1`,
/// and the hit lies past ε along the ray.
pub open spec fn triangle_hit_of(
    parallel: bool,
    u_in_unit: bool,
    v_nonnegative: bool,
    sum_within_one: bool,
    ahead: bool,
) -> bool {
    !parallel && u_in_unit && v_nonnegative && sum_within_one && ahead
}

/// Whether a ray hits a triangle; see `triangle_hit_of`.
pub fn triangle_hit(
    parallel: bool,
    u_in_unit: bool,
    v_nonnegative: bool,
    sum_within_one: bool,
    ahead: bool,
) -> (h: bool)
    ensures
        h == triangle_hit_of(parallel, u_in_unit, v_nonnegative, sum_within_one, ahead),
{
    !parallel && u_in_unit && v_nonnegative && sum_within_one && ahead
}

} // verus!
