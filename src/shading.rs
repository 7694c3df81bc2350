use vstd::prelude::*;

verus! {

/// The deepest recursion level at which a ray is still shaded; a ray cast
/// deeper than this gets the background color.
pub const MAX_DEPTH: u8 = 4;

/// What the shading engine does with a ray.
#[derive(Clone, Copy, Debug, PartialEq, Eq, Structural)]
pub enum RayStep {
    /// The ray gets the background color.
    Background,
    /// The hit is shaded, and its reflection and refraction rays are cast at
    /// `child_depth`.
    Shade { child_depth: u8 },
}

/// The step for a ray cast at `depth` whose scene query found a hit or not.
pub open spec fn step_of(depth: u8, hit: bool) -> RayStep {
    if depth > MAX_DEPTH || !hit {
        RayStep::Background
    } else {
        RayStep::Shade { child_depth: (depth + 1) as u8 }
    }
}

/// How many nested levels shade a hit when a ray is cast at `depth` and the
/// rays of the successive levels hit or miss as `hits` says.
pub open spec fn shading_levels(depth: u8, hits: Seq<bool>) -> nat
    decreases hits.len(),
{
    if hits.len() == 0 {
        0
    } else {
        match step_of(depth, hits[0]) {
            RayStep::Background => 0,
            RayStep::Shade { child_depth } => 1 + shading_levels(child_depth, hits.drop_first()),
        }
    }
}

/// Decides what becomes of a ray cast at `depth`: past the depth cap, or
/// without a hit, it gets the background color; otherwise its hit is shaded
/// and its secondary rays are cast one level deeper.
pub fn ray_step(depth: u8, hit: bool) -> (s: RayStep)
    ensures
        s == step_of(depth, hit),
{
    if depth > MAX_DEPTH || !hit {
        RayStep::Background
    } else {
        RayStep::Shade { child_depth: depth + 1 }
    }
}

/// Recursion ends: whatever the scene, and so whatever its rays hit, a ray
/// cast at `depth` leads to at most `MAX_DEPTH + 1 - depth` nested levels that
/// shade a hit, and to none past the cap; a primary ray, cast at depth 0, to at
/// most `MAX_DEPTH + 1`.
pub proof fn lemma_recursion_bounded(depth: u8, hits: Seq<bool>)
    ensures
        depth > MAX_DEPTH ==> shading_levels(depth, hits) == 0,
        depth <= MAX_DEPTH ==> shading_levels(depth, hits) <= MAX_DEPTH + 1 - depth,
    decreases hits.len(),
{
    if hits.len() > 0 {
        if let RayStep::Shade { child_depth } = step_of(depth, hits[0]) {
            lemma_recursion_bounded(child_depth, hits.drop_first());
        }
    }
}

/// A light is blocked at a surface point where the shadow ray toward it hits
/// something closer than the light.
pub fn light_blocked(shadow_hit: bool, hit_before_light: bool) -> (b: bool)
    ensures
        b == (shadow_hit && hit_before_light),
{
    shadow_hit && hit_before_light
}

/// The indices, in order, of the lights that are not blocked.
pub open spec fn lit_indices(blocked: Seq<bool>) -> Seq<usize>
    decreases blocked.len(),
{
    if blocked.len() == 0 {
        Seq::empty()
    } else if blocked.last() {
        lit_indices(blocked.drop_last())
    } else {
        lit_indices(blocked.drop_last()).push((blocked.len() - 1) as usize)
    }
}

/// The lights that contribute diffuse and specular light at a surface point:
/// the indices, in order, of those that `blocked` does not mark.
pub fn lit_lights(blocked: &Vec<bool>) -> (lit: Vec<usize>)
    ensures
        lit@ == lit_indices(blocked@),
{
    let mut lit: Vec<usize> = Vec::new();
    let mut i: usize = 0;
    while i < blocked.len()
        invariant
            i <= blocked.len(),
            lit@ == lit_indices(blocked@.take(i as int)),
        decreases blocked.len() - i,
    {
        assert(blocked@.take(i as int + 1).drop_last() =~= blocked@.take(i as int));
        if !blocked[i] {
            lit.push(i);
        }
        i += 1;
    }
    assert(blocked@.take(blocked.len() as int) =~= blocked@);
    lit
}

/// A blocked light contributes nothing: the lights that contribute at a point
/// are exactly those that are not blocked there, each once.
pub proof fn lemma_blocked_lights_excluded(blocked: Seq<bool>)
    requires
        blocked.len() <= usize::MAX,
    ensures
        forall|k: int| 0 <= k < lit_indices(blocked).len() ==> #[trigger] lit_indices(blocked)[k] < blocked.len(),
        forall|j: int|
            0 <= j < blocked.len() ==> (lit_indices(blocked).contains(j as usize) <==> !#[trigger] blocked[j]),
        lit_indices(blocked).no_duplicates(),
    decreases blocked.len(),
{
    if blocked.len() > 0 {
        let rest = blocked.drop_last();
        let last = (blocked.len() - 1) as usize;
        lemma_blocked_lights_excluded(rest);
        let lit = lit_indices(blocked);
        let lit_rest = lit_indices(rest);
        assert forall|j: int| 0 <= j < blocked.len() implies (lit.contains(j as usize) <==> !blocked[j]) by {
            if j < rest.len() {
                assert(rest[j] == blocked[j]);
                if !blocked.last() {
                    assert(lit.contains(j as usize) ==> lit_rest.contains(j as usize) || j as usize == last);
                    if lit_rest.contains(j as usize) {
                        let k = choose|k: int| 0 <= k < lit_rest.len() && lit_rest[k] == j as usize;
                        assert(lit[k] == j as usize);
                    }
                }
            } else if !blocked[j] {
                assert(lit[lit.len() - 1] == last);
            } else {
                assert(lit == lit_rest);
            }
        }
    }
}

/// Which side of a surface a new ray starts on: where its direction points
/// against the normal (`against_normal`), its origin moves by -ε along the
/// normal; otherwise by +ε.
pub fn offset_sign(against_normal: bool) -> (s: i8)
    ensures
        s == (if against_normal { -1i8 } else { 1i8 }),
{
    if against_normal {
        -1
    } else {
        1
    }
}

/// What refraction does at a hit.
#[derive(Clone, Copy, Debug, PartialEq, Eq, Structural)]
pub enum Refraction {
    /// Total internal reflection: the refraction contribution is black.
    Dropped,
    /// A refraction ray is cast; where the ray leaves the surface
    /// (`exiting`), the indices were swapped and the normal is flipped.
    Transmit { exiting: bool },
}

/// The refraction at a hit, from whether the ray leaves the surface (its
/// incidence cosine was negative) and whether Snell's discriminant is
/// negative.
pub open spec fn refraction_of(exiting: bool, total_internal: bool) -> Refraction {
    if total_internal {
        Refraction::Dropped
    } else {
        Refraction::Transmit { exiting }
    }
}

/// The refraction at a hit; see `refraction_of`.
pub fn refraction_outcome(exiting: bool, total_internal: bool) -> (r: Refraction)
    ensures
        r == refraction_of(exiting, total_internal),
{
    if total_internal {
        Refraction::Dropped
    } else {
        Refraction::Transmit { exiting }
    }
}

} // verus!
