use vstd::prelude::*;
use vstd::std_specs::cmp::{PartialOrdIs, PartialOrdSpec};

verus! {

/// `x` limited to the closed range `[min, max]` under the order of `T`.
pub open spec fn clamp_spec<T: PartialOrd>(x: T, min: T, max: T) -> T {
    if x.is_lt(&min) {
        min
    } else if x.is_gt(&max) {
        max
    } else {
        x
    }
}

/// Returns `min` when `x < min`, `max` when `x > max`, and `x` otherwise.
pub fn clamp<T: PartialOrd>(x: T, min: T, max: T) -> (r: T)
    ensures
        T::obeys_partial_cmp_spec() ==> r == clamp_spec(x, min, max),
        r == x || r == min || r == max,
{
    if x < min {
        min
    } else if x > max {
        max
    } else {
        x
    }
}


/// `t` lies strictly inside the open interval `(t_min, t_max)`.
pub open spec fn in_open<T: PartialOrd>(t: T, t_min: T, t_max: T) -> bool {
    t.is_lt(&t_max) && t.is_gt(&t_min)
}

/// The root accepted by the near-root-first policy: the smaller root when it
/// lies in `(t_min, t_max)`, else the larger one when it does, else none.
pub open spec fn first_root_spec<T: PartialOrd>(near: T, far: T, t_min: T, t_max: T) -> Option<T> {
    if in_open(near, t_min, t_max) {
        Some(near)
    } else if in_open(far, t_min, t_max) {
        Some(far)
    } else {
        None
    }
}

/// Picks which of the two roots of a ray/sphere quadratic is the visible hit.
/// `near` is the smaller root and is tried first; a root counts only when it
/// lies strictly between `t_min` and `t_max`.
pub fn first_root_in<T: PartialOrd>(near: T, far: T, t_min: &T, t_max: &T) -> (r: Option<T>)
    ensures
        T::obeys_partial_cmp_spec() ==> r == first_root_spec(near, far, *t_min, *t_max),
        r == Some(near) || r == Some(far) || r is None,
{
    if near < *t_max && near > *t_min {
        Some(near)
    } else if far < *t_max && far > *t_min {
        Some(far)
    } else {
        None
    }
}

/// What a dielectric surface does with a ray: `Some(refracted)` when refraction
/// is possible and the uniform draw is at least the Fresnel reflectance, `None`
/// (reflect) otherwise.
pub open spec fn refract_or_reflect_spec<V, T: PartialOrd>(
    refracted: Option<V>,
    draw: T,
    reflectance: T,
) -> Option<V> {
    match refracted {
        Some(v) => if draw.is_ge(&reflectance) {
            Some(v)
        } else {
            None
        },
        None => None,
    }
}

/// Decides between refraction and reflection at a dielectric boundary.
/// `refracted` is the refracted direction, or `None` under total internal
/// reflection; `draw` is a uniform number in `[0, 1)` and `reflectance` the
/// Schlick reflectance. Returns the refracted direction to follow, or `None`
/// when the ray is to be reflected. Under total internal reflection the ray is
/// always reflected, whatever the draw.
pub fn refract_or_reflect<V, T: PartialOrd>(refracted: Option<V>, draw: T, reflectance: T) -> (r:
    Option<V>)
    ensures
        refracted is None ==> r is None,
        r is Some ==> r == refracted,
        T::obeys_partial_cmp_spec() ==> r == refract_or_reflect_spec(refracted, draw, reflectance),
{
    match refracted {
        Some(v) => {
            if draw >= reflectance {
                Some(v)
            } else {
                None
            }
        },
        None => None,
    }
}


/// A root accepted under the bounds `(t_min, t_max)` lies strictly inside
/// them. Passing the accepted root on as the next upper bound therefore lets a
/// later candidate replace it only with a root that is strictly nearer.
pub proof fn lemma_accepted_root_in_bounds<T: PartialOrd>(near: T, far: T, t_min: T, t_max: T)
    requires
        T::obeys_partial_cmp_spec(),
        first_root_spec(near, far, t_min, t_max) is Some,
    ensures
        in_open(first_root_spec(near, far, t_min, t_max)->Some_0, t_min, t_max),
{
}

} // verus!
