use vstd::prelude::*;

verus! {

/// What the scene and the material hit by a ray make of it.
pub enum Bounce<C, R> {
    /// The ray left the scene; the value is the background radiance along it.
    Escaped(C),
    /// The ray hit a surface that absorbed it.
    Absorbed,
    /// The ray hit a surface and scattered into the ray, attenuated by the color.
    Scattered(C, R),
}

/// `color` is a radiance that tracing `ray` with a budget of `depth` bounces
/// can produce, where `bounces(x, b)` says that `b` is a possible outcome of
/// sending ray `x` into the scene and `attenuates(a, c, r)` that `r` is a
/// possible result of attenuating radiance `c` by `a`: zero budget or an
/// absorbing surface give `black`, a ray that escapes gives its background,
/// and a scattered ray gives its attenuation applied to what tracing the
/// scattered ray with one bounce less gives.
pub open spec fn traced<C, R>(
    bounces: spec_fn(R, Bounce<C, R>) -> bool,
    attenuates: spec_fn(C, C, C) -> bool,
    black: C,
    ray: R,
    depth: nat,
    color: C,
) -> bool
    decreases depth,
{
    if depth == 0 {
        color == black
    } else {
        exists|b: Bounce<C, R>|
            #[trigger] bounces(ray, b) && match b {
                Bounce::Escaped(c) => color == c,
                Bounce::Absorbed => color == black,
                Bounce::Scattered(a, s) => exists|c: C|
                    #![trigger attenuates(a, c, color)]
                    traced(bounces, attenuates, black, s, (depth - 1) as nat, c)
                        && attenuates(a, c, color),
            }
    }
}

/// The outcomes that `bounce` may give, as a relation.
pub open spec fn bounce_outcomes<C, R, F: Fn(&R) -> Bounce<C, R>>(bounce: F) -> spec_fn(
    R,
    Bounce<C, R>,
) -> bool {
    |x: R, b: Bounce<C, R>| bounce.ensures((&x,), b)
}

/// The results that `attenuate` may give, as a relation.
pub open spec fn attenuation_results<C, M: Fn(C, C) -> C>(attenuate: M) -> spec_fn(C, C, C) -> bool {
    |a: C, c: C, r: C| attenuate.ensures((a, c), r)
}

/// Estimates the radiance along `ray`, following at most `depth` bounces.
///
/// `bounce` queries the scene and the material that was hit; `attenuate`
/// applies an attenuation to a radiance. Both may be nondeterministic.
pub fn ray_color<C, R, F: Fn(&R) -> Bounce<C, R>, M: Fn(C, C) -> C>(
    ray: &R,
    depth: u32,
    black: C,
    bounce: &F,
    attenuate: &M,
) -> (r: C)
    requires
        forall|x: &R| #[trigger] bounce.requires((x,)),
        forall|a: C, c: C| #[trigger] attenuate.requires((a, c)),
    ensures
        depth == 0 ==> r == black,
        traced(
            bounce_outcomes(*bounce),
            attenuation_results(*attenuate),
            black,
            *ray,
            depth as nat,
            r,
        ),
    decreases depth,
{
    if depth == 0 {
        return black;
    }
    let b = bounce(ray);
    let ghost outcome = b;
    assert(bounce_outcomes(*bounce)(*ray, outcome));
    match b {
        Bounce::Escaped(c) => c,
        Bounce::Absorbed => black,
        Bounce::Scattered(a, s) => {
            let c = ray_color(&s, depth - 1, black, bounce, attenuate);
            let r = attenuate(a, c);
            assert(attenuation_results(*attenuate)(a, c, r));
            r
        },
    }
}

} // verus!
