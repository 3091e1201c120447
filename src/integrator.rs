use vstd::prelude::*;

verus! {

/// Default bound on the number of bounces a path may take.
pub const MAX_DEPTH: u32 = 50;

/// What a ray met in the scene at one bounce.
#[derive(Clone, Copy, Debug, PartialEq, Eq, Structural)]
pub enum Surface {
    /// No sphere in front of the ray: it sees the sky.
    Miss,
    /// It hit a surface whose material absorbed it.
    Absorbed,
    /// It hit a surface that scattered it onward, attenuated.
    Scattered,
}

/// How a path ends.
#[derive(Clone, Copy, Debug, PartialEq, Eq, Structural)]
pub enum PathEnd {
    /// The path contributes nothing: absorbed, or out of depth.
    Black,
    /// The path escaped: its weight multiplies the sky gradient.
    Sky,
}

/// The next thing to do on a path.
#[derive(Clone, Copy, Debug, PartialEq, Eq, Structural)]
pub enum Bounce {
    /// The path is over.
    Done(PathEnd),
    /// Query the scene with this much depth left.
    Trace(u32),
}

/// A path with `depth` bounces of budget: none left means black before the
/// scene is ever queried; otherwise the scene is traced.
pub fn start_path(depth: u32) -> (r: Bounce)
    ensures
        depth == 0 ==> r == Bounce::Done(PathEnd::Black),
        depth > 0 ==> r == Bounce::Trace(depth),
{
    if depth == 0 {
        Bounce::Done(PathEnd::Black)
    } else {
        Bounce::Trace(depth)
    }
}

/// The step after a trace with `depth` left met `surface`: a miss ends in
/// the sky, an absorption in black, and a scattered ray goes on with one
/// bounce less, ending black when that was the last.
pub fn advance(depth: u32, surface: Surface) -> (r: Bounce)
    requires
        depth > 0,
    ensures
        surface == Surface::Miss ==> r == Bounce::Done(PathEnd::Sky),
        surface == Surface::Absorbed ==> r == Bounce::Done(PathEnd::Black),
        surface == Surface::Scattered && depth == 1 ==> r == Bounce::Done(PathEnd::Black),
        surface == Surface::Scattered && depth > 1 ==> r == Bounce::Trace((depth - 1) as u32),
{
    match surface {
        Surface::Miss => Bounce::Done(PathEnd::Sky),
        Surface::Absorbed => Bounce::Done(PathEnd::Black),
        Surface::Scattered => start_path(depth - 1),
    }
}

/// Where a path with `depth` bounces of budget ends, and how many scattering
/// attenuations weigh it, when it meets `surfaces` in order; `None` when the
/// surfaces run out before the path ends.
pub open spec fn path_spec(depth: nat, surfaces: Seq<Surface>) -> Option<(PathEnd, nat)>
    decreases surfaces.len(),
{
    if depth == 0 {
        Some((PathEnd::Black, 0))
    } else if surfaces.len() == 0 {
        None
    } else if surfaces[0] == Surface::Miss {
        Some((PathEnd::Sky, 0))
    } else if surfaces[0] == Surface::Absorbed {
        Some((PathEnd::Black, 0))
    } else {
        match path_spec((depth - 1) as nat, surfaces.drop_first()) {
            Some((end, n)) => Some((end, n + 1)),
            None => None,
        }
    }
}

/// `r` with `k` more attenuations counted.
pub open spec fn shifted(r: Option<(PathEnd, nat)>, k: nat) -> Option<(PathEnd, nat)> {
    match r {
        Some((e, n)) => Some((e, n + k)),
        None => None,
    }
}

/// With no depth left a path is black, whatever the scene would return.
pub proof fn lemma_no_depth_is_black(surfaces: Seq<Surface>)
    ensures
        path_spec(0, surfaces) == Some((PathEnd::Black, 0nat)),
{
}

/// Runs `start_path` and `advance` over the surfaces a path meets, in order,
/// and returns how it ends and how many attenuations weigh it, or `None`
/// when the surfaces run out first.
pub fn run_path(depth: u32, surfaces: &Vec<Surface>) -> (r: Option<(PathEnd, usize)>)
    ensures
        r matches Some((end, n)) ==> path_spec(depth as nat, surfaces@) == Some((end, n as nat)),
        r is None ==> path_spec(depth as nat, surfaces@) is None,
{
    let mut step = start_path(depth);
    let mut k: usize = 0;
    let mut n: usize = 0;
    proof {
        assert(surfaces@.skip(0) =~= surfaces@);
    }
    while k < surfaces.len() && matches!(step, Bounce::Trace(_))
        invariant
            n <= k <= surfaces@.len(),
            step matches Bounce::Trace(d) ==> d > 0 && n == k && path_spec(depth as nat, surfaces@)
                == shifted(path_spec(d as nat, surfaces@.skip(k as int)), k as nat),
            step matches Bounce::Done(e) ==> path_spec(depth as nat, surfaces@) == Some((e, n as nat)),
        decreases surfaces@.len() - k,
    {
        if let Bounce::Trace(d) = step {
            let surface = surfaces[k];
            proof {
                let rest = surfaces@.skip(k as int);
                assert(rest.drop_first() =~= surfaces@.skip(k + 1));
                assert(rest[0] == surface);
                assert(path_spec(0, surfaces@.skip(k + 1)) == Some((PathEnd::Black, 0nat)));
            }
            step = advance(d, surface);
            if surface == Surface::Scattered {
                n = n + 1;
            }
            k = k + 1;
        }
    }
    proof {
        if step is Trace {
            assert(surfaces@.skip(k as int).len() == 0);
        }
    }
    match step {
        Bounce::Done(end) => Some((end, n)),
        Bounce::Trace(_) => None,
    }
}

} // verus!
