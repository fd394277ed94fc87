use vstd::prelude::*;

verus! {

/// How a body overlapping a platform is moved back out of it.
#[derive(Clone, Copy, PartialEq, Eq, Debug, Structural)]
pub enum PlatformResponse {
    /// The platform is ignored.
    Pass,
    /// The body is put on top of a one-way platform and stops falling.
    Land,
    /// The body is moved horizontally by the overlap, `shift` times (-1, 0 or 1),
    /// and its horizontal speed is cancelled.
    PushX { shift: i8 },
    /// The body is moved vertically by the overlap, `shift` times (-1, 0 or 1),
    /// and its vertical speed is cancelled.
    PushY { shift: i8 },
}

/// The sign (-1, 0 or 1) of a motion component, from the outcomes of comparing it with zero.
pub open spec fn sign_of(positive: bool, negative: bool) -> int {
    if positive { 1int } else if negative { -1int } else { 0int }
}

/// The collision rule for one overlapping platform. A one-way platform is passed through
/// while dropping; otherwise it only ever lands a body that comes down onto its top.
/// A solid platform pushes the body out along the axis of the smaller overlap, against
/// its motion on that axis.
pub open spec fn platform_rule(
    one_way: bool,
    dropping: bool,
    landing: bool,
    x_shallower: bool,
    moving_right: bool,
    moving_left: bool,
    moving_up: bool,
    moving_down: bool,
) -> PlatformResponse {
    if one_way {
        if !dropping && landing { PlatformResponse::Land } else { PlatformResponse::Pass }
    } else if x_shallower {
        PlatformResponse::PushX { shift: (-sign_of(moving_right, moving_left)) as i8 }
    } else {
        PlatformResponse::PushY { shift: (-sign_of(moving_up, moving_down)) as i8 }
    }
}

/// Decides how a body that overlaps a platform is resolved.
/// `landing` says whether the body is falling (or still) and its bottom crosses the
/// platform's top this frame; `x_shallower` whether the horizontal overlap is the smaller;
/// the `moving_*` flags give the sign of the body's motion on each axis.
pub fn platform_response(
    one_way: bool,
    dropping: bool,
    landing: bool,
    x_shallower: bool,
    moving_right: bool,
    moving_left: bool,
    moving_up: bool,
    moving_down: bool,
) -> (r: PlatformResponse)
    ensures
        r == platform_rule(one_way, dropping, landing, x_shallower, moving_right, moving_left, moving_up, moving_down),
{
    if one_way {
        if dropping {
            return PlatformResponse::Pass;
        }
        if landing {
            return PlatformResponse::Land;
        }
        return PlatformResponse::Pass;
    }
    if x_shallower {
        let shift: i8 = if moving_right {
            -1
        } else if moving_left {
            1
        } else {
            0
        };
        PlatformResponse::PushX { shift }
    } else {
        let shift: i8 = if moving_up {
            -1
        } else if moving_down {
            1
        } else {
            0
        };
        PlatformResponse::PushY { shift }
    }
}

/// A one-way platform never pushes a body sideways or down, and lets a dropping body
/// through; a solid platform always pushes, against the motion on the chosen axis.
pub proof fn lemma_platform_rule_shape(
    one_way: bool,
    dropping: bool,
    landing: bool,
    x_shallower: bool,
    moving_right: bool,
    moving_left: bool,
    moving_up: bool,
    moving_down: bool,
)
    ensures
        ({
            let r = platform_rule(one_way, dropping, landing, x_shallower, moving_right, moving_left, moving_up, moving_down);
            &&& one_way ==> (r == PlatformResponse::Land || r == PlatformResponse::Pass)
            &&& (one_way && dropping) ==> r == PlatformResponse::Pass
            &&& r == PlatformResponse::Land ==> one_way && landing && !dropping
            &&& !one_way ==> (r is PushX || r is PushY)
            &&& r matches PlatformResponse::PushX { shift } ==> shift == -sign_of(moving_right, moving_left)
            &&& r matches PlatformResponse::PushY { shift } ==> shift == -sign_of(moving_up, moving_down)
        }),
{
}

/// Every overlap is resolved by the platform's kind, stated case by case: a one-way
/// platform lands a body that is not dropping and comes down onto its top, whatever the
/// overlap axis and motion, and ignores it otherwise; a solid platform pushes along the
/// shallower axis, back against a positive motion, forward against a negative one, and
/// not at all without motion on that axis.
pub proof fn lemma_platform_cases(
    one_way: bool,
    dropping: bool,
    landing: bool,
    x_shallower: bool,
    moving_right: bool,
    moving_left: bool,
    moving_up: bool,
    moving_down: bool,
)
    ensures
        ({
            let r = platform_rule(one_way, dropping, landing, x_shallower, moving_right, moving_left, moving_up, moving_down);
            &&& (one_way && !dropping && landing) ==> r == PlatformResponse::Land
            &&& (one_way && (dropping || !landing)) ==> r == PlatformResponse::Pass
            &&& (!one_way && x_shallower && moving_right) ==> r == (PlatformResponse::PushX { shift: -1i8 })
            &&& (!one_way && x_shallower && !moving_right && moving_left) ==> r == (PlatformResponse::PushX { shift: 1i8 })
            &&& (!one_way && x_shallower && !moving_right && !moving_left) ==> r == (PlatformResponse::PushX { shift: 0i8 })
            &&& (!one_way && !x_shallower && moving_up) ==> r == (PlatformResponse::PushY { shift: -1i8 })
            &&& (!one_way && !x_shallower && !moving_up && moving_down) ==> r == (PlatformResponse::PushY { shift: 1i8 })
            &&& (!one_way && !x_shallower && !moving_up && !moving_down) ==> r == (PlatformResponse::PushY { shift: 0i8 })
        }),
{
}

} // verus!
