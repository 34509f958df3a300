//! The direction classifier: from a displacement to a cardinal direction.

use crate::configuration::Direction;
use vstd::math::abs;
use vstd::prelude::*;

verus! {

/// The direction of the displacement `(dx, dy)`.
///
/// The longer axis decides. A tie between the axes goes to the vertical one,
/// and a zero component on the deciding axis counts as positive, so that the
/// zero displacement is `Down`.
pub open spec fn direction_of(dx: int, dy: int) -> Direction {
    if abs(dy) >= abs(dx) {
        if dy >= 0 {
            Direction::Down
        } else {
            Direction::Up
        }
    } else {
        if dx >= 0 {
            Direction::Right
        } else {
            Direction::Left
        }
    }
}

/// Tells whether `a` lies at least as far from zero as `b` does.
fn reaches(a: i64, b: i64) -> (r: bool)
    ensures
        r == (abs(a as int) >= abs(b as int)),
{
    if a >= 0 {
        if b >= 0 {
            a >= b
        } else {
            -a <= b
        }
    } else {
        if b >= 0 {
            a <= -b
        } else {
            a <= b
        }
    }
}

/// Classifies the displacement `(dx, dy)` as one of the four directions.
pub fn classify(dx: i64, dy: i64) -> (direction: Direction)
    ensures
        direction == direction_of(dx as int, dy as int),
        abs(dy as int) >= abs(dx as int) ==> (direction == Direction::Down <==> dy >= 0),
        abs(dy as int) >= abs(dx as int) ==> (direction == Direction::Up <==> dy < 0),
        abs(dx as int) > abs(dy as int) ==> (direction == Direction::Right <==> dx >= 0),
        abs(dx as int) > abs(dy as int) ==> (direction == Direction::Left <==> dx < 0),
{
    if reaches(dy, dx) {
        if dy >= 0 {
            Direction::Down
        } else {
            Direction::Up
        }
    } else {
        if dx >= 0 {
            Direction::Right
        } else {
            Direction::Left
        }
    }
}

/// The classification rule, for every displacement: where the vertical
/// component is at least as long as the horizontal one, the direction is
/// `Down` exactly when `dy` is not negative and `Up` otherwise; where the
/// horizontal component is longer, it is `Right` exactly when `dx` is not
/// negative and `Left` otherwise. The zero displacement is `Down`.
pub proof fn lemma_classification_rule(dx: int, dy: int)
    ensures
        abs(dy) >= abs(dx) && dy >= 0 ==> direction_of(dx, dy) == Direction::Down,
        abs(dy) >= abs(dx) && dy < 0 ==> direction_of(dx, dy) == Direction::Up,
        abs(dx) > abs(dy) && dx >= 0 ==> direction_of(dx, dy) == Direction::Right,
        abs(dx) > abs(dy) && dx < 0 ==> direction_of(dx, dy) == Direction::Left,
        direction_of(0, 0) == Direction::Down,
{
}

/// The direction of a displacement does not depend on the unit that it is
/// counted in: counted in a unit `k` times as fine, it points the same way.
pub proof fn lemma_direction_is_unit_free(dx: int, dy: int, k: int)
    requires
        k > 0,
    ensures
        direction_of(k * dx, k * dy) == direction_of(dx, dy),
{
    assert(abs(k * dx) == k * abs(dx)) by (nonlinear_arith)
        requires
            k > 0,
    ;
    assert(abs(k * dy) == k * abs(dy)) by (nonlinear_arith)
        requires
            k > 0,
    ;
    assert((k * abs(dy) >= k * abs(dx)) == (abs(dy) >= abs(dx))) by (nonlinear_arith)
        requires
            k > 0,
    ;
    assert((k * dy >= 0) == (dy >= 0)) by (nonlinear_arith)
        requires
            k > 0,
    ;
    assert((k * dx >= 0) == (dx >= 0)) by (nonlinear_arith)
        requires
            k > 0,
    ;
}

} // verus!
