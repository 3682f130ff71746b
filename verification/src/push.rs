//! Pushing the player away from the center of a tile.
//!
//! The player is moved along the line from the tile's center through the
//! player, to a given distance from the center. The exact point on that
//! line seldom has coordinates that are whole thousandths of a world unit:
//! each coordinate is rounded to the nearest thousandth, a half away from
//! the center, so the player lands within a thousandth of the asked
//! distance. A player who stands on the center itself has no direction to
//! be pushed in and stays.

use vstd::prelude::*;
use crate::geometry::{clamp, clamped, dist_sq, distance_squared, WorldPos};

verus! {

/// The longest push distance that [`push_away`] takes: a million world
/// units.
pub const MAX_PUSH_DISTANCE: u32 = 1_000_000_000;

/// The exact share lies below `r` and a half. The share is what the
/// coordinate gap `gap` becomes when the whole displacement, of squared
/// length `n`, is stretched to the length `reach`: `gap * reach /
/// sqrt(n)`. Both sides of the comparison are squared and cleared of
/// fractions.
pub open spec fn share_below_half_above(gap: int, n: int, reach: int, r: int) -> bool {
    4 * (reach * reach) * (gap * gap) < n * ((2 * r + 1) * (2 * r + 1))
}

/// `r` is the size of the exact share rounded to the nearest whole number,
/// a half upward.
pub open spec fn is_rounded_share(gap: int, n: int, reach: int, r: int) -> bool {
    &&& r >= 0
    &&& share_below_half_above(gap, n, reach, r)
    &&& r == 0 || !share_below_half_above(gap, n, reach, r - 1)
}

/// `offset` is the rounded share of the coordinate gap `gap`: it has the
/// size of the rounded share and points the way the gap points.
pub open spec fn is_offset(gap: int, n: int, reach: int, offset: int) -> bool {
    &&& is_rounded_share(gap, n, reach, if offset >= 0 { offset } else { -offset })
    &&& gap >= 0 ==> offset >= 0
    &&& gap <= 0 ==> offset <= 0
}

/// `result` is where a push from `center` to the distance `reach` puts a
/// player who stood at `player`: the player's own position if it is the
/// center, else the center moved by the rounded shares of the two gaps,
/// kept inside the world.
pub open spec fn pushed_to(center: WorldPos, player: WorldPos, reach: int, result: WorldPos) -> bool {
    let n = dist_sq(player, center);
    if n == 0 {
        result == player
    } else {
        exists|dx: int, dy: int|
            {
                &&& #[trigger] is_offset(player.x - center.x, n, reach, dx)
                &&& #[trigger] is_offset(player.y - center.y, n, reach, dy)
                &&& result.x == clamped(center.x + dx)
                &&& result.y == clamped(center.y + dy)
            }
    }
}

/// Where a push from `center` to the distance `reach` puts a player who
/// stood at `player`.
pub open spec fn pushed(center: WorldPos, player: WorldPos, reach: int) -> WorldPos {
    choose|result: WorldPos| pushed_to(center, player, reach, result)
}

/// The center is far enough from the ends of the world that a push from it
/// to the distance `reach` does not have to be cut short.
pub open spec fn has_room_around(center: WorldPos, reach: int) -> bool {
    &&& i32::MIN + reach < center.x < i32::MAX - reach
    &&& i32::MIN + reach < center.y < i32::MAX - reach
}

proof fn square_grows(a: int, b: int)
    requires
        0 <= a <= b,
    ensures
        a * a <= b * b,
{
    assert(a * a <= b * b) by (nonlinear_arith)
        requires
            0 <= a <= b,
    ;
}

proof fn product_grows(n: int, p: int, q: int)
    requires
        0 <= n,
        p <= q,
    ensures
        n * p <= n * q,
{
    assert(n * p <= n * q) by (nonlinear_arith)
        requires
            0 <= n,
            p <= q,
    ;
}

/// Once the exact share lies below `r` and a half it lies below every
/// larger bound of that kind.
proof fn share_stays_below(gap: int, n: int, reach: int, r: int, s: int)
    requires
        0 <= n,
        0 <= r <= s,
        share_below_half_above(gap, n, reach, r),
    ensures
        share_below_half_above(gap, n, reach, s),
{
    square_grows(2 * r + 1, 2 * s + 1);
    product_grows(n, (2 * r + 1) * (2 * r + 1), (2 * s + 1) * (2 * s + 1));
}

/// No share is as large as the asked distance and one more.
proof fn share_is_below_the_limit(gap: int, n: int, reach: int)
    requires
        0 < n,
        gap * gap <= n,
        0 <= reach,
    ensures
        share_below_half_above(gap, n, reach, reach + 1),
{
    let odd = 2 * (reach + 1) + 1;
    let t = reach;
    assert(odd * odd > 4 * (t * t)) by (nonlinear_arith)
        requires
            odd > 2 * t,
            t >= 0,
    ;
    assert(n * (odd * odd) > 4 * (t * t) * n) by (nonlinear_arith)
        requires
            odd * odd > 4 * (t * t),
            n > 0,
    ;
    assert(4 * (t * t) * n >= 4 * (t * t) * (gap * gap)) by (nonlinear_arith)
        requires
            gap * gap <= n,
            t >= 0,
    ;
}

/// The rounded share of no gap at all is nothing.
proof fn no_gap_has_no_share(n: int, reach: int, r: int)
    requires
        0 < n,
        is_rounded_share(0, n, reach, r),
    ensures
        r == 0,
{
    if r > 0 {
        let odd = 2 * (r - 1) + 1;
        assert(n * (odd * odd) > 0) by (nonlinear_arith)
            requires
                n > 0,
                odd >= 1,
        ;
        assert(4 * (reach * reach) * (0int * 0int) == 0) by (nonlinear_arith);
        assert(share_below_half_above(0, n, reach, r - 1));
    }
}

/// A gap has one rounded share only, and so one offset.
pub proof fn offset_is_unique(gap: int, n: int, reach: int, first: int, second: int)
    requires
        0 <= n,
        is_offset(gap, n, reach, first),
        is_offset(gap, n, reach, second),
    ensures
        first == second,
{
    let r = if first >= 0 { first } else { -first };
    let s = if second >= 0 { second } else { -second };
    if r < s {
        share_stays_below(gap, n, reach, r, s - 1);
    }
    if s < r {
        share_stays_below(gap, n, reach, s, r - 1);
    }
    if gap == 0 {
        assert(r == 0 && s == 0);
    }
}

/// A push has one outcome only.
pub proof fn push_is_unique(
    center: WorldPos,
    player: WorldPos,
    reach: int,
    first: WorldPos,
    second: WorldPos,
)
    requires
        pushed_to(center, player, reach, first),
        pushed_to(center, player, reach, second),
    ensures
        first == second,
{
    let n = dist_sq(player, center);
    assert(n >= 0) by (nonlinear_arith)
        requires
            n == (player.x - center.x) * (player.x - center.x) + (player.y - center.y) * (player.y
                - center.y),
    ;
    if n != 0 {
        let (dx, dy) = choose|dx: int, dy: int|
            {
                &&& #[trigger] is_offset(player.x - center.x, n, reach, dx)
                &&& #[trigger] is_offset(player.y - center.y, n, reach, dy)
                &&& first.x == clamped(center.x + dx)
                &&& first.y == clamped(center.y + dy)
            };
        let (ex, ey) = choose|ex: int, ey: int|
            {
                &&& #[trigger] is_offset(player.x - center.x, n, reach, ex)
                &&& #[trigger] is_offset(player.y - center.y, n, reach, ey)
                &&& second.x == clamped(center.x + ex)
                &&& second.y == clamped(center.y + ey)
            };
        offset_is_unique(player.x - center.x, n, reach, dx, ex);
        offset_is_unique(player.y - center.y, n, reach, dy, ey);
    }
}

/// The two rounded shares together are not shorter than the asked
/// distance less one.
proof fn offsets_reach_far_enough(gx: int, gy: int, reach: int, dx: int, dy: int)
    requires
        gx * gx + gy * gy > 0,
        reach >= 1,
        dx >= 0,
        dy >= 0,
        share_below_half_above(gx, gx * gx + gy * gy, reach, dx),
        share_below_half_above(gy, gx * gx + gy * gy, reach, dy),
    ensures
        (reach - 1) * (reach - 1) <= dx * dx + dy * dy,
{
    let n = gx * gx + gy * gy;
    let t = reach;
    let p = 2 * dx;
    let q = 2 * dy;
    let m = p + q;
    let big = (p + 1) * (p + 1) + (q + 1) * (q + 1);
    let small = p * p + q * q;
    assert(4 * (t * t) * (gx * gx) + 4 * (t * t) * (gy * gy) == 4 * (t * t) * n)
        by (nonlinear_arith)
        requires
            n == gx * gx + gy * gy,
    ;
    assert(n * ((p + 1) * (p + 1)) + n * ((q + 1) * (q + 1)) == n * big) by (nonlinear_arith)
        requires
            big == (p + 1) * (p + 1) + (q + 1) * (q + 1),
    ;
    assert(4 * (t * t) * n < n * big);
    assert(4 * (t * t) < big) by (nonlinear_arith)
        requires
            4 * (t * t) * n < n * big,
            n > 0,
    ;
    assert(big == small + 2 * m + 2) by (nonlinear_arith)
        requires
            big == (p + 1) * (p + 1) + (q + 1) * (q + 1),
            small == p * p + q * q,
            m == p + q,
    ;
    assert(m * m <= 2 * small) by (nonlinear_arith)
        requires
            small == p * p + q * q,
            m == p + q,
    ;
    assert(small == 4 * (dx * dx + dy * dy)) by (nonlinear_arith)
        requires
            small == p * p + q * q,
            p == 2 * dx,
            q == 2 * dy,
    ;
    if 4 * ((t - 1) * (t - 1)) > small {
        assert(4 * ((t - 1) * (t - 1)) == 4 * (t * t) - 8 * t + 4) by (nonlinear_arith);
        assert(4 * (t - 1) < m - 1);
        assert(16 * ((t - 1) * (t - 1)) < (m - 1) * (m - 1)) by (nonlinear_arith)
            requires
                0 <= 4 * (t - 1) < m - 1,
        ;
        assert((m - 1) * (m - 1) <= m * m) by (nonlinear_arith)
            requires
                m >= 1,
        ;
        assert(false);
    }
}

/// The two rounded shares together are not longer than the asked distance
/// and one.
proof fn offsets_reach_not_too_far(gx: int, gy: int, reach: int, dx: int, dy: int)
    requires
        gx * gx + gy * gy > 0,
        reach >= 0,
        dx >= 0,
        dy >= 0,
        dx == 0 || !share_below_half_above(gx, gx * gx + gy * gy, reach, dx - 1),
        dy == 0 || !share_below_half_above(gy, gx * gx + gy * gy, reach, dy - 1),
    ensures
        dx * dx + dy * dy <= (reach + 1) * (reach + 1),
{
    let n = gx * gx + gy * gy;
    let t = reach;
    let p = 2 * dx - 1;
    let q = 2 * dy - 1;
    assert(gx * gx >= 0 && gy * gy >= 0) by (nonlinear_arith);
    assert((t + 1) * (t + 1) == t * t + 2 * t + 1) by (nonlinear_arith);
    if dx >= 1 && dy >= 1 {
        let low = p * p + q * q;
        let m = p + q;
        assert(n * (p * p) + n * (q * q) == n * low) by (nonlinear_arith)
            requires
                low == p * p + q * q,
        ;
        assert(4 * (t * t) * (gx * gx) + 4 * (t * t) * (gy * gy) == 4 * (t * t) * n)
            by (nonlinear_arith)
            requires
                n == gx * gx + gy * gy,
        ;
        assert(2 * (dx - 1) + 1 == p && 2 * (dy - 1) + 1 == q);
        assert(n * low <= 4 * (t * t) * n);
        assert(low <= 4 * (t * t)) by (nonlinear_arith)
            requires
                n * low <= 4 * (t * t) * n,
                n > 0,
        ;
        assert(m * m <= 2 * low) by (nonlinear_arith)
            requires
                low == p * p + q * q,
                m == p + q,
        ;
        assert(m <= 3 * t) by (nonlinear_arith)
            requires
                m * m <= 8 * (t * t),
                m >= 0,
                t >= 0,
        ;
        assert(4 * (dx * dx + dy * dy) == low + 2 * m + 2) by (nonlinear_arith)
            requires
                low == p * p + q * q,
                m == p + q,
                p == 2 * dx - 1,
                q == 2 * dy - 1,
        ;
    } else if dx >= 1 {
        assert(2 * (dx - 1) + 1 == p);
        single_share_is_short(gx, n, t, p);
        assert(dx * dx <= t * t) by (nonlinear_arith)
            requires
                0 <= dx <= t,
        ;
    } else if dy >= 1 {
        assert(2 * (dy - 1) + 1 == q);
        single_share_is_short(gy, n, t, q);
        assert(dy * dy <= t * t) by (nonlinear_arith)
            requires
                0 <= dy <= t,
        ;
    } else {
        assert(t * t >= 0) by (nonlinear_arith);
    }
}

/// A share that has reached `odd / 2` is no longer than the asked distance.
proof fn single_share_is_short(gap: int, n: int, reach: int, odd: int)
    requires
        0 < n,
        0 <= gap * gap <= n,
        0 <= reach,
        0 <= odd,
        n * (odd * odd) <= 4 * (reach * reach) * (gap * gap),
    ensures
        odd <= 2 * reach,
{
    assert(n * (odd * odd) <= 4 * (reach * reach) * n) by (nonlinear_arith)
        requires
            n * (odd * odd) <= 4 * (reach * reach) * (gap * gap),
            gap * gap <= n,
            reach * reach >= 0,
    ;
    assert(odd * odd <= 4 * (reach * reach)) by (nonlinear_arith)
        requires
            n * (odd * odd) <= 4 * (reach * reach) * n,
            n > 0,
    ;
    assert(odd <= 2 * reach) by (nonlinear_arith)
        requires
            odd * odd <= 4 * (reach * reach),
            odd >= 0,
            reach >= 0,
    ;
}

/// The two offsets of a push are together as long as the asked distance,
/// to within one thousandth of a world unit either way.
pub proof fn push_reaches_the_distance(gx: int, gy: int, reach: int, dx: int, dy: int)
    requires
        gx * gx + gy * gy > 0,
        reach >= 1,
        is_offset(gx, gx * gx + gy * gy, reach, dx),
        is_offset(gy, gx * gx + gy * gy, reach, dy),
    ensures
        (reach - 1) * (reach - 1) <= dx * dx + dy * dy <= (reach + 1) * (reach + 1),
{
    let ax = if dx >= 0 { dx } else { -dx };
    let ay = if dy >= 0 { dy } else { -dy };
    assert(ax * ax == dx * dx && ay * ay == dy * dy) by (nonlinear_arith)
        requires
            ax == dx || ax == -dx,
            ay == dy || ay == -dy,
    ;
    offsets_reach_far_enough(gx, gy, reach, ax, ay);
    offsets_reach_not_too_far(gx, gy, reach, ax, ay);
}

/// Finds the rounded share of a gap, looking upward from `from`.
proof fn find_share(gap: int, n: int, reach: int, from: int) -> (r: int)
    requires
        0 < n,
        gap * gap <= n,
        0 <= reach,
        0 <= from <= reach + 1,
        from == 0 || !share_below_half_above(gap, n, reach, from - 1),
    ensures
        is_rounded_share(gap, n, reach, r),
    decreases reach + 1 - from,
{
    if share_below_half_above(gap, n, reach, from) {
        from
    } else {
        share_is_below_the_limit(gap, n, reach);
        find_share(gap, n, reach, from + 1)
    }
}

/// Finds the offset of a gap.
proof fn find_offset(gap: int, n: int, reach: int) -> (offset: int)
    requires
        0 < n,
        gap * gap <= n,
        0 <= reach,
    ensures
        is_offset(gap, n, reach, offset),
{
    let r = find_share(gap, n, reach, 0);
    if gap == 0 {
        no_gap_has_no_share(n, reach, r);
    }
    if gap >= 0 {
        r
    } else {
        -r
    }
}

/// Every push has an outcome.
pub proof fn push_has_an_outcome(center: WorldPos, player: WorldPos, reach: int)
    requires
        0 <= reach,
    ensures
        pushed_to(center, player, reach, pushed(center, player, reach)),
{
    let gx = player.x - center.x;
    let gy = player.y - center.y;
    let n = dist_sq(player, center);
    assert(n >= 0 && gx * gx <= n && gy * gy <= n) by (nonlinear_arith)
        requires
            n == gx * gx + gy * gy,
    ;
    if n == 0 {
        assert(pushed_to(center, player, reach, player));
    } else {
        let dx = find_offset(gx, n, reach);
        let dy = find_offset(gy, n, reach);
        let result = WorldPos {
            x: clamped(center.x + dx) as i32,
            y: clamped(center.y + dy) as i32,
        };
        assert(is_offset(gx, n, reach, dx) && is_offset(gy, n, reach, dy));
        assert(pushed_to(center, player, reach, result));
    }
}

/// What a push does. A player on the center stays where they are. Any
/// other player ends on the side of the center they stood on, and, where
/// the center has room around it, at the asked distance from it to within
/// one thousandth of a world unit: no nearer than `reach - 1` and no
/// further than `reach + 1`.
pub proof fn push_moves_straight_away(center: WorldPos, player: WorldPos, reach: int)
    requires
        1 <= reach <= MAX_PUSH_DISTANCE,
    ensures
        player == center ==> pushed(center, player, reach) == player,
        player.x >= center.x ==> pushed(center, player, reach).x >= center.x,
        player.x <= center.x ==> pushed(center, player, reach).x <= center.x,
        player.y >= center.y ==> pushed(center, player, reach).y >= center.y,
        player.y <= center.y ==> pushed(center, player, reach).y <= center.y,
        player != center && has_room_around(center, reach) ==> (reach - 1) * (reach - 1)
            <= dist_sq(pushed(center, player, reach), center) <= (reach + 1) * (reach + 1),
{
    let result = pushed(center, player, reach);
    push_has_an_outcome(center, player, reach);
    let gx = player.x - center.x;
    let gy = player.y - center.y;
    let n = dist_sq(player, center);
    assert(n >= 0 && (n == 0 <==> (gx == 0 && gy == 0))) by (nonlinear_arith)
        requires
            n == gx * gx + gy * gy,
    ;
    if n != 0 {
        let (dx, dy) = choose|dx: int, dy: int|
            {
                &&& #[trigger] is_offset(gx, n, reach, dx)
                &&& #[trigger] is_offset(gy, n, reach, dy)
                &&& result.x == clamped(center.x + dx)
                &&& result.y == clamped(center.y + dy)
            };
        push_reaches_the_distance(gx, gy, reach, dx, dy);
        if has_room_around(center, reach) {
            assert(-(reach + 1) <= dx <= reach + 1 && -(reach + 1) <= dy <= reach + 1)
                by (nonlinear_arith)
                requires
                    dx * dx + dy * dy <= (reach + 1) * (reach + 1),
                    reach >= 0,
            ;
            assert(result.x == center.x + dx && result.y == center.y + dy);
        }
    }
}

/// The size of the rounded share of a gap of size `gap` in a displacement
/// of squared length `n`. The share is looked for by halving the range it
/// can lie in.
fn rounded_share(gap: u64, n: u128, reach: u32) -> (r: u64)
    requires
        gap < 0x1_0000_0000,
        gap * gap <= n <= 0x2_0000_0000_0000_0000,
        0 < n,
        reach <= MAX_PUSH_DISTANCE,
    ensures
        is_rounded_share(gap as int, n as int, reach as int, r as int),
        r <= reach + 1,
{
    let g: u128 = gap as u128;
    let t: u128 = reach as u128;
    assert(t * t <= 1_000_000_000_000_000_000 && g * g < 0x1_0000_0000_0000_0000)
        by (nonlinear_arith)
        requires
            t <= 1_000_000_000,
            g < 0x1_0000_0000,
    ;
    assert(4 * (t * t) * (g * g) <= 4 * 1_000_000_000_000_000_000 * 0x1_0000_0000_0000_0000)
        by (nonlinear_arith)
        requires
            0 <= t * t <= 1_000_000_000_000_000_000,
            0 <= g * g < 0x1_0000_0000_0000_0000,
    ;
    let exact: u128 = 4 * (t * t) * (g * g);
    let mut low: u64 = 0;
    let mut high: u64 = reach as u64 + 1;
    proof {
        share_is_below_the_limit(gap as int, n as int, reach as int);
    }
    while low < high
        invariant
            low <= high <= reach + 1,
            reach <= MAX_PUSH_DISTANCE,
            n <= 0x2_0000_0000_0000_0000,
            exact == 4 * (reach * reach) * (gap * gap),
            low == 0 || !share_below_half_above(gap as int, n as int, reach as int, low - 1),
            share_below_half_above(gap as int, n as int, reach as int, high as int),
        decreases high - low,
    {
        let middle: u64 = low + (high - low) / 2;
        let odd: u128 = 2 * (middle as u128) + 1;
        assert(odd * odd <= 2_000_000_003 * 2_000_000_003) by (nonlinear_arith)
            requires
                1 <= odd <= 2_000_000_003,
        ;
        assert(n * (odd * odd) <= 0xFFFF_FFFF_FFFF_FFFF_FFFF_FFFF_FFFF_FFFF) by (nonlinear_arith)
            requires
                0 <= n <= 0x2_0000_0000_0000_0000,
                0 <= odd * odd <= 2_000_000_003 * 2_000_000_003,
        ;
        if exact < n * (odd * odd) {
            high = middle;
        } else {
            low = middle + 1;
        }
    }
    low
}

/// The rounded share of a signed gap.
fn offset_of(gap: i64, n: u128, reach: u32) -> (offset: i64)
    requires
        -0x1_0000_0000 < gap < 0x1_0000_0000,
        gap * gap <= n <= 0x2_0000_0000_0000_0000,
        0 < n,
        reach <= MAX_PUSH_DISTANCE,
    ensures
        is_offset(gap as int, n as int, reach as int, offset as int),
        -(reach + 1) <= offset <= reach + 1,
{
    let size: u64 = if gap >= 0 {
        gap as u64
    } else {
        (-gap) as u64
    };
    assert(size * size == gap * gap) by (nonlinear_arith)
        requires
            size == gap || size == -gap,
    ;
    let r: u64 = rounded_share(size, n, reach);
    proof {
        let g = gap as int;
        let z = size as int;
        assert(z * z == g * g);
        assert forall|k: int|
            share_below_half_above(z, n as int, reach as int, k) == share_below_half_above(
                g,
                n as int,
                reach as int,
                k,
            ) by {}
        if g == 0 {
            no_gap_has_no_share(n as int, reach as int, r as int);
        }
    }
    if gap >= 0 {
        r as i64
    } else {
        -(r as i64)
    }
}

/// Pushes the player straight away from `center` to the distance `reach`
/// from it. A player standing on the center stays.
pub fn push_away(center: WorldPos, player: WorldPos, reach: u32) -> (result: WorldPos)
    requires
        reach <= MAX_PUSH_DISTANCE,
    ensures
        pushed_to(center, player, reach as int, result),
        result == pushed(center, player, reach as int),
{
    let n: u128 = distance_squared(player, center);
    if n == 0 {
        proof {
            assert(pushed_to(center, player, reach as int, player));
            push_is_unique(center, player, reach as int, player, pushed(center, player, reach as int));
        }
        return player;
    }
    let gap_x: i64 = player.x as i64 - center.x as i64;
    let gap_y: i64 = player.y as i64 - center.y as i64;
    assert(gap_x * gap_x <= n && gap_y * gap_y <= n) by (nonlinear_arith)
        requires
            n == gap_x * gap_x + gap_y * gap_y,
    ;
    let dx: i64 = offset_of(gap_x, n, reach);
    let dy: i64 = offset_of(gap_y, n, reach);
    let result = WorldPos { x: clamp(center.x as i64 + dx), y: clamp(center.y as i64 + dy) };
    proof {
        assert(is_offset(player.x - center.x, n as int, reach as int, dx as int));
        assert(is_offset(player.y - center.y, n as int, reach as int, dy as int));
        assert(pushed_to(center, player, reach as int, result));
        push_is_unique(center, player, reach as int, result, pushed(center, player, reach as int));
    }
    result
}

} // verus!
