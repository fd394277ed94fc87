use vstd::prelude::*;

verus! {

/// Health a projectile takes from the enemy it hits.
pub const PROJECTILE_DAMAGE: i32 = 12;

/// What pressing the fire button does during one frame.
#[derive(Clone, Copy, PartialEq, Eq, Debug, Structural)]
pub enum FireOutcome {
    /// Nothing happens and the shot cooldown keeps running.
    Hold,
    /// The shot cooldown restarts but no projectile leaves (no player, or the
    /// cursor is exactly on the player).
    ResetOnly,
    /// The shot cooldown restarts and a projectile leaves towards the cursor.
    Launch,
}

/// The firing rule: the button must be held, the cooldown elapsed and the cursor
/// placed in the world; then the cooldown restarts, and a projectile leaves when
/// there is a player and a direction from it to the cursor.
pub open spec fn fire_rule(
    button_held: bool,
    cooldown_elapsed: bool,
    aim_available: bool,
    player_present: bool,
    has_direction: bool,
) -> FireOutcome {
    if !(button_held && cooldown_elapsed && aim_available) {
        FireOutcome::Hold
    } else if player_present && has_direction {
        FireOutcome::Launch
    } else {
        FireOutcome::ResetOnly
    }
}

/// Decides what the fire button does this frame.
pub fn fire_decision(
    button_held: bool,
    cooldown_elapsed: bool,
    aim_available: bool,
    player_present: bool,
    has_direction: bool,
) -> (r: FireOutcome)
    ensures
        r == fire_rule(button_held, cooldown_elapsed, aim_available, player_present, has_direction),
{
    if !button_held {
        return FireOutcome::Hold;
    }
    if !cooldown_elapsed {
        return FireOutcome::Hold;
    }
    if !aim_available {
        return FireOutcome::Hold;
    }
    if player_present {
        if !has_direction {
            return FireOutcome::ResetOnly;
        }
        return FireOutcome::Launch;
    }
    FireOutcome::ResetOnly
}

/// The first enemy (by index) that a projectile overlaps, if any.
pub open spec fn first_hit(row: Seq<bool>) -> Option<int>
    decreases row.len(),
{
    if row.len() == 0 {
        None
    } else {
        match first_hit(row.drop_last()) {
            Some(e) => Some(e),
            None => if row.last() { Some(row.len() - 1) } else { None },
        }
    }
}

/// The enemies' health once every projectile, in order, has hurt the first enemy it
/// overlaps. `overlaps[p][e]` says whether projectile `p` overlaps enemy `e`.
pub open spec fn health_after(health: Seq<int>, overlaps: Seq<Seq<bool>>) -> Seq<int>
    decreases overlaps.len(),
{
    if overlaps.len() == 0 {
        health
    } else {
        let before = health_after(health, overlaps.drop_last());
        match first_hit(overlaps.last()) {
            Some(e) => before.update(e, before[e] - PROJECTILE_DAMAGE as int),
            None => before,
        }
    }
}

/// The (projectile, enemy) pairs to remove from the world: a projectile and the enemy it
/// hurt both go when that hit leaves the enemy with no health left. A projectile that
/// hurts an enemy without finishing it stays.
pub open spec fn kills_after(health: Seq<int>, overlaps: Seq<Seq<bool>>) -> Seq<(int, int)>
    decreases overlaps.len(),
{
    if overlaps.len() == 0 {
        Seq::empty()
    } else {
        let before = health_after(health, overlaps.drop_last());
        let earlier = kills_after(health, overlaps.drop_last());
        match first_hit(overlaps.last()) {
            Some(e) => if before[e] - PROJECTILE_DAMAGE as int <= 0 {
                earlier.push((overlaps.len() - 1, e))
            } else {
                earlier
            },
            None => earlier,
        }
    }
}

/// The number of projectiles that overlap at least one enemy.
pub open spec fn hitting_projectiles(overlaps: Seq<Seq<bool>>) -> int
    decreases overlaps.len(),
{
    if overlaps.len() == 0 {
        0
    } else {
        hitting_projectiles(overlaps.drop_last()) + if first_hit(overlaps.last()) is Some { 1int } else { 0int }
    }
}

/// The sum of all health values.
pub open spec fn total_health(health: Seq<int>) -> int
    decreases health.len(),
{
    if health.len() == 0 {
        0
    } else {
        total_health(health.drop_last()) + health.last()
    }
}

/// The health values of a vector of enemies, as integers.
pub open spec fn health_view(health: Seq<i32>) -> Seq<int> {
    health.map_values(|h: i32| h as int)
}

/// The first hit of a row is the smallest index of an overlapped enemy, and there is none
/// exactly when the projectile overlaps no enemy.
pub proof fn lemma_first_hit_bounds(row: Seq<bool>)
    ensures
        first_hit(row) matches Some(e) ==> 0 <= e < row.len() && row[e] && forall|k: int| 0 <= k < e ==> !row[k],
        first_hit(row) is None ==> forall|k: int| 0 <= k < row.len() ==> !row[k],
    decreases row.len(),
{
    if row.len() > 0 {
        let rest = row.drop_last();
        lemma_first_hit_bounds(rest);
        assert forall|k: int| 0 <= k < rest.len() implies rest[k] == row[k] by {}
    }
}

proof fn lemma_health_after_len(health: Seq<int>, overlaps: Seq<Seq<bool>>)
    requires
        forall|p: int| 0 <= p < overlaps.len() ==> #[trigger] overlaps[p].len() == health.len(),
    ensures
        health_after(health, overlaps).len() == health.len(),
    decreases overlaps.len(),
{
    if overlaps.len() > 0 {
        let rest = overlaps.drop_last();
        assert forall|p: int| 0 <= p < rest.len() implies #[trigger] rest[p].len() == health.len() by {
            assert(rest[p] == overlaps[p]);
        }
        lemma_health_after_len(health, rest);
        lemma_first_hit_bounds(overlaps.last());
    }
}

/// Every health value goes down by at most the damage of all projectiles together.
proof fn lemma_health_after_lower_bound(health: Seq<int>, overlaps: Seq<Seq<bool>>)
    requires
        forall|p: int| 0 <= p < overlaps.len() ==> #[trigger] overlaps[p].len() == health.len(),
    ensures
        forall|e: int| 0 <= e < health.len() ==> health_after(health, overlaps)[e] >= health[e] - PROJECTILE_DAMAGE as int * overlaps.len()
            && health_after(health, overlaps)[e] <= health[e],
    decreases overlaps.len(),
{
    if overlaps.len() > 0 {
        let rest = overlaps.drop_last();
        assert forall|p: int| 0 <= p < rest.len() implies #[trigger] rest[p].len() == health.len() by {
            assert(rest[p] == overlaps[p]);
        }
        lemma_health_after_lower_bound(health, rest);
        lemma_health_after_len(health, rest);
        lemma_first_hit_bounds(overlaps.last());
        let before = health_after(health, rest);
        let after = health_after(health, overlaps);
        assert forall|e: int| 0 <= e < health.len() implies after[e] >= health[e] - PROJECTILE_DAMAGE as int * overlaps.len()
            && after[e] <= health[e] by {
            assert(before[e] >= health[e] - PROJECTILE_DAMAGE as int * rest.len());
            assert(PROJECTILE_DAMAGE as int * overlaps.len() == PROJECTILE_DAMAGE as int * rest.len() + PROJECTILE_DAMAGE as int);
            match first_hit(overlaps.last()) {
                Some(k) => {
                    if k == e {
                        assert(after[e] == before[e] - PROJECTILE_DAMAGE as int);
                    } else {
                        assert(after[e] == before[e]);
                    }
                },
                None => {
                    assert(after[e] == before[e]);
                },
            }
        }
    }
}

/// Lets every projectile, in order, hurt the first enemy it overlaps, and returns the
/// (projectile, enemy) pairs to remove because that hit left the enemy with no health.
/// An enemy that is already finished still takes hits from later projectiles of the
/// same frame (it is removed only after the frame).
pub fn resolve_projectile_hits(health: &mut Vec<i32>, overlaps: &Vec<Vec<bool>>) -> (kills: Vec<(usize, usize)>)
    requires
        forall|p: int| 0 <= p < overlaps@.len() ==> #[trigger] overlaps@[p]@.len() == old(health)@.len(),
        forall|e: int| 0 <= e < old(health)@.len() ==> #[trigger] old(health)@[e] - PROJECTILE_DAMAGE as int * overlaps@.len() >= i32::MIN,
    ensures
        health_view(final(health)@) == health_after(health_view(old(health)@), overlaps@.map_values(|row: Vec<bool>| row@)),
        kills@.map_values(|k: (usize, usize)| (k.0 as int, k.1 as int)) == kills_after(health_view(old(health)@), overlaps@.map_values(|row: Vec<bool>| row@)),
{
    let ghost start = health_view(health@);
    let ghost rows = overlaps@.map_values(|row: Vec<bool>| row@);
    let mut kills: Vec<(usize, usize)> = Vec::new();
    let n = overlaps.len();
    let mut p: usize = 0;
    proof {
        assert(rows.take(0) =~= Seq::<Seq<bool>>::empty());
        assert forall|q: int| 0 <= q < rows.len() implies #[trigger] rows[q].len() == start.len() by {
            assert(rows[q] == overlaps@[q]@);
        }
    }
    while p < n
        invariant
            n == overlaps@.len(),
            p <= n,
            rows == overlaps@.map_values(|row: Vec<bool>| row@),
            start.len() == health@.len(),
            forall|q: int| 0 <= q < rows.len() ==> #[trigger] rows[q].len() == start.len(),
            forall|e: int| 0 <= e < start.len() ==> #[trigger] start[e] - PROJECTILE_DAMAGE as int * n >= i32::MIN,
            health_view(health@) == health_after(start, rows.take(p as int)),
            kills@.map_values(|k: (usize, usize)| (k.0 as int, k.1 as int)) == kills_after(start, rows.take(p as int)),
        decreases n - p,
    {
        let row = &overlaps[p];
        let m = health.len();
        let mut e: usize = 0;
        let mut found = false;
        let ghost done = rows.take(p as int);
        let ghost next = rows.take(p + 1);
        proof {
            assert(next.drop_last() =~= done);
            assert(next.last() == rows[p as int]);
            assert(rows[p as int] == row@);
            lemma_first_hit_bounds(row@);
            assert forall|q: int| 0 <= q < done.len() implies #[trigger] done[q].len() == start.len() by {
                assert(done[q] == rows[q]);
            }
            lemma_health_after_len(start, done);
            lemma_health_after_lower_bound(start, done);
        }
        while e < m && !found
            invariant
                m == health@.len(),
                row@.len() == m,
                e <= m,
                !found ==> forall|k: int| 0 <= k < e ==> !row@[k],
                found ==> e < m && row@[e as int] && forall|k: int| 0 <= k < e ==> !row@[k],
            decreases m - e + (if found { 0int } else { 1int }),
        {
            if row[e] {
                found = true;
            } else {
                e = e + 1;
            }
        }
        proof {
            lemma_first_hit_bounds(row@);
            if found {
                assert(first_hit(row@) == Some(e as int));
            } else {
                assert(first_hit(row@) is None);
            }
        }
        if found {
            let ghost before = health_view(health@);
            proof {
                assert(before[e as int] >= start[e as int] - PROJECTILE_DAMAGE as int * p);
                assert(PROJECTILE_DAMAGE as int * p + PROJECTILE_DAMAGE as int <= PROJECTILE_DAMAGE as int * n) by (nonlinear_arith)
                    requires p < n;
            }
            let h = health[e] - PROJECTILE_DAMAGE;
            health.set(e, h);
            proof {
                assert(health_view(health@) =~= before.update(e as int, before[e as int] - PROJECTILE_DAMAGE as int));
            }
            if h <= 0 {
                let ghost old_kills = kills@;
                kills.push((p, e));
                proof {
                    assert(kills@.map_values(|k: (usize, usize)| (k.0 as int, k.1 as int)) =~= old_kills.map_values(|k: (usize, usize)| (k.0 as int, k.1 as int)).push((p as int, e as int)));
                }
            }
        }
        p = p + 1;
    }
    proof {
        assert(rows.take(n as int) =~= rows);
    }
    kills
}

proof fn lemma_total_health_update(health: Seq<int>, e: int, v: int)
    requires
        0 <= e < health.len(),
    ensures
        total_health(health.update(e, v)) == total_health(health) - health[e] + v,
    decreases health.len(),
{
    let updated = health.update(e, v);
    if e == health.len() - 1 {
        assert(updated.drop_last() =~= health.drop_last());
    } else {
        assert(updated.drop_last() =~= health.drop_last().update(e, v));
        lemma_total_health_update(health.drop_last(), e, v);
    }
}

/// Conservation of damage: after a frame of projectile hits, the enemies' health has
/// gone down in total by exactly the damage of one projectile for each projectile that
/// overlapped some enemy.
pub proof fn lemma_total_damage(health: Seq<int>, overlaps: Seq<Seq<bool>>)
    requires
        forall|p: int| 0 <= p < overlaps.len() ==> #[trigger] overlaps[p].len() == health.len(),
    ensures
        total_health(health_after(health, overlaps)) == total_health(health) - PROJECTILE_DAMAGE as int * hitting_projectiles(overlaps),
    decreases overlaps.len(),
{
    if overlaps.len() > 0 {
        let rest = overlaps.drop_last();
        assert forall|p: int| 0 <= p < rest.len() implies #[trigger] rest[p].len() == health.len() by {
            assert(rest[p] == overlaps[p]);
        }
        lemma_total_damage(health, rest);
        lemma_health_after_len(health, rest);
        lemma_first_hit_bounds(overlaps.last());
        let before = health_after(health, rest);
        match first_hit(overlaps.last()) {
            Some(e) => {
                lemma_total_health_update(before, e, before[e] - PROJECTILE_DAMAGE as int);
            },
            None => {},
        }
    }
}

/// Every removal pairs a projectile with the first enemy it overlaps, each projectile is
/// removed at most once, and a removed enemy has no health left at the end of the frame.
pub proof fn lemma_kills_are_finished_enemies(health: Seq<int>, overlaps: Seq<Seq<bool>>)
    requires
        forall|p: int| 0 <= p < overlaps.len() ==> #[trigger] overlaps[p].len() == health.len(),
    ensures
        forall|i: int| 0 <= i < kills_after(health, overlaps).len() ==> {
            let (p, e) = #[trigger] kills_after(health, overlaps)[i];
            &&& 0 <= p < overlaps.len()
            &&& first_hit(overlaps[p]) == Some(e)
            &&& 0 <= e < health.len()
            &&& health_after(health, overlaps)[e] <= 0
        },
        forall|i: int, j: int| 0 <= i < j < kills_after(health, overlaps).len() ==>
            (#[trigger] kills_after(health, overlaps)[i]).0 < (#[trigger] kills_after(health, overlaps)[j]).0,
    decreases overlaps.len(),
{
    if overlaps.len() > 0 {
        let rest = overlaps.drop_last();
        assert forall|p: int| 0 <= p < rest.len() implies #[trigger] rest[p].len() == health.len() by {
            assert(rest[p] == overlaps[p]);
        }
        lemma_kills_are_finished_enemies(health, rest);
        lemma_health_after_len(health, rest);
        lemma_first_hit_bounds(overlaps.last());
        let before = health_after(health, rest);
        let after = health_after(health, overlaps);
        let earlier = kills_after(health, rest);
        let all = kills_after(health, overlaps);
        assert forall|e: int| 0 <= e < health.len() implies after[e] <= before[e] by {
            match first_hit(overlaps.last()) {
                Some(k) => {
                    if k == e {
                        assert(after[e] == before[e] - PROJECTILE_DAMAGE as int);
                    } else {
                        assert(after[e] == before[e]);
                    }
                },
                None => {},
            }
        }
        assert forall|i: int| 0 <= i < all.len() implies {
            let (p, e) = #[trigger] all[i];
            &&& 0 <= p < overlaps.len()
            &&& first_hit(overlaps[p]) == Some(e)
            &&& 0 <= e < health.len()
            &&& after[e] <= 0
        } by {
            if i < earlier.len() {
                assert(all[i] == earlier[i]);
                let (p, e) = earlier[i];
                assert(rest[p] == overlaps[p]);
            }
        }
    }
}

/// A shot leaves exactly when the button is held, the cooldown has elapsed, the cursor is
/// in the world, there is a player and a direction; the cooldown restarts whenever the
/// first three hold, and nothing at all happens otherwise.
pub proof fn lemma_fire_cases(
    button_held: bool,
    cooldown_elapsed: bool,
    aim_available: bool,
    player_present: bool,
    has_direction: bool,
)
    ensures
        (fire_rule(button_held, cooldown_elapsed, aim_available, player_present, has_direction) == FireOutcome::Launch)
            == (button_held && cooldown_elapsed && aim_available && player_present && has_direction),
        (fire_rule(button_held, cooldown_elapsed, aim_available, player_present, has_direction) == FireOutcome::Hold)
            == !(button_held && cooldown_elapsed && aim_available),
{
}

/// The number of projectiles whose first overlapped enemy is `e`.
pub open spec fn hits_on(overlaps: Seq<Seq<bool>>, e: int) -> int
    decreases overlaps.len(),
{
    if overlaps.len() == 0 {
        0
    } else {
        hits_on(overlaps.drop_last(), e) + if first_hit(overlaps.last()) == Some(e) { 1int } else { 0int }
    }
}

/// Each enemy loses one projectile's damage for every projectile whose first overlapped
/// enemy it is, and nothing else; an enemy no projectile reaches first keeps its health.
pub proof fn lemma_health_counts_first_hits(health: Seq<int>, overlaps: Seq<Seq<bool>>)
    requires
        forall|p: int| 0 <= p < overlaps.len() ==> #[trigger] overlaps[p].len() == health.len(),
    ensures
        health_after(health, overlaps).len() == health.len(),
        forall|e: int| 0 <= e < health.len() ==>
            #[trigger] health_after(health, overlaps)[e] == health[e] - PROJECTILE_DAMAGE as int * hits_on(overlaps, e),
    decreases overlaps.len(),
{
    lemma_health_after_len(health, overlaps);
    if overlaps.len() > 0 {
        let rest = overlaps.drop_last();
        assert forall|p: int| 0 <= p < rest.len() implies #[trigger] rest[p].len() == health.len() by {
            assert(rest[p] == overlaps[p]);
        }
        lemma_health_counts_first_hits(health, rest);
        lemma_health_after_len(health, rest);
        lemma_first_hit_bounds(overlaps.last());
        let before = health_after(health, rest);
        let after = health_after(health, overlaps);
        assert forall|e: int| 0 <= e < health.len() implies
            #[trigger] health_after(health, overlaps)[e] == health[e] - PROJECTILE_DAMAGE as int * hits_on(overlaps, e) by {
            assert(before[e] == health[e] - PROJECTILE_DAMAGE as int * hits_on(rest, e));
            if first_hit(overlaps.last()) == Some(e) {
                assert(after[e] == before[e] - PROJECTILE_DAMAGE as int);
                assert(hits_on(overlaps, e) == hits_on(rest, e) + 1);
            } else {
                assert(after[e] == before[e]);
                assert(hits_on(overlaps, e) == hits_on(rest, e));
            }
        }
    }
}

/// A projectile and an enemy are removed together exactly when the enemy is the first the
/// projectile overlaps and the hits it has taken up to and including that projectile leave
/// it with no health.
pub proof fn lemma_kills_exactly_finishing_hits(health: Seq<int>, overlaps: Seq<Seq<bool>>)
    requires
        forall|p: int| 0 <= p < overlaps.len() ==> #[trigger] overlaps[p].len() == health.len(),
    ensures
        forall|p: int, e: int| 0 <= p < overlaps.len() && 0 <= e < health.len() ==>
            (#[trigger] kills_after(health, overlaps).contains((p, e))
                <==> (first_hit(overlaps[p]) == Some(e)
                    && health[e] - PROJECTILE_DAMAGE as int * hits_on(overlaps.take(p + 1), e) <= 0)),
    decreases overlaps.len(),
{
    if overlaps.len() > 0 {
        let n = overlaps.len() as int;
        let rest = overlaps.drop_last();
        assert forall|p: int| 0 <= p < rest.len() implies #[trigger] rest[p].len() == health.len() by {
            assert(rest[p] == overlaps[p]);
        }
        lemma_kills_exactly_finishing_hits(health, rest);
        lemma_kills_are_finished_enemies(health, rest);
        lemma_health_counts_first_hits(health, rest);
        lemma_first_hit_bounds(overlaps.last());
        let earlier = kills_after(health, rest);
        let all = kills_after(health, overlaps);
        assert(overlaps.take(n) =~= overlaps);
        assert forall|p: int, e: int| 0 <= p < overlaps.len() && 0 <= e < health.len() implies
            (#[trigger] all.contains((p, e))
                <==> (first_hit(overlaps[p]) == Some(e)
                    && health[e] - PROJECTILE_DAMAGE as int * hits_on(overlaps.take(p + 1), e) <= 0)) by {
            if p < n - 1 {
                assert(overlaps.take(p + 1) =~= rest.take(p + 1));
                assert(rest[p] == overlaps[p]);
                // the last projectile only ever adds a pair for itself
                if all.contains((p, e)) {
                    let k = choose|k: int| 0 <= k < all.len() && all[k] == (p, e);
                    if k >= earlier.len() {
                        assert(all[k].0 == n - 1);
                    } else {
                        assert(all[k] == earlier[k]);
                    }
                    assert(earlier.contains((p, e)));
                }
                if earlier.contains((p, e)) {
                    let k = choose|k: int| 0 <= k < earlier.len() && earlier[k] == (p, e);
                    assert(all[k] == earlier[k]);
                }
            } else {
                assert(p == n - 1);
                assert(overlaps[p] == overlaps.last());
                assert(hits_on(overlaps, e) == hits_on(rest, e) + if first_hit(overlaps.last()) == Some(e) { 1int } else { 0int });
                // no earlier pair names the last projectile
                assert forall|k: int| 0 <= k < earlier.len() implies (#[trigger] earlier[k]).0 < n - 1 by {
                    let (q, f) = earlier[k];
                }
                if all.contains((p, e)) {
                    let k = choose|k: int| 0 <= k < all.len() && all[k] == (p, e);
                    if k < earlier.len() {
                        assert(all[k] == earlier[k]);
                    }
                }
                if first_hit(overlaps[p]) == Some(e)
                    && health[e] - PROJECTILE_DAMAGE as int * hits_on(overlaps.take(p + 1), e) <= 0 {
                    assert(all == earlier.push((p, e)));
                    assert(all[earlier.len() as int] == (p, e));
                }
            }
        }
    }
}

} // verus!
