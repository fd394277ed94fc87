use vstd::prelude::*;

verus! {

/// The index list of a triangle fan over `vertex_count` vertices whose vertex 0 is the
/// centre: one triangle `(0, k, k + 1)` for each `k` from 1 to `vertex_count - 2`.
pub open spec fn fan_indices_of(vertex_count: int) -> Seq<u32> {
    let triangles = if vertex_count >= 2 { vertex_count - 2 } else { 0 };
    Seq::new((3 * triangles) as nat, |j: int|
        if j % 3 == 0 { 0u32 } else if j % 3 == 1 { (j / 3 + 1) as u32 } else { (j / 3 + 2) as u32 })
}

/// The triangle list of the light polygon: the light source is vertex 0 and the ray hit
/// points follow in angular order; consecutive hit points form a triangle with the source.
pub fn fan_indices(vertex_count: usize) -> (r: Vec<u32>)
    requires
        1 <= vertex_count,
        vertex_count - 1 <= u32::MAX,
    ensures
        r@ == fan_indices_of(vertex_count as int),
{
    let mut indices: Vec<u32> = Vec::new();
    let last = vertex_count - 1;
    let mut i: usize = 1;
    while i < last
        invariant
            1 <= i,
            last == vertex_count - 1,
            last <= u32::MAX,
            i <= last || (last == 0 && i == 1),
            indices@.len() == 3 * (i - 1),
            forall|j: int| 0 <= j < indices@.len() ==> #[trigger] indices@[j] == fan_indices_of(vertex_count as int)[j],
        decreases last - i,
    {
        let ghost before = indices@;
        indices.push(0u32);
        indices.push(i as u32);
        indices.push((i + 1) as u32);
        proof {
            let whole = fan_indices_of(vertex_count as int);
            let b = 3 * (i - 1);
            assert(whole.len() >= b + 3);
            assert(b % 3 == 0 && b / 3 == i - 1);
            assert((b + 1) % 3 == 1 && (b + 1) / 3 == i - 1);
            assert((b + 2) % 3 == 2 && (b + 2) / 3 == i - 1);
            assert forall|j: int| 0 <= j < indices@.len() implies #[trigger] indices@[j] == whole[j] by {
                if j < b {
                    assert(indices@[j] == before[j]);
                }
            }
        }
        i = i + 1;
    }
    proof {
        let whole = fan_indices_of(vertex_count as int);
        if vertex_count >= 2 {
            assert(i == last);
            assert(whole.len() == 3 * (vertex_count - 2));
        } else {
            assert(whole.len() == 0);
        }
        assert(indices@.len() == whole.len());
        assert(indices@ =~= whole);
    }
    indices
}

/// The fan has one triangle `(0, t + 1, t + 2)` for every `t` below `vertex_count - 2`,
/// in that order and nothing else: every ray hit point is covered, every index names an
/// existing vertex, and every triangle starts at the centre.
pub proof fn lemma_fan_indices_well_formed(vertex_count: int)
    requires
        1 <= vertex_count,
        vertex_count - 1 <= u32::MAX,
    ensures
        vertex_count >= 2 ==> fan_indices_of(vertex_count).len() == 3 * (vertex_count - 2),
        vertex_count < 2 ==> fan_indices_of(vertex_count).len() == 0,
        forall|t: int| 0 <= t < vertex_count - 2 ==> {
            &&& #[trigger] fan_indices_of(vertex_count)[3 * t] == 0
            &&& fan_indices_of(vertex_count)[3 * t + 1] == t + 1
            &&& fan_indices_of(vertex_count)[3 * t + 2] == t + 2
        },
        forall|j: int| 0 <= j < fan_indices_of(vertex_count).len() ==> (#[trigger] fan_indices_of(vertex_count)[j]) < vertex_count,
        fan_indices_of(vertex_count).len() % 3 == 0,
{
    let whole = fan_indices_of(vertex_count);
    assert forall|j: int| 0 <= j < whole.len() implies (#[trigger] whole[j]) < vertex_count by {
        assert(j / 3 <= vertex_count - 3);
    }
    assert forall|t: int| 0 <= t < vertex_count - 2 implies {
        &&& #[trigger] whole[3 * t] == 0
        &&& whole[3 * t + 1] == t + 1
        &&& whole[3 * t + 2] == t + 2
    } by {
        assert((3 * t) % 3 == 0 && (3 * t) / 3 == t);
        assert((3 * t + 1) % 3 == 1 && (3 * t + 1) / 3 == t);
        assert((3 * t + 2) % 3 == 2 && (3 * t + 2) / 3 == t);
    }
}

} // verus!
