use vstd::prelude::*;

verus! {

/// The number of perimeter points a circle mesh gets: at least three.
pub open spec fn circle_points(resolution: u32) -> nat {
    if resolution < 3 { 3 } else { resolution as nat }
}

/// Index `j` of the index list of a circle mesh with `n` perimeter points: triangle `t = j / 3`
/// is (centre, point `t`, point `t + 1` modulo `n`), vertex 0 being the centre and vertex `k + 1`
/// perimeter point `k`; as 16-bit indices, the numbers wrap modulo 65536.
pub open spec fn circle_index(n: nat, j: nat) -> u16
    recommends
        n > 0,
{
    let t = j / 3;
    if j % 3 == 0 {
        0
    } else if j % 3 == 1 {
        ((t + 1) % 65536) as u16
    } else {
        ((((t + 1) % n) + 1) % 65536) as u16
    }
}

/// The number of perimeter points a circle mesh of the given resolution gets.
pub fn circle_resolution(resolution: u32) -> (n: u32)
    ensures
        n == circle_points(resolution),
        resolution < 3 ==> n == 3,
        resolution >= 3 ==> n == resolution,
{
    if resolution < 3 {
        3
    } else {
        resolution
    }
}

/// The triangle indices of a circle mesh: a fan of `circle_points(resolution)` triangles around
/// the centre vertex.
pub fn circle_indices(resolution: u32) -> (indices: Vec<u16>)
    ensures
        indices@.len() == 3 * circle_points(resolution),
        indices@.len() == 3 * (if resolution < 3 { 3 } else { resolution as int }),
        forall|t: int|
            0 <= t < (if resolution < 3 { 3 } else { resolution as int }) ==> {
                &&& #[trigger] indices@[3 * t] == 0
                &&& indices@[3 * t + 1] == ((t + 1) % 65536) as u16
                &&& indices@[3 * t + 2] == (((t + 1) % (if resolution < 3 {
                    3
                } else {
                    resolution as int
                }) + 1) % 65536) as u16
            },
        forall|j: int|
            0 <= j < indices@.len() ==> #[trigger] indices@[j] == circle_index(
                circle_points(resolution),
                j as nat,
            ),
        circle_points(resolution) < 65536 ==> forall|j: int|
            0 <= j < indices@.len() ==> #[trigger] indices@[j] <= circle_points(resolution),
{
    let n = circle_resolution(resolution);
    let mut indices: Vec<u16> = Vec::new();
    let mut i: u32 = 0;
    while i < n
        invariant
            n == circle_points(resolution),
            i <= n,
            indices@.len() == 3 * i,
            forall|j: int|
                0 <= j < indices@.len() ==> #[trigger] indices@[j] == circle_index(n as nat, j as nat),
        decreases n - i,
    {
        let p1: u32 = i + 1;
        let p2: u32 = (i + 1) % n + 1;
        indices.push(0);
        indices.push((p1 % 65536) as u16);
        indices.push((p2 % 65536) as u16);
        proof {
            let base = 3 * i as int;
            assert forall|j: int| 0 <= j < indices@.len() implies #[trigger] indices@[j]
                == circle_index(n as nat, j as nat) by {
                if j >= base {
                    assert(j / 3 == i as int) by (nonlinear_arith)
                        requires
                            base == 3 * i,
                            base <= j < base + 3,
                    ;
                    assert(j % 3 == j - base) by (nonlinear_arith)
                        requires
                            base == 3 * i,
                            base <= j < base + 3,
                    ;
                }
            }
        }
        i = i + 1;
    }
    proof {
        assert forall|t: int| 0 <= t < n implies {
            &&& #[trigger] indices@[3 * t] == 0
            &&& indices@[3 * t + 1] == ((t + 1) % 65536) as u16
            &&& indices@[3 * t + 2] == (((t + 1) % (n as int) + 1) % 65536) as u16
        } by {
            assert((3 * t) / 3 == t && (3 * t) % 3 == 0) by (nonlinear_arith);
            assert((3 * t + 1) / 3 == t && (3 * t + 1) % 3 == 1) by (nonlinear_arith);
            assert((3 * t + 2) / 3 == t && (3 * t + 2) % 3 == 2) by (nonlinear_arith);
            assert(3 * t + 2 < 3 * n) by (nonlinear_arith)
                requires
                    t < n,
            ;
            assert(indices@[3 * t] == circle_index(n as nat, (3 * t) as nat));
            assert(indices@[3 * t + 1] == circle_index(n as nat, (3 * t + 1) as nat));
            assert(indices@[3 * t + 2] == circle_index(n as nat, (3 * t + 2) as nat));
        }
        if n < 65536 {
            assert forall|j: int| 0 <= j < indices@.len() implies #[trigger] indices@[j] <= n by {
                let t = j / 3;
                assert(t < n) by (nonlinear_arith)
                    requires
                        0 <= j < 3 * n,
                        t == j / 3,
                ;
                assert(((t + 1) % (n as int)) + 1 <= n);
            }
        }
    }
    indices
}

/// A circle mesh has at least three perimeter points, and exactly as many as asked for when
/// that is three or more.
pub proof fn lemma_circle_points(resolution: u32)
    ensures
        circle_points(resolution) >= 3,
        circle_points(resolution) >= resolution,
        resolution >= 3 ==> circle_points(resolution) == resolution,
        resolution < 3 ==> circle_points(resolution) == 3,
{
}

/// Triangle `t` of a circle mesh with `n` perimeter points joins the centre (vertex 0) to
/// perimeter points `t` and `t + 1` (vertices `t + 1` and `t + 2`), the last one wrapping round to
/// the first; with fewer than 65536 points no index wraps.
pub proof fn lemma_circle_triangle(n: nat, t: nat)
    requires
        3 <= n < 65536,
        t < n,
    ensures
        circle_index(n, 3 * t) == 0,
        circle_index(n, 3 * t + 1) == t + 1,
        t + 1 < n ==> circle_index(n, 3 * t + 2) == t + 2,
        t + 1 == n ==> circle_index(n, 3 * t + 2) == 1,
{
    assert((3 * t) / 3 == t && (3 * t) % 3 == 0) by (nonlinear_arith);
    assert((3 * t + 1) / 3 == t && (3 * t + 1) % 3 == 1) by (nonlinear_arith);
    assert((3 * t + 2) / 3 == t && (3 * t + 2) % 3 == 2) by (nonlinear_arith);
    if t + 1 < n {
        vstd::arithmetic::div_mod::lemma_small_mod((t + 1) as nat, n);
        vstd::arithmetic::div_mod::lemma_small_mod((t + 2) as nat, 65536);
    } else {
        vstd::arithmetic::div_mod::lemma_mod_self_0(n as int);
    }
    vstd::arithmetic::div_mod::lemma_small_mod((t + 1) as nat, 65536);
}

} // verus!
