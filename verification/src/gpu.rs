use vstd::prelude::*;

verus! {

/// Which of the surface's formats the library draws in: the first sRGB one, or else the first.
pub open spec fn preferred_format(is_srgb: Seq<bool>) -> int {
    if exists|i: int| 0 <= i < is_srgb.len() && is_srgb[i] {
        choose|i: int|
            0 <= i < is_srgb.len() && is_srgb[i] && forall|j: int| 0 <= j < i ==> !is_srgb[j]
    } else {
        0
    }
}

/// The index of the format to draw in, given for each format the surface offers whether it is
/// sRGB: the first sRGB format, or the first format when none is sRGB.
pub fn preferred_format_index(is_srgb: &[bool]) -> (i: usize)
    requires
        is_srgb@.len() > 0,
    ensures
        i < is_srgb@.len(),
        i == preferred_format(is_srgb@),
        (exists|k: int| 0 <= k < is_srgb@.len() && is_srgb@[k]) ==> is_srgb@[i as int],
        forall|j: int| 0 <= j < i ==> !is_srgb@[j],
        (forall|k: int| 0 <= k < is_srgb@.len() ==> !is_srgb@[k]) ==> i == 0,
{
    let mut i: usize = 0;
    while i < is_srgb.len()
        invariant
            i <= is_srgb@.len(),
            forall|j: int| 0 <= j < i ==> !is_srgb@[j],
        decreases is_srgb@.len() - i,
    {
        if is_srgb[i] {
            proof {
                let w = i as int;
                assert(0 <= w < is_srgb@.len() && is_srgb@[w]);
                let c = choose|c: int|
                    0 <= c < is_srgb@.len() && is_srgb@[c] && forall|j: int|
                        0 <= j < c ==> !is_srgb@[j];
                assert(0 <= c < is_srgb@.len() && is_srgb@[c] && forall|j: int|
                    0 <= j < c ==> !is_srgb@[j]);
                if c < w {
                    assert(!is_srgb@[c]);
                } else if w < c {
                    assert(!is_srgb@[w]);
                }
            }
            return i;
        }
        i += 1;
    }
    0
}

/// The order in which the queued draw commands run: none while the drawing surface is not
/// configured (`None`, and nothing is drawn), else the last queued first.
pub open spec fn render_order_spec(surface_ready: bool, n_commands: nat) -> Option<Seq<usize>> {
    if !surface_ready {
        None
    } else {
        Some(Seq::new(n_commands, |k: int| (n_commands - 1 - k) as usize))
    }
}

/// The indices of the queued draw commands in the order they run, or `None` when nothing is to
/// be drawn because the surface is not configured yet.
pub fn render_order(surface_ready: bool, n_commands: usize) -> (order: Option<Vec<usize>>)
    ensures
        match order {
            None => !surface_ready,
            Some(v) => surface_ready && v@ == render_order_spec(surface_ready, n_commands as nat)->0,
        },
        surface_ready ==> (order matches Some(v) && v@.len() == n_commands && forall|k: int|
            0 <= k < n_commands ==> v@[k] == n_commands - 1 - k),
{
    if !surface_ready {
        return None;
    }
    let mut v: Vec<usize> = Vec::new();
    let mut k: usize = 0;
    while k < n_commands
        invariant
            k <= n_commands,
            v@.len() == k,
            forall|j: int| 0 <= j < k ==> #[trigger] v@[j] == (n_commands - 1 - j) as usize,
        decreases n_commands - k,
    {
        v.push(n_commands - 1 - k);
        k += 1;
    }
    assert(v@ =~= Seq::new(n_commands as nat, |j: int| (n_commands - 1 - j) as usize));
    Some(v)
}

/// The chosen format is the first sRGB one when there is one, and the first format otherwise.
pub proof fn lemma_preferred_format(is_srgb: Seq<bool>)
    requires
        is_srgb.len() > 0,
    ensures
        0 <= preferred_format(is_srgb) < is_srgb.len(),
        (forall|k: int| 0 <= k < is_srgb.len() ==> !is_srgb[k]) ==> preferred_format(is_srgb) == 0,
        (exists|k: int| 0 <= k < is_srgb.len() && is_srgb[k]) ==> {
            &&& is_srgb[preferred_format(is_srgb)]
            &&& forall|j: int| 0 <= j < preferred_format(is_srgb) ==> !is_srgb[j]
        },
{
    if exists|k: int| 0 <= k < is_srgb.len() && is_srgb[k] {
        let k0 = choose|k: int| 0 <= k < is_srgb.len() && is_srgb[k];
        lemma_first_true(is_srgb, k0);
    }
}

proof fn lemma_first_true(s: Seq<bool>, k: int)
    requires
        0 <= k < s.len(),
        s[k],
    ensures
        exists|m: int| 0 <= m < s.len() && s[m] && forall|j: int| 0 <= j < m ==> !s[j],
    decreases k,
{
    if exists|j: int| 0 <= j < k && s[j] {
        let j = choose|j: int| 0 <= j < k && s[j];
        lemma_first_true(s, j);
    } else {
        assert(0 <= k < s.len() && s[k] && forall|j: int| 0 <= j < k ==> !s[j]);
    }
}

/// On a configured surface every queued command runs exactly once, the last queued first: the
/// command at position `k` of the order is the one queued `k`-th from the end. Before the surface
/// is configured nothing runs.
pub proof fn lemma_render_order_reverses(n: usize)
    ensures
        render_order_spec(false, n as nat) is None,
        render_order_spec(true, n as nat) matches Some(s) && s.len() == n && forall|k: int|
            0 <= k < n ==> s[k] == n - 1 - k,
{
    let s = render_order_spec(true, n as nat)->0;
    assert forall|k: int| 0 <= k < n implies s[k] == n - 1 - k by {
        assert(s[k] == (n - 1 - k) as usize);
    }
}

} // verus!
