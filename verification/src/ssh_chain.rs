//! Resolution of an SSH target's jump-host chain: which hops a tunnel
//! through that target goes through, and in which order.
use vstd::prelude::*;
use vstd::set_lib::{lemma_int_range, lemma_len_subset, set_int_range};

use std::collections::HashSet;

verus! {

/// Why a jump-host chain could not be resolved.
#[derive(Clone, Copy, Debug, PartialEq, Eq, Structural)]
pub enum ChainError {
    /// The chain comes back to this target: a cycle.
    Cycle(u128),
    /// This target does not resolve to an SSH target.
    Unresolvable(u128),
}

/// The number of distinct target ids.
pub open spec fn id_space() -> int {
    u128::MAX as int + 1
}

/// `lookup` may answer for `from` that it is an SSH target jumping through
/// `to` (`None`: no further jump).
pub open spec fn jumps<F: Fn(u128) -> Option<Option<u128>>>(lookup: F, from: u128, to: Option<u128>) -> bool {
    call_ensures(lookup, (from,), Some(to))
}

/// `p` is a jump path from `start`: distinct targets, each jumping through
/// the next.
pub open spec fn chain_prefix<F: Fn(u128) -> Option<Option<u128>>>(
    lookup: F,
    start: u128,
    p: Seq<u128>,
) -> bool {
    &&& p.no_duplicates()
    &&& p.len() > 0 ==> p[0] == start
    &&& forall|i: int| #![trigger p[i]] 0 <= i < p.len() - 1 ==> jumps(lookup, p[i], Some(p[i + 1]))
}

/// `p` is the whole jump chain from `start`: a jump path whose last target
/// jumps nowhere further.
pub open spec fn resolved_chain<F: Fn(u128) -> Option<Option<u128>>>(
    lookup: F,
    start: u128,
    p: Seq<u128>,
) -> bool {
    &&& chain_prefix(lookup, start, p)
    &&& p.len() > 0
    &&& jumps(lookup, p.last(), None)
}

/// The path `p` from `start` leads on to `next`: `next` is `start` itself
/// for the empty path, else the target the path's last target jumps through.
pub open spec fn leads_to<F: Fn(u128) -> Option<Option<u128>>>(
    lookup: F,
    start: u128,
    p: Seq<u128>,
    next: u128,
) -> bool {
    &&& chain_prefix(lookup, start, p)
    &&& p.len() == 0 ==> next == start
    &&& p.len() > 0 ==> jumps(lookup, p.last(), Some(next))
}

/// The jump path from `start` comes back to `id`, a target already on it.
pub open spec fn cycles_back<F: Fn(u128) -> Option<Option<u128>>>(
    lookup: F,
    start: u128,
    id: u128,
) -> bool {
    exists|p: Seq<u128>| leads_to(lookup, start, p, id) && #[trigger] p.contains(id)
}

/// The jump path from `start` leads to `id`, a new target that `lookup`
/// may answer is no SSH target.
pub open spec fn dead_ends<F: Fn(u128) -> Option<Option<u128>>>(
    lookup: F,
    start: u128,
    id: u128,
) -> bool {
    &&& call_ensures(lookup, (id,), None)
    &&& exists|p: Seq<u128>| leads_to(lookup, start, p, id) && !#[trigger] p.contains(id)
}

/// A sequence of distinct ids is no longer than the id space.
pub proof fn lemma_distinct_ids_bounded(s: Seq<u128>)
    requires
        s.no_duplicates(),
    ensures
        s.len() <= id_space(),
{
    let m = s.map_values(|x: u128| x as int);
    assert(m.no_duplicates()) by {
        assert forall|i: int, j: int| 0 <= i < m.len() && 0 <= j < m.len() && i != j implies m[i]
            != m[j] by {
            assert(s[i] != s[j]);
        }
    }
    m.unique_seq_to_set();
    lemma_int_range(0, id_space());
    assert(m.to_set().subset_of(set_int_range(0, id_space()))) by {
        assert forall|x: int| m.to_set().contains(x) implies set_int_range(0, id_space()).contains(
            x,
        ) by {
            let i = choose|i: int| 0 <= i < m.len() && m[i] == x;
            assert(m[i] == s[i] as int);
        }
    }
    lemma_len_subset(m.to_set(), set_int_range(0, id_space()));
}

/// Follows `jump_host` links from `start`, returning the ordered target ids
/// of the chain (the target itself first, then each successive jump host).
///
/// `lookup` resolves a target id: `Some(Some(jump))` — an SSH target that
/// jumps through `jump`; `Some(None)` — an SSH target with no jump host,
/// ending the chain; `None` — the id does not resolve to an SSH target. An
/// unresolvable id, or one that repeats (a cycle), fails resolution.
pub fn resolve_chain_ids<F: Fn(u128) -> Option<Option<u128>>>(start: u128, lookup: F) -> (r: Result<
    Vec<u128>,
    ChainError,
>)
    requires
        forall|id: u128| call_requires(lookup, (id,)),
    ensures
        r matches Ok(ids) ==> resolved_chain(lookup, start, ids@),
        r matches Err(ChainError::Cycle(id)) ==> cycles_back(lookup, start, id),
        r matches Err(ChainError::Unresolvable(id)) ==> dead_ends(lookup, start, id),
        deterministic(lookup) ==> (r is Ok <==> exists|p: Seq<u128>| resolved_chain(lookup, start, p)),
{
    broadcast use vstd::std_specs::hash::group_hash_axioms;

    let mut ids: Vec<u128> = Vec::new();
    let mut visited: HashSet<u128> = HashSet::new();
    let mut current = start;
    loop
        invariant
            forall|id: u128| call_requires(lookup, (id,)),
            leads_to(lookup, start, ids@, current),
            forall|x: u128| visited@.contains(x) <==> ids@.contains(x),
        decreases id_space() - ids@.len(),
    {
        proof {
            lemma_distinct_ids_bounded(ids@);
        }
        if !visited.insert(current) {
            assert(leads_to(lookup, start, ids@, current) && ids@.contains(current));
            proof {
                if deterministic(lookup) && exists|p: Seq<u128>| resolved_chain(lookup, start, p) {
                    let p = choose|p: Seq<u128>| resolved_chain(lookup, start, p);
                    law_chain_ids_resolution_is_exact(lookup, start, p, p, current);
                }
            }
            return Err(ChainError::Cycle(current));
        }
        let found = lookup(current);
        match found {
            None => {
                assert(leads_to(lookup, start, ids@, current) && !ids@.contains(current));
                proof {
                    if deterministic(lookup) && exists|p: Seq<u128>| resolved_chain(lookup, start, p) {
                        let p = choose|p: Seq<u128>| resolved_chain(lookup, start, p);
                        law_chain_ids_resolution_is_exact(lookup, start, p, p, current);
                    }
                }
                return Err(ChainError::Unresolvable(current));
            },
            Some(jump_host) => {
                let ghost old_ids = ids@;
                ids.push(current);
                proof {
                    assert(ids@ == old_ids.push(current));
                    assert forall|x: u128| visited@.contains(x) <==> ids@.contains(x) by {
                        if x == current {
                            assert(ids@[old_ids.len() as int] == x);
                        } else if old_ids.contains(x) {
                            let i = choose|i: int| 0 <= i < old_ids.len() && old_ids[i] == x;
                            assert(ids@[i] == x);
                        } else if ids@.contains(x) {
                            let i = choose|i: int| 0 <= i < ids@.len() && ids@[i] == x;
                            assert(i < old_ids.len() ==> old_ids[i] == x);
                        }
                    }
                    assert forall|i: int, j: int|
                        0 <= i < ids@.len() && 0 <= j < ids@.len() && i != j implies ids@[i]
                        != ids@[j] by {
                        if i < old_ids.len() && j < old_ids.len() {
                            assert(old_ids[i] != old_ids[j]);
                        } else if i < old_ids.len() {
                            assert(old_ids.contains(old_ids[i]));
                        } else {
                            assert(old_ids.contains(old_ids[j]));
                        }
                    }
                    assert forall|i: int| 0 <= i < ids@.len() - 1 implies #[trigger] jumps(
                        lookup,
                        ids@[i],
                        Some(ids@[i + 1]),
                    ) by {
                        if i < old_ids.len() - 1 {
                            assert(old_ids[i] == ids@[i]);
                            assert(old_ids[i + 1] == ids@[i + 1]);
                        }
                    }
                    lemma_distinct_ids_bounded(ids@);
                }
                match jump_host {
                    None => {
                        assert(resolved_chain(lookup, start, ids@));
                        return Ok(ids);
                    },
                    Some(next) => {
                        current = next;
                    },
                }
            },
        }
    }
}

/// `lookup` answers each id the same way every time it is called.
pub open spec fn deterministic<F: Fn(u128) -> Option<Option<u128>>>(lookup: F) -> bool {
    forall|x: u128, a: Option<Option<u128>>, b: Option<Option<u128>>|
        call_ensures(lookup, (x,), a) && call_ensures(lookup, (x,), b) ==> a == b
}

/// Two jump paths from the same start, under a deterministic lookup, agree
/// wherever both are defined.
pub proof fn lemma_jump_paths_agree<F: Fn(u128) -> Option<Option<u128>>>(
    lookup: F,
    start: u128,
    p: Seq<u128>,
    q: Seq<u128>,
    i: int,
)
    requires
        deterministic(lookup),
        chain_prefix(lookup, start, p),
        chain_prefix(lookup, start, q),
        0 <= i < p.len(),
        i < q.len(),
    ensures
        p[i] == q[i],
    decreases i,
{
    if i > 0 {
        lemma_jump_paths_agree(lookup, start, p, q, i - 1);
        assert(jumps(lookup, p[i - 1], Some(p[i])));
        assert(jumps(lookup, q[i - 1], Some(q[i])));
    }
}

/// Under a deterministic lookup, where a jump path leads on to `next`, the
/// resolved chain continues through `next` right after the path.
proof fn lemma_leads_on_chain<F: Fn(u128) -> Option<Option<u128>>>(
    lookup: F,
    start: u128,
    p: Seq<u128>,
    w: Seq<u128>,
    next: u128,
)
    requires
        deterministic(lookup),
        resolved_chain(lookup, start, p),
        leads_to(lookup, start, w, next),
    ensures
        w.len() < p.len(),
        p[w.len() as int] == next,
{
    if w.len() >= p.len() {
        lemma_jump_paths_agree(lookup, start, p, w, p.len() - 1);
        assert(jumps(lookup, p.last(), None));
        if w.len() > p.len() {
            assert(jumps(lookup, w[p.len() - 1], Some(w[p.len() as int])));
        } else {
            assert(jumps(lookup, w.last(), Some(next)));
        }
    } else if w.len() > 0 {
        lemma_jump_paths_agree(lookup, start, p, w, w.len() - 1);
        assert(jumps(lookup, p[w.len() - 1], Some(p[w.len() as int])));
        assert(jumps(lookup, w.last(), Some(next)));
    }
}

/// Under a lookup that answers each id the same way every time, the jump
/// chain of `start` is unique, and where it exists resolution cannot fail:
/// no cycle and no dead end is reachable. So `resolve_chain_ids` returns
/// `Ok` with exactly that chain whenever one exists.
pub proof fn law_chain_ids_resolution_is_exact<F: Fn(u128) -> Option<Option<u128>>>(
    lookup: F,
    start: u128,
    p: Seq<u128>,
    q: Seq<u128>,
    id: u128,
)
    requires
        deterministic(lookup),
        resolved_chain(lookup, start, p),
    ensures
        resolved_chain(lookup, start, q) ==> p == q,
        !cycles_back(lookup, start, id),
        !dead_ends(lookup, start, id),
{
    if resolved_chain(lookup, start, q) {
        if p.len() < q.len() {
            lemma_jump_paths_agree(lookup, start, p, q, p.len() - 1);
            assert(jumps(lookup, q[p.len() - 1], Some(q[p.len() as int])));
            assert(jumps(lookup, p.last(), None));
        } else if q.len() < p.len() {
            lemma_jump_paths_agree(lookup, start, p, q, q.len() - 1);
            assert(jumps(lookup, p[q.len() - 1], Some(p[q.len() as int])));
            assert(jumps(lookup, q.last(), None));
        }
        assert forall|i: int| 0 <= i < p.len() implies p[i] == q[i] by {
            lemma_jump_paths_agree(lookup, start, p, q, i);
        }
        assert(p =~= q);
    }
    if cycles_back(lookup, start, id) {
        let w = choose|w: Seq<u128>| leads_to(lookup, start, w, id) && #[trigger] w.contains(id);
        lemma_leads_on_chain(lookup, start, p, w, id);
        let j = choose|j: int| 0 <= j < w.len() && w[j] == id;
        lemma_jump_paths_agree(lookup, start, p, w, j);
        assert(p[j] == p[w.len() as int]);
    }
    if dead_ends(lookup, start, id) {
        let w = choose|w: Seq<u128>| leads_to(lookup, start, w, id) && !#[trigger] w.contains(id);
        lemma_leads_on_chain(lookup, start, p, w, id);
        let k = w.len() as int;
        if k + 1 < p.len() {
            assert(jumps(lookup, p[k], Some(p[k + 1])));
        } else {
            assert(jumps(lookup, p.last(), None));
        }
    }
}

/// A configured target as far as jump chains go: its id, and, for an SSH
/// target, the target it jumps through (`Some(None)`: none; `None`: not an
/// SSH target).
#[derive(Clone, Copy, Debug, PartialEq, Eq, Structural)]
pub struct TargetSummary {
    pub id: u128,
    pub ssh_jump_host: Option<Option<u128>>,
}

/// `i` is the position of the first target with id `id`.
pub open spec fn first_with_id(targets: Seq<TargetSummary>, id: u128, i: int) -> bool {
    &&& 0 <= i < targets.len()
    &&& targets[i].id == id
    &&& forall|j: int| 0 <= j < i ==> targets[j].id != id
}

/// What the target list says of `id`: the jump host of the first target
/// with that id if it is an SSH target, else `None`.
pub open spec fn lookup_in(targets: Seq<TargetSummary>, id: u128) -> Option<Option<u128>> {
    if exists|i: int| first_with_id(targets, id, i) {
        targets[choose|i: int| first_with_id(targets, id, i)].ssh_jump_host
    } else {
        None
    }
}

/// `p` is a jump path from `start` through the configured targets.
pub open spec fn path_in(targets: Seq<TargetSummary>, start: u128, p: Seq<u128>) -> bool {
    &&& p.no_duplicates()
    &&& p.len() > 0 ==> p[0] == start
    &&& forall|i: int| #![trigger p[i]] 0 <= i < p.len() - 1 ==> lookup_in(targets, p[i]) == Some(Some(p[i + 1]))
}

/// `p` is the whole jump chain of `start` through the configured targets.
pub open spec fn chain_in(targets: Seq<TargetSummary>, start: u128, p: Seq<u128>) -> bool {
    &&& path_in(targets, start, p)
    &&& p.len() > 0
    &&& lookup_in(targets, p.last()) == Some(None::<u128>)
}

/// The path `p` leads on to `next`.
pub open spec fn leads_to_in(targets: Seq<TargetSummary>, start: u128, p: Seq<u128>, next: u128) -> bool {
    &&& path_in(targets, start, p)
    &&& p.len() == 0 ==> next == start
    &&& p.len() > 0 ==> lookup_in(targets, p.last()) == Some(Some(next))
}

/// The chain of `start` comes back to `id`.
pub open spec fn cycles_back_in(targets: Seq<TargetSummary>, start: u128, id: u128) -> bool {
    exists|p: Seq<u128>| leads_to_in(targets, start, p, id) && #[trigger] p.contains(id)
}

/// The chain of `start` reaches `id`, which is no SSH target.
pub open spec fn dead_ends_in(targets: Seq<TargetSummary>, start: u128, id: u128) -> bool {
    &&& lookup_in(targets, id) is None
    &&& exists|p: Seq<u128>| leads_to_in(targets, start, p, id) && !#[trigger] p.contains(id)
}

/// The ids of the targets at the given positions.
pub open spec fn ids_at(targets: Seq<TargetSummary>, idx: Seq<usize>) -> Seq<u128> {
    idx.map_values(|i: usize| targets[i as int].id)
}

/// Finds the first target with id `id`.
fn find_target(targets: &Vec<TargetSummary>, id: u128) -> (r: Option<usize>)
    ensures
        match r {
            Some(i) => first_with_id(targets@, id, i as int),
            None => !exists|i: int| first_with_id(targets@, id, i),
        },
{
    for i in 0..targets.len()
        invariant
            forall|j: int| 0 <= j < i ==> targets@[j].id != id,
    {
        if targets[i].id == id {
            return Some(i);
        }
    }
    None
}

proof fn lemma_first_with_id_unique(targets: Seq<TargetSummary>, id: u128, i: int, k: int)
    requires
        first_with_id(targets, id, i),
        first_with_id(targets, id, k),
    ensures
        i == k,
{
    if i < k {
        assert(targets[i].id != id);
    } else if k < i {
        assert(targets[k].id != id);
    }
}

/// Looks `id` up among the targets.
fn lookup_target(targets: &Vec<TargetSummary>, id: u128) -> (r: Option<Option<u128>>)
    ensures
        r == lookup_in(targets@, id),
{
    match find_target(targets, id) {
        Some(i) => {
            proof {
                let k = choose|k: int| first_with_id(targets@, id, k);
                lemma_first_with_id_unique(targets@, id, i as int, k);
            }
            targets[i].ssh_jump_host
        },
        None => None,
    }
}

/// Two jump paths from the same start agree wherever both are defined.
pub proof fn lemma_paths_agree(targets: Seq<TargetSummary>, start: u128, p: Seq<u128>, q: Seq<u128>, i: int)
    requires
        path_in(targets, start, p),
        path_in(targets, start, q),
        0 <= i < p.len(),
        i < q.len(),
    ensures
        p[i] == q[i],
    decreases i,
{
    if i > 0 {
        lemma_paths_agree(targets, start, p, q, i - 1);
        assert(lookup_in(targets, p[i - 1]) == Some(Some(p[i])));
        assert(lookup_in(targets, q[i - 1]) == Some(Some(q[i])));
    }
}

/// A target's jump chain is unique, and resolution fails (a cycle, or a
/// target that is no SSH target) exactly where no chain exists.
pub proof fn law_chain_resolution_is_exact(targets: Seq<TargetSummary>, start: u128, p: Seq<u128>, q: Seq<u128>, id: u128)
    requires
        chain_in(targets, start, p),
    ensures
        chain_in(targets, start, q) ==> p == q,
        !cycles_back_in(targets, start, id),
        !dead_ends_in(targets, start, id),
{
    if chain_in(targets, start, q) {
        if p.len() < q.len() {
            lemma_paths_agree(targets, start, p, q, p.len() - 1);
            assert(lookup_in(targets, q[p.len() - 1]) == Some(Some(q[p.len() as int])));
        } else if q.len() < p.len() {
            lemma_paths_agree(targets, start, p, q, q.len() - 1);
            assert(lookup_in(targets, p[q.len() - 1]) == Some(Some(p[q.len() as int])));
        }
        assert forall|i: int| 0 <= i < p.len() implies p[i] == q[i] by {
            lemma_paths_agree(targets, start, p, q, i);
        }
        assert(p =~= q);
    }
    if cycles_back_in(targets, start, id) {
        let w = choose|w: Seq<u128>| leads_to_in(targets, start, w, id) && #[trigger] w.contains(id);
        lemma_leads_to_is_on_chain(targets, start, p, w, id);
        let j = choose|j: int| 0 <= j < w.len() && w[j] == id;
        lemma_paths_agree(targets, start, p, w, j);
        assert(p[j] == p[w.len() as int]);
    }
    if dead_ends_in(targets, start, id) {
        let w = choose|w: Seq<u128>| leads_to_in(targets, start, w, id) && !#[trigger] w.contains(id);
        lemma_leads_to_is_on_chain(targets, start, p, w, id);
        if w.len() + 1 < p.len() {
            assert(lookup_in(targets, p[w.len() as int]) == Some(Some(p[w.len() as int + 1])));
        }
    }
}

/// Where a jump path leads on to `next`, the chain continues through
/// `next` right after the path.
proof fn lemma_leads_to_is_on_chain(targets: Seq<TargetSummary>, start: u128, p: Seq<u128>, w: Seq<u128>, next: u128)
    requires
        chain_in(targets, start, p),
        leads_to_in(targets, start, w, next),
    ensures
        w.len() < p.len(),
        p[w.len() as int] == next,
{
    if w.len() >= p.len() {
        lemma_paths_agree(targets, start, p, w, p.len() - 1);
        if w.len() > p.len() {
            assert(lookup_in(targets, w[p.len() - 1]) == Some(Some(w[p.len() as int])));
        }
    } else if w.len() > 0 {
        lemma_paths_agree(targets, start, p, w, w.len() - 1);
        assert(lookup_in(targets, p[w.len() - 1]) == Some(Some(p[w.len() as int])));
    }
}

/// Resolves the full ordered SSH jump chain for `start` through the
/// configured targets: the positions of its targets, the outermost jump host
/// first and `start` itself last - the order a tunnel connects hop by hop.
pub fn resolve_chain(targets: &Vec<TargetSummary>, start: u128) -> (r: Result<Vec<usize>, ChainError>)
    ensures
        r matches Ok(idx) ==> {
            &&& chain_in(targets@, start, ids_at(targets@, idx@).reverse())
            &&& forall|k: int| #![trigger idx@[k]] 0 <= k < idx@.len() ==> first_with_id(targets@, targets@[idx@[k] as int].id, idx@[k] as int)
        },
        r matches Err(ChainError::Cycle(id)) ==> cycles_back_in(targets@, start, id),
        r matches Err(ChainError::Unresolvable(id)) ==> dead_ends_in(targets@, start, id),
        r is Ok <==> exists|p: Seq<u128>| chain_in(targets@, start, p),
{
    let lookup = |id: u128| -> (j: Option<Option<u128>>)
        ensures
            j == lookup_in(targets@, id),
        { lookup_target(targets, id) };
    let resolved = resolve_chain_ids(start, lookup);
    let ids = match resolved {
        Ok(ids) => ids,
        Err(e) => {
            proof {
                match e {
                    ChainError::Cycle(id) => {
                        let w = choose|w: Seq<u128>| leads_to(lookup, start, w, id) && #[trigger] w.contains(id);
                        assert(leads_to_in(targets@, start, w, id));
                        if exists|p: Seq<u128>| chain_in(targets@, start, p) {
                            let p = choose|p: Seq<u128>| chain_in(targets@, start, p);
                            law_chain_resolution_is_exact(targets@, start, p, p, id);
                        }
                    },
                    ChainError::Unresolvable(id) => {
                        let w = choose|w: Seq<u128>| leads_to(lookup, start, w, id) && !#[trigger] w.contains(id);
                        assert(leads_to_in(targets@, start, w, id));
                        if exists|p: Seq<u128>| chain_in(targets@, start, p) {
                            let p = choose|p: Seq<u128>| chain_in(targets@, start, p);
                            law_chain_resolution_is_exact(targets@, start, p, p, id);
                        }
                    },
                }
            }
            return Err(e);
        },
    };
    let n = ids.len();
    let mut out: Vec<usize> = Vec::new();
    let mut k = n;
    while k > 0
        invariant
            k <= n == ids@.len(),
            resolved_chain(lookup, start, ids@),
            forall|x: u128, j: Option<Option<u128>>| call_ensures(lookup, (x,), j) ==> j
                == lookup_in(targets@, x),
            out@.len() == n - k,
            forall|m: int| #![trigger out@[m]] 0 <= m < out@.len() ==> first_with_id(targets@, ids@[n - 1 - m], out@[m] as int),
        decreases k,
    {
        k = k - 1;
        let id = ids[k];
        match find_target(targets, id) {
            Some(i) => {
                out.push(i);
            },
            None => {
                proof {
                    if k + 1 < n {
                        assert(jumps(lookup, ids@[k as int], Some(ids@[k as int + 1])));
                    } else {
                        assert(jumps(lookup, ids@.last(), None));
                    }
                    assert(lookup_in(targets@, id) is Some);
                    assert(false);
                }
                return Err(ChainError::Unresolvable(id));
            },
        }
    }
    proof {
        let chain = ids_at(targets@, out@).reverse();
        assert forall|m: int| 0 <= m < n implies chain[m] == ids@[m] by {
            assert(first_with_id(targets@, ids@[n - 1 - (n - 1 - m)], out@[n - 1 - m] as int));
        }
        assert(chain =~= ids@);
        assert forall|i: int| #![trigger ids@[i]] 0 <= i < ids@.len() - 1 implies lookup_in(targets@, ids@[i]) == Some(Some(ids@[i + 1])) by {
            assert(jumps(lookup, ids@[i], Some(ids@[i + 1])));
        }
        assert(jumps(lookup, ids@.last(), None));
        assert(chain_in(targets@, start, ids@));
    }
    Ok(out)
}

/// `lookup` answers as the target list does.
pub open spec fn answers_as<F: Fn(u128) -> Option<Option<u128>>>(
    lookup: F,
    targets: Seq<TargetSummary>,
) -> bool {
    forall|x: u128, j: Option<Option<u128>>| call_ensures(lookup, (x,), j) ==> j == lookup_in(targets, x)
}

/// A jump path under a lookup that answers as the target list does is a
/// path through the targets.
proof fn lemma_leads_to_in_targets<F: Fn(u128) -> Option<Option<u128>>>(
    lookup: F,
    targets: Seq<TargetSummary>,
    start: u128,
    w: Seq<u128>,
    next: u128,
)
    requires
        answers_as(lookup, targets),
        leads_to(lookup, start, w, next),
    ensures
        leads_to_in(targets, start, w, next),
{
    assert forall|i: int| #![trigger w[i]] 0 <= i < w.len() - 1 implies lookup_in(targets, w[i]) == Some(
        Some(w[i + 1]),
    ) by {
        assert(jumps(lookup, w[i], Some(w[i + 1])));
    }
    if w.len() > 0 {
        assert(jumps(lookup, w.last(), Some(next)));
    }
}

/// `resolve_chain` agrees with `resolve_chain_ids` run on a lookup that
/// answers as the target list does: such a lookup is deterministic (so
/// `resolve_chain_ids` succeeds exactly where its chain exists); where the
/// ids resolve, the targets' chain exists, cannot fail, and its positions
/// name those ids in reverse (outermost jump host first); where the
/// targets' chain exists, the ids cannot fail to resolve either. With the
/// success clauses of both functions, one returns `Ok` exactly when the
/// other does.
pub proof fn law_chain_agrees_with_chain_ids<F: Fn(u128) -> Option<Option<u128>>>(
    lookup: F,
    targets: Seq<TargetSummary>,
    start: u128,
    ids: Seq<u128>,
    idx: Seq<usize>,
    id: u128,
)
    requires
        answers_as(lookup, targets),
    ensures
        deterministic(lookup),
        resolved_chain(lookup, start, ids) && chain_in(targets, start, ids_at(targets, idx).reverse())
            ==> ids_at(targets, idx) == ids.reverse(),
        resolved_chain(lookup, start, ids) ==> !cycles_back_in(targets, start, id) && !dead_ends_in(
            targets,
            start,
            id,
        ),
        chain_in(targets, start, ids_at(targets, idx).reverse()) ==> !cycles_back(lookup, start, id)
            && !dead_ends(lookup, start, id),
{
    if resolved_chain(lookup, start, ids) {
        assert forall|i: int| #![trigger ids[i]] 0 <= i < ids.len() - 1 implies lookup_in(
            targets,
            ids[i],
        ) == Some(Some(ids[i + 1])) by {
            assert(jumps(lookup, ids[i], Some(ids[i + 1])));
        }
        assert(jumps(lookup, ids.last(), None));
        assert(chain_in(targets, start, ids));
        law_chain_resolution_is_exact(targets, start, ids, ids_at(targets, idx).reverse(), id);
        if chain_in(targets, start, ids_at(targets, idx).reverse()) {
            assert(ids_at(targets, idx).reverse().reverse() =~= ids_at(targets, idx));
        }
    }
    let chain = ids_at(targets, idx).reverse();
    if chain_in(targets, start, chain) {
        if cycles_back(lookup, start, id) {
            let w = choose|w: Seq<u128>| leads_to(lookup, start, w, id) && #[trigger] w.contains(id);
            lemma_leads_to_in_targets(lookup, targets, start, w, id);
            assert(cycles_back_in(targets, start, id));
            law_chain_resolution_is_exact(targets, start, chain, chain, id);
        }
        if dead_ends(lookup, start, id) {
            let w = choose|w: Seq<u128>| leads_to(lookup, start, w, id) && !#[trigger] w.contains(id);
            lemma_leads_to_in_targets(lookup, targets, start, w, id);
            assert(dead_ends_in(targets, start, id));
            law_chain_resolution_is_exact(targets, start, chain, chain, id);
        }
    }
}

} // verus!
