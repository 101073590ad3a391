//! Selection of a free loopback port from an ordered list of candidates.
//!
//! Whether a port is free is only known to the operating system. The functions
//! here decide which port is chosen once that is known: `pick_free_port` for a
//! snapshot of the occupied ports, `first_free` as its mathematical statement.

use vstd::prelude::*;

verus! {

/// The loopback ports that a sign-in may listen on, in order of preference.
pub const CANDIDATE_PORTS: [u16; 5] = [3000, 8081, 8082, 8083, 8084];

/// The first element of `candidates` that is not in `occupied`, if there is one.
pub open spec fn first_free(candidates: Seq<u16>, occupied: Set<u16>) -> Option<u16>
    decreases candidates.len(),
{
    if candidates.len() == 0 {
        None
    } else if !occupied.contains(candidates[0]) {
        Some(candidates[0])
    } else {
        first_free(candidates.drop_first(), occupied)
    }
}

/// Every candidate before position `end` is occupied.
pub open spec fn occupied_before(candidates: Seq<u16>, occupied: Set<u16>, end: int) -> bool {
    forall|j: int| 0 <= j < end && j < candidates.len() ==> occupied.contains(#[trigger] candidates[j])
}

/// `port` is free and stands in `candidates` behind occupied ports only, or
/// there is no `port` and all of `candidates` are occupied.
pub open spec fn is_first_free(candidates: Seq<u16>, occupied: Set<u16>, port: Option<u16>) -> bool {
    match port {
        Some(p) => exists|i: int|
            0 <= i < candidates.len() && #[trigger] candidates[i] == p && !occupied.contains(p)
                && occupied_before(candidates, occupied, i),
        None => occupied_before(candidates, occupied, candidates.len() as int),
    }
}

/// The search skips a prefix of occupied candidates.
pub proof fn lemma_first_free_skips_occupied(candidates: Seq<u16>, occupied: Set<u16>, n: int)
    requires
        0 <= n <= candidates.len(),
        occupied_before(candidates, occupied, n),
    ensures
        first_free(candidates, occupied) == first_free(candidates.skip(n), occupied),
    decreases n,
{
    if n == 0 {
        assert(candidates.skip(0) =~= candidates);
    } else {
        lemma_first_free_skips_occupied(candidates, occupied, n - 1);
        let rest = candidates.skip(n - 1);
        assert(rest[0] == candidates[n - 1]);
        assert(rest.drop_first() =~= candidates.skip(n));
    }
}

/// What `first_free` returns fits its description: a free candidate behind
/// occupied ones only, or nothing where every candidate is occupied.
pub proof fn lemma_first_free_is_first(candidates: Seq<u16>, occupied: Set<u16>)
    ensures
        is_first_free(candidates, occupied, first_free(candidates, occupied)),
    decreases candidates.len(),
{
    if candidates.len() == 0 {
    } else if !occupied.contains(candidates[0]) {
        assert(occupied_before(candidates, occupied, 0));
    } else {
        let rest = candidates.drop_first();
        lemma_first_free_is_first(rest, occupied);
        assert forall|j: int| 0 < j < candidates.len() implies candidates[j] == rest[j - 1] by {}
        match first_free(rest, occupied) {
            Some(p) => {
                let i = choose|i: int|
                    0 <= i < rest.len() && #[trigger] rest[i] == p && !occupied.contains(p)
                        && occupied_before(rest, occupied, i);
                assert(candidates[i + 1] == p);
                assert(occupied_before(candidates, occupied, i + 1)) by {
                    assert forall|j: int| 0 <= j < i + 1 implies occupied.contains(
                        #[trigger] candidates[j],
                    ) by {
                        if j > 0 {
                            assert(occupied.contains(rest[j - 1]));
                        }
                    }
                }
            },
            None => {
                assert forall|j: int| 0 <= j < candidates.len() implies occupied.contains(
                    #[trigger] candidates[j],
                ) by {
                    if j > 0 {
                        assert(occupied.contains(rest[j - 1]));
                    }
                }
            },
        }
    }
}

/// No other answer fits the description: whatever is the first free
/// candidate, or the absence of one, is what `first_free` returns.
pub proof fn lemma_first_free_is_unique(candidates: Seq<u16>, occupied: Set<u16>, port: Option<u16>)
    requires
        is_first_free(candidates, occupied, port),
    ensures
        port == first_free(candidates, occupied),
{
    match port {
        Some(p) => {
            let i = choose|i: int|
                0 <= i < candidates.len() && #[trigger] candidates[i] == p && !occupied.contains(p)
                    && occupied_before(candidates, occupied, i);
            lemma_first_free_skips_occupied(candidates, occupied, i);
            assert(candidates.skip(i)[0] == p);
        },
        None => {
            lemma_first_free_skips_occupied(candidates, occupied, candidates.len() as int);
        },
    }
}

/// Nothing is picked if and only if every candidate is occupied.
pub proof fn lemma_none_free_iff_all_occupied(candidates: Seq<u16>, occupied: Set<u16>)
    ensures
        first_free(candidates, occupied) is None <==> forall|i: int|
            0 <= i < candidates.len() ==> occupied.contains(#[trigger] candidates[i]),
{
    lemma_first_free_is_first(candidates, occupied);
    if forall|i: int| 0 <= i < candidates.len() ==> occupied.contains(#[trigger] candidates[i]) {
        lemma_first_free_is_unique(candidates, occupied, None);
    }
}

/// Whether `port` is one of `ports`.
pub fn contains_port(ports: &[u16], port: u16) -> (found: bool)
    ensures
        found == ports@.contains(port),
{
    let mut i: usize = 0;
    while i < ports.len()
        invariant
            i <= ports.len(),
            forall|j: int| 0 <= j < i ==> ports@[j] != port,
        decreases ports.len() - i,
    {
        if ports[i] == port {
            return true;
        }
        i += 1;
    }
    false
}

/// The candidate ports as a vector, in order of preference.
pub fn candidate_ports() -> (ports: Vec<u16>)
    ensures
        ports@ == CANDIDATE_PORTS@,
        ports@ == seq![3000u16, 8081u16, 8082u16, 8083u16, 8084u16],
{
    let mut ports: Vec<u16> = Vec::new();
    let mut i: usize = 0;
    while i < 5
        invariant
            i <= 5,
            ports@ == CANDIDATE_PORTS@.take(i as int),
        decreases 5 - i,
    {
        ports.push(CANDIDATE_PORTS[i]);
        assert(CANDIDATE_PORTS@.take(i as int + 1) =~= CANDIDATE_PORTS@.take(i as int).push(
            CANDIDATE_PORTS@[i as int],
        ));
        i += 1;
    }
    assert(CANDIDATE_PORTS@.take(5) =~= CANDIDATE_PORTS@);
    assert(ports@ =~= seq![3000u16, 8081u16, 8082u16, 8083u16, 8084u16]);
    ports
}

/// Picks the port to listen on: the first of `candidates` that is not among
/// the `occupied` ports. Returns `None` if and only if all of them are occupied.
pub fn pick_free_port(candidates: &[u16], occupied: &[u16]) -> (port: Option<u16>)
    ensures
        port == first_free(candidates@, occupied@.to_set()),
        is_first_free(candidates@, occupied@.to_set(), port),
        port is None <==> forall|i: int|
            0 <= i < candidates@.len() ==> occupied@.contains(#[trigger] candidates@[i]),
{
    let ghost taken = occupied@.to_set();
    let mut i: usize = 0;
    while i < candidates.len()
        invariant
            i <= candidates.len(),
            taken == occupied@.to_set(),
            occupied_before(candidates@, taken, i as int),
        decreases candidates.len() - i,
    {
        let candidate = candidates[i];
        if !contains_port(occupied, candidate) {
            proof {
                assert(!occupied@.contains(candidates@[i as int]));
                lemma_first_free_is_unique(candidates@, taken, Some(candidate));
            }
            return Some(candidate);
        }
        i += 1;
    }
    proof {
        lemma_first_free_is_unique(candidates@, taken, None);
    }
    None
}

} // verus!
