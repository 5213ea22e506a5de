//! The mathematics of the slot map: who sits where, what collapsing the gaps
//! means, and the laws that follow.

use vstd::prelude::*;
use crate::error::PlayerHandlerError;

verus! {

/// Player `id` sits in slot `slot` of `m`.
pub open spec fn seated_at(m: Map<usize, u128>, slot: usize, id: u128) -> bool {
    m.contains_key(slot) && m[slot] == id
}

/// Player `id` sits in some slot of `m`.
pub open spec fn is_seated(m: Map<usize, u128>, id: u128) -> bool {
    exists|slot: usize| seated_at(m, slot, id)
}

/// No player sits in two slots of `m`.
pub open spec fn ids_unique(m: Map<usize, u128>) -> bool {
    forall|a: usize, b: usize|
        m.contains_key(a) && m.contains_key(b) && m[a] == m[b] ==> a == b
}

/// Every occupied slot of `m` lies in `1..=limit`.
pub open spec fn within_limit(m: Map<usize, u128>, limit: usize) -> bool {
    forall|k: usize| m.contains_key(k) ==> 1 <= k <= limit
}

/// Every slot in `1..=limit` is occupied.
pub open spec fn window_full(m: Map<usize, u128>, limit: usize) -> bool {
    forall|k: usize| 1 <= k <= limit ==> m.contains_key(k)
}

/// The occupied slots of `m` are exactly `1..=n`.
pub open spec fn is_contiguous(m: Map<usize, u128>, n: nat) -> bool {
    forall|k: usize| m.contains_key(k) <==> 1 <= k <= n
}

/// `listed` names the players of `m`, one entry for every occupied slot,
/// the slots taken in the order `order`.
pub open spec fn lists_roster(m: Map<usize, u128>, order: Seq<usize>, listed: Seq<u128>) -> bool {
    &&& order.no_duplicates()
    &&& order.len() == listed.len()
    &&& forall|k: usize| m.contains_key(k) <==> order.contains(k)
    &&& forall|i: int| 0 <= i < order.len() ==> listed[i] == m[#[trigger] order[i]]
}

/// The roster `m` is in order under the limit `limit`: no player sits
/// twice, the occupied slots are exactly `1..=N` for the `N` players of the
/// roster, and there are no more players than the limit allows.
pub open spec fn orderly(m: Map<usize, u128>, limit: usize) -> bool {
    &&& ids_unique(m)
    &&& m.dom().finite()
    &&& is_contiguous(m, m.len())
    &&& m.len() <= limit
}

/// `top` is the highest occupied slot of `m`.
pub open spec fn is_top_slot(m: Map<usize, u128>, top: usize) -> bool {
    m.contains_key(top) && forall|k: usize| m.contains_key(k) ==> k <= top
}

/// `slot` is where the next player is seated: one above the highest occupied
/// slot, or slot 1 in an empty map.
pub open spec fn is_next_slot(m: Map<usize, u128>, slot: usize) -> bool {
    if m.dom() =~= Set::<usize>::empty() {
        slot == 1
    } else {
        slot >= 1 && is_top_slot(m, (slot - 1) as usize)
    }
}

/// The players seated in slots `1..=upto`, in slot order.
pub open spec fn occupants(m: Map<usize, u128>, upto: nat) -> Seq<u128>
    decreases upto,
{
    if upto == 0 {
        Seq::empty()
    } else if m.contains_key(upto as usize) {
        occupants(m, (upto - 1) as nat).push(m[upto as usize])
    } else {
        occupants(m, (upto - 1) as nat)
    }
}

/// The slot map after its gaps are collapsed: the occupants of `1..=limit`
/// keep their order and fill slots `1..=N`; slots outside `1..=limit` are
/// left as they are.
pub open spec fn collapsed(m: Map<usize, u128>, limit: usize) -> Map<usize, u128> {
    let occ = occupants(m, limit as nat);
    Map::new(
        |k: usize|
            if 1 <= k <= limit {
                k <= occ.len()
            } else {
                m.contains_key(k)
            },
        |k: usize|
            if 1 <= k <= limit {
                occ[k - 1]
            } else {
                m[k]
            },
    )
}

/// Player `id` leaves `before` and the gap is collapsed, which gives
/// `after`: possible only with a limit configured and a free slot left in
/// `1..=limit` once the player is gone.
pub open spec fn leaves(
    before: Map<usize, u128>,
    id: u128,
    limit: Option<usize>,
    after: Map<usize, u128>,
) -> bool {
    &&& limit is Some
    &&& exists|slot: usize|
        #![trigger seated_at(before, slot, id)]
        {
            &&& seated_at(before, slot, id)
            &&& !window_full(before.remove(slot), limit.unwrap())
            &&& after == collapsed(before.remove(slot), limit.unwrap())
        }
}

/// Player `id` is taken out of its slot in `before`, which gives `after`,
/// but the gap cannot be collapsed: no limit is configured
/// (`missing_limit`), or no slot in `1..=limit` is free.
pub open spec fn leaves_a_gap(
    before: Map<usize, u128>,
    id: u128,
    limit: Option<usize>,
    after: Map<usize, u128>,
    missing_limit: bool,
) -> bool {
    exists|slot: usize|
        #![trigger seated_at(before, slot, id)]
        {
            &&& seated_at(before, slot, id)
            &&& after == before.remove(slot)
            &&& missing_limit == (limit is None)
            &&& limit is Some ==> window_full(before.remove(slot), limit.unwrap())
        }
}

/// The players `ids` leave `before` one after the other, each as `leaves`
/// says, which gives `after`.
pub open spec fn all_leave(
    before: Map<usize, u128>,
    ids: Seq<u128>,
    limit: Option<usize>,
    after: Map<usize, u128>,
) -> bool
    decreases ids.len(),
{
    if ids.len() == 0 {
        after == before
    } else {
        exists|mid: Map<usize, u128>|
            all_leave(before, ids.drop_last(), limit, mid) && #[trigger] leaves(
                mid,
                ids.last(),
                limit,
                after,
            )
    }
}

/// The players `ids` start to leave `before` one after the other, and the
/// run stops at position `at` with the error `cause`: the players before it
/// have left, and the player there either sits in no slot
/// (`NotFound`), which gives `after` unchanged by it, or leaves a gap
/// as `leaves_a_gap` says.
pub open spec fn stopped_at(
    before: Map<usize, u128>,
    ids: Seq<u128>,
    limit: Option<usize>,
    after: Map<usize, u128>,
    at: int,
    cause: PlayerHandlerError,
) -> bool {
    &&& 0 <= at < ids.len()
    &&& exists|mid: Map<usize, u128>|
        {
            &&& #[trigger] all_leave(before, ids.take(at), limit, mid)
            &&& if cause == PlayerHandlerError::NotFound {
                !is_seated(mid, ids[at]) && after == mid
            } else {
                leaves_a_gap(
                    mid,
                    ids[at],
                    limit,
                    after,
                    cause == PlayerHandlerError::PartySizeLimitMissing,
                )
            }
        }
}

/// There are at most `upto` occupants in `1..=upto`, and exactly `upto` of
/// them when no slot there is free.
pub proof fn lemma_occupants_len(m: Map<usize, u128>, upto: nat)
    requires
        upto <= usize::MAX,
    ensures
        occupants(m, upto).len() <= upto,
        occupants(m, upto).len() == upto <==> window_full(m, upto as usize),
    decreases upto,
{
    if upto > 0 {
        lemma_occupants_len(m, (upto - 1) as nat);
        if occupants(m, upto).len() == upto {
            assert(m.contains_key(upto as usize));
            assert(window_full(m, (upto - 1) as usize));
            assert forall|k: usize| 1 <= k <= upto implies m.contains_key(k) by {
                if k < upto {
                    assert(1 <= k <= (upto - 1) as usize);
                }
            }
        }
        if window_full(m, upto as usize) {
            assert(m.contains_key(upto as usize));
            assert forall|k: usize| 1 <= k <= (upto - 1) as usize implies m.contains_key(k) by {
                assert(1 <= k <= upto as usize);
            }
        }
    }
}

/// Moving the occupant of slot `taken` down to slot `free`, over a run of
/// free slots, keeps the occupants of every window that holds both slots or
/// neither, and adds the moved player to a window that holds only `free`.
pub proof fn lemma_move_keeps_occupants(
    m: Map<usize, u128>,
    free: usize,
    taken: usize,
    upto: nat,
)
    requires
        upto <= usize::MAX,
        1 <= free < taken,
        m.contains_key(taken),
        forall|k: usize| free <= k < taken ==> !m.contains_key(k),
    ensures
        occupants(m.insert(free, m[taken]).remove(taken), upto) == if free <= upto < taken {
            occupants(m, upto).push(m[taken])
        } else {
            occupants(m, upto)
        },
    decreases upto,
{
    let moved = m.insert(free, m[taken]).remove(taken);
    if upto > 0 {
        lemma_move_keeps_occupants(m, free, taken, (upto - 1) as nat);
        let k = upto as usize;
        if k < free {
        } else if k == free {
            assert(moved.contains_key(k) && moved[k] == m[taken]);
            assert(!m.contains_key(k));
        } else if k < taken {
            assert(!m.contains_key(k));
            assert(!moved.contains_key(k));
        } else if k == taken {
            assert(!moved.contains_key(k));
            assert(free <= (upto - 1) as usize);
        } else {
            assert(moved.contains_key(k) <==> m.contains_key(k));
        }
    }
}

/// Where slots `1..=n` are occupied and the rest of `1..=upto` is free, the
/// occupants are the players of slots `1..=n`, in that order.
pub proof fn lemma_packed_occupants(m: Map<usize, u128>, n: nat, upto: nat)
    requires
        upto <= usize::MAX,
        forall|k: usize| 1 <= k <= n && k <= upto ==> m.contains_key(k),
        forall|k: usize| n < k <= upto ==> !m.contains_key(k),
    ensures
        occupants(m, upto).len() == if n <= upto { n } else { upto },
        forall|j: int| 0 <= j < occupants(m, upto).len() ==> occupants(m, upto)[j] == m[(j + 1) as usize],
    decreases upto,
{
    if upto > 0 {
        lemma_packed_occupants(m, n, (upto - 1) as nat);
        let k = upto as usize;
        if k <= n {
            assert(m.contains_key(k));
        } else {
            assert(!m.contains_key(k));
        }
    }
}

/// Maps that agree on `1..=upto` have the same occupants there.
pub proof fn lemma_occupants_agree(a: Map<usize, u128>, b: Map<usize, u128>, upto: nat)
    requires
        upto <= usize::MAX,
        forall|k: usize|
            #![trigger a.contains_key(k)]
            #![trigger b.contains_key(k)]
            1 <= k <= upto ==> (a.contains_key(k) <==> b.contains_key(k)) && (a.contains_key(k)
                ==> a[k] == b[k]),
    ensures
        occupants(a, upto) == occupants(b, upto),
    decreases upto,
{
    if upto > 0 {
        lemma_occupants_agree(a, b, (upto - 1) as nat);
        let k = upto as usize;
        assert(a.contains_key(k) <==> b.contains_key(k));
    }
}

/// A map whose occupied slots all lie in `1..=upto` is finite and holds as
/// many players as there are occupants in `1..=upto`.
pub proof fn lemma_roster_size(m: Map<usize, u128>, upto: nat)
    requires
        upto <= usize::MAX,
        within_limit(m, upto as usize),
    ensures
        m.dom().finite(),
        m.len() == occupants(m, upto).len(),
    decreases upto,
{
    if upto == 0 {
        assert(m.dom() =~= Set::<usize>::empty());
    } else {
        let top = upto as usize;
        if m.contains_key(top) {
            let rest = m.remove(top);
            assert forall|k: usize| rest.contains_key(k) implies 1 <= k <= (upto - 1) as usize by {
                assert(m.contains_key(k));
            }
            lemma_roster_size(rest, (upto - 1) as nat);
            lemma_occupants_agree(m, rest, (upto - 1) as nat);
            assert(m.dom() =~= rest.dom().insert(top));
        } else {
            assert forall|k: usize| m.contains_key(k) implies 1 <= k <= (upto - 1) as usize by {
                assert(1 <= k <= top);
            }
            lemma_roster_size(m, (upto - 1) as nat);
        }
    }
}

/// Contiguity: in a roster whose slots all lie in `1..=limit`, collapsing
/// the gaps leaves exactly the slots `1..=N` occupied, where `N` is the
/// number of players, which the collapse does not change.
pub proof fn collapsed_is_contiguous(m: Map<usize, u128>, limit: usize)
    requires
        within_limit(m, limit),
    ensures
        m.dom().finite(),
        collapsed(m, limit).dom().finite(),
        collapsed(m, limit).len() == m.len(),
        is_contiguous(collapsed(m, limit), collapsed(m, limit).len()),
{
    let r = collapsed(m, limit);
    let n = occupants(m, limit as nat).len();
    lemma_occupants_len(m, limit as nat);
    lemma_roster_size(m, limit as nat);
    assert(within_limit(r, limit));
    lemma_packed_occupants(r, n, limit as nat);
    lemma_roster_size(r, limit as nat);
}

/// Collapsing keeps the players of the window in their order: the player
/// of the `j`-th occupied slot ends in slot `j`.
pub proof fn collapsed_keeps_order(m: Map<usize, u128>, limit: usize, slot: usize)
    requires
        1 <= slot <= limit,
        m.contains_key(slot),
    ensures
        1 <= occupants(m, slot as nat).len() <= limit,
        seated_at(collapsed(m, limit), occupants(m, slot as nat).len() as usize, m[slot]),
{
    lemma_occupants_len(m, slot as nat);
    lemma_occupants_prefix(m, slot as nat, limit as nat);
}

/// The occupants of a shorter window are a prefix of those of a longer one.
pub proof fn lemma_occupants_prefix(m: Map<usize, u128>, shorter: nat, longer: nat)
    requires
        shorter <= longer <= usize::MAX,
    ensures
        occupants(m, shorter).len() <= occupants(m, longer).len(),
        forall|j: int|
            0 <= j < occupants(m, shorter).len() ==> occupants(m, longer)[j] == occupants(
                m,
                shorter,
            )[j],
    decreases longer,
{
    if shorter < longer {
        lemma_occupants_prefix(m, shorter, (longer - 1) as nat);
    }
}

/// Idempotence: collapsing a collapsed slot map changes nothing, and the
/// second collapse finds a gap exactly when the first one did.
pub proof fn collapse_is_idempotent(m: Map<usize, u128>, limit: usize)
    ensures
        collapsed(collapsed(m, limit), limit) == collapsed(m, limit),
        window_full(collapsed(m, limit), limit) <==> window_full(m, limit),
{
    let r = collapsed(m, limit);
    let occ = occupants(m, limit as nat);
    lemma_occupants_len(m, limit as nat);
    lemma_packed_occupants(r, occ.len(), limit as nat);
    assert(occupants(r, limit as nat) =~= occ);
    assert(collapsed(r, limit) =~= r);
    lemma_occupants_len(r, limit as nat);
}

/// Round trip: a player who was not in the roster sits, after being seated
/// in `slot`, in that slot and in no other; and where the slot was free, a
/// roster without doubles stays without doubles.
pub proof fn inserted_player_seated_once(m: Map<usize, u128>, slot: usize, id: u128)
    requires
        !is_seated(m, id),
    ensures
        forall|k: usize| seated_at(m.insert(slot, id), k, id) <==> k == slot,
        ids_unique(m) && !m.contains_key(slot) ==> ids_unique(m.insert(slot, id)),
{
    let after = m.insert(slot, id);
    assert forall|k: usize| seated_at(after, k, id) implies k == slot by {
        if k != slot {
            assert(seated_at(m, k, id));
        }
    }
    if ids_unique(m) && !m.contains_key(slot) {
        assert forall|a: usize, b: usize|
            after.contains_key(a) && after.contains_key(b) && after[a] == after[b] implies a
            == b by {
            if a == slot && b != slot {
                assert(seated_at(m, b, id));
            }
            if b == slot && a != slot {
                assert(seated_at(m, a, id));
            }
        }
    }
}

/// Round trip, on the list of the roster: a player who was not in the
/// roster is, after being seated in `slot`, listed exactly once.
pub proof fn inserted_player_listed_once(
    m: Map<usize, u128>,
    slot: usize,
    id: u128,
    order: Seq<usize>,
    listed: Seq<u128>,
)
    requires
        !is_seated(m, id),
        lists_roster(m.insert(slot, id), order, listed),
    ensures
        exists|at: int|
            0 <= at < listed.len() && #[trigger] listed[at] == id && forall|other: int|
                0 <= other < listed.len() && listed[other] == id ==> other == at,
{
    let after = m.insert(slot, id);
    inserted_player_seated_once(m, slot, id);
    assert(after.contains_key(slot));
    assert(order.contains(slot));
    let at = choose|at: int| 0 <= at < order.len() && order[at] == slot;
    assert(listed[at] == id);
    assert forall|other: int| 0 <= other < listed.len() && listed[other] == id implies other
        == at by {
        assert(order.contains(order[other]));
        assert(seated_at(after, order[other], id));
    }
}

/// The slot where the next player is seated is free, and so is every slot
/// above it.
pub proof fn next_slot_is_free(m: Map<usize, u128>, slot: usize)
    requires
        is_next_slot(m, slot),
    ensures
        forall|k: usize| k >= slot ==> !m.contains_key(k),
{
    if m.dom() =~= Set::<usize>::empty() {
        assert forall|k: usize| !m.contains_key(k) by {
            assert(!m.dom().contains(k));
        }
    }
}

/// Every occupant of `1..=upto` sits in a slot of that window, and the
/// occupant at position `j` is the player of the slot up to which `j + 1`
/// slots are occupied.
pub proof fn lemma_occupant_is_seated(m: Map<usize, u128>, upto: nat, j: int)
    requires
        upto <= usize::MAX,
        0 <= j < occupants(m, upto).len(),
    ensures
        exists|k: usize|
            1 <= k <= upto && #[trigger] seated_at(m, k, occupants(m, upto)[j]) && occupants(
                m,
                k as nat,
            ).len() == j + 1,
    decreases upto,
{
    if upto > 0 {
        let top = upto as usize;
        let below = occupants(m, (upto - 1) as nat);
        if j < below.len() {
            lemma_occupant_is_seated(m, (upto - 1) as nat, j);
            let k = choose|k: usize|
                1 <= k <= upto - 1 && #[trigger] seated_at(m, k, below[j]) && occupants(
                    m,
                    k as nat,
                ).len() == j + 1;
            assert(seated_at(m, k, occupants(m, upto)[j]));
        } else {
            assert(seated_at(m, top, occupants(m, upto)[j]));
        }
    }
}

/// Collapsing the gaps neither adds a player to the roster nor drops one.
pub proof fn collapse_keeps_players(m: Map<usize, u128>, limit: usize, id: u128)
    ensures
        is_seated(collapsed(m, limit), id) <==> is_seated(m, id),
{
    let c = collapsed(m, limit);
    if is_seated(m, id) {
        let k = choose|k: usize| seated_at(m, k, id);
        if 1 <= k <= limit {
            collapsed_keeps_order(m, limit, k);
            assert(seated_at(c, occupants(m, k as nat).len() as usize, id));
        } else {
            assert(seated_at(c, k, id));
        }
    }
    if is_seated(c, id) {
        let j = choose|j: usize| seated_at(c, j, id);
        if 1 <= j <= limit {
            lemma_occupant_is_seated(m, limit as nat, j - 1);
            let k = choose|k: usize|
                1 <= k <= limit && #[trigger] seated_at(m, k, occupants(m, limit as nat)[j - 1])
                    && occupants(m, k as nat).len() == j;
            assert(seated_at(m, k, id));
        } else {
            assert(seated_at(m, j, id));
        }
    }
}

/// Collapsing the gaps of a roster in which no player sits twice gives a
/// roster in which no player sits twice.
pub proof fn collapse_keeps_ids_unique(m: Map<usize, u128>, limit: usize)
    requires
        ids_unique(m),
    ensures
        ids_unique(collapsed(m, limit)),
{
    let c = collapsed(m, limit);
    let occ = occupants(m, limit as nat);
    assert forall|a: usize, b: usize|
        c.contains_key(a) && c.contains_key(b) && c[a] == c[b] implies a == b by {
        let source_a: usize = if 1 <= a <= limit {
            lemma_occupant_is_seated(m, limit as nat, a - 1);
            choose|k: usize|
                1 <= k <= limit && #[trigger] seated_at(m, k, occ[a - 1]) && occupants(
                    m,
                    k as nat,
                ).len() == a
        } else {
            a
        };
        let source_b: usize = if 1 <= b <= limit {
            lemma_occupant_is_seated(m, limit as nat, b - 1);
            choose|k: usize|
                1 <= k <= limit && #[trigger] seated_at(m, k, occ[b - 1]) && occupants(
                    m,
                    k as nat,
                ).len() == b
        } else {
            b
        };
        assert(seated_at(m, source_a, c[a]));
        assert(seated_at(m, source_b, c[b]));
        assert(source_a == source_b);
    }
}

/// In a roster in which no player sits twice, a player who has left is
/// gone, everybody else is still there, nobody has joined, and still no
/// player sits twice.
pub proof fn departed_player_is_gone(
    before: Map<usize, u128>,
    id: u128,
    limit: Option<usize>,
    after: Map<usize, u128>,
)
    requires
        ids_unique(before),
        leaves(before, id, limit, after),
    ensures
        !is_seated(after, id),
        ids_unique(after),
        forall|other: u128|
            other != id ==> (#[trigger] is_seated(after, other) <==> is_seated(before, other)),
{
    let slot = choose|slot: usize|
        #![trigger seated_at(before, slot, id)]
        seated_at(before, slot, id) && !window_full(before.remove(slot), limit.unwrap()) && after
            == collapsed(before.remove(slot), limit.unwrap());
    let mid = before.remove(slot);
    assert(ids_unique(mid)) by {
        assert forall|a: usize, b: usize|
            mid.contains_key(a) && mid.contains_key(b) && mid[a] == mid[b] implies a == b by {
            assert(before.contains_key(a) && before.contains_key(b));
        }
    }
    collapse_keeps_ids_unique(mid, limit.unwrap());
    collapse_keeps_players(mid, limit.unwrap(), id);
    if is_seated(mid, id) {
        let k = choose|k: usize| seated_at(mid, k, id);
        assert(before.contains_key(k) && before[k] == before[slot]);
    }
    assert forall|other: u128| other != id implies (#[trigger] is_seated(after, other)
        <==> is_seated(before, other)) by {
        collapse_keeps_players(mid, limit.unwrap(), other);
        if is_seated(before, other) {
            let k = choose|k: usize| seated_at(before, k, other);
            assert(seated_at(mid, k, other));
        }
        if is_seated(mid, other) {
            let k = choose|k: usize| seated_at(mid, k, other);
            assert(seated_at(before, k, other));
        }
    }
}

/// Exchanging the players of two occupied slots keeps the players of the
/// roster, and keeps a roster in which no player sits twice such a one.
pub proof fn swap_keeps_players(m: Map<usize, u128>, a: usize, b: usize, id: u128)
    requires
        m.contains_key(a),
        m.contains_key(b),
    ensures
        is_seated(m.insert(a, m[b]).insert(b, m[a]), id) <==> is_seated(m, id),
        ids_unique(m) ==> ids_unique(m.insert(a, m[b]).insert(b, m[a])),
{
    let swapped = m.insert(a, m[b]).insert(b, m[a]);
    if is_seated(m, id) {
        let k = choose|k: usize| seated_at(m, k, id);
        if k == a {
            assert(seated_at(swapped, b, id));
        } else if k == b {
            assert(seated_at(swapped, a, id));
        } else {
            assert(seated_at(swapped, k, id));
        }
    }
    if is_seated(swapped, id) {
        let k = choose|k: usize| seated_at(swapped, k, id);
        if k == a {
            assert(seated_at(m, b, id));
        } else if k == b {
            assert(seated_at(m, a, id));
        } else {
            assert(seated_at(m, k, id));
        }
    }
    if ids_unique(m) {
        assert forall|x: usize, y: usize|
            swapped.contains_key(x) && swapped.contains_key(y) && swapped[x]
                == swapped[y] implies x == y by {
            let from_x = if x == a {
                b
            } else if x == b {
                a
            } else {
                x
            };
            let from_y = if y == a {
                b
            } else if y == b {
                a
            } else {
                y
            };
            assert(m.contains_key(from_x) && m.contains_key(from_y) && m[from_x] == m[from_y]);
        }
    }
}

/// The empty roster is in order under every limit.
pub proof fn empty_roster_is_orderly(limit: usize)
    ensures
        orderly(Map::<usize, u128>::empty(), limit),
{
    assert(Map::<usize, u128>::empty().dom() =~= Set::<usize>::empty());
}

/// Seating a new player in the next slot of a roster that is in order and
/// below its limit leaves the roster in order, with one player more.
pub proof fn insertion_keeps_order(m: Map<usize, u128>, slot: usize, id: u128, limit: usize)
    requires
        orderly(m, limit),
        m.len() < limit,
        !is_seated(m, id),
        is_next_slot(m, slot),
    ensures
        slot == m.len() + 1,
        orderly(m.insert(slot, id), limit),
        m.insert(slot, id).len() == m.len() + 1,
{
    let n = m.len();
    if m.dom() =~= Set::<usize>::empty() {
        assert(n == 0);
    } else {
        let top = (slot - 1) as usize;
        assert(1 <= top <= n);
        if top < n {
            assert(m.contains_key(n as usize));
        }
    }
    assert(!m.contains_key(slot));
    inserted_player_seated_once(m, slot, id);
    assert(m.insert(slot, id).dom() =~= m.dom().insert(slot));
}

/// Exchanging the players of two occupied slots leaves a roster that is in
/// order in order.
pub proof fn swap_keeps_order(m: Map<usize, u128>, a: usize, b: usize, limit: usize)
    requires
        orderly(m, limit),
        m.contains_key(a),
        m.contains_key(b),
    ensures
        orderly(m.insert(a, m[b]).insert(b, m[a]), limit),
{
    swap_keeps_players(m, a, b, 0);
    assert(m.insert(a, m[b]).insert(b, m[a]).dom() =~= m.dom());
}

/// A roster that is in order has no gap to collapse: collapsing it changes
/// nothing.
pub proof fn orderly_roster_is_collapsed(m: Map<usize, u128>, limit: usize)
    requires
        orderly(m, limit),
    ensures
        collapsed(m, limit) == m,
{
    lemma_packed_occupants(m, m.len(), limit as nat);
    assert(collapsed(m, limit) =~= m);
}

/// When a player leaves a roster that is in order, a free slot is always
/// found, and the roster is in order again, with one player fewer and all
/// the others still there.
pub proof fn departure_keeps_order(m: Map<usize, u128>, slot: usize, limit: usize)
    requires
        orderly(m, limit),
        m.contains_key(slot),
    ensures
        !window_full(m.remove(slot), limit),
        leaves(m, m[slot], Some(limit), collapsed(m.remove(slot), limit)),
        orderly(collapsed(m.remove(slot), limit), limit),
        collapsed(m.remove(slot), limit).len() == m.len() - 1,
{
    let mid = m.remove(slot);
    let after = collapsed(mid, limit);
    assert(within_limit(mid, limit)) by {
        assert forall|k: usize| mid.contains_key(k) implies 1 <= k <= limit by {
            assert(m.contains_key(k));
        }
    }
    assert(mid.dom() =~= m.dom().remove(slot));
    lemma_roster_size(mid, limit as nat);
    lemma_occupants_len(mid, limit as nat);
    collapsed_is_contiguous(mid, limit);
    assert(seated_at(m, slot, m[slot]));
    assert(leaves(m, m[slot], Some(limit), after));
    departed_player_is_gone(m, m[slot], Some(limit), after);
}

/// However a player has left a roster that was in order, the roster is in
/// order again, with one player fewer.
pub proof fn roster_stays_orderly_after_departure(
    before: Map<usize, u128>,
    id: u128,
    limit: usize,
    after: Map<usize, u128>,
)
    requires
        orderly(before, limit),
        leaves(before, id, Some(limit), after),
    ensures
        orderly(after, limit),
        after.len() == before.len() - 1,
        !is_seated(after, id),
{
    let slot = choose|slot: usize|
        #![trigger seated_at(before, slot, id)]
        seated_at(before, slot, id) && !window_full(before.remove(slot), limit) && after
            == collapsed(before.remove(slot), limit);
    departure_keeps_order(before, slot, limit);
    departed_player_is_gone(before, id, Some(limit), after);
}

/// In a roster in which no player sits twice, after the players `ids` have
/// left one after the other none of them is there, everybody else is, and
/// nobody has joined; and still no player sits twice.
pub proof fn departed_players_are_gone(
    before: Map<usize, u128>,
    ids: Seq<u128>,
    limit: Option<usize>,
    after: Map<usize, u128>,
)
    requires
        ids_unique(before),
        all_leave(before, ids, limit, after),
    ensures
        ids_unique(after),
        forall|i: int| 0 <= i < ids.len() ==> !is_seated(after, #[trigger] ids[i]),
        forall|other: u128|
            !ids.contains(other) ==> (#[trigger] is_seated(after, other) <==> is_seated(
                before,
                other,
            )),
    decreases ids.len(),
{
    if ids.len() > 0 {
        let earlier = ids.drop_last();
        let mid = choose|mid: Map<usize, u128>|
            all_leave(before, earlier, limit, mid) && #[trigger] leaves(
                mid,
                ids.last(),
                limit,
                after,
            );
        departed_players_are_gone(before, earlier, limit, mid);
        departed_player_is_gone(mid, ids.last(), limit, after);
        assert forall|i: int| 0 <= i < ids.len() implies !is_seated(after, #[trigger] ids[i]) by {
            if i < earlier.len() {
                assert(!is_seated(mid, earlier[i]));
            }
        }
        assert forall|other: u128| !ids.contains(other) implies (#[trigger] is_seated(
            after,
            other,
        ) <==> is_seated(before, other)) by {
            assert(other != ids.last()) by {
                if other == ids.last() {
                    assert(ids[ids.len() - 1] == other);
                }
            }
            assert(!earlier.contains(other)) by {
                if earlier.contains(other) {
                    let j = choose|j: int| 0 <= j < earlier.len() && earlier[j] == other;
                    assert(ids[j] == other);
                }
            }
        }
    }
}

} // verus!
