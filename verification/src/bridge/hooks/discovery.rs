//! NPC discovery: diff the actors observed this frame against the seen set.
//!
//! New ids spawn, ids that vanished are removed, and the local player (ref
//! 0x14) is never reported as an NPC.
use vstd::prelude::*;
use std::collections::HashSet;

verus! {

broadcast use {vstd::std_specs::hash::group_hash_axioms, vstd::prelude::Seq::lemma_push_to_set_commute};

/// The local player's ref id, never an NPC spawn.
pub const LOCAL_PLAYER_REF: u32 = 0x14;

/// The ids reported as spawned, in observation order: each observed id that
/// is not the player and not yet seen (repeats within the frame count once).
pub open spec fn spawned(seen: Set<u32>, observed: Seq<u32>) -> Seq<u32>
    decreases observed.len(),
{
    if observed.len() == 0 {
        Seq::empty()
    } else {
        let id = observed[0];
        if id == LOCAL_PLAYER_REF || seen.contains(id) {
            spawned(seen, observed.drop_first())
        } else {
            seq![id] + spawned(seen.insert(id), observed.drop_first())
        }
    }
}

/// The seen set after a diff: the observed non-player ids, plus previously
/// seen ids that are still observed.
pub open spec fn seen_after(seen: Set<u32>, observed: Seq<u32>) -> Set<u32> {
    observed.to_set().remove(LOCAL_PLAYER_REF).union(seen.intersect(observed.to_set()))
}

/// Spawn reports are fresh: each reported id was observed, was not seen
/// before, is never the local player, and is reported once.
pub proof fn law_spawned_fresh_non_player(seen: Set<u32>, observed: Seq<u32>)
    ensures
        spawned(seen, observed).no_duplicates(),
        forall|i: int| 0 <= i < spawned(seen, observed).len() ==> !seen.contains(
            #[trigger] spawned(seen, observed)[i],
        ) && spawned(seen, observed)[i] != LOCAL_PLAYER_REF && observed.contains(
            spawned(seen, observed)[i],
        ),
    decreases observed.len(),
{
    if observed.len() > 0 {
        let id = observed[0];
        let rest = observed.drop_first();
        if id == LOCAL_PLAYER_REF || seen.contains(id) {
            law_spawned_fresh_non_player(seen, rest);
            assert forall|i: int| 0 <= i < spawned(seen, rest).len() implies observed.contains(
                spawned(seen, rest)[i],
            ) by {
                let j = choose|j: int| 0 <= j < rest.len() && rest[j] == spawned(seen, rest)[i];
                assert(observed[j + 1] == rest[j]);
            }
        } else {
            law_spawned_fresh_non_player(seen.insert(id), rest);
            let s = spawned(seen, observed);
            let t = spawned(seen.insert(id), rest);
            assert(s == seq![id] + t);
            assert forall|i: int| 0 <= i < s.len() implies !seen.contains(#[trigger] s[i]) && s[i]
                != LOCAL_PLAYER_REF && observed.contains(s[i]) by {
                if i > 0 {
                    assert(s[i] == t[i - 1]);
                    let j = choose|j: int| 0 <= j < rest.len() && rest[j] == t[i - 1];
                    assert(observed[j + 1] == rest[j]);
                } else {
                    assert(observed[0] == id);
                }
            }
            assert forall|a: int, b: int| 0 <= a < b < s.len() implies s[a] != s[b] by {
                if a > 0 {
                    assert(s[a] == t[a - 1] && s[b] == t[b - 1]);
                } else {
                    assert(s[b] == t[b - 1]);
                }
            }
        }
    }
}

/// Diffs the current observed ref ids against the seen set. Returns
/// (added, removed); the seen set is updated in place. `removed` lists each
/// vanished id once, in no particular order.
pub fn npc_diff(seen: &mut HashSet<u32>, observed: &[u32]) -> (r: (Vec<u32>, Vec<u32>))
    ensures
        r.0@ == spawned(old(seen)@, observed@),
        r.1@.no_duplicates(),
        r.1@.to_set() == old(seen)@.difference(observed@.to_set()),
        final(seen)@ == seen_after(old(seen)@, observed@),
{
    let ghost seen0 = seen@;
    let mut added: Vec<u32> = Vec::new();
    let mut i: usize = 0;
    assert(observed@.skip(0) =~= observed@);
    assert(observed@.take(0).to_set() =~= Set::<u32>::empty());
    assert(seen@ =~= seen0.union(observed@.take(0).to_set().remove(LOCAL_PLAYER_REF)));
    while i < observed.len()
        invariant
            i <= observed.len(),
            spawned(seen0, observed@) == added@ + spawned(seen@, observed@.skip(i as int)),
            seen@ == seen0.union(observed@.take(i as int).to_set().remove(LOCAL_PLAYER_REF)),
        decreases observed.len() - i,
    {
        let id = observed[i];
        let ghost before = seen@;
        let ghost old_added = added@;
        assert(observed@.skip(i as int).drop_first() =~= observed@.skip(i + 1));
        assert(observed@.skip(i as int)[0] == id);
        if id != LOCAL_PLAYER_REF {
            if seen.insert(id) {
                added.push(id);
            }
        }
        proof {
            assert(observed@.take(i + 1) =~= observed@.take(i as int).push(id));
            assert(observed@.take(i + 1).to_set() =~= observed@.take(i as int).to_set().insert(id));
            assert(seen@ =~= seen0.union(observed@.take(i + 1).to_set().remove(LOCAL_PLAYER_REF)));
            let rest = observed@.skip(i as int);
            let rest1 = observed@.skip(i + 1);
            if id == LOCAL_PLAYER_REF || before.contains(id) {
                assert(seen@ =~= before);
                assert(spawned(before, rest) == spawned(before, rest1));
            } else {
                assert(spawned(before, rest) == seq![id] + spawned(before.insert(id), rest1));
                assert(seen@ == before.insert(id));
                assert(added@ + spawned(seen@, rest1) =~= old_added + (seq![id] + spawned(
                    before.insert(id),
                    rest1,
                )));
            }
        }
        i = i + 1;
    }
    assert(observed@.take(observed.len() as int) =~= observed@);
    assert(observed@.skip(observed.len() as int) =~= Seq::<u32>::empty());
    assert(added@ + Seq::<u32>::empty() =~= added@);

    // Gone actors: seen but no longer observed.
    let mut still_seen: HashSet<u32> = HashSet::new();
    let mut j: usize = 0;
    assert(observed@.take(0).to_set() =~= Set::<u32>::empty());
    while j < observed.len()
        invariant
            j <= observed.len(),
            still_seen@ == observed@.take(j as int).to_set(),
        decreases observed.len() - j,
    {
        still_seen.insert(observed[j]);
        assert(observed@.take(j + 1) =~= observed@.take(j as int).push(observed@[j as int]));
        assert(observed@.take(j + 1).to_set() =~= observed@.take(j as int).to_set().insert(
            observed@[j as int],
        ));
        j = j + 1;
    }
    let ghost obs_set = observed@.to_set();
    assert(still_seen@ =~= obs_set);
    let ghost seen1 = seen@;
    let mut removed: Vec<u32> = Vec::new();
    assert(removed@.to_set() =~= Set::<u32>::empty());
    for id in it: seen.iter()
        invariant
            still_seen@ == obs_set,
            it.seq().unref().to_set() == seen1,
            it.seq().unref().no_duplicates(),
            removed@.no_duplicates(),
            removed@.to_set() == it.seq().unref().take(it.index() as int).to_set().difference(obs_set),
            it.index() == it.seq().len() ==> removed@.to_set() == seen1.difference(obs_set),
    {
        let ghost k = it.index();
        let v = *id;
        if !still_seen.contains(&v) {
            proof {
                assert forall|a: int| 0 <= a < removed@.len() implies removed@[a] != v by {
                    assert(removed@.to_set().contains(removed@[a]));
                    let sq = it.seq().unref();
                    let b = choose|b: int| 0 <= b < k && sq[b] == removed@[a];
                    assert(sq[k as int] == v);
                }
            }
            removed.push(v);
        }
        proof {
            let sq = it.seq().unref();
            assert(sq[k as int] == v);
            assert(sq.take(k + 1) =~= sq.take(k as int).push(v));
            assert(sq.take(k + 1).to_set() =~= sq.take(k as int).to_set().insert(v));
            assert(removed@.to_set() =~= sq.take(k + 1).to_set().difference(obs_set));
            assert(sq.take(sq.len() as int) =~= sq);
        }
    }
    assert(removed@.to_set() =~= seen1.difference(obs_set));
    let mut m: usize = 0;
    while m < removed.len()
        invariant
            m <= removed.len(),
            seen@ == seen1.difference(removed@.take(m as int).to_set()),
        decreases removed.len() - m,
    {
        seen.remove(&removed[m]);
        assert(removed@.take(m + 1) =~= removed@.take(m as int).push(removed@[m as int]));
        assert(removed@.take(m + 1).to_set() =~= removed@.take(m as int).to_set().insert(
            removed@[m as int],
        ));
        assert(seen@ =~= seen1.difference(removed@.take(m + 1).to_set()));
        m = m + 1;
    }
    assert(removed@.take(removed.len() as int) =~= removed@);
    assert(seen@ =~= seen_after(seen0, observed@));
    (added, removed)
}

/// A frame that observes exactly the seen set (without the player) spawns
/// and removes nothing and leaves the set as it was.
pub proof fn law_stable_frame_is_silent(seen: Set<u32>, observed: Seq<u32>)
    requires
        seen == observed.to_set(),
        !seen.contains(LOCAL_PLAYER_REF),
    ensures
        spawned(seen, observed) == Seq::<u32>::empty(),
        seen.difference(observed.to_set()) == Set::<u32>::empty(),
        seen_after(seen, observed) == seen,
{
    law_spawned_fresh_non_player(seen, observed);
    let s = spawned(seen, observed);
    if s.len() > 0 {
        assert(!seen.contains(s[0]) && observed.contains(s[0]));
        let j = choose|j: int| 0 <= j < observed.len() && observed[j] == s[0];
        assert(observed.to_set().contains(observed[j]));
    }
    assert(seen.difference(observed.to_set()) =~= Set::<u32>::empty());
    assert(seen_after(seen, observed) =~= seen);
}

} // verus!
