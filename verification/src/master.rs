//! Master server: the registry of active dedicated servers.
//!
//! Servers announce themselves periodically; an entry not refreshed for
//! 120 s is culled. Addresses are keyed as (IPv6 address, with IPv4 mapped
//! into it, and port); times are milliseconds of a monotonic clock.
use vstd::prelude::*;

verus! {

/// Address key of a server: (IP as a 128-bit number, port).
pub type ServerAddr = (u128, u16);

/// Entry for one dedicated server.
#[derive(Debug, Clone)]
pub struct ServerEntry {
    pub name: String,
    pub map: String,
    pub players: u32,
    pub max_players: u32,
    pub game_type: String,
    pub mod_files: Vec<String>,
    /// When the server last announced itself, in milliseconds.
    pub last_seen: u64,
}

/// How long an entry lives without an announcement, in milliseconds.
pub const STALE_AFTER_MS: u64 = 120_000;

/// No address occurs twice.
pub open spec fn keys_distinct(s: Seq<(ServerAddr, ServerEntry)>) -> bool {
    forall|i: int, j: int| 0 <= i < j < s.len() ==> s[i].0 != s[j].0
}

/// Whether an entry is still fresh at `now_ms` (a clock reading before the
/// last announcement counts as no time passed).
pub open spec fn fresh(e: ServerEntry, now_ms: u64) -> bool {
    now_ms < e.last_seen || now_ms - e.last_seen < STALE_AFTER_MS
}

/// Whether a registry entry is still fresh at `now_ms`.
pub open spec fn fresh_at(now_ms: u64) -> spec_fn((ServerAddr, ServerEntry)) -> bool {
    |p: (ServerAddr, ServerEntry)| fresh(p.1, now_ms)
}

/// Position of the entry registered under `addr`, if any.
pub open spec fn find_key(s: Seq<(ServerAddr, ServerEntry)>, addr: ServerAddr) -> Option<int> {
    if exists|i: int| 0 <= i < s.len() && s[i].0 == addr {
        Some(choose|i: int| 0 <= i < s.len() && s[i].0 == addr)
    } else {
        None
    }
}

/// With distinct keys, the entry at `i` is the one `find_key` finds.
proof fn lemma_find_key_is(s: Seq<(ServerAddr, ServerEntry)>, addr: ServerAddr, i: int)
    requires
        keys_distinct(s),
        0 <= i < s.len(),
        s[i].0 == addr,
    ensures
        find_key(s, addr) == Some(i),
{
    let c = choose|j: int| 0 <= j < s.len() && s[j].0 == addr;
    assert(0 <= c < s.len() && s[c].0 == addr);
    if c != i {
        if c < i {
            assert(s[c].0 != s[i].0);
        } else {
            assert(s[i].0 != s[c].0);
        }
    }
}

/// Filtering keeps keys distinct.
pub proof fn lemma_filter_keys_distinct(
    s: Seq<(ServerAddr, ServerEntry)>,
    p: spec_fn((ServerAddr, ServerEntry)) -> bool,
)
    requires
        keys_distinct(s),
    ensures
        keys_distinct(s.filter(p)),
    decreases s.len(),
{
    reveal(Seq::filter);
    if s.len() > 0 {
        let rest = s.drop_last();
        assert(keys_distinct(rest));
        lemma_filter_keys_distinct(rest, p);
        let fr = rest.filter(p);
        if p(s.last()) {
            let f = fr.push(s.last());
            assert forall|a: int, b: int| 0 <= a < b < f.len() implies f[a].0 != f[b].0 by {
                if b == f.len() - 1 {
                    assert(fr.contains(f[a]));
                    rest.lemma_filter_contains_rev(p, f[a]);
                    let k = rest.index_of(f[a]);
                    assert(s[k] == f[a]);
                    assert(s[k].0 != s[s.len() - 1].0);
                }
            }
        }
    }
}

/// The registry.
#[derive(Debug, Clone)]
pub struct ServerList {
    servers: Vec<(ServerAddr, ServerEntry)>,
}

impl ServerList {
    /// The entries with their addresses, in registration order.
    pub closed spec fn view(&self) -> Seq<(ServerAddr, ServerEntry)> {
        self.servers@
    }

    /// An empty registry.
    pub fn new() -> (r: ServerList)
        ensures
            r.view() == Seq::<(ServerAddr, ServerEntry)>::empty(),
    {
        ServerList { servers: Vec::new() }
    }

    /// Position of `addr`, if registered.
    fn position(&self, addr: ServerAddr) -> (r: Option<usize>)
        ensures
            match r {
                Some(i) => i < self.view().len() && self.view()[i as int].0 == addr,
                None => forall|i: int| 0 <= i < self.view().len() ==> self.view()[i].0 != addr,
            },
    {
        let mut i: usize = 0;
        while i < self.servers.len()
            invariant
                i <= self.servers@.len(),
                forall|j: int| 0 <= j < i ==> self.servers@[j].0 != addr,
            decreases self.servers@.len() - i,
        {
            if self.servers[i].0.0 == addr.0 && self.servers[i].0.1 == addr.1 {
                return Some(i);
            }
            i = i + 1;
        }
        None
    }

    /// Inserts a server, or replaces its entry when the address is known.
    pub fn upsert(
        &mut self,
        addr: ServerAddr,
        name: String,
        map: String,
        players: u32,
        max_players: u32,
        game_type: String,
        mod_files: Vec<String>,
        now_ms: u64,
    )
        requires
            keys_distinct(old(self).view()),
        ensures
            keys_distinct(final(self).view()),
            final(self).view() == announced(
                old(self).view(),
                addr,
                ServerEntry { name, map, players, max_players, game_type, mod_files, last_seen: now_ms },
            ),
    {
        let e = ServerEntry { name, map, players, max_players, game_type, mod_files, last_seen: now_ms };
        match self.position(addr) {
            Some(i) => {
                proof {
                    lemma_find_key_is(old(self).view(), addr, i as int);
                }
                self.servers.set(i, (addr, e));
                proof {
                    let s = self.servers@;
                    assert forall|a: int, b: int| 0 <= a < b < s.len() implies s[a].0 != s[b].0 by {
                        assert(old(self).servers@[a].0 != old(self).servers@[b].0);
                    }
                }
            },
            None => {
                self.servers.push((addr, e));
                proof {
                    let s = self.servers@;
                    assert forall|a: int, b: int| 0 <= a < b < s.len() implies s[a].0 != s[b].0 by {
                        if b < s.len() - 1 {
                            assert(old(self).servers@[a].0 != old(self).servers@[b].0);
                        } else {
                            assert(old(self).servers@[a].0 != addr);
                        }
                    }
                }
            },
        }
    }

    /// Removes a server.
    pub fn remove(&mut self, addr: ServerAddr)
        requires
            keys_distinct(old(self).view()),
        ensures
            keys_distinct(final(self).view()),
            match find_key(old(self).view(), addr) {
                Some(i) => final(self).view() == old(self).view().remove(i),
                None => final(self).view() == old(self).view(),
            },
    {
        match self.position(addr) {
            Some(i) => {
                proof {
                    lemma_find_key_is(old(self).view(), addr, i as int);
                }
                self.servers.remove(i);
                proof {
                    let o = old(self).servers@;
                    let s = self.servers@;
                    assert forall|a: int, b: int| 0 <= a < b < s.len() implies s[a].0 != s[b].0 by {
                        let a2 = if a < i { a } else { a + 1 };
                        let b2 = if b < i { b } else { b + 1 };
                        assert(s[a] == o[a2] && s[b] == o[b2]);
                        assert(o[a2].0 != o[b2].0);
                    }
                }
            },
            None => {},
        }
    }

    /// All registered entries, in registration order.
    pub fn all(&self) -> (r: Vec<&ServerEntry>)
        ensures
            r@.len() == self.view().len(),
            forall|i: int| 0 <= i < r@.len() ==> *r@[i] == self.view()[i].1,
    {
        let mut out: Vec<&ServerEntry> = Vec::new();
        let mut i: usize = 0;
        while i < self.servers.len()
            invariant
                i <= self.servers@.len(),
                out@.len() == i,
                forall|j: int| 0 <= j < i ==> *out@[j] == self.servers@[j].1,
            decreases self.servers@.len() - i,
        {
            out.push(&self.servers[i].1);
            i = i + 1;
        }
        out
    }

    /// Drops the entries not announced for 120 s or more.
    pub fn cull_stale(&mut self, now_ms: u64)
        requires
            keys_distinct(old(self).view()),
        ensures
            keys_distinct(final(self).view()),
            final(self).view() == old(self).view().filter(fresh_at(now_ms)),
    {
        let ghost t = self.servers@;
        let mut rest: Vec<(ServerAddr, ServerEntry)> = Vec::new();
        std::mem::swap(&mut rest, &mut self.servers);
        let mut kept: Vec<(ServerAddr, ServerEntry)> = Vec::new();
        let ghost mut i: int = 0;
        assert(t.skip(0) =~= t);
        while rest.len() > 0
            invariant
                0 <= i <= t.len(),
                rest@ == t.skip(i),
                kept@ == t.take(i).filter(fresh_at(now_ms)),
            decreases rest@.len(),
        {
            proof {
                reveal(Seq::filter);
                assert(t.take(i + 1).drop_last() =~= t.take(i));
                assert(t.take(i + 1).last() == t[i]);
            }
            let p = rest.remove(0);
            assert(p == t[i]);
            if now_ms < p.1.last_seen || now_ms - p.1.last_seen < STALE_AFTER_MS {
                kept.push(p);
            }
            proof {
                i = i + 1;
                assert(rest@ =~= t.skip(i));
            }
        }
        assert(i == t.len());
        assert(t.take(i) =~= t);
        proof {
            lemma_filter_keys_distinct(t, fresh_at(now_ms));
        }
        self.servers = kept;
    }
}

/// The registry after an announcement from `addr` with entry `e`.
pub open spec fn announced(v: Seq<(ServerAddr, ServerEntry)>, addr: ServerAddr, e: ServerEntry) -> Seq<(ServerAddr, ServerEntry)> {
    match find_key(v, addr) {
        Some(i) => v.update(i, (addr, e)),
        None => v.push((addr, e)),
    }
}

/// An announced server is listed exactly once, under its address, with the
/// announced entry; a known server is replaced in place, a new one added.
pub proof fn law_announce_lists_server(v: Seq<(ServerAddr, ServerEntry)>, addr: ServerAddr, e: ServerEntry)
    requires
        keys_distinct(v),
    ensures
        ({
            let w = announced(v, addr, e);
            &&& find_key(w, addr) matches Some(j) && w[j].1 == e
            &&& w.len() == (if find_key(v, addr) is Some { v.len() } else { v.len() + 1 })
        }),
{
    let w = announced(v, addr, e);
    match find_key(v, addr) {
        Some(i) => {
            assert(0 <= i < v.len() && v[i].0 == addr);
            assert(keys_distinct(w)) by {
                assert forall|a: int, b: int| 0 <= a < b < w.len() implies w[a].0 != w[b].0 by {
                    assert(v[a].0 != v[b].0);
                }
            }
            lemma_find_key_is(w, addr, i);
        },
        None => {
            assert(forall|k: int| 0 <= k < v.len() ==> v[k].0 != addr);
            assert(keys_distinct(w)) by {
                assert forall|a: int, b: int| 0 <= a < b < w.len() implies w[a].0 != w[b].0 by {
                    if b == v.len() {
                        assert(w[a] == v[a]);
                    } else {
                        assert(v[a].0 != v[b].0);
                    }
                }
            }
            lemma_find_key_is(w, addr, v.len() as int);
        },
    }
}

/// Culling at `now_ms` keeps exactly the entries that are still fresh.
pub proof fn law_cull_keeps_exactly_fresh(v: Seq<(ServerAddr, ServerEntry)>, now_ms: u64, x: (ServerAddr, ServerEntry))
    ensures
        v.filter(fresh_at(now_ms)).contains(x) <==> (v.contains(x) && fresh(x.1, now_ms)),
{
    let p = fresh_at(now_ms);
    if v.contains(x) && fresh(x.1, now_ms) {
        let k = v.index_of(x);
        v.lemma_filter_contains(p, k);
    }
    if v.filter(p).contains(x) {
        v.lemma_filter_contains_rev(p, x);
        broadcast use vstd::seq_lib::group_filter_ensures;
        let k = v.filter(p).index_of(x);
        assert(p(v.filter(p)[k]));
    }
}

} // verus!
