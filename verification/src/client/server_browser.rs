//! Server browser: the list of servers the master server reports.
//!
//! A query goes to the master as one frame; every server that answers with
//! an announcement is listed once (its first answer), ordered by address.
//! Sockets, the query thread and packet decoding sit around this.
use vstd::prelude::*;
use crate::bytes::{le16, push_le16, push_all};
use crate::master::ServerAddr;

verus! {

/// Frame header: payload length (2 bytes) and channel (1 byte).
pub const QUERY_HEADER_SIZE: usize = 3;

/// One server as the browser shows it.
#[derive(Debug)]
pub struct ServerInfo {
    pub name: String,
    /// Address the announcement came from.
    pub addr: ServerAddr,
    pub map: String,
    pub players: u32,
    pub max_players: u32,
    pub game_type: String,
}

/// Address order: by IP, then by port.
pub open spec fn addr_lt(a: ServerAddr, b: ServerAddr) -> bool {
    a.0 < b.0 || (a.0 == b.0 && a.1 < b.1)
}

/// Strictly increasing addresses (so no address twice).
#[verifier::opaque]
pub open spec fn sorted_by_addr(s: Seq<ServerInfo>) -> bool {
    forall|i: int, j: int| 0 <= i < j < s.len() ==> addr_lt(#[trigger] s[i].addr, #[trigger] s[j].addr)
}

/// Reply `k` is the first one from its address.
pub open spec fn first_from(replies: Seq<ServerInfo>, k: int) -> bool {
    &&& 0 <= k < replies.len()
    &&& forall|j: int| 0 <= j < k ==> (#[trigger] replies[j]).addr != replies[k].addr
}

/// `x` is the first reply from its address among the first `n` replies.
pub open spec fn is_first_reply(x: ServerInfo, replies: Seq<ServerInfo>, n: int) -> bool {
    exists|k: int| #![trigger replies[k]] 0 <= k < n && first_from(replies, k) && x == replies[k]
}

/// Some entry of `out` has address `a`.
pub open spec fn lists_addr(out: Seq<ServerInfo>, a: ServerAddr) -> bool {
    exists|i: int| #![trigger out[i]] 0 <= i < out.len() && out[i].addr == a
}

/// Every entry of `out` is the first reply from its address among the
/// first `n` replies.
#[verifier::opaque]
pub open spec fn only_first_replies(out: Seq<ServerInfo>, replies: Seq<ServerInfo>, n: int) -> bool {
    forall|i: int| 0 <= i < out.len() ==> is_first_reply(#[trigger] out[i], replies, n)
}

/// Every address among the first `n` replies has an entry in `out`.
#[verifier::opaque]
pub open spec fn covers_replies(out: Seq<ServerInfo>, replies: Seq<ServerInfo>, n: int) -> bool {
    forall|k: int| 0 <= k < n ==> lists_addr(out, (#[trigger] replies[k]).addr)
}

/// `out` lists the first reply of every address among the first `n`
/// replies, ordered by address.
pub open spec fn lists_first_replies(out: Seq<ServerInfo>, replies: Seq<ServerInfo>, n: int) -> bool {
    &&& sorted_by_addr(out)
    &&& only_first_replies(out, replies, n)
    &&& covers_replies(out, replies, n)
}

/// The browser's list for a set of replies.
pub open spec fn is_server_list(out: Seq<ServerInfo>, replies: Seq<ServerInfo>) -> bool {
    lists_first_replies(out, replies, replies.len() as int)
}

fn addr_less(a: ServerAddr, b: ServerAddr) -> (r: bool)
    ensures
        r == addr_lt(a, b),
{
    a.0 < b.0 || (a.0 == b.0 && a.1 < b.1)
}

fn addr_same(a: ServerAddr, b: ServerAddr) -> (r: bool)
    ensures
        r == (a == b),
{
    a.0 == b.0 && a.1 == b.1
}

/// Where the scan for `a` stopped at `p` (the entry there is neither below
/// `a` nor equal to it), every entry from `p` on is above `a`.
proof fn lemma_rest_above(out: Seq<ServerInfo>, a: ServerAddr, p: int)
    requires
        sorted_by_addr(out),
        0 <= p < out.len(),
        !addr_lt(out[p].addr, a),
        out[p].addr != a,
    ensures
        forall|q: int| p <= q < out.len() ==> addr_lt(a, #[trigger] out[q].addr),
{
    reveal(sorted_by_addr);
    assert forall|q: int| p <= q < out.len() implies addr_lt(a, #[trigger] out[q].addr) by {
        if q > p {
            assert(addr_lt(out[p].addr, out[q].addr));
        }
    }
}

/// Inserting `x` at `p` keeps `out` a list of first replies, given that
/// every entry before `p` is below `x` and every entry from `p` on above it.
proof fn lemma_insert_keeps_list(out: Seq<ServerInfo>, replies: Seq<ServerInfo>, k: int, p: int)
    requires
        0 <= k < replies.len(),
        0 <= p <= out.len(),
        lists_first_replies(out, replies, k),
        forall|q: int| 0 <= q < p ==> addr_lt(#[trigger] out[q].addr, replies[k].addr),
        forall|q: int| p <= q < out.len() ==> addr_lt(replies[k].addr, #[trigger] out[q].addr),
    ensures
        lists_first_replies(out.insert(p, replies[k]), replies, k + 1),
{
    lemma_insert_sorted(out, replies[k], p);
    lemma_insert_first(out, replies, k, p);
    lemma_insert_covers(out, replies, k, p);
}

#[verifier::spinoff_prover]
proof fn lemma_insert_sorted(out: Seq<ServerInfo>, x: ServerInfo, p: int)
    requires
        0 <= p <= out.len(),
        sorted_by_addr(out),
        forall|q: int| 0 <= q < p ==> addr_lt(#[trigger] out[q].addr, x.addr),
        forall|q: int| p <= q < out.len() ==> addr_lt(x.addr, #[trigger] out[q].addr),
    ensures
        sorted_by_addr(out.insert(p, x)),
{
    reveal(sorted_by_addr);
    let o2 = out.insert(p, x);
    assert forall|i: int, j: int| 0 <= i < j < o2.len() implies addr_lt(#[trigger] o2[i].addr, #[trigger] o2[j].addr) by {
        if j < p {
            assert(o2[i] == out[i] && o2[j] == out[j]);
        } else if j == p {
            assert(o2[i] == out[i]);
        } else if i < p {
            assert(o2[i] == out[i] && o2[j] == out[j - 1]);
            assert(addr_lt(out[i].addr, x.addr));
            assert(addr_lt(x.addr, out[j - 1].addr));
        } else if i == p {
            assert(o2[j] == out[j - 1]);
        } else {
            assert(o2[i] == out[i - 1] && o2[j] == out[j - 1]);
        }
    }
}

#[verifier::spinoff_prover]
proof fn lemma_insert_first(out: Seq<ServerInfo>, replies: Seq<ServerInfo>, k: int, p: int)
    requires
        0 <= k < replies.len(),
        0 <= p <= out.len(),
        only_first_replies(out, replies, k),
        covers_replies(out, replies, k),
        forall|q: int| 0 <= q < p ==> addr_lt(#[trigger] out[q].addr, replies[k].addr),
        forall|q: int| p <= q < out.len() ==> addr_lt(replies[k].addr, #[trigger] out[q].addr),
    ensures
        only_first_replies(out.insert(p, replies[k]), replies, k + 1),
{
    reveal(only_first_replies);
    let x = replies[k];
    let o2 = out.insert(p, x);
    assert(first_from(replies, k)) by {
        reveal(covers_replies);
        assert forall|j: int| 0 <= j < k implies (#[trigger] replies[j]).addr != replies[k].addr by {
            let i = choose|i: int| #![trigger out[i]] 0 <= i < out.len() && out[i].addr == replies[j].addr;
            if i < p {
                assert(addr_lt(out[i].addr, x.addr));
            } else {
                assert(addr_lt(x.addr, out[i].addr));
            }
        }
    }
    assert forall|i: int| 0 <= i < o2.len() implies is_first_reply(#[trigger] o2[i], replies, k + 1) by {
        if i < p {
            assert(o2[i] == out[i]);
            let kk = choose|kk: int| #![trigger replies[kk]] 0 <= kk < k && first_from(replies, kk) && out[i] == replies[kk];
            assert(0 <= kk < k + 1 && first_from(replies, kk) && o2[i] == replies[kk]);
        } else if i == p {
            assert(o2[i] == replies[k]);
        } else {
            assert(o2[i] == out[i - 1]);
            let kk = choose|kk: int| #![trigger replies[kk]] 0 <= kk < k && first_from(replies, kk) && out[i - 1] == replies[kk];
            assert(0 <= kk < k + 1 && first_from(replies, kk) && o2[i] == replies[kk]);
        }
    }
}

#[verifier::spinoff_prover]
proof fn lemma_insert_covers(out: Seq<ServerInfo>, replies: Seq<ServerInfo>, k: int, p: int)
    requires
        0 <= k < replies.len(),
        0 <= p <= out.len(),
        covers_replies(out, replies, k),
    ensures
        covers_replies(out.insert(p, replies[k]), replies, k + 1),
{
    reveal(covers_replies);
    let o2 = out.insert(p, replies[k]);
    assert forall|kk: int| 0 <= kk < k + 1 implies lists_addr(o2, (#[trigger] replies[kk]).addr) by {
        if kk == k {
            assert(o2[p].addr == replies[kk].addr);
        } else {
            let i = choose|i: int| #![trigger out[i]] 0 <= i < out.len() && out[i].addr == replies[kk].addr;
            if i < p {
                assert(o2[i] == out[i]);
            } else {
                assert(o2[i + 1] == out[i]);
            }
        }
    }
}

/// A reply from an address already listed leaves the list as it is.
proof fn lemma_repeat_keeps_list(out: Seq<ServerInfo>, replies: Seq<ServerInfo>, k: int, p: int)
    requires
        0 <= k < replies.len(),
        0 <= p < out.len(),
        out[p].addr == replies[k].addr,
        lists_first_replies(out, replies, k),
    ensures
        lists_first_replies(out, replies, k + 1),
{
    lemma_repeat_covers(out, replies, k, p);
    lemma_more_replies_first(out, replies, k);
}

#[verifier::spinoff_prover]
proof fn lemma_repeat_covers(out: Seq<ServerInfo>, replies: Seq<ServerInfo>, k: int, p: int)
    requires
        0 <= k < replies.len(),
        0 <= p < out.len(),
        out[p].addr == replies[k].addr,
        covers_replies(out, replies, k),
    ensures
        covers_replies(out, replies, k + 1),
{
    reveal(covers_replies);
    assert forall|kk: int| 0 <= kk < k + 1 implies lists_addr(out, (#[trigger] replies[kk]).addr) by {
        if kk == k {
            assert(out[p].addr == replies[kk].addr);
        }
    }
}

#[verifier::spinoff_prover]
proof fn lemma_more_replies_first(out: Seq<ServerInfo>, replies: Seq<ServerInfo>, k: int)
    requires
        only_first_replies(out, replies, k),
    ensures
        only_first_replies(out, replies, k + 1),
{
    reveal(only_first_replies);
    assert forall|i: int| 0 <= i < out.len() implies is_first_reply(#[trigger] out[i], replies, k + 1) by {
        let kk = choose|kk: int| #![trigger replies[kk]] 0 <= kk < k && first_from(replies, kk) && out[i] == replies[kk];
        assert(0 <= kk < k + 1 && first_from(replies, kk) && out[i] == replies[kk]);
    }
}

/// The server list for the announcements received, in arrival order: one
/// entry per address, the first announcement from it, ordered by address.
pub fn server_list(replies: Vec<ServerInfo>) -> (r: Vec<ServerInfo>)
    ensures
        is_server_list(r@, replies@),
{
    let ghost all = replies@;
    let n = replies.len();
    let mut rest = replies;
    let mut out: Vec<ServerInfo> = Vec::new();
    let mut k: usize = 0;
    proof {
        reveal(sorted_by_addr);
        reveal(only_first_replies);
        reveal(covers_replies);
    }
    while rest.len() > 0
        invariant
            k + rest@.len() == all.len(),
            all.len() == n,
            rest@ == all.skip(k as int),
            lists_first_replies(out@, all, k as int),
        decreases rest@.len(),
    {
        let x = rest.remove(0);
        assert(x == all[k as int]);
        let mut p: usize = 0;
        while p < out.len() && addr_less(out[p].addr, x.addr)
            invariant
                p <= out@.len(),
                forall|q: int| 0 <= q < p ==> addr_lt(#[trigger] out@[q].addr, x.addr),
            decreases out@.len() - p,
        {
            p = p + 1;
        }
        if p < out.len() && addr_same(out[p].addr, x.addr) {
            proof {
                lemma_repeat_keeps_list(out@, all, k as int, p as int);
            }
        } else {
            proof {
                if p < out@.len() {
                    lemma_rest_above(out@, x.addr, p as int);
                }
                lemma_insert_keeps_list(out@, all, k as int, p as int);
            }
            out.insert(p, x);
        }
        k = k + 1;
        assert(rest@ =~= all.skip(k as int));
    }
    out
}

/// The query frame for a serialized query: payload length (low 16 bits),
/// channel 0, payload.
pub fn query_frame(payload: &[u8]) -> (r: Vec<u8>)
    ensures
        r@ == le16((payload.len() % 0x10000) as u16) + seq![0u8] + payload@,
{
    let mut buf: Vec<u8> = Vec::new();
    let len: u16 = (payload.len() % 0x10000) as u16;
    push_le16(&mut buf, len);
    buf.push(0u8);
    push_all(&mut buf, payload);
    buf
}

/// The payload of a master reply: what follows the 3-byte header, or
/// `None` for a reply shorter than the header.
pub fn decode_response(data: &[u8]) -> (r: Option<&[u8]>)
    ensures
        data.len() < QUERY_HEADER_SIZE <==> r is None,
        r matches Some(p) ==> p@ == data@.skip(QUERY_HEADER_SIZE as int),
{
    if data.len() < QUERY_HEADER_SIZE {
        return None;
    }
    let p = vstd::slice::slice_subrange(data, QUERY_HEADER_SIZE, data.len());
    assert(p@ =~= data@.skip(QUERY_HEADER_SIZE as int));
    Some(p)
}

/// Browser panel state.
pub struct ServerBrowser {
    master_addr: String,
    servers: Vec<ServerInfo>,
    refreshing: bool,
    selected_addr: Option<ServerAddr>,
    direct_addr: String,
}

impl ServerBrowser {
    pub closed spec fn master(&self) -> Seq<char> {
        self.master_addr@
    }

    pub closed spec fn listed(&self) -> Seq<ServerInfo> {
        self.servers@
    }

    pub closed spec fn searching(&self) -> bool {
        self.refreshing
    }

    /// Server chosen to join.
    pub closed spec fn chosen(&self) -> Option<ServerAddr> {
        self.selected_addr
    }

    /// Text of the direct-connect field.
    pub closed spec fn direct(&self) -> Seq<char> {
        self.direct_addr@
    }

    /// An idle browser with no servers listed.
    pub fn new(master_addr: String) -> (r: ServerBrowser)
        ensures
            r.master() == master_addr@,
            r.listed() == Seq::<ServerInfo>::empty(),
            !r.searching(),
            r.chosen() is None,
            r.direct() == "127.0.0.1:1770"@,
    {
        ServerBrowser {
            master_addr,
            servers: Vec::new(),
            refreshing: false,
            selected_addr: None,
            direct_addr: "127.0.0.1:1770".to_owned(),
        }
    }

    /// Master server address.
    pub fn master_addr(&self) -> (r: &str)
        ensures
            r@ == self.master(),
    {
        self.master_addr.as_str()
    }

    /// Servers listed.
    pub fn servers(&self) -> (r: &[ServerInfo])
        ensures
            r@ == self.listed(),
    {
        self.servers.as_slice()
    }

    /// Whether a query is under way.
    pub fn is_refreshing(&self) -> (r: bool)
        ensures
            r == self.searching(),
    {
        self.refreshing
    }

    /// Starts a refresh. Returns whether a query must be sent: not while
    /// one is already under way.
    pub fn refresh(&mut self) -> (r: bool)
        ensures
            r == !old(self).searching(),
            final(self).searching(),
            final(self).listed() == old(self).listed(),
            final(self).master() == old(self).master(),
            final(self).chosen() == old(self).chosen(),
            final(self).direct() == old(self).direct(),
    {
        if self.refreshing {
            return false;
        }
        self.refreshing = true;
        true
    }

    /// Takes the outcome of the query, if it has finished: the list
    /// replaces the shown one and the browser is idle again.
    pub fn poll_results(&mut self, result: Option<Vec<ServerInfo>>)
        ensures
            match result {
                Some(list) => final(self).listed() == list@ && !final(self).searching(),
                None => final(self).listed() == old(self).listed()
                    && final(self).searching() == old(self).searching(),
            },
            final(self).master() == old(self).master(),
            final(self).chosen() == old(self).chosen(),
            final(self).direct() == old(self).direct(),
    {
        if let Some(list) = result {
            self.servers = list;
            self.refreshing = false;
        }
    }

    /// Label of the refresh button.
    pub fn refresh_label(&self) -> (r: &'static str)
        ensures
            r@ == (if self.searching() { "Searching..."@ } else { "Refresh"@ }),
    {
        if self.refreshing { "Searching..." } else { "Refresh" }
    }

    /// Text shown when no server is listed.
    pub fn empty_list_text(&self) -> (r: &'static str)
        ensures
            r@ == (if self.searching() {
                "Querying master server..."@
            } else {
                "No servers found. Click Refresh to search."@
            }),
    {
        if self.refreshing {
            "Querying master server..."
        } else {
            "No servers found. Click Refresh to search."
        }
    }

    /// Server chosen to join, if any.
    pub fn selected_addr(&self) -> (r: Option<ServerAddr>)
        ensures
            r == self.chosen(),
    {
        self.selected_addr
    }

    /// Text of the direct-connect field.
    pub fn direct_addr(&self) -> (r: &str)
        ensures
            r@ == self.direct(),
    {
        self.direct_addr.as_str()
    }

    /// Replaces the text of the direct-connect field.
    pub fn set_direct_addr(&mut self, text: String)
        ensures
            final(self).direct() == text@,
            final(self).chosen() == old(self).chosen(),
            final(self).listed() == old(self).listed(),
            final(self).searching() == old(self).searching(),
            final(self).master() == old(self).master(),
    {
        self.direct_addr = text;
    }

    /// Chooses a server to join.
    pub fn select(&mut self, addr: ServerAddr)
        ensures
            final(self).chosen() == Some(addr),
            final(self).listed() == old(self).listed(),
            final(self).searching() == old(self).searching(),
            final(self).master() == old(self).master(),
            final(self).direct() == old(self).direct(),
    {
        self.selected_addr = Some(addr);
    }
}

} // verus!
