//! String dictionary compression.
//!
//! Names, cell names and chat text repeat constantly on the wire. The server
//! binds each string to a u16 id per connection: the first transmission
//! carries id + bytes (`Inline`), later ones just the id (`Id`). Clients
//! send `Plain` strings and resolve `Inline`/`Id` against a table built from
//! what the server sent them.
use vstd::prelude::*;

verus! {

/// Abstract state of a string table: the strings by id (empty strings are
/// placeholders of sparse ids) and the index from string to id.
pub struct TableView {
    pub ids: Seq<Seq<char>>,
    pub index: Map<Seq<char>, u16>,
}

/// Bidirectional string <-> id dictionary (server: per session; client: one).
#[derive(Debug, Clone)]
pub struct StringTable {
    by_id: Vec<String>,
    by_str: Vec<(String, u16)>,
}

/// The map a list of distinct-keyed pairs denotes.
pub open spec fn pairs_map(pairs: Seq<(Seq<char>, u16)>) -> Map<Seq<char>, u16> {
    Map::new(
        |k: Seq<char>| exists|i: int| 0 <= i < pairs.len() && pairs[i].0 == k,
        |k: Seq<char>| pairs[choose|i: int| 0 <= i < pairs.len() && pairs[i].0 == k].1,
    )
}

/// No key occurs twice.
pub open spec fn keys_distinct(pairs: Seq<(Seq<char>, u16)>) -> bool {
    forall|i: int, j: int| 0 <= i < j < pairs.len() ==> pairs[i].0 != pairs[j].0
}

/// The id a string is interned under: its id when already known, otherwise
/// the next id (the table length, modulo 2^16) with the string appended.
pub open spec fn interned(t: TableView, s: Seq<char>) -> (TableView, u16) {
    if t.index.contains_key(s) {
        (t, t.index[s])
    } else {
        let id = (t.ids.len() % 65536) as u16;
        (TableView { ids: t.ids.push(s), index: t.index.insert(s, id) }, id)
    }
}

/// The string an id resolves to: none for unknown ids and placeholders.
pub open spec fn looked_up(t: TableView, id: u16) -> Option<Seq<char>> {
    if id < t.ids.len() && t.ids[id as int].len() > 0 {
        Some(t.ids[id as int])
    } else {
        None
    }
}

/// The strings by id after registering `value` under `id`: the list is
/// padded with placeholders up to `id + 1` entries when shorter, and
/// `value` stored under `id`; every other id keeps its string.
pub open spec fn registered_ids(ids: Seq<Seq<char>>, id: u16, value: Seq<char>) -> Seq<Seq<char>> {
    let n = id as int + 1;
    let sized = if n <= ids.len() {
        ids
    } else {
        ids + Seq::new((n - ids.len()) as nat, |i: int| Seq::<char>::empty())
    };
    sized.update(id as int, value)
}

impl StringTable {
    /// The table's abstract state.
    pub closed spec fn view(&self) -> TableView {
        TableView {
            ids: self.by_id@.map_values(|s: String| s@),
            index: pairs_map(self.by_str@.map_values(|p: (String, u16)| (p.0@, p.1))),
        }
    }

    /// The index holds each string at most once.
    pub closed spec fn wf(&self) -> bool {
        keys_distinct(self.by_str@.map_values(|p: (String, u16)| (p.0@, p.1)))
    }

    pub fn new() -> (r: StringTable)
        ensures
            r.wf(),
            r.view().ids == Seq::<Seq<char>>::empty(),
            r.view().index == Map::<Seq<char>, u16>::empty(),
    {
        let r = StringTable { by_id: Vec::new(), by_str: Vec::new() };
        assert(r.view().ids =~= Seq::<Seq<char>>::empty());
        assert(r.view().index =~= Map::<Seq<char>, u16>::empty());
        r
    }

    /// Position in the index of `value`, if present.
    fn find(&self, value: &String) -> (r: Option<usize>)
        ensures
            match r {
                Some(i) => i < self.by_str@.len() && self.by_str@[i as int].0@ == value@,
                None => forall|i: int| 0 <= i < self.by_str@.len() ==> self.by_str@[i].0@ != value@,
            },
    {
        let mut i: usize = 0;
        while i < self.by_str.len()
            invariant
                i <= self.by_str@.len(),
                forall|j: int| 0 <= j < i ==> self.by_str@[j].0@ != value@,
            decreases self.by_str@.len() - i,
        {
            if self.by_str[i].0 == *value {
                return Some(i);
            }
            i = i + 1;
        }
        None
    }

    /// The id of `value` in the index, if any.
    fn index_get(&self, value: &String) -> (r: Option<u16>)
        requires
            self.wf(),
        ensures
            match r {
                Some(id) => self.view().index.contains_key(value@) && self.view().index[value@] == id,
                None => !self.view().index.contains_key(value@),
            },
    {
        let ghost pairs = self.by_str@.map_values(|p: (String, u16)| (p.0@, p.1));
        match self.find(value) {
            Some(i) => {
                proof {
                    assert(pairs[i as int].0 == value@);
                    let c = choose|j: int| 0 <= j < pairs.len() && pairs[j].0 == value@;
                    assert(c == i);
                }
                Some(self.by_str[i].1)
            },
            None => {
                proof {
                    assert forall|j: int| 0 <= j < pairs.len() implies pairs[j].0 != value@ by {
                        assert(pairs[j].0 == self.by_str@[j].0@);
                    }
                }
                None
            },
        }
    }

    /// Sets `value -> id` in the index (replacing an existing binding).
    fn index_insert(&mut self, value: String, id: u16)
        requires
            old(self).wf(),
        ensures
            final(self).wf(),
            final(self).view().index == old(self).view().index.insert(value@, id),
            final(self).view().ids == old(self).view().ids,
    {
        let ghost old_pairs = self.by_str@.map_values(|p: (String, u16)| (p.0@, p.1));
        let ghost k0 = value@;
        let found = self.find(&value);
        let ghost slot: int;
        match found {
            Some(i) => {
                let key = self.by_str[i].0.clone();
                self.by_str.set(i, (key, id));
                proof {
                    slot = i as int;
                }
            },
            None => {
                self.by_str.push((value, id));
                proof {
                    slot = old_pairs.len() as int;
                }
            },
        }
        let ghost pairs = self.by_str@.map_values(|p: (String, u16)| (p.0@, p.1));
        proof {
            assert(0 <= slot < pairs.len() && pairs[slot] == (k0, id));
            assert(pairs.len() == old_pairs.len() || (pairs.len() == old_pairs.len() + 1 && slot
                == old_pairs.len()));
            assert forall|j: int| 0 <= j < pairs.len() && j != slot implies pairs[j] == old_pairs[j]
                && old_pairs[j].0 != k0 by {
                if found is None {
                    assert(old_pairs[j].0 == old(self).by_str@[j].0@);
                } else {
                    assert(old_pairs[slot].0 == k0);
                }
            }
            if slot < old_pairs.len() {
                assert(old_pairs[slot].0 == k0);
            }
            assert forall|a: int, b: int| 0 <= a < b < pairs.len() implies pairs[a].0 != pairs[b].0 by {
                if a != slot && b != slot {
                    assert(pairs[a] == old_pairs[a] && pairs[b] == old_pairs[b]);
                }
            }
            let m = pairs_map(pairs);
            let expected = pairs_map(old_pairs).insert(k0, id);
            assert forall|k: Seq<char>| #[trigger] m.contains_key(k) == expected.contains_key(k) by {
                if k == k0 {
                    assert(pairs[slot].0 == k);
                } else {
                    if m.contains_key(k) {
                        let j = choose|j: int| 0 <= j < pairs.len() && pairs[j].0 == k;
                        assert(j != slot);
                        assert(old_pairs[j].0 == k);
                    }
                    if expected.contains_key(k) {
                        let j = choose|j: int| 0 <= j < old_pairs.len() && old_pairs[j].0 == k;
                        assert(j != slot);
                        assert(pairs[j].0 == k);
                    }
                }
            }
            assert forall|k: Seq<char>| m.contains_key(k) implies #[trigger] m[k] == expected[k] by {
                let j = choose|j: int| 0 <= j < pairs.len() && pairs[j].0 == k;
                if k == k0 {
                    assert(j == slot);
                } else {
                    assert(j != slot);
                    let c = choose|c: int| 0 <= c < old_pairs.len() && old_pairs[c].0 == k;
                    assert(pairs[c].0 == k);
                    assert(c == j);
                }
            }
            assert(m =~= expected);
        }
    }

    /// The id of `value`, assigning the next id when it is new.
    pub fn intern(&mut self, value: &str) -> (r: u16)
        requires
            old(self).wf(),
        ensures
            final(self).wf(),
            (final(self).view(), r) == interned(old(self).view(), value@),
    {
        let key = value.to_owned();
        match self.index_get(&key) {
            Some(id) => id,
            None => {
                let id: u16 = (self.by_id.len() % 65536) as u16;
                self.by_id.push(value.to_owned());
                self.index_insert(key, id);
                assert(self.view().ids =~= old(self).view().ids.push(value@));
                id
            },
        }
    }

    /// The string bound to `id`; `None` for unknown ids and placeholders.
    pub fn lookup(&self, id: u16) -> (r: Option<&str>)
        ensures
            match looked_up(self.view(), id) {
                Some(s) => r matches Some(t) && t@ == s,
                None => r is None,
            },
    {
        if (id as usize) < self.by_id.len() {
            let s = self.by_id[id as usize].as_str();
            if s.is_empty() {
                None
            } else {
                Some(s)
            }
        } else {
            None
        }
    }

    pub fn len(&self) -> (r: usize)
        ensures
            r == self.view().ids.len(),
    {
        self.by_id.len()
    }

    pub fn is_empty(&self) -> (r: bool)
        ensures
            r == (self.view().ids.len() == 0),
    {
        self.by_id.len() == 0
    }
}

impl StringTable {
    /// Binds `value` to `id` as an inbound `Inline` string does: the by-id
    /// list is padded to hold `id` when it is too short, the slot set, and
    /// the index updated.
    fn register(&mut self, id: u16, value: &String)
        requires
            old(self).wf(),
        ensures
            final(self).wf(),
            final(self).view().ids == registered_ids(old(self).view().ids, id, value@),
            final(self).view().index == old(self).view().index.insert(value@, id),
    {
        let n: usize = id as usize + 1;
        let ghost before = self.view().ids;
        if n > self.by_id.len() {
            while self.by_id.len() < n
                invariant
                    self.wf(),
                    old(self).view().index == self.view().index,
                    before.len() <= self.by_id@.len() <= n,
                    self.view().ids == before + Seq::new(
                        (self.by_id@.len() - before.len()) as nat,
                        |i: int| Seq::<char>::empty(),
                    ),
                decreases n - self.by_id@.len(),
            {
                let ghost prev = self.view().ids;
                let blank = String::new();
                assert(blank@ == Seq::<char>::empty());
                self.by_id.push(blank);
                assert(self.view().ids =~= prev.push(Seq::<char>::empty()));
                assert(self.view().ids =~= before + Seq::new(
                    (self.by_id@.len() - before.len()) as nat,
                    |i: int| Seq::<char>::empty(),
                ));
            }
        }
        self.by_id.set(id as usize, value.clone());
        assert(self.view().ids =~= registered_ids(before, id, value@));
        self.index_insert(value.clone(), id);
    }
}

/// Wire form of a string: full value first, id-only afterwards.
#[derive(Debug, Clone, PartialEq, Eq)]
pub enum CachedString {
    /// Unbound string (client to server, or server before interning).
    Plain(String),
    /// First transmission on this connection: the assigned id + the bytes.
    Inline { id: u16, value: String },
    /// Previously sent on this connection: id only.
    Id(u16),
}

/// The table after receiving a cached string: an `Inline` whose id does not
/// resolve yet is registered; nothing else changes the table.
pub open spec fn received(t: TableView, cs: CachedStringView) -> TableView {
    match cs {
        CachedStringView::Inline(id, value) => if looked_up(t, id) is None {
            TableView { ids: registered_ids(t.ids, id, value), index: t.index.insert(value, id) }
        } else {
            t
        },
        _ => t,
    }
}

/// The text a received cached string stands for: the carried text for
/// `Plain`/`Inline`, the table's string for a known `Id`, empty otherwise.
pub open spec fn resolved_text(t: TableView, cs: CachedStringView) -> Seq<char> {
    match cs {
        CachedStringView::Plain(s) => s,
        CachedStringView::Inline(_, value) => value,
        CachedStringView::Id(id) => match looked_up(t, id) {
            Some(s) => s,
            None => Seq::empty(),
        },
    }
}

/// A cached string with its text as characters.
pub enum CachedStringView {
    Plain(Seq<char>),
    Inline(u16, Seq<char>),
    Id(u16),
}

impl CachedString {
    /// The cached string with its text as characters.
    pub open spec fn view_cs(self) -> CachedStringView {
        match self {
            CachedString::Plain(s) => CachedStringView::Plain(s@),
            CachedString::Inline { id, value } => CachedStringView::Inline(id, value@),
            CachedString::Id(id) => CachedStringView::Id(id),
        }
    }

    /// Client-side / inbound resolution: the string's text; an `Inline`
    /// registers its id so later `Id` references resolve.
    pub fn resolve(&self, table: &mut StringTable) -> (r: String)
        requires
            old(table).wf(),
        ensures
            final(table).wf(),
            final(table).view() == received(old(table).view(), self.view_cs()),
            r@ == resolved_text(old(table).view(), self.view_cs()),
    {
        match self {
            CachedString::Plain(s) => s.clone(),
            CachedString::Inline { id, value } => {
                if table.lookup(*id).is_none() {
                    table.register(*id, value);
                }
                value.clone()
            },
            CachedString::Id(id) => match table.lookup(*id) {
                Some(s) => s.to_owned(),
                None => String::new(),
            },
        }
    }

    /// Server-side: binds a plain string to the table before sending; the
    /// first sight goes out as `Inline` (id + text), repeats as `Id` only.
    pub fn intern(table: &mut StringTable, value: String) -> (r: CachedString)
        requires
            old(table).wf(),
        ensures
            final(table).wf(),
            (final(table).view(), sent_id(r.view_cs())) == interned(old(table).view(), value@),
            old(table).view().index.contains_key(value@) ==> r.view_cs() is Id,
            !old(table).view().index.contains_key(value@) ==> (r.view_cs() matches CachedStringView::Inline(_, v) && v == value@),
    {
        match table.index_get(&value) {
            Some(id) => CachedString::Id(id),
            None => {
                let id = table.intern(value.as_str());
                CachedString::Inline { id, value }
            },
        }
    }
}

/// The id an outbound cached string carries (0 for `Plain`).
pub open spec fn sent_id(cs: CachedStringView) -> u16 {
    match cs {
        CachedStringView::Inline(id, _) => id,
        CachedStringView::Id(id) => id,
        CachedStringView::Plain(_) => 0,
    }
}

/// Interning is stable: interning a string a second time returns the same
/// id and leaves the table as it was.
pub proof fn law_intern_stable(t: TableView, s: Seq<char>)
    ensures
        interned(interned(t, s).0, s) == (interned(t, s).0, interned(t, s).1),
{
}

/// A fresh non-empty string interned into a table with fewer than 2^16
/// entries resolves back from its id.
pub proof fn law_intern_then_lookup(t: TableView, s: Seq<char>)
    requires
        !t.index.contains_key(s),
        t.ids.len() < 65536,
        s.len() > 0,
    ensures
        looked_up(interned(t, s).0, interned(t, s).1) == Some(s),
{
}

/// What the server sends is what the client reads: the first sight of a
/// non-empty string (`Inline`) registers it, and the later id-only
/// reference resolves to the same text.
pub proof fn law_inline_then_id_resolves(t: TableView, id: u16, value: Seq<char>)
    requires
        value.len() > 0,
    ensures
        resolved_text(received(t, CachedStringView::Inline(id, value)), CachedStringView::Id(id))
            == value || looked_up(t, id) is Some,
        looked_up(t, id) is None ==> resolved_text(
            received(t, CachedStringView::Inline(id, value)),
            CachedStringView::Id(id),
        ) == value,
{
    if looked_up(t, id) is None {
        let ids = registered_ids(t.ids, id, value);
        assert(ids.len() > id);
        assert(ids[id as int] == value);
    }
}

/// Receiving any cached string keeps every other id resolving as before:
/// registering an inline string touches only its own id.
pub proof fn law_receive_keeps_other_ids(t: TableView, cs: CachedStringView, j: u16)
    requires
        !(cs matches CachedStringView::Inline(id, _) && id == j),
    ensures
        looked_up(t, j) is Some ==> looked_up(received(t, cs), j) == looked_up(t, j),
{
    if let CachedStringView::Inline(id, value) = cs {
        if looked_up(t, id) is None && looked_up(t, j) is Some {
            let ids = registered_ids(t.ids, id, value);
            assert(ids[j as int] == t.ids[j as int]);
        }
    }
}

/// The table after interning `vs` in order.
pub open spec fn intern_all(t: TableView, vs: Seq<Seq<char>>) -> TableView
    decreases vs.len(),
{
    if vs.len() == 0 {
        t
    } else {
        interned(intern_all(t, vs.drop_last()), vs.last()).0
    }
}

/// The empty table.
pub open spec fn empty_table() -> TableView {
    TableView { ids: Seq::empty(), index: Map::empty() }
}

proof fn lemma_intern_all(vs: Seq<Seq<char>>)
    ensures
        intern_all(empty_table(), vs).ids.no_duplicates(),
        forall|s: Seq<char>|
            #[trigger] intern_all(empty_table(), vs).index.contains_key(s) <==> intern_all(
                empty_table(),
                vs,
            ).ids.contains(s),
        intern_all(empty_table(), vs).ids.to_set() == vs.to_set(),
    decreases vs.len(),
{
    let t = intern_all(empty_table(), vs);
    if vs.len() == 0 {
        assert(t.ids.to_set() =~= vs.to_set());
    } else {
        let pre = vs.drop_last();
        let v = vs.last();
        lemma_intern_all(pre);
        let t0 = intern_all(empty_table(), pre);
        assert(vs =~= pre.push(v));
        if t0.index.contains_key(v) {
            assert(t == t0);
            assert forall|s: Seq<char>| #[trigger] vs.to_set().contains(s) <==> t.ids.to_set().contains(s) by {
                if vs.contains(s) {
                    let k = choose|k: int| 0 <= k < vs.len() && vs[k] == s;
                    if k < pre.len() {
                        assert(pre[k] == s);
                        assert(pre.to_set().contains(s));
                    }
                }
                if pre.contains(s) {
                    let k = choose|k: int| 0 <= k < pre.len() && pre[k] == s;
                    assert(vs[k] == s);
                }
            }
            assert(t.ids.to_set() =~= vs.to_set());
        } else {
            assert(t.ids == t0.ids.push(v));
            assert(!t0.ids.contains(v));
            assert(t.ids.no_duplicates()) by {
                assert forall|i: int, j: int| 0 <= i < t.ids.len() && 0 <= j < t.ids.len() && i != j implies t.ids[i] != t.ids[j] by {
                    if i < t0.ids.len() && j < t0.ids.len() {
                    } else if i == t0.ids.len() {
                        assert(t0.ids[j] == t.ids[j]);
                    } else {
                        assert(t0.ids[i] == t.ids[i]);
                    }
                }
            }
            assert forall|s: Seq<char>| #[trigger] t.index.contains_key(s) <==> t.ids.contains(s) by {
                if t0.ids.contains(s) {
                    let k = choose|k: int| 0 <= k < t0.ids.len() && t0.ids[k] == s;
                    assert(t.ids[k] == s);
                }
                if t.ids.contains(s) && s != v {
                    let k = choose|k: int| 0 <= k < t.ids.len() && t.ids[k] == s;
                    assert(k < t0.ids.len());
                    assert(t0.ids[k] == s);
                }
                if s == v {
                    assert(t.ids[t0.ids.len() as int] == v);
                }
            }
            assert forall|s: Seq<char>| #[trigger] vs.to_set().contains(s) <==> t.ids.to_set().contains(s) by {
                if vs.contains(s) {
                    let k = choose|k: int| 0 <= k < vs.len() && vs[k] == s;
                    if k < pre.len() {
                        assert(pre[k] == s);
                        assert(pre.to_set().contains(s));
                        assert(t0.ids.to_set().contains(s));
                        let m = choose|m: int| 0 <= m < t0.ids.len() && t0.ids[m] == s;
                        assert(t.ids[m] == s);
                    } else {
                        assert(t.ids[t0.ids.len() as int] == s);
                    }
                }
                if t.ids.contains(s) {
                    let k = choose|k: int| 0 <= k < t.ids.len() && t.ids[k] == s;
                    if k < t0.ids.len() {
                        assert(t0.ids[k] == s);
                        assert(t0.ids.to_set().contains(s));
                        assert(pre.to_set().contains(s));
                        let m = choose|m: int| 0 <= m < pre.len() && pre[m] == s;
                        assert(vs[m] == s);
                    } else {
                        assert(vs[vs.len() - 1] == s);
                    }
                }
            }
            assert(t.ids.to_set() =~= vs.to_set());
        }
    }
}

/// A table that only ever interned strings holds each distinct string
/// once: its length is the number of distinct values interned, and it is
/// empty exactly when nothing was interned.
pub proof fn law_len_counts_distinct_values(vs: Seq<Seq<char>>)
    ensures
        intern_all(empty_table(), vs).ids.no_duplicates(),
        intern_all(empty_table(), vs).ids.to_set() == vs.to_set(),
        intern_all(empty_table(), vs).ids.len() == vs.to_set().len(),
        (intern_all(empty_table(), vs).ids.len() == 0) == (vs.len() == 0),
{
    lemma_intern_all(vs);
    let t = intern_all(empty_table(), vs);
    t.ids.unique_seq_to_set();
    vs.lemma_cardinality_of_empty_set_is_0();
}

} // verus!
