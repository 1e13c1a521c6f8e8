//! The symbol allocation coordinator: a flat pool of (symbol, optional
//! owner) pairs, populated once from the exchange catalog, serving
//! first-fit allocation over insertion order.
//!
//! An owner, once set, is never cleared or reassigned by allocation;
//! exhaustion yields an immediate negative answer with the pool
//! unchanged. The laws at the end state exclusivity and exhaustion for
//! any sequence of requests: the lock around the pool serializes
//! concurrent requesters into exactly such a sequence.

use vstd::prelude::*;

verus! {

/// Mathematical model of one pool entry.
pub struct EntryModel {
    pub symbol: Seq<char>,
    pub owner: Option<int>,
}

/// One allocatable symbol and the node it is bound to, if any.
#[derive(Debug, Clone, PartialEq, Eq)]
pub struct PoolEntry {
    pub symbol: String,
    pub owner: Option<usize>,
}

impl View for PoolEntry {
    type V = EntryModel;

    open spec fn view(&self) -> EntryModel {
        EntryModel {
            symbol: self.symbol@,
            owner: match self.owner {
                Some(n) => Some(n as int),
                None => None,
            },
        }
    }
}

/// Index of the first entry with no owner, in insertion order.
pub open spec fn spec_first_free(s: Seq<EntryModel>) -> Option<int>
    decreases s.len(),
{
    if s.len() == 0 {
        None
    } else if s[0].owner is None {
        Some(0)
    } else {
        match spec_first_free(s.drop_first()) {
            Some(i) => Some(i + 1),
            None => None,
        }
    }
}

/// Number of entries with no owner.
pub open spec fn spec_free_count(s: Seq<EntryModel>) -> nat
    decreases s.len(),
{
    if s.len() == 0 {
        0
    } else {
        (if s[0].owner is None {
            1nat
        } else {
            0nat
        }) + spec_free_count(s.drop_first())
    }
}

/// One allocation request against the pool: bind the first free entry
/// to the node and hand out its symbol, or change nothing.
pub open spec fn spec_allocate(s: Seq<EntryModel>, node: int) -> (Seq<EntryModel>, Option<
    Seq<char>,
>) {
    match spec_first_free(s) {
        None => (s, None),
        Some(i) => (
            s.update(i, EntryModel { symbol: s[i].symbol, owner: Some(node) }),
            Some(s[i].symbol),
        ),
    }
}

/// No two entries carry the same symbol (the catalog reports each
/// symbol once).
pub open spec fn spec_distinct_symbols(s: Seq<EntryModel>) -> bool {
    forall|i: int, j: int|
        0 <= i < s.len() && 0 <= j < s.len() && i != j ==> s[i].symbol != s[j].symbol
}

/// What the first-free index means.
proof fn lemma_first_free_props(s: Seq<EntryModel>)
    ensures
        match spec_first_free(s) {
            Some(i) => 0 <= i < s.len() && s[i].owner is None && forall|j: int|
                0 <= j < i ==> s[j].owner is Some,
            None => forall|j: int| 0 <= j < s.len() ==> s[j].owner is Some,
        },
    decreases s.len(),
{
    if s.len() == 0 {
    } else if s[0].owner is None {
    } else {
        let d = s.drop_first();
        lemma_first_free_props(d);
        match spec_first_free(d) {
            Some(i) => {
                assert(spec_first_free(s) == Some(i + 1));
                assert(s[i + 1] == d[i]);
                assert forall|j: int| 0 <= j < i + 1 implies s[j].owner is Some by {
                    if j > 0 {
                        assert(d[j - 1] == s[j]);
                    }
                }
            },
            None => {
                assert forall|j: int| 0 <= j < s.len() implies s[j].owner is Some by {
                    if j > 0 {
                        assert(d[j - 1] == s[j]);
                    }
                }
            },
        }
    }
}

/// A free index exists exactly when the free count is positive.
proof fn lemma_first_free_iff_free_count(s: Seq<EntryModel>)
    ensures
        spec_first_free(s) is Some <==> spec_free_count(s) > 0,
    decreases s.len(),
{
    if s.len() > 0 {
        lemma_first_free_iff_free_count(s.drop_first());
    }
}

/// Binding a free entry takes exactly one away from the free count.
proof fn lemma_free_count_after_bind(s: Seq<EntryModel>, i: int, node: int)
    requires
        0 <= i < s.len(),
        s[i].owner is None,
    ensures
        spec_free_count(s.update(i, EntryModel { symbol: s[i].symbol, owner: Some(node) }))
            == spec_free_count(s) - 1,
    decreases s.len(),
{
    let t = s.update(i, EntryModel { symbol: s[i].symbol, owner: Some(node) });
    if i == 0 {
        assert(t.drop_first() =~= s.drop_first());
    } else {
        lemma_free_count_after_bind(s.drop_first(), i - 1, node);
        assert(t.drop_first() =~= s.drop_first().update(
            i - 1,
            EntryModel { symbol: s[i].symbol, owner: Some(node) },
        ));
    }
}

/// Pool of allocatable symbols, in catalog insertion order.
#[derive(Debug, Clone, PartialEq, Eq)]
pub struct AllocationPool {
    pub entries: Vec<PoolEntry>,
}

impl View for AllocationPool {
    type V = Seq<EntryModel>;

    open spec fn view(&self) -> Seq<EntryModel> {
        self.entries@.map(|i: int, e: PoolEntry| e@)
    }
}

impl AllocationPool {
    /// An empty pool, before the catalog snapshot arrives.
    pub fn new() -> (r: AllocationPool)
        ensures
            r@ == Seq::<EntryModel>::empty(),
    {
        let r = AllocationPool { entries: Vec::new() };
        proof {
            assert(r@ =~= Seq::<EntryModel>::empty());
        }
        r
    }

    /// Number of entries in the pool.
    pub fn len(&self) -> (r: usize)
        ensures
            r == self@.len(),
    {
        self.entries.len()
    }

    /// The entry at a position, for inspection.
    pub fn entry_at(&self, i: usize) -> (r: &PoolEntry)
        requires
            i < self@.len(),
        ensures
            r@ == self@[i as int],
    {
        &self.entries[i]
    }

    /// Append the catalog snapshot: one entry per reported symbol, each
    /// without an owner. Runs once at service startup.
    pub fn populate(&mut self, symbols: Vec<String>)
        ensures
            final(self)@.len() == old(self)@.len() + symbols@.len(),
            forall|j: int| 0 <= j < old(self)@.len() ==> final(self)@[j] == old(self)@[j],
            forall|j: int|
                0 <= j < symbols@.len() ==> final(self)@[old(self)@.len() + j] == (EntryModel {
                    symbol: symbols@[j]@,
                    owner: None,
                }),
    {
        let n = symbols.len();
        let mut i: usize = 0;
        while i < n
            invariant
                n == symbols@.len(),
                i <= n,
                self@.len() == old(self)@.len() + i,
                forall|j: int| 0 <= j < old(self)@.len() ==> self@[j] == old(self)@[j],
                forall|j: int|
                    0 <= j < i ==> self@[old(self)@.len() + j] == (EntryModel {
                        symbol: symbols@[j]@,
                        owner: None,
                    }),
            decreases n - i,
        {
            let s = symbols[i].clone();
            self.entries.push(PoolEntry { symbol: s, owner: None });
            i = i + 1;
        }
    }

    /// Serve one allocation request: a linear scan for the first entry
    /// whose owner is unset binds it to the requesting node and returns
    /// its symbol; an exhausted pool returns nothing and stays as it
    /// was. No owner is ever cleared or reassigned.
    pub fn allocate(&mut self, node_id: usize) -> (r: Option<String>)
        ensures
            final(self)@ == spec_allocate(old(self)@, node_id as int).0,
            match r {
                Some(s) => spec_allocate(old(self)@, node_id as int).1 == Some(s@),
                None => spec_allocate(old(self)@, node_id as int).1 is None,
            },
    {
        let n = self.entries.len();
        let mut i: usize = 0;
        while i < n
            invariant
                n == self@.len(),
                i <= n,
                self@ == old(self)@,
                forall|j: int| 0 <= j < i ==> self@[j].owner is Some,
            decreases n - i,
        {
            if self.entries[i].owner.is_none() {
                let symbol = self.entries[i].symbol.clone();
                let replacement = PoolEntry { symbol: symbol.clone(), owner: Some(node_id) };
                self.entries.set(i, replacement);
                proof {
                    lemma_first_free_at(old(self)@, i as int);
                    assert(self@ =~= spec_allocate(old(self)@, node_id as int).0);
                }
                return Some(symbol);
            }
            i = i + 1;
        }
        proof {
            lemma_first_free_props(self@);
        }
        None
    }
}

/// The first free index is the one the scan stops at.
proof fn lemma_first_free_at(s: Seq<EntryModel>, i: int)
    requires
        0 <= i < s.len(),
        forall|j: int| 0 <= j < i ==> s[j].owner is Some,
        s[i].owner is None,
    ensures
        spec_first_free(s) == Some(i),
    decreases i,
{
    if i > 0 {
        lemma_first_free_at(s.drop_first(), i - 1);
    }
}

/// The pool after a whole sequence of requests, and the answer each
/// request received, in order.
pub open spec fn spec_run_requests(s: Seq<EntryModel>, nodes: Seq<int>) -> (Seq<EntryModel>, Seq<
    Option<Seq<char>>,
>)
    decreases nodes.len(),
{
    if nodes.len() == 0 {
        (s, Seq::empty())
    } else {
        let step = spec_allocate(s, nodes[0]);
        let rest = spec_run_requests(step.0, nodes.drop_first());
        (rest.0, seq![step.1] + rest.1)
    }
}

/// Number of requests that received a symbol.
pub open spec fn spec_granted_count(rs: Seq<Option<Seq<char>>>) -> nat
    decreases rs.len(),
{
    if rs.len() == 0 {
        0
    } else {
        (if rs[0] is Some {
            1nat
        } else {
            0nat
        }) + spec_granted_count(rs.drop_first())
    }
}

/// One allocation step never touches a symbol, never clears or moves an
/// owner that is set, and grants exactly when a free entry exists.
proof fn lemma_allocate_step(s: Seq<EntryModel>, node: int)
    ensures
        spec_allocate(s, node).0.len() == s.len(),
        forall|j: int| 0 <= j < s.len() ==> spec_allocate(s, node).0[j].symbol == s[j].symbol,
        forall|j: int|
            0 <= j < s.len() && s[j].owner is Some ==> spec_allocate(s, node).0[j].owner
                == s[j].owner,
        spec_allocate(s, node).1 is Some <==> spec_free_count(s) > 0,
        spec_allocate(s, node).1 is Some ==> spec_free_count(spec_allocate(s, node).0)
            == spec_free_count(s) - 1,
        spec_allocate(s, node).1 is None ==> spec_allocate(s, node).0 == s,
        spec_allocate(s, node).1 matches Some(sym) ==> exists|j: int|
            0 <= j < s.len() && s[j].owner is None && s[j].symbol == sym
                && #[trigger] spec_allocate(s, node).0[j].owner is Some,
{
    lemma_first_free_props(s);
    lemma_first_free_iff_free_count(s);
    match spec_first_free(s) {
        Some(i) => {
            lemma_free_count_after_bind(s, i, node);
            assert(0 <= i < s.len() && s[i].owner is None && s[i].symbol == spec_allocate(
                s,
                node,
            ).1->0 && spec_allocate(s, node).0[i].owner is Some);
        },
        None => {
        },
    }
}

/// Every granted symbol comes from an entry that was still free when
/// the run began.
proof fn lemma_run_grants_from_free(s: Seq<EntryModel>, nodes: Seq<int>)
    ensures
        spec_run_requests(s, nodes).1.len() == nodes.len(),
        forall|k: int|
            0 <= k < nodes.len() && #[trigger] spec_run_requests(s, nodes).1[k] is Some
                ==> exists|j: int|
                0 <= j < s.len() && s[j].owner is None && #[trigger] s[j].symbol
                    == spec_run_requests(s, nodes).1[k]->0,
    decreases nodes.len(),
{
    if nodes.len() > 0 {
        let step = spec_allocate(s, nodes[0]);
        lemma_allocate_step(s, nodes[0]);
        lemma_run_grants_from_free(step.0, nodes.drop_first());
        let rs = spec_run_requests(s, nodes).1;
        let rest = spec_run_requests(step.0, nodes.drop_first()).1;
        assert forall|k: int| 0 <= k < nodes.len() && #[trigger] rs[k] is Some implies exists|
            j: int,
        |
            0 <= j < s.len() && s[j].owner is None && #[trigger] s[j].symbol == rs[k]->0 by {
            if k == 0 {
                assert(rs[0] == step.1);
            } else {
                assert(rs[k] == rest[k - 1]);
                let j = choose|j: int|
                    0 <= j < step.0.len() && step.0[j].owner is None && #[trigger] step.0[j].symbol
                        == rest[k - 1]->0;
                assert(s[j].owner is None && s[j].symbol == rs[k]->0);
            }
        }
    }
}

/// Allocation exclusivity: for any pool and any sequence of requests,
/// at most as many requests are granted as the pool has free entries,
/// and, when no two entries carry the same symbol, no symbol is ever
/// handed out twice — in particular never again to a different
/// requester.
pub proof fn lemma_allocation_exclusivity(s: Seq<EntryModel>, nodes: Seq<int>)
    requires
        spec_distinct_symbols(s),
    ensures
        spec_run_requests(s, nodes).1.len() == nodes.len(),
        spec_granted_count(spec_run_requests(s, nodes).1) <= spec_free_count(s),
        spec_free_count(s) <= s.len(),
        forall|a: int, b: int|
            0 <= a < b < nodes.len() && #[trigger] spec_run_requests(s, nodes).1[a] is Some
                && #[trigger] spec_run_requests(s, nodes).1[b] is Some ==> spec_run_requests(
                s,
                nodes,
            ).1[a] != spec_run_requests(s, nodes).1[b],
    decreases nodes.len(),
{
    lemma_free_count_bound(s);
    lemma_allocation_exhaustion(s, nodes);
    if nodes.len() > 0 {
        let step = spec_allocate(s, nodes[0]);
        lemma_allocate_step(s, nodes[0]);
        assert(spec_distinct_symbols(step.0)) by {
            assert(forall|j: int|
                0 <= j < s.len() ==> #[trigger] step.0[j].symbol == s[j].symbol);
        }
        lemma_allocation_exclusivity(step.0, nodes.drop_first());
        lemma_run_grants_from_free(step.0, nodes.drop_first());
        let rs = spec_run_requests(s, nodes).1;
        let rest = spec_run_requests(step.0, nodes.drop_first()).1;
        assert forall|a: int, b: int|
            0 <= a < b < nodes.len() && #[trigger] rs[a] is Some && #[trigger] rs[b] is Some
                implies rs[a] != rs[b] by {
            if a == 0 {
                let i = choose|i: int|
                    0 <= i < s.len() && s[i].owner is None && s[i].symbol == step.1->0
                        && #[trigger] step.0[i].owner is Some;
                assert(rs[b] == rest[b - 1]);
                let j = choose|j: int|
                    0 <= j < step.0.len() && step.0[j].owner is None && #[trigger] step.0[j].symbol
                        == rest[b - 1]->0;
                assert(j != i);
                assert(s[j].symbol != s[i].symbol);
            } else {
                assert(rs[a] == rest[a - 1] && rs[b] == rest[b - 1]);
            }
        }
    }
}

/// The free count never exceeds the pool size.
proof fn lemma_free_count_bound(s: Seq<EntryModel>)
    ensures
        spec_free_count(s) <= s.len(),
    decreases s.len(),
{
    if s.len() > 0 {
        lemma_free_count_bound(s.drop_first());
    }
}

/// Allocation exhaustion: for any pool and any sequence of requests,
/// the number of granted requests is exactly the smaller of the number
/// of free entries and the number of requests; every request beyond the
/// pool's capacity receives a negative answer at once.
pub proof fn lemma_allocation_exhaustion(s: Seq<EntryModel>, nodes: Seq<int>)
    ensures
        spec_run_requests(s, nodes).1.len() == nodes.len(),
        spec_granted_count(spec_run_requests(s, nodes).1) == if spec_free_count(s) <= nodes.len() {
            spec_free_count(s)
        } else {
            nodes.len() as nat
        },
    decreases nodes.len(),
{
    if nodes.len() > 0 {
        let step = spec_allocate(s, nodes[0]);
        lemma_allocate_step(s, nodes[0]);
        lemma_allocation_exhaustion(step.0, nodes.drop_first());
        let rs = spec_run_requests(s, nodes).1;
        let rest = spec_run_requests(step.0, nodes.drop_first()).1;
        assert(rs.drop_first() =~= rest);
    }
}

} // verus!
