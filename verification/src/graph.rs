//! The store's view of ingestion, as the mutation builder relies on it.
//!
//! The builder merges Address nodes and creates Message nodes; the
//! store answers a merge with the existing node when one carries the
//! same key, and gives every created node a fresh identifier which the
//! mutation's return clause hands back.  This module states those
//! semantics over a model of the graph and proves what the pipeline
//! relies on: merging never duplicates an address, creating never
//! reuses an identifier, and the identifier returned is the created
//! node's.

use vstd::prelude::*;

verus! {

/// One Message node: its store-assigned identifier, its text, and the
/// index of the Address node its "from" link points at.
#[derive(Debug, Clone, PartialEq, Eq)]
pub struct MessageRecord {
    pub id: usize,
    pub text: String,
    pub addr: usize,
}

/// The model graph: the Address nodes (one per distinct address), the
/// Message nodes in ingestion order, and the store's identifier
/// counter.
pub struct StoreModel {
    pub addresses: Vec<String>,
    pub messages: Vec<MessageRecord>,
    pub next_id: usize,
}

/// Whether some Address node carries the given address.
pub open spec fn has_addr(addrs: Seq<String>, ip: Seq<char>) -> bool {
    exists|k: int| 0 <= k < addrs.len() && (#[trigger] addrs[k])@ == ip
}

/// How many Address nodes carry the given address.
pub open spec fn count_addr(addrs: Seq<String>, ip: Seq<char>) -> nat
    decreases addrs.len(),
{
    if addrs.len() == 0 {
        0
    } else {
        count_addr(addrs.drop_last(), ip) + if addrs.last()@ == ip {
            1nat
        } else {
            0nat
        }
    }
}

impl StoreModel {
    /// The graph is well formed: every Message links to an existing
    /// Address, no two Address nodes carry the same address, and
    /// Message identifiers strictly increase in ingestion order,
    /// staying below the counter.
    pub open spec fn wf(self) -> bool {
        &&& forall|i: int|
            0 <= i < self.messages@.len() ==> (#[trigger] self.messages@[i]).addr
                < self.addresses@.len()
        &&& forall|i: int, j: int|
            0 <= i < j < self.addresses@.len() ==> (#[trigger] self.addresses@[i])@ != (
            #[trigger] self.addresses@[j])@
        &&& forall|i: int|
            0 <= i < self.messages@.len() ==> (#[trigger] self.messages@[i]).id < self.next_id
        &&& forall|i: int, j: int|
            0 <= i < j < self.messages@.len() ==> (#[trigger] self.messages@[i]).id < (
            #[trigger] self.messages@[j]).id
    }

    /// What one ingestion does to the graph: the Address node is merged
    /// — reused when present, created once when not — the Message node
    /// is always created, linked to that Address, carrying the old
    /// counter as its identifier, and the counter advances.
    pub open spec fn ingest_transition(pre: StoreModel, post: StoreModel, text: Seq<char>, ip: Seq<
        char,
    >) -> bool {
        &&& post.next_id == pre.next_id + 1
        &&& (has_addr(pre.addresses@, ip) ==> post.addresses@ == pre.addresses@)
        &&& (!has_addr(pre.addresses@, ip) ==> post.addresses@.len() == pre.addresses@.len() + 1
            && post.addresses@.drop_last() == pre.addresses@ && post.addresses@.last()@ == ip)
        &&& post.messages@.len() == pre.messages@.len() + 1
        &&& post.messages@.drop_last() == pre.messages@
        &&& post.messages@.last().id == pre.next_id
        &&& post.messages@.last().text@ == text
        &&& post.messages@.last().addr < post.addresses@.len()
        &&& post.addresses@[post.messages@.last().addr as int]@ == ip
    }

    /// An empty graph: the state before any ingestion.
    pub fn new() -> (g: StoreModel)
        ensures
            g.wf(),
            g.addresses@.len() == 0,
            g.messages@.len() == 0,
            g.next_id == 0,
    {
        StoreModel { addresses: Vec::new(), messages: Vec::new(), next_id: 0 }
    }

    /// The index of the Address node carrying the given address, if
    /// any.
    fn find_addr(&self, ip: &String) -> (r: Option<usize>)
        ensures
            r matches Some(k) ==> k < self.addresses@.len() && self.addresses@[k as int]@ == ip@,
            r is None ==> !has_addr(self.addresses@, ip@),
    {
        let mut i: usize = 0;
        while i < self.addresses.len()
            invariant
                i <= self.addresses@.len(),
                forall|k: int| 0 <= k < i ==> (#[trigger] self.addresses@[k])@ != ip@,
            decreases self.addresses@.len() - i,
        {
            if self.addresses[i].eq(ip) {
                return Some(i);
            }
            i = i + 1;
        }
        None
    }

    /// Ingest one message from the given source address: merge the
    /// Address node, create the Message node with the store's next
    /// identifier, link them, and return exactly that identifier — the
    /// value the listener publishes.
    pub fn ingest(&mut self, text: &str, ip: &String) -> (id: usize)
        requires
            old(self).wf(),
            old(self).next_id < usize::MAX,
            old(self).addresses@.len() < usize::MAX,
        ensures
            final(self).wf(),
            StoreModel::ingest_transition(*old(self), *final(self), text@, ip@),
            id == old(self).next_id,
            final(self).messages@.last().id == id,
    {
        let addr_index: usize = match self.find_addr(ip) {
            Some(k) => k,
            None => {
                let k = self.addresses.len();
                self.addresses.push(ip.clone());
                k
            },
        };
        let id = self.next_id;
        self.messages.push(MessageRecord { id, text: text.to_owned(), addr: addr_index });
        self.next_id = self.next_id + 1;
        proof {
            assert(self.messages@.drop_last() =~= old(self).messages@);
            if has_addr(old(self).addresses@, ip@) {
                assert(self.addresses@ == old(self).addresses@);
            } else {
                assert(self.addresses@.drop_last() =~= old(self).addresses@);
            }
        }
        id
    }
}

/// Counting an address distributes over the merge cases.
proof fn lemma_count_addr_bounds(addrs: Seq<String>, ip: Seq<char>)
    ensures
        has_addr(addrs, ip) ==> count_addr(addrs, ip) >= 1,
        !has_addr(addrs, ip) ==> count_addr(addrs, ip) == 0,
        (forall|i: int, j: int|
            0 <= i < j < addrs.len() ==> (#[trigger] addrs[i])@ != (#[trigger] addrs[j])@)
            ==> count_addr(addrs, ip) <= 1,
    decreases addrs.len(),
{
    if addrs.len() > 0 {
        lemma_count_addr_bounds(addrs.drop_last(), ip);
        assert(forall|k: int|
            0 <= k < addrs.len() - 1 ==> #[trigger] addrs.drop_last()[k] == addrs[k]);
        if has_addr(addrs, ip) {
            let k = choose|k: int| 0 <= k < addrs.len() && (#[trigger] addrs[k])@ == ip;
            if k < addrs.len() - 1 {
                assert(addrs.drop_last()[k]@ == ip);
                assert(has_addr(addrs.drop_last(), ip));
            }
        }
        if has_addr(addrs.drop_last(), ip) {
            let k = choose|k: int|
                0 <= k < addrs.drop_last().len() && (#[trigger] addrs.drop_last()[k])@ == ip;
            assert(addrs[k]@ == ip);
            assert(has_addr(addrs, ip));
        }
        if (forall|i: int, j: int|
            0 <= i < j < addrs.len() ==> (#[trigger] addrs[i])@ != (#[trigger] addrs[j])@) {
            if addrs.last()@ == ip {
                assert(!has_addr(addrs.drop_last(), ip)) by {
                    if has_addr(addrs.drop_last(), ip) {
                        let k = choose|k: int|
                            0 <= k < addrs.len() - 1 && (#[trigger] addrs.drop_last()[k])@ == ip;
                        assert(addrs[k]@ == addrs[addrs.len() - 1]@);
                    }
                }
            }
        }
    }
}

/// Merge idempotence: two ingestions from one source address leave
/// exactly one Address node carrying that address, and create two
/// Message nodes with distinct identifiers, each linked to that single
/// Address node.
pub proof fn lemma_merge_idempotent(
    pre: StoreModel,
    mid: StoreModel,
    post: StoreModel,
    t1: Seq<char>,
    t2: Seq<char>,
    ip: Seq<char>,
)
    requires
        pre.wf(),
        mid.wf(),
        post.wf(),
        !has_addr(pre.addresses@, ip),
        StoreModel::ingest_transition(pre, mid, t1, ip),
        StoreModel::ingest_transition(mid, post, t2, ip),
    ensures
        count_addr(post.addresses@, ip) == 1,
        post.messages@.len() == pre.messages@.len() + 2,
        post.messages@[post.messages@.len() - 2].id != post.messages@[post.messages@.len() - 1].id,
        post.addresses@[post.messages@[post.messages@.len() - 2].addr as int]@ == ip,
        post.addresses@[post.messages@[post.messages@.len() - 1].addr as int]@ == ip,
{
    assert(mid.addresses@.last()@ == ip);
    assert(has_addr(mid.addresses@, ip));
    assert(post.addresses@ == mid.addresses@);
    lemma_count_addr_bounds(post.addresses@, ip);
    assert(post.messages@[post.messages@.len() - 2] == mid.messages@.last());
    assert(post.messages@[post.messages@.len() - 2].id == pre.next_id);
    assert(post.messages@.last().id == mid.next_id);
    assert(post.addresses@[mid.messages@.last().addr as int]@ == ip);
}

/// Identifier monotonic uniqueness: in any well-formed graph the
/// Message identifiers are pairwise distinct; each ingestion assigns
/// the store's counter, which only grows, and hands back exactly the
/// created node's identifier.
pub proof fn lemma_identifiers_unique(g: StoreModel)
    requires
        g.wf(),
    ensures
        forall|i: int, j: int|
            0 <= i < g.messages@.len() && 0 <= j < g.messages@.len() && i != j ==> (
            #[trigger] g.messages@[i]).id != (#[trigger] g.messages@[j]).id,
{
}

} // verus!
