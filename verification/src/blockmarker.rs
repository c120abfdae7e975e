//! The set of destinations that showed the 16-32 KB stall.

use crate::addr::SocketAddress;
use vstd::prelude::*;

verus! {

/// How often every mark is forgotten, in seconds.
pub const PURGE_INTERVAL_SECS: u64 = 3600;

/// The destinations that are marked as stalling.
pub struct BlockMarker {
    marked: Vec<SocketAddress>,
}

/// The set that marking each address of `adds` in turn makes of the empty set.
pub open spec fn marked_after(adds: Seq<SocketAddress>) -> Set<SocketAddress>
    decreases adds.len(),
{
    if adds.len() == 0 {
        Set::empty()
    } else {
        marked_after(adds.drop_last()).insert(adds.last())
    }
}

/// Marking an address that is marked changes nothing.
pub proof fn lemma_add_is_idempotent(marked: Set<SocketAddress>, addr: SocketAddress)
    ensures
        marked.insert(addr).insert(addr) == marked.insert(addr),
{
    assert(marked.insert(addr).insert(addr) =~= marked.insert(addr));
}

/// From an empty set on, an address is marked if and only if it was added at
/// least once.
pub proof fn lemma_marked_iff_added(adds: Seq<SocketAddress>, addr: SocketAddress)
    ensures
        marked_after(adds).contains(addr) <==> adds.contains(addr),
    decreases adds.len(),
{
    if adds.len() > 0 {
        lemma_marked_iff_added(adds.drop_last(), addr);
        if adds.drop_last().contains(addr) {
            let i = choose|i: int| 0 <= i < adds.drop_last().len() && adds.drop_last()[i] == addr;
            assert(adds[i] == addr);
        }
        if adds.contains(addr) {
            let i = choose|i: int| 0 <= i < adds.len() && adds[i] == addr;
            if i < adds.len() - 1 {
                assert(adds.drop_last()[i] == addr);
            }
        }
    }
}

impl View for BlockMarker {
    type V = Set<SocketAddress>;

    closed spec fn view(&self) -> Set<SocketAddress> {
        Set::new(|addr: SocketAddress| self.marked@.contains(addr))
    }
}

impl BlockMarker {
    /// A marker set that holds nothing.
    pub fn new() -> (r: Self)
        ensures
            r@ == Set::<SocketAddress>::empty(),
    {
        let r = BlockMarker { marked: Vec::new() };
        assert(r@ =~= Set::<SocketAddress>::empty());
        r
    }

    /// Whether the address is marked.
    pub fn is_16kb_blocked(&self, socket_addr: SocketAddress) -> (r: bool)
        ensures
            r == self@.contains(socket_addr),
    {
        let mut i: usize = 0;
        while i < self.marked.len()
            invariant
                i <= self.marked@.len(),
                forall|j: int| 0 <= j < i ==> self.marked@[j] != socket_addr,
            decreases self.marked@.len() - i,
        {
            if self.marked[i].same(&socket_addr) {
                assert(self.marked@.contains(socket_addr));
                return true;
            }
            i += 1;
        }
        false
    }

    /// Marks the address. Says whether it was not marked before.
    pub fn add_marker(&mut self, socket_addr: SocketAddress) -> (added: bool)
        ensures
            final(self)@ == old(self)@.insert(socket_addr),
            added == !old(self)@.contains(socket_addr),
    {
        if self.is_16kb_blocked(socket_addr) {
            assert(self@ =~= old(self)@.insert(socket_addr));
            false
        } else {
            self.marked.push(socket_addr);
            assert forall|a: SocketAddress| self@.contains(a) <==> old(self)@.insert(
                socket_addr,
            ).contains(a) by {
                if old(self).marked@.contains(a) {
                    let i = choose|i: int|
                        0 <= i < old(self).marked@.len() && old(self).marked@[i] == a;
                    assert(self.marked@[i] == a);
                }
                if a == socket_addr {
                    assert(self.marked@[self.marked@.len() - 1] == a);
                }
            }
            assert(self@ =~= old(self)@.insert(socket_addr));
            true
        }
    }

    /// Takes the mark off the address.
    pub fn remove_marker(&mut self, socket_addr: SocketAddress)
        ensures
            final(self)@ == old(self)@.remove(socket_addr),
    {
        let mut kept: Vec<SocketAddress> = Vec::new();
        let mut i: usize = 0;
        while i < self.marked.len()
            invariant
                i <= self.marked@.len(),
                forall|a: SocketAddress|
                    kept@.contains(a) <==> (a != socket_addr && self.marked@.take(i as int).contains(
                        a,
                    )),
            decreases self.marked@.len() - i,
        {
            let item = self.marked[i];
            let ghost before = kept@;
            if !item.same(&socket_addr) {
                kept.push(item);
            }
            assert forall|a: SocketAddress|
                kept@.contains(a) <==> (a != socket_addr && self.marked@.take(i + 1).contains(
                    a,
                )) by {
                let now = self.marked@.take(i + 1);
                let then = self.marked@.take(i as int);
                if then.contains(a) {
                    let j = choose|j: int| 0 <= j < then.len() && then[j] == a;
                    assert(now[j] == a);
                }
                if now.contains(a) {
                    let j = choose|j: int| 0 <= j < now.len() && now[j] == a;
                    if j < i {
                        assert(then[j] == a);
                    }
                }
                if before.contains(a) {
                    let j = choose|j: int| 0 <= j < before.len() && before[j] == a;
                    assert(kept@[j] == a);
                }
                if kept@.contains(a) {
                    let j = choose|j: int| 0 <= j < kept@.len() && kept@[j] == a;
                    if j < before.len() {
                        assert(before[j] == a);
                    } else {
                        assert(now[i as int] == a);
                    }
                }
                if a == item && a != socket_addr {
                    assert(kept@[kept@.len() - 1] == a);
                    assert(now[i as int] == a);
                }
            }
            i += 1;
        }
        assert(self.marked@.take(self.marked@.len() as int) =~= self.marked@);
        self.marked = kept;
        assert(self@ =~= old(self)@.remove(socket_addr));
    }

    /// Forgets every mark: the periodic purge.
    pub fn clear(&mut self)
        ensures
            final(self)@ == Set::<SocketAddress>::empty(),
    {
        self.marked = Vec::new();
        assert(self@ =~= Set::<SocketAddress>::empty());
    }
}

} // verus!
