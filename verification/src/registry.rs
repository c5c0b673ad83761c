//! Clients by address.

use vstd::prelude::*;

verus! {

/// The address of a client's socket.
#[derive(Clone, Copy, Debug, PartialEq, Eq, Structural)]
pub enum Address {
    V4 { ip: u32, port: u16 },
    V6 { ip6: u128, port: u16, flowinfo: u32, scope_id: u32 },
}

/// What is kept for each client, by the client's address. No address occurs twice.
pub struct Registry<V> {
    entries: Vec<(Address, V)>,
}

/// The entry with the given address is at this place.
spec fn found<V>(entries: Seq<(Address, V)>, addr: Address, i: int) -> bool {
    0 <= i < entries.len() && entries[i].0 == addr
}

/// The entries as a map.
spec fn entry_map<V>(entries: Seq<(Address, V)>) -> Map<Address, V> {
    Map::new(
        |addr: Address| exists|i: int| found(entries, addr, i),
        |addr: Address| entries[choose|i: int| found(entries, addr, i)].1,
    )
}

/// No address occurs twice.
spec fn distinct_addresses<V>(entries: Seq<(Address, V)>) -> bool {
    forall|i: int, j: int|
        0 <= i < entries.len() && 0 <= j < entries.len() && i != j ==> #[trigger] entries[i].0
            != #[trigger] entries[j].0
}

proof fn lemma_entry<V>(entries: Seq<(Address, V)>, addr: Address, i: int)
    requires
        distinct_addresses(entries),
        found(entries, addr, i),
    ensures
        entry_map(entries).dom().contains(addr),
        entry_map(entries)[addr] == entries[i].1,
{
    let j = choose|j: int| found(entries, addr, j);
    assert(found(entries, addr, j));
    assert(i == j);
}

/// The entry of an address, replaced or added, is all that tells the maps apart.
proof fn lemma_insert<V>(
    before: Seq<(Address, V)>,
    after: Seq<(Address, V)>,
    addr: Address,
    place: int,
)
    requires
        distinct_addresses(before),
        found(after, addr, place),
        after.len() >= before.len(),
        forall|i: int| #![trigger after[i]] 0 <= i < after.len() && i != place ==> i < before.len() && after[i] == before[i],
        place < before.len() ==> before[place].0 == addr && after.len() == before.len(),
        place >= before.len() ==> forall|i: int| !found(before, addr, i),
    ensures
        distinct_addresses(after),
        entry_map(after) == entry_map(before).insert(addr, after[place].1),
{
    assert forall|i: int, j: int|
        0 <= i < after.len() && 0 <= j < after.len() && i != j implies #[trigger] after[i].0
        != #[trigger] after[j].0 by {
        if i < before.len() && j < before.len() {
            assert(before[i].0 != before[j].0);
        } else if i < before.len() {
            assert(!found(before, addr, i));
        } else {
            assert(!found(before, addr, j));
        }
    }
    assert forall|a: Address|
        entry_map(after).dom().contains(a) == entry_map(before).insert(
            addr,
            after[place].1,
        ).dom().contains(a) by {
        if entry_map(after).dom().contains(a) && a != addr {
            let i = choose|i: int| found(after, a, i);
            assert(found(before, a, i));
        }
        if entry_map(before).dom().contains(a) {
            let i = choose|i: int| found(before, a, i);
            assert(after[i].0 == before[i].0);
            assert(found(after, a, i));
        }
    }
    assert forall|a: Address| #[trigger] entry_map(after).dom().contains(a) implies entry_map(
        after,
    )[a] == entry_map(before).insert(addr, after[place].1)[a] by {
        let i = choose|i: int| found(after, a, i);
        lemma_entry(after, a, i);
        if a == addr {
            lemma_entry(after, a, place);
        } else {
            assert(found(before, a, i));
            lemma_entry(before, a, i);
        }
    }
    assert(entry_map(after) =~= entry_map(before).insert(addr, after[place].1));
}

impl<V> Registry<V> {
    #[verifier::type_invariant]
    spec fn distinct(self) -> bool {
        distinct_addresses(self.entries@)
    }
}

impl<V> View for Registry<V> {
    type V = Map<Address, V>;

    closed spec fn view(&self) -> Map<Address, V> {
        entry_map(self.entries@)
    }
}

impl<V> Registry<V> {
    /// A registry of no clients.
    pub fn new() -> (registry: Registry<V>)
        ensures
            registry@ == Map::<Address, V>::empty(),
    {
        let registry = Registry { entries: Vec::new() };
        proof {
            assert(registry@ =~= Map::<Address, V>::empty());
        }
        registry
    }

    fn position(&self, addr: &Address) -> (place: Option<usize>)
        ensures
            match place {
                Some(i) => found(self.entries@, *addr, i as int),
                None => forall|i: int| !found(self.entries@, *addr, i),
            },
    {
        let mut i: usize = 0;
        while i < self.entries.len()
            invariant
                i <= self.entries.len(),
                forall|j: int| 0 <= j < i ==> !found(self.entries@, *addr, j),
            decreases self.entries.len() - i,
        {
            if self.entries[i].0 == *addr {
                return Some(i);
            }
            i = i + 1;
        }
        None
    }

    /// Whether something is kept for the client.
    pub fn contains(&self, addr: &Address) -> (present: bool)
        ensures
            present == self@.dom().contains(*addr),
    {
        self.position(addr).is_some()
    }

    /// What is kept for the client.
    pub fn get(&self, addr: &Address) -> (value: Option<&V>)
        ensures
            match value {
                Some(value) => self@.dom().contains(*addr) && self@[*addr] == *value,
                None => !self@.dom().contains(*addr),
            },
    {
        proof {
            use_type_invariant(self);
        }
        match self.position(addr) {
            Some(i) => {
                proof {
                    lemma_entry(self.entries@, *addr, i as int);
                }
                Some(&self.entries[i].1)
            },
            None => None,
        }
    }

    /// Keeps a value for the client, in place of what was kept before.
    pub fn insert(&mut self, addr: Address, value: V)
        ensures
            final(self)@ == old(self)@.insert(addr, value),
    {
        proof {
            use_type_invariant(&*self);
        }
        let place = self.position(&addr);
        let mut entries: Vec<(Address, V)> = Vec::new();
        std::mem::swap(&mut entries, &mut self.entries);
        match place {
            Some(i) => {
                entries.set(i, (addr, value));
            },
            None => {
                entries.push((addr, value));
            },
        }
        proof {
            let before = old(self).entries@;
            let i = if place is Some {
                place->0 as int
            } else {
                before.len() as int
            };
            lemma_insert(before, entries@, addr, i);
        }
        self.entries = entries;
    }

    /// The clients, each once.
    pub fn addresses(&self) -> (addresses: Vec<Address>)
        ensures
            addresses@.no_duplicates(),
            forall|addr: Address| addresses@.contains(addr) <==> self@.dom().contains(addr),
    {
        proof {
            use_type_invariant(self);
        }
        let mut addresses: Vec<Address> = Vec::new();
        let mut i: usize = 0;
        while i < self.entries.len()
            invariant
                i <= self.entries.len(),
                addresses@.len() == i,
                forall|j: int| 0 <= j < i ==> #[trigger] addresses@[j] == self.entries@[j].0,
            decreases self.entries.len() - i,
        {
            addresses.push(self.entries[i].0);
            i = i + 1;
        }
        proof {
            assert forall|addr: Address|
                addresses@.contains(addr) <==> self@.dom().contains(addr) by {
                if addresses@.contains(addr) {
                    let j = addresses@.index_of(addr);
                    assert(found(self.entries@, addr, j));
                }
                if self@.dom().contains(addr) {
                    let j = choose|j: int| found(self.entries@, addr, j);
                    assert(addresses@[j] == addr);
                }
            }
        }
        addresses
    }
}

} // verus!
