use vstd::prelude::*;

use crate::address::Address;
use crate::instructions::state::Snipe;

verus! {

/// One marker record together with the address that holds it.
struct Marker {
    address: Address,
    snipe: Snipe,
}

/// The records that a sequence of markers holds, by address.
spec fn markers_of(entries: Seq<Marker>) -> Map<Seq<u8>, Snipe>
    decreases entries.len(),
{
    if entries.len() == 0 {
        Map::empty()
    } else {
        markers_of(entries.drop_last()).insert(entries.last().address@, entries.last().snipe)
    }
}

/// No address holds two markers.
spec fn addresses_distinct(entries: Seq<Marker>) -> bool {
    forall|i: int, j: int|
        0 <= i < j < entries.len() ==> (#[trigger] entries[i]).address@ != (
        #[trigger] entries[j]).address@
}

/// An address is a key of `markers_of` exactly when some entry has it.
proof fn lemma_markers_of_keys(entries: Seq<Marker>, address: Seq<u8>)
    ensures
        markers_of(entries).contains_key(address) <==> exists|i: int|
            0 <= i < entries.len() && (#[trigger] entries[i]).address@ == address,
    decreases entries.len(),
{
    if entries.len() > 0 {
        let front = entries.drop_last();
        lemma_markers_of_keys(front, address);
        if markers_of(entries).contains_key(address) {
            if entries.last().address@ == address {
                assert(entries[entries.len() - 1].address@ == address);
            } else {
                let i = choose|i: int| 0 <= i < front.len() && (#[trigger] front[i]).address@ == address;
                assert(entries[i].address@ == address);
            }
        }
        if exists|i: int| 0 <= i < entries.len() && (#[trigger] entries[i]).address@ == address {
            let i = choose|i: int| 0 <= i < entries.len() && (#[trigger] entries[i]).address@ == address;
            if i < front.len() {
                assert(front[i].address@ == address);
            }
        }
    }
}

/// Where no address occurs twice, each entry is what its address maps to.
proof fn lemma_markers_of_values(entries: Seq<Marker>, i: int)
    requires
        addresses_distinct(entries),
        0 <= i < entries.len(),
    ensures
        markers_of(entries).contains_key(entries[i].address@),
        markers_of(entries)[entries[i].address@] == entries[i].snipe,
    decreases entries.len(),
{
    let front = entries.drop_last();
    if i < entries.len() - 1 {
        assert(addresses_distinct(front)) by {
            assert forall|a: int, b: int| 0 <= a < b < front.len() implies (#[trigger] front[a]).address@
                != (#[trigger] front[b]).address@ by {
                assert(entries[a].address@ != entries[b].address@);
            }
        }
        lemma_markers_of_values(front, i);
        assert(front[i] == entries[i]);
        assert(entries[i].address@ != entries[entries.len() - 1].address@);
    }
}

/// Where no address occurs twice, there are as many records as entries.
proof fn lemma_markers_of_len(entries: Seq<Marker>)
    requires
        addresses_distinct(entries),
    ensures
        markers_of(entries).dom().finite(),
        markers_of(entries).dom().len() == entries.len(),
    decreases entries.len(),
{
    if entries.len() > 0 {
        let front = entries.drop_last();
        assert(addresses_distinct(front)) by {
            assert forall|a: int, b: int| 0 <= a < b < front.len() implies (#[trigger] front[a]).address@
                != (#[trigger] front[b]).address@ by {
                assert(entries[a].address@ != entries[b].address@);
            }
        }
        lemma_markers_of_len(front);
        lemma_markers_of_keys(front, entries.last().address@);
        if markers_of(front).contains_key(entries.last().address@) {
            let i = choose|i: int|
                0 <= i < front.len() && (#[trigger] front[i]).address@ == entries.last().address@;
            assert(entries[i].address@ == entries[entries.len() - 1].address@);
        }
        assert(markers_of(entries).dom() =~= markers_of(front).dom().insert(entries.last().address@));
    }
}

/// Whether two addresses hold the same bytes.
pub fn same_address(a: &Address, b: &Address) -> (same: bool)
    ensures
        same == (a@ == b@),
{
    let mut i: usize = 0;
    while i < 32
        invariant
            i <= 32,
            forall|k: int| 0 <= k < i ==> a@[k] == b@[k],
        decreases 32 - i,
    {
        if a[i] != b[i] {
            assert(a@[i as int] != b@[i as int]);
            return false;
        }
        i += 1;
    }
    assert(a@ =~= b@);
    true
}

/// The marker records that exist, each under its address. A record is
/// created once and then neither changed nor removed.
pub struct MarkerStore {
    entries: Vec<Marker>,
}

impl View for MarkerStore {
    type V = Map<Seq<u8>, Snipe>;

    closed spec fn view(&self) -> Map<Seq<u8>, Snipe> {
        markers_of(self.entries@)
    }
}

impl MarkerStore {
    #[verifier::type_invariant]
    spec fn no_address_twice(self) -> bool {
        addresses_distinct(self.entries@)
    }

    /// A store without records.
    pub fn new() -> (store: Self)
        ensures
            store@ == Map::<Seq<u8>, Snipe>::empty(),
    {
        MarkerStore { entries: Vec::new() }
    }

    /// The number of records.
    pub fn len(&self) -> (n: usize)
        ensures
            self@.dom().finite(),
            n == self@.dom().len(),
    {
        proof {
            use_type_invariant(self);
            lemma_markers_of_len(self.entries@);
        }
        self.entries.len()
    }

    /// Where in `entries` the record of `address` stands.
    fn position(&self, address: &Address) -> (found: Option<usize>)
        ensures
            match found {
                Some(i) => i < self.entries@.len() && self.entries@[i as int].address@ == address@,
                None => !self@.contains_key(address@),
            },
    {
        let mut i: usize = 0;
        while i < self.entries.len()
            invariant
                i <= self.entries@.len(),
                forall|k: int| 0 <= k < i ==> (#[trigger] self.entries@[k]).address@ != address@,
            decreases self.entries@.len() - i,
        {
            if same_address(&self.entries[i].address, address) {
                return Some(i);
            }
            i += 1;
        }
        proof {
            lemma_markers_of_keys(self.entries@, address@);
        }
        None
    }

    /// The record at `address`, if one exists.
    pub fn get(&self, address: &Address) -> (snipe: Option<Snipe>)
        ensures
            snipe == if self@.contains_key(address@) {
                Some(self@[address@])
            } else {
                None
            },
    {
        match self.position(address) {
            Some(i) => {
                proof {
                    use_type_invariant(self);
                    lemma_markers_of_values(self.entries@, i as int);
                }
                Some(self.entries[i].snipe)
            },
            None => None,
        }
    }

    /// Whether a record exists at `address`.
    pub fn contains(&self, address: &Address) -> (occupied: bool)
        ensures
            occupied == self@.contains_key(address@),
    {
        match self.position(address) {
            Some(i) => {
                proof {
                    use_type_invariant(self);
                    lemma_markers_of_values(self.entries@, i as int);
                }
                true
            },
            None => false,
        }
    }

    /// Creates the record at `address` unless the address is occupied, and
    /// says whether it did. An occupied address keeps the record it has.
    pub fn insert_if_absent(&mut self, address: Address, snipe: Snipe) -> (created: bool)
        ensures
            created == !old(self)@.contains_key(address@),
            final(self)@ == if created {
                old(self)@.insert(address@, snipe)
            } else {
                old(self)@
            },
    {
        if self.contains(&address) {
            return false;
        }
        proof {
            use_type_invariant(&*self);
            lemma_markers_of_keys(self.entries@, address@);
        }
        let ghost before = self.entries@;
        let mut taken = MarkerStore::new();
        std::mem::swap(self, &mut taken);
        let MarkerStore { entries: mut entries } = taken;
        entries.push(Marker { address, snipe });
        proof {
            assert(entries@.drop_last() =~= before);
            assert forall|i: int, j: int| 0 <= i < j < entries@.len() implies (
            #[trigger] entries@[i]).address@ != (#[trigger] entries@[j]).address@ by {
                assert(entries@[i] == before[i]);
                if j < before.len() {
                    assert(entries@[j] == before[j]);
                }
            }
        }
        *self = MarkerStore { entries };
        true
    }
}

} // verus!
