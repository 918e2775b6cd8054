//! The keyed record store: each record lives at an address derived from a
//! namespace tag and seed bytes, and a record is only ever created at an
//! address that holds none.
use vstd::prelude::*;
use vstd::bytes::{spec_u64_to_le_bytes, u64_to_le_bytes};
use crate::key::{Key, program_address, seeds_view, key_view, find_program_address};
use crate::records::{Record, byte_len, MAX_TITLE_LEN, MAX_DESCRIPTION_LEN};

verus! {

/// The namespace tag of the counter: the bytes of `program_state`.
pub open spec fn state_tag() -> Seq<u8> {
    seq![112u8, 114, 111, 103, 114, 97, 109, 95, 115, 116, 97, 116, 101]
}

/// The namespace tag of proposals: the bytes of `proposal`.
pub open spec fn proposal_tag() -> Seq<u8> {
    seq![112u8, 114, 111, 112, 111, 115, 97, 108]
}

/// The namespace tag of voter records: the bytes of `voter`.
pub open spec fn voter_tag() -> Seq<u8> {
    seq![118u8, 111, 116, 101, 114]
}

/// Where the counter of the deployment `program` lives.
pub open spec fn state_address(program: Seq<u8>) -> Option<Seq<u8>> {
    program_address(seq![state_tag()], program)
}

/// Where proposal number `id` lives: its tag and the little-endian bytes of `id`.
pub open spec fn proposal_address(program: Seq<u8>, id: u64) -> Option<Seq<u8>> {
    program_address(seq![proposal_tag(), spec_u64_to_le_bytes(id)], program)
}

/// Where the record of `voter` on the proposal at `proposal` lives.
pub open spec fn voter_address(program: Seq<u8>, proposal: Seq<u8>, voter: Seq<u8>) -> Option<
    Seq<u8>,
> {
    program_address(seq![voter_tag(), proposal, voter], program)
}

/// A record that stands at address `a` is where the scheme puts it and
/// satisfies its own invariant.
pub open spec fn record_valid(r: Record, a: Seq<u8>, program: Seq<u8>) -> bool {
    match r {
        Record::State(_) => state_address(program) == Some(a),
        Record::Proposal(p) => {
            &&& proposal_address(program, p.id) == Some(a)
            &&& p.tally_balanced()
            &&& byte_len(p.title@) <= MAX_TITLE_LEN
            &&& byte_len(p.description@) <= MAX_DESCRIPTION_LEN
        },
        Record::Voter(v) => v.has_voted,
    }
}

/// Every record of `m` is valid at its address.
pub open spec fn records_valid(m: Map<Seq<u8>, Record>, program: Seq<u8>) -> bool {
    forall|a: Seq<u8>| #[trigger] m.contains_key(a) ==> record_valid(m[a], a, program)
}

pub(crate) fn state_seeds() -> (r: Vec<Vec<u8>>)
    ensures
        seeds_view(r@) == seq![state_tag()],
{
    let tag: Vec<u8> = vec![112u8, 114, 111, 103, 114, 97, 109, 95, 115, 116, 97, 116, 101];
    assert(tag@ =~= state_tag());
    let r = vec![tag];
    assert(seeds_view(r@) =~= seq![state_tag()]);
    r
}

pub(crate) fn proposal_seeds(id: u64) -> (r: Vec<Vec<u8>>)
    ensures
        seeds_view(r@) == seq![proposal_tag(), spec_u64_to_le_bytes(id)],
{
    let tag: Vec<u8> = vec![112u8, 114, 111, 112, 111, 115, 97, 108];
    assert(tag@ =~= proposal_tag());
    let r = vec![tag, u64_to_le_bytes(id)];
    assert(seeds_view(r@) =~= seq![proposal_tag(), spec_u64_to_le_bytes(id)]);
    r
}

pub(crate) fn voter_seeds(proposal: &Key, voter: &Key) -> (r: Vec<Vec<u8>>)
    ensures
        seeds_view(r@) == seq![voter_tag(), proposal@, voter@],
{
    let tag: Vec<u8> = vec![118u8, 111, 116, 101, 114];
    assert(tag@ =~= voter_tag());
    let p: Vec<u8> = proposal.to_vec();
    let v: Vec<u8> = voter.to_vec();
    let r = vec![tag, p, v];
    assert(seeds_view(r@) =~= seq![voter_tag(), proposal@, voter@]);
    r
}

/// One address and the record that it holds.
pub struct Entry {
    pub address: Key,
    pub record: Record,
}

/// The records of one deployment, each at its address.
pub struct Ledger {
    program_id: Key,
    entries: Vec<Entry>,
    store: Ghost<Map<Seq<u8>, Record>>,
}

impl View for Ledger {
    type V = Map<Seq<u8>, Record>;

    /// The records, by address.
    closed spec fn view(&self) -> Map<Seq<u8>, Record> {
        self.store@
    }
}

impl Ledger {
    /// The key of the program that owns the records.
    pub closed spec fn program(&self) -> Seq<u8> {
        self.program_id@
    }

    /// The entries hold exactly the records of the view, one address each.
    pub closed spec fn consistent(&self) -> bool {
        &&& forall|i: int|
            0 <= i < self.entries@.len() ==> {
                &&& #[trigger] self.store@.contains_key(self.entries@[i].address@)
                &&& self.store@[self.entries@[i].address@] == self.entries@[i].record
            }
        &&& forall|a: Seq<u8>|
            #[trigger] self.store@.contains_key(a) ==> exists|i: int|
                0 <= i < self.entries@.len() && #[trigger] self.entries@[i].address@ == a
        &&& forall|i: int, j: int|
            0 <= i < self.entries@.len() && 0 <= j < self.entries@.len() && i != j
                ==> #[trigger] self.entries@[i].address@ != #[trigger] self.entries@[j].address@
    }

    /// The ledger is consistent and every record is valid at its address.
    pub open spec fn wf(&self) -> bool {
        self.consistent() && records_valid(self@, self.program())
    }

    /// An empty ledger of the program `program_id`.
    pub fn new(program_id: Key) -> (r: Ledger)
        ensures
            r.wf(),
            r@ == Map::<Seq<u8>, Record>::empty(),
            r.program() == program_id@,
    {
        Ledger { program_id, entries: Vec::new(), store: Ghost(Map::empty()) }
    }

    /// The key of the program that owns the records.
    pub fn program_id(&self) -> (r: Key)
        ensures
            r@ == self.program(),
    {
        self.program_id
    }

    /// The address of the counter.
    pub fn derive_state_address(&self) -> (r: Option<Key>)
        ensures
            key_view(r) == state_address(self.program()),
    {
        find_program_address(&state_seeds(), &self.program_id)
    }

    /// The address of proposal number `id`.
    pub fn derive_proposal_address(&self, id: u64) -> (r: Option<Key>)
        ensures
            key_view(r) == proposal_address(self.program(), id),
    {
        find_program_address(&proposal_seeds(id), &self.program_id)
    }

    /// The address of the record of `voter` on the proposal at `proposal`.
    pub fn derive_voter_address(&self, proposal: &Key, voter: &Key) -> (r: Option<Key>)
        ensures
            key_view(r) == voter_address(self.program(), proposal@, voter@),
    {
        find_program_address(&voter_seeds(proposal, voter), &self.program_id)
    }

    /// The index of the entry at `address`, if any.
    fn find(&self, address: &Key) -> (r: Option<usize>)
        requires
            self.consistent(),
        ensures
            match r {
                Some(i) => {
                    &&& i < self.entries@.len()
                    &&& self.entries@[i as int].address@ == address@
                    &&& self@.contains_key(address@)
                    &&& self@[address@] == self.entries@[i as int].record
                },
                None => !self@.contains_key(address@),
            },
    {
        let mut i: usize = 0;
        while i < self.entries.len()
            invariant
                self.consistent(),
                0 <= i <= self.entries@.len(),
                forall|j: int| 0 <= j < i ==> self.entries@[j].address@ != address@,
            decreases self.entries@.len() - i,
        {
            if self.entries[i].address.same_as(address) {
                assert(self.store@.contains_key(self.entries@[i as int].address@));
                return Some(i);
            }
            i = i + 1;
        }
        None
    }

    /// The record at `address`, if any.
    pub fn get(&self, address: &Key) -> (r: Option<&Record>)
        requires
            self.consistent(),
        ensures
            match r {
                Some(rec) => self@.contains_key(address@) && *rec == self@[address@],
                None => !self@.contains_key(address@),
            },
    {
        match self.find(address) {
            Some(i) => Some(&self.entries[i].record),
            None => None,
        }
    }

    /// Creates `record` at `address`, which must hold none.
    pub(crate) fn insert_new(&mut self, address: Key, record: Record)
        requires
            old(self).consistent(),
            !old(self)@.contains_key(address@),
        ensures
            final(self).consistent(),
            final(self)@ == old(self)@.insert(address@, record),
            final(self).program() == old(self).program(),
    {
        let ghost old_entries = self.entries@;
        let ghost store = self.store@;
        let ghost n = self.entries@.len();
        self.entries.push(Entry { address, record });
        self.store = Ghost(store.insert(address@, record));
        assert forall|i: int| 0 <= i < n implies old_entries[i].address@ != address@ by {
            assert(store.contains_key(old_entries[i].address@));
        }
        assert forall|a: Seq<u8>| #[trigger] self.store@.contains_key(a) implies exists|i: int|
            0 <= i < self.entries@.len() && #[trigger] self.entries@[i].address@ == a by {
            if a == address@ {
                assert(self.entries@[n as int].address@ == a);
            } else {
                assert(store.contains_key(a));
                let i = choose|i: int| 0 <= i < n && #[trigger] old_entries[i].address@ == a;
                assert(self.entries@[i].address@ == a);
            }
        }
    }

    /// Replaces the record at `address`, which must hold one.
    pub(crate) fn overwrite(&mut self, address: &Key, record: Record)
        requires
            old(self).consistent(),
            old(self)@.contains_key(address@),
        ensures
            final(self).consistent(),
            final(self)@ == old(self)@.insert(address@, record),
            final(self).program() == old(self).program(),
    {
        let i = match self.find(address) {
            Some(i) => i,
            None => { return; },
        };
        let ghost old_entries = self.entries@;
        let ghost store = self.store@;
        let at = self.entries[i].address;
        self.entries.set(i, Entry { address: at, record });
        self.store = Ghost(store.insert(address@, record));
        assert forall|a: Seq<u8>| #[trigger] self.store@.contains_key(a) implies exists|j: int|
            0 <= j < self.entries@.len() && #[trigger] self.entries@[j].address@ == a by {
            assert(store.contains_key(a));
            let j = choose|j: int|
                0 <= j < old_entries.len() && #[trigger] old_entries[j].address@ == a;
            assert(self.entries@[j].address@ == a);
        }
    }
}

} // verus!
