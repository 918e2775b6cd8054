//! Principal identities and record addresses, and their deterministic derivation.
use vstd::prelude::*;

verus! {

/// A 32-byte key: the identity of a principal, or the address of a record.
#[derive(Clone, Copy, Debug, PartialEq, Eq, Hash)]
pub struct Key {
    pub bytes: [u8; 32],
}

impl View for Key {
    type V = Seq<u8>;

    open spec fn view(&self) -> Seq<u8> {
        self.bytes@
    }
}

impl Key {
    /// Builds a key from its 32 bytes.
    pub fn new(bytes: [u8; 32]) -> (r: Key)
        ensures
            r@ == bytes@,
    {
        Key { bytes }
    }

    /// The 32 bytes of the key, in order.
    pub fn to_vec(&self) -> (r: Vec<u8>)
        ensures
            r@ == self@,
    {
        let mut r: Vec<u8> = Vec::new();
        let mut i: usize = 0;
        while i < 32
            invariant
                0 <= i <= 32,
                self@.len() == 32,
                r@ == self@.subrange(0, i as int),
            decreases 32 - i,
        {
            r.push(self.bytes[i]);
            i = i + 1;
            assert(r@ =~= self@.subrange(0, i as int));
        }
        assert(r@ =~= self@);
        r
    }

    /// Compares two keys byte by byte.
    pub fn same_as(&self, other: &Key) -> (r: bool)
        ensures
            r == (self@ == other@),
    {
        let mut i: usize = 0;
        while i < 32
            invariant
                0 <= i <= 32,
                self@.len() == 32,
                other@.len() == 32,
                forall|j: int| 0 <= j < i ==> self@[j] == other@[j],
            decreases 32 - i,
        {
            if self.bytes[i] != other.bytes[i] {
                return false;
            }
            i = i + 1;
        }
        assert(self@ =~= other@);
        true
    }
}

/// The address that the runtime derives for a program from a sequence of
/// seeds, or `None` where no valid address exists for them.
pub uninterp spec fn program_address(seeds: Seq<Seq<u8>>, program: Seq<u8>) -> Option<Seq<u8>>;

/// The seeds as byte sequences.
pub open spec fn seeds_view(seeds: Seq<Vec<u8>>) -> Seq<Seq<u8>> {
    seeds.map_values(|s: Vec<u8>| s@)
}

/// The view of an optional key.
pub open spec fn key_view(k: Option<Key>) -> Option<Seq<u8>> {
    match k {
        Some(k) => Some(k@),
        None => None,
    }
}

/// Relies on anchor_lang's `Pubkey::try_find_program_address`: the program
/// derived address of `seeds` under `program`, a function of the two alone
/// (the bump seed that it also returns is dropped).
#[verifier::external_body]
pub(crate) fn find_program_address(seeds: &Vec<Vec<u8>>, program: &Key) -> (r: Option<Key>)
    ensures
        key_view(r) == program_address(seeds_view(seeds@), program@),
{
    let refs: Vec<&[u8]> = seeds.iter().map(|s| s.as_slice()).collect();
    let program_id = anchor_lang::prelude::Pubkey::new_from_array(program.bytes);
    anchor_lang::prelude::Pubkey::try_find_program_address(&refs, &program_id)
        .map(|(address, _)| Key { bytes: address.to_bytes() })
}

} // verus!
