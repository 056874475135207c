use vstd::prelude::*;

verus! {

/// A 32-byte account address.
#[derive(Clone, Copy, Debug)]
pub struct Address {
    pub bytes: [u8; 32],
}

impl View for Address {
    type V = Seq<u8>;

    open spec fn view(&self) -> Seq<u8> {
        self.bytes@
    }
}

impl Address {
    /// The address made of `bytes`.
    pub fn new(bytes: [u8; 32]) -> (r: Address)
        ensures
            r@ == bytes@,
    {
        Address { bytes }
    }

    /// Tells whether `self` and `other` are the same address.
    pub fn same_as(&self, other: &Address) -> (r: bool)
        ensures
            r == (self@ == other@),
    {
        let mut i: usize = 0;
        while i < 32
            invariant
                i <= 32,
                self@.len() == 32,
                other@.len() == 32,
                forall|j: int| 0 <= j < i ==> self@[j] == other@[j],
            decreases 32 - i,
        {
            if self.bytes[i] != other.bytes[i] {
                return false;
            }
            i = i + 1;
        }
        assert(self@ =~= other@);
        true
    }

    /// The address as seed material: its 32 bytes.
    pub fn to_seed(&self) -> (r: Vec<u8>)
        ensures
            r@ == self@,
    {
        let mut r: Vec<u8> = Vec::new();
        let mut i: usize = 0;
        while i < 32
            invariant
                i <= 32,
                self@.len() == 32,
                r@ =~= self@.subrange(0, i as int),
            decreases 32 - i,
        {
            r.push(self.bytes[i]);
            i = i + 1;
        }
        assert(r@ =~= self@);
        r
    }
}

impl PartialEq for Address {
    fn eq(&self, other: &Address) -> (r: bool) {
        self.same_as(other)
    }
}

impl vstd::std_specs::cmp::PartialEqSpecImpl for Address {
    open spec fn obeys_eq_spec() -> bool {
        true
    }

    open spec fn eq_spec(&self, other: &Address) -> bool {
        self@ == other@
    }
}

/// The views of a list of seeds.
pub open spec fn seeds_view(seeds: Seq<Vec<u8>>) -> Seq<Seq<u8>> {
    seeds.map_values(|s: Vec<u8>| s@)
}

/// The program-derived address of `seeds` under `program`, or `None` where
/// the seeds are refused or hash to a point on the curve.
pub uninterp spec fn program_address_of(seeds: Seq<Seq<u8>>, program: Seq<u8>) -> Option<Seq<u8>>;

/// The first program-derived address of `seeds` under `program` found by
/// trying disambiguation bytes downwards from 255, with that byte.
pub uninterp spec fn canonical_address_of(seeds: Seq<Seq<u8>>, program: Seq<u8>) -> Option<(Seq<u8>, u8)>;

/// Relies on solana_program's `Pubkey::create_program_address`: a function
/// of the seeds and the program id alone, which refuses more than 16 seeds.
#[verifier::external_body]
fn create_program_address(seeds: &Vec<Vec<u8>>, program_id: &Address) -> (r: Option<Address>)
    ensures
        match r {
            Some(a) => program_address_of(seeds_view(seeds@), program_id@) == Some(a@),
            None => program_address_of(seeds_view(seeds@), program_id@) is None,
        },
        seeds@.len() > 16 ==> r is None,
{
    let parts: Vec<&[u8]> = seeds.iter().map(|s| s.as_slice()).collect();
    let program = solana_program::pubkey::Pubkey::new_from_array(program_id.bytes);
    match solana_program::pubkey::Pubkey::create_program_address(&parts, &program) {
        Ok(key) => Some(Address { bytes: key.to_bytes() }),
        Err(_) => None,
    }
}

/// Relies on solana_program's `Pubkey::try_find_program_address`: a function
/// of the seeds and the program id alone.
#[verifier::external_body]
fn try_find_program_address(seeds: &Vec<Vec<u8>>, program_id: &Address) -> (r: Option<(Address, u8)>)
    ensures
        match r {
            Some((a, b)) => canonical_address_of(seeds_view(seeds@), program_id@) == Some((a@, b)),
            None => canonical_address_of(seeds_view(seeds@), program_id@) is None,
        },
{
    let parts: Vec<&[u8]> = seeds.iter().map(|s| s.as_slice()).collect();
    let program = solana_program::pubkey::Pubkey::new_from_array(program_id.bytes);
    solana_program::pubkey::Pubkey::try_find_program_address(&parts, &program).map(
        |(key, bump)| (Address { bytes: key.to_bytes() }, bump),
    )
}

/// Whether `key` is the address derived from `seeds` followed by the one-byte
/// seed `bump`, under `program`.
pub open spec fn is_derived(seeds: Seq<Seq<u8>>, bump: u8, program: Seq<u8>, key: Seq<u8>) -> bool {
    program_address_of(seeds.push(seq![bump]), program) == Some(key)
}

/// Whether `key` is the canonical address derived from `seeds` under `program`.
pub open spec fn is_canonical(seeds: Seq<Seq<u8>>, program: Seq<u8>, key: Seq<u8>) -> bool {
    match canonical_address_of(seeds, program) {
        Some((a, _)) => a == key,
        None => false,
    }
}

/// Checks that `key` is derived from `seeds` and the disambiguation byte
/// `bump` under `program_id`.
pub fn check_derived(seeds: Vec<Vec<u8>>, bump: u8, program_id: &Address, key: &Address) -> (r: bool)
    ensures
        r == is_derived(seeds_view(seeds@), bump, program_id@, key@),
{
    let mut all = seeds;
    let ghost before = all@;
    let last: Vec<u8> = vec![bump];
    assert(last@ =~= seq![bump]);
    all.push(last);
    assert(seeds_view(all@) =~= seeds_view(before).push(seq![bump]));
    match create_program_address(&all, program_id) {
        Some(a) => a.same_as(key),
        None => false,
    }
}

/// Checks that `key` is the canonical address derived from `seeds` under
/// `program_id`.
pub fn check_canonical(seeds: Vec<Vec<u8>>, program_id: &Address, key: &Address) -> (r: bool)
    ensures
        r == is_canonical(seeds_view(seeds@), program_id@, key@),
{
    match try_find_program_address(&seeds, program_id) {
        Some((a, _)) => a.same_as(key),
        None => false,
    }
}

} // verus!
