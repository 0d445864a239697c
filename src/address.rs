//! Slot addresses and their deterministic derivation from seeds.

use vstd::prelude::*;
use vstd::string::StringSliceAdditionalSpecFns;

verus! {

/// Most seeds that one derivation may take, the bump included.
pub const MAX_SEEDS: usize = 16;

/// Longest seed, in bytes.
pub const MAX_SEED_LEN: usize = 32;

/// A 32-byte public identifier: a caller, an authority or a derived slot.
#[derive(Clone, Copy, Debug, Hash)]
pub struct Address {
    pub bytes: [u8; 32],
}

impl View for Address {
    type V = Seq<u8>;

    open spec fn view(&self) -> Seq<u8> {
        self.bytes@
    }
}

impl Address {
    /// The address made of the given bytes.
    pub fn new(bytes: [u8; 32]) -> (r: Address)
        ensures
            r@ == bytes@,
    {
        Address { bytes }
    }

    /// Whether two addresses hold the same bytes.
    pub fn same_as(&self, other: &Address) -> (r: bool)
        ensures
            r == (self@ == other@),
    {
        let mut i: usize = 0;
        while i < 32
            invariant
                0 <= i <= 32,
                self@.len() == 32,
                other@.len() == 32,
                forall|j: int| 0 <= j < i ==> self@[j] == other@[j],
            decreases 32 - i,
        {
            if self.bytes[i] != other.bytes[i] {
                return false;
            }
            i = i + 1;
        }
        assert(self@ =~= other@);
        true
    }
}

impl PartialEq for Address {
    fn eq(&self, other: &Address) -> (r: bool) {
        self.same_as(other)
    }
}

impl vstd::std_specs::cmp::PartialEqSpecImpl for Address {
    open spec fn obeys_eq_spec() -> bool {
        true
    }

    open spec fn eq_spec(&self, other: &Address) -> bool {
        self@ == other@
    }
}

impl Eq for Address {
}


/// Why a derivation produced no address.
#[derive(Clone, Copy, Debug, PartialEq, Eq, Structural)]
pub enum DerivationError {
    /// Too many seeds, or one of them too long.
    MaxSeedLengthExceeded,
    /// The digest of the seeds is a curve point, so no slot lives there.
    InvalidSeeds,
    /// No bump in the search range gave an address off the curve.
    NoViableBump,
}

/// What `Pubkey::create_program_address` gives for seeds within the limits:
/// the derived address, or none where the digest lies on the curve.
pub uninterp spec fn program_address(seeds: Seq<Seq<u8>>, program_id: Seq<u8>) -> Option<Seq<u8>>;

/// What `Pubkey::try_find_program_address` gives: the first address found
/// with the bumps tried from 255 downwards, and that bump.
pub uninterp spec fn canonical_address(seeds: Seq<Seq<u8>>, program_id: Seq<u8>) -> Option<(Seq<u8>, u8)>;

/// The seeds that one derivation may take.
pub open spec fn seeds_within_limits(seeds: Seq<Seq<u8>>) -> bool {
    &&& seeds.len() <= MAX_SEEDS
    &&& forall|i: int| 0 <= i < seeds.len() ==> #[trigger] seeds[i].len() <= MAX_SEED_LEN
}

/// The seeds followed by the one-byte bump seed.
pub open spec fn with_bump(seeds: Seq<Seq<u8>>, bump: u8) -> Seq<Seq<u8>> {
    seeds.push(seq![bump])
}

/// The result of deriving a slot from seeds and a bump.
pub open spec fn derived(seeds: Seq<Seq<u8>>, bump: u8, program_id: Seq<u8>) -> Result<Seq<u8>, DerivationError> {
    if !seeds_within_limits(with_bump(seeds, bump)) {
        Err(DerivationError::MaxSeedLengthExceeded)
    } else {
        match program_address(with_bump(seeds, bump), program_id) {
            Some(a) => Ok(a),
            None => Err(DerivationError::InvalidSeeds),
        }
    }
}

/// The result of searching for the canonical bump of some seeds.
pub open spec fn found(seeds: Seq<Seq<u8>>, program_id: Seq<u8>) -> Result<(Seq<u8>, u8), DerivationError> {
    if !seeds_within_limits(with_bump(seeds, 0)) {
        Err(DerivationError::MaxSeedLengthExceeded)
    } else {
        match canonical_address(seeds, program_id) {
            Some(p) => Ok(p),
            None => Err(DerivationError::NoViableBump),
        }
    }
}

/// Relies on `Pubkey::create_program_address`: within the limits it fails
/// only where the digest is a curve point, and the address depends on the
/// seeds and the program alone.
#[verifier::external_body]
fn create_address(seeds: &Vec<Vec<u8>>, program_id: &Address) -> (r: Option<Address>)
    requires
        seeds_within_limits(seeds.deep_view()),
    ensures
        match r {
            Some(a) => program_address(seeds.deep_view(), program_id@) == Some(a@),
            None => program_address(seeds.deep_view(), program_id@) is None,
        },
{
    let parts: Vec<&[u8]> = seeds.iter().map(|s| s.as_slice()).collect();
    let program = anchor_lang::prelude::Pubkey::new_from_array(program_id.bytes);
    match anchor_lang::prelude::Pubkey::create_program_address(&parts, &program) {
        Ok(key) => Some(Address::new(key.to_bytes())),
        Err(_) => None,
    }
}

/// Relies on `Pubkey::try_find_program_address`: it tries the bumps from 255
/// down to 1 with `create_program_address` and returns the first address
/// found, so every higher bump gave none.
#[verifier::external_body]
fn search_address(seeds: &Vec<Vec<u8>>, program_id: &Address) -> (r: Option<(Address, u8)>)
    ensures
        match r {
            Some((a, b)) => {
                &&& canonical_address(seeds.deep_view(), program_id@) == Some((a@, b))
                &&& 1 <= b
                &&& program_address(with_bump(seeds.deep_view(), b), program_id@) == Some(a@)
                &&& forall|c: u8| b < c ==> (#[trigger] program_address(with_bump(seeds.deep_view(), c), program_id@)) is None
            },
            None => canonical_address(seeds.deep_view(), program_id@) is None,
        },
{
    let parts: Vec<&[u8]> = seeds.iter().map(|s| s.as_slice()).collect();
    let program = anchor_lang::prelude::Pubkey::new_from_array(program_id.bytes);
    match anchor_lang::prelude::Pubkey::try_find_program_address(&parts, &program) {
        Some((key, bump)) => Some((Address::new(key.to_bytes()), bump)),
        None => None,
    }
}

/// Whether the seeds are within the limits of one derivation.
pub fn seeds_fit(seeds: &Vec<Vec<u8>>) -> (r: bool)
    ensures
        r == seeds_within_limits(seeds.deep_view()),
{
    if seeds.len() > MAX_SEEDS {
        return false;
    }
    let mut i: usize = 0;
    while i < seeds.len()
        invariant
            0 <= i <= seeds.len(),
            seeds.len() <= MAX_SEEDS,
            forall|j: int| 0 <= j < i ==> #[trigger] seeds.deep_view()[j].len() <= MAX_SEED_LEN,
        decreases seeds.len() - i,
    {
        if seeds[i].len() > MAX_SEED_LEN {
            assert(seeds.deep_view()[i as int].len() > MAX_SEED_LEN);
            return false;
        }
        i = i + 1;
    }
    true
}

/// Derives the slot of the seeds and a known bump. Identical inputs give the
/// identical address: no search and no state is involved.
pub fn derive_address(seeds: Vec<Vec<u8>>, bump: u8, program_id: &Address) -> (r: Result<Address, DerivationError>)
    ensures
        match r {
            Ok(a) => derived(seeds.deep_view(), bump, program_id@) == Ok::<Seq<u8>, DerivationError>(a@),
            Err(e) => derived(seeds.deep_view(), bump, program_id@) == Err::<Seq<u8>, DerivationError>(e),
        },
{
    let ghost base = seeds.deep_view();
    let ghost parts = seeds@;
    let mut all = seeds;
    let mut last: Vec<u8> = Vec::new();
    last.push(bump);
    assert(last@ =~= seq![bump]);
    all.push(last);
    assert forall|i: int| 0 <= i < all.deep_view().len() implies #[trigger] all.deep_view()[i] == with_bump(base, bump)[i] by {
        if i < base.len() {
            assert(all@[i] == parts[i]);
        }
    }
    assert(all.deep_view() =~= with_bump(base, bump));
    if !seeds_fit(&all) {
        return Err(DerivationError::MaxSeedLengthExceeded);
    }
    match create_address(&all, program_id) {
        Some(a) => Ok(a),
        None => Err(DerivationError::InvalidSeeds),
    }
}

/// Searches the canonical bump of the seeds: the highest one whose slot lies
/// off the curve. The bump is meant to be stored with the record, so that
/// later lookups derive the slot at once.
pub fn find_address(seeds: &Vec<Vec<u8>>, program_id: &Address) -> (r: Result<(Address, u8), DerivationError>)
    ensures
        match r {
            Ok((a, b)) => found(seeds.deep_view(), program_id@) == Ok::<(Seq<u8>, u8), DerivationError>((a@, b)),
            Err(e) => found(seeds.deep_view(), program_id@) == Err::<(Seq<u8>, u8), DerivationError>(e),
        },
        r is Ok ==> derived(seeds.deep_view(), r->Ok_0.1, program_id@) == Ok::<Seq<u8>, DerivationError>(r->Ok_0.0@),
{
    if seeds.len() >= MAX_SEEDS {
        assert(with_bump(seeds.deep_view(), 0).len() > MAX_SEEDS);
        return Err(DerivationError::MaxSeedLengthExceeded);
    }
    if !seeds_fit(seeds) {
        assert(!seeds_within_limits(with_bump(seeds.deep_view(), 0))) by {
            let w = with_bump(seeds.deep_view(), 0);
            let j = choose|j: int| 0 <= j < seeds.deep_view().len() && #[trigger] seeds.deep_view()[j].len() > MAX_SEED_LEN;
            assert(w[j] == seeds.deep_view()[j]);
        }
        return Err(DerivationError::MaxSeedLengthExceeded);
    }
    proof {
        lemma_bump_keeps_limits(seeds.deep_view(), 0);
    }
    match search_address(seeds, program_id) {
        Some((a, b)) => {
            proof {
                lemma_bump_keeps_limits(seeds.deep_view(), b);
            }
            Ok((a, b))
        },
        None => Err(DerivationError::NoViableBump),
    }
}

/// The canonical bump of the seeds, where the search finds exactly the
/// given slot.
pub open spec fn slot_bump(seeds: Seq<Seq<u8>>, program_id: Seq<u8>, key: Seq<u8>) -> Option<u8> {
    match found(seeds, program_id) {
        Ok((a, b)) => if a == key {
            Some(b)
        } else {
            None
        },
        Err(_) => None,
    }
}

/// Confirms that `key` is the canonical slot of the seeds, and gives the bump
/// to store with the record created there: the seeds with that bump derive
/// the slot again, with no search.
pub fn bump_of_slot(seeds: &Vec<Vec<u8>>, program_id: &Address, key: &Address) -> (r: Option<u8>)
    ensures
        r == slot_bump(seeds.deep_view(), program_id@, key@),
        r is Some ==> derived(seeds.deep_view(), r->Some_0, program_id@) == Ok::<Seq<u8>, DerivationError>(key@),
{
    match find_address(seeds, program_id) {
        Ok((a, b)) => if a.same_as(key) {
            Some(b)
        } else {
            None
        },
        Err(_) => None,
    }
}

/// The bytes of an address, as a seed.
pub fn address_seed(a: &Address) -> (r: Vec<u8>)
    ensures
        r@ == a@,
{
    vstd::slice::slice_to_vec(a.bytes.as_slice())
}

/// Length in bytes of the UTF-8 encoding of a text.
pub open spec fn utf8_len(t: Seq<char>) -> nat {
    vstd::utf8::encode_utf8(t).len()
}

/// Length of a text in bytes.
pub fn text_len(t: &String) -> (r: usize)
    ensures
        r == utf8_len(t@),
{
    t.as_str().as_bytes().len()
}

/// The bytes of a text, as a seed.
pub fn text_seed(t: &str) -> (r: Vec<u8>)
    ensures
        r@ == t.spec_bytes(),
{
    vstd::slice::slice_to_vec(t.as_bytes())
}

/// A list of seeds seen as a sequence of byte strings.
pub proof fn lemma_seed_list_view(seeds: Vec<Vec<u8>>)
    ensures
        seeds.deep_view().len() == seeds@.len(),
        forall|i: int| 0 <= i < seeds@.len() ==> #[trigger] seeds.deep_view()[i] == seeds@[i]@,
{
    assert forall|i: int| 0 <= i < seeds@.len() implies #[trigger] seeds.deep_view()[i] == seeds@[i]@ by {
        assert(seeds@[i].deep_view() =~= seeds@[i]@);
    }
}

/// Seeds within the limits with room for one more stay within them once any
/// bump is added.
proof fn lemma_bump_keeps_limits(seeds: Seq<Seq<u8>>, bump: u8)
    requires
        seeds_within_limits(seeds),
        seeds.len() < MAX_SEEDS,
    ensures
        seeds_within_limits(with_bump(seeds, bump)),
{
    let w = with_bump(seeds, bump);
    assert forall|i: int| 0 <= i < w.len() implies #[trigger] w[i].len() <= MAX_SEED_LEN by {
        if i < seeds.len() {
            assert(w[i] == seeds[i]);
        }
    }
}

/// Deriving is a function of its inputs: two derivations from the same seeds,
/// bump and program agree, and a bump found by the search derives the slot
/// found with it.
pub proof fn lemma_derivation_is_deterministic(
    seeds1: Seq<Seq<u8>>,
    bump1: u8,
    program1: Seq<u8>,
    seeds2: Seq<Seq<u8>>,
    bump2: u8,
    program2: Seq<u8>,
)
    requires
        seeds1 == seeds2,
        bump1 == bump2,
        program1 == program2,
    ensures
        derived(seeds1, bump1, program1) == derived(seeds2, bump2, program2),
        found(seeds1, program1) == found(seeds2, program2),
{
}

} // verus!
