//! Addresses, and the derivation of a contract's address from its maker and
//! slug.

use vstd::prelude::*;
use vstd::utf8::encode_utf8;
use solana_program::pubkey::Pubkey;
use crate::error::TradeError;

verus! {

/// The identity of an account: thirty-two bytes.
#[derive(Clone, Copy, Debug)]
pub struct Address {
    pub bytes: [u8; 32],
}

impl View for Address {
    type V = Seq<u8>;

    open spec fn view(&self) -> Seq<u8> {
        self.bytes@
    }
}

impl Address {
    /// The address made of these bytes.
    pub fn new(bytes: [u8; 32]) -> (a: Address)
        ensures
            a@ == bytes@,
            a.bytes == bytes,
    {
        Address { bytes }
    }

    /// Whether two addresses hold the same bytes.
    pub fn equals(&self, other: &Address) -> (same: bool)
        ensures
            same == (self@ == other@),
            same == (*self == *other),
    {
        let mut i: usize = 0;
        while i < 32
            invariant
                0 <= i <= 32,
                forall|j: int| 0 <= j < i ==> self.bytes[j] == other.bytes[j],
            decreases 32 - i,
        {
            if self.bytes[i] != other.bytes[i] {
                assert(self@[i as int] != other@[i as int]);
                return false;
            }
            i += 1;
        }
        proof {
            lemma_same_bytes(*self, *other);
        }
        true
    }
}

/// Two addresses with the same bytes are the same address.
pub proof fn lemma_same_bytes(a: Address, b: Address)
    requires
        forall|j: int| 0 <= j < 32 ==> a.bytes[j] == b.bytes[j],
    ensures
        a == b,
        a@ == b@,
{
    assert(a.bytes =~= b.bytes);
    assert(a@ =~= b@);
}

/// The namespace tag under which contract addresses are derived: the bytes
/// of the word "trade".
pub const TRADE_TAG: [u8; 5] = [116, 114, 97, 100, 101];

/// The longest seed, in bytes, that an address can be derived from.
pub const MAX_SEED_LEN: usize = 32;

/// The address, off the signing curve, that `solana_program` derives for a
/// program from a list of seeds, and the nonce that it appended to the seeds
/// to get there; `None` where no nonce gives one.
pub uninterp spec fn program_address(seeds: Seq<Seq<u8>>, program: Seq<u8>) -> Option<
    (Seq<u8>, u8),
>;

/// What a derivation found, by its bytes.
pub open spec fn found_view(found: Option<(Address, u8)>) -> Option<(Seq<u8>, u8)> {
    match found {
        Some((address, nonce)) => Some((address@, nonce)),
        None => None,
    }
}

/// Calls `Pubkey::try_find_program_address` of `solana_program` on three
/// seeds, the last of them an address. Trusted: it finds nothing when a
/// seed is longer than `MAX_SEED_LEN` bytes, and otherwise what it finds
/// depends on the seeds and the program alone.
#[verifier::external_body]
fn find_program_address(
    tag: &[u8],
    slug: &[u8],
    maker: &Address,
    program: &Address,
) -> (found: Option<(Address, u8)>)
    ensures
        found_view(found) == if tag@.len() > MAX_SEED_LEN || slug@.len() > MAX_SEED_LEN {
            None
        } else {
            program_address(seq![tag@, slug@, maker@], program@)
        },
{
    let seeds: [&[u8]; 3] = [tag, slug, &maker.bytes];
    Pubkey::try_find_program_address(&seeds, &Pubkey::new_from_array(program.bytes)).map(
        |(key, nonce)| (Address { bytes: key.to_bytes() }, nonce),
    )
}

/// The seeds of a contract's address: the tag, the slug's bytes and the
/// maker.
pub open spec fn spec_seeds(maker: Seq<u8>, slug: Seq<char>) -> Seq<Seq<u8>> {
    seq![TRADE_TAG@, encode_utf8(slug), maker]
}

/// The contract address of a maker and a slug under an engine, and the
/// nonce that disambiguates it: derived from their seeds. A slug of more
/// than `MAX_SEED_LEN` bytes has none.
pub open spec fn spec_derive(engine: Seq<u8>, maker: Seq<u8>, slug: Seq<char>) -> Option<
    (Seq<u8>, u8),
> {
    if encode_utf8(slug).len() > MAX_SEED_LEN {
        None
    } else {
        program_address(spec_seeds(maker, slug), engine)
    }
}

/// What `derive` returns for given arguments.
pub open spec fn derive_result(
    engine: Seq<u8>,
    maker: Seq<u8>,
    slug: Seq<char>,
    r: Result<(Address, u8), TradeError>,
) -> bool {
    match spec_derive(engine, maker, slug) {
        Some((address, nonce)) => r matches Ok((a, n)) && a@ == address && n == nonce,
        None => r == Err::<(Address, u8), TradeError>(TradeError::AddressDerivationExhausted),
    }
}

/// Derives contract addresses under one engine.
#[derive(Clone, Copy, Debug)]
pub struct AddressDeriver {
    /// The identity of the engine that the contracts belong to.
    pub engine: Address,
}

impl AddressDeriver {
    /// The deriver of the engine with this identity.
    pub fn new(engine: Address) -> (deriver: AddressDeriver)
        ensures
            deriver.engine == engine,
    {
        AddressDeriver { engine }
    }

    /// Derives the address of the contract that `maker` opens under `slug`,
    /// with its nonce. Fails with `AddressDerivationExhausted` where there
    /// is none.
    pub fn derive(&self, maker: &Address, slug: &str) -> (r: Result<(Address, u8), TradeError>)
        ensures
            derive_result(self.engine@, maker@, slug@, r),
    {
        match find_program_address(&TRADE_TAG, slug.as_bytes(), maker, &self.engine) {
            Some(found) => Ok(found),
            None => Err(TradeError::AddressDerivationExhausted),
        }
    }
}

/// Derivation is a function of its arguments: two results for the same
/// engine, maker and slug are the same.
pub proof fn law_derive_deterministic(
    engine: Seq<u8>,
    maker: Seq<u8>,
    slug: Seq<char>,
    first: Result<(Address, u8), TradeError>,
    second: Result<(Address, u8), TradeError>,
)
    requires
        derive_result(engine, maker, slug, first),
        derive_result(engine, maker, slug, second),
    ensures
        first == second,
{
    if let Ok((a, _)) = first {
        if let Ok((b, _)) = second {
            assert(a@ == b@);
            assert forall|j: int| 0 <= j < 32 implies a.bytes[j] == b.bytes[j] by {
                assert(a@[j] == b@[j]);
            }
            lemma_same_bytes(a, b);
        }
    }
}

/// Two different pairs of maker and slug never have the same seeds.
pub proof fn law_seeds_distinct(
    maker: Seq<u8>,
    slug: Seq<char>,
    other_maker: Seq<u8>,
    other_slug: Seq<char>,
)
    requires
        maker != other_maker || slug != other_slug,
    ensures
        spec_seeds(maker, slug) != spec_seeds(other_maker, other_slug),
{
    if spec_seeds(maker, slug) == spec_seeds(other_maker, other_slug) {
        assert(spec_seeds(maker, slug)[2] == maker);
        assert(spec_seeds(other_maker, other_slug)[2] == other_maker);
        assert(spec_seeds(maker, slug)[1] == encode_utf8(slug));
        assert(spec_seeds(other_maker, other_slug)[1] == encode_utf8(other_slug));
        vstd::utf8::encode_utf8_decode_utf8(slug);
        vstd::utf8::encode_utf8_decode_utf8(other_slug);
    }
}

} // verus!
